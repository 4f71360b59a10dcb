use jq_repl::session::Answer;
use jq_repl::{
    exit_code, run, Action, Error, Event, ExitStatus, InputFile, IoFailure, Opt, Phase, Session,
    Shape, Stdio,
};

fn strings(items: &[&str]) -> Vec<String> {
    items.iter().map(|s| s.to_string()).collect()
}

fn default_opt() -> Opt {
    Opt {
        jq_bin: "gojq".to_string(),
        fzf_bin: "fzf".to_string(),
        charcounter_bin: "charcounter".to_string(),
        charcounter_options: vec![],
        braille_bin: "braille".to_string(),
        history_file: "/tmp/h".to_string(),
        null_input: false,
        null_input_flag: "-n".to_string(),
        pass_as_stdin: false,
        raw_input: false,
        show_fzf_command: false,
        use_default_args: true,
        jq_repl_lib: "~/.jq".to_string(),
        no_default_include: false,
        color_flag: "-C".to_string(),
        no_color_flag: "-M".to_string(),
        compact_flag: "-c".to_string(),
        raw_input_flag: "-R".to_string(),
        editor: "nvim".to_string(),
        editor_options: strings(&["-c 'set ft=json' -"]),
        files: strings(&["/tmp/foo.json"]),
        pager: "less".to_string(),
        pager_options: strings(&[""]),
        version_verbose: false,
        fzf_args: vec![],
        jq_args: vec![],
    }
}

fn opt_with_files(files: &[&str]) -> Opt {
    let mut opt = default_opt();
    opt.files = strings(files);
    opt
}

fn single(opt: Opt) -> Session {
    Session::new(opt, Shape::SinglePhase)
}

fn start(stdin_is_terminal: bool) -> Event {
    Event::Start { stdin_is_terminal, stdout_is_terminal: true }
}

fn status(code: Option<i32>) -> ExitStatus {
    ExitStatus { code, message: format!("exit status: {code:?}") }
}

fn exited(code: Option<i32>) -> Event {
    Event::Exited(Ok(status(code)))
}

fn answered(code: Option<i32>, output: &[u8]) -> Event {
    Event::Answered(Ok(Answer { status: status(code), output: output.to_vec() }))
}

fn plan_of(action: Action) -> jq_repl::render::RenderPlan {
    match action {
        Action::Render(plan) => plan,
        other => panic!("not a render: {other:?}"),
    }
}

fn two_phase(opt: Opt, stdin_is_terminal: bool, stdout_is_terminal: bool) -> (Session, Action) {
    let session = Session::new(opt, Shape::TwoPhase);
    let (mut session, mut action) =
        run(session, Event::Start { stdin_is_terminal, stdout_is_terminal });
    while let Action::Inspect { .. } = action {
        (session, action) = run(session, Event::Inspected { is_file: true });
    }
    (session, action)
}

fn failure(message: &str) -> IoFailure {
    IoFailure { not_found: false, message: message.to_string() }
}

const PREFIX: &str = "gojq -L ~/.jq -L ~/.jq/.jq --raw-output -C";

fn preview_of(action: &Action) -> String {
    match action {
        Action::Spawn(command) => command
            .args
            .iter()
            .find(|arg| arg.starts_with("--preview="))
            .unwrap()
            .strip_prefix("--preview=")
            .unwrap()
            .to_string(),
        other => panic!("not a spawn: {other:?}"),
    }
}

fn finished(action: Action) -> (Vec<String>, Result<(), Error>) {
    match action {
        Action::Finish { release, outcome } => (release, outcome),
        other => panic!("not finished: {other:?}"),
    }
}

#[test]
fn new_session_is_ready_and_holds_nothing() {
    let session = single(default_opt());
    assert_eq!(session.phase(), Phase::Ready);
    assert!(session.files().is_empty());
    assert!(!session.is_done());
    assert_eq!(session.opt().jq_bin, "gojq");
}

#[test]
fn existing_file_is_used_where_it_lies() {
    let session = single(default_opt());
    let (session, action) = run(session, start(true));
    assert!(matches!(&action, Action::Inspect { path } if path == "/tmp/foo.json"));
    assert_eq!(session.phase(), Phase::Inspecting(0));
    let (session, action) = run(session, Event::Inspected { is_file: true });
    assert_eq!(session.phase(), Phase::Selecting);
    assert_eq!(session.files(), &vec![InputFile::File("/tmp/foo.json".to_string())]);
    assert_eq!(preview_of(&action), format!("{PREFIX} {{q}} /tmp/foo.json"));
    match &action {
        Action::Spawn(command) => {
            assert_eq!(command.program, "fzf");
            assert_eq!(command.stdin, Stdio::Null);
            assert_eq!(command.stdout, Stdio::Inherit);
        },
        other => panic!("unexpected: {other:?}"),
    }
    let (session, action) = run(session, exited(Some(0)));
    assert!(session.is_done());
    let (release, outcome) = finished(action);
    assert!(release.is_empty());
    assert!(outcome.is_ok());
}

#[test]
fn exit_status_one_is_success() {
    let session = single(default_opt());
    let (session, _) = run(session, start(true));
    let (session, _) = run(session, Event::Inspected { is_file: true });
    let (_, action) = run(session, exited(Some(1)));
    let (_, outcome) = finished(action);
    assert!(outcome.is_ok());
    assert_eq!(exit_code(&outcome), 0);
}

#[test]
fn exit_status_two_is_failure_with_code_two() {
    let session = single(default_opt());
    let (session, _) = run(session, start(true));
    let (session, _) = run(session, Event::Inspected { is_file: true });
    let (_, action) = run(session, exited(Some(2)));
    let (_, outcome) = finished(action);
    assert!(matches!(&outcome, Err(Error::Fzf(status)) if status.code == Some(2)));
    assert_eq!(exit_code(&outcome), 2);
}

#[test]
fn selector_that_cannot_start_is_an_io_error() {
    let session = single(default_opt());
    let (session, _) = run(session, start(true));
    let (session, _) = run(session, Event::Inspected { is_file: true });
    let not_found = IoFailure { not_found: true, message: "No such file".to_string() };
    let (_, action) = run(session, Event::Exited(Err(not_found.clone())));
    let (_, outcome) = finished(action);
    assert!(matches!(&outcome, Err(Error::Io(carried)) if *carried == not_found));
    assert_eq!(exit_code(&outcome), 1);
}

#[test]
fn piped_input_without_files_is_materialized_once() {
    let session = single(opt_with_files(&[]));
    let (session, action) = run(session, start(false));
    assert!(matches!(action, Action::CopyStdin));
    assert_eq!(session.phase(), Phase::CopyingStdin);
    assert!(!session.opt().null_input);
    let (session, action) = run(session, Event::Copied(Ok("/tmp/.tmpQ1".to_string())));
    assert_eq!(session.files(), &vec![InputFile::Stdin("/tmp/.tmpQ1".to_string())]);
    assert_eq!(preview_of(&action), format!("{PREFIX} {{q}} /tmp/.tmpQ1"));
    let (session, action) = run(session, exited(Some(0)));
    let (release, outcome) = finished(action);
    assert_eq!(release, vec!["/tmp/.tmpQ1"]);
    assert!(outcome.is_ok());
    assert!(session.files().is_empty());
}

#[test]
fn terminal_without_files_is_null_input() {
    let session = single(opt_with_files(&[]));
    let (session, action) = run(session, start(true));
    assert!(session.opt().null_input);
    assert!(session.files().is_empty());
    assert_eq!(preview_of(&action), format!("{PREFIX} -n {{q}}"));
    match &action {
        Action::Spawn(command) => assert_eq!(command.args[4], "--prompt=-n> "),
        other => panic!("unexpected: {other:?}"),
    }
}

#[test]
fn terminal_with_files_is_not_null_input() {
    let session = single(default_opt());
    let (session, _) = run(session, start(true));
    assert!(!session.opt().null_input);
}

#[test]
fn null_input_option_leaves_the_files_out() {
    let mut opt = default_opt();
    opt.null_input = true;
    let session = single(opt);
    let (session, action) = run(session, start(false));
    assert!(matches!(&action, Action::Inspect { path } if path == "/tmp/foo.json"));
    let (_, action) = run(session, Event::Inspected { is_file: true });
    assert_eq!(preview_of(&action), format!("{PREFIX} -n {{q}}"));
}

#[test]
fn inputs_keep_the_order_of_the_arguments() {
    let session = single(opt_with_files(&["b.json", "-", "fifo", "a b.json", "-"]));
    let (session, action) = run(session, start(false));
    assert!(matches!(&action, Action::Inspect { path } if path == "b.json"));
    let (session, action) = run(session, Event::Inspected { is_file: true });
    assert!(matches!(action, Action::CopyStdin));
    assert_eq!(session.phase(), Phase::Copying(1));
    let (session, action) = run(session, Event::Copied(Ok("/tmp/t1".to_string())));
    assert!(matches!(&action, Action::Inspect { path } if path == "fifo"));
    let (session, action) = run(session, Event::Inspected { is_file: false });
    assert!(matches!(&action, Action::CopyFile { path } if path == "fifo"));
    assert_eq!(session.phase(), Phase::Copying(2));
    let (session, action) = run(session, Event::Copied(Ok("/tmp/t2".to_string())));
    assert!(matches!(&action, Action::Inspect { path } if path == "a b.json"));
    let (session, action) = run(session, Event::Inspected { is_file: true });
    assert!(matches!(action, Action::CopyStdin));
    let (session, action) = run(session, Event::Copied(Ok("/tmp/t3".to_string())));
    assert_eq!(
        session.files(),
        &vec![
            InputFile::File("b.json".to_string()),
            InputFile::Stdin("/tmp/t1".to_string()),
            InputFile::Stdin("/tmp/t2".to_string()),
            InputFile::File("a b.json".to_string()),
            InputFile::Stdin("/tmp/t3".to_string()),
        ]
    );
    assert_eq!(
        preview_of(&action),
        format!("{PREFIX} {{q}} b.json /tmp/t1 /tmp/t2 $'a b.json' /tmp/t3")
    );
    let (_, action) = run(session, exited(Some(130)));
    let (release, outcome) = finished(action);
    assert_eq!(release, vec!["/tmp/t1", "/tmp/t2", "/tmp/t3"]);
    assert_eq!(exit_code(&outcome), 130);
}

#[test]
fn dash_without_piped_input_is_an_ordinary_path() {
    let session = single(opt_with_files(&["-"]));
    let (session, action) = run(session, start(true));
    assert!(matches!(&action, Action::Inspect { path } if path == "-"));
    assert!(!session.opt().null_input);
    let (_, action) = run(session, Event::Inspected { is_file: false });
    assert!(matches!(&action, Action::CopyFile { path } if path == "-"));
}

#[test]
fn failed_copy_releases_what_was_materialized() {
    let session = single(opt_with_files(&["-", "missing.json"]));
    let (session, _) = run(session, start(false));
    let (session, _) = run(session, Event::Copied(Ok("/tmp/t1".to_string())));
    let (session, action) = run(session, Event::Inspected { is_file: false });
    assert!(matches!(&action, Action::CopyFile { path } if path == "missing.json"));
    let (session, action) = run(session, Event::Copied(Err(failure("No such file"))));
    let (release, outcome) = finished(action);
    assert_eq!(release, vec!["/tmp/t1"]);
    assert!(matches!(&outcome, Err(Error::Io(carried)) if *carried == failure("No such file")));
    assert!(session.is_done());
    assert!(session.files().is_empty());
}

#[test]
fn failed_copy_of_piped_input_ends_the_session() {
    let session = single(opt_with_files(&[]));
    let (session, _) = run(session, start(false));
    let (_, action) = run(session, Event::Copied(Err(failure("disk full"))));
    let (release, outcome) = finished(action);
    assert!(release.is_empty());
    assert!(matches!(outcome, Err(Error::Io(_))));
}

#[test]
fn show_command_prints_and_releases() {
    let mut opt = opt_with_files(&["-"]);
    opt.show_fzf_command = true;
    let session = single(opt);
    let (session, _) = run(session, start(false));
    let (session, action) = run(session, Event::Copied(Ok("/tmp/t 1".to_string())));
    assert_eq!(session.phase(), Phase::Showing);
    match &action {
        Action::Print(script) => {
            assert!(script.starts_with("#!/bin/bash\n\nfzf \\\n--disabled \\\n"));
            assert!(script.contains(
                "$'--preview=gojq -L ~/.jq -L ~/.jq/.jq --raw-output -C {q} $\\'/tmp/t 1\\'' \\\n"
            ));
            assert!(script.ends_with(" < /dev/null\n"));
        },
        other => panic!("unexpected: {other:?}"),
    }
    let (session, action) = run(session, Event::Printed);
    let (release, outcome) = finished(action);
    assert_eq!(release, vec!["/tmp/t 1"]);
    assert!(outcome.is_ok());
    assert!(session.is_done());
}

#[test]
fn nothing_is_released_twice() {
    let session = single(opt_with_files(&[]));
    let (session, _) = run(session, start(false));
    let (session, _) = run(session, Event::Copied(Ok("/tmp/t1".to_string())));
    let (session, action) = run(session, exited(Some(0)));
    assert_eq!(finished(action).0, vec!["/tmp/t1"]);
    let (session, action) = run(session, Event::Printed);
    let (release, outcome) = finished(action);
    assert!(release.is_empty());
    assert!(matches!(outcome, Err(Error::Custom("unexpected event"))));
    let (_, action) = run(session, exited(Some(0)));
    assert!(finished(action).0.is_empty());
}

#[test]
fn unexpected_event_ends_the_session() {
    let (session, action) = run(single(default_opt()), Event::Printed);
    assert!(session.is_done());
    let (release, outcome) = finished(action);
    assert!(release.is_empty());
    assert!(matches!(&outcome, Err(Error::Custom("unexpected event"))));
    assert_eq!(exit_code(&outcome), 1);

    let session = single(opt_with_files(&["-", "x"]));
    let (session, _) = run(session, start(false));
    let (session, _) = run(session, Event::Copied(Ok("/tmp/t1".to_string())));
    let (session, action) = run(session, start(false));
    assert!(session.is_done());
    assert_eq!(finished(action).0, vec!["/tmp/t1"]);
}

#[test]
fn unexpected_temporary_file_is_released_too() {
    let session = single(opt_with_files(&["-", "x"]));
    let (session, _) = run(session, start(false));
    let (session, _) = run(session, Event::Copied(Ok("/tmp/t1".to_string())));
    assert_eq!(session.phase(), Phase::Inspecting(1));
    let (_, action) = run(session, Event::Copied(Ok("/tmp/t2".to_string())));
    assert_eq!(finished(action).0, vec!["/tmp/t1", "/tmp/t2"]);

    let (_, action) = run(single(default_opt()), Event::Copied(Ok("/tmp/t9".to_string())));
    assert_eq!(finished(action).0, vec!["/tmp/t9"]);
}

#[test]
fn resolving_twice_differs_in_temporary_names_only() {
    let mut sessions = Vec::new();
    for names in [["/tmp/a1", "/tmp/a2"], ["/tmp/b1", "/tmp/b2"]] {
        let session = single(opt_with_files(&["-", "real.json", "pipe"]));
        let (session, _) = run(session, start(false));
        let (session, _) = run(session, Event::Copied(Ok(names[0].to_string())));
        let (session, _) = run(session, Event::Inspected { is_file: true });
        let (session, _) = run(session, Event::Inspected { is_file: false });
        let (session, _) = run(session, Event::Copied(Ok(names[1].to_string())));
        sessions.push(session);
    }
    let (first, second) = (&sessions[0], &sessions[1]);
    assert_eq!(first.phase(), second.phase());
    assert_eq!(first.files().len(), second.files().len());
    for (a, b) in first.files().iter().zip(second.files().iter()) {
        match (a, b) {
            (InputFile::File(_), InputFile::File(_)) => assert_eq!(a.to_string(), b.to_string()),
            (InputFile::Stdin(_), InputFile::Stdin(_)) => {},
            other => panic!("different kinds: {other:?}"),
        }
    }
    assert_eq!(first.files()[1].to_string(), "real.json");
}

#[test]
fn version_report_asks_every_program() {
    let mut opt = default_opt();
    opt.version_verbose = true;
    let session = single(opt);
    let (mut session, mut action) = run(session, start(false));
    assert!(matches!(&action, Action::Print(text) if text == "jq-repl 0.1.0\n\n"));
    assert_eq!(session.phase(), Phase::Banner);
    let names = ["fzf", "gojq", "bat", "vd", "braille", "nvim", "less"];
    for (i, name) in names.iter().enumerate() {
        (session, action) = run(session, Event::Printed);
        assert_eq!(session.phase(), Phase::Probing(i));
        assert!(matches!(
            &action,
            Action::Capture { program, flag } if program == name && flag == "--version"
        ));
        let output = format!("{name} 1.{i}\nsecond line\n").into_bytes();
        (session, action) = run(session, Event::Output(Ok(output)));
        assert_eq!(session.phase(), Phase::Reporting(i));
        let expected = format!("{name}:\t{name} 1.{i}\n");
        assert!(matches!(&action, Action::Print(line) if *line == expected));
    }
    (session, action) = run(session, Event::Printed);
    assert!(matches!(&action, Action::Try { program } if program == "charcounter"));
    (session, action) = run(session, Event::Started(true));
    assert!(matches!(&action, Action::Print(line) if line == "charcounter:\tOK\n"));
    assert_eq!(session.phase(), Phase::Reporting(7));
    (session, action) = run(session, Event::Printed);
    assert!(session.is_done());
    let (release, outcome) = finished(action);
    assert!(release.is_empty());
    assert!(outcome.is_ok());
}

#[test]
fn version_report_touches_no_input() {
    let mut opt = opt_with_files(&["-", "x.json"]);
    opt.version_verbose = true;
    opt.show_fzf_command = true;
    let (session, action) = run(single(opt), start(false));
    assert!(matches!(action, Action::Print(_)));
    assert!(session.files().is_empty());
    assert!(!session.opt().null_input);
}

#[test]
fn version_report_of_another_charcounter_asks_its_version() {
    let mut opt = default_opt();
    opt.version_verbose = true;
    opt.charcounter_bin = "wc".to_string();
    let (mut session, mut action) = run(single(opt), start(true));
    for _ in 0..7 {
        (session, action) = run(session, Event::Printed);
        assert!(matches!(action, Action::Capture { .. }));
        (session, action) = run(session, Event::Output(Ok(vec![])));
        assert!(matches!(action, Action::Print(_)));
    }
    (session, action) = run(session, Event::Printed);
    assert!(matches!(
        &action,
        Action::Capture { program, flag } if program == "wc" && flag == "--version"
    ));
    (session, action) = run(session, Event::Started(true));
    assert!(session.is_done());
    assert!(matches!(finished(action).1, Err(Error::Custom(_))));
}

#[test]
fn version_report_goes_on_past_a_missing_program() {
    let mut opt = default_opt();
    opt.version_verbose = true;
    let (session, _) = run(single(opt), start(true));
    let (session, _) = run(session, Event::Printed);
    let missing = IoFailure { not_found: true, message: "No such file".to_string() };
    let (session, action) = run(session, Event::Output(Err(missing)));
    assert!(matches!(&action, Action::Print(line) if line == "fzf:\t(error: not found)\n"));
    let (_, action) = run(session, Event::Printed);
    assert!(matches!(&action, Action::Capture { program, .. } if program == "gojq"));
}

#[test]
fn version_report_stops_at_an_error() {
    let mut opt = default_opt();
    opt.version_verbose = true;
    let (session, _) = run(single(opt), start(true));
    let (session, _) = run(session, Event::Printed);
    let (session, action) = run(session, Event::Output(Err(failure("Permission denied"))));
    assert!(session.is_done());
    assert!(matches!(finished(action).1, Err(Error::Io(_))));

    let mut opt = default_opt();
    opt.version_verbose = true;
    let (session, _) = run(single(opt), start(true));
    let (session, _) = run(session, Event::Printed);
    let (_, action) = run(session, Event::Output(Ok(vec![0xff, 0xfe])));
    let (_, outcome) = finished(action);
    assert!(matches!(outcome, Err(Error::Utf8(_))));
    assert_eq!(exit_code(&outcome), 1);
}

#[test]
fn missing_charcounter_is_reported_not_failed() {
    let mut opt = default_opt();
    opt.version_verbose = true;
    let (mut session, mut action) = run(single(opt), start(true));
    for _ in 0..7 {
        (session, action) = run(session, Event::Printed);
        (session, action) = run(session, Event::Output(Ok(b"v\n".to_vec())));
    }
    assert!(matches!(action, Action::Print(_)));
    (session, action) = run(session, Event::Printed);
    assert!(matches!(action, Action::Try { .. }));
    (session, action) = run(session, Event::Started(false));
    assert!(matches!(&action, Action::Print(line) if line == "charcounter:\tNot Found\n"));
    let (_, action) = run(session, Event::Printed);
    assert!(finished(action).1.is_ok());
}

#[test]
fn two_phase_session_asks_fzf_for_the_query() {
    let (session, action) = two_phase(default_opt(), true, true);
    assert_eq!(session.phase(), Phase::Querying);
    assert_eq!(session.shape(), Shape::TwoPhase);
    match &action {
        Action::Query(command) => {
            assert_eq!(command.program, "fzf");
            assert_eq!(&command.args[..2], &["--disabled", "--print-query"]);
            assert_eq!(command.stdin, Stdio::Null);
            assert_eq!(command.stdout, Stdio::Piped);
            assert!(command.args.contains(&format!("--preview={PREFIX} {{q}} /tmp/foo.json")));
        },
        other => panic!("unexpected: {other:?}"),
    }
}

#[test]
fn accepted_query_is_rendered_through_the_pager_on_a_terminal() {
    let mut opt = opt_with_files(&["/tmp/foo.json", "a b.json"]);
    opt.pager_options = strings(&["", "-R", "", "-F"]);
    let (session, _) = two_phase(opt, true, true);
    let (session, action) = run(session, answered(Some(0), b".[] | .name\n/tmp/foo.json\n"));
    assert_eq!(session.phase(), Phase::Rendering);
    let plan = plan_of(action);
    assert_eq!(plan.render.program, "gojq");
    assert_eq!(
        plan.render.args,
        vec![
            "-L",
            "~/.jq",
            "-L",
            "~/.jq/.jq",
            "--raw-output",
            "-C",
            ".[] | .name",
            "/tmp/foo.json",
            "a b.json"
        ]
    );
    assert_eq!(plan.render.stdin, Stdio::Null);
    assert_eq!(plan.render.stdout, Stdio::Piped);
    let pager = plan.display.unwrap();
    assert_eq!(pager.program, "less");
    assert_eq!(pager.args, vec!["-R", "-F"]);
    assert_eq!(pager.stdin, Stdio::Piped);
    assert_eq!(pager.stdout, Stdio::Inherit);
    let (session, action) = run(session, exited(Some(0)));
    assert!(session.is_done());
    let (release, outcome) = finished(action);
    assert!(release.is_empty());
    assert!(outcome.is_ok());
}

#[test]
fn redirected_output_is_rendered_without_pager() {
    let (session, _) = two_phase(default_opt(), true, false);
    let (_, action) = run(session, answered(Some(0), b".a\n"));
    let plan = plan_of(action);
    assert_eq!(plan.render.stdout, Stdio::Inherit);
    assert_eq!(plan.render.args.last().unwrap(), "/tmp/foo.json");
    assert!(plan.display.is_none());
}

#[test]
fn empty_query_is_the_identity_filter() {
    for output in [&b""[..], &b"\n"[..], &b"\nselected\n"[..], &b"\r\n"[..]] {
        let (session, _) = two_phase(default_opt(), true, false);
        let (session, action) = run(session, answered(Some(0), output));
        assert_eq!(session.phase(), Phase::Rendering);
        let plan = plan_of(action);
        assert_eq!(
            plan.render.args,
            vec!["-L", "~/.jq", "-L", "~/.jq/.jq", "--raw-output", "-C", ".", "/tmp/foo.json"]
        );
    }
}

#[test]
fn no_match_still_renders_the_query() {
    let (session, _) = two_phase(default_opt(), true, false);
    let (_, action) = run(session, answered(Some(1), b".b\n"));
    let plan = plan_of(action);
    assert!(plan.render.args.contains(&".b".to_string()));
}

#[test]
fn aborted_query_is_forwarded_and_nothing_is_rendered() {
    let (session, _) = two_phase(default_opt(), true, true);
    let (session, action) = run(session, answered(Some(130), b".a\n"));
    assert!(session.is_done());
    let (_, outcome) = finished(action);
    assert!(matches!(&outcome, Err(Error::Fzf(status)) if status.code == Some(130)));
    assert_eq!(exit_code(&outcome), 130);

    let (session, _) = two_phase(default_opt(), true, true);
    let (_, action) = run(session, answered(Some(2), b""));
    assert_eq!(exit_code(&finished(action).1), 2);
}

#[test]
fn query_that_is_no_utf8_is_an_error() {
    let (session, _) = two_phase(default_opt(), true, true);
    let (session, action) = run(session, answered(Some(0), &[b'.', 0xff, b'\n']));
    assert!(session.is_done());
    let (_, outcome) = finished(action);
    assert!(matches!(outcome, Err(Error::Utf8(_))));
    assert_eq!(exit_code(&outcome), 1);
}

#[test]
fn selector_that_cannot_start_ends_the_two_phase_session() {
    let (session, _) = two_phase(default_opt(), true, true);
    let (_, action) = run(session, Event::Answered(Err(failure("No such file"))));
    assert!(matches!(finished(action).1, Err(Error::Io(_))));

    let (session, _) = two_phase(default_opt(), true, true);
    let (session, _) = run(session, answered(Some(0), b"."));
    let (_, action) = run(session, Event::Exited(Err(failure("No such file"))));
    assert!(matches!(finished(action).1, Err(Error::Io(_))));
}

#[test]
fn render_stage_reads_materialized_input_and_releases_it() {
    let session = Session::new(opt_with_files(&[]), Shape::TwoPhase);
    let (session, action) =
        run(session, Event::Start { stdin_is_terminal: false, stdout_is_terminal: true });
    assert!(matches!(action, Action::CopyStdin));
    let (session, action) = run(session, Event::Copied(Ok("/tmp/t 1".to_string())));
    assert!(matches!(action, Action::Query(_)));
    let (session, action) = run(session, answered(Some(0), b"keys\n"));
    let plan = plan_of(action);
    assert_eq!(&plan.render.args[6..], &["keys", "/tmp/t 1"]);
    let (session, action) = run(session, exited(Some(5)));
    let (release, outcome) = finished(action);
    assert_eq!(release, vec!["/tmp/t 1"]);
    assert!(outcome.is_ok());
    assert!(session.files().is_empty());
}

#[test]
fn render_stage_in_null_input_mode_names_no_file() {
    let mut opt = default_opt();
    opt.null_input = true;
    opt.jq_args = strings(&["--arg", "x", "a b"]);
    let (session, _) = two_phase(opt, true, false);
    let (_, action) = run(session, answered(Some(0), b"$x\n"));
    let plan = plan_of(action);
    assert_eq!(
        plan.render.args,
        vec![
            "-L",
            "~/.jq",
            "-L",
            "~/.jq/.jq",
            "--raw-output",
            "-C",
            "--arg",
            "x",
            "a b",
            "-n",
            "$x"
        ]
    );
}

#[test]
fn two_phase_session_can_show_its_command() {
    let mut opt = default_opt();
    opt.show_fzf_command = true;
    let (session, action) = two_phase(opt, true, true);
    assert_eq!(session.phase(), Phase::Showing);
    match &action {
        Action::Print(script) => {
            assert!(script
                .starts_with("#!/bin/bash\n\nfzf \\\n--disabled \\\n--print-query \\\n"));
        },
        other => panic!("unexpected: {other:?}"),
    }
}

#[test]
fn answer_in_a_single_phase_session_is_unexpected() {
    let session = single(default_opt());
    let (session, _) = run(session, start(true));
    let (session, _) = run(session, Event::Inspected { is_file: true });
    assert_eq!(session.phase(), Phase::Selecting);
    let (_, action) = run(session, answered(Some(0), b"."));
    assert!(matches!(finished(action).1, Err(Error::Custom("unexpected event"))));
}
