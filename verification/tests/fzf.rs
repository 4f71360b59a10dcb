use jq_repl::bindings::{build_pipelines, BindingKind, PipelineBinding};
use jq_repl::fzf::{assemble_script, build_bind_argument, build_selector, build_shaped_fzf_cmd};
use jq_repl::{build_fzf_cmd, render_fzf_command, Invocation, Opt, Shape, Stdio};

fn strings(items: &[&str]) -> Vec<String> {
    items.iter().map(|s| s.to_string()).collect()
}

fn default_opt() -> Opt {
    Opt {
        jq_bin: "gojq".to_string(),
        fzf_bin: "fzf".to_string(),
        charcounter_bin: "charcounter".to_string(),
        charcounter_options: vec![],
        braille_bin: "braille".to_string(),
        history_file: "/tmp/h".to_string(),
        null_input: false,
        null_input_flag: "-n".to_string(),
        pass_as_stdin: false,
        raw_input: false,
        show_fzf_command: false,
        use_default_args: true,
        jq_repl_lib: "~/.jq".to_string(),
        no_default_include: false,
        color_flag: "-C".to_string(),
        no_color_flag: "-M".to_string(),
        compact_flag: "-c".to_string(),
        raw_input_flag: "-R".to_string(),
        editor: "nvim".to_string(),
        editor_options: strings(&["-c 'set ft=json' -"]),
        files: strings(&["/tmp/foo.json"]),
        pager: "less".to_string(),
        pager_options: strings(&[""]),
        version_verbose: false,
        fzf_args: vec![],
        jq_args: vec![],
    }
}

fn golden_args() -> Vec<String> {
    strings(&[
        "--disabled",
        "--preview-window=up,99%,border-none",
        "--info=hidden",
        "--header-first",
        "--prompt=> ",
        "--header=M-e: editor ⁄ M-j: vd ⁄ M-l: pager ⁄ M-g: braille ⁄ ^<space>: gron",
        "--history=/tmp/h",
        "--preview-label-pos=-1",
        "--bind=change:transform-preview-label:printf \"%s\" {q} | charcounter ",
        "--preview=gojq -L ~/.jq -L ~/.jq/.jq --raw-output -C {q} /tmp/foo.json",
        "--bind=ctrl-k:kill-line,pgup:preview-page-up,pgdn:preview-page-down,alt-w:toggle-preview-wrap,home:preview-top,end:preview-bottom,tab:refresh-preview",
        "--bind=alt-s:change-prompt(-s> )+change-preview:gojq -L ~/.jq -L ~/.jq/.jq --raw-output -C --slurp {q} /tmp/foo.json",
        "--bind=alt-S:change-prompt(> )+change-preview:gojq -L ~/.jq -L ~/.jq/.jq --raw-output -C {q} /tmp/foo.json",
        "--bind=alt-c:change-prompt(-c> )+change-preview:gojq -L ~/.jq -L ~/.jq/.jq --raw-output -C -c {q} /tmp/foo.json",
        "--bind=alt-C:change-prompt(> )+change-preview:gojq -L ~/.jq -L ~/.jq/.jq --raw-output -C {q} /tmp/foo.json",
        "--bind=ctrl-space:change-prompt( gron> )+change-preview:gojq -L ~/.jq -L ~/.jq/.jq --raw-output -C -M {q} /tmp/foo.json | gron --colorize",
        "--bind=alt-space:change-prompt(> )+change-preview:gojq -L ~/.jq -L ~/.jq/.jq --raw-output -C {q} /tmp/foo.json",
        "--bind=alt-g:change-prompt( braille> )+change-preview:gojq -L ~/.jq -L ~/.jq/.jq --raw-output -C -M {q} /tmp/foo.json | BRAILLE_USE_FULL_DEFAULT_HEIGHT=1 braille --modeline",
        "--bind=alt-G:change-prompt(> )+change-preview:gojq -L ~/.jq -L ~/.jq/.jq --raw-output -C {q} /tmp/foo.json",
        "--bind=alt-e:execute:gojq -L ~/.jq -L ~/.jq/.jq --raw-output -C -M {q} /tmp/foo.json | nvim -c 'set ft=json' -",
        "--bind=alt-j:execute:gojq -L ~/.jq -L ~/.jq/.jq --raw-output -C -M {q} /tmp/foo.json | vd --filetype json",
        "--bind=alt-J:execute:gojq -L ~/.jq -L ~/.jq/.jq --raw-output -C -c -M {q} /tmp/foo.json | vd --filetype jsonl",
        "--bind=alt-v:execute:gojq -L ~/.jq -L ~/.jq/.jq --raw-output -C -M {q} /tmp/foo.json | vd --filetype csv",
        "--bind=alt-l:execute:gojq -L ~/.jq -L ~/.jq/.jq --raw-output -C -M {q} /tmp/foo.json | less ",
        "--bind=alt-L:execute:gojq -L ~/.jq -L ~/.jq/.jq --raw-output -C -M {q} /tmp/foo.json | bat --language json --paging always",
    ])
}

#[test]
fn golden_command_assembly() {
    let command = build_fzf_cmd(&default_opt(), "/tmp/foo.json").unwrap();
    assert_eq!(command.program, "fzf");
    assert_eq!(command.stdin, Stdio::Null);
    assert_eq!(command.stdout, Stdio::Inherit);
    let expected = golden_args();
    assert_eq!(command.args.len(), expected.len());
    for (actual, wanted) in command.args.iter().zip(expected.iter()) {
        assert_eq!(actual, wanted);
    }
}

#[test]
fn golden_preview_argument_and_slurp_binding() {
    let command = build_fzf_cmd(&default_opt(), "/tmp/foo.json").unwrap();
    let preview = command.args.iter().find(|arg| arg.starts_with("--preview=")).unwrap();
    assert_eq!(
        preview.strip_prefix("--preview=").unwrap(),
        "gojq -L ~/.jq -L ~/.jq/.jq --raw-output -C {q} /tmp/foo.json"
    );
    let slurp = command.args.iter().find(|arg| arg.starts_with("--bind=alt-s:")).unwrap();
    assert_eq!(
        slurp.rsplit("change-preview:").next().unwrap(),
        "gojq -L ~/.jq -L ~/.jq/.jq --raw-output -C --slurp {q} /tmp/foo.json"
    );
}

#[test]
fn build_fzf_cmd_never_fails() {
    let mut opt = default_opt();
    opt.jq_bin = String::new();
    opt.fzf_bin = String::new();
    opt.files = vec![];
    assert!(build_fzf_cmd(&opt, "").is_ok());
}

#[test]
fn user_arguments_come_last_and_untouched() {
    let mut opt = default_opt();
    opt.fzf_args = strings(&["--height=50%", "--disabled", "--height=50%", ""]);
    let command = build_fzf_cmd(&opt, "/tmp/foo.json").unwrap();
    let fixed = golden_args();
    assert_eq!(command.args.len(), fixed.len() + 4);
    assert_eq!(&command.args[..fixed.len()], &fixed[..]);
    assert_eq!(&command.args[fixed.len()..], &opt.fzf_args[..]);
}

#[test]
fn options_stand_where_they_belong() {
    let mut opt = default_opt();
    opt.fzf_bin = "/opt/bin/fzf".to_string();
    opt.history_file = "/home/me/.hist".to_string();
    opt.charcounter_bin = "wc".to_string();
    opt.charcounter_options = strings(&["-m", "-l"]);
    opt.braille_bin = "dots".to_string();
    opt.editor = "vi".to_string();
    opt.editor_options = strings(&["-R", "-"]);
    opt.pager = "more".to_string();
    opt.pager_options = vec![];
    opt.no_color_flag = "--mono".to_string();
    opt.compact_flag = "--compact".to_string();
    opt.null_input = true;
    let command = build_fzf_cmd(&opt, "ignored.json").unwrap();
    let p = "gojq -L ~/.jq -L ~/.jq/.jq --raw-output -C -n";
    assert_eq!(command.program, "/opt/bin/fzf");
    assert_eq!(command.args[4], "--prompt=-n> ");
    assert_eq!(command.args[6], "--history=/home/me/.hist");
    assert_eq!(
        command.args[8],
        "--bind=change:transform-preview-label:printf \"%s\" {q} | wc -m -l"
    );
    assert_eq!(command.args[9], format!("--preview={p} {{q}}"));
    assert_eq!(
        command.args[11],
        format!("--bind=alt-s:change-prompt(-ns> )+change-preview:{p} --slurp {{q}}")
    );
    assert_eq!(
        command.args[13],
        format!("--bind=alt-c:change-prompt(-nc> )+change-preview:{p} --compact {{q}}")
    );
    assert_eq!(
        command.args[15],
        format!(
            "--bind=ctrl-space:change-prompt(-n gron> )+change-preview:{p} --mono {{q}} | gron --colorize"
        )
    );
    assert_eq!(
        command.args[17],
        format!(
            "--bind=alt-g:change-prompt(-n braille> )+change-preview:{p} --mono {{q}} | BRAILLE_USE_FULL_DEFAULT_HEIGHT=1 dots --modeline"
        )
    );
    assert_eq!(command.args[19], format!("--bind=alt-e:execute:{p} --mono {{q}} | vi -R -"));
    assert_eq!(
        command.args[21],
        format!("--bind=alt-J:execute:{p} --compact --mono {{q}} | vd --filetype jsonl")
    );
    assert_eq!(command.args[23], format!("--bind=alt-l:execute:{p} --mono {{q}} | more "));
}

#[test]
fn selector_follows_the_templates() {
    let opt = default_opt();
    let mut templates = build_pipelines(&opt, "/tmp/foo.json");
    templates.preview = "cat".to_string();
    templates.bindings = vec![
        PipelineBinding {
            key: "f1".to_string(),
            kind: BindingKind::Execute,
            prompt: "unused".to_string(),
            pipeline: "date".to_string(),
        },
        PipelineBinding {
            key: "f2".to_string(),
            kind: BindingKind::Undo,
            prompt: "$ ".to_string(),
            pipeline: "cat".to_string(),
        },
    ];
    let command = build_selector(&opt, &templates, Shape::SinglePhase);
    assert_eq!(command.args.len(), 13);
    assert_eq!(command.args[9], "--preview=cat");
    assert_eq!(command.args[11], "--bind=f1:execute:date");
    assert_eq!(command.args[12], "--bind=f2:change-prompt($ )+change-preview:cat");
}

#[test]
fn bind_argument_by_kind() {
    let mut binding = PipelineBinding {
        key: "alt-x".to_string(),
        kind: BindingKind::Toggle,
        prompt: "x> ".to_string(),
        pipeline: "jq .".to_string(),
    };
    assert_eq!(
        build_bind_argument(&binding),
        "--bind=alt-x:change-prompt(x> )+change-preview:jq ."
    );
    binding.kind = BindingKind::Undo;
    assert_eq!(
        build_bind_argument(&binding),
        "--bind=alt-x:change-prompt(x> )+change-preview:jq ."
    );
    binding.kind = BindingKind::Execute;
    assert_eq!(build_bind_argument(&binding), "--bind=alt-x:execute:jq .");
}

#[test]
fn script_lays_out_one_argument_per_line() {
    assert_eq!(
        assemble_script("fzf", &strings(&["--disabled", "$'a b'"])),
        "#!/bin/bash\n\nfzf \\\n--disabled \\\n$'a b' < /dev/null\n"
    );
    assert_eq!(assemble_script("fzf", &vec![]), "#!/bin/bash\n\nfzf \\\n < /dev/null\n");
}

#[test]
fn script_trims_the_program() {
    assert_eq!(
        assemble_script(" \tfzf\n ", &strings(&[" a "])),
        "#!/bin/bash\n\nfzf \\\n a  < /dev/null\n"
    );
}

#[test]
fn script_quotes_program_and_arguments() {
    let command = Invocation {
        program: "my fzf".to_string(),
        args: strings(&["--disabled", "--prompt=> ", "it's", "", "a:b@c+d,e.f/g_h-i"]),
        stdin: Stdio::Null,
        stdout: Stdio::Inherit,
    };
    assert_eq!(
        render_fzf_command(&command),
        "#!/bin/bash\n\n$'my fzf' \\\n--disabled \\\n$'--prompt=> ' \\\n$'it\\'s' \\\n'' \\\na:b@c+d,e.f/g_h-i < /dev/null\n"
    );
}

#[test]
fn golden_script() {
    let command = build_fzf_cmd(&default_opt(), "/tmp/foo.json").unwrap();
    let script = render_fzf_command(&command);
    let p = "gojq -L ~/.jq -L ~/.jq/.jq --raw-output -C";
    let expected = vec![
        "#!/bin/bash".to_string(),
        "".to_string(),
        "fzf \\".to_string(),
        "--disabled \\".to_string(),
        "$'--preview-window=up,99%,border-none' \\".to_string(),
        "$'--info=hidden' \\".to_string(),
        "--header-first \\".to_string(),
        "$'--prompt=> ' \\".to_string(),
        "$'--header=M-e: editor \\xE2\\x81\\x84 M-j: vd \\xE2\\x81\\x84 M-l: pager \\xE2\\x81\\x84 M-g: braille \\xE2\\x81\\x84 ^<space>: gron' \\".to_string(),
        "$'--history=/tmp/h' \\".to_string(),
        "$'--preview-label-pos=-1' \\".to_string(),
        "$'--bind=change:transform-preview-label:printf \"%s\" {q} | charcounter ' \\".to_string(),
        format!("$'--preview={p} {{q}} /tmp/foo.json' \\"),
        "$'--bind=ctrl-k:kill-line,pgup:preview-page-up,pgdn:preview-page-down,alt-w:toggle-preview-wrap,home:preview-top,end:preview-bottom,tab:refresh-preview' \\".to_string(),
        format!("$'--bind=alt-s:change-prompt(-s> )+change-preview:{p} --slurp {{q}} /tmp/foo.json' \\"),
        format!("$'--bind=alt-S:change-prompt(> )+change-preview:{p} {{q}} /tmp/foo.json' \\"),
        format!("$'--bind=alt-c:change-prompt(-c> )+change-preview:{p} -c {{q}} /tmp/foo.json' \\"),
        format!("$'--bind=alt-C:change-prompt(> )+change-preview:{p} {{q}} /tmp/foo.json' \\"),
        format!("$'--bind=ctrl-space:change-prompt( gron> )+change-preview:{p} -M {{q}} /tmp/foo.json | gron --colorize' \\"),
        format!("$'--bind=alt-space:change-prompt(> )+change-preview:{p} {{q}} /tmp/foo.json' \\"),
        format!("$'--bind=alt-g:change-prompt( braille> )+change-preview:{p} -M {{q}} /tmp/foo.json | BRAILLE_USE_FULL_DEFAULT_HEIGHT=1 braille --modeline' \\"),
        format!("$'--bind=alt-G:change-prompt(> )+change-preview:{p} {{q}} /tmp/foo.json' \\"),
        format!("$'--bind=alt-e:execute:{p} -M {{q}} /tmp/foo.json | nvim -c \\'set ft=json\\' -' \\"),
        format!("$'--bind=alt-j:execute:{p} -M {{q}} /tmp/foo.json | vd --filetype json' \\"),
        format!("$'--bind=alt-J:execute:{p} -c -M {{q}} /tmp/foo.json | vd --filetype jsonl' \\"),
        format!("$'--bind=alt-v:execute:{p} -M {{q}} /tmp/foo.json | vd --filetype csv' \\"),
        format!("$'--bind=alt-l:execute:{p} -M {{q}} /tmp/foo.json | less ' \\"),
        format!("$'--bind=alt-L:execute:{p} -M {{q}} /tmp/foo.json | bat --language json --paging always' < /dev/null"),
    ];
    assert_eq!(expected.len(), script.lines().count(), "expected != actual line count");
    for (line_number, (expected_line, actual_line)) in
        expected.iter().zip(script.lines()).enumerate()
    {
        assert_eq!(expected_line, actual_line, "failed on line {}", line_number + 1);
    }
    assert!(script.ends_with(" < /dev/null\n"));
}

#[test]
fn two_phase_selector_prints_the_query_into_a_pipe() {
    let opt = default_opt();
    let single = build_shaped_fzf_cmd(&opt, "/tmp/foo.json", Shape::SinglePhase);
    assert_eq!(single, build_fzf_cmd(&opt, "/tmp/foo.json").unwrap());
    let two = build_shaped_fzf_cmd(&opt, "/tmp/foo.json", Shape::TwoPhase);
    assert_eq!(two.program, "fzf");
    assert_eq!(two.stdin, Stdio::Null);
    assert_eq!(two.stdout, Stdio::Piped);
    assert_eq!(two.args[0], "--disabled");
    assert_eq!(two.args[1], "--print-query");
    assert_eq!(two.args.len(), single.args.len() + 1);
    assert_eq!(&two.args[2..], &single.args[1..]);
}
