use jq_repl::version::{
    build_banner, cmd_presence_line, cmd_version_line, is_presence_probe, probe_name, NAME,
    PROBES, VERSION,
};
use jq_repl::{Error, IoFailure, Opt};

fn strings(items: &[&str]) -> Vec<String> {
    items.iter().map(|s| s.to_string()).collect()
}

fn default_opt() -> Opt {
    Opt {
        jq_bin: "gojq".to_string(),
        fzf_bin: "fzf".to_string(),
        charcounter_bin: "charcounter".to_string(),
        charcounter_options: vec![],
        braille_bin: "braille".to_string(),
        history_file: "/tmp/h".to_string(),
        null_input: false,
        null_input_flag: "-n".to_string(),
        pass_as_stdin: false,
        raw_input: false,
        show_fzf_command: false,
        use_default_args: true,
        jq_repl_lib: "~/.jq".to_string(),
        no_default_include: false,
        color_flag: "-C".to_string(),
        no_color_flag: "-M".to_string(),
        compact_flag: "-c".to_string(),
        raw_input_flag: "-R".to_string(),
        editor: "nvim".to_string(),
        editor_options: strings(&["-c 'set ft=json' -"]),
        files: strings(&["/tmp/foo.json"]),
        pager: "less".to_string(),
        pager_options: strings(&[""]),
        version_verbose: false,
        fzf_args: vec![],
        jq_args: vec![],
    }
}

#[test]
fn banner_names_program_and_version() {
    assert_eq!(build_banner(), "jq-repl 0.1.0\n\n");
    assert_eq!(build_banner(), format!("{NAME} {VERSION}\n\n"));
}

#[test]
fn probes_ask_the_programs_in_order() {
    let opt = default_opt();
    let names: Vec<String> = (0..PROBES).map(|i| probe_name(&opt, i)).collect();
    assert_eq!(
        names,
        vec!["fzf", "gojq", "bat", "vd", "braille", "nvim", "less", "charcounter"]
    );
}

#[test]
fn only_the_own_charcounter_is_probed_for_presence() {
    let mut opt = default_opt();
    for i in 0..7 {
        assert!(!is_presence_probe(&opt, i));
    }
    assert!(is_presence_probe(&opt, 7));
    opt.charcounter_bin = "wc".to_string();
    assert!(!is_presence_probe(&opt, 7));
    opt.charcounter_bin = "charcounter".to_string();
    opt.fzf_bin = "charcounter".to_string();
    assert!(!is_presence_probe(&opt, 0));
}

#[test]
fn version_line_takes_the_first_line_of_the_output() {
    let line = cmd_version_line("gojq", Ok(b"gojq 0.12.14 (rev: HEAD/go1.21)\nmore\n".to_vec()));
    assert_eq!(line.unwrap(), "gojq:\tgojq 0.12.14 (rev: HEAD/go1.21)\n");
    let line = cmd_version_line("vd", Ok("saul.pw/VisiData v3.0 ⁄ x\r\n".as_bytes().to_vec()));
    assert_eq!(line.unwrap(), "vd:\tsaul.pw/VisiData v3.0 ⁄ x\n");
}

#[test]
fn version_line_of_empty_output_is_unknown() {
    assert_eq!(cmd_version_line("bat", Ok(vec![])).unwrap(), "bat:\t(error: unknown)\n");
}

#[test]
fn version_line_of_blank_first_line_is_blank() {
    assert_eq!(cmd_version_line("bat", Ok(b"\nv1".to_vec())).unwrap(), "bat:\t\n");
}

#[test]
fn version_line_of_missing_program_says_not_found() {
    let failure = IoFailure { not_found: true, message: "No such file or directory".to_string() };
    assert_eq!(cmd_version_line("vd", Err(failure)).unwrap(), "vd:\t(error: not found)\n");
}

#[test]
fn version_line_hands_other_failures_on() {
    let failure = IoFailure { not_found: false, message: "Permission denied".to_string() };
    match cmd_version_line("vd", Err(failure.clone())) {
        Err(Error::Io(carried)) => assert_eq!(carried, failure),
        other => panic!("unexpected: {other:?}"),
    }
}

#[test]
fn version_line_rejects_output_that_is_no_utf8() {
    assert!(matches!(cmd_version_line("vd", Ok(vec![b'v', 0xff, b'1'])), Err(Error::Utf8(_))));
    assert!(matches!(cmd_version_line("vd", Ok(vec![0xc3])), Err(Error::Utf8(_))));
    assert!(matches!(cmd_version_line("vd", Ok(vec![0xed, 0xa0, 0x80])), Err(Error::Utf8(_))));
}

#[test]
fn presence_line_says_ok_or_not_found() {
    assert_eq!(cmd_presence_line("charcounter", true), "charcounter:\tOK\n");
    assert_eq!(cmd_presence_line("charcounter", false), "charcounter:\tNot Found\n");
}
