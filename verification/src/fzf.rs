//! The fzf invocation of a session: its fixed flags, the preview, the key
//! bindings, and what the user adds.

use crate::error::Error;
use crate::opt::{Opt, OptView};
use crate::bindings::{
    base_prompt, build_base_prompt, build_pipelines, pipelines, BindingKind, PipelineBinding,
    PipelineBindingView, PipelineTemplates, PipelineTemplatesView,
};
use crate::pipeline::query_placeholder;
use crate::process::{Invocation, InvocationView, Shape, Stdio};
use crate::quote::{bash_quote, bash_quoted, quote_words, quoted_words};
use crate::text::{append_words, join, join_strings, owned, push_word, trim, trimmed, words};
use vstd::prelude::*;
use vstd::string::*;

verus! {

/// The header line: the key bindings that are not obvious.
pub open spec fn header() -> Seq<char> {
    join(
        seq![
            "M-e: editor"@,
            "M-j: vd"@,
            "M-l: pager"@,
            "M-g: braille"@,
            "^<space>: gron"@,
        ],
        " ⁄ "@,
    )
}

/// The command that counts the characters of the query for the preview label.
pub open spec fn charcounter_pipeline(opt: OptView) -> Seq<char> {
    "printf \"%s\" "@ + query_placeholder() + " | "@ + opt.charcounter_bin + " "@ + join(
        opt.charcounter_options,
        " "@,
    )
}

/// The arguments that say what fzf is there for: fuzzy matching is off, and
/// in a two-phase session fzf prints the query when it ends.
pub open spec fn mode_args(shape: Shape) -> Seq<Seq<char>> {
    match shape {
        Shape::SinglePhase => seq!["--disabled"@],
        Shape::TwoPhase => seq!["--disabled"@, "--print-query"@],
    }
}

/// The arguments that set up the look of fzf, the history and the preview
/// label.
pub open spec fn leading_args(opt: OptView) -> Seq<Seq<char>> {
    seq![
        "--preview-window=up,99%,border-none"@,
        "--info=hidden"@,
        "--header-first"@,
        "--prompt="@ + base_prompt(opt),
        "--header="@ + header(),
        "--history="@ + opt.history_file,
        "--preview-label-pos=-1"@,
        "--bind=change:transform-preview-label:"@ + charcounter_pipeline(opt),
    ]
}

/// A key with the fzf action that it is bound to.
pub open spec fn key_action(key: Seq<char>, action: Seq<char>) -> Seq<char> {
    key + ":"@ + action
}

/// The keys that move within the query and the preview.
pub open spec fn navigation_bindings() -> Seq<char> {
    join(
        seq![
            key_action("ctrl-k"@, "kill-line"@),
            key_action("pgup"@, "preview-page-up"@),
            key_action("pgdn"@, "preview-page-down"@),
            key_action("alt-w"@, "toggle-preview-wrap"@),
            key_action("home"@, "preview-top"@),
            key_action("end"@, "preview-bottom"@),
            key_action("tab"@, "refresh-preview"@),
        ],
        ","@,
    )
}

/// The `--bind` argument of one key binding.
pub open spec fn bind_argument(binding: PipelineBindingView) -> Seq<char> {
    if binding.kind == BindingKind::Execute {
        "--bind="@ + binding.key + ":execute:"@ + binding.pipeline
    } else {
        "--bind="@ + binding.key + ":change-prompt("@ + binding.prompt + ")+change-preview:"@
            + binding.pipeline
    }
}

/// The `--bind` arguments of a list of key bindings, in their order.
pub open spec fn bind_arguments(bindings: Seq<PipelineBindingView>) -> Seq<Seq<char>> {
    bindings.map_values(|b: PipelineBindingView| bind_argument(b))
}

/// All arguments of fzf: those of the mode, the leading ones, the preview,
/// the navigation keys, one `--bind` for each key binding, then what the user
/// passes through, last and untouched, so that it can override what stands
/// before it.
pub open spec fn selector_args(
    opt: OptView,
    templates: PipelineTemplatesView,
    shape: Shape,
) -> Seq<Seq<char>> {
    mode_args(shape) + leading_args(opt) + seq![
        "--preview="@ + templates.preview,
        "--bind="@ + navigation_bindings(),
    ] + bind_arguments(templates.bindings) + opt.fzf_args
}

/// Where the standard output of fzf goes: to that of this process in a
/// single-phase session; in a two-phase session into a pipe, from which the
/// query is read.
pub open spec fn selector_stdout(shape: Shape) -> Stdio {
    match shape {
        Shape::SinglePhase => Stdio::Inherit,
        Shape::TwoPhase => Stdio::Piped,
    }
}

/// The fzf invocation for the pipelines `templates`. fzf reads the query
/// from the terminal, so its standard input is the null device.
pub open spec fn selector(
    opt: OptView,
    templates: PipelineTemplatesView,
    shape: Shape,
) -> InvocationView {
    InvocationView {
        program: opt.fzf_bin,
        args: selector_args(opt, templates, shape),
        stdin: Stdio::Null,
        stdout: selector_stdout(shape),
    }
}

/// The fzf invocation of a single-phase session over the input files
/// `input_file_paths`.
pub open spec fn fzf_cmd(opt: OptView, input_file_paths: Seq<char>) -> InvocationView {
    selector(opt, pipelines(opt, input_file_paths), Shape::SinglePhase)
}

/// The fzf invocation of a session of the shape `shape` over the input files
/// `input_file_paths`.
pub open spec fn shaped_fzf_cmd(
    opt: OptView,
    input_file_paths: Seq<char>,
    shape: Shape,
) -> InvocationView {
    selector(opt, pipelines(opt, input_file_paths), shape)
}

/// The `--bind` argument of `binding`.
pub fn build_bind_argument(binding: &PipelineBinding) -> (arg: String)
    ensures
        arg@ == bind_argument(binding@),
{
    let start = owned("--bind=").concat(binding.key.as_str());
    match binding.kind {
        BindingKind::Execute => start.concat(":execute:").concat(binding.pipeline.as_str()),
        _ => start.concat(":change-prompt(").concat(binding.prompt.as_str()).concat(
            ")+change-preview:",
        ).concat(binding.pipeline.as_str()),
    }
}

/// Writes the header line.
fn build_header() -> (text: String)
    ensures
        text@ == header(),
{
    let mut labels: Vec<String> = Vec::new();
    push_word(&mut labels, owned("M-e: editor"));
    push_word(&mut labels, owned("M-j: vd"));
    push_word(&mut labels, owned("M-l: pager"));
    push_word(&mut labels, owned("M-g: braille"));
    push_word(&mut labels, owned("^<space>: gron"));
    assert(words(labels@) == seq![
        "M-e: editor"@,
        "M-j: vd"@,
        "M-l: pager"@,
        "M-g: braille"@,
        "^<space>: gron"@,
    ]);
    join_strings(&labels, " ⁄ ")
}

/// Writes a key with the action that it is bound to.
fn build_key_action(key: &str, action: &str) -> (pair: String)
    ensures
        pair@ == key_action(key@, action@),
{
    owned(key).concat(":").concat(action)
}

/// Writes the navigation keys.
fn build_navigation_bindings() -> (text: String)
    ensures
        text@ == navigation_bindings(),
{
    let mut pairs: Vec<String> = Vec::new();
    push_word(&mut pairs, build_key_action("ctrl-k", "kill-line"));
    push_word(&mut pairs, build_key_action("pgup", "preview-page-up"));
    push_word(&mut pairs, build_key_action("pgdn", "preview-page-down"));
    push_word(&mut pairs, build_key_action("alt-w", "toggle-preview-wrap"));
    push_word(&mut pairs, build_key_action("home", "preview-top"));
    push_word(&mut pairs, build_key_action("end", "preview-bottom"));
    push_word(&mut pairs, build_key_action("tab", "refresh-preview"));
    assert(words(pairs@) == seq![
        key_action("ctrl-k"@, "kill-line"@),
        key_action("pgup"@, "preview-page-up"@),
        key_action("pgdn"@, "preview-page-down"@),
        key_action("alt-w"@, "toggle-preview-wrap"@),
        key_action("home"@, "preview-top"@),
        key_action("end"@, "preview-bottom"@),
        key_action("tab"@, "refresh-preview"@),
    ]);
    join_strings(&pairs, ",")
}

/// Lists the leading arguments.
fn build_leading_args(opt: &Opt) -> (args: Vec<String>)
    ensures
        words(args@) == leading_args(opt@),
{
    let charcounter = owned("printf \"%s\" ").concat("{q}").concat(" | ").concat(
        opt.charcounter_bin.as_str(),
    ).concat(" ").concat(join_strings(&opt.charcounter_options, " ").as_str());
    let mut args: Vec<String> = Vec::new();
    push_word(&mut args, owned("--preview-window=up,99%,border-none"));
    push_word(&mut args, owned("--info=hidden"));
    push_word(&mut args, owned("--header-first"));
    push_word(&mut args, owned("--prompt=").concat(build_base_prompt(opt).as_str()));
    push_word(&mut args, owned("--header=").concat(build_header().as_str()));
    push_word(&mut args, owned("--history=").concat(opt.history_file.as_str()));
    push_word(&mut args, owned("--preview-label-pos=-1"));
    push_word(
        &mut args,
        owned("--bind=change:transform-preview-label:").concat(charcounter.as_str()),
    );
    assert(words(args@) == leading_args(opt@));
    args
}

/// Lists the arguments of the mode.
fn build_mode_args(shape: Shape) -> (args: Vec<String>)
    ensures
        words(args@) == mode_args(shape),
{
    let mut args: Vec<String> = Vec::new();
    push_word(&mut args, owned("--disabled"));
    match shape {
        Shape::SinglePhase => {},
        Shape::TwoPhase => {
            push_word(&mut args, owned("--print-query"));
        },
    }
    assert(words(args@) == mode_args(shape));
    args
}

/// Assembles the fzf invocation: the fixed flags, the preview and the
/// bindings of `templates`, then the user's own fzf arguments.
pub fn build_selector(
    opt: &Opt,
    templates: &PipelineTemplates,
    shape: Shape,
) -> (command: Invocation)
    ensures
        command@ == selector(opt@, templates@, shape),
{
    let mut args = build_mode_args(shape);
    append_words(&mut args, &build_leading_args(opt));
    push_word(&mut args, owned("--preview=").concat(templates.preview.as_str()));
    push_word(&mut args, owned("--bind=").concat(build_navigation_bindings().as_str()));
    let ghost fixed = words(args@);
    assert(fixed == mode_args(shape) + leading_args(opt@) + seq![
        "--preview="@ + templates@.preview,
        "--bind="@ + navigation_bindings(),
    ]);
    let ghost binds = bind_arguments(templates@.bindings);
    let mut i: usize = 0;
    while i < templates.bindings.len()
        invariant
            i <= templates.bindings.len(),
            binds == bind_arguments(templates@.bindings),
            words(args@) == fixed + binds.take(i as int),
        decreases templates.bindings.len() - i,
    {
        push_word(&mut args, build_bind_argument(&templates.bindings[i]));
        assert(binds.take(i + 1) == binds.take(i as int).push(
            bind_argument(templates.bindings@[i as int]@),
        ));
        i += 1;
    }
    assert(binds.take(templates.bindings.len() as int) == binds);
    append_words(&mut args, &opt.fzf_args);
    assert(words(args@) == selector_args(opt@, templates@, shape));
    let stdout = match shape {
        Shape::SinglePhase => Stdio::Inherit,
        Shape::TwoPhase => Stdio::Piped,
    };
    Invocation { program: opt.fzf_bin.clone(), args, stdin: Stdio::Null, stdout }
}

/// Builds the fzf invocation of a single-phase session. `input_file_paths`
/// holds the input files, each one quoted for the shell, with single spaces
/// between them. Never fails.
pub fn build_fzf_cmd(opt: &Opt, input_file_paths: &str) -> (built: Result<Invocation, Error>)
    ensures
        built matches Ok(command) && command@ == fzf_cmd(opt@, input_file_paths@),
{
    Ok(build_shaped_fzf_cmd(opt, input_file_paths, Shape::SinglePhase))
}

/// Builds the fzf invocation of a session of the shape `shape`.
pub fn build_shaped_fzf_cmd(
    opt: &Opt,
    input_file_paths: &str,
    shape: Shape,
) -> (command: Invocation)
    ensures
        command@ == shaped_fzf_cmd(opt@, input_file_paths@, shape),
{
    let templates = build_pipelines(opt, input_file_paths);
    build_selector(opt, &templates, shape)
}

/// The text of a Bash script that runs a command: the interpreter line, the
/// program without white space around it, then one argument on each line,
/// and the null device as standard input. `program_token` and `arg_tokens`
/// are quoted already.
pub open spec fn script_text(program_token: Seq<char>, arg_tokens: Seq<Seq<char>>) -> Seq<char> {
    "#!/bin/bash\n\n"@ + trimmed(program_token) + " \\\n"@ + join(arg_tokens, " \\\n"@)
        + " < /dev/null\n"@
}

/// The script that runs `command`: the program and each argument quoted for
/// Bash.
pub open spec fn command_script(command: InvocationView) -> Seq<char> {
    script_text(bash_quoted(command.program), quoted_words(command.args))
}

/// Lays out a script from a program and arguments that are quoted already.
pub fn assemble_script(program_token: &str, arg_tokens: &Vec<String>) -> (script: String)
    ensures
        script@ == script_text(program_token@, words(arg_tokens@)),
{
    owned("#!/bin/bash\n\n").concat(trim(program_token)).concat(" \\\n").concat(
        join_strings(arg_tokens, " \\\n").as_str(),
    ).concat(" < /dev/null\n")
}

/// Renders `command` as a Bash script, for showing it in place of running it.
pub fn render_fzf_command(command: &Invocation) -> (script: String)
    ensures
        script@ == command_script(command@),
{
    let program = bash_quote(command.program.as_str());
    let arg_tokens = quote_words(&command.args);
    assemble_script(program.as_str(), &arg_tokens)
}

} // verus!
