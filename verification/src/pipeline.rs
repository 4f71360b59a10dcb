//! The jq command lines of a session: the prefix that all of them share, the
//! live preview, and one pipeline for each key binding.

use crate::opt::{Opt, OptView};
use crate::text::{
    append_words, join, join_strings, lemma_join_concat, optional_text, owned, push_word, words,
};
use vstd::prelude::*;
use vstd::string::*;

verus! {

/// The prelude file of a library directory: `.jq` inside it. A `/` goes
/// between the two unless the directory is empty or already ends in one.
pub open spec fn default_lib_prelude(dir: Seq<char>) -> Seq<char> {
    if dir.len() > 0 && dir.last() != '/' {
        dir + "/"@ + ".jq"@
    } else {
        dir + ".jq"@
    }
}

/// The prelude file of the library directory `dir`.
pub fn lib_prelude(dir: &str) -> (prelude: String)
    ensures
        prelude@ == default_lib_prelude(dir@),
{
    let n: usize = dir.unicode_len();
    let mut prelude = owned(dir);
    if n > 0 && dir.get_char(n - 1) != '/' {
        prelude.append("/");
    }
    prelude.append(".jq");
    prelude
}

/// The search paths of jq: with the default arguments, the library directory
/// and its prelude, each behind `-L`; without them none.
pub open spec fn search_path_words(opt: OptView) -> Seq<Seq<char>> {
    if opt.use_default_args {
        seq!["-L"@, opt.jq_repl_lib, "-L"@, default_lib_prelude(opt.jq_repl_lib)]
    } else {
        Seq::empty()
    }
}

/// The words that jq always gets: the search paths, where the default
/// arguments are in use, then raw output and the color flag. The last two
/// stand whether or not the default arguments are in use.
pub open spec fn default_arg_words(opt: OptView) -> Seq<Seq<char>> {
    search_path_words(opt) + seq!["--raw-output"@, opt.color_flag]
}

/// [`default_arg_words`], joined by single spaces.
pub open spec fn jq_arg_prefix(opt: OptView) -> Seq<char> {
    join(default_arg_words(opt), " "@)
}

/// Lists the words that jq always gets.
pub fn build_default_arg_words(opt: &Opt) -> (list: Vec<String>)
    ensures
        words(list@) == default_arg_words(opt@),
{
    let mut list: Vec<String> = Vec::new();
    if opt.use_default_args {
        push_word(&mut list, owned("-L"));
        push_word(&mut list, opt.jq_repl_lib.clone());
        push_word(&mut list, owned("-L"));
        push_word(&mut list, lib_prelude(opt.jq_repl_lib.as_str()));
    }
    assert(words(list@) == search_path_words(opt@));
    push_word(&mut list, owned("--raw-output"));
    push_word(&mut list, opt.color_flag.clone());
    assert(words(list@) == default_arg_words(opt@));
    list
}

/// The arguments that every jq invocation of the session starts with: the
/// search paths, unless the default arguments are switched off, then raw
/// output and the color flag, with single spaces between them.
pub fn get_jq_arg_prefix(opt: &Opt) -> (prefix: String)
    ensures
        prefix@ == jq_arg_prefix(opt@),
{
    join_strings(&build_default_arg_words(opt), " ")
}

/// The flag that tells jq to read no input.
pub open spec fn null_input_flag() -> Seq<char> {
    "-n"@
}

/// The words that follow the default ones: what the user passes through to
/// jq, then the null-input flag in null-input mode, then the raw-input flag
/// where raw input is asked for.
pub open spec fn passthrough_words(opt: OptView) -> Seq<Seq<char>> {
    opt.jq_args + (if opt.null_input {
        seq![null_input_flag()]
    } else {
        Seq::empty()
    }) + (if opt.raw_input {
        seq![opt.raw_input_flag]
    } else {
        Seq::empty()
    })
}

/// All the words of the base prefix, in order.
pub open spec fn base_prefix_words(opt: OptView) -> Seq<Seq<char>> {
    default_arg_words(opt) + passthrough_words(opt)
}

/// The base prefix: its words joined by single spaces.
pub open spec fn base_prefix(opt: OptView) -> Seq<char> {
    join(base_prefix_words(opt), " "@)
}

/// Lists the words that follow the default ones.
pub fn build_passthrough_words(opt: &Opt) -> (list: Vec<String>)
    ensures
        words(list@) == passthrough_words(opt@),
{
    let mut list: Vec<String> = opt.jq_args.clone();
    assert(words(list@) == opt@.jq_args) by {
        assert(list@.len() == opt.jq_args@.len());
        assert forall|i: int| 0 <= i < list@.len() implies list@[i]@ == opt.jq_args@[i]@ by {
            assert(list@[i] == opt.jq_args@[i]);
        }
    }
    if opt.null_input {
        push_word(&mut list, owned("-n"));
    }
    if opt.raw_input {
        push_word(&mut list, opt.raw_input_flag.clone());
    }
    assert(words(list@) == passthrough_words(opt@));
    list
}

/// Lists all the words of the base prefix.
pub fn build_base_prefix_words(opt: &Opt) -> (list: Vec<String>)
    ensures
        words(list@) == base_prefix_words(opt@),
{
    let mut list = build_default_arg_words(opt);
    let more = build_passthrough_words(opt);
    append_words(&mut list, &more);
    list
}

/// The part of a jq invocation that the live preview and every key binding
/// share.
pub fn build_base_prefix(opt: &Opt) -> (prefix: String)
    ensures
        prefix@ == base_prefix(opt@),
{
    let mut jq_arg_prefix = get_jq_arg_prefix(opt);
    let args = build_passthrough_words(opt);
    if !args.is_empty() {
        proof {
            lemma_join_concat(default_arg_words(opt@), passthrough_words(opt@), " "@);
        }
        jq_arg_prefix.append(" ");
        jq_arg_prefix.append(join_strings(&args, " ").as_str());
    } else {
        assert(base_prefix_words(opt@) == default_arg_words(opt@));
    }
    jq_arg_prefix
}

/// The token that fzf replaces by the query as typed. It is never quoted
/// here: fzf owns that substitution.
pub open spec fn query_placeholder() -> Seq<char> {
    "{q}"@
}

/// The slot of the input files: empty in null-input mode and where there is
/// no input, else the one token `input_file_paths`.
pub open spec fn input_slot(opt: OptView, input_file_paths: Seq<char>) -> Seq<Seq<char>> {
    if opt.null_input || input_file_paths.len() == 0 {
        Seq::empty()
    } else {
        seq![input_file_paths]
    }
}

/// The slot of the command that reads jq's output: a pipe sign and the
/// command, or nothing.
pub open spec fn post_filter_slot(post_filter: Option<Seq<char>>) -> Seq<Seq<char>> {
    match post_filter {
        Some(command) => seq!["|"@, command],
        None => Seq::empty(),
    }
}

/// The words of one pipeline: jq, the base prefix, the flags of the
/// transform, the query placeholder, the input files, the post-filter.
pub open spec fn pipeline_words(
    opt: OptView,
    flags: Seq<Seq<char>>,
    input_file_paths: Seq<char>,
    post_filter: Option<Seq<char>>,
) -> Seq<Seq<char>> {
    seq![opt.jq_bin, base_prefix(opt)] + flags + seq![query_placeholder()] + input_slot(
        opt,
        input_file_paths,
    ) + post_filter_slot(post_filter)
}

/// One pipeline: its words joined by single spaces.
pub open spec fn pipeline(
    opt: OptView,
    flags: Seq<Seq<char>>,
    input_file_paths: Seq<char>,
    post_filter: Option<Seq<char>>,
) -> Seq<char> {
    join(pipeline_words(opt, flags, input_file_paths, post_filter), " "@)
}

/// The pipeline of the live preview: no transform and no post-filter.
pub open spec fn preview_pipeline(opt: OptView, input_file_paths: Seq<char>) -> Seq<char> {
    pipeline(opt, Seq::empty(), input_file_paths, None)
}

/// Renders the pipeline that runs jq with the transform `flags` on the input
/// files and hands its output to `post_filter`, if there is one.
pub fn render_pipeline(
    opt: &Opt,
    flags: Vec<String>,
    input_file_paths: &str,
    post_filter: Option<String>,
) -> (rendered: String)
    ensures
        rendered@ == pipeline(opt@, words(flags@), input_file_paths@, optional_text(post_filter)),
{
    let mut slots: Vec<String> = Vec::new();
    push_word(&mut slots, opt.jq_bin.clone());
    push_word(&mut slots, build_base_prefix(opt));
    append_words(&mut slots, &flags);
    push_word(&mut slots, owned("{q}"));
    if !opt.null_input && !input_file_paths.is_empty() {
        push_word(&mut slots, owned(input_file_paths));
    }
    match post_filter {
        Some(command) => {
            push_word(&mut slots, owned("|"));
            push_word(&mut slots, command);
        },
        None => {},
    }
    assert(words(slots@) == pipeline_words(
        opt@,
        words(flags@),
        input_file_paths@,
        optional_text(post_filter),
    ));
    join_strings(&slots, " ")
}

} // verus!
