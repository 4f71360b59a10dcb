//! The render stage of a two-phase session: jq on the query that the user
//! accepted, and the pager that shows what jq writes.

use crate::input::{file_views, InputFile, InputFileView};
use crate::opt::{Opt, OptView};
use crate::pipeline::{base_prefix_words, build_base_prefix_words};
use crate::process::{Invocation, InvocationView, Stdio};
use crate::text::{first_line, first_line_of, owned, push_word, words};
use vstd::prelude::*;

verus! {

/// The query that fzf hands back: the first line of what it prints. Where it
/// prints nothing, the query is empty.
pub open spec fn accepted_query(output: Seq<char>) -> Seq<char> {
    match first_line(output) {
        Some(line) => line,
        None => Seq::empty(),
    }
}

/// Takes the accepted query from what fzf printed.
pub fn take_accepted_query(output: &str) -> (query: String)
    ensures
        query@ == accepted_query(output@),
{
    match first_line_of(output) {
        Some(line) => line,
        None => String::new(),
    }
}

/// The jq filter that leaves its input as it is.
pub open spec fn identity_filter() -> Seq<char> {
    "."@
}

/// The filter that a query stands for: the query itself; the identity filter
/// where the query is empty, so that jq still runs and shows the input.
pub open spec fn filter_for(query: Seq<char>) -> Seq<char> {
    if query.len() == 0 {
        identity_filter()
    } else {
        query
    }
}

/// The filter that `query` stands for.
pub fn build_filter(query: &str) -> (filter: String)
    ensures
        filter@ == filter_for(query@),
{
    if query.is_empty() {
        owned(".")
    } else {
        owned(query)
    }
}

/// The paths of the input files as arguments of jq, in their order; none in
/// null-input mode.
pub open spec fn input_paths(opt: OptView, files: Seq<InputFileView>) -> Seq<Seq<char>> {
    if opt.null_input {
        Seq::empty()
    } else {
        files.map_values(|f: InputFileView| f.path())
    }
}

/// The arguments of jq in the render stage: the words of the base prefix,
/// the filter, and the input files. They are the words of the live preview,
/// with the filter where the preview has the query placeholder, and each
/// word is an argument of its own.
pub open spec fn render_args(
    opt: OptView,
    query: Seq<char>,
    files: Seq<InputFileView>,
) -> Seq<Seq<char>> {
    base_prefix_words(opt) + seq![filter_for(query)] + input_paths(opt, files)
}

/// The words of `list` that are not empty, in their order.
pub open spec fn present_words(list: Seq<Seq<char>>) -> Seq<Seq<char>>
    decreases list.len(),
{
    if list.len() == 0 {
        Seq::empty()
    } else if list.last().len() == 0 {
        present_words(list.drop_last())
    } else {
        present_words(list.drop_last()).push(list.last())
    }
}

/// What the render stage starts: jq, and the pager behind it where there is
/// one.
#[derive(Debug, Clone, PartialEq, Eq)]
pub struct RenderPlan {
    /// The jq invocation.
    pub render: Invocation,
    /// The pager that reads what jq writes.
    pub display: Option<Invocation>,
}

/// What a [`RenderPlan`] holds.
pub struct RenderPlanView {
    pub render: InvocationView,
    pub display: Option<InvocationView>,
}

impl View for RenderPlan {
    type V = RenderPlanView;

    open spec fn view(&self) -> RenderPlanView {
        RenderPlanView {
            render: self.render@,
            display: match self.display {
                Some(pager) => Some(pager@),
                None => None,
            },
        }
    }
}

/// The jq invocation of the render stage. It reads the input files, not
/// standard input. Its standard output is that of this process, or a pipe
/// to the pager.
pub open spec fn render_invocation(
    opt: OptView,
    query: Seq<char>,
    files: Seq<InputFileView>,
    through_pager: bool,
) -> InvocationView {
    InvocationView {
        program: opt.jq_bin,
        args: render_args(opt, query, files),
        stdin: Stdio::Null,
        stdout: if through_pager {
            Stdio::Piped
        } else {
            Stdio::Inherit
        },
    }
}

/// The pager invocation of the render stage: the pager with those of its
/// options that are not empty, reading from the pipe that jq writes to.
pub open spec fn pager_invocation(opt: OptView) -> InvocationView {
    InvocationView {
        program: opt.pager,
        args: present_words(opt.pager_options),
        stdin: Stdio::Piped,
        stdout: Stdio::Inherit,
    }
}

/// The render stage: on a terminal jq writes to the pager; where standard
/// output is redirected, jq writes to it straight away and no pager runs.
pub open spec fn render_plan(
    opt: OptView,
    query: Seq<char>,
    files: Seq<InputFileView>,
    stdout_is_terminal: bool,
) -> RenderPlanView {
    RenderPlanView {
        render: render_invocation(opt, query, files, stdout_is_terminal),
        display: if stdout_is_terminal {
            Some(pager_invocation(opt))
        } else {
            None
        },
    }
}

/// Lists the arguments of jq in the render stage.
fn build_render_args(opt: &Opt, query: &str, files: &Vec<InputFile>) -> (args: Vec<String>)
    ensures
        words(args@) == render_args(opt@, query@, file_views(files@)),
{
    let mut args = build_base_prefix_words(opt);
    push_word(&mut args, build_filter(query));
    let ghost head = words(args@);
    let ghost paths = input_paths(opt@, file_views(files@));
    assert(head == base_prefix_words(opt@) + seq![filter_for(query@)]);
    if !opt.null_input {
        let mut i: usize = 0;
        assert(head + paths.take(0) == head);
        while i < files.len()
            invariant
                i <= files.len(),
                !opt.null_input,
                paths == input_paths(opt@, file_views(files@)),
                words(args@) == head + paths.take(i as int),
            decreases files.len() - i,
        {
            push_word(&mut args, owned(files[i].path()));
            assert(paths.take(i + 1) == paths.take(i as int).push(files@[i as int]@.path()));
            assert((head + paths.take(i as int)).push(files@[i as int]@.path()) == head
                + paths.take(i + 1));
            i += 1;
        }
        assert(paths.take(files.len() as int) == paths);
    } else {
        assert(head + paths == head);
    }
    args
}

/// Lists the words of `list` that are not empty.
fn build_present_words(list: &Vec<String>) -> (present: Vec<String>)
    ensures
        words(present@) == present_words(words(list@)),
{
    let ghost all = words(list@);
    let mut present: Vec<String> = Vec::new();
    assert(words(present@) == present_words(all.take(0)));
    let mut i: usize = 0;
    while i < list.len()
        invariant
            i <= list.len(),
            all == words(list@),
            words(present@) == present_words(all.take(i as int)),
        decreases list.len() - i,
    {
        assert(all.take(i + 1).drop_last() == all.take(i as int));
        assert(all.take(i + 1).last() == list@[i as int]@);
        if !list[i].as_str().is_empty() {
            push_word(&mut present, list[i].clone());
        }
        i += 1;
    }
    assert(all.take(list.len() as int) == all);
    present
}

/// Plans the render stage for the accepted query `query` over the input
/// files `files`.
pub fn build_render_plan(
    opt: &Opt,
    query: &str,
    files: &Vec<InputFile>,
    stdout_is_terminal: bool,
) -> (plan: RenderPlan)
    ensures
        plan@ == render_plan(opt@, query@, file_views(files@), stdout_is_terminal),
{
    let render = Invocation {
        program: opt.jq_bin.clone(),
        args: build_render_args(opt, query, files),
        stdin: Stdio::Null,
        stdout: if stdout_is_terminal {
            Stdio::Piped
        } else {
            Stdio::Inherit
        },
    };
    let display = if stdout_is_terminal {
        Some(
            Invocation {
                program: opt.pager.clone(),
                args: build_present_words(&opt.pager_options),
                stdin: Stdio::Piped,
                stdout: Stdio::Inherit,
            },
        )
    } else {
        None
    };
    RenderPlan { render, display }
}

} // verus!
