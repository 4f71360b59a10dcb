//! What holds of every session, whatever is reported to it: no temporary
//! file is lost or released twice, the input files follow the positional
//! arguments, and two sessions over the same input differ only in the names
//! of their temporary files.

use crate::bindings::pipelines;
use crate::error::{selector_outcome, ErrorView};
use crate::fzf::{mode_args, script_text, selector_args};
use crate::input::{joined_input_paths, materialized_paths, InputFileView};
use crate::opt::OptView;
use crate::process::Shape;
use crate::quote::{bash_quoted, quoted_words};
use crate::session::{
    answered, brought, copied, finish, in_phase, initial, inspected, launch, next, probe, probed,
    reject, resolve, settled, start, stdin_placeholder, with_file, ActionView, AnswerView,
    EventView, Phase, SessionView,
};
use crate::version::{probe_program, version_line};
use vstd::prelude::*;

verus! {

/// The session after the events `events`, one after the other.
pub open spec fn after(s: SessionView, events: Seq<EventView>) -> SessionView
    decreases events.len(),
{
    if events.len() == 0 {
        s
    } else {
        next(after(s, events.drop_last()), events.last()).0
    }
}

/// The temporary files that an action releases.
pub open spec fn released_by(action: ActionView) -> Seq<Seq<char>> {
    match action {
        ActionView::Finish { release, outcome } => release,
        _ => Seq::empty(),
    }
}

/// All temporary files that the session releases over the events `events`,
/// in the order of their release.
pub open spec fn released(s: SessionView, events: Seq<EventView>) -> Seq<Seq<char>>
    decreases events.len(),
{
    if events.len() == 0 {
        Seq::empty()
    } else {
        released(s, events.drop_last()) + released_by(
            next(after(s, events.drop_last()), events.last()).1,
        )
    }
}

/// All temporary files that the events `events` bring, in their order.
pub open spec fn acquired(events: Seq<EventView>) -> Seq<Seq<char>>
    decreases events.len(),
{
    if events.len() == 0 {
        Seq::empty()
    } else {
        acquired(events.drop_last()) + brought(events.last())
    }
}

/// One step loses no temporary file and releases none twice: the files that
/// the session held and the one that the event brings are, in this order,
/// those that the step releases and those that the session holds then. A
/// step that ends the session releases them all.
pub proof fn lemma_step_keeps_files(s: SessionView, e: EventView)
    ensures
        materialized_paths(s.files) + brought(e) == released_by(next(s, e).1) + materialized_paths(
            next(s, e).0.files,
        ),
        next(s, e).1 is Finish ==> next(s, e).0.phase == Phase::Done && materialized_paths(
            next(s, e).0.files,
        ) == Seq::<Seq<char>>::empty(),
        !(next(s, e).1 is Finish) ==> next(s, e).0.phase != Phase::Done,
{
    let held = materialized_paths(s.files);
    let none = Seq::<Seq<char>>::empty();
    assert(held + none == held);
    assert(none + held == held);
    assert(Seq::<InputFileView>::empty().len() == 0);
    assert forall|file: InputFileView| #[trigger]
        materialized_paths(with_file(s, file).files) == held + (match file {
            InputFileView::Stdin(path) => seq![path],
            InputFileView::File(_) => none,
        }) by {
        let files = s.files.push(file);
        assert(files.drop_last() == s.files);
        assert(files.last() == file);
        match file {
            InputFileView::Stdin(path) => {
                assert(held.push(path) == held + seq![path]);
            },
            InputFileView::File(_) => {},
        }
    }
    assert forall|t: SessionView, outcome: Result<(), ErrorView>| #[trigger]
        released_by(finish(t, outcome).1) + materialized_paths(
            finish(t, outcome).0.files,
        ) == materialized_paths(t.files) by {
        assert(materialized_paths(t.files) + none == materialized_paths(t.files));
    }
    assert((held + brought(e)) + none == held + brought(e));
    match e {
        EventView::Copied(Ok(path)) => {
            let t = with_file(s, InputFileView::Stdin(path));
            assert(materialized_paths(t.files) == held + seq![path]);
            assert(materialized_paths(t.files) + none == materialized_paths(t.files));
        },
        EventView::Inspected { is_file } => {
            match s.phase {
                Phase::Inspecting(index) => {
                    if 0 <= index < s.opt.files.len() {
                        let t = with_file(s, InputFileView::File(s.opt.files[index as int]));
                        assert(materialized_paths(t.files) == held + none);
                    }
                },
                _ => {},
            }
        },
        _ => {},
    }
}

/// Over any events, no temporary file is lost and none is released twice:
/// the files that the events brought are, in this order, those that were
/// released and those that the session still holds.
pub proof fn lemma_files_kept(opt: OptView, shape: Shape, events: Seq<EventView>)
    ensures
        acquired(events) == released(initial(opt, shape), events) + materialized_paths(
            after(initial(opt, shape), events).files,
        ),
    decreases events.len(),
{
    let s = initial(opt, shape);
    let none = Seq::<Seq<char>>::empty();
    if events.len() == 0 {
        assert(none + none == none);
    } else {
        let before = events.drop_last();
        let e = events.last();
        let t = after(s, before);
        lemma_files_kept(opt, shape, before);
        lemma_step_keeps_files(t, e);
        let r = released(s, before);
        let m = materialized_paths(t.files);
        let out = released_by(next(t, e).1);
        let m2 = materialized_paths(next(t, e).0.files);
        assert(acquired(events) == (r + m) + brought(e));
        assert((r + m) + brought(e) == r + (m + brought(e)));
        assert(r + (out + m2) == (r + out) + m2);
    }
}

/// When a session is over, every temporary file that was brought to it has
/// been released, once, and it holds none.
pub proof fn lemma_all_released_at_end(opt: OptView, shape: Shape, events: Seq<EventView>)
    requires
        after(initial(opt, shape), events).phase == Phase::Done,
    ensures
        released(initial(opt, shape), events) == acquired(events),
        materialized_paths(after(initial(opt, shape), events).files) == Seq::<Seq<char>>::empty(),
    decreases events.len(),
{
    let s = initial(opt, shape);
    lemma_files_kept(opt, shape, events);
    if events.len() == 0 {
    } else {
        let t = after(s, events.drop_last());
        lemma_step_keeps_files(t, events.last());
        let none = Seq::<Seq<char>>::empty();
        assert(released(s, events) + none == released(s, events));
    }
}

/// Where the command is only to be shown, the launch prints it and starts
/// nothing: the script holds the program and every argument of the fzf
/// invocation over the input files of the session, each quoted for Bash, the
/// first of them the flag that switches fuzzy matching off. When the script
/// is printed, the session ends well and releases every temporary file.
pub proof fn lemma_show_command(s: SessionView)
    requires
        s.opt.show_fzf_command,
    ensures
        launch(s).0 == in_phase(s, Phase::Showing),
        launch(s).1 == ActionView::Print(
            script_text(
                bash_quoted(s.opt.fzf_bin),
                quoted_words(
                    selector_args(
                        s.opt,
                        pipelines(s.opt, joined_input_paths(s.files)),
                        s.shape,
                    ),
                ),
            ),
        ),
        quoted_words(
            selector_args(s.opt, pipelines(s.opt, joined_input_paths(s.files)), s.shape),
        )[0] == bash_quoted("--disabled"@),
        next(launch(s).0, EventView::Printed) == finish(launch(s).0, Ok(())),
        released_by(next(launch(s).0, EventView::Printed).1) == materialized_paths(s.files),
{
    let templates = pipelines(s.opt, joined_input_paths(s.files));
    let args = selector_args(s.opt, templates, s.shape);
    assert(mode_args(s.shape)[0] == "--disabled"@);
    assert(args[0] == "--disabled"@);
}

/// Two lists of input files that differ at most in the names of their
/// temporary files: the same length, regular files at the same places, and
/// the same regular files.
pub open spec fn same_shape(a: Seq<InputFileView>, b: Seq<InputFileView>) -> bool {
    &&& a.len() == b.len()
    &&& forall|i: int|
        0 <= i < a.len() ==> (#[trigger] a[i] is File || #[trigger] b[i] is File) ==> a[i] == b[i]
}

/// Two sessions that differ at most in the names of their temporary files.
pub open spec fn alike(a: SessionView, b: SessionView) -> bool {
    &&& a.opt == b.opt
    &&& a.shape == b.shape
    &&& a.phase == b.phase
    &&& a.has_piped_input == b.has_piped_input
    &&& a.stdout_is_terminal == b.stdout_is_terminal
    &&& same_shape(a.files, b.files)
}

/// Two events that report the same, but for the name of a temporary file.
pub open spec fn same_report(x: EventView, y: EventView) -> bool {
    x == y || (x matches EventView::Copied(Ok(_)) && y matches EventView::Copied(Ok(_)))
}

/// Two actions that ask for the same, as far as no name of a temporary file
/// stands in them: the same kind of action; the same program, flag or path
/// to run, look at or copy; the same outcome at the end.
pub open spec fn same_request(p: ActionView, q: ActionView) -> bool {
    match p {
        ActionView::Print(_) => q is Print,
        ActionView::Spawn(_) => q is Spawn,
        ActionView::Query(_) => q is Query,
        ActionView::Render(_) => q is Render,
        ActionView::Finish { release, outcome } => q matches ActionView::Finish {
            release: other_release,
            outcome: other_outcome,
        } && outcome == other_outcome && release.len() == other_release.len(),
        _ => p == q,
    }
}

/// One more file behind two lists of the same shape, the same regular file
/// or a temporary file each, leaves them of the same shape.
pub proof fn lemma_push_same_shape(
    a: Seq<InputFileView>,
    b: Seq<InputFileView>,
    f: InputFileView,
    g: InputFileView,
)
    requires
        same_shape(a, b),
        f == g || (f is Stdin && g is Stdin),
    ensures
        same_shape(a.push(f), b.push(g)),
{
    let fa = a.push(f);
    let fb = b.push(g);
    assert forall|i: int| 0 <= i < fa.len() && (#[trigger] fa[i] is File
        || #[trigger] fb[i] is File) implies fa[i] == fb[i] by {
        if i < a.len() {
            assert(fa[i] == a[i]);
            assert(fb[i] == b[i]);
        }
    }
}

/// Two sessions that are alike end alike.
proof fn lemma_finish_alike(a: SessionView, b: SessionView, outcome: Result<(), ErrorView>)
    requires
        alike(a, b),
    ensures
        alike(finish(a, outcome).0, finish(b, outcome).0),
        same_request(finish(a, outcome).1, finish(b, outcome).1),
{
    lemma_same_shape_paths(a.files, b.files);
}

/// Two sessions that are alike reject the same report alike.
proof fn lemma_reject_alike(a: SessionView, b: SessionView, x: EventView, y: EventView)
    requires
        alike(a, b),
        same_report(x, y),
    ensures
        alike(reject(a, x).0, reject(b, y).0),
        same_request(reject(a, x).1, reject(b, y).1),
{
    lemma_same_shape_paths(a.files, b.files);
    assert(brought(x).len() == brought(y).len());
}

/// Two sessions that are alike launch alike.
proof fn lemma_launch_alike(a: SessionView, b: SessionView)
    requires
        alike(a, b),
    ensures
        alike(launch(a).0, launch(b).0),
        same_request(launch(a).1, launch(b).1),
{
}

/// Two sessions that are alike take up the same positional file alike.
proof fn lemma_resolve_alike(a: SessionView, b: SessionView, index: int)
    requires
        alike(a, b),
    ensures
        alike(resolve(a, index).0, resolve(b, index).0),
        same_request(resolve(a, index).1, resolve(b, index).1),
{
    lemma_launch_alike(a, b);
}

/// Two sessions that are alike start the same probe alike.
proof fn lemma_probe_alike(a: SessionView, b: SessionView, index: int)
    requires
        alike(a, b),
    ensures
        alike(probe(a, index).0, probe(b, index).0),
        same_request(probe(a, index).1, probe(b, index).1),
{
    lemma_finish_alike(a, b, Ok(()));
}

/// Two sessions that are alike go on alike when a probe has run.
proof fn lemma_probed_alike(
    a: SessionView,
    b: SessionView,
    index: int,
    x: EventView,
    y: EventView,
)
    requires
        alike(a, b),
        same_report(x, y),
    ensures
        alike(probed(a, index, x).0, probed(b, index, y).0),
        same_request(probed(a, index, x).1, probed(b, index, y).1),
{
    lemma_reject_alike(a, b, x, y);
    match x {
        EventView::Output(output) => {
            match version_line(probe_program(a.opt, index), output) {
                Ok(_) => {},
                Err(err) => {
                    lemma_finish_alike(a, b, Err(err));
                },
            }
        },
        _ => {},
    }
}

/// Two sessions that are alike go on alike when a file has been looked at.
proof fn lemma_inspected_alike(
    a: SessionView,
    b: SessionView,
    index: int,
    x: EventView,
    y: EventView,
)
    requires
        alike(a, b),
        same_report(x, y),
    ensures
        alike(inspected(a, index, x).0, inspected(b, index, y).0),
        same_request(inspected(a, index, x).1, inspected(b, index, y).1),
{
    lemma_reject_alike(a, b, x, y);
    if 0 <= index < a.opt.files.len() {
        let file = InputFileView::File(a.opt.files[index]);
        lemma_push_same_shape(a.files, b.files, file, file);
        lemma_resolve_alike(with_file(a, file), with_file(b, file), index + 1);
    }
}

/// Two sessions that are alike go on alike when a copy has been made.
proof fn lemma_copied_alike(
    a: SessionView,
    b: SessionView,
    index: int,
    x: EventView,
    y: EventView,
)
    requires
        alike(a, b),
        same_report(x, y),
    ensures
        alike(copied(a, index, x).0, copied(b, index, y).0),
        same_request(copied(a, index, x).1, copied(b, index, y).1),
{
    lemma_reject_alike(a, b, x, y);
    match x {
        EventView::Copied(Ok(path)) => {
            let f = InputFileView::Stdin(path);
            let g = InputFileView::Stdin(y->Copied_0->Ok_0);
            lemma_push_same_shape(a.files, b.files, f, g);
            lemma_resolve_alike(with_file(a, f), with_file(b, g), index + 1);
        },
        EventView::Copied(Err(failure)) => {
            lemma_finish_alike(a, b, Err(ErrorView::Io(failure)));
        },
        _ => {},
    }
}

/// Two sessions that are alike take the first step alike.
proof fn lemma_start_alike(a: SessionView, b: SessionView, stdin: bool, stdout: bool)
    requires
        alike(a, b),
    ensures
        alike(start(a, stdin, stdout).0, start(b, stdin, stdout).0),
        same_request(start(a, stdin, stdout).1, start(b, stdin, stdout).1),
{
    lemma_resolve_alike(settled(a, stdin, stdout), settled(b, stdin, stdout), 0);
}

/// Two sessions that are alike go on alike when fzf has handed back the query.
proof fn lemma_answered_alike(a: SessionView, b: SessionView, answer: AnswerView)
    requires
        alike(a, b),
    ensures
        alike(answered(a, answer).0, answered(b, answer).0),
        same_request(answered(a, answer).1, answered(b, answer).1),
{
    match selector_outcome(answer.status) {
        Err(err) => {
            lemma_finish_alike(a, b, Err(err));
        },
        Ok(_) => {
            lemma_finish_alike(a, b, Err(ErrorView::Utf8));
        },
    }
}

/// A step keeps two sessions alike: where they differ at most in the names
/// of their temporary files, and the same is reported to both, they ask for
/// the same next and differ no more than before.
pub proof fn lemma_step_alike(a: SessionView, b: SessionView, x: EventView, y: EventView)
    requires
        alike(a, b),
        same_report(x, y),
    ensures
        alike(next(a, x).0, next(b, y).0),
        same_request(next(a, x).1, next(b, y).1),
{
    lemma_reject_alike(a, b, x, y);
    match a.phase {
        Phase::Ready => {
            match x {
                EventView::Start { stdin_is_terminal, stdout_is_terminal } => {
                    lemma_start_alike(a, b, stdin_is_terminal, stdout_is_terminal);
                },
                _ => {},
            }
        },
        Phase::Banner => {
            lemma_probe_alike(a, b, 0);
        },
        Phase::Probing(index) => {
            lemma_probed_alike(a, b, index as int, x, y);
        },
        Phase::Reporting(index) => {
            lemma_probe_alike(a, b, index + 1);
        },
        Phase::Inspecting(index) => {
            lemma_inspected_alike(a, b, index as int, x, y);
        },
        Phase::Copying(index) => {
            lemma_copied_alike(a, b, index as int, x, y);
        },
        Phase::CopyingStdin => {
            match x {
                EventView::Copied(Ok(path)) => {
                    let f = InputFileView::Stdin(path);
                    let g = InputFileView::Stdin(y->Copied_0->Ok_0);
                    lemma_push_same_shape(a.files, b.files, f, g);
                    lemma_launch_alike(with_file(a, f), with_file(b, g));
                },
                EventView::Copied(Err(failure)) => {
                    lemma_finish_alike(a, b, Err(ErrorView::Io(failure)));
                },
                _ => {},
            }
        },
        Phase::Showing => {
            lemma_finish_alike(a, b, Ok(()));
        },
        Phase::Selecting => {
            match x {
                EventView::Exited(Ok(status)) => {
                    lemma_finish_alike(a, b, selector_outcome(status));
                },
                EventView::Exited(Err(failure)) => {
                    lemma_finish_alike(a, b, Err(ErrorView::Io(failure)));
                },
                _ => {},
            }
        },
        Phase::Querying => {
            match x {
                EventView::Answered(Ok(answer)) => {
                    lemma_answered_alike(a, b, answer);
                },
                EventView::Answered(Err(failure)) => {
                    lemma_finish_alike(a, b, Err(ErrorView::Io(failure)));
                },
                _ => {},
            }
        },
        Phase::Rendering => {
            match x {
                EventView::Exited(Ok(_)) => {
                    lemma_finish_alike(a, b, Ok(()));
                },
                EventView::Exited(Err(failure)) => {
                    lemma_finish_alike(a, b, Err(ErrorView::Io(failure)));
                },
                _ => {},
            }
        },
        Phase::Done => {},
    }
}

/// Lists of the same shape hold equally many temporary files.
pub proof fn lemma_same_shape_paths(a: Seq<InputFileView>, b: Seq<InputFileView>)
    requires
        same_shape(a, b),
    ensures
        materialized_paths(a).len() == materialized_paths(b).len(),
    decreases a.len(),
{
    if a.len() > 0 {
        let i = a.len() - 1;
        assert(a[i] is File || b[i] is File ==> a[i] == b[i]);
        let front = a.drop_last();
        let other = b.drop_last();
        assert forall|j: int| 0 <= j < front.len() && (#[trigger] front[j] is File
            || #[trigger] other[j] is File) implies front[j] == other[j] by {
            assert(front[j] == a[j]);
            assert(other[j] == b[j]);
        }
        lemma_same_shape_paths(front, other);
    }
}

/// Two lists of events that report the same, one by one, but for the names
/// of temporary files.
pub open spec fn same_reports(xs: Seq<EventView>, ys: Seq<EventView>) -> bool {
    &&& xs.len() == ys.len()
    &&& forall|i: int| 0 <= i < xs.len() ==> same_report(#[trigger] xs[i], ys[i])
}

/// Whether two lists of input files render alike, but for the names of
/// temporary files: every regular file of the first list stands at the same
/// place in the second as the same token, and every temporary file of the
/// first stands where the second has one too.
pub open spec fn same_tokens(a: Seq<InputFileView>, b: Seq<InputFileView>) -> bool {
    &&& a.len() == b.len()
    &&& forall|i: int|
        #![trigger a[i]]
        0 <= i < a.len() ==> {
            &&& a[i] is File ==> a[i].token() == b[i].token()
            &&& a[i] is Stdin ==> b[i] is Stdin
        }
}

/// Resolving the same input twice gives the same: two sessions with the
/// same options, to which the same is reported but for the names of the
/// temporary files, stand in the same phase with input files of the same
/// shape, which render alike but for those names.
pub proof fn lemma_input_determinism(
    opt: OptView,
    shape: Shape,
    xs: Seq<EventView>,
    ys: Seq<EventView>,
)
    requires
        same_reports(xs, ys),
    ensures
        alike(after(initial(opt, shape), xs), after(initial(opt, shape), ys)),
        same_tokens(after(initial(opt, shape), xs).files, after(initial(opt, shape), ys).files),
    decreases xs.len(),
{
    if xs.len() > 0 {
        assert(same_reports(xs.drop_last(), ys.drop_last())) by {
            assert forall|i: int| 0 <= i < xs.drop_last().len() implies same_report(
                #[trigger] xs.drop_last()[i],
                ys.drop_last()[i],
            ) by {
                assert(same_report(xs[i], ys[i]));
            }
        }
        lemma_input_determinism(opt, shape, xs.drop_last(), ys.drop_last());
        assert(same_report(xs[xs.len() - 1], ys[ys.len() - 1]));
        lemma_step_alike(
            after(initial(opt, shape), xs.drop_last()),
            after(initial(opt, shape), ys.drop_last()),
            xs.last(),
            ys.last(),
        );
    }
    let fa = after(initial(opt, shape), xs).files;
    let fb = after(initial(opt, shape), ys).files;
    assert forall|i: int| #![trigger fa[i]] 0 <= i < fa.len() implies {
        &&& fa[i] is File ==> fa[i].token() == fb[i].token()
        &&& fa[i] is Stdin ==> fb[i] is Stdin
    } by {
        assert(fa[i] is File || fb[i] is File ==> fa[i] == fb[i]);
    }
}

/// Whether the first `n` positional files of the session stand resolved, in
/// their order: the session holds one input file for each, a regular file
/// under the very path of the argument, or a temporary file; and the
/// placeholder of piped standard input is a temporary file.
pub open spec fn resolved_upto(s: SessionView, n: int) -> bool {
    &&& 0 <= n <= s.opt.files.len()
    &&& s.files.len() == n
    &&& forall|i: int|
        #![trigger s.files[i]]
        0 <= i < n ==> {
            &&& s.files[i] is File ==> s.files[i] == InputFileView::File(s.opt.files[i])
            &&& s.opt.files[i] == stdin_placeholder() && s.has_piped_input ==> s.files[i] is Stdin
        }
}

/// Whether the session holds all its input files: one for each positional
/// file; where there is none, the one copy of piped standard input, or, on a
/// terminal, nothing, in null-input mode.
pub open spec fn all_resolved(s: SessionView) -> bool {
    if s.opt.files.len() > 0 {
        resolved_upto(s, s.opt.files.len() as int)
    } else if s.has_piped_input {
        s.files.len() == 1 && s.files[0] is Stdin
    } else {
        s.files.len() == 0 && s.opt.null_input
    }
}

/// Whether the session holds the input files that belong to its phase: none
/// before the files are taken up and after the end; while the file with the
/// number `i` is taken up, the `i` files before it; at the launch all of
/// them, or, where there is no positional file, the one copy of piped
/// standard input, or, on a terminal, nothing, in null-input mode. Only a
/// file that is no placeholder of piped standard input is ever looked at.
pub open spec fn in_order(s: SessionView) -> bool {
    &&& s.opt.files.len() <= usize::MAX
    &&& match s.phase {
        Phase::Inspecting(index) => index < s.opt.files.len() && resolved_upto(s, index as int)
            && !(s.opt.files[index as int] == stdin_placeholder() && s.has_piped_input),
        Phase::Copying(index) => index < s.opt.files.len() && resolved_upto(s, index as int),
        Phase::CopyingStdin => s.opt.files.len() == 0 && s.has_piped_input && s.files.len() == 0,
        Phase::Showing | Phase::Selecting | Phase::Querying | Phase::Rendering => all_resolved(s),
        _ => s.files.len() == 0,
    }
}

/// Taking up the next positional file keeps the input files in order.
proof fn lemma_resolve_in_order(s: SessionView, index: int)
    requires
        s.opt.files.len() <= usize::MAX,
        resolved_upto(s, index),
        s.opt.files.len() == 0 && !s.has_piped_input ==> s.opt.null_input,
    ensures
        in_order(resolve(s, index).0),
{
}

/// One more input file for the next positional file keeps them resolved.
proof fn lemma_with_file_resolved(s: SessionView, index: int, file: InputFileView)
    requires
        0 <= index < s.opt.files.len(),
        resolved_upto(s, index),
        file is File ==> file == InputFileView::File(s.opt.files[index]),
        s.opt.files[index] == stdin_placeholder() && s.has_piped_input ==> file is Stdin,
    ensures
        resolved_upto(with_file(s, file), index + 1),
{
    let t = with_file(s, file);
    assert forall|i: int| #![trigger t.files[i]] 0 <= i < index + 1 implies {
        &&& t.files[i] is File ==> t.files[i] == InputFileView::File(t.opt.files[i])
        &&& t.opt.files[i] == stdin_placeholder() && t.has_piped_input ==> t.files[i] is Stdin
    } by {
        if i < index {
            assert(t.files[i] == s.files[i]);
        }
    }
}

/// A step keeps the input files in order: they follow the positional
/// arguments one by one, and nothing else is ever taken in.
pub proof fn lemma_step_in_order(s: SessionView, e: EventView)
    requires
        in_order(s),
    ensures
        in_order(next(s, e).0),
{
    match s.phase {
        Phase::Ready => {
            match e {
                EventView::Start { stdin_is_terminal, stdout_is_terminal } => {
                    if !s.opt.version_verbose {
                        lemma_resolve_in_order(
                            settled(s, stdin_is_terminal, stdout_is_terminal),
                            0,
                        );
                    }
                },
                _ => {},
            }
        },
        Phase::Inspecting(index) => {
            match e {
                EventView::Inspected { is_file } => {
                    if is_file {
                        let file = InputFileView::File(s.opt.files[index as int]);
                        lemma_with_file_resolved(s, index as int, file);
                        lemma_resolve_in_order(with_file(s, file), index + 1);
                    }
                },
                _ => {},
            }
        },
        Phase::Copying(index) => {
            match e {
                EventView::Copied(Ok(path)) => {
                    let file = InputFileView::Stdin(path);
                    lemma_with_file_resolved(s, index as int, file);
                    lemma_resolve_in_order(with_file(s, file), index + 1);
                },
                _ => {},
            }
        },
        _ => {},
    }
}

/// Whatever is reported to a session, its input files stay in the order of
/// the positional arguments.
pub proof fn lemma_files_in_order(opt: OptView, shape: Shape, events: Seq<EventView>)
    requires
        opt.files.len() <= usize::MAX,
    ensures
        in_order(after(initial(opt, shape), events)),
    decreases events.len(),
{
    if events.len() > 0 {
        lemma_files_in_order(opt, shape, events.drop_last());
        lemma_step_in_order(after(initial(opt, shape), events.drop_last()), events.last());
    }
}

} // verus!
