//! The key bindings of a session: for each key the pipeline that it stands
//! for, every toggle with its undo, and the pipelines of a session as a
//! whole.

use crate::opt::{Opt, OptView};
use crate::pipeline::{
    base_prefix, base_prefix_words, build_base_prefix, default_arg_words, default_lib_prelude,
    input_slot, null_input_flag, passthrough_words, pipeline, pipeline_words, post_filter_slot,
    preview_pipeline, query_placeholder, render_pipeline,
};
use crate::text::{
    join, join_strings, lemma_occurrences_absent, lemma_occurrences_concat, occurrences,
    optional_text, owned, push_word, words,
};
use vstd::prelude::*;
use vstd::string::*;

verus! {

/// What pressing a bound key does.
#[derive(Debug, Clone, Copy, PartialEq, Eq, Structural)]
pub enum BindingKind {
    /// Replaces the preview by a transformed one and changes the prompt.
    Toggle,
    /// Brings the plain preview and the plain prompt back.
    Undo,
    /// Runs the pipeline full screen, outside the preview.
    Execute,
}

/// One key binding and the pipeline that it stands for.
#[derive(Debug, Clone)]
pub struct PipelineBinding {
    /// The key, as fzf names it.
    pub key: String,
    pub kind: BindingKind,
    /// The prompt while the binding is in effect. Empty for `Execute`.
    pub prompt: String,
    /// The rendered pipeline.
    pub pipeline: String,
}

/// What a [`PipelineBinding`] holds.
pub struct PipelineBindingView {
    pub key: Seq<char>,
    pub kind: BindingKind,
    pub prompt: Seq<char>,
    pub pipeline: Seq<char>,
}

impl View for PipelineBinding {
    type V = PipelineBindingView;

    open spec fn view(&self) -> PipelineBindingView {
        PipelineBindingView {
            key: self.key@,
            kind: self.kind,
            prompt: self.prompt@,
            pipeline: self.pipeline@,
        }
    }
}

/// The views of a list of bindings.
pub open spec fn binding_views(bindings: Seq<PipelineBinding>) -> Seq<PipelineBindingView> {
    bindings.map_values(|b: PipelineBinding| b@)
}

/// The mark of null-input mode in a prompt: `-n`, or nothing.
pub open spec fn null_mark(opt: OptView) -> Seq<char> {
    if opt.null_input {
        "-n"@
    } else {
        ""@
    }
}

/// The letter of null-input mode among the flag letters of a prompt.
pub open spec fn null_letter(opt: OptView) -> Seq<char> {
    if opt.null_input {
        "n"@
    } else {
        ""@
    }
}

/// The prompt of the plain preview.
pub open spec fn base_prompt(opt: OptView) -> Seq<char> {
    null_mark(opt) + "> "@
}

/// The prompt while a jq flag with the letter `letter` is switched on.
pub open spec fn flag_prompt(opt: OptView, letter: Seq<char>) -> Seq<char> {
    "-"@ + null_letter(opt) + letter + "> "@
}

/// The prompt while the output goes through the filter named `label`.
pub open spec fn filter_prompt(opt: OptView, label: Seq<char>) -> Seq<char> {
    null_mark(opt) + " "@ + label + "> "@
}

/// A command with its options behind it, after one space.
pub open spec fn command_line(program: Seq<char>, options: Seq<Seq<char>>) -> Seq<char> {
    program + " "@ + join(options, " "@)
}

/// The command that draws jq's output as braille dots.
pub open spec fn braille_command(opt: OptView) -> Seq<char> {
    "BRAILLE_USE_FULL_DEFAULT_HEIGHT=1 "@ + opt.braille_bin + " --modeline"@
}

/// A binding that switches a transformed preview on.
pub open spec fn toggle_binding(
    opt: OptView,
    key: Seq<char>,
    prompt: Seq<char>,
    flags: Seq<Seq<char>>,
    input_file_paths: Seq<char>,
    post_filter: Option<Seq<char>>,
) -> PipelineBindingView {
    PipelineBindingView {
        key,
        kind: BindingKind::Toggle,
        prompt,
        pipeline: pipeline(opt, flags, input_file_paths, post_filter),
    }
}

/// A binding that brings the plain preview back.
pub open spec fn undo_binding(
    opt: OptView,
    key: Seq<char>,
    input_file_paths: Seq<char>,
) -> PipelineBindingView {
    PipelineBindingView {
        key,
        kind: BindingKind::Undo,
        prompt: base_prompt(opt),
        pipeline: preview_pipeline(opt, input_file_paths),
    }
}

/// A binding that runs a pipeline full screen.
pub open spec fn execute_binding(
    opt: OptView,
    key: Seq<char>,
    flags: Seq<Seq<char>>,
    input_file_paths: Seq<char>,
    post_filter: Seq<char>,
) -> PipelineBindingView {
    PipelineBindingView {
        key,
        kind: BindingKind::Execute,
        prompt: Seq::empty(),
        pipeline: pipeline(opt, flags, input_file_paths, Some(post_filter)),
    }
}

/// The key bindings of a session, in the order in which fzf gets them: each
/// toggle directly before its undo, then the bindings that execute.
pub open spec fn bindings(opt: OptView, input_file_paths: Seq<char>) -> Seq<PipelineBindingView> {
    seq![
        toggle_binding(
            opt,
            "alt-s"@,
            flag_prompt(opt, "s"@),
            seq!["--slurp"@],
            input_file_paths,
            None,
        ),
        undo_binding(opt, "alt-S"@, input_file_paths),
        toggle_binding(
            opt,
            "alt-c"@,
            flag_prompt(opt, "c"@),
            seq![opt.compact_flag],
            input_file_paths,
            None,
        ),
        undo_binding(opt, "alt-C"@, input_file_paths),
        toggle_binding(
            opt,
            "ctrl-space"@,
            filter_prompt(opt, "gron"@),
            seq![opt.no_color_flag],
            input_file_paths,
            Some("gron --colorize"@),
        ),
        undo_binding(opt, "alt-space"@, input_file_paths),
        toggle_binding(
            opt,
            "alt-g"@,
            filter_prompt(opt, "braille"@),
            seq![opt.no_color_flag],
            input_file_paths,
            Some(braille_command(opt)),
        ),
        undo_binding(opt, "alt-G"@, input_file_paths),
        execute_binding(
            opt,
            "alt-e"@,
            seq![opt.no_color_flag],
            input_file_paths,
            command_line(opt.editor, opt.editor_options),
        ),
        execute_binding(
            opt,
            "alt-j"@,
            seq![opt.no_color_flag],
            input_file_paths,
            "vd --filetype json"@,
        ),
        execute_binding(
            opt,
            "alt-J"@,
            seq![opt.compact_flag, opt.no_color_flag],
            input_file_paths,
            "vd --filetype jsonl"@,
        ),
        execute_binding(
            opt,
            "alt-v"@,
            seq![opt.no_color_flag],
            input_file_paths,
            "vd --filetype csv"@,
        ),
        execute_binding(
            opt,
            "alt-l"@,
            seq![opt.no_color_flag],
            input_file_paths,
            command_line(opt.pager, opt.pager_options),
        ),
        execute_binding(
            opt,
            "alt-L"@,
            seq![opt.no_color_flag],
            input_file_paths,
            "bat --language json --paging always"@,
        ),
    ]
}

/// The prompt of the plain preview.
pub fn build_base_prompt(opt: &Opt) -> (prompt: String)
    ensures
        prompt@ == base_prompt(opt@),
{
    let null_flag_standalone = if opt.null_input {
        "-n"
    } else {
        ""
    };
    owned(null_flag_standalone).concat("> ")
}

/// The prompt while a jq flag with the letter `letter` is switched on.
fn build_flag_prompt(opt: &Opt, letter: &str) -> (prompt: String)
    ensures
        prompt@ == flag_prompt(opt@, letter@),
{
    let null_flag = if opt.null_input {
        "n"
    } else {
        ""
    };
    owned("-").concat(null_flag).concat(letter).concat("> ")
}

/// The prompt while the output goes through the filter named `label`.
fn build_filter_prompt(opt: &Opt, label: &str) -> (prompt: String)
    ensures
        prompt@ == filter_prompt(opt@, label@),
{
    let null_flag_standalone = if opt.null_input {
        "-n"
    } else {
        ""
    };
    owned(null_flag_standalone).concat(" ").concat(label).concat("> ")
}

/// A command with its options behind it.
fn build_command_line(program: &str, options: &Vec<String>) -> (line: String)
    ensures
        line@ == command_line(program@, words(options@)),
{
    owned(program).concat(" ").concat(join_strings(options, " ").as_str())
}

/// A list of flags that holds `flag` alone.
fn one_flag(flag: &str) -> (flags: Vec<String>)
    ensures
        words(flags@) == seq![flag@],
{
    let mut flags: Vec<String> = Vec::new();
    flags.push(owned(flag));
    assert(words(flags@) == seq![flag@]);
    flags
}

/// Builds a binding that switches a transformed preview on.
fn build_toggle(
    opt: &Opt,
    key: &str,
    prompt: String,
    flags: Vec<String>,
    input_file_paths: &str,
    post_filter: Option<String>,
) -> (binding: PipelineBinding)
    ensures
        binding@ == toggle_binding(
            opt@,
            key@,
            prompt@,
            words(flags@),
            input_file_paths@,
            optional_text(post_filter),
        ),
{
    PipelineBinding {
        key: owned(key),
        kind: BindingKind::Toggle,
        prompt,
        pipeline: render_pipeline(opt, flags, input_file_paths, post_filter),
    }
}

/// Builds a binding that brings the plain preview back.
fn build_undo(opt: &Opt, key: &str, input_file_paths: &str) -> (binding: PipelineBinding)
    ensures
        binding@ == undo_binding(opt@, key@, input_file_paths@),
{
    let none: Vec<String> = Vec::new();
    assert(words(none@) == Seq::<Seq<char>>::empty());
    PipelineBinding {
        key: owned(key),
        kind: BindingKind::Undo,
        prompt: build_base_prompt(opt),
        pipeline: render_pipeline(opt, none, input_file_paths, None),
    }
}

/// Builds a binding that runs a pipeline full screen.
fn build_execute(
    opt: &Opt,
    key: &str,
    flags: Vec<String>,
    input_file_paths: &str,
    post_filter: String,
) -> (binding: PipelineBinding)
    ensures
        binding@ == execute_binding(
            opt@,
            key@,
            words(flags@),
            input_file_paths@,
            post_filter@,
        ),
{
    PipelineBinding {
        key: owned(key),
        kind: BindingKind::Execute,
        prompt: String::new(),
        pipeline: render_pipeline(opt, flags, input_file_paths, Some(post_filter)),
    }
}

/// The key bindings of a session over the input files `input_file_paths`.
pub fn build_bindings(opt: &Opt, input_file_paths: &str) -> (list: Vec<PipelineBinding>)
    ensures
        binding_views(list@) == bindings(opt@, input_file_paths@),
{
    let no_color_flag = opt.no_color_flag.as_str();
    let compact_flag = opt.compact_flag.as_str();
    let mut compact_plain = one_flag(compact_flag);
    push_word(&mut compact_plain, owned(no_color_flag));
    assert(words(compact_plain@) == seq![opt@.compact_flag, opt@.no_color_flag]);
    let braille = owned("BRAILLE_USE_FULL_DEFAULT_HEIGHT=1 ").concat(
        opt.braille_bin.as_str(),
    ).concat(" --modeline");

    let mut list: Vec<PipelineBinding> = Vec::new();
    list.push(
        build_toggle(
            opt,
            "alt-s",
            build_flag_prompt(opt, "s"),
            one_flag("--slurp"),
            input_file_paths,
            None,
        ),
    );
    list.push(build_undo(opt, "alt-S", input_file_paths));
    list.push(
        build_toggle(
            opt,
            "alt-c",
            build_flag_prompt(opt, "c"),
            one_flag(compact_flag),
            input_file_paths,
            None,
        ),
    );
    list.push(build_undo(opt, "alt-C", input_file_paths));
    list.push(
        build_toggle(
            opt,
            "ctrl-space",
            build_filter_prompt(opt, "gron"),
            one_flag(no_color_flag),
            input_file_paths,
            Some(owned("gron --colorize")),
        ),
    );
    list.push(build_undo(opt, "alt-space", input_file_paths));
    list.push(
        build_toggle(
            opt,
            "alt-g",
            build_filter_prompt(opt, "braille"),
            one_flag(no_color_flag),
            input_file_paths,
            Some(braille),
        ),
    );
    list.push(build_undo(opt, "alt-G", input_file_paths));
    list.push(
        build_execute(
            opt,
            "alt-e",
            one_flag(no_color_flag),
            input_file_paths,
            build_command_line(opt.editor.as_str(), &opt.editor_options),
        ),
    );
    list.push(
        build_execute(
            opt,
            "alt-j",
            one_flag(no_color_flag),
            input_file_paths,
            owned("vd --filetype json"),
        ),
    );
    list.push(
        build_execute(
            opt,
            "alt-J",
            compact_plain,
            input_file_paths,
            owned("vd --filetype jsonl"),
        ),
    );
    list.push(
        build_execute(
            opt,
            "alt-v",
            one_flag(no_color_flag),
            input_file_paths,
            owned("vd --filetype csv"),
        ),
    );
    list.push(
        build_execute(
            opt,
            "alt-l",
            one_flag(no_color_flag),
            input_file_paths,
            build_command_line(opt.pager.as_str(), &opt.pager_options),
        ),
    );
    list.push(
        build_execute(
            opt,
            "alt-L",
            one_flag(no_color_flag),
            input_file_paths,
            owned("bat --language json --paging always"),
        ),
    );
    assert(binding_views(list@) == bindings(opt@, input_file_paths@));
    list
}

/// The pipelines of a session.
#[derive(Debug, Clone)]
pub struct PipelineTemplates {
    /// What the preview and every binding start with, after jq's name.
    pub base_prefix: String,
    /// The pipeline of the live preview.
    pub preview: String,
    /// The key bindings.
    pub bindings: Vec<PipelineBinding>,
}

/// What a [`PipelineTemplates`] holds.
pub struct PipelineTemplatesView {
    pub base_prefix: Seq<char>,
    pub preview: Seq<char>,
    pub bindings: Seq<PipelineBindingView>,
}

impl View for PipelineTemplates {
    type V = PipelineTemplatesView;

    open spec fn view(&self) -> PipelineTemplatesView {
        PipelineTemplatesView {
            base_prefix: self.base_prefix@,
            preview: self.preview@,
            bindings: binding_views(self.bindings@),
        }
    }
}

/// The pipelines of a session with the options `opt` over the input files
/// `input_file_paths`.
pub open spec fn pipelines(opt: OptView, input_file_paths: Seq<char>) -> PipelineTemplatesView {
    PipelineTemplatesView {
        base_prefix: base_prefix(opt),
        preview: preview_pipeline(opt, input_file_paths),
        bindings: bindings(opt, input_file_paths),
    }
}

/// Builds the base prefix, the preview and every key binding of a session.
/// `input_file_paths` holds the input files, each one quoted for the shell,
/// with single spaces between them.
pub fn build_pipelines(opt: &Opt, input_file_paths: &str) -> (templates: PipelineTemplates)
    ensures
        templates@ == pipelines(opt@, input_file_paths@),
{
    let none: Vec<String> = Vec::new();
    assert(words(none@) == Seq::<Seq<char>>::empty());
    PipelineTemplates {
        base_prefix: build_base_prefix(opt),
        preview: render_pipeline(opt, none, input_file_paths, None),
        bindings: build_bindings(opt, input_file_paths),
    }
}

/// Whether the binding at `undo` is the undo of the toggle at `toggle`: the
/// undo stands directly behind its toggle.
pub open spec fn undoes(list: Seq<PipelineBindingView>, undo: int, toggle: int) -> bool {
    &&& 0 <= toggle < undo < list.len()
    &&& undo == toggle + 1
    &&& list[toggle].kind == BindingKind::Toggle
    &&& list[undo].kind == BindingKind::Undo
}

/// Every toggle among the key bindings has its undo, and the undo brings
/// back exactly the live preview: its pipeline is that of the preview, its
/// prompt the plain one.
pub proof fn lemma_binding_symmetry(opt: OptView, input_file_paths: Seq<char>)
    ensures
        forall|toggle: int|
            #![trigger bindings(opt, input_file_paths)[toggle]]
            0 <= toggle < bindings(opt, input_file_paths).len() && bindings(
                opt,
                input_file_paths,
            )[toggle].kind == BindingKind::Toggle ==> exists|undo: int|
                #![trigger undoes(bindings(opt, input_file_paths), undo, toggle)]
                undoes(bindings(opt, input_file_paths), undo, toggle) && bindings(
                    opt,
                    input_file_paths,
                )[undo].pipeline == pipelines(opt, input_file_paths).preview && bindings(
                    opt,
                    input_file_paths,
                )[undo].prompt == base_prompt(opt),
{
    let list = bindings(opt, input_file_paths);
    assert forall|toggle: int|
        #![trigger list[toggle]]
        0 <= toggle < list.len() && list[toggle].kind == BindingKind::Toggle implies exists|
        undo: int,
    |
        #![trigger undoes(list, undo, toggle)]
        undoes(list, undo, toggle) && list[undo].pipeline == pipelines(
            opt,
            input_file_paths,
        ).preview && list[undo].prompt == base_prompt(opt) by {
        assert(toggle == 0 || toggle == 2 || toggle == 4 || toggle == 6);
        assert(undoes(list, toggle + 1, toggle));
    }
}

/// Whether `text` is a pipeline of the session: jq under its name, the base
/// prefix and the input files of the session, with some transform and some
/// post-filter, or none.
pub open spec fn is_session_pipeline(
    opt: OptView,
    input_file_paths: Seq<char>,
    text: Seq<char>,
) -> bool {
    exists|flags: Seq<Seq<char>>, post_filter: Option<Seq<char>>|
        text == #[trigger] pipeline(opt, flags, input_file_paths, post_filter)
}

/// The preview and every key binding run jq under the same name, with the
/// same base prefix, on the same input files: no key can make the session
/// read other input than the preview shows.
pub proof fn lemma_bindings_share_input(opt: OptView, input_file_paths: Seq<char>)
    ensures
        is_session_pipeline(opt, input_file_paths, pipelines(opt, input_file_paths).preview),
        forall|i: int|
            0 <= i < bindings(opt, input_file_paths).len() ==> is_session_pipeline(
                opt,
                input_file_paths,
                #[trigger] bindings(opt, input_file_paths)[i].pipeline,
            ),
{
    let none = Seq::<Seq<char>>::empty();
    let plain = seq![opt.no_color_flag];
    assert(preview_pipeline(opt, input_file_paths) == pipeline(opt, none, input_file_paths, None));
    let list = bindings(opt, input_file_paths);
    assert(list[0].pipeline == pipeline(opt, seq!["--slurp"@], input_file_paths, None));
    assert(list[2].pipeline == pipeline(opt, seq![opt.compact_flag], input_file_paths, None));
    assert(list[4].pipeline == pipeline(
        opt,
        plain,
        input_file_paths,
        Some("gron --colorize"@),
    ));
    assert(list[6].pipeline == pipeline(opt, plain, input_file_paths, Some(braille_command(opt))));
    assert(list[8].pipeline == pipeline(
        opt,
        plain,
        input_file_paths,
        Some(command_line(opt.editor, opt.editor_options)),
    ));
    assert(list[9].pipeline == pipeline(
        opt,
        plain,
        input_file_paths,
        Some("vd --filetype json"@),
    ));
    assert(list[10].pipeline == pipeline(
        opt,
        seq![opt.compact_flag, opt.no_color_flag],
        input_file_paths,
        Some("vd --filetype jsonl"@),
    ));
    assert(list[11].pipeline == pipeline(
        opt,
        plain,
        input_file_paths,
        Some("vd --filetype csv"@),
    ));
    assert(list[12].pipeline == pipeline(
        opt,
        plain,
        input_file_paths,
        Some(command_line(opt.pager, opt.pager_options)),
    ));
    assert(list[13].pipeline == pipeline(
        opt,
        plain,
        input_file_paths,
        Some("bat --language json --paging always"@),
    ));
    assert forall|i: int| 0 <= i < list.len() implies is_session_pipeline(
        opt,
        input_file_paths,
        #[trigger] list[i].pipeline,
    ) by {
        if i == 1 || i == 3 || i == 5 || i == 7 {
            assert(list[i].pipeline == pipeline(opt, none, input_file_paths, None));
        }
    }
}

/// In null-input mode no pipeline holds the input files: whatever they are,
/// the words of a pipeline are jq, the base prefix, the flags, the query
/// placeholder and the post-filter, and nothing stands where the files
/// would.
pub proof fn lemma_null_input_omits_files(
    opt: OptView,
    flags: Seq<Seq<char>>,
    input_file_paths: Seq<char>,
    post_filter: Option<Seq<char>>,
)
    requires
        opt.null_input,
    ensures
        pipeline_words(opt, flags, input_file_paths, post_filter) == seq![
            opt.jq_bin,
            base_prefix(opt),
        ] + flags + seq![query_placeholder()] + post_filter_slot(post_filter),
        pipeline(opt, flags, input_file_paths, post_filter) == pipeline(
            opt,
            flags,
            Seq::empty(),
            post_filter,
        ),
        pipelines(opt, input_file_paths) == pipelines(opt, Seq::empty()),
{
    assert(input_slot(opt, input_file_paths) == Seq::<Seq<char>>::empty());
    let head = seq![opt.jq_bin, base_prefix(opt)] + flags + seq![query_placeholder()];
    assert(head + Seq::<Seq<char>>::empty() == head);
    assert(pipeline_words(opt, flags, input_file_paths, post_filter) == pipeline_words(
        opt,
        flags,
        Seq::empty(),
        post_filter,
    ));
    assert(bindings(opt, input_file_paths) == bindings(opt, Seq::empty()));
}

/// In null-input mode a pipeline without a post-filter ends with the query
/// placeholder: no separator is left behind where the files would stand.
pub proof fn lemma_null_input_ends_with_query(
    opt: OptView,
    flags: Seq<Seq<char>>,
    input_file_paths: Seq<char>,
)
    requires
        opt.null_input,
    ensures
        pipeline(opt, flags, input_file_paths, None) == join(
            seq![opt.jq_bin, base_prefix(opt)] + flags,
            " "@,
        ) + " "@ + query_placeholder(),
{
    lemma_null_input_omits_files(opt, flags, input_file_paths, None);
    let head = seq![opt.jq_bin, base_prefix(opt)] + flags;
    let all = head + seq![query_placeholder()];
    assert(all + Seq::<Seq<char>>::empty() == all);
    assert(all.drop_last() == head);
    assert(all.last() == query_placeholder());
}

/// In null-input mode the null-input flag stands exactly once among the
/// words of the base prefix, unless the options themselves hold it: as the
/// library directory, the color flag, the raw-input flag in use, or one of
/// the arguments passed through to jq.
pub proof fn lemma_null_input_flag_once(opt: OptView)
    requires
        opt.null_input,
        opt.use_default_args ==> opt.jq_repl_lib != null_input_flag(),
        opt.color_flag != null_input_flag(),
        opt.raw_input ==> opt.raw_input_flag != null_input_flag(),
        forall|i: int| 0 <= i < opt.jq_args.len() ==> opt.jq_args[i] != null_input_flag(),
    ensures
        occurrences(base_prefix_words(opt), null_input_flag()) == 1,
{
    let flag = null_input_flag();
    reveal_strlit("-n");
    reveal_strlit("-L");
    reveal_strlit("--raw-output");
    reveal_strlit(".jq");
    reveal_strlit("/");
    assert(flag.len() == 2);
    assert("-L"@[1] != flag[1]);
    assert(default_lib_prelude(opt.jq_repl_lib).len() >= 3);
    lemma_occurrences_absent(default_arg_words(opt), flag);
    lemma_occurrences_absent(opt.jq_args, flag);
    let null_slot = seq![flag];
    let raw_slot = if opt.raw_input {
        seq![opt.raw_input_flag]
    } else {
        Seq::empty()
    };
    assert(null_slot.drop_last() == Seq::<Seq<char>>::empty());
    assert(occurrences(null_slot, flag) == 1) by {
        assert(occurrences(null_slot.drop_last(), flag) == 0);
    }
    lemma_occurrences_absent(raw_slot, flag);
    lemma_occurrences_concat(opt.jq_args, null_slot, flag);
    lemma_occurrences_concat(opt.jq_args + null_slot, raw_slot, flag);
    lemma_occurrences_concat(default_arg_words(opt), passthrough_words(opt), flag);
}

} // verus!
