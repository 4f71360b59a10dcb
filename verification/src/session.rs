//! One session, step by step. The session decides; its caller reads, copies,
//! prints and starts programs, and reports what came of it.

use crate::error::{
    check_selector_status, outcome_view, selector_outcome, Error, ErrorView, ExitStatus,
    ExitStatusView, IoFailure, IoFailureView,
};
use crate::fzf::{build_shaped_fzf_cmd, command_script, render_fzf_command, shaped_fzf_cmd};
use crate::input::{
    file_views, input_file_paths, joined_input_paths, materialized, materialized_paths, InputFile,
    InputFileView,
};
use crate::opt::{Opt, OptView};
use crate::process::{Invocation, InvocationView, Shape};
use crate::render::{
    accepted_query, build_render_plan, render_plan, take_accepted_query, RenderPlan,
    RenderPlanView,
};
use crate::text::{owned, push_word, words};
use crate::version::{
    banner, build_banner, cmd_presence_line, cmd_version_line, is_presence_probe, output_view,
    presence_line, probe_name, probe_program, probes_presence, version_line, PROBES,
};
use vstd::prelude::*;
use vstd::utf8::{decode_utf8, valid_utf8};

verus! {

/// Where a session stands: what it has asked for and not yet heard of.
#[derive(Debug, Clone, Copy, PartialEq, Eq, Structural)]
pub enum Phase {
    /// Nothing has happened yet.
    Ready,
    /// The first lines of the version report are being printed.
    Banner,
    /// The program of the probe with this number is being run.
    Probing(usize),
    /// The line of the probe with this number is being printed.
    Reporting(usize),
    /// The positional file with this number is being looked at.
    Inspecting(usize),
    /// A copy of the positional file with this number is being made.
    Copying(usize),
    /// A copy of standard input is being made, in place of positional files.
    CopyingStdin,
    /// The fzf command is being printed.
    Showing,
    /// fzf is running.
    Selecting,
    /// fzf is running, and the query is awaited from it.
    Querying,
    /// jq is running on the accepted query.
    Rendering,
    /// The session is over.
    Done,
}

/// What the caller reports to the session.
#[derive(Debug)]
pub enum Event {
    /// The program has started. `stdin_is_terminal` says whether standard
    /// input is a terminal; if not, input is piped in. `stdout_is_terminal`
    /// says the same of standard output; if not, it is redirected.
    Start { stdin_is_terminal: bool, stdout_is_terminal: bool },
    /// The text has been printed.
    Printed,
    /// The program ran and wrote this to its standard output, or could not
    /// be run.
    Output(Result<Vec<u8>, IoFailure>),
    /// Whether the program could be started.
    Started(bool),
    /// Whether the path names a regular file that exists.
    Inspected { is_file: bool },
    /// The copy lies in a new temporary file with this path, or could not be
    /// made.
    Copied(Result<String, IoFailure>),
    /// The process, or the last one of the pipeline, has ended with this
    /// status; or a process could not be started.
    Exited(Result<ExitStatus, IoFailure>),
    /// fzf has ended with this status, and this was read from its standard
    /// output; or fzf could not be started.
    Answered(Result<Answer, IoFailure>),
}

/// What fzf leaves behind when it hands back the query.
#[derive(Debug, Clone, PartialEq, Eq)]
pub struct Answer {
    /// How fzf ended.
    pub status: ExitStatus,
    /// What fzf wrote to its standard output.
    pub output: Vec<u8>,
}

/// What an [`Answer`] holds.
pub struct AnswerView {
    pub status: ExitStatusView,
    pub output: Seq<u8>,
}

impl View for Answer {
    type V = AnswerView;

    open spec fn view(&self) -> AnswerView {
        AnswerView { status: self.status@, output: self.output@ }
    }
}

/// What an [`Event`] holds.
pub enum EventView {
    Start { stdin_is_terminal: bool, stdout_is_terminal: bool },
    Printed,
    Output(Result<Seq<u8>, IoFailureView>),
    Started(bool),
    Inspected { is_file: bool },
    Copied(Result<Seq<char>, IoFailureView>),
    Exited(Result<ExitStatusView, IoFailureView>),
    Answered(Result<AnswerView, IoFailureView>),
}

impl View for Event {
    type V = EventView;

    open spec fn view(&self) -> EventView {
        match self {
            Event::Start { stdin_is_terminal, stdout_is_terminal } => EventView::Start {
                stdin_is_terminal: *stdin_is_terminal,
                stdout_is_terminal: *stdout_is_terminal,
            },
            Event::Printed => EventView::Printed,
            Event::Output(output) => EventView::Output(output_view(*output)),
            Event::Started(started) => EventView::Started(*started),
            Event::Inspected { is_file } => EventView::Inspected { is_file: *is_file },
            Event::Copied(Ok(path)) => EventView::Copied(Ok(path@)),
            Event::Copied(Err(failure)) => EventView::Copied(Err(failure@)),
            Event::Exited(Ok(status)) => EventView::Exited(Ok(status@)),
            Event::Exited(Err(failure)) => EventView::Exited(Err(failure@)),
            Event::Answered(Ok(answer)) => EventView::Answered(Ok(answer@)),
            Event::Answered(Err(failure)) => EventView::Answered(Err(failure@)),
        }
    }
}

/// What the session asks its caller to do next.
#[derive(Debug)]
pub enum Action {
    /// Write the text to standard output; report `Printed`.
    Print(String),
    /// Run `program` with the one argument `flag` and capture its standard
    /// output; report `Output`.
    Capture { program: String, flag: String },
    /// Run `program` with the null device as standard input; report
    /// `Started`.
    Try { program: String },
    /// Find out whether `path` names a regular file; report `Inspected`.
    Inspect { path: String },
    /// Copy standard input into a new temporary file; report `Copied`.
    CopyStdin,
    /// Copy what can be read at `path` into a new temporary file; report
    /// `Copied`.
    CopyFile { path: String },
    /// Start the command and wait for it to end; report `Exited`.
    Spawn(Invocation),
    /// Start the command, read its standard output to the end and wait for
    /// it to end; report `Answered`.
    Query(Invocation),
    /// Start jq, and the pager with the standard output of jq as its
    /// standard input where the plan has one; wait for both to end; report
    /// `Exited` with the status of the pager, or of jq where there is none.
    Render(RenderPlan),
    /// Remove the temporary files at the paths `release`, and end with
    /// `outcome`.
    Finish { release: Vec<String>, outcome: Result<(), Error> },
}

/// What an [`Action`] holds.
pub enum ActionView {
    Print(Seq<char>),
    Capture { program: Seq<char>, flag: Seq<char> },
    Try { program: Seq<char> },
    Inspect { path: Seq<char> },
    CopyStdin,
    CopyFile { path: Seq<char> },
    Spawn(InvocationView),
    Query(InvocationView),
    Render(RenderPlanView),
    Finish { release: Seq<Seq<char>>, outcome: Result<(), ErrorView> },
}

impl View for Action {
    type V = ActionView;

    open spec fn view(&self) -> ActionView {
        match self {
            Action::Print(text) => ActionView::Print(text@),
            Action::Capture { program, flag } => ActionView::Capture {
                program: program@,
                flag: flag@,
            },
            Action::Try { program } => ActionView::Try { program: program@ },
            Action::Inspect { path } => ActionView::Inspect { path: path@ },
            Action::CopyStdin => ActionView::CopyStdin,
            Action::CopyFile { path } => ActionView::CopyFile { path: path@ },
            Action::Spawn(command) => ActionView::Spawn(command@),
            Action::Query(command) => ActionView::Query(command@),
            Action::Render(plan) => ActionView::Render(plan@),
            Action::Finish { release, outcome } => ActionView::Finish {
                release: words(release@),
                outcome: outcome_view(*outcome),
            },
        }
    }
}

/// A session: its options, where it stands, and the input files that it has
/// so far.
#[derive(Debug)]
pub struct Session {
    opt: Opt,
    shape: Shape,
    phase: Phase,
    has_piped_input: bool,
    stdout_is_terminal: bool,
    files: Vec<InputFile>,
}

/// What a [`Session`] holds.
pub struct SessionView {
    pub opt: OptView,
    pub shape: Shape,
    pub phase: Phase,
    pub has_piped_input: bool,
    pub stdout_is_terminal: bool,
    pub files: Seq<InputFileView>,
}

impl View for Session {
    type V = SessionView;

    closed spec fn view(&self) -> SessionView {
        SessionView {
            opt: self.opt@,
            shape: self.shape,
            phase: self.phase,
            has_piped_input: self.has_piped_input,
            stdout_is_terminal: self.stdout_is_terminal,
            files: file_views(self.files@),
        }
    }
}

/// A session of the shape `shape` with the options `opt` in which nothing
/// has happened yet.
pub open spec fn initial(opt: OptView, shape: Shape) -> SessionView {
    SessionView {
        opt,
        shape,
        phase: Phase::Ready,
        has_piped_input: false,
        stdout_is_terminal: false,
        files: Seq::empty(),
    }
}

/// The session `s` in the phase `phase`.
pub open spec fn in_phase(s: SessionView, phase: Phase) -> SessionView {
    SessionView { phase, ..s }
}

/// The session `s` with `file` as one more input file.
pub open spec fn with_file(s: SessionView, file: InputFileView) -> SessionView {
    SessionView { files: s.files.push(file), ..s }
}

/// The session `s` after its end: it holds no file any more.
pub open spec fn ended(s: SessionView) -> SessionView {
    SessionView { phase: Phase::Done, files: Seq::empty(), ..s }
}

/// The temporary file that an event brings with it, if it brings one.
pub open spec fn brought(e: EventView) -> Seq<Seq<char>> {
    match e {
        EventView::Copied(Ok(path)) => seq![path],
        _ => Seq::empty(),
    }
}

/// The end of the session `s` with `outcome`: every temporary file that it
/// holds is released.
pub open spec fn finish(s: SessionView, outcome: Result<(), ErrorView>) -> (
    SessionView,
    ActionView,
) {
    (ended(s), ActionView::Finish { release: materialized_paths(s.files), outcome })
}

/// The message of the error that ends a session to which something was
/// reported that it had not asked for.
pub open spec fn unexpected() -> Seq<char> {
    "unexpected event"@
}

/// The end of the session `s` on an event `e` that it had not asked for:
/// every temporary file that it holds is released, and the one that the
/// event brings too.
pub open spec fn reject(s: SessionView, e: EventView) -> (SessionView, ActionView) {
    (
        ended(s),
        ActionView::Finish {
            release: materialized_paths(s.files) + brought(e),
            outcome: Err(ErrorView::Custom(unexpected())),
        },
    )
}

/// The flag that makes a program print its version.
pub open spec fn version_flag() -> Seq<char> {
    "--version"@
}

/// The probe with the number `index` starts, or the report ends where no
/// probe is left.
pub open spec fn probe(s: SessionView, index: int) -> (SessionView, ActionView) {
    if index < 0 || index >= PROBES {
        finish(s, Ok(()))
    } else if probes_presence(s.opt, index) {
        (
            in_phase(s, Phase::Probing(index as usize)),
            ActionView::Try { program: probe_program(s.opt, index) },
        )
    } else {
        (
            in_phase(s, Phase::Probing(index as usize)),
            ActionView::Capture { program: probe_program(s.opt, index), flag: version_flag() },
        )
    }
}

/// The session has its input files: fzf is started over them, or, where the
/// command is only to be shown, printed. In a two-phase session the query is
/// awaited from fzf.
pub open spec fn launch(s: SessionView) -> (SessionView, ActionView) {
    let command = shaped_fzf_cmd(s.opt, joined_input_paths(s.files), s.shape);
    if s.opt.show_fzf_command {
        (in_phase(s, Phase::Showing), ActionView::Print(command_script(command)))
    } else {
        match s.shape {
            Shape::SinglePhase => (in_phase(s, Phase::Selecting), ActionView::Spawn(command)),
            Shape::TwoPhase => (in_phase(s, Phase::Querying), ActionView::Query(command)),
        }
    }
}

/// What follows when fzf has handed back the query: a status of fzf that is
/// an error ends the session, and so does output that is no UTF-8; otherwise
/// jq is run on the accepted query, also where the query is empty.
pub open spec fn answered(s: SessionView, answer: AnswerView) -> (SessionView, ActionView) {
    match selector_outcome(answer.status) {
        Err(err) => finish(s, Err(err)),
        Ok(_) => if valid_utf8(answer.output) {
            (
                in_phase(s, Phase::Rendering),
                ActionView::Render(
                    render_plan(
                        s.opt,
                        accepted_query(decode_utf8(answer.output)),
                        s.files,
                        s.stdout_is_terminal,
                    ),
                ),
            )
        } else {
            finish(s, Err(ErrorView::Utf8))
        },
    }
}

/// The name that stands for standard input among the positional files.
pub open spec fn stdin_placeholder() -> Seq<char> {
    "-"@
}

/// The positional file with the number `index` is taken up: `-` is a copy of
/// standard input where input is piped in; every other file is looked at
/// first. After the last one comes the launch; where there was none and input
/// is piped in, standard input is copied first.
pub open spec fn resolve(s: SessionView, index: int) -> (SessionView, ActionView) {
    if 0 <= index < s.opt.files.len() {
        if s.opt.files[index] == stdin_placeholder() && s.has_piped_input {
            (in_phase(s, Phase::Copying(index as usize)), ActionView::CopyStdin)
        } else {
            (
                in_phase(s, Phase::Inspecting(index as usize)),
                ActionView::Inspect { path: s.opt.files[index] },
            )
        }
    } else if s.opt.files.len() == 0 && s.has_piped_input {
        (in_phase(s, Phase::CopyingStdin), ActionView::CopyStdin)
    } else {
        launch(s)
    }
}

/// The options `opt` with null-input mode set to `null_input`.
pub open spec fn with_null_input(opt: OptView, null_input: bool) -> OptView {
    OptView { null_input, ..opt }
}

/// Null-input mode is on where the options ask for it, and where no file is
/// given and standard input is a terminal: nothing would ever arrive there.
pub open spec fn null_input_mode(opt: OptView, stdin_is_terminal: bool) -> bool {
    opt.null_input || (stdin_is_terminal && opt.files.len() == 0)
}

/// The session `s` once it knows its standard streams: null-input mode is
/// settled, and input is piped in where standard input is no terminal.
pub open spec fn settled(
    s: SessionView,
    stdin_is_terminal: bool,
    stdout_is_terminal: bool,
) -> SessionView {
    SessionView {
        opt: with_null_input(s.opt, null_input_mode(s.opt, stdin_is_terminal)),
        has_piped_input: !stdin_is_terminal,
        stdout_is_terminal,
        ..s
    }
}

/// The first step: the version report where it is asked for, and nothing
/// else then; otherwise null-input mode is settled, and the input files are
/// taken up.
pub open spec fn start(s: SessionView, stdin_is_terminal: bool, stdout_is_terminal: bool) -> (
    SessionView,
    ActionView,
) {
    if s.opt.version_verbose {
        (in_phase(s, Phase::Banner), ActionView::Print(banner()))
    } else {
        resolve(settled(s, stdin_is_terminal, stdout_is_terminal), 0)
    }
}

/// What follows when a probe has run.
pub open spec fn probed(s: SessionView, index: int, e: EventView) -> (SessionView, ActionView) {
    if index < 0 || index >= PROBES {
        reject(s, e)
    } else if probes_presence(s.opt, index) {
        match e {
            EventView::Started(started) => (
                in_phase(s, Phase::Reporting(index as usize)),
                ActionView::Print(presence_line(probe_program(s.opt, index), started)),
            ),
            _ => reject(s, e),
        }
    } else {
        match e {
            EventView::Output(output) => match version_line(probe_program(s.opt, index), output) {
                Ok(line) => (
                    in_phase(s, Phase::Reporting(index as usize)),
                    ActionView::Print(line),
                ),
                Err(err) => finish(s, Err(err)),
            },
            _ => reject(s, e),
        }
    }
}

/// What follows when a positional file has been looked at: a regular file is
/// taken as it is, anything else is copied.
pub open spec fn inspected(s: SessionView, index: int, e: EventView) -> (SessionView, ActionView) {
    if 0 <= index < s.opt.files.len() {
        match e {
            EventView::Inspected { is_file } => if is_file {
                resolve(with_file(s, InputFileView::File(s.opt.files[index])), index + 1)
            } else {
                (
                    in_phase(s, Phase::Copying(index as usize)),
                    ActionView::CopyFile { path: s.opt.files[index] },
                )
            },
            _ => reject(s, e),
        }
    } else {
        reject(s, e)
    }
}

/// What follows when the copy for a positional file has been made, or has
/// failed.
pub open spec fn copied(s: SessionView, index: int, e: EventView) -> (SessionView, ActionView) {
    if 0 <= index < s.opt.files.len() {
        match e {
            EventView::Copied(Ok(path)) => resolve(
                with_file(s, InputFileView::Stdin(path)),
                index + 1,
            ),
            EventView::Copied(Err(failure)) => finish(s, Err(ErrorView::Io(failure))),
            _ => reject(s, e),
        }
    } else {
        reject(s, e)
    }
}

/// The step of a session: from where it stands and what is reported to it,
/// to where it stands then and what it asks for next. Something that the
/// session had not asked for ends it with an error. In a single-phase session
/// the status of fzf decides the outcome. In a two-phase session jq runs on
/// the accepted query when fzf has ended well; that jq and the pager could
/// be started is all that counts then, not how they ended.
pub open spec fn next(s: SessionView, e: EventView) -> (SessionView, ActionView) {
    match s.phase {
        Phase::Ready => match e {
            EventView::Start { stdin_is_terminal, stdout_is_terminal } => start(
                s,
                stdin_is_terminal,
                stdout_is_terminal,
            ),
            _ => reject(s, e),
        },
        Phase::Banner => match e {
            EventView::Printed => probe(s, 0),
            _ => reject(s, e),
        },
        Phase::Probing(index) => probed(s, index as int, e),
        Phase::Reporting(index) => match e {
            EventView::Printed => if index < PROBES {
                probe(s, index + 1)
            } else {
                reject(s, e)
            },
            _ => reject(s, e),
        },
        Phase::Inspecting(index) => inspected(s, index as int, e),
        Phase::Copying(index) => copied(s, index as int, e),
        Phase::CopyingStdin => match e {
            EventView::Copied(Ok(path)) => launch(with_file(s, InputFileView::Stdin(path))),
            EventView::Copied(Err(failure)) => finish(s, Err(ErrorView::Io(failure))),
            _ => reject(s, e),
        },
        Phase::Showing => match e {
            EventView::Printed => finish(s, Ok(())),
            _ => reject(s, e),
        },
        Phase::Selecting => match e {
            EventView::Exited(Ok(status)) => finish(s, selector_outcome(status)),
            EventView::Exited(Err(failure)) => finish(s, Err(ErrorView::Io(failure))),
            _ => reject(s, e),
        },
        Phase::Querying => match e {
            EventView::Answered(Ok(answer)) => answered(s, answer),
            EventView::Answered(Err(failure)) => finish(s, Err(ErrorView::Io(failure))),
            _ => reject(s, e),
        },
        Phase::Rendering => match e {
            EventView::Exited(Ok(_)) => finish(s, Ok(())),
            EventView::Exited(Err(failure)) => finish(s, Err(ErrorView::Io(failure))),
            _ => reject(s, e),
        },
        Phase::Done => reject(s, e),
    }
}

impl Session {
    /// A session of the shape `shape` with the options `opt` in which
    /// nothing has happened yet.
    pub fn new(opt: Opt, shape: Shape) -> (session: Session)
        ensures
            session@ == initial(opt@, shape),
    {
        let files: Vec<InputFile> = Vec::new();
        assert(file_views(files@) == Seq::<InputFileView>::empty());
        Session {
            opt,
            shape,
            phase: Phase::Ready,
            has_piped_input: false,
            stdout_is_terminal: false,
            files,
        }
    }

    /// The shape of the session.
    pub fn shape(&self) -> (shape: Shape)
        ensures
            shape == self@.shape,
    {
        self.shape
    }

    /// Where the session stands.
    pub fn phase(&self) -> (phase: Phase)
        ensures
            phase == self@.phase,
    {
        self.phase
    }

    /// The options of the session, with null-input mode as it was settled at
    /// the start.
    pub fn opt(&self) -> (opt: &Opt)
        ensures
            opt@ == self@.opt,
    {
        &self.opt
    }

    /// The input files that the session has so far.
    pub fn files(&self) -> (files: &Vec<InputFile>)
        ensures
            file_views(files@) == self@.files,
    {
        &self.files
    }

    /// Whether the session is over.
    pub fn is_done(&self) -> (done: bool)
        ensures
            done == (self@.phase == Phase::Done),
    {
        match self.phase {
            Phase::Done => true,
            _ => false,
        }
    }

    /// Moves the session to `phase`.
    fn enter(self, phase: Phase) -> (session: Session)
        ensures
            session@ == in_phase(self@, phase),
    {
        Session {
            opt: self.opt,
            shape: self.shape,
            phase,
            has_piped_input: self.has_piped_input,
            stdout_is_terminal: self.stdout_is_terminal,
            files: self.files,
        }
    }

    /// Takes `file` in as one more input file.
    fn add_file(self, file: InputFile) -> (session: Session)
        ensures
            session@ == with_file(self@, file@),
    {
        let mut files = self.files;
        files.push(file);
        assert(file_views(files@) == file_views(self.files@).push(file@));
        Session {
            opt: self.opt,
            shape: self.shape,
            phase: self.phase,
            has_piped_input: self.has_piped_input,
            stdout_is_terminal: self.stdout_is_terminal,
            files,
        }
    }

    /// Ends the session: it lets go of its files.
    fn end(self) -> (session: Session)
        ensures
            session@ == ended(self@),
    {
        let files: Vec<InputFile> = Vec::new();
        assert(file_views(files@) == Seq::<InputFileView>::empty());
        Session {
            opt: self.opt,
            shape: self.shape,
            phase: Phase::Done,
            has_piped_input: self.has_piped_input,
            stdout_is_terminal: self.stdout_is_terminal,
            files,
        }
    }

    /// Ends the session with `outcome` and releases its temporary files.
    fn finish(self, outcome: Result<(), Error>) -> (step: (Session, Action))
        ensures
            (step.0@, step.1@) == finish(self@, outcome_view(outcome)),
    {
        let release = materialized(&self.files);
        (self.end(), Action::Finish { release, outcome })
    }

    /// Ends the session on an event that it had not asked for.
    fn reject(self, event: Event) -> (step: (Session, Action))
        ensures
            (step.0@, step.1@) == reject(self@, event@),
    {
        let mut release = materialized(&self.files);
        match event {
            Event::Copied(Ok(path)) => {
                push_word(&mut release, path);
            },
            _ => {},
        }
        assert(words(release@) == materialized_paths(self@.files) + brought(event@));
        (
            self.end(),
            Action::Finish { release, outcome: Err(Error::Custom("unexpected event")) },
        )
    }

    /// Starts the probe with the number `index`, or ends the report.
    fn probe(self, index: usize) -> (step: (Session, Action))
        ensures
            (step.0@, step.1@) == probe(self@, index as int),
    {
        if index >= PROBES {
            self.finish(Ok(()))
        } else {
            let program = probe_name(&self.opt, index);
            if is_presence_probe(&self.opt, index) {
                (self.enter(Phase::Probing(index)), Action::Try { program })
            } else {
                (
                    self.enter(Phase::Probing(index)),
                    Action::Capture { program, flag: owned("--version") },
                )
            }
        }
    }

    /// Starts fzf over the input files, or prints the command.
    fn launch(self) -> (step: (Session, Action))
        ensures
            (step.0@, step.1@) == launch(self@),
    {
        let paths = input_file_paths(&self.files);
        let command = build_shaped_fzf_cmd(&self.opt, paths.as_str(), self.shape);
        if self.opt.show_fzf_command {
            let script = render_fzf_command(&command);
            (self.enter(Phase::Showing), Action::Print(script))
        } else {
            match self.shape {
                Shape::SinglePhase => (self.enter(Phase::Selecting), Action::Spawn(command)),
                Shape::TwoPhase => (self.enter(Phase::Querying), Action::Query(command)),
            }
        }
    }

    /// Takes the query from what fzf left behind, and starts the render stage.
    fn answered(self, answer: Answer) -> (step: (Session, Action))
        ensures
            (step.0@, step.1@) == answered(self@, answer@),
    {
        match check_selector_status(answer.status) {
            Err(err) => self.finish(Err(err)),
            Ok(_) => match String::from_utf8(answer.output) {
                Ok(output) => {
                    let query = take_accepted_query(output.as_str());
                    let plan = build_render_plan(
                        &self.opt,
                        query.as_str(),
                        &self.files,
                        self.stdout_is_terminal,
                    );
                    (self.enter(Phase::Rendering), Action::Render(plan))
                },
                Err(err) => self.finish(Err(Error::from(err))),
            },
        }
    }

    /// Takes up the positional file with the number `index`.
    fn resolve(self, index: usize) -> (step: (Session, Action))
        ensures
            (step.0@, step.1@) == resolve(self@, index as int),
    {
        if index < self.opt.files.len() {
            let path = self.opt.files[index].clone();
            if self.has_piped_input && path == owned("-") {
                (self.enter(Phase::Copying(index)), Action::CopyStdin)
            } else {
                (self.enter(Phase::Inspecting(index)), Action::Inspect { path })
            }
        } else if self.opt.files.is_empty() && self.has_piped_input {
            (self.enter(Phase::CopyingStdin), Action::CopyStdin)
        } else {
            self.launch()
        }
    }

    /// Takes the first step.
    fn start(self, stdin_is_terminal: bool, stdout_is_terminal: bool) -> (step: (
        Session,
        Action,
    ))
        ensures
            (step.0@, step.1@) == start(self@, stdin_is_terminal, stdout_is_terminal),
    {
        if self.opt.version_verbose {
            (self.enter(Phase::Banner), Action::Print(build_banner()))
        } else {
            let mut opt = self.opt;
            opt.null_input = opt.null_input || (stdin_is_terminal && opt.files.is_empty());
            let session = Session {
                opt,
                shape: self.shape,
                phase: self.phase,
                has_piped_input: !stdin_is_terminal,
                stdout_is_terminal,
                files: self.files,
            };
            assert(session@ == settled(self@, stdin_is_terminal, stdout_is_terminal));
            session.resolve(0)
        }
    }

    /// Goes on when a probe has run.
    fn probed(self, index: usize, event: Event) -> (step: (Session, Action))
        ensures
            (step.0@, step.1@) == probed(self@, index as int, event@),
    {
        if index >= PROBES {
            self.reject(event)
        } else if is_presence_probe(&self.opt, index) {
            match event {
                Event::Started(started) => {
                    let program = probe_name(&self.opt, index);
                    let line = cmd_presence_line(program.as_str(), started);
                    (self.enter(Phase::Reporting(index)), Action::Print(line))
                },
                other => self.reject(other),
            }
        } else {
            match event {
                Event::Output(output) => {
                    let program = probe_name(&self.opt, index);
                    match cmd_version_line(program.as_str(), output) {
                        Ok(line) => (self.enter(Phase::Reporting(index)), Action::Print(line)),
                        Err(err) => self.finish(Err(err)),
                    }
                },
                other => self.reject(other),
            }
        }
    }

    /// Goes on when a positional file has been looked at.
    fn inspected(self, index: usize, event: Event) -> (step: (Session, Action))
        ensures
            (step.0@, step.1@) == inspected(self@, index as int, event@),
    {
        if index < self.opt.files.len() {
            match event {
                Event::Inspected { is_file } => {
                    let path = self.opt.files[index].clone();
                    if is_file {
                        self.add_file(InputFile::File(path)).resolve(index + 1)
                    } else {
                        (self.enter(Phase::Copying(index)), Action::CopyFile { path })
                    }
                },
                other => self.reject(other),
            }
        } else {
            self.reject(event)
        }
    }

    /// Goes on when the copy for a positional file has been made, or has failed.
    fn copied(self, index: usize, event: Event) -> (step: (Session, Action))
        ensures
            (step.0@, step.1@) == copied(self@, index as int, event@),
    {
        if index < self.opt.files.len() {
            match event {
                Event::Copied(Ok(path)) => self.add_file(InputFile::Stdin(path)).resolve(
                    index + 1,
                ),
                Event::Copied(Err(failure)) => self.finish(Err(Error::Io(failure))),
                other => self.reject(other),
            }
        } else {
            self.reject(event)
        }
    }
}

/// Takes the session one step on: `event` is what came of the action that
/// the session asked for last, or `Start` at the beginning. The result is the
/// session after the step and the action that it asks for next. After
/// `Finish` the session is over.
pub fn run(session: Session, event: Event) -> (step: (Session, Action))
    ensures
        (step.0@, step.1@) == next(session@, event@),
{
    match session.phase {
        Phase::Ready => match event {
            Event::Start { stdin_is_terminal, stdout_is_terminal } => session.start(
                stdin_is_terminal,
                stdout_is_terminal,
            ),
            other => session.reject(other),
        },
        Phase::Banner => match event {
            Event::Printed => session.probe(0),
            other => session.reject(other),
        },
        Phase::Probing(index) => session.probed(index, event),
        Phase::Reporting(index) => match event {
            Event::Printed => if index < PROBES {
                session.probe(index + 1)
            } else {
                session.reject(Event::Printed)
            },
            other => session.reject(other),
        },
        Phase::Inspecting(index) => session.inspected(index, event),
        Phase::Copying(index) => session.copied(index, event),
        Phase::CopyingStdin => match event {
            Event::Copied(Ok(path)) => session.add_file(InputFile::Stdin(path)).launch(),
            Event::Copied(Err(failure)) => session.finish(Err(Error::Io(failure))),
            other => session.reject(other),
        },
        Phase::Showing => match event {
            Event::Printed => session.finish(Ok(())),
            other => session.reject(other),
        },
        Phase::Selecting => match event {
            Event::Exited(Ok(status)) => session.finish(check_selector_status(status)),
            Event::Exited(Err(failure)) => session.finish(Err(Error::Io(failure))),
            other => session.reject(other),
        },
        Phase::Querying => match event {
            Event::Answered(Ok(answer)) => session.answered(answer),
            Event::Answered(Err(failure)) => session.finish(Err(Error::Io(failure))),
            other => session.reject(other),
        },
        Phase::Rendering => match event {
            Event::Exited(Ok(_)) => session.finish(Ok(())),
            Event::Exited(Err(failure)) => session.finish(Err(Error::Io(failure))),
            other => session.reject(other),
        },
        Phase::Done => session.reject(event),
    }
}

} // verus!
