//! What can go wrong in a session, and what the program's exit code is then.

use crate::text::owned;
use std::string::FromUtf8Error;
use vstd::prelude::*;
use vstd::utf8::{decode_utf8, valid_utf8};

verus! {

/// The error of `String::from_utf8`, carried through as it is.
#[verifier::external_type_specification]
#[verifier::external_body]
pub struct ExFromUtf8Error(FromUtf8Error);

/// `String::from_utf8` succeeds on the byte sequences that are valid UTF-8,
/// and only on them, and then returns the text that they encode.
pub assume_specification[ String::from_utf8 ](vec: Vec<u8>) -> (decoded: Result<
    String,
    FromUtf8Error,
>)
    ensures
        decoded is Ok <==> valid_utf8(vec@),
        decoded matches Ok(text) ==> text@ == decode_utf8(vec@),
;

/// The message of a `FromUtf8Error`, as its `Display` writes it. Nothing is
/// claimed of the text.
#[verifier::external_body]
fn utf8_error_message(err: &FromUtf8Error) -> String {
    format!("{}", err)
}

/// What is kept of a failed I/O operation.
#[derive(Debug, Clone, PartialEq, Eq)]
pub struct IoFailure {
    /// Whether the file or program was not found.
    pub not_found: bool,
    /// The system's description of the failure.
    pub message: String,
}

/// What an [`IoFailure`] holds.
pub struct IoFailureView {
    pub not_found: bool,
    pub message: Seq<char>,
}

impl View for IoFailure {
    type V = IoFailureView;

    open spec fn view(&self) -> IoFailureView {
        IoFailureView { not_found: self.not_found, message: self.message@ }
    }
}

/// How a child process ended.
#[derive(Debug, Clone, PartialEq, Eq)]
pub struct ExitStatus {
    /// The exit code; `None` where a signal ended the process.
    pub code: Option<i32>,
    /// The system's description of the status.
    pub message: String,
}

/// What an [`ExitStatus`] holds.
pub struct ExitStatusView {
    pub code: Option<i32>,
    pub message: Seq<char>,
}

impl ExitStatusView {
    /// A process succeeded when it exited with code 0.
    pub open spec fn success(self) -> bool {
        self.code == Some(0i32)
    }
}

impl View for ExitStatus {
    type V = ExitStatusView;

    open spec fn view(&self) -> ExitStatusView {
        ExitStatusView { code: self.code, message: self.message@ }
    }
}

impl ExitStatus {
    /// Whether the process exited with code 0.
    pub fn success(&self) -> (ok: bool)
        ensures
            ok == self@.success(),
    {
        match self.code {
            Some(code) => code == 0,
            None => false,
        }
    }
}

/// The errors of a session.
#[derive(Debug)]
pub enum Error {
    /// Reading, copying or starting a program failed.
    Io(IoFailure),
    /// A temporary file could not be kept.
    TmpPersist(IoFailure),
    /// The output of a program was not valid UTF-8.
    Utf8(FromUtf8Error),
    /// fzf ended with a status that is neither success nor "no match".
    Fzf(ExitStatus),
    /// Any other error, by its message.
    Custom(&'static str),
}

/// What an [`Error`] holds. Of a `Utf8` error it keeps the kind alone.
pub enum ErrorView {
    Io(IoFailureView),
    TmpPersist(IoFailureView),
    Utf8,
    Fzf(ExitStatusView),
    Custom(Seq<char>),
}

impl View for Error {
    type V = ErrorView;

    open spec fn view(&self) -> ErrorView {
        match self {
            Error::Io(failure) => ErrorView::Io(failure@),
            Error::TmpPersist(failure) => ErrorView::TmpPersist(failure@),
            Error::Utf8(_) => ErrorView::Utf8,
            Error::Fzf(status) => ErrorView::Fzf(status@),
            Error::Custom(message) => ErrorView::Custom(message@),
        }
    }
}

impl From<IoFailure> for Error {
    fn from(failure: IoFailure) -> (err: Error) {
        Error::Io(failure)
    }
}

impl vstd::std_specs::convert::FromSpecImpl<IoFailure> for Error {
    open spec fn obeys_from_spec() -> bool {
        true
    }

    open spec fn from_spec(failure: IoFailure) -> Error {
        Error::Io(failure)
    }
}

impl From<FromUtf8Error> for Error {
    fn from(err: FromUtf8Error) -> (wrapped: Error) {
        Error::Utf8(err)
    }
}

impl vstd::std_specs::convert::FromSpecImpl<FromUtf8Error> for Error {
    open spec fn obeys_from_spec() -> bool {
        true
    }

    open spec fn from_spec(err: FromUtf8Error) -> Error {
        Error::Utf8(err)
    }
}

/// The error of a temporary file that could not be kept, from the failure
/// that stood in the way.
pub fn tmp_persist(failure: IoFailure) -> (err: Error)
    ensures
        err@ == ErrorView::TmpPersist(failure@),
{
    Error::TmpPersist(failure)
}

impl ErrorView {
    /// The message that the error carries. A `Utf8` error carries none: its
    /// message is written by the standard library.
    pub open spec fn message(self) -> Option<Seq<char>> {
        match self {
            ErrorView::Io(failure) => Some(failure.message),
            ErrorView::TmpPersist(failure) => Some(failure.message),
            ErrorView::Utf8 => None,
            ErrorView::Fzf(status) => Some(status.message),
            ErrorView::Custom(text) => Some(text),
        }
    }

    /// The exit code that the program hands on from fzf: the code of a status
    /// that has one and is no success. Every other error has none.
    pub open spec fn forwarded_code(self) -> Option<i32> {
        match self {
            ErrorView::Fzf(status) => if status.code is Some && !status.success() {
                status.code
            } else {
                None
            },
            _ => None,
        }
    }
}

/// The exit code of the program after `outcome`: 0 after success, the code
/// that fzf ended with where the error forwards one, else 1.
pub open spec fn program_exit_code(outcome: Result<(), ErrorView>) -> i32 {
    match outcome {
        Ok(_) => 0i32,
        Err(err) => match err.forwarded_code() {
            Some(code) => code,
            None => 1i32,
        },
    }
}

/// The view of an outcome.
pub open spec fn outcome_view(outcome: Result<(), Error>) -> Result<(), ErrorView> {
    match outcome {
        Ok(_) => Ok(()),
        Err(err) => Err(err@),
    }
}

impl Error {
    /// The message of the error. For `Utf8` it is the one that the standard
    /// library gives.
    pub fn to_string(&self) -> (message: String)
        ensures
            self@.message() matches Some(text) ==> message@ == text,
    {
        match self {
            Error::Io(failure) => failure.message.clone(),
            Error::TmpPersist(failure) => failure.message.clone(),
            Error::Utf8(err) => utf8_error_message(err),
            Error::Fzf(status) => status.message.clone(),
            Error::Custom(text) => owned(text),
        }
    }

    /// The exit code that the program hands on from fzf, if this error
    /// carries one.
    pub fn forwarded_code(&self) -> (code: Option<i32>)
        ensures
            code == self@.forwarded_code(),
    {
        match self {
            Error::Fzf(status) => match status.code {
                Some(code) => if code != 0 {
                    Some(code)
                } else {
                    None
                },
                None => None,
            },
            _ => None,
        }
    }
}

/// The exit code of the program after `outcome`.
pub fn exit_code(outcome: &Result<(), Error>) -> (code: i32)
    ensures
        code == program_exit_code(outcome_view(*outcome)),
{
    match outcome {
        Ok(_) => 0,
        Err(err) => match err.forwarded_code() {
            Some(code) => code,
            None => 1,
        },
    }
}

/// What fzf's exit status means for the session: success and "no match"
/// (code 1, which says nothing while fuzzy matching is off) are both success;
/// every other status is an error that carries the status.
pub open spec fn selector_outcome(status: ExitStatusView) -> Result<(), ErrorView> {
    if status.success() || status.code == Some(1i32) {
        Ok(())
    } else {
        Err(ErrorView::Fzf(status))
    }
}

/// The exit code of the program follows that of fzf: success and "no match"
/// give 0, every other exit code of fzf is the program's own, and a status
/// without an exit code gives 1.
pub proof fn lemma_exit_code_forwarding(status: ExitStatusView)
    ensures
        status.code == Some(0i32) || status.code == Some(1i32) ==> program_exit_code(
            selector_outcome(status),
        ) == 0,
        status.code is Some && status.code != Some(0i32) && status.code != Some(1i32)
            ==> Some(program_exit_code(selector_outcome(status))) == status.code,
        status.code is None ==> program_exit_code(selector_outcome(status)) == 1,
{
}

/// Turns the status that fzf ended with into the outcome of the session.
pub fn check_selector_status(status: ExitStatus) -> (outcome: Result<(), Error>)
    ensures
        outcome_view(outcome) == selector_outcome(status@),
{
    let no_match = match status.code {
        Some(code) => code == 1,
        None => false,
    };
    if status.success() || no_match {
        Ok(())
    } else {
        Err(Error::Fzf(status))
    }
}

} // verus!
