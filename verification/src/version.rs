//! The report of the versions of the programs that a session relies on.

use crate::error::{Error, ErrorView, IoFailure, IoFailureView};
use crate::opt::{Opt, OptView};
use crate::text::{first_line, first_line_of, owned};
use vstd::prelude::*;
use vstd::string::*;
use vstd::utf8::{decode_utf8, valid_utf8};

verus! {

/// The name of this program.
pub const NAME: &'static str = "jq-repl";

/// The version of this program.
pub const VERSION: &'static str = "0.1.0";

/// The number of programs whose version is reported.
pub const PROBES: usize = 8;

/// The first lines of the report: name and version of this program, then an
/// empty line.
pub open spec fn banner() -> Seq<char> {
    NAME@ + " "@ + VERSION@ + "\n\n"@
}

/// The first lines of the report.
pub fn build_banner() -> (text: String)
    ensures
        text@ == banner(),
{
    owned(NAME).concat(" ").concat(VERSION).concat("\n\n")
}

/// The program that the probe with the number `index` asks: fzf, jq, bat, vd,
/// the braille program, the editor, the pager, the character counter.
pub open spec fn probe_program(opt: OptView, index: int) -> Seq<char> {
    if index == 0 {
        opt.fzf_bin
    } else if index == 1 {
        opt.jq_bin
    } else if index == 2 {
        "bat"@
    } else if index == 3 {
        "vd"@
    } else if index == 4 {
        opt.braille_bin
    } else if index == 5 {
        opt.editor
    } else if index == 6 {
        opt.pager
    } else {
        opt.charcounter_bin
    }
}

/// Whether the probe with the number `index` only asks if the program can be
/// started. That is so for the character counter under its own name, which
/// knows no version flag.
pub open spec fn probes_presence(opt: OptView, index: int) -> bool {
    index == 7 && opt.charcounter_bin == "charcounter"@
}

/// The program that the probe with the number `index` asks.
pub fn probe_name(opt: &Opt, index: usize) -> (program: String)
    ensures
        program@ == probe_program(opt@, index as int),
{
    if index == 0 {
        opt.fzf_bin.clone()
    } else if index == 1 {
        opt.jq_bin.clone()
    } else if index == 2 {
        owned("bat")
    } else if index == 3 {
        owned("vd")
    } else if index == 4 {
        opt.braille_bin.clone()
    } else if index == 5 {
        opt.editor.clone()
    } else if index == 6 {
        opt.pager.clone()
    } else {
        opt.charcounter_bin.clone()
    }
}

/// Whether the probe with the number `index` only asks if the program can be
/// started.
pub fn is_presence_probe(opt: &Opt, index: usize) -> (presence: bool)
    ensures
        presence == probes_presence(opt@, index as int),
{
    index == 7 && opt.charcounter_bin == owned("charcounter")
}

/// One line of the report.
pub open spec fn version_report(name: Seq<char>, version: Seq<char>) -> Seq<char> {
    name + ":\t"@ + version + "\n"@
}

/// The version that a program's output gives: its first line.
pub open spec fn reported_version(output: Seq<char>) -> Seq<char> {
    match first_line(output) {
        Some(line) => line,
        None => "(error: unknown)"@,
    }
}

/// The line of the report for the program `name`, from what running it with
/// its version flag gave: its standard output, or the failure to start it.
/// A program that is not there is reported as such; every other failure, and
/// output that is no UTF-8, is an error.
pub open spec fn version_line(name: Seq<char>, output: Result<Seq<u8>, IoFailureView>) -> Result<
    Seq<char>,
    ErrorView,
> {
    match output {
        Ok(bytes) => if valid_utf8(bytes) {
            Ok(version_report(name, reported_version(decode_utf8(bytes))))
        } else {
            Err(ErrorView::Utf8)
        },
        Err(failure) => if failure.not_found {
            Ok(version_report(name, "(error: not found)"@))
        } else {
            Err(ErrorView::Io(failure))
        },
    }
}

/// The line of the report for a program of which only the presence is asked.
pub open spec fn presence_line(name: Seq<char>, started: bool) -> Seq<char> {
    version_report(
        name,
        if started {
            "OK"@
        } else {
            "Not Found"@
        },
    )
}

/// What the output of a command holds.
pub open spec fn output_view(output: Result<Vec<u8>, IoFailure>) -> Result<
    Seq<u8>,
    IoFailureView,
> {
    match output {
        Ok(bytes) => Ok(bytes@),
        Err(failure) => Err(failure@),
    }
}

/// What a line, or the error in its place, holds.
pub open spec fn line_view(line: Result<String, Error>) -> Result<Seq<char>, ErrorView> {
    match line {
        Ok(text) => Ok(text@),
        Err(err) => Err(err@),
    }
}

/// Writes one line of the report.
fn build_version_report(name: &str, version: &str) -> (line: String)
    ensures
        line@ == version_report(name@, version@),
{
    owned(name).concat(":\t").concat(version).concat("\n")
}

/// Writes the line of the report for the program `name`.
pub fn cmd_version_line(name: &str, output: Result<Vec<u8>, IoFailure>) -> (line: Result<
    String,
    Error,
>)
    ensures
        line_view(line) == version_line(name@, output_view(output)),
{
    match output {
        Ok(bytes) => match String::from_utf8(bytes) {
            Ok(version_output) => {
                let line = match first_line_of(version_output.as_str()) {
                    Some(version) => build_version_report(name, version.as_str()),
                    None => build_version_report(name, "(error: unknown)"),
                };
                Ok(line)
            },
            Err(err) => Err(Error::from(err)),
        },
        Err(failure) => if failure.not_found {
            Ok(build_version_report(name, "(error: not found)"))
        } else {
            Err(Error::from(failure))
        },
    }
}

/// Writes the line of the report for a program of which only the presence is
/// asked.
pub fn cmd_presence_line(name: &str, started: bool) -> (line: String)
    ensures
        line@ == presence_line(name@, started),
{
    build_version_report(
        name,
        if started {
            "OK"
        } else {
            "Not Found"
        },
    )
}

} // verus!
