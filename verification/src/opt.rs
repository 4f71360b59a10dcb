//! The configuration of one session.

use crate::text::words;
use vstd::prelude::*;

verus! {

/// The options of a session, as given on the command line. Paths are held as
/// text.
#[allow(clippy::struct_excessive_bools)]
#[derive(Debug, Clone)]
pub struct Opt {
    /// Executable to call
    pub jq_bin: String,
    /// Override the path to fzf
    pub fzf_bin: String,
    /// Path to a program that accepts the query string from stdin, and prints a number
    pub charcounter_bin: String,
    /// Arguments to pass to the "charcounter" binary
    pub charcounter_options: Vec<String>,
    /// Program that draws the output as braille dots
    pub braille_bin: String,
    /// Path to the history file
    pub history_file: String,
    /// Use `null` as input value
    pub null_input: bool,
    /// The flag to pass to `jq` inside fzf to indicate null input
    pub null_input_flag: String,
    /// Pass content to `jq` as standard input
    pub pass_as_stdin: bool,
    /// Don't interpret input as JSON
    pub raw_input: bool,
    /// Print the fzf command that would be run and exit
    pub show_fzf_command: bool,
    /// Whether the default arguments are in use
    pub use_default_args: bool,
    /// Path to jq library functions directory
    pub jq_repl_lib: String,
    /// Disable including ".jq" as part of the default include paths
    pub no_default_include: bool,
    /// The flag passed to jq inside fzf to show color
    pub color_flag: String,
    /// The flag passed to jq inside fzf to disable color
    pub no_color_flag: String,
    /// The flag passed to jq inside fzf to use a compact format
    pub compact_flag: String,
    /// The flag passed to jq inside fzf to read raw input
    pub raw_input_flag: String,
    /// Editor to open inside fzf
    pub editor: String,
    /// Arguments to pass to the editor
    pub editor_options: Vec<String>,
    /// JSON files to read from; "-" stands for standard input
    pub files: Vec<String>,
    /// Pager to pipe output to
    pub pager: String,
    /// Options to pass to the pager
    pub pager_options: Vec<String>,
    /// Show versions of all relevant executables
    pub version_verbose: bool,
    /// Additional arguments for `fzf`
    pub fzf_args: Vec<String>,
    /// Additional args passed to `jq`
    pub jq_args: Vec<String>,
}

/// What an [`Opt`] holds, as sequences of characters.
pub struct OptView {
    pub jq_bin: Seq<char>,
    pub fzf_bin: Seq<char>,
    pub charcounter_bin: Seq<char>,
    pub charcounter_options: Seq<Seq<char>>,
    pub braille_bin: Seq<char>,
    pub history_file: Seq<char>,
    pub null_input: bool,
    pub null_input_flag: Seq<char>,
    pub pass_as_stdin: bool,
    pub raw_input: bool,
    pub show_fzf_command: bool,
    pub use_default_args: bool,
    pub jq_repl_lib: Seq<char>,
    pub no_default_include: bool,
    pub color_flag: Seq<char>,
    pub no_color_flag: Seq<char>,
    pub compact_flag: Seq<char>,
    pub raw_input_flag: Seq<char>,
    pub editor: Seq<char>,
    pub editor_options: Seq<Seq<char>>,
    pub files: Seq<Seq<char>>,
    pub pager: Seq<char>,
    pub pager_options: Seq<Seq<char>>,
    pub version_verbose: bool,
    pub fzf_args: Seq<Seq<char>>,
    pub jq_args: Seq<Seq<char>>,
}

impl View for Opt {
    type V = OptView;

    open spec fn view(&self) -> OptView {
        OptView {
            jq_bin: self.jq_bin@,
            fzf_bin: self.fzf_bin@,
            charcounter_bin: self.charcounter_bin@,
            charcounter_options: words(self.charcounter_options@),
            braille_bin: self.braille_bin@,
            history_file: self.history_file@,
            null_input: self.null_input,
            null_input_flag: self.null_input_flag@,
            pass_as_stdin: self.pass_as_stdin,
            raw_input: self.raw_input,
            show_fzf_command: self.show_fzf_command,
            use_default_args: self.use_default_args,
            jq_repl_lib: self.jq_repl_lib@,
            no_default_include: self.no_default_include,
            color_flag: self.color_flag@,
            no_color_flag: self.no_color_flag@,
            compact_flag: self.compact_flag@,
            raw_input_flag: self.raw_input_flag@,
            editor: self.editor@,
            editor_options: words(self.editor_options@),
            files: words(self.files@),
            pager: self.pager@,
            pager_options: words(self.pager_options@),
            version_verbose: self.version_verbose,
            fzf_args: words(self.fzf_args@),
            jq_args: words(self.jq_args@),
        }
    }
}

} // verus!
