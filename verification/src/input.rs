//! The input files of a session, and how they stand on a command line.

use crate::quote::{bash_quote, bash_quoted};
use crate::text::{join, join_strings, push_word, words};
use vstd::prelude::*;

verus! {

/// One input of jq, by its path.
#[derive(Debug, Clone, PartialEq, Eq)]
pub enum InputFile {
    /// A temporary file that holds a copy of standard input, or of a source
    /// that is no regular file. It belongs to the session, which has to
    /// remove it when it ends.
    Stdin(String),
    /// A regular file that was there before. It is read where it lies.
    File(String),
}

/// What an [`InputFile`] holds.
pub enum InputFileView {
    Stdin(Seq<char>),
    File(Seq<char>),
}

impl InputFileView {
    /// The path of the file.
    pub open spec fn path(self) -> Seq<char> {
        match self {
            InputFileView::Stdin(path) => path,
            InputFileView::File(path) => path,
        }
    }

    /// The file on a command line: its path, quoted for Bash. Both kinds of
    /// file are written alike.
    pub open spec fn token(self) -> Seq<char> {
        bash_quoted(self.path())
    }
}

impl View for InputFile {
    type V = InputFileView;

    open spec fn view(&self) -> InputFileView {
        match self {
            InputFile::Stdin(path) => InputFileView::Stdin(path@),
            InputFile::File(path) => InputFileView::File(path@),
        }
    }
}

impl InputFile {
    /// The path of the file.
    pub fn path(&self) -> (path: &str)
        ensures
            path@ == self@.path(),
    {
        match self {
            InputFile::Stdin(path) => path.as_str(),
            InputFile::File(path) => path.as_str(),
        }
    }

    /// The file as it stands on a command line.
    pub fn to_string(&self) -> (token: String)
        ensures
            token@ == self@.token(),
    {
        bash_quote(self.path())
    }
}

/// The views of a list of files.
pub open spec fn file_views(files: Seq<InputFile>) -> Seq<InputFileView> {
    files.map_values(|f: InputFile| f@)
}

/// The tokens of a list of files, in their order.
pub open spec fn input_tokens(files: Seq<InputFileView>) -> Seq<Seq<char>> {
    files.map_values(|f: InputFileView| f.token())
}

/// The files on a command line: their tokens with single spaces between
/// them, in the order of the list.
pub open spec fn joined_input_paths(files: Seq<InputFileView>) -> Seq<char> {
    join(input_tokens(files), " "@)
}

/// Writes the files as they stand on a command line.
pub fn input_file_paths(files: &Vec<InputFile>) -> (paths: String)
    ensures
        paths@ == joined_input_paths(file_views(files@)),
{
    let ghost all = input_tokens(file_views(files@));
    let mut tokens: Vec<String> = Vec::new();
    assert(words(tokens@) == all.take(0));
    let mut i: usize = 0;
    while i < files.len()
        invariant
            i <= files.len(),
            all == input_tokens(file_views(files@)),
            words(tokens@) == all.take(i as int),
        decreases files.len() - i,
    {
        push_word(&mut tokens, files[i].to_string());
        assert(all.take(i + 1) == all.take(i as int).push(files@[i as int]@.token()));
        i += 1;
    }
    assert(all.take(files.len() as int) == all);
    join_strings(&tokens, " ")
}

/// The paths of the temporary files among `files`, in their order.
pub open spec fn materialized_paths(files: Seq<InputFileView>) -> Seq<Seq<char>>
    decreases files.len(),
{
    if files.len() == 0 {
        Seq::empty()
    } else {
        match files.last() {
            InputFileView::Stdin(path) => materialized_paths(files.drop_last()).push(path),
            InputFileView::File(_) => materialized_paths(files.drop_last()),
        }
    }
}

/// Lists the paths of the temporary files among `files`.
pub fn materialized(files: &Vec<InputFile>) -> (paths: Vec<String>)
    ensures
        words(paths@) == materialized_paths(file_views(files@)),
{
    let ghost all = file_views(files@);
    let mut paths: Vec<String> = Vec::new();
    assert(words(paths@) == materialized_paths(all.take(0)));
    let mut i: usize = 0;
    while i < files.len()
        invariant
            i <= files.len(),
            all == file_views(files@),
            words(paths@) == materialized_paths(all.take(i as int)),
        decreases files.len() - i,
    {
        assert(all.take(i + 1).drop_last() == all.take(i as int));
        assert(all.take(i + 1).last() == files@[i as int]@);
        match &files[i] {
            InputFile::Stdin(path) => {
                push_word(&mut paths, path.clone());
            },
            InputFile::File(_) => {},
        }
        i += 1;
    }
    assert(all.take(files.len() as int) == all);
    paths
}

} // verus!
