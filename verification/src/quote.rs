//! Shell quoting, as Bash reads it.

use crate::text::{push_word, words};
use shell_quote::{Bash, Quote};
use vstd::prelude::*;

verus! {

/// The Bash-safe token that stands for `text` on a command line.
pub uninterp spec fn bash_quoted(text: Seq<char>) -> Seq<char>;

/// Calls `shell_quote::Bash::quote` on the UTF-8 bytes of `text`, collecting
/// into a `String`. The contract only gives the token a name: it is a function
/// of the text alone.
#[verifier::external_body]
pub(crate) fn bash_quote(text: &str) -> (quoted: String)
    ensures
        quoted@ == bash_quoted(text@),
{
    Bash::quote(text.as_bytes())
}

/// Each word of `list`, quoted.
pub open spec fn quoted_words(list: Seq<Seq<char>>) -> Seq<Seq<char>> {
    list.map_values(|word: Seq<char>| bash_quoted(word))
}

/// Quotes each word of `list` for Bash.
pub fn quote_words(list: &Vec<String>) -> (tokens: Vec<String>)
    ensures
        words(tokens@) == quoted_words(words(list@)),
{
    let ghost all = quoted_words(words(list@));
    let mut tokens: Vec<String> = Vec::new();
    assert(words(tokens@) == all.take(0));
    let mut i: usize = 0;
    while i < list.len()
        invariant
            i <= list.len(),
            all == quoted_words(words(list@)),
            words(tokens@) == all.take(i as int),
        decreases list.len() - i,
    {
        push_word(&mut tokens, bash_quote(list[i].as_str()));
        assert(all.take(i + 1) == all.take(i as int).push(bash_quoted(list@[i as int]@)));
        i += 1;
    }
    assert(all.take(list.len() as int) == all);
    tokens
}

} // verus!
