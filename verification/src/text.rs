//! Text as sequences of characters: lists of words and their joining, the
//! first line of a text, and its trimming.

use vstd::prelude::*;
use vstd::string::*;

verus! {

/// The words of a vector of strings, each by its view.
pub open spec fn words(v: Seq<String>) -> Seq<Seq<char>> {
    v.map_values(|s: String| s@)
}

/// What an optional text holds.
pub open spec fn optional_text(text: Option<String>) -> Option<Seq<char>> {
    match text {
        Some(t) => Some(t@),
        None => None,
    }
}

/// The words of `words`, with `sep` between each two neighbours.
pub open spec fn join(words: Seq<Seq<char>>, sep: Seq<char>) -> Seq<char>
    decreases words.len(),
{
    if words.len() == 0 {
        Seq::empty()
    } else if words.len() == 1 {
        words[0]
    } else {
        join(words.drop_last(), sep) + sep + words.last()
    }
}

/// Joins `items` with `sep` between each two neighbours.
pub fn join_strings(items: &Vec<String>, sep: &str) -> (joined: String)
    ensures
        joined@ == join(words(items@), sep@),
{
    let mut out = String::new();
    let mut i: usize = 0;
    while i < items.len()
        invariant
            i <= items.len(),
            out@ == join(words(items@).take(i as int), sep@),
        decreases items.len() - i,
    {
        let ghost before = words(items@).take(i as int);
        let ghost after = words(items@).take(i + 1);
        assert(after.drop_last() == before);
        assert(after.last() == items@[i as int]@);
        if i > 0 {
            out.append(sep);
        }
        out.append(items[i].as_str());
        i += 1;
    }
    assert(words(items@).take(items.len() as int) == words(items@));
    out
}

/// Joining two non-empty lists one after the other is joining each and
/// putting one more separator between them.
pub proof fn lemma_join_concat(a: Seq<Seq<char>>, b: Seq<Seq<char>>, sep: Seq<char>)
    requires
        a.len() > 0,
        b.len() > 0,
    ensures
        join(a + b, sep) == join(a, sep) + sep + join(b, sep),
    decreases b.len(),
{
    let ab = a + b;
    assert(ab.drop_last() == a + b.drop_last());
    assert(ab.last() == b.last());
    if b.len() == 1 {
        assert(a + b.drop_last() == a);
    } else {
        lemma_join_concat(a, b.drop_last(), sep);
        assert(join(ab, sep) == (join(a, sep) + sep + join(b.drop_last(), sep)) + sep + b.last());
        assert(join(ab, sep) == join(a, sep) + sep + (join(b.drop_last(), sep) + sep + b.last()));
    }
}

/// `text` without the white space at its two ends.
pub uninterp spec fn trimmed(text: Seq<char>) -> Seq<char>;

/// Calls `str::trim`. The contract only gives the result a name: it is a
/// function of the text alone.
#[verifier::external_body]
pub(crate) fn trim(text: &str) -> (inner: &str)
    ensures
        inner@ == trimmed(text@),
{
    text.trim()
}

/// The index of the first line feed of `text` at or after `from`; the length
/// of `text` where there is none.
pub open spec fn line_end(text: Seq<char>, from: int) -> int
    decreases text.len() - from,
{
    if from < 0 || from >= text.len() || text[from] == '\n' {
        from
    } else {
        line_end(text, from + 1)
    }
}

/// The first line of `text`, without its line ending: a line feed, or a
/// carriage return and a line feed. A text that is empty has no line; the
/// last line needs no ending.
pub open spec fn first_line(text: Seq<char>) -> Option<Seq<char>> {
    let end = line_end(text, 0);
    if text.len() == 0 {
        None
    } else if 0 < end < text.len() && text[end - 1] == '\r' {
        Some(text.subrange(0, end - 1))
    } else {
        Some(text.subrange(0, end))
    }
}

/// Takes the first line of `text`.
pub fn first_line_of(text: &str) -> (line: Option<String>)
    ensures
        optional_text(line) == first_line(text@),
{
    let n: usize = text.unicode_len();
    if n == 0 {
        return None;
    }
    let mut end: usize = 0;
    while end < n && text.get_char(end) != '\n'
        invariant
            end <= n,
            n == text@.len(),
            line_end(text@, 0) == line_end(text@, end as int),
        decreases n - end,
    {
        end += 1;
    }
    let stop: usize = if 0 < end && end < n && text.get_char(end - 1) == '\r' {
        end - 1
    } else {
        end
    };
    Some(owned(text.substring_char(0, stop)))
}

/// How often `word` stands in `list`.
pub open spec fn occurrences(list: Seq<Seq<char>>, word: Seq<char>) -> nat
    decreases list.len(),
{
    if list.len() == 0 {
        0
    } else {
        occurrences(list.drop_last(), word) + if list.last() == word {
            1nat
        } else {
            0nat
        }
    }
}

/// The occurrences in two lists one after the other add up.
pub proof fn lemma_occurrences_concat(a: Seq<Seq<char>>, b: Seq<Seq<char>>, word: Seq<char>)
    ensures
        occurrences(a + b, word) == occurrences(a, word) + occurrences(b, word),
    decreases b.len(),
{
    if b.len() == 0 {
        assert(a + b == a);
    } else {
        assert((a + b).drop_last() == a + b.drop_last());
        assert((a + b).last() == b.last());
        lemma_occurrences_concat(a, b.drop_last(), word);
    }
}

/// A word that no place of a list holds occurs in it zero times.
pub proof fn lemma_occurrences_absent(list: Seq<Seq<char>>, word: Seq<char>)
    requires
        forall|i: int| 0 <= i < list.len() ==> list[i] != word,
    ensures
        occurrences(list, word) == 0,
    decreases list.len(),
{
    if list.len() > 0 {
        lemma_occurrences_absent(list.drop_last(), word);
    }
}

/// Appends `word` to `list`.
pub fn push_word(list: &mut Vec<String>, word: String)
    ensures
        final(list)@ == old(list)@.push(word),
        words(final(list)@) == words(old(list)@).push(word@),
{
    list.push(word);
    assert(words(list@) =~= words(old(list)@).push(word@));
}

/// Appends the words of `more` to `list`, in their order.
pub fn append_words(list: &mut Vec<String>, more: &Vec<String>)
    ensures
        words(final(list)@) == words(old(list)@) + words(more@),
{
    let ghost all = words(more@);
    assert(words(list@) + all.take(0) == words(list@));
    let mut i: usize = 0;
    while i < more.len()
        invariant
            i <= more.len(),
            all == words(more@),
            words(list@) == words(old(list)@) + all.take(i as int),
        decreases more.len() - i,
    {
        push_word(list, more[i].clone());
        assert(all.take(i + 1) == all.take(i as int).push(more@[i as int]@));
        assert((words(old(list)@) + all.take(i as int)).push(more@[i as int]@) == words(
            old(list)@,
        ) + all.take(i + 1));
        i += 1;
    }
    assert(all.take(more.len() as int) == all);
}

/// A text of its own, holding what `text` holds.
pub fn owned(text: &str) -> (copy: String)
    ensures
        copy@ == text@,
{
    String::from_str(text)
}

} // verus!
