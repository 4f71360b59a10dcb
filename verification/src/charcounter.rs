//! The counter of the characters of the query, which the preview label
//! shows: blank while the query is short, then in colors that warn as the
//! query comes close to the limit.

use crate::text::owned;
use vstd::prelude::*;
use vstd::string::*;

verus! {

/// The number of characters that a query should stay under.
pub const LIMIT: usize = 1_000;

/// The decimal digit `d`.
pub open spec fn digit(d: nat) -> Seq<char> {
    if d == 0 {
        "0"@
    } else if d == 1 {
        "1"@
    } else if d == 2 {
        "2"@
    } else if d == 3 {
        "3"@
    } else if d == 4 {
        "4"@
    } else if d == 5 {
        "5"@
    } else if d == 6 {
        "6"@
    } else if d == 7 {
        "7"@
    } else if d == 8 {
        "8"@
    } else {
        "9"@
    }
}

/// The number `n` in decimal digits, without leading zeros.
pub open spec fn decimal(n: nat) -> Seq<char>
    decreases n,
{
    if n < 10 {
        digit(n)
    } else {
        decimal(n / 10) + digit(n % 10)
    }
}

/// The decimal digit `d` as text.
fn digit_text(d: usize) -> (text: &'static str)
    requires
        d < 10,
    ensures
        text@ == digit(d as nat),
{
    if d == 0 {
        "0"
    } else if d == 1 {
        "1"
    } else if d == 2 {
        "2"
    } else if d == 3 {
        "3"
    } else if d == 4 {
        "4"
    } else if d == 5 {
        "5"
    } else if d == 6 {
        "6"
    } else if d == 7 {
        "7"
    } else if d == 8 {
        "8"
    } else {
        "9"
    }
}

/// Writes `n` in decimal digits.
pub fn decimal_text(n: usize) -> (text: String)
    ensures
        text@ == decimal(n as nat),
    decreases n,
{
    if n < 10 {
        owned(digit_text(n))
    } else {
        decimal_text(n / 10).concat(digit_text(n % 10))
    }
}

/// The count beside the limit.
pub open spec fn fraction(count: nat) -> Seq<char> {
    decimal(count) + "/"@ + decimal(LIMIT as nat)
}

/// `text` in the color that `color` switches on, with the color switched
/// off behind it.
pub open spec fn colored(color: Seq<char>, text: Seq<char>) -> Seq<char> {
    color + text + "\x1b[0m"@
}

/// The label for a query of `count` characters: nothing while more than 100
/// are left; then the count beside the limit, in dim gray while more than 25
/// are left, plain while more than 10 are left, yellow while more than 3 are
/// left, red while any is left, and bold red from the limit on.
pub open spec fn counter_label(count: nat) -> Seq<char> {
    if count < LIMIT - 100 {
        Seq::empty()
    } else if count < LIMIT - 25 {
        colored("\x1b[2;37m"@, fraction(count))
    } else if count < LIMIT - 10 {
        fraction(count)
    } else if count < LIMIT - 3 {
        colored("\x1b[0;33m"@, fraction(count))
    } else if count < LIMIT {
        colored("\x1b[0;31m"@, fraction(count))
    } else {
        colored("\x1b[1;31m"@, fraction(count))
    }
}

/// Writes `text` in a color.
fn build_colored(color: &str, text: String) -> (label: String)
    ensures
        label@ == colored(color@, text@),
{
    owned(color).concat(text.as_str()).concat("\x1b[0m")
}

/// Writes the label for a query of `count` characters.
pub fn label_for_count(count: usize) -> (label: String)
    ensures
        label@ == counter_label(count as nat),
{
    if count < LIMIT - 100 {
        String::new()
    } else {
        let text = decimal_text(count).concat("/").concat(decimal_text(LIMIT).as_str());
        if count < LIMIT - 25 {
            build_colored("\x1b[2;37m", text)
        } else if count < LIMIT - 10 {
            text
        } else if count < LIMIT - 3 {
            build_colored("\x1b[0;33m", text)
        } else if count < LIMIT {
            build_colored("\x1b[0;31m", text)
        } else {
            build_colored("\x1b[1;31m", text)
        }
    }
}

/// Writes the label for the query `query`, by the number of its characters.
pub fn label(query: &str) -> (label: String)
    ensures
        label@ == counter_label(query@.len()),
{
    label_for_count(query.unicode_len())
}

} // verus!
