//! The texts the board shows: decimal numbers, letters typed and erased,
//! and the answer in capitals.

use vstd::prelude::*;
use vstd::string::StringExecFns;

verus! {

/// The character of decimal digit `d`.
pub open spec fn digit_char(d: nat) -> char {
    (d + 48) as char
}

/// `n` written in decimal, without leading zeros.
pub open spec fn decimal(n: nat) -> Seq<char>
    decreases n,
{
    if n < 10 {
        seq![digit_char(n)]
    } else {
        decimal(n / 10).push(digit_char(n % 10))
    }
}

/// `String::push`: appends `c` to the end of `s`.
#[verifier::external_body]
pub(crate) fn push_char(s: &mut String, c: char)
    ensures
        final(s)@ == old(s)@.push(c),
{
    s.push(c);
}

/// `String::pop`: removes and returns the last character, or `None` when `s` is empty.
#[verifier::external_body]
pub(crate) fn pop_char(s: &mut String) -> (r: Option<char>)
    ensures
        match r {
            Some(c) => old(s)@.len() > 0 && c == old(s)@.last() && final(s)@ == old(s)@.drop_last(),
            None => old(s)@.len() == 0 && final(s)@ == old(s)@,
        },
{
    s.pop()
}

/// What `str::to_uppercase` gives for a text: its Unicode uppercase mapping.
pub uninterp spec fn uppercase(s: Seq<char>) -> Seq<char>;

/// `str::to_uppercase`. Its result is named, not stated: the Unicode case
/// mapping is left unsaid.
#[verifier::external_body]
pub(crate) fn to_uppercase(s: &str) -> (r: String)
    ensures
        r@ == uppercase(s@),
{
    s.to_uppercase()
}

/// `n` in decimal.
pub fn decimal_string(n: usize) -> (s: String)
    ensures
        s@ == decimal(n as nat),
    decreases n,
{
    let mut s = if n < 10 {
        String::new()
    } else {
        decimal_string(n / 10)
    };
    let d = (n % 10) as u8;
    push_char(&mut s, (d + 48) as char);
    proof {
        if n < 10 {
            assert(s@ =~= seq![digit_char(n as nat)]);
        }
    }
    s
}

/// The message of a won board.
pub open spec fn solved_message(guess_count: nat) -> Seq<char> {
    "Solved in "@ + decimal(guess_count) + "."@
}

pub fn solved_text(guess_count: usize) -> (m: String)
    ensures
        m@ == solved_message(guess_count as nat),
{
    let mut m = "Solved in ".to_owned();
    let d = decimal_string(guess_count);
    m.append(d.as_str());
    m.append(".");
    m
}

/// The message of a lost board: the answer, in capitals.
pub open spec fn word_was_message(answer: Seq<char>) -> Seq<char> {
    "The word was "@ + uppercase(answer) + "."@
}

/// The message of a lost board, from the answer already in capitals.
pub fn word_was_from_capitals(capitals: &str) -> (m: String)
    ensures
        m@ == "The word was "@ + capitals@ + "."@,
{
    let mut m = "The word was ".to_owned();
    m.append(capitals);
    m.append(".");
    m
}

pub fn word_was_text(answer: &str) -> (m: String)
    ensures
        m@ == word_was_message(answer@),
{
    let up = to_uppercase(answer);
    word_was_from_capitals(up.as_str())
}

} // verus!
