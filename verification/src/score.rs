//! Scoring a guess against the answer, cell by cell, and the best hint the
//! keyboard shows for a letter.

use vstd::prelude::*;
use vstd::string::{StrSliceExecFns, StringSliceAdditionalSpecFns};
use vstd::utf8::encode_utf8;

verus! {

/// Letters in a guess and in an answer.
pub const WORD_LEN: usize = 5;

/// How one cell of a guess compares with the answer.
#[derive(Clone, Copy, Debug, PartialEq, Eq, Structural)]
pub enum LetterScore {
    Correct,
    Present,
    Absent,
}

/// The order in which hints outrank each other: a letter known to be in
/// place beats one known to be in the word, which beats one known to be
/// missing.
pub open spec fn rank(score: LetterScore) -> u8 {
    match score {
        LetterScore::Correct => 3,
        LetterScore::Present => 2,
        LetterScore::Absent => 1,
    }
}

pub fn score_rank(score: LetterScore) -> (r: u8)
    ensures
        r == rank(score),
{
    match score {
        LetterScore::Correct => 3,
        LetterScore::Present => 2,
        LetterScore::Absent => 1,
    }
}

/// The byte at position `i`, or `None` past the end.
pub open spec fn byte_at(s: Seq<u8>, i: int) -> Option<u8> {
    if 0 <= i < s.len() {
        Some(s[i])
    } else {
        None
    }
}

/// A lowercase ASCII letter.
pub open spec fn is_lower_byte(b: u8) -> bool {
    97 <= b <= 122
}

/// Cell `i` holds the same byte in both words (or lies past the end of both).
pub open spec fn in_place(guess: Seq<u8>, answer: Seq<u8>, i: int) -> bool {
    byte_at(guess, i) == byte_at(answer, i)
}

/// Among the first `n` cells, those not matched in place whose answer byte is `b`:
/// the copies of `b` in the answer that are still free to mark a guess letter Present.
pub open spec fn spare_in_answer(guess: Seq<u8>, answer: Seq<u8>, b: u8, n: int) -> nat
    decreases n,
{
    if n <= 0 {
        0
    } else {
        spare_in_answer(guess, answer, b, n - 1) + if !in_place(guess, answer, n - 1)
            && byte_at(answer, n - 1) == Some(b) {
            1nat
        } else {
            0nat
        }
    }
}

/// Among the first `n` cells, those not matched in place whose guess byte is `b`.
pub open spec fn spare_in_guess(guess: Seq<u8>, answer: Seq<u8>, b: u8, n: int) -> nat
    decreases n,
{
    if n <= 0 {
        0
    } else {
        spare_in_guess(guess, answer, b, n - 1) + if !in_place(guess, answer, n - 1)
            && byte_at(guess, n - 1) == Some(b) {
            1nat
        } else {
            0nat
        }
    }
}

/// The score of cell `i`: Correct when the cell matches in place; Present when
/// its lowercase letter is one of the answer's spare copies of that letter not
/// already claimed by an earlier cell of the guess; Absent otherwise.
pub open spec fn cell_score(guess: Seq<u8>, answer: Seq<u8>, i: int) -> LetterScore {
    if in_place(guess, answer, i) {
        LetterScore::Correct
    } else {
        match byte_at(guess, i) {
            Some(b) => if is_lower_byte(b) && spare_in_guess(guess, answer, b, i) < spare_in_answer(
                guess,
                answer,
                b,
                WORD_LEN as int,
            ) {
                LetterScore::Present
            } else {
                LetterScore::Absent
            },
            None => LetterScore::Absent,
        }
    }
}

fn byte_at_exec(s: &[u8], i: usize) -> (r: Option<u8>)
    ensures
        r == byte_at(s@, i as int),
{
    if i < s.len() {
        Some(s[i])
    } else {
        None
    }
}

fn same_byte(x: Option<u8>, y: Option<u8>) -> (r: bool)
    ensures
        r == (x == y),
{
    match (x, y) {
        (Some(p), Some(q)) => p == q,
        (None, None) => true,
        _ => false,
    }
}

/// Scores the five cells of `guess` against `answer`, byte by byte. Each
/// spare copy of a letter in the answer marks at most one cell of the guess
/// Present, leftmost first.
pub fn score_guess(guess: &str, answer: &str) -> (scores: [LetterScore; WORD_LEN])
    ensures
        forall|i: int|
            0 <= i < WORD_LEN ==> #[trigger] scores@[i] == cell_score(
                guess.spec_bytes(),
                answer.spec_bytes(),
                i,
            ),
{
    let g = guess.as_bytes();
    let a = answer.as_bytes();
    let mut scores = [LetterScore::Absent; 5];
    let mut remaining = [0u8; 26];

    let mut idx: usize = 0;
    while idx < WORD_LEN
        invariant
            idx <= WORD_LEN,
            forall|j: int|
                0 <= j < idx ==> #[trigger] scores@[j] == if in_place(g@, a@, j) {
                    LetterScore::Correct
                } else {
                    LetterScore::Absent
                },
            forall|j: int| idx <= j < WORD_LEN ==> #[trigger] scores@[j] == LetterScore::Absent,
            forall|c: int|
                0 <= c < 26 ==> #[trigger] remaining@[c] == spare_in_answer(
                    g@,
                    a@,
                    (c + 97) as u8,
                    idx as int,
                ),
            forall|c: int| 0 <= c < 26 ==> #[trigger] remaining@[c] <= idx,
        decreases WORD_LEN - idx,
    {
        let gb = byte_at_exec(g, idx);
        let ab = byte_at_exec(a, idx);
        if same_byte(gb, ab) {
            scores[idx] = LetterScore::Correct;
        } else {
            match ab {
                Some(b) => {
                    if 97 <= b && b <= 122 {
                        let c = (b - 97) as usize;
                        remaining[c] = remaining[c] + 1;
                    }
                },
                None => {},
            }
        }
        idx = idx + 1;
    }

    let mut idx: usize = 0;
    while idx < WORD_LEN
        invariant
            idx <= WORD_LEN,
            forall|j: int|
                0 <= j < idx ==> #[trigger] scores@[j] == cell_score(g@, a@, j),
            forall|j: int|
                idx <= j < WORD_LEN ==> #[trigger] scores@[j] == if in_place(g@, a@, j) {
                    LetterScore::Correct
                } else {
                    LetterScore::Absent
                },
            forall|c: int|
                0 <= c < 26 ==> #[trigger] remaining@[c] == if spare_in_guess(
                    g@,
                    a@,
                    (c + 97) as u8,
                    idx as int,
                ) < spare_in_answer(g@, a@, (c + 97) as u8, WORD_LEN as int) {
                    spare_in_answer(g@, a@, (c + 97) as u8, WORD_LEN as int) - spare_in_guess(
                        g@,
                        a@,
                        (c + 97) as u8,
                        idx as int,
                    )
                } else {
                    0
                },
        decreases WORD_LEN - idx,
    {
        if scores[idx] != LetterScore::Correct {
            match byte_at_exec(g, idx) {
                Some(b) => {
                    if 97 <= b && b <= 122 {
                        let c = (b - 97) as usize;
                        if remaining[c] > 0 {
                            scores[idx] = LetterScore::Present;
                            remaining[c] = remaining[c] - 1;
                        }
                    }
                },
                None => {},
            }
        }
        idx = idx + 1;
    }
    scores
}


/// `c` with ASCII capitals turned into lowercase; every other character unchanged.
pub open spec fn ascii_lower(c: char) -> char {
    if 'A' <= c <= 'Z' {
        ((c as u32) + 32) as char
    } else {
        c
    }
}

/// A lowercase ASCII letter.
pub open spec fn is_lower_char(c: char) -> bool {
    'a' <= c <= 'z'
}

/// An ASCII letter of either case.
pub open spec fn is_alpha_char(c: char) -> bool {
    'a' <= c <= 'z' || 'A' <= c <= 'Z'
}

/// Lowercase of `c` in ASCII (the behaviour of `char::to_ascii_lowercase`).
pub fn to_ascii_lowercase(c: char) -> (r: char)
    ensures
        r == ascii_lower(c),
{
    if 'A' <= c && c <= 'Z' {
        ((c as u8) + 32) as char
    } else {
        c
    }
}

/// The behaviour of `char::is_ascii_lowercase`.
pub fn is_ascii_lowercase(c: char) -> (r: bool)
    ensures
        r == is_lower_char(c),
{
    'a' <= c && c <= 'z'
}

/// The behaviour of `char::is_ascii_alphabetic`.
pub fn is_ascii_alphabetic(c: char) -> (r: bool)
    ensures
        r == is_alpha_char(c),
{
    ('a' <= c && c <= 'z') || ('A' <= c && c <= 'Z')
}

/// Character `i` of guess `k` is among its first five and reads as `letter`
/// once lowercased.
pub open spec fn shows_letter(guesses: Seq<Seq<char>>, k: int, i: int, letter: char) -> bool {
    &&& 0 <= k < guesses.len()
    &&& 0 <= i < WORD_LEN
    &&& i < guesses[k].len()
    &&& ascii_lower(guesses[k][i]) == letter
}

/// The score that the board gives cell `i` of guess `k`.
pub open spec fn key_hint(guesses: Seq<Seq<char>>, answer: Seq<char>, k: int, i: int) -> LetterScore {
    cell_score(encode_utf8(guesses[k]), encode_utf8(answer), i)
}

/// The texts of a list of strings.
pub open spec fn texts(strings: Seq<String>) -> Seq<Seq<char>> {
    strings.map_values(|s: String| s@)
}

/// Cell `i` of guess `k` comes before cell `stop_i` of guess `stop_k`.
pub open spec fn before(k: int, i: int, stop_k: int, stop_i: int) -> bool {
    k < stop_k || (k == stop_k && i < stop_i)
}

/// `hint` is the highest ranked score among the cells before cell `stop_i`
/// of guess `stop_k` that show `letter`; `None` when none of them does.
pub open spec fn best_before(
    guesses: Seq<Seq<char>>,
    answer: Seq<char>,
    letter: char,
    hint: Option<LetterScore>,
    stop_k: int,
    stop_i: int,
) -> bool {
    match hint {
        None => forall|k: int, i: int|
            #[trigger] shows_letter(guesses, k, i, letter) ==> !before(k, i, stop_k, stop_i),
        Some(s) => {
            &&& exists|k: int, i: int|
                #[trigger] shows_letter(guesses, k, i, letter) && before(k, i, stop_k, stop_i)
                    && key_hint(guesses, answer, k, i) == s
            &&& forall|k: int, i: int|
                #[trigger] shows_letter(guesses, k, i, letter) && before(k, i, stop_k, stop_i)
                    ==> rank(key_hint(guesses, answer, k, i)) <= rank(s)
        },
    }
}

/// `hint` is the keyboard's hint for `letter` (already lowercased): the
/// highest ranked score among the cells that show it; `None` when no cell does.
pub open spec fn is_best_hint(
    guesses: Seq<Seq<char>>,
    answer: Seq<char>,
    letter: char,
    hint: Option<LetterScore>,
) -> bool {
    best_before(guesses, answer, letter, hint, guesses.len() as int, 0)
}

/// The keyboard hint for `letter` after `guesses` against `answer`: the best
/// score any of the first five characters of a guess got where the character
/// is the letter (case ignored). `None` for a character that is not an ASCII
/// letter, and for a letter that no guess shows.
pub fn score_letter_from_guesses(guesses: &[String], answer: &str, letter: char) -> (best: Option<
    LetterScore,
>)
    ensures
        !is_lower_char(ascii_lower(letter)) ==> best is None,
        is_lower_char(ascii_lower(letter)) ==> is_best_hint(
            texts(guesses@),
            answer@,
            ascii_lower(letter),
            best,
        ),
{
    let letter = to_ascii_lowercase(letter);
    if !is_ascii_lowercase(letter) {
        return None;
    }
    let ghost gs = texts(guesses@);
    let mut best: Option<LetterScore> = None;
    let mut k: usize = 0;
    while k < guesses.len()
        invariant
            k <= guesses@.len(),
            gs == texts(guesses@),
            best_before(gs, answer@, letter, best, k as int, 0),
        decreases guesses@.len() - k,
    {
        let guess = guesses[k].as_str();
        let scores = score_guess(guess, answer);
        let n = guess.unicode_len();
        assert(guess@ == gs[k as int]);
        let mut idx: usize = 0;
        while idx < n && idx < WORD_LEN
            invariant
                k < guesses@.len(),
                n == gs[k as int].len(),
                guess@ == gs[k as int],
                gs == texts(guesses@),
                idx <= WORD_LEN,
                forall|i: int|
                    0 <= i < WORD_LEN ==> #[trigger] scores@[i] == cell_score(
                        guess.spec_bytes(),
                        answer.spec_bytes(),
                        i,
                    ),
                best_before(gs, answer@, letter, best, k as int, idx as int),
            decreases WORD_LEN - idx,
        {
            let ch = guess.get_char(idx);
            let ghost prev = best;
            proof {
                assert(key_hint(gs, answer@, k as int, idx as int) == scores@[idx as int]);
                assert(shows_letter(gs, k as int, idx as int, letter) <==> ascii_lower(ch)
                    == letter);
            }
            if to_ascii_lowercase(ch) == letter {
                let s = scores[idx];
                match best {
                    None => {
                        best = Some(s);
                    },
                    Some(b) => {
                        if score_rank(s) > score_rank(b) {
                            best = Some(s);
                        }
                    },
                }
            }
            proof {
                let here = key_hint(gs, answer@, k as int, idx as int);
                assert forall|k2: int, i2: int|
                    #[trigger] shows_letter(gs, k2, i2, letter) && before(
                        k2,
                        i2,
                        k as int,
                        idx + 1,
                    ) && !(k2 == k && i2 == idx) implies before(k2, i2, k as int, idx as int) by {}
                match best {
                    None => {
                        assert(prev is None);
                        assert(!shows_letter(gs, k as int, idx as int, letter));
                    },
                    Some(b) => {
                        if shows_letter(gs, k as int, idx as int, letter) {
                            assert(rank(here) <= rank(b));
                            if best != prev {
                                assert(b == here);
                            } else {
                                assert(prev is Some);
                            }
                        } else {
                            assert(best == prev);
                        }
                    },
                }
            }
            idx = idx + 1;
        }
        k = k + 1;
    }
    best
}

} // verus!
