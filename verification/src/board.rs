//! The data of a Le Word session: modes, puzzle dates, boards, saved games,
//! and the work a session hands to its caller.

use vstd::prelude::*;

use crate::score::texts;
use crate::text::{solved_message, solved_text, word_was_message, word_was_text};

verus! {

/// Most guesses a board takes.
pub const MAX_GUESSES: usize = 6;

/// Chips a daily win pays; the reward template of the daily win mirrors it.
pub const DAILY_WIN_REWARD_CHIPS: i64 = 250;

/// The difficulty key under which daily boards are filed.
pub const DAILY_DIFFICULTY_KEY: &'static str = "daily";

/// Which board is on screen.
#[derive(Clone, Copy, Debug, PartialEq, Eq, Structural)]
pub enum Mode {
    Daily,
    Replay,
}

/// The name under which a mode is saved.
pub open spec fn mode_name(mode: Mode) -> Seq<char> {
    match mode {
        Mode::Daily => "daily"@,
        Mode::Replay => "replay"@,
    }
}

impl Mode {
    pub fn as_str(self) -> (s: &'static str)
        ensures
            s@ == mode_name(self),
    {
        match self {
            Mode::Daily => "daily",
            Mode::Replay => "replay",
        }
    }
}

/// A calendar day (UTC), counted in days from the start of the Common Era
/// (January 1 of year 1 is day 1).
#[derive(Clone, Copy, Debug, PartialEq, Eq, Structural)]
pub struct PuzzleDate {
    pub days_from_ce: i32,
}

pub fn same_date(x: Option<PuzzleDate>, y: Option<PuzzleDate>) -> (r: bool)
    ensures
        r == (x == y),
{
    match (x, y) {
        (Some(p), Some(q)) => p.days_from_ce == q.days_from_ce,
        (None, None) => true,
        _ => false,
    }
}

/// The word of one day.
#[derive(Debug)]
pub struct DailyWord {
    pub puzzle_date: PuzzleDate,
    pub answer_word: String,
}

/// A board as it was saved: `mode` is the name of its mode, and daily boards
/// carry their date.
#[derive(Debug)]
pub struct Game {
    pub mode: String,
    pub puzzle_date: Option<PuzzleDate>,
    pub answer_word: String,
    pub guesses: Vec<String>,
    pub current_guess: String,
    pub is_game_over: bool,
    pub won: bool,
}

/// The contents of a board, as values.
#[verifier::ext_equal]
pub struct Board {
    pub puzzle_date: Option<PuzzleDate>,
    pub answer: Seq<char>,
    pub guesses: Seq<Seq<char>>,
    pub current_guess: Seq<char>,
    pub is_game_over: bool,
    pub won: bool,
}

/// A board parked while the other mode is on screen.
#[derive(Debug)]
pub struct Snapshot {
    pub puzzle_date: Option<PuzzleDate>,
    pub answer: String,
    pub guesses: Vec<String>,
    pub current_guess: String,
    pub is_game_over: bool,
    pub won: bool,
}

impl View for Snapshot {
    type V = Board;

    open spec fn view(&self) -> Board {
        Board {
            puzzle_date: self.puzzle_date,
            answer: self.answer@,
            guesses: texts(self.guesses@),
            current_guess: self.current_guess@,
            is_game_over: self.is_game_over,
            won: self.won,
        }
    }
}

pub(crate) fn clone_texts(v: &Vec<String>) -> (r: Vec<String>)
    ensures
        texts(r@) == texts(v@),
{
    let mut r: Vec<String> = Vec::new();
    let mut i: usize = 0;
    while i < v.len()
        invariant
            i <= v@.len(),
            r@.len() == i,
            forall|j: int| 0 <= j < i ==> #[trigger] r@[j]@ == v@[j]@,
        decreases v@.len() - i,
    {
        r.push(v[i].clone());
        i = i + 1;
    }
    assert(texts(r@) =~= texts(v@));
    r
}

impl Snapshot {
    /// A copy of this board.
    pub fn duplicate(&self) -> (r: Snapshot)
        ensures
            r@ == self@,
    {
        Snapshot {
            puzzle_date: self.puzzle_date,
            answer: self.answer.clone(),
            guesses: clone_texts(&self.guesses),
            current_guess: self.current_guess.clone(),
            is_game_over: self.is_game_over,
            won: self.won,
        }
    }
}

impl Game {
    /// The board this saved game holds.
    pub open spec fn board(&self) -> Board {
        Board {
            puzzle_date: self.puzzle_date,
            answer: self.answer_word@,
            guesses: texts(self.guesses@),
            current_guess: self.current_guess@,
            is_game_over: self.is_game_over,
            won: self.won,
        }
    }

    pub fn snapshot(&self) -> (s: Snapshot)
        ensures
            s@ == self.board(),
    {
        Snapshot {
            puzzle_date: self.puzzle_date,
            answer: self.answer_word.clone(),
            guesses: clone_texts(&self.guesses),
            current_guess: self.current_guess.clone(),
            is_game_over: self.is_game_over,
            won: self.won,
        }
    }
}

/// A board with no guesses yet.
pub open spec fn fresh_board(puzzle_date: Option<PuzzleDate>, answer: Seq<char>) -> Board {
    Board {
        puzzle_date,
        answer,
        guesses: seq![],
        current_guess: seq![],
        is_game_over: false,
        won: false,
    }
}

pub fn fresh_snapshot(puzzle_date: Option<PuzzleDate>, answer: String) -> (s: Snapshot)
    ensures
        s@ == fresh_board(puzzle_date, answer@),
{
    let s = Snapshot {
        puzzle_date,
        answer,
        guesses: Vec::new(),
        current_guess: String::new(),
        is_game_over: false,
        won: false,
    };
    assert(texts(s.guesses@) =~= seq![]);
    s
}

/// The empty board shown while no word is at hand.
pub open spec fn blank_board() -> Board {
    fresh_board(None, seq![])
}

/// What a board says when it comes on screen.
pub open spec fn board_message(mode: Mode, board: Board) -> Seq<char> {
    if board.won {
        solved_message(board.guesses.len())
    } else if board.is_game_over {
        word_was_message(board.answer)
    } else if board.guesses.len() == 0 && board.current_guess.len() == 0 {
        match mode {
            Mode::Daily => "Guess today's Le Word."@,
            Mode::Replay => "Guess a random Le Word."@,
        }
    } else {
        "Keep going."@
    }
}

pub fn board_message_text(mode: Mode, board: &Snapshot) -> (m: String)
    ensures
        m@ == board_message(mode, board@),
{
    if board.won {
        solved_text(board.guesses.len())
    } else if board.is_game_over {
        word_was_text(board.answer.as_str())
    } else if board.guesses.len() == 0 && board.current_guess.as_str().is_empty() {
        match mode {
            Mode::Daily => "Guess today's Le Word.".to_owned(),
            Mode::Replay => "Guess a random Le Word.".to_owned(),
        }
    } else {
        "Keep going.".to_owned()
    }
}

/// Work that a session hands to its caller, in order.
#[derive(Debug)]
pub enum Effect {
    /// Save this board of this mode for the player.
    SaveGame { mode: Mode, board: Snapshot },
    /// Record the player's daily win on this date, in this many guesses.
    RecordWin { puzzle_date: PuzzleDate, guess_count: usize },
}

pub enum EffectView {
    SaveGame { mode: Mode, board: Board },
    RecordWin { puzzle_date: PuzzleDate, guess_count: nat },
}

impl View for Effect {
    type V = EffectView;

    open spec fn view(&self) -> EffectView {
        match self {
            Effect::SaveGame { mode, board } => EffectView::SaveGame { mode: *mode, board: board@ },
            Effect::RecordWin { puzzle_date, guess_count } => EffectView::RecordWin {
                puzzle_date: *puzzle_date,
                guess_count: *guess_count as nat,
            },
        }
    }
}

/// What became of the fetch of a new day's word.
#[derive(Debug)]
pub enum WordReload {
    /// Nothing has come back yet.
    Pending,
    /// The word arrived.
    Arrived(DailyWord),
    /// The fetch failed or gave no word.
    Failed,
}

} // verus!
