//! A player's Le Word session: the board on screen, the parked board of the
//! other mode, the rollover to a new day's word, and the work the session
//! hands to its caller (saving boards, recording daily wins).
//!
//! The session does no I/O. The clock, the word list, the pick of a random
//! replay word and the fetch of a new day's word reach it as arguments; what
//! it wants saved or recorded it queues as `Effect`s for the caller to take.

use vstd::prelude::*;
use vstd::string::StringSliceAdditionalSpecFns;
use vstd::utf8::encode_utf8;

use uuid::Uuid;

use crate::board::{
    blank_board, board_message, board_message_text, fresh_board, fresh_snapshot, same_date,
    Board, DailyWord, Effect, EffectView, Game, Mode, PuzzleDate, Snapshot, WordReload, MAX_GUESSES,
};
use crate::score::{
    ascii_lower, is_alpha_char, is_ascii_alphabetic, score_guess, score_letter_from_guesses,
    texts, to_ascii_lowercase, LetterScore, WORD_LEN,
};
use crate::text::{pop_char, push_char, solved_message, solved_text, word_was_message, word_was_text};

verus! {

/// The user id of the player, carried through untouched.
#[verifier::external_type_specification]
#[verifier::external_body]
pub struct ExUuid(Uuid);

/// How long, in milliseconds, a failed fetch of the new day's word waits
/// before the next attempt.
pub const WORD_RELOAD_RETRY_MS: u64 = 30_000;

pub open spec fn unavailable_message() -> Seq<char> {
    "Le Word is unavailable. Try again soon."@
}

pub open spec fn loading_message() -> Seq<char> {
    "Loading today's Le Word."@
}

pub open spec fn retrying_message() -> Seq<char> {
    "Le Word is unavailable. Retrying soon."@
}

pub open spec fn confirm_reset_message() -> Seq<char> {
    "Press 0 again for a new random word."@
}

pub open spec fn too_short_message() -> Seq<char> {
    "Not enough letters."@
}

pub open spec fn not_a_word_message() -> Seq<char> {
    "Not in word list."@
}

pub open spec fn try_again_message() -> Seq<char> {
    "Try again."@
}

/// The length of a text in bytes of UTF-8, as `str::len` gives it.
pub open spec fn byte_len(s: Seq<char>) -> usize {
    encode_utf8(s).len() as usize
}

/// A session, as values.
#[verifier::ext_equal]
pub struct StateView {
    pub user_id: Uuid,
    pub mode: Mode,
    /// The board on screen.
    pub board: Board,
    /// A daily word is at hand (today's, or the one the session started with).
    pub daily_word_loaded: bool,
    pub show_rules: bool,
    /// The first press of the replay reset awaits its confirmation.
    pub reset_pending: bool,
    pub message: Seq<char>,
    /// The daily board, as last parked.
    pub daily: Option<Board>,
    /// The replay board, as last parked.
    pub replay: Option<Board>,
    /// A fetch of the new day's word is under way.
    pub reload_in_flight: bool,
    /// After a failed fetch: the time (milliseconds on the caller's clock)
    /// before which no new fetch starts.
    pub backoff_until: Option<u64>,
    /// Work queued for the caller, oldest first.
    pub effects: Seq<EffectView>,
}

impl StateView {
    /// The pending confirmation of a replay reset, withdrawn.
    pub open spec fn reset_cleared(self) -> StateView {
        if self.reset_pending {
            StateView { reset_pending: false, message: seq![], ..self }
        } else {
            self
        }
    }

    /// The date of the daily board the session holds, whichever mode is on
    /// screen; `None` while no daily word is at hand.
    pub open spec fn daily_puzzle_date(self) -> Option<PuzzleDate> {
        match self.mode {
            Mode::Daily => self.board.puzzle_date,
            Mode::Replay => match self.daily {
                Some(b) => b.puzzle_date,
                None => None,
            },
        }
    }

    /// The parked board of the mode on screen.
    pub open spec fn parked(self) -> Option<Board> {
        match self.mode {
            Mode::Daily => self.daily,
            Mode::Replay => self.replay,
        }
    }

    /// `board` put on screen, with its message.
    pub open spec fn showing(self, board: Board) -> StateView {
        StateView { board, message: board_message(self.mode, board), ..self }
    }

    /// The parked board of the mode on screen put on screen; the blank board
    /// when there is none.
    pub open spec fn parked_loaded(self) -> StateView {
        match self.parked() {
            Some(b) => self.showing(b),
            None => StateView { board: blank_board(), message: unavailable_message(), ..self },
        }
    }

    /// The board on screen parked under its mode, unless it has no answer.
    pub open spec fn stored(self) -> StateView {
        if self.board.answer.len() == 0 {
            self
        } else {
            match self.mode {
                Mode::Daily => StateView { daily: Some(self.board), ..self },
                Mode::Replay => StateView { replay: Some(self.board), ..self },
            }
        }
    }

    /// A save of the board on screen queued, unless it has no answer.
    pub open spec fn saved(self) -> StateView {
        if self.board.answer.len() == 0 {
            self
        } else {
            StateView {
                effects: self.effects.push(EffectView::SaveGame { mode: self.mode, board: self.board }),
                ..self
            }
        }
    }
}


/// A player's session of Le Word.
pub struct State {
    pub user_id: Uuid,
    pub mode: Mode,
    pub puzzle_date: Option<PuzzleDate>,
    pub answer: String,
    pub daily_word_loaded: bool,
    pub guesses: Vec<String>,
    pub current_guess: String,
    pub is_game_over: bool,
    pub won: bool,
    pub show_rules: bool,
    pub reset_pending: bool,
    pub message: String,
    pub daily_snapshot: Option<Snapshot>,
    pub replay_snapshot: Option<Snapshot>,
    /// A fetch of the new day's word is under way; see `ensure_current_daily`.
    pub word_reload_in_flight: bool,
    /// Set when a fetch of the new day's word failed: `ensure_current_daily`
    /// holds off until the caller's clock reaches it, then tries again.
    pub word_reload_backoff_until: Option<u64>,
    /// Work queued for the caller.
    pub effects: Vec<Effect>,
}

impl StateView {
    /// `show_daily`: park the replay board and bring the daily board back.
    pub open spec fn after_show_daily(self) -> StateView {
        let v = self.reset_cleared();
        if v.mode == Mode::Daily {
            v
        } else {
            StateView { mode: Mode::Daily, ..v.stored().saved() }.parked_loaded()
        }
    }

    /// The parked replay board cannot come back: there is none, or its
    /// answer is the daily board's.
    pub open spec fn replay_needs_new_word(self) -> bool {
        match (self.replay, self.daily) {
            (None, _) => true,
            (Some(r), Some(d)) => r.answer == d.answer,
            (Some(_), None) => false,
        }
    }

    /// `show_replay`: park the daily board and bring the replay board on
    /// screen; a fresh board with `new_answer` when the parked one cannot come back.
    pub open spec fn after_show_replay(self, new_answer: Seq<char>) -> StateView {
        let v = self.reset_cleared();
        if v.mode == Mode::Replay {
            v
        } else {
            let w = StateView { mode: Mode::Replay, ..v.stored().saved() };
            let x = if w.replay_needs_new_word() {
                StateView { replay: Some(fresh_board(None, new_answer)), ..w }
            } else {
                w
            };
            x.parked_loaded().saved()
        }
    }

    /// `new_replay`: a fresh replay board with `new_answer` on screen, the
    /// daily board parked first when it was on screen.
    pub open spec fn after_new_replay(self, new_answer: Seq<char>) -> StateView {
        let v = self.reset_cleared();
        let w = if v.mode == Mode::Daily {
            v.stored().saved()
        } else {
            v
        };
        let b = fresh_board(None, new_answer);
        StateView { replay: Some(b), mode: Mode::Replay, ..w }.showing(b).saved()
    }

    /// `request_replay_reset`: the second press confirms, the first asks for it.
    pub open spec fn after_replay_reset_request(self) -> (StateView, bool) {
        if self.reset_pending {
            (StateView { reset_pending: false, ..self }, true)
        } else {
            (StateView { reset_pending: true, message: confirm_reset_message(), ..self }, false)
        }
    }

    /// `submit_guess`, where `in_word_list` tells whether the typed guess is
    /// a word of the list.
    pub open spec fn after_submit(self, in_word_list: bool) -> (StateView, bool) {
        let v = self.reset_cleared();
        if v.board.answer.len() == 0 {
            (StateView { message: unavailable_message(), ..v }, true)
        } else if v.board.is_game_over {
            (v, false)
        } else if byte_len(v.board.current_guess) != WORD_LEN {
            (StateView { message: too_short_message(), ..v }, true)
        } else if !in_word_list {
            (StateView { message: not_a_word_message(), ..v }, true)
        } else {
            let guess = v.board.current_guess;
            let guesses = v.board.guesses.push(guess);
            if guess == v.board.answer {
                let b = Board {
                    guesses,
                    current_guess: seq![],
                    won: true,
                    is_game_over: true,
                    ..v.board
                };
                let w = StateView { board: b, message: solved_message(guesses.len()), ..v }.stored().saved();
                let x = if w.mode == Mode::Daily && w.board.puzzle_date is Some {
                    StateView {
                        effects: w.effects.push(
                            EffectView::RecordWin {
                                puzzle_date: w.board.puzzle_date->0,
                                guess_count: guesses.len(),
                            },
                        ),
                        ..w
                    }
                } else {
                    w
                };
                (x, true)
            } else {
                let lost = guesses.len() >= MAX_GUESSES;
                let b = Board {
                    guesses,
                    current_guess: seq![],
                    is_game_over: lost,
                    ..v.board
                };
                let message = if lost {
                    word_was_message(v.board.answer)
                } else {
                    try_again_message()
                };
                (StateView { board: b, message, ..v }.stored().saved(), true)
            }
        }
    }

    /// `push_letter`: a letter typed, taken in lowercase.
    pub open spec fn after_push_letter(self, ch: char) -> (StateView, bool) {
        let v = self.reset_cleared();
        if v.board.answer.len() == 0 || v.board.is_game_over || byte_len(v.board.current_guess)
            >= WORD_LEN || !is_alpha_char(ch) {
            (v, false)
        } else {
            (
                StateView {
                    board: Board {
                        current_guess: v.board.current_guess.push(ascii_lower(ch)),
                        ..v.board
                    },
                    message: seq![],
                    ..v
                },
                true,
            )
        }
    }

    /// `open_rules`: the rules on screen.
    pub open spec fn after_open_rules(self) -> StateView {
        StateView { show_rules: true, ..self.reset_cleared() }
    }

    /// `close_rules`: the rules off screen.
    pub open spec fn after_close_rules(self) -> StateView {
        StateView { show_rules: false, ..self }
    }

    /// `pop_letter`: the last typed letter erased.
    pub open spec fn after_pop_letter(self) -> (StateView, bool) {
        let v = self.reset_cleared();
        if v.board.answer.len() == 0 || v.board.is_game_over || v.board.current_guess.len() == 0 {
            (v, false)
        } else {
            (
                StateView {
                    board: Board { current_guess: v.board.current_guess.drop_last(), ..v.board },
                    message: seq![],
                    ..v
                },
                true,
            )
        }
    }
}

impl StateView {
    /// `ensure_current_daily` on day `today` at time `now` (milliseconds on
    /// the caller's clock). When the daily board is not today's, no fetch is
    /// under way and no backoff holds, the stale daily board is dropped at
    /// once and a fetch of the new word starts; returns true then.
    pub open spec fn after_ensure_current_daily(self, today: PuzzleDate, now: u64) -> (StateView, bool) {
        if self.daily_puzzle_date() == Some(today) {
            (self, false)
        } else if self.reload_in_flight {
            (self, false)
        } else if self.backoff_until is Some && now < self.backoff_until->0 {
            (self, false)
        } else {
            let v = StateView {
                backoff_until: None,
                daily: None,
                daily_word_loaded: false,
                ..self
            };
            let w = if v.mode == Mode::Daily {
                StateView { message: loading_message(), ..v.reset_cleared().parked_loaded() }
            } else {
                v
            };
            (StateView { reload_in_flight: true, ..w }, true)
        }
    }

    /// `poll_word_reload` with what the fetch gave so far, at time `now`.
    pub open spec fn after_word_reload(self, outcome: WordReload, now: u64) -> (StateView, bool) {
        if !self.reload_in_flight {
            (self, false)
        } else {
            match outcome {
                WordReload::Pending => (self, false),
                WordReload::Arrived(word) => {
                    let v = StateView {
                        reload_in_flight: false,
                        backoff_until: None,
                        daily: Some(fresh_board(Some(word.puzzle_date), word.answer_word@)),
                        daily_word_loaded: true,
                        ..self
                    };
                    (
                        if v.mode == Mode::Daily {
                            v.parked_loaded()
                        } else {
                            v
                        },
                        true,
                    )
                },
                WordReload::Failed => {
                    let v = StateView {
                        reload_in_flight: false,
                        backoff_until: Some(now.saturating_add(WORD_RELOAD_RETRY_MS)),
                        ..self
                    };
                    (
                        if v.mode == Mode::Daily {
                            StateView { message: retrying_message(), ..v }
                        } else {
                            v
                        },
                        true,
                    )
                },
            }
        }
    }

    /// The daily board the player has started on day `today` and not finished.
    pub open spec fn unfinished_daily(self, today: PuzzleDate) -> bool {
        if !self.daily_word_loaded {
            false
        } else {
            let b = if self.mode == Mode::Daily {
                Some(self.board)
            } else {
                self.daily
            };
            match b {
                Some(b) => b.guesses.len() > 0 && !b.is_game_over && b.puzzle_date == Some(today),
                None => false,
            }
        }
    }
}

/// Saved game `g` is the daily board of `word`.
pub open spec fn is_daily_game_of(g: Game, word: DailyWord) -> bool {
    &&& g.mode@ == "daily"@
    &&& g.puzzle_date == Some(word.puzzle_date)
    &&& g.answer_word@ == word.answer_word@
}

/// Saved game `g` is a replay board.
pub open spec fn is_replay_game(g: Game) -> bool {
    g.mode@ == "replay"@ && g.puzzle_date is None
}

/// Game `i` is the first saved daily board of `word`.
pub open spec fn first_daily_game(games: Seq<Game>, word: DailyWord, i: int) -> bool {
    &&& 0 <= i < games.len()
    &&& is_daily_game_of(games[i], word)
    &&& forall|j: int| 0 <= j < i ==> !is_daily_game_of(#[trigger] games[j], word)
}

/// Game `i` is the first saved replay board.
pub open spec fn first_replay_game(games: Seq<Game>, i: int) -> bool {
    &&& 0 <= i < games.len()
    &&& is_replay_game(games[i])
    &&& forall|j: int| 0 <= j < i ==> !is_replay_game(#[trigger] games[j])
}

/// The daily board a session starts with: none without a word; else the
/// first saved board of that word, or a fresh one.
pub open spec fn initial_daily(daily_word: Option<DailyWord>, games: Seq<Game>) -> Option<Board> {
    match daily_word {
        None => None,
        Some(word) => if exists|i: int| first_daily_game(games, word, i) {
            Some(games[choose|i: int| first_daily_game(games, word, i)].board())
        } else {
            Some(fresh_board(Some(word.puzzle_date), word.answer_word@))
        },
    }
}

/// The replay board a session starts with: the first saved one, if any.
pub open spec fn initial_replay(games: Seq<Game>) -> Option<Board> {
    if exists|i: int| first_replay_game(games, i) {
        Some(games[choose|i: int| first_replay_game(games, i)].board())
    } else {
        None
    }
}

/// A session as it starts: daily mode, with the daily board on screen.
pub open spec fn initial_state(user_id: Uuid, daily_word: Option<DailyWord>, games: Seq<Game>) -> StateView {
    let daily = initial_daily(daily_word, games);
    StateView {
        user_id,
        mode: Mode::Daily,
        board: blank_board(),
        daily_word_loaded: daily is Some,
        show_rules: false,
        reset_pending: false,
        message: seq![],
        daily,
        replay: initial_replay(games),
        reload_in_flight: false,
        backoff_until: None,
        effects: seq![],
    }.parked_loaded()
}

fn text_is(s: &String, literal: &str) -> (r: bool)
    ensures
        r == (s@ == literal@),
{
    let t = literal.to_owned();
    *s == t
}

fn find_daily_game(games: &Vec<Game>, word: &DailyWord) -> (r: Option<usize>)
    ensures
        match r {
            Some(i) => first_daily_game(games@, *word, i as int),
            None => forall|i: int| 0 <= i < games@.len() ==> !is_daily_game_of(#[trigger] games@[i], *word),
        },
{
    let mut i: usize = 0;
    while i < games.len()
        invariant
            i <= games@.len(),
            forall|j: int| 0 <= j < i ==> !is_daily_game_of(#[trigger] games@[j], *word),
        decreases games@.len() - i,
    {
        let g = &games[i];
        if text_is(&g.mode, "daily") && same_date(g.puzzle_date, Some(word.puzzle_date))
            && g.answer_word == word.answer_word {
            return Some(i);
        }
        i = i + 1;
    }
    None
}

fn find_replay_game(games: &Vec<Game>) -> (r: Option<usize>)
    ensures
        match r {
            Some(i) => first_replay_game(games@, i as int),
            None => forall|i: int| 0 <= i < games@.len() ==> !is_replay_game(#[trigger] games@[i]),
        },
{
    let mut i: usize = 0;
    while i < games.len()
        invariant
            i <= games@.len(),
            forall|j: int| 0 <= j < i ==> !is_replay_game(#[trigger] games@[j]),
        decreases games@.len() - i,
    {
        let g = &games[i];
        if text_is(&g.mode, "replay") && g.puzzle_date.is_none() {
            return Some(i);
        }
        i = i + 1;
    }
    None
}

pub open spec fn parked_view(s: Option<Snapshot>) -> Option<Board> {
    match s {
        Some(b) => Some(b@),
        None => None,
    }
}

impl View for State {
    type V = StateView;

    open spec fn view(&self) -> StateView {
        StateView {
            user_id: self.user_id,
            mode: self.mode,
            board: Board {
                puzzle_date: self.puzzle_date,
                answer: self.answer@,
                guesses: texts(self.guesses@),
                current_guess: self.current_guess@,
                is_game_over: self.is_game_over,
                won: self.won,
            },
            daily_word_loaded: self.daily_word_loaded,
            show_rules: self.show_rules,
            reset_pending: self.reset_pending,
            message: self.message@,
            daily: parked_view(self.daily_snapshot),
            replay: parked_view(self.replay_snapshot),
            reload_in_flight: self.word_reload_in_flight,
            backoff_until: self.word_reload_backoff_until,
            effects: self.effects@.map_values(|e: Effect| e@),
        }
    }
}

impl State {
    /// Withdraws a pending confirmation of the replay reset, and its prompt.
    pub fn clear_reset_pending(&mut self)
        ensures
            final(self)@ == old(self)@.reset_cleared(),
    {
        if self.reset_pending {
            self.reset_pending = false;
            self.message = String::new();
        }
    }

    fn snapshot_from_state(&self) -> (s: Snapshot)
        ensures
            s@ == self@.board,
    {
        Snapshot {
            puzzle_date: self.puzzle_date,
            answer: self.answer.clone(),
            guesses: crate::board::clone_texts(&self.guesses),
            current_guess: self.current_guess.clone(),
            is_game_over: self.is_game_over,
            won: self.won,
        }
    }

    fn apply_snapshot(&mut self, snapshot: Snapshot)
        ensures
            final(self)@ == old(self)@.showing(snapshot@),
    {
        let message = board_message_text(self.mode, &snapshot);
        self.puzzle_date = snapshot.puzzle_date;
        self.answer = snapshot.answer;
        self.guesses = snapshot.guesses;
        self.current_guess = snapshot.current_guess;
        self.is_game_over = snapshot.is_game_over;
        self.won = snapshot.won;
        self.message = message;
        assert(self@ =~= old(self)@.showing(snapshot@));
    }

    fn load_mode_snapshot(&mut self)
        ensures
            final(self)@ == old(self)@.parked_loaded(),
    {
        let snapshot = match self.mode {
            Mode::Daily => match &self.daily_snapshot {
                Some(s) => Some(s.duplicate()),
                None => None,
            },
            Mode::Replay => match &self.replay_snapshot {
                Some(s) => Some(s.duplicate()),
                None => None,
            },
        };
        match snapshot {
            Some(snapshot) => {
                self.apply_snapshot(snapshot);
            },
            None => {
                self.puzzle_date = None;
                self.answer = String::new();
                self.guesses = Vec::new();
                self.current_guess = String::new();
                self.is_game_over = false;
                self.won = false;
                self.message = "Le Word is unavailable. Try again soon.".to_owned();
                assert(texts(self.guesses@) =~= seq![]);
                assert(self@ =~= old(self)@.parked_loaded());
            },
        }
    }

    fn store_active_snapshot(&mut self)
        ensures
            final(self)@ == old(self)@.stored(),
    {
        if self.answer.as_str().is_empty() {
            return;
        }
        let snapshot = self.snapshot_from_state();
        match self.mode {
            Mode::Daily => self.daily_snapshot = Some(snapshot),
            Mode::Replay => self.replay_snapshot = Some(snapshot),
        }
        assert(self@ =~= old(self)@.stored());
    }

    fn save_async(&mut self)
        ensures
            final(self)@ == old(self)@.saved(),
    {
        if self.answer.as_str().is_empty() {
            return;
        }
        let board = self.snapshot_from_state();
        self.effects.push(Effect::SaveGame { mode: self.mode, board });
        assert(self.effects@.map_values(|e: Effect| e@) =~= old(self).effects@.map_values(
            |e: Effect| e@,
        ).push(EffectView::SaveGame { mode: self.mode, board: old(self)@.board }));
        assert(self@ =~= old(self)@.saved());
    }
}

impl State {
    /// Brings the daily board on screen, parking (and saving) the replay board.
    pub fn show_daily(&mut self)
        ensures
            final(self)@ == old(self)@.after_show_daily(),
    {
        self.clear_reset_pending();
        if self.mode == Mode::Daily {
            return;
        }
        self.store_active_snapshot();
        self.save_async();
        self.mode = Mode::Daily;
        self.load_mode_snapshot();
    }

    /// Brings the replay board on screen, parking (and saving) the daily
    /// board. `new_answer` is the word a fresh replay board gets when the
    /// parked replay board is missing or shares the daily answer.
    pub fn show_replay(&mut self, new_answer: String)
        ensures
            final(self)@ == old(self)@.after_show_replay(new_answer@),
    {
        self.clear_reset_pending();
        if self.mode == Mode::Replay {
            return;
        }
        self.store_active_snapshot();
        self.save_async();
        self.mode = Mode::Replay;
        let replay_conflicts_with_daily = match (&self.replay_snapshot, &self.daily_snapshot) {
            (Some(replay), Some(daily)) => replay.answer == daily.answer,
            _ => false,
        };
        if self.replay_snapshot.is_none() || replay_conflicts_with_daily {
            self.replay_snapshot = Some(fresh_snapshot(None, new_answer));
        }
        self.load_mode_snapshot();
        self.save_async();
    }

    /// Starts a fresh replay board with `new_answer`, parking (and saving)
    /// the daily board first when it is on screen.
    pub fn new_replay(&mut self, new_answer: String)
        ensures
            final(self)@ == old(self)@.after_new_replay(new_answer@),
    {
        self.clear_reset_pending();
        if self.mode == Mode::Daily {
            self.store_active_snapshot();
            self.save_async();
        }
        let snapshot = fresh_snapshot(None, new_answer);
        let copy = snapshot.duplicate();
        self.replay_snapshot = Some(snapshot);
        self.mode = Mode::Replay;
        self.apply_snapshot(copy);
        self.save_async();
    }

    /// The replay reset takes two presses: the first asks for confirmation
    /// and returns false, the second returns true.
    pub fn request_replay_reset(&mut self) -> (confirmed: bool)
        ensures
            (final(self)@, confirmed) == old(self)@.after_replay_reset_request(),
    {
        if self.reset_pending {
            self.reset_pending = false;
            return true;
        }
        self.reset_pending = true;
        self.message = "Press 0 again for a new random word.".to_owned();
        false
    }

    /// Submits the typed guess; `in_word_list` tells whether it is a word of
    /// the list. Returns true when anything on screen changed.
    pub fn submit_guess(&mut self, in_word_list: bool) -> (changed: bool)
        ensures
            (final(self)@, changed) == old(self)@.after_submit(in_word_list),
    {
        self.clear_reset_pending();
        if self.answer.as_str().is_empty() {
            self.message = "Le Word is unavailable. Try again soon.".to_owned();
            return true;
        }
        if self.is_game_over {
            return false;
        }
        if self.current_guess.as_str().len() != WORD_LEN {
            self.message = "Not enough letters.".to_owned();
            return true;
        }
        if !in_word_list {
            self.message = "Not in word list.".to_owned();
            return true;
        }
        let ghost before = self@;
        let mut guess = String::new();
        std::mem::swap(&mut guess, &mut self.current_guess);
        let same = guess == self.answer;
        self.guesses.push(guess);
        assert(texts(self.guesses@) =~= before.board.guesses.push(before.board.current_guess));
        if same {
            self.won = true;
            self.is_game_over = true;
            self.message = solved_text(self.guesses.len());
            self.store_active_snapshot();
            self.save_async();
            if self.mode == Mode::Daily {
                match self.puzzle_date {
                    Some(puzzle_date) => {
                        let ghost w = self@;
                        self.effects.push(
                            Effect::RecordWin { puzzle_date, guess_count: self.guesses.len() },
                        );
                        assert(self.effects@.map_values(|e: Effect| e@) =~= w.effects.push(
                            EffectView::RecordWin {
                                puzzle_date,
                                guess_count: self.guesses@.len(),
                            },
                        ));
                    },
                    None => {},
                }
            }
            return true;
        }
        if self.guesses.len() >= MAX_GUESSES {
            self.is_game_over = true;
            self.message = word_was_text(self.answer.as_str());
        } else {
            self.message = "Try again.".to_owned();
        }
        self.store_active_snapshot();
        self.save_async();
        true
    }

    /// Types a letter (taken in lowercase) into the guess. Returns true when
    /// it was taken.
    pub fn push_letter(&mut self, ch: char) -> (taken: bool)
        ensures
            (final(self)@, taken) == old(self)@.after_push_letter(ch),
    {
        self.clear_reset_pending();
        if self.answer.as_str().is_empty() || self.is_game_over || self.current_guess.as_str().len()
            >= WORD_LEN || !is_ascii_alphabetic(ch) {
            return false;
        }
        push_char(&mut self.current_guess, to_ascii_lowercase(ch));
        self.message = String::new();
        true
    }

    /// Erases the last typed letter. Returns true when there was one.
    pub fn pop_letter(&mut self) -> (changed: bool)
        ensures
            (final(self)@, changed) == old(self)@.after_pop_letter(),
    {
        self.clear_reset_pending();
        if self.answer.as_str().is_empty() || self.is_game_over {
            return false;
        }
        let changed = pop_char(&mut self.current_guess).is_some();
        if changed {
            self.message = String::new();
        }
        changed
    }

    pub fn open_rules(&mut self)
        ensures
            final(self)@ == old(self)@.after_open_rules(),
    {
        self.clear_reset_pending();
        self.show_rules = true;
    }

    pub fn close_rules(&mut self)
        ensures
            final(self)@ == old(self)@.after_close_rules(),
    {
        self.show_rules = false;
    }
}

impl State {
    /// The number of the guess being typed: the guesses made, plus one while
    /// the board is not over.
    pub fn guess_number(&self) -> (n: usize)
        ensures
            n == (if self@.board.is_game_over {
                self@.board.guesses.len()
            } else if self@.board.guesses.len() < usize::MAX {
                self@.board.guesses.len() + 1
            } else {
                usize::MAX as nat
            }),
    {
        let extra: usize = if self.is_game_over {
            0
        } else {
            1
        };
        assert(self.guesses@.len() == self@.board.guesses.len());
        self.guesses.len().saturating_add(extra)
    }

    pub fn is_daily_active(&self) -> (r: bool)
        ensures
            r == (self@.mode == Mode::Daily),
    {
        self.mode == Mode::Daily
    }

    /// Today's daily board has at least one guess and is not over; `today`
    /// is the current day.
    pub fn has_unfinished_daily(&self, today: PuzzleDate) -> (r: bool)
        ensures
            r == self@.unfinished_daily(today),
    {
        if !self.daily_word_loaded {
            return false;
        }
        if self.mode == Mode::Daily {
            self.guesses.len() > 0 && !self.is_game_over && same_date(self.puzzle_date, Some(today))
        } else {
            match &self.daily_snapshot {
                Some(snapshot) => snapshot.guesses.len() > 0 && !snapshot.is_game_over && same_date(
                    snapshot.puzzle_date,
                    Some(today),
                ),
                None => false,
            }
        }
    }

    /// The scores of `guess` against the answer on screen.
    pub fn scores_for_guess(&self, guess: &str) -> (scores: [LetterScore; WORD_LEN])
        ensures
            forall|i: int|
                0 <= i < WORD_LEN ==> #[trigger] scores@[i] == crate::score::cell_score(
                    guess.spec_bytes(),
                    encode_utf8(self@.board.answer),
                    i,
                ),
    {
        score_guess(guess, self.answer.as_str())
    }

    /// The keyboard hint for `letter` on the board on screen.
    pub fn score_for_keyboard_letter(&self, letter: char) -> (hint: Option<LetterScore>)
        ensures
            !crate::score::is_lower_char(ascii_lower(letter)) ==> hint is None,
            crate::score::is_lower_char(ascii_lower(letter)) ==> crate::score::is_best_hint(
                self@.board.guesses,
                self@.board.answer,
                ascii_lower(letter),
                hint,
            ),
    {
        score_letter_from_guesses(self.guesses.as_slice(), self.answer.as_str(), letter)
    }

    /// The answer of the parked daily board, if any: the caller picks a
    /// replay word that differs from it.
    pub fn daily_answer(&self) -> (answer: Option<String>)
        ensures
            match answer {
                Some(a) => self@.daily is Some && a@ == self@.daily->0.answer,
                None => self@.daily is None,
            },
    {
        match &self.daily_snapshot {
            Some(s) => Some(s.answer.clone()),
            None => None,
        }
    }

    /// Hands the queued work to the caller, oldest first, and empties the queue.
    pub fn take_effects(&mut self) -> (effects: Vec<Effect>)
        ensures
            effects@.map_values(|e: Effect| e@) == old(self)@.effects,
            final(self)@ == (StateView { effects: seq![], ..old(self)@ }),
    {
        let mut effects = Vec::new();
        std::mem::swap(&mut effects, &mut self.effects);
        assert(self.effects@.map_values(|e: Effect| e@) =~= seq![]);
        assert(self@ =~= (StateView { effects: seq![], ..old(self)@ }));
        effects
    }

    /// The date of the daily board this session holds, whichever mode is on
    /// screen: the live board in daily mode, the parked board in replay.
    /// `None` means no daily word has landed yet.
    fn daily_puzzle_date(&self) -> (d: Option<PuzzleDate>)
        ensures
            d == self@.daily_puzzle_date(),
    {
        match self.mode {
            Mode::Daily => self.puzzle_date,
            Mode::Replay => match &self.daily_snapshot {
                Some(s) => s.puzzle_date,
                None => None,
            },
        }
    }

    /// Rolls the daily board over when the day changes under a live session.
    /// `today` is the current day and `now` the current time in milliseconds
    /// on the caller's clock. The stale daily board is dropped at once, so
    /// its word stops scoring guesses, and a fetch of the new word starts:
    /// a true result asks the caller to fetch it and to report back through
    /// `poll_word_reload`. The daily date only advances once the word lands,
    /// so a failed fetch is retried here once its backoff has passed. A
    /// replay board on screen is left alone: only the parked daily board rolls.
    pub fn ensure_current_daily(&mut self, today: PuzzleDate, now: u64) -> (fetch: bool)
        ensures
            (final(self)@, fetch) == old(self)@.after_ensure_current_daily(today, now),
    {
        if same_date(self.daily_puzzle_date(), Some(today)) {
            return false;
        }
        if self.word_reload_in_flight {
            return false;
        }
        match self.word_reload_backoff_until {
            Some(until) => {
                if now < until {
                    return false;
                }
            },
            None => {},
        }
        self.word_reload_backoff_until = None;
        self.daily_snapshot = None;
        self.daily_word_loaded = false;
        if self.mode == Mode::Daily {
            self.clear_reset_pending();
            self.load_mode_snapshot();
            self.message = "Loading today's Le Word.".to_owned();
        }
        self.word_reload_in_flight = true;
        true
    }

    /// Takes in what the fetch started by `ensure_current_daily` gave so far,
    /// at time `now` (milliseconds on the caller's clock). Returns true when
    /// anything changed.
    pub fn poll_word_reload(&mut self, outcome: WordReload, now: u64) -> (changed: bool)
        ensures
            (final(self)@, changed) == old(self)@.after_word_reload(outcome, now),
    {
        if !self.word_reload_in_flight {
            return false;
        }
        match outcome {
            WordReload::Pending => false,
            WordReload::Arrived(word) => {
                self.word_reload_in_flight = false;
                self.word_reload_backoff_until = None;
                self.daily_snapshot = Some(fresh_snapshot(Some(word.puzzle_date), word.answer_word));
                self.daily_word_loaded = true;
                if self.mode == Mode::Daily {
                    self.load_mode_snapshot();
                }
                true
            },
            WordReload::Failed => {
                self.word_reload_in_flight = false;
                self.word_reload_backoff_until = Some(now.saturating_add(WORD_RELOAD_RETRY_MS));
                if self.mode == Mode::Daily {
                    self.message = "Le Word is unavailable. Retrying soon.".to_owned();
                }
                true
            },
        }
    }
}

impl State {
    /// A session for `user_id` that starts on the daily board of
    /// `daily_word` (restored from the first matching saved game, else
    /// fresh) and remembers the first saved replay board.
    pub fn new(user_id: Uuid, daily_word: Option<DailyWord>, saved_games: Vec<Game>) -> (state: State)
        ensures
            state@ == initial_state(user_id, daily_word, saved_games@),
    {
        let ghost games = saved_games@;
        let ghost dw = daily_word;
        let daily_snapshot = match daily_word {
            Some(word) => match find_daily_game(&saved_games, &word) {
                Some(i) => {
                    proof {
                        assert forall|j: int| first_daily_game(games, word, j) implies j == i by {
                            if j < i {
                                assert(!is_daily_game_of(games[j], word));
                            } else if j > i {
                                assert(!is_daily_game_of(games[i as int], word));
                            }
                        }
                    }
                    Some(saved_games[i].snapshot())
                },
                None => Some(fresh_snapshot(Some(word.puzzle_date), word.answer_word)),
            },
            None => None,
        };
        let replay_snapshot = match find_replay_game(&saved_games) {
            Some(i) => {
                proof {
                    assert forall|j: int| first_replay_game(games, j) implies j == i by {
                        if j < i {
                            assert(!is_replay_game(games[j]));
                        } else if j > i {
                            assert(!is_replay_game(games[i as int]));
                        }
                    }
                }
                Some(saved_games[i].snapshot())
            },
            None => None,
        };
        let daily_word_loaded = daily_snapshot.is_some();
        let mut state = State {
            user_id,
            mode: Mode::Daily,
            puzzle_date: None,
            answer: String::new(),
            daily_word_loaded,
            guesses: Vec::new(),
            current_guess: String::new(),
            is_game_over: false,
            won: false,
            show_rules: false,
            reset_pending: false,
            message: String::new(),
            daily_snapshot,
            replay_snapshot,
            word_reload_in_flight: false,
            word_reload_backoff_until: None,
            effects: Vec::new(),
        };
        proof {
            let v = initial_state(user_id, dw, games);
            assert(texts(state.guesses@) =~= seq![]);
            assert(state.effects@.map_values(|e: Effect| e@) =~= seq![]);
            assert(parked_view(state.daily_snapshot) == initial_daily(dw, games));
            assert(parked_view(state.replay_snapshot) == initial_replay(games));
        }
        state.load_mode_snapshot();
        state
    }
}

} // verus!
