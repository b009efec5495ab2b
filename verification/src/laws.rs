//! Properties of a session that span several operations.

use vstd::prelude::*;

use crate::board::{blank_board, fresh_board, Board, EffectView, Mode, PuzzleDate, WordReload, MAX_GUESSES};
use crate::score::{
    before, byte_at, cell_score, is_best_hint, is_lower_byte, key_hint, rank,
    shows_letter, spare_in_answer, spare_in_guess, LetterScore, WORD_LEN,
};
use crate::state::{StateView, WORD_RELOAD_RETRY_MS};
use vstd::utf8::{encode_scalar, encode_utf8};

verus! {

/// Switching from the daily board to the replay board and back restores the
/// daily board as it was: its answer, its guesses and the guess being typed.
pub proof fn lemma_replay_round_trip_restores_daily(v: StateView, new_answer: Seq<char>)
    requires
        v.mode == Mode::Daily,
        v.board.answer.len() > 0,
    ensures
        v.after_show_replay(new_answer).mode == Mode::Replay,
        v.after_show_replay(new_answer).after_show_daily().mode == Mode::Daily,
        v.after_show_replay(new_answer).after_show_daily().board == v.board,
{
}

/// Starting new replay boards while the replay board is on screen leaves
/// the parked daily board alone: switching back restores it.
pub proof fn lemma_new_replay_keeps_daily(v: StateView, first: Seq<char>, second: Seq<char>)
    requires
        v.mode == Mode::Daily,
        v.board.answer.len() > 0,
    ensures
        v.after_show_replay(first).after_new_replay(second).board == fresh_board(None, second),
        v.after_show_replay(first).after_new_replay(second).after_show_daily().board == v.board,
{
}


/// The replay reset takes two presses in a row: the first asks for
/// confirmation and returns false, the second returns true.
pub proof fn lemma_reset_takes_two_presses(v: StateView)
    requires
        !v.reset_pending,
    ensures
        !v.after_replay_reset_request().1,
        v.after_replay_reset_request().0.reset_pending,
        v.after_replay_reset_request().0.after_replay_reset_request().1,
        !v.after_replay_reset_request().0.after_replay_reset_request().0.reset_pending,
{
}

/// Any other input between the two presses withdraws the first one, and its
/// prompt: the next press asks again.
pub proof fn lemma_other_input_withdraws_reset(v: StateView, ch: char, in_word_list: bool, a: Seq<char>)
    ensures
        !v.reset_cleared().reset_pending,
        v.reset_pending ==> v.reset_cleared().message == Seq::<char>::empty(),
        !v.after_push_letter(ch).0.reset_pending,
        !v.after_pop_letter().0.reset_pending,
        !v.after_submit(in_word_list).0.reset_pending,
        !v.after_show_daily().reset_pending,
        !v.after_show_replay(a).reset_pending,
        !v.after_new_replay(a).reset_pending,
        !v.reset_cleared().after_replay_reset_request().1,
{
}

/// Work already queued stays queued, in order: each operation only appends.
pub open spec fn appends_to(before: Seq<EffectView>, after: Seq<EffectView>) -> bool {
    before.len() <= after.len() && after.subrange(0, before.len() as int) == before
}

/// No daily win is ever recorded for a board of the replay mode.
pub proof fn lemma_replay_win_records_no_daily_win(v: StateView, in_word_list: bool)
    requires
        v.mode == Mode::Replay,
    ensures
        appends_to(v.effects, v.after_submit(in_word_list).0.effects),
        forall|i: int|
            v.effects.len() <= i < v.after_submit(in_word_list).0.effects.len() ==> !(
            #[trigger] v.after_submit(in_word_list).0.effects[i] is RecordWin),
{
    let w = v.after_submit(in_word_list).0;
    assert(w.effects.subrange(0, v.effects.len() as int) =~= v.effects);
}

/// Solving a dated daily board records exactly one daily win, with its date
/// and the number of guesses it took; a second submit on the solved board
/// changes nothing and records nothing.
pub proof fn lemma_daily_win_recorded_once(v: StateView, in_word_list: bool, again: bool)
    requires
        v.mode == Mode::Daily,
        v.board.puzzle_date is Some,
        v.board.answer.len() > 0,
        !v.board.is_game_over,
        v.board.current_guess == v.board.answer,
        crate::state::byte_len(v.board.current_guess) == crate::score::WORD_LEN,
        in_word_list,
    ensures
        ({
            let (w, changed) = v.after_submit(in_word_list);
            &&& changed
            &&& w.board.won && w.board.is_game_over
            &&& w.effects.len() == v.effects.len() + 2
            &&& w.effects.last() == EffectView::RecordWin {
                puzzle_date: v.board.puzzle_date->0,
                guess_count: v.board.guesses.len() + 1,
            }
            &&& !(w.effects[v.effects.len() as int] is RecordWin)
            &&& w.after_submit(again).1 == false
            &&& w.after_submit(again).0 == w.reset_cleared()
            &&& w.after_submit(again).0.effects == w.effects
        }),
{
}


/// When the day changes, the stale daily board is dropped at once (on screen
/// in daily mode: a blank board that takes no guesses), a fetch starts, and
/// a second call while it is under way starts no other. A replay board on
/// screen is left as it was.
pub proof fn lemma_rollover_drops_stale_daily(v: StateView, today: PuzzleDate, now: u64, later: u64)
    requires
        v.daily_puzzle_date() != Some(today),
        !v.reload_in_flight,
        v.backoff_until is None,
    ensures
        ({
            let (w, fetch) = v.after_ensure_current_daily(today, now);
            &&& fetch
            &&& w.reload_in_flight
            &&& !w.daily_word_loaded
            &&& w.daily is None
            &&& w.mode == v.mode
            &&& v.mode == Mode::Daily ==> w.board == blank_board()
            &&& v.mode == Mode::Replay ==> w.board == v.board
            &&& w.after_ensure_current_daily(today, later) == (w, false)
            &&& !w.unfinished_daily(today)
        }),
{
}

/// Once the new day's word lands, the daily board is a fresh board of that
/// word and day, and the rollover has nothing more to do that day.
pub proof fn lemma_arrived_word_settles_the_day(
    v: StateView,
    word: crate::board::DailyWord,
    now: u64,
    later: u64,
)
    requires
        v.reload_in_flight,
    ensures
        ({
            let w = v.after_word_reload(WordReload::Arrived(word), now).0;
            let today = word.puzzle_date;
            &&& v.after_word_reload(WordReload::Arrived(word), now).1
            &&& w.daily_word_loaded
            &&& !w.reload_in_flight
            &&& w.daily == Some(fresh_board(Some(today), word.answer_word@))
            &&& w.daily_puzzle_date() == Some(today)
            &&& v.mode == Mode::Daily ==> w.board == fresh_board(Some(today), word.answer_word@)
            &&& v.mode == Mode::Replay ==> w.board == v.board
            &&& w.after_ensure_current_daily(today, later) == (w, false)
        }),
{
}

/// A failed fetch does not settle the day: the rollover holds off for the
/// backoff, then fetches again.
pub proof fn lemma_failed_fetch_retries_after_backoff(
    v: StateView,
    today: PuzzleDate,
    now: u64,
    early: u64,
    late: u64,
)
    requires
        v.reload_in_flight,
        v.daily_puzzle_date() != Some(today),
        early < now.saturating_add(WORD_RELOAD_RETRY_MS),
        now.saturating_add(WORD_RELOAD_RETRY_MS) <= late,
    ensures
        ({
            let w = v.after_word_reload(WordReload::Failed, now).0;
            &&& v.after_word_reload(WordReload::Failed, now).1
            &&& w.daily_puzzle_date() == v.daily_puzzle_date()
            &&& w.daily_word_loaded == v.daily_word_loaded
            &&& w.after_ensure_current_daily(today, early) == (w, false)
            &&& w.after_ensure_current_daily(today, late).1
        }),
{
}

/// While no fetch is under way, a report from one changes nothing.
pub proof fn lemma_stray_report_ignored(v: StateView, outcome: WordReload, now: u64)
    requires
        !v.reload_in_flight,
    ensures
        v.after_word_reload(outcome, now) == (v, false),
{
}


/// Guessing the answer itself marks every cell Correct.
pub proof fn lemma_answer_scores_all_correct(answer: Seq<u8>)
    ensures
        forall|i: int| 0 <= i < WORD_LEN ==> #[trigger] cell_score(answer, answer, i) == LetterScore::Correct,
{
}

/// Among the first `n` cells, those with byte `b` that are marked Present.
pub open spec fn present_count(guess: Seq<u8>, answer: Seq<u8>, b: u8, n: int) -> nat
    decreases n,
{
    if n <= 0 {
        0
    } else {
        present_count(guess, answer, b, n - 1) + if byte_at(guess, n - 1) == Some(b) && cell_score(
            guess,
            answer,
            n - 1,
        ) == LetterScore::Present {
            1nat
        } else {
            0nat
        }
    }
}

/// Duplicate letters: each copy of letter `b` in the answer that is not
/// matched in place marks at most one cell of the guess Present, and the
/// cells it marks are the leftmost unmatched cells holding `b`: among the
/// first `n` cells, exactly the smaller of their unmatched copies of `b`
/// and the answer's spare copies are Present.
pub proof fn lemma_present_cells_use_spare_copies(guess: Seq<u8>, answer: Seq<u8>, b: u8, n: int)
    requires
        is_lower_byte(b),
        0 <= n <= WORD_LEN,
    ensures
        present_count(guess, answer, b, n) == if spare_in_guess(guess, answer, b, n)
            <= spare_in_answer(guess, answer, b, WORD_LEN as int) {
            spare_in_guess(guess, answer, b, n)
        } else {
            spare_in_answer(guess, answer, b, WORD_LEN as int)
        },
        present_count(guess, answer, b, n) <= spare_in_answer(guess, answer, b, WORD_LEN as int),
    decreases n,
{
    if n > 0 {
        lemma_present_cells_use_spare_copies(guess, answer, b, n - 1);
    }
}

/// The keyboard hint for a letter is a single value: two hints that both
/// meet the description are the same.
pub proof fn lemma_keyboard_hint_is_unique(
    guesses: Seq<Seq<char>>,
    answer: Seq<char>,
    letter: char,
    h1: Option<LetterScore>,
    h2: Option<LetterScore>,
)
    requires
        is_best_hint(guesses, answer, letter, h1),
        is_best_hint(guesses, answer, letter, h2),
    ensures
        h1 == h2,
{
    let end = guesses.len() as int;
    match (h1, h2) {
        (None, Some(s)) => {
            let (k, i) = choose|k: int, i: int|
                #[trigger] shows_letter(guesses, k, i, letter) && before(k, i, end, 0) && key_hint(
                    guesses,
                    answer,
                    k,
                    i,
                ) == s;
            assert(shows_letter(guesses, k, i, letter));
        },
        (Some(s), None) => {
            let (k, i) = choose|k: int, i: int|
                #[trigger] shows_letter(guesses, k, i, letter) && before(k, i, end, 0) && key_hint(
                    guesses,
                    answer,
                    k,
                    i,
                ) == s;
            assert(shows_letter(guesses, k, i, letter));
        },
        (Some(s1), Some(s2)) => {
            let (k1, i1) = choose|k: int, i: int|
                #[trigger] shows_letter(guesses, k, i, letter) && before(k, i, end, 0) && key_hint(
                    guesses,
                    answer,
                    k,
                    i,
                ) == s1;
            let (k2, i2) = choose|k: int, i: int|
                #[trigger] shows_letter(guesses, k, i, letter) && before(k, i, end, 0) && key_hint(
                    guesses,
                    answer,
                    k,
                    i,
                ) == s2;
            assert(rank(s1) <= rank(s2));
            assert(rank(s2) <= rank(s1));
        },
        (None, None) => {},
    }
}


/// A board in order: at most six guesses, the sixth guess ends it, a won
/// board is over, and the guess being typed has at most five letters (bytes).
pub open spec fn board_ok(b: Board) -> bool {
    &&& b.guesses.len() <= MAX_GUESSES
    &&& b.guesses.len() == MAX_GUESSES ==> b.is_game_over
    &&& b.won ==> b.is_game_over
    &&& encode_utf8(b.current_guess).len() <= WORD_LEN
}

/// The board on screen and both parked boards are in order.
pub open spec fn boards_ok(v: StateView) -> bool {
    &&& board_ok(v.board)
    &&& v.daily matches Some(b) ==> board_ok(b)
    &&& v.replay matches Some(b) ==> board_ok(b)
}

/// Encoding a text with one more character appends that character's encoding.
pub proof fn lemma_encode_push(s: Seq<char>, c: char)
    ensures
        encode_utf8(s.push(c)) == encode_utf8(s) + encode_scalar(c as u32),
    decreases s.len(),
{
    if s.len() == 0 {
        assert(s.push(c).drop_first() =~= Seq::<char>::empty());
        assert(encode_utf8(Seq::<char>::empty()) == Seq::<u8>::empty());
        assert(encode_utf8(s) == Seq::<u8>::empty());
        assert(encode_utf8(s.push(c)) =~= encode_scalar(c as u32));
    } else {
        assert(s.push(c).drop_first() =~= s.drop_first().push(c));
        lemma_encode_push(s.drop_first(), c);
        assert(encode_utf8(s.push(c)) =~= encode_utf8(s) + encode_scalar(c as u32));
    }
}

pub proof fn lemma_fresh_board_ok(puzzle_date: Option<PuzzleDate>, answer: Seq<char>)
    ensures
        board_ok(fresh_board(puzzle_date, answer)),
{
    assert(encode_utf8(Seq::<char>::empty()) == Seq::<u8>::empty());
}

/// Every operation keeps the boards of a session in order: no board ever
/// holds more than six guesses, goes on after its sixth guess or its win, or
/// is typed past five letters.
pub proof fn lemma_operations_keep_boards_in_order(
    v: StateView,
    ch: char,
    in_word_list: bool,
    new_answer: Seq<char>,
    today: PuzzleDate,
    now: u64,
    outcome: WordReload,
)
    requires
        boards_ok(v),
    ensures
        boards_ok(v.reset_cleared()),
        boards_ok(v.after_submit(in_word_list).0),
        boards_ok(v.after_push_letter(ch).0),
        boards_ok(v.after_pop_letter().0),
        boards_ok(v.after_show_daily()),
        boards_ok(v.after_show_replay(new_answer)),
        boards_ok(v.after_new_replay(new_answer)),
        boards_ok(v.after_replay_reset_request().0),
        boards_ok(v.after_ensure_current_daily(today, now).0),
        boards_ok(v.after_word_reload(outcome, now).0),
{
    lemma_fresh_board_ok(None, new_answer);
    lemma_fresh_board_ok(None, Seq::<char>::empty());
    match outcome {
        WordReload::Arrived(word) => lemma_fresh_board_ok(Some(word.puzzle_date), word.answer_word@),
        _ => {},
    }
    let c = v.board.current_guess;
    lemma_encode_push(c, crate::score::ascii_lower(ch));
    if c.len() > 0 {
        assert(c.drop_last().push(c.last()) =~= c);
        lemma_encode_push(c.drop_last(), c.last());
    }
}


/// A session starts with its boards in order when the saved games it
/// restores are.
pub proof fn lemma_new_session_in_order(
    user_id: uuid::Uuid,
    daily_word: Option<crate::board::DailyWord>,
    games: Seq<crate::board::Game>,
)
    requires
        forall|i: int| 0 <= i < games.len() ==> board_ok(#[trigger] games[i].board()),
    ensures
        boards_ok(crate::state::initial_state(user_id, daily_word, games)),
{
    lemma_fresh_board_ok(None, Seq::<char>::empty());
    match daily_word {
        Some(word) => lemma_fresh_board_ok(Some(word.puzzle_date), word.answer_word@),
        None => {},
    }
    if exists|i: int| crate::state::first_replay_game(games, i) {
        let i = choose|i: int| crate::state::first_replay_game(games, i);
        assert(board_ok(games[i].board()));
    }
    match daily_word {
        Some(word) => if exists|i: int| crate::state::first_daily_game(games, word, i) {
            let i = choose|i: int| crate::state::first_daily_game(games, word, i);
            assert(board_ok(games[i].board()));
        },
        None => {},
    }
}


/// A parked replay board comes back on screen as it was saved, unless its
/// answer is the daily board's: then a fresh board with the new word
/// replaces it.
pub proof fn lemma_parked_replay_returns_unless_it_shares_the_daily_word(
    v: StateView,
    r: Board,
    new_answer: Seq<char>,
)
    requires
        v.mode == Mode::Daily,
        v.board.answer.len() > 0,
        v.replay == Some(r),
    ensures
        r.answer != v.board.answer ==> v.after_show_replay(new_answer).board == r,
        r.answer == v.board.answer ==> v.after_show_replay(new_answer).board == fresh_board(
            None,
            new_answer,
        ),
        r.answer == v.board.answer ==> v.after_show_replay(new_answer).replay == Some(
            fresh_board(None, new_answer),
        ),
{
}

/// Without a parked replay board, showing the replay mode starts a fresh
/// board with the new word.
pub proof fn lemma_first_replay_is_fresh(v: StateView, new_answer: Seq<char>)
    requires
        v.mode == Mode::Daily,
        v.replay is None,
    ensures
        v.after_show_replay(new_answer).board == fresh_board(None, new_answer),
{
}


/// Reconnecting restores the saved boards: the first saved board of the
/// day's word comes back on screen, and the first saved replay board is
/// parked for the replay mode.
pub proof fn lemma_saved_boards_are_restored(
    user_id: uuid::Uuid,
    word: crate::board::DailyWord,
    games: Seq<crate::board::Game>,
    i: int,
    j: int,
)
    ensures
        crate::state::first_daily_game(games, word, i) ==> crate::state::initial_state(
            user_id,
            Some(word),
            games,
        ).board == games[i].board(),
        crate::state::first_replay_game(games, j) ==> crate::state::initial_state(
            user_id,
            Some(word),
            games,
        ).replay == Some(games[j].board()),
{
    if crate::state::first_daily_game(games, word, i) {
        let k = choose|k: int| crate::state::first_daily_game(games, word, k);
        if k < i {
            assert(!crate::state::is_daily_game_of(games[k], word));
        } else if k > i {
            assert(!crate::state::is_daily_game_of(games[i], word));
        }
    }
    if crate::state::first_replay_game(games, j) {
        let k = choose|k: int| crate::state::first_replay_game(games, k);
        if k < j {
            assert(!crate::state::is_replay_game(games[k]));
        } else if k > j {
            assert(!crate::state::is_replay_game(games[j]));
        }
    }
}


/// Work queued for the caller is never dropped or reordered: every operation
/// (all but `take_effects`, which hands it over) only appends to it.
pub proof fn lemma_queued_work_only_grows(
    v: StateView,
    ch: char,
    in_word_list: bool,
    new_answer: Seq<char>,
    today: PuzzleDate,
    now: u64,
    outcome: WordReload,
)
    ensures
        appends_to(v.effects, v.after_submit(in_word_list).0.effects),
        appends_to(v.effects, v.after_push_letter(ch).0.effects),
        appends_to(v.effects, v.after_pop_letter().0.effects),
        appends_to(v.effects, v.after_show_daily().effects),
        appends_to(v.effects, v.after_show_replay(new_answer).effects),
        appends_to(v.effects, v.after_new_replay(new_answer).effects),
        appends_to(v.effects, v.after_replay_reset_request().0.effects),
        appends_to(v.effects, v.after_ensure_current_daily(today, now).0.effects),
        appends_to(v.effects, v.after_word_reload(outcome, now).0.effects),
{
    let n = v.effects.len() as int;
    assert(v.effects.subrange(0, n) =~= v.effects);
    assert(v.after_submit(in_word_list).0.effects.subrange(0, n) =~= v.effects);
    assert(v.after_show_daily().effects.subrange(0, n) =~= v.effects);
    assert(v.after_show_replay(new_answer).effects.subrange(0, n) =~= v.effects);
    assert(v.after_new_replay(new_answer).effects.subrange(0, n) =~= v.effects);
}


/// A call a player can make while the replay board is on screen (anything
/// but the rollover of the day).
pub enum ReplayCall {
    PushLetter(char),
    PopLetter,
    SubmitGuess(bool),
    NewReplay(Seq<char>),
    ShowReplay(Seq<char>),
    RequestReplayReset,
    ClearResetPending,
    OpenRules,
    CloseRules,
}

/// The session after one call.
pub open spec fn after_call(v: StateView, call: ReplayCall) -> StateView {
    match call {
        ReplayCall::PushLetter(ch) => v.after_push_letter(ch).0,
        ReplayCall::PopLetter => v.after_pop_letter().0,
        ReplayCall::SubmitGuess(in_word_list) => v.after_submit(in_word_list).0,
        ReplayCall::NewReplay(a) => v.after_new_replay(a),
        ReplayCall::ShowReplay(a) => v.after_show_replay(a),
        ReplayCall::RequestReplayReset => v.after_replay_reset_request().0,
        ReplayCall::ClearResetPending => v.reset_cleared(),
        ReplayCall::OpenRules => v.after_open_rules(),
        ReplayCall::CloseRules => v.after_close_rules(),
    }
}

/// The session after a run of calls, first to last.
pub open spec fn after_calls(v: StateView, calls: Seq<ReplayCall>) -> StateView
    decreases calls.len(),
{
    if calls.len() == 0 {
        v
    } else {
        after_calls(after_call(v, calls[0]), calls.drop_first())
    }
}

/// While the replay board is on screen, every such call keeps it on screen
/// and leaves the parked daily board as it was.
pub proof fn lemma_replay_calls_keep_parked_daily(v: StateView, calls: Seq<ReplayCall>)
    requires
        v.mode == Mode::Replay,
    ensures
        after_calls(v, calls).mode == Mode::Replay,
        after_calls(v, calls).daily == v.daily,
    decreases calls.len(),
{
    if calls.len() > 0 {
        lemma_replay_calls_keep_parked_daily(after_call(v, calls[0]), calls.drop_first());
    }
}

/// Switching from the daily board to the replay board, playing there for any
/// run of calls, and switching back restores the daily board as it was, with
/// no reset pending.
pub proof fn lemma_any_replay_session_restores_daily(
    v: StateView,
    new_answer: Seq<char>,
    calls: Seq<ReplayCall>,
)
    requires
        v.mode == Mode::Daily,
        v.board.answer.len() > 0,
    ensures
        ({
            let w = after_calls(v.after_show_replay(new_answer), calls).after_show_daily();
            &&& w.mode == Mode::Daily
            &&& w.board == v.board
            &&& !w.reset_pending
        }),
{
    let r = v.after_show_replay(new_answer);
    assert(r.daily == Some(v.board));
    lemma_replay_calls_keep_parked_daily(r, calls);
}


/// The rank of a keyboard hint, with no hint lowest.
pub open spec fn hint_rank(hint: Option<LetterScore>) -> nat {
    match hint {
        None => 0,
        Some(s) => rank(s) as nat,
    }
}

/// When every guess of `gs1` is also among `gs2`, the hint that `gs2` gives
/// a letter is at least the one `gs1` gives.
pub proof fn lemma_hint_grows_with_guesses(
    gs1: Seq<Seq<char>>,
    gs2: Seq<Seq<char>>,
    answer: Seq<char>,
    letter: char,
    h1: Option<LetterScore>,
    h2: Option<LetterScore>,
)
    requires
        forall|k: int| 0 <= k < gs1.len() ==> gs2.contains(#[trigger] gs1[k]),
        is_best_hint(gs1, answer, letter, h1),
        is_best_hint(gs2, answer, letter, h2),
    ensures
        hint_rank(h1) <= hint_rank(h2),
{
    match h1 {
        None => {},
        Some(s) => {
            let (k, i) = choose|k: int, i: int|
                #[trigger] shows_letter(gs1, k, i, letter) && before(k, i, gs1.len() as int, 0)
                    && key_hint(gs1, answer, k, i) == s;
            assert(gs2.contains(gs1[k]));
            let k2 = choose|k2: int| 0 <= k2 < gs2.len() && gs2[k2] == gs1[k];
            assert(shows_letter(gs2, k2, i, letter));
            assert(before(k2, i, gs2.len() as int, 0));
            assert(key_hint(gs2, answer, k2, i) == s);
        },
    }
}

/// A further guess never lowers the keyboard hint of a letter.
pub proof fn lemma_hint_never_drops(
    gs: Seq<Seq<char>>,
    guess: Seq<char>,
    answer: Seq<char>,
    letter: char,
    h1: Option<LetterScore>,
    h2: Option<LetterScore>,
)
    requires
        is_best_hint(gs, answer, letter, h1),
        is_best_hint(gs.push(guess), answer, letter, h2),
    ensures
        hint_rank(h1) <= hint_rank(h2),
{
    assert forall|k: int| 0 <= k < gs.len() implies gs.push(guess).contains(#[trigger] gs[k]) by {
        assert(gs.push(guess)[k] == gs[k]);
    }
    lemma_hint_grows_with_guesses(gs, gs.push(guess), answer, letter, h1, h2);
}

/// The keyboard hint depends on which guesses were made, not on their
/// order: two lists of guesses that are reorderings of each other give
/// every letter the same hint.
pub proof fn lemma_hint_ignores_guess_order(
    gs1: Seq<Seq<char>>,
    gs2: Seq<Seq<char>>,
    answer: Seq<char>,
    letter: char,
    h1: Option<LetterScore>,
    h2: Option<LetterScore>,
)
    requires
        gs1.to_multiset() == gs2.to_multiset(),
        is_best_hint(gs1, answer, letter, h1),
        is_best_hint(gs2, answer, letter, h2),
    ensures
        h1 == h2,
{
    broadcast use vstd::seq_lib::group_to_multiset_ensures;

    assert forall|k: int| 0 <= k < gs1.len() implies gs2.contains(#[trigger] gs1[k]) by {
        assert(gs1.contains(gs1[k]));
        assert(gs1.to_multiset().count(gs1[k]) > 0);
    }
    assert forall|k: int| 0 <= k < gs2.len() implies gs1.contains(#[trigger] gs2[k]) by {
        assert(gs2.contains(gs2[k]));
        assert(gs2.to_multiset().count(gs2[k]) > 0);
    }
    lemma_hint_grows_with_guesses(gs1, gs2, answer, letter, h1, h2);
    lemma_hint_grows_with_guesses(gs2, gs1, answer, letter, h2, h1);
}


/// Among the first `n` cells, those scored `score`.
pub open spec fn count_scored(guess: Seq<u8>, answer: Seq<u8>, score: LetterScore, n: int) -> nat
    decreases n,
{
    if n <= 0 {
        0
    } else {
        count_scored(guess, answer, score, n - 1) + if cell_score(guess, answer, n - 1) == score {
            1nat
        } else {
            0nat
        }
    }
}

/// The `k`-th lowercase letter, counting `a` as the first.
pub open spec fn letter(k: int) -> u8 {
    (96 + k) as u8
}

/// Present cells among the first `n` cells, counted letter by letter over
/// the first `k` letters of the alphabet.
pub open spec fn present_by_letter(guess: Seq<u8>, answer: Seq<u8>, n: int, k: int) -> nat
    decreases k,
{
    if k <= 0 {
        0
    } else {
        present_by_letter(guess, answer, n, k - 1) + present_count(guess, answer, letter(k), n)
    }
}

/// Summed over the first `k` letters of the alphabet: the smaller of the
/// unmatched copies of the letter in the guess and in the answer.
pub open spec fn spare_pairs(guess: Seq<u8>, answer: Seq<u8>, k: int) -> nat
    decreases k,
{
    if k <= 0 {
        0
    } else {
        let g = spare_in_guess(guess, answer, letter(k), WORD_LEN as int);
        let a = spare_in_answer(guess, answer, letter(k), WORD_LEN as int);
        spare_pairs(guess, answer, k - 1) + if g <= a {
            g
        } else {
            a
        }
    }
}

proof fn lemma_correct_count_symmetric(guess: Seq<u8>, answer: Seq<u8>, n: int)
    ensures
        count_scored(guess, answer, LetterScore::Correct, n) == count_scored(
            answer,
            guess,
            LetterScore::Correct,
            n,
        ),
    decreases n,
{
    if n > 0 {
        lemma_correct_count_symmetric(guess, answer, n - 1);
        assert((cell_score(guess, answer, n - 1) == LetterScore::Correct) == (cell_score(
            answer,
            guess,
            n - 1,
        ) == LetterScore::Correct));
    }
}

proof fn lemma_spare_swap(guess: Seq<u8>, answer: Seq<u8>, b: u8, n: int)
    ensures
        spare_in_guess(answer, guess, b, n) == spare_in_answer(guess, answer, b, n),
        spare_in_answer(answer, guess, b, n) == spare_in_guess(guess, answer, b, n),
    decreases n,
{
    if n > 0 {
        lemma_spare_swap(guess, answer, b, n - 1);
    }
}

proof fn lemma_spare_pairs_symmetric(guess: Seq<u8>, answer: Seq<u8>, k: int)
    ensures
        spare_pairs(guess, answer, k) == spare_pairs(answer, guess, k),
    decreases k,
{
    if k > 0 {
        lemma_spare_pairs_symmetric(guess, answer, k - 1);
        lemma_spare_swap(guess, answer, letter(k), WORD_LEN as int);
    }
}

proof fn lemma_present_by_letter_is_spare_pairs(guess: Seq<u8>, answer: Seq<u8>, k: int)
    requires
        k <= 26,
    ensures
        present_by_letter(guess, answer, WORD_LEN as int, k) == spare_pairs(guess, answer, k),
    decreases k,
{
    if k > 0 {
        lemma_present_by_letter_is_spare_pairs(guess, answer, k - 1);
        lemma_present_cells_use_spare_copies(guess, answer, letter(k), WORD_LEN as int);
    }
}

/// Going from `n - 1` cells to `n` adds, over the first `k` letters, one
/// when cell `n - 1` is Present with one of those letters.
proof fn lemma_present_by_letter_step(guess: Seq<u8>, answer: Seq<u8>, n: int, k: int)
    requires
        n > 0,
        0 <= k <= 26,
    ensures
        present_by_letter(guess, answer, n, k) == present_by_letter(guess, answer, n - 1, k) + if (
        cell_score(guess, answer, n - 1) == LetterScore::Present && byte_at(guess, n - 1) is Some
            && 97 <= byte_at(guess, n - 1)->0 < 97 + k) {
            1nat
        } else {
            0nat
        },
    decreases k,
{
    if k > 0 {
        lemma_present_by_letter_step(guess, answer, n, k - 1);
    }
}

proof fn lemma_present_total(guess: Seq<u8>, answer: Seq<u8>, n: int)
    ensures
        count_scored(guess, answer, LetterScore::Present, n) == present_by_letter(guess, answer, n, 26),
    decreases n,
{
    if n <= 0 {
        lemma_present_by_letter_zero(guess, answer, n, 26);
    } else {
        lemma_present_total(guess, answer, n - 1);
        lemma_present_by_letter_step(guess, answer, n, 26);
    }
}

proof fn lemma_present_by_letter_zero(guess: Seq<u8>, answer: Seq<u8>, n: int, k: int)
    requires
        n <= 0,
    ensures
        present_by_letter(guess, answer, n, k) == 0,
    decreases k,
{
    if k > 0 {
        lemma_present_by_letter_zero(guess, answer, n, k - 1);
    }
}

/// Swapping guess and answer keeps how many cells are Correct and how many
/// are Present: the Present cells number, over all lowercase letters, the
/// smaller of the unmatched copies of the letter in the guess and in the
/// answer, which does not depend on which word is which.
pub proof fn lemma_scores_symmetric(guess: Seq<u8>, answer: Seq<u8>)
    ensures
        count_scored(guess, answer, LetterScore::Correct, WORD_LEN as int) == count_scored(
            answer,
            guess,
            LetterScore::Correct,
            WORD_LEN as int,
        ),
        count_scored(guess, answer, LetterScore::Present, WORD_LEN as int) == spare_pairs(
            guess,
            answer,
            26,
        ),
        count_scored(guess, answer, LetterScore::Present, WORD_LEN as int) == count_scored(
            answer,
            guess,
            LetterScore::Present,
            WORD_LEN as int,
        ),
{
    lemma_correct_count_symmetric(guess, answer, WORD_LEN as int);
    lemma_present_total(guess, answer, WORD_LEN as int);
    lemma_present_total(answer, guess, WORD_LEN as int);
    lemma_present_by_letter_is_spare_pairs(guess, answer, 26);
    lemma_present_by_letter_is_spare_pairs(answer, guess, 26);
    lemma_spare_pairs_symmetric(guess, answer, 26);
}


/// Only the answer itself wins: when a submit turns a board into a won one,
/// or queues a daily win, the guess submitted was the answer. A guess that
/// differs from the answer leaves the board not won and queues no win.
pub proof fn lemma_only_the_answer_wins(v: StateView, in_word_list: bool)
    ensures
        ({
            let w = v.after_submit(in_word_list).0;
            &&& (w.board.won && !v.board.won) ==> v.board.current_guess == v.board.answer
            &&& v.board.current_guess != v.board.answer ==> w.board.won == v.board.won
            &&& appends_to(v.effects, w.effects)
            &&& forall|i: int|
                v.effects.len() <= i < w.effects.len() && (#[trigger] w.effects[i] is RecordWin)
                    ==> v.board.current_guess == v.board.answer
        }),
{
    let w = v.after_submit(in_word_list).0;
    assert(w.effects.subrange(0, v.effects.len() as int) =~= v.effects);
}

/// A live miss: a five-byte word of the list that is not the answer, on a
/// board neither won nor over, is recorded as a guess, clears the typed
/// letters, is not a win, and ends the board exactly when it is the sixth.
pub proof fn lemma_a_miss_is_recorded(v: StateView)
    requires
        v.board.answer.len() > 0,
        !v.board.is_game_over,
        !v.board.won,
        encode_utf8(v.board.current_guess).len() == WORD_LEN,
        v.board.current_guess != v.board.answer,
    ensures
        ({
            let (w, changed) = v.after_submit(true);
            &&& changed
            &&& !w.board.won
            &&& w.board.guesses == v.board.guesses.push(v.board.current_guess)
            &&& w.board.current_guess.len() == 0
            &&& w.board.is_game_over == (v.board.guesses.len() + 1 >= MAX_GUESSES)
            &&& w.board.answer == v.board.answer
        }),
{
}

/// An unfinished daily run needs a word at hand and a daily board of that
/// day with at least one submitted guess and not over; a daily board on
/// screen with those is one.
pub proof fn lemma_unfinished_daily_needs_a_guess(v: StateView, today: PuzzleDate)
    ensures
        v.unfinished_daily(today) ==> {
            let b = if v.mode == Mode::Daily {
                v.board
            } else {
                v.daily->0
            };
            &&& v.daily_word_loaded
            &&& (v.mode == Mode::Replay ==> v.daily is Some)
            &&& b.guesses.len() > 0
            &&& !b.is_game_over
            &&& b.puzzle_date == Some(today)
        },
        (v.mode == Mode::Daily && v.daily_word_loaded && v.board.guesses.len() > 0
            && !v.board.is_game_over && v.board.puzzle_date == Some(today)) ==> v.unfinished_daily(
            today,
        ),
        !v.unfinished_daily(today) || v.daily_puzzle_date() == Some(today),
{
}

/// A fresh board is never an unfinished run.
pub proof fn lemma_fresh_daily_is_not_unfinished(v: StateView, today: PuzzleDate, answer: Seq<char>)
    requires
        v.mode == Mode::Daily ==> v.board == fresh_board(Some(today), answer),
        v.mode == Mode::Replay ==> v.daily == Some(fresh_board(Some(today), answer)),
    ensures
        !v.unfinished_daily(today),
{
}

/// Every ASCII letter, of either case, is taken on a live board with fewer
/// than five letters typed, and it is typed in lowercase.
pub proof fn lemma_every_letter_is_taken(v: StateView, ch: char)
    requires
        v.board.answer.len() > 0,
        !v.board.is_game_over,
        encode_utf8(v.board.current_guess).len() < WORD_LEN,
        'a' <= ch <= 'z' || 'A' <= ch <= 'Z',
    ensures
        v.after_push_letter(ch).1,
        v.after_push_letter(ch).0.board.current_guess.len() == v.board.current_guess.len() + 1,
        v.after_push_letter(ch).0.board.current_guess.drop_last() == v.board.current_guess,
        'a' <= ch <= 'z' ==> v.after_push_letter(ch).0.board.current_guess.last() == ch,
        'A' <= ch <= 'Z' ==> v.after_push_letter(ch).0.board.current_guess.last() == ((ch as u32)
            + 32) as char,
        v.after_push_letter(ch).0.board.answer == v.board.answer,
        v.after_push_letter(ch).0.board.guesses == v.board.guesses,
{
    let c = v.after_push_letter(ch).0.board.current_guess;
    assert(c.drop_last() =~= v.board.current_guess);
}

/// Leaving the replay board parks it as it stands, typed letters and all,
/// and coming back to it (when its word is not the daily one) restores it.
pub proof fn lemma_show_daily_parks_the_replay_board(v: StateView, new_answer: Seq<char>)
    requires
        v.mode == Mode::Replay,
        v.board.answer.len() > 0,
    ensures
        v.after_show_daily().replay == Some(v.board),
        v.after_show_daily().mode == Mode::Daily,
        (v.daily is None || v.daily->0.answer != v.board.answer) ==> v.after_show_daily().after_show_replay(
            new_answer,
        ).board == v.board,
{
}

/// Starting a new replay board straight from the daily board parks the
/// daily board as it stands, and switching back restores it.
pub proof fn lemma_new_replay_from_daily_parks_it(v: StateView, new_answer: Seq<char>)
    requires
        v.mode == Mode::Daily,
        v.board.answer.len() > 0,
    ensures
        v.after_new_replay(new_answer).daily == Some(v.board),
        v.after_new_replay(new_answer).mode == Mode::Replay,
        v.after_new_replay(new_answer).board == fresh_board(None, new_answer),
        v.after_new_replay(new_answer).after_show_daily().board == v.board,
{
}


/// A submit that is not taken as a guess (no word at hand, a board already
/// over, a guess of other than five bytes, or a word not in the list) leaves
/// the board and the queued work as they were. (The typed text's length in
/// bytes fits a `usize`, as that of every string in memory does.)
pub proof fn lemma_rejected_submit_keeps_the_board(v: StateView, in_word_list: bool)
    requires
        v.board.answer.len() == 0 || v.board.is_game_over || encode_utf8(v.board.current_guess).len()
            != WORD_LEN || !in_word_list,
        encode_utf8(v.board.current_guess).len() <= usize::MAX,
    ensures
        v.after_submit(in_word_list).0.board == v.board,
        v.after_submit(in_word_list).0.effects == v.effects,
        v.after_submit(in_word_list).0.daily == v.daily,
        v.after_submit(in_word_list).0.replay == v.replay,
        v.board.answer.len() > 0 && v.board.is_game_over ==> !v.after_submit(in_word_list).1,
{
}

/// Submitting the answer on a live board wins it: the guess is recorded,
/// the board is won and over, and the board is saved.
pub proof fn lemma_the_answer_wins(v: StateView)
    requires
        v.board.answer.len() > 0,
        !v.board.is_game_over,
        encode_utf8(v.board.current_guess).len() == WORD_LEN,
        v.board.current_guess == v.board.answer,
    ensures
        ({
            let (w, changed) = v.after_submit(true);
            &&& changed
            &&& w.board.won
            &&& w.board.is_game_over
            &&& w.board.guesses == v.board.guesses.push(v.board.answer)
            &&& w.effects[v.effects.len() as int] == EffectView::SaveGame {
                mode: v.mode,
                board: w.board,
            }
        }),
{
}

/// No character is typed on a board without a word or over, on a guess
/// that already has five bytes, or when it is not an ASCII letter. (The
/// typed text's length in bytes fits a `usize`.)
pub proof fn lemma_no_letter_otherwise(v: StateView, ch: char)
    requires
        v.board.answer.len() == 0 || v.board.is_game_over || encode_utf8(v.board.current_guess).len()
            >= WORD_LEN || !('a' <= ch <= 'z' || 'A' <= ch <= 'Z'),
        encode_utf8(v.board.current_guess).len() <= usize::MAX,
    ensures
        !v.after_push_letter(ch).1,
        v.after_push_letter(ch).0.board == v.board,
{
}

/// Erasing on a live board with letters typed removes the last one.
pub proof fn lemma_pop_erases_the_last_letter(v: StateView)
    requires
        v.board.answer.len() > 0,
        !v.board.is_game_over,
        v.board.current_guess.len() > 0,
    ensures
        v.after_pop_letter().1,
        v.after_pop_letter().0.board.current_guess == v.board.current_guess.drop_last(),
        v.after_pop_letter().0.board.guesses == v.board.guesses,
{
}

/// Showing the mode already on screen changes no board.
pub proof fn lemma_showing_the_same_mode_changes_no_board(v: StateView, new_answer: Seq<char>)
    ensures
        v.mode == Mode::Daily ==> v.after_show_daily().board == v.board && v.after_show_daily().effects
            == v.effects,
        v.mode == Mode::Replay ==> v.after_show_replay(new_answer).board == v.board
            && v.after_show_replay(new_answer).effects == v.effects,
{
}

} // verus!
