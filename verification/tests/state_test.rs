use le_word::board::{DailyWord, Effect, Game, Mode, PuzzleDate, WordReload, MAX_GUESSES};
use le_word::score::LetterScore;
use le_word::state::{State, WORD_RELOAD_RETRY_MS};
use uuid::Uuid;

const TODAY: PuzzleDate = PuzzleDate { days_from_ce: 739_500 };
const NOW: u64 = 1_000_000;

fn daily_word(puzzle_date: PuzzleDate, answer: &str) -> DailyWord {
    DailyWord { puzzle_date, answer_word: answer.to_string() }
}

fn new_state(daily: Option<DailyWord>, games: Vec<Game>) -> State {
    State::new(Uuid::nil(), daily, games)
}

fn yesterdays_state() -> (State, PuzzleDate, PuzzleDate) {
    let today = TODAY;
    let yesterday = PuzzleDate { days_from_ce: today.days_from_ce - 1 };
    let state = new_state(Some(daily_word(yesterday, "crane")), Vec::new());
    (state, today, yesterday)
}

fn todays_word(today: PuzzleDate) -> DailyWord {
    daily_word(today, "slate")
}

fn type_word(state: &mut State, word: &str) {
    for ch in word.chars() {
        assert!(state.push_letter(ch));
    }
}

fn count_wins(effects: &[Effect]) -> usize {
    effects.iter().filter(|e| matches!(e, Effect::RecordWin { .. })).count()
}

#[test]
fn replay_restores_the_in_progress_daily_board() {
    let mut state = new_state(Some(daily_word(TODAY, "hunch")), Vec::new());
    state.current_guess = "glass".to_string();

    state.show_replay("apple".to_string());

    assert_eq!(state.mode, Mode::Replay);
    assert!(!state.is_daily_active());
    assert_ne!(state.answer, "hunch");
    assert!(state.current_guess.is_empty());
    let first_replay_answer = state.answer.clone();

    state.new_replay("crane".to_string());

    assert_ne!(state.answer, first_replay_answer);
    state.show_daily();
    assert_eq!(state.mode, Mode::Daily);
    assert!(state.is_daily_active());
    assert_eq!(state.answer, "hunch");
    assert_eq!(state.current_guess, "glass");
}

#[test]
fn saved_replay_board_is_restored_after_reconnect() {
    let replay_game = Game {
        mode: "replay".to_string(),
        puzzle_date: None,
        answer_word: "apple".to_string(),
        guesses: vec!["shade".to_string()],
        current_guess: "cl".to_string(),
        is_game_over: false,
        won: false,
    };
    let mut state = new_state(Some(daily_word(TODAY, "hunch")), vec![replay_game]);

    state.show_replay("crane".to_string());

    assert_eq!(state.mode, Mode::Replay);
    assert_eq!(state.answer, "apple");
    assert_eq!(state.guesses, vec!["shade"]);
    assert_eq!(state.current_guess, "cl");
}

#[test]
fn saved_replay_rotates_if_its_answer_matches_todays_daily() {
    let replay_game = Game {
        mode: "replay".to_string(),
        puzzle_date: None,
        answer_word: "hunch".to_string(),
        guesses: vec!["hunch".to_string()],
        current_guess: String::new(),
        is_game_over: true,
        won: true,
    };
    let mut state = new_state(Some(daily_word(TODAY, "hunch")), vec![replay_game]);

    state.show_replay("crane".to_string());

    assert_eq!(state.mode, Mode::Replay);
    assert_ne!(state.answer, "hunch");
    assert!(state.guesses.is_empty());
    assert!(!state.is_game_over);
}

#[test]
fn random_replay_requires_a_double_press() {
    let mut state = new_state(Some(daily_word(TODAY, "hunch")), Vec::new());

    assert!(!state.request_replay_reset());
    assert_eq!(state.mode, Mode::Daily);
    assert!(state.reset_pending);

    state.clear_reset_pending();
    assert!(!state.reset_pending);
    assert!(state.message.is_empty());

    assert!(!state.request_replay_reset());
    assert!(state.reset_pending);
    assert!(state.request_replay_reset());
    state.new_replay("crane".to_string());
    assert_eq!(state.mode, Mode::Replay);
    assert!(!state.reset_pending);
    assert_ne!(state.answer, "hunch");
}

#[test]
fn replay_win_does_not_record_a_daily_win() {
    let mut state = new_state(Some(daily_word(TODAY, "hunch")), Vec::new());
    state.show_replay("crane".to_string());
    state.current_guess = state.answer.clone();

    assert!(state.submit_guess(true));
    assert!(state.won);
    assert_eq!(count_wins(&state.take_effects()), 0);
}

#[test]
fn rolling_over_the_day_clears_yesterdays_word() {
    let (mut state, today, yesterday) = yesterdays_state();
    state.guesses.push("slate".to_string());
    assert_eq!(state.puzzle_date, Some(yesterday));

    assert!(state.ensure_current_daily(today, NOW), "the day should roll over");
    assert!(state.guesses.is_empty(), "yesterday's guesses are still up");
    assert!(
        !state.daily_word_loaded,
        "the board must not accept guesses until today's word lands"
    );

    // A fetch is in flight: no duplicate fetch on the next tick.
    assert!(!state.ensure_current_daily(today, NOW));

    // The word lands; only now does the round own today's date.
    assert!(state.poll_word_reload(WordReload::Arrived(todays_word(today)), NOW));
    assert_eq!(state.puzzle_date, Some(today));
    assert!(state.daily_word_loaded);

    // Same day again: nothing to do.
    assert!(!state.ensure_current_daily(today, NOW));
}

#[test]
fn failed_word_fetch_retries_after_backoff() {
    let (mut state, today, _yesterday) = yesterdays_state();

    assert!(state.ensure_current_daily(today, NOW));
    assert!(
        state.poll_word_reload(WordReload::Failed, NOW),
        "the dead fetch should be noticed"
    );
    // The stale board is gone and today is not banked, so the rollover
    // still has a reason to run again.
    assert_eq!(state.puzzle_date, None, "a failure must not bank today");
    assert!(!state.daily_word_loaded);

    // Inside the backoff window: no hammering.
    assert!(!state.ensure_current_daily(today, NOW));

    // Once the backoff passes, the rollover tries again...
    assert!(
        state.ensure_current_daily(today, NOW + WORD_RELOAD_RETRY_MS),
        "the fetch should retry"
    );

    // ...and a successful retry brings the board back for good.
    assert!(state.poll_word_reload(WordReload::Arrived(todays_word(today)), NOW));
    assert_eq!(state.puzzle_date, Some(today));
    assert!(state.daily_word_loaded, "the retried word should install");
    assert!(!state.ensure_current_daily(today, NOW));
}

#[test]
fn rolling_over_the_day_leaves_the_replay_board_alone() {
    let (mut state, today, _yesterday) = yesterdays_state();
    state.guesses.push("slate".to_string());
    state.show_replay("apple".to_string());
    let replay_answer = state.answer.clone();
    state.guesses.push("crate".to_string());
    state.current_guess = "sl".to_string();

    assert!(state.ensure_current_daily(today, NOW), "the parked daily should roll");
    assert_eq!(state.mode, Mode::Replay);
    assert_eq!(state.answer, replay_answer);
    assert_eq!(state.guesses, vec!["crate"]);
    assert_eq!(state.current_guess, "sl");
    assert!(!state.has_unfinished_daily(today));
    assert!(
        !state.ensure_current_daily(today, NOW),
        "a fetch is already in flight"
    );

    // Stand in for the fetch landing today's word.
    assert!(state.poll_word_reload(WordReload::Arrived(todays_word(today)), NOW));
    assert_eq!(state.mode, Mode::Replay);
    assert_eq!(state.answer, replay_answer);
    assert_eq!(state.guesses, vec!["crate"]);

    state.show_daily();
    assert_eq!(state.mode, Mode::Daily);
    assert_eq!(state.puzzle_date, Some(today));
    assert_eq!(state.answer, "slate");
    assert!(
        state.guesses.is_empty(),
        "yesterday's guesses must not carry over"
    );
    assert!(state.daily_word_loaded);
    assert!(!state.ensure_current_daily(today, NOW));
}

#[test]
fn a_new_session_starts_on_the_daily_board() {
    let state = new_state(Some(daily_word(TODAY, "hunch")), Vec::new());
    assert_eq!(state.mode, Mode::Daily);
    assert_eq!(state.answer, "hunch");
    assert_eq!(state.puzzle_date, Some(TODAY));
    assert!(state.daily_word_loaded);
    assert_eq!(state.message, "Guess today's Le Word.");
    assert_eq!(state.guess_number(), 1);
}

#[test]
fn a_session_without_a_word_takes_no_guesses() {
    let mut state = new_state(None, Vec::new());
    assert!(!state.daily_word_loaded);
    assert!(state.answer.is_empty());
    assert_eq!(state.message, "Le Word is unavailable. Try again soon.");
    assert!(!state.push_letter('a'));
    assert!(!state.pop_letter());
    assert!(state.submit_guess(true));
    assert_eq!(state.message, "Le Word is unavailable. Try again soon.");
    assert!(state.take_effects().is_empty());
}

#[test]
fn a_saved_daily_board_is_restored() {
    let game = Game {
        mode: "daily".to_string(),
        puzzle_date: Some(TODAY),
        answer_word: "hunch".to_string(),
        guesses: vec!["crane".to_string()],
        current_guess: "sh".to_string(),
        is_game_over: false,
        won: false,
    };
    let other_day = Game {
        mode: "daily".to_string(),
        puzzle_date: Some(PuzzleDate { days_from_ce: 1 }),
        answer_word: "hunch".to_string(),
        guesses: vec!["hunch".to_string()],
        current_guess: String::new(),
        is_game_over: true,
        won: true,
    };
    let state = new_state(Some(daily_word(TODAY, "hunch")), vec![other_day, game]);
    assert_eq!(state.guesses, vec!["crane"]);
    assert_eq!(state.current_guess, "sh");
    assert_eq!(state.message, "Keep going.");
    assert!(state.has_unfinished_daily(TODAY));
    assert!(!state.has_unfinished_daily(PuzzleDate { days_from_ce: 2 }));
    assert_eq!(state.guess_number(), 2);
}

#[test]
fn typing_takes_letters_in_lowercase_up_to_five() {
    let mut state = new_state(Some(daily_word(TODAY, "hunch")), Vec::new());
    assert!(state.push_letter('C'));
    assert!(!state.push_letter('1'));
    type_word(&mut state, "rane");
    assert_eq!(state.current_guess, "crane");
    assert!(!state.push_letter('s'));
    assert!(state.pop_letter());
    assert_eq!(state.current_guess, "cran");
    assert!(state.message.is_empty());
    assert!(state.pop_letter());
    assert!(state.pop_letter());
    assert!(state.pop_letter());
    assert!(state.pop_letter());
    assert!(!state.pop_letter());
}

#[test]
fn submit_reports_short_and_unknown_words() {
    let mut state = new_state(Some(daily_word(TODAY, "hunch")), Vec::new());
    type_word(&mut state, "cran");
    assert!(state.submit_guess(true));
    assert_eq!(state.message, "Not enough letters.");
    type_word(&mut state, "e");
    assert!(state.submit_guess(false));
    assert_eq!(state.message, "Not in word list.");
    assert!(state.guesses.is_empty());
    assert!(state.submit_guess(true));
    assert_eq!(state.message, "Try again.");
    assert_eq!(state.guesses, vec!["crane"]);
    assert!(state.current_guess.is_empty());
    assert_eq!(state.guess_number(), 2);
}

#[test]
fn a_daily_win_is_recorded_once() {
    let mut state = new_state(Some(daily_word(TODAY, "hunch")), Vec::new());
    type_word(&mut state, "crane");
    assert!(state.submit_guess(true));
    type_word(&mut state, "hunch");
    assert!(state.submit_guess(true));
    assert!(state.won);
    assert!(state.is_game_over);
    assert_eq!(state.message, "Solved in 2.");
    assert_eq!(state.guess_number(), 2);
    let effects = state.take_effects();
    assert_eq!(count_wins(&effects), 1);
    match effects.last() {
        Some(Effect::RecordWin { puzzle_date, guess_count }) => {
            assert_eq!(*puzzle_date, TODAY);
            assert_eq!(*guess_count, 2);
        }
        other => panic!("expected a recorded win, got {:?}", other),
    }
    // The board is over: nothing more is taken or recorded.
    assert!(!state.push_letter('a'));
    assert!(!state.submit_guess(true));
    assert!(state.take_effects().is_empty());
}

#[test]
fn a_sixth_miss_ends_the_board() {
    let mut state = new_state(Some(daily_word(TODAY, "hunch")), Vec::new());
    for _ in 0..MAX_GUESSES {
        type_word(&mut state, "crane");
        assert!(state.submit_guess(true));
    }
    assert!(state.is_game_over);
    assert!(!state.won);
    assert_eq!(state.guesses.len(), MAX_GUESSES);
    assert_eq!(state.message, "The word was HUNCH.");
    assert_eq!(state.guess_number(), MAX_GUESSES);
    let effects = state.take_effects();
    assert_eq!(effects.len(), MAX_GUESSES);
    assert_eq!(count_wins(&effects), 0);
    match effects.last() {
        Some(Effect::SaveGame { mode, board }) => {
            assert_eq!(*mode, Mode::Daily);
            assert!(board.is_game_over);
            assert_eq!(board.guesses.len(), MAX_GUESSES);
        }
        other => panic!("expected a save, got {:?}", other),
    }
}

#[test]
fn a_restored_won_board_says_so() {
    let game = Game {
        mode: "daily".to_string(),
        puzzle_date: Some(TODAY),
        answer_word: "hunch".to_string(),
        guesses: vec!["crane".to_string(), "hunch".to_string()],
        current_guess: String::new(),
        is_game_over: true,
        won: true,
    };
    let state = new_state(Some(daily_word(TODAY, "hunch")), vec![game]);
    assert_eq!(state.message, "Solved in 2.");
    assert!(!state.has_unfinished_daily(TODAY));
}

#[test]
fn the_replay_reset_prompt_is_withdrawn_by_typing() {
    let mut state = new_state(Some(daily_word(TODAY, "hunch")), Vec::new());
    assert!(!state.request_replay_reset());
    assert_eq!(state.message, "Press 0 again for a new random word.");
    assert!(state.push_letter('a'));
    assert!(!state.reset_pending);
    assert!(!state.request_replay_reset());
    state.open_rules();
    assert!(state.show_rules);
    assert!(!state.reset_pending);
    assert!(state.message.is_empty());
    state.close_rules();
    assert!(!state.show_rules);
}

#[test]
fn hints_follow_the_board_on_screen() {
    let mut state = new_state(Some(daily_word(TODAY, "apple")), Vec::new());
    type_word(&mut state, "allee");
    assert!(state.submit_guess(true));
    assert_eq!(
        state.scores_for_guess("allee"),
        [
            LetterScore::Correct,
            LetterScore::Present,
            LetterScore::Absent,
            LetterScore::Absent,
            LetterScore::Correct,
        ]
    );
    assert_eq!(state.score_for_keyboard_letter('l'), Some(LetterScore::Present));
    assert_eq!(state.score_for_keyboard_letter('q'), None);
}

#[test]
fn switching_modes_saves_the_boards() {
    let mut state = new_state(Some(daily_word(TODAY, "hunch")), Vec::new());
    state.show_replay("apple".to_string());
    let effects = state.take_effects();
    assert_eq!(effects.len(), 2);
    match (&effects[0], &effects[1]) {
        (Effect::SaveGame { mode: first, board: daily }, Effect::SaveGame { mode: second, board: replay }) => {
            assert_eq!(*first, Mode::Daily);
            assert_eq!(daily.answer, "hunch");
            assert_eq!(*second, Mode::Replay);
            assert_eq!(replay.answer, "apple");
        }
        other => panic!("expected two saves, got {:?}", other),
    }
    assert_eq!(state.message, "Guess a random Le Word.");
    assert_eq!(state.daily_answer(), Some("hunch".to_string()));
}

#[test]
fn a_report_without_a_fetch_changes_nothing() {
    let mut state = new_state(Some(daily_word(TODAY, "hunch")), Vec::new());
    assert!(!state.poll_word_reload(WordReload::Failed, NOW));
    assert!(!state.poll_word_reload(WordReload::Pending, NOW));
    assert!(!state.ensure_current_daily(TODAY, NOW));
}

#[test]
fn a_failed_fetch_on_the_daily_board_says_it_retries() {
    let (mut state, today, _yesterday) = yesterdays_state();
    assert!(state.ensure_current_daily(today, NOW));
    assert_eq!(state.message, "Loading today's Le Word.");
    assert!(!state.poll_word_reload(WordReload::Pending, NOW));
    assert!(state.poll_word_reload(WordReload::Failed, NOW));
    assert_eq!(state.message, "Le Word is unavailable. Retrying soon.");
    assert!(!state.ensure_current_daily(today, NOW + WORD_RELOAD_RETRY_MS - 1));
}

#[test]
fn mode_names() {
    assert_eq!(Mode::Daily.as_str(), "daily");
    assert_eq!(Mode::Replay.as_str(), "replay");
}

#[test]
fn queued_work_accumulates_in_order() {
    let mut state = new_state(Some(daily_word(TODAY, "hunch")), Vec::new());
    type_word(&mut state, "crane");
    assert!(state.submit_guess(true));
    state.show_replay("apple".to_string());
    type_word(&mut state, "apple");
    assert!(state.submit_guess(true));
    let effects = state.take_effects();
    let saved: Vec<(Mode, String, usize)> = effects
        .iter()
        .map(|e| match e {
            Effect::SaveGame { mode, board } => (*mode, board.answer.clone(), board.guesses.len()),
            Effect::RecordWin { .. } => panic!("a replay win records no daily win"),
        })
        .collect();
    assert_eq!(
        saved,
        vec![
            (Mode::Daily, "hunch".to_string(), 1),
            (Mode::Daily, "hunch".to_string(), 1),
            (Mode::Replay, "apple".to_string(), 0),
            (Mode::Replay, "apple".to_string(), 1),
        ]
    );
    assert!(state.take_effects().is_empty());
}

#[test]
fn any_replay_play_leaves_the_daily_board_to_come_back() {
    let mut state = new_state(Some(daily_word(TODAY, "hunch")), Vec::new());
    type_word(&mut state, "crane");
    assert!(state.submit_guess(true));
    type_word(&mut state, "sl");
    state.show_replay("apple".to_string());
    type_word(&mut state, "apple");
    assert!(state.submit_guess(true));
    state.new_replay("grape".to_string());
    assert!(!state.request_replay_reset());
    state.open_rules();
    state.close_rules();
    type_word(&mut state, "gr");
    assert!(state.pop_letter());
    state.show_replay("other".to_string());
    state.show_daily();
    assert_eq!(state.mode, Mode::Daily);
    assert_eq!(state.answer, "hunch");
    assert_eq!(state.guesses, vec!["crane"]);
    assert_eq!(state.current_guess, "sl");
    assert!(!state.reset_pending);
}

#[test]
fn the_lost_message_spells_the_given_capitals() {
    assert_eq!(le_word::text::word_was_from_capitals("ABC"), "The word was ABC.");
    assert_eq!(le_word::text::word_was_text("hunch"), "The word was HUNCH.");
}
