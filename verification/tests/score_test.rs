use le_word::score::{score_guess, score_letter_from_guesses, score_rank, LetterScore};

#[test]
fn score_guess_handles_duplicate_letters() {
    assert_eq!(
        score_guess("allee", "apple"),
        [
            LetterScore::Correct,
            LetterScore::Present,
            LetterScore::Absent,
            LetterScore::Absent,
            LetterScore::Correct,
        ]
    );
    assert_eq!(
        score_guess("sassy", "abyss"),
        [
            LetterScore::Present,
            LetterScore::Present,
            LetterScore::Absent,
            LetterScore::Correct,
            LetterScore::Present,
        ]
    );
}

#[test]
fn score_guess_matches_shade_screenshot_case() {
    assert_eq!(
        score_guess("wormy", "shade"),
        [
            LetterScore::Absent,
            LetterScore::Absent,
            LetterScore::Absent,
            LetterScore::Absent,
            LetterScore::Absent,
        ]
    );
    assert_eq!(
        score_guess("adieu", "shade"),
        [
            LetterScore::Present,
            LetterScore::Present,
            LetterScore::Absent,
            LetterScore::Present,
            LetterScore::Absent,
        ]
    );
    assert_eq!(
        score_guess("adeem", "shade"),
        [
            LetterScore::Present,
            LetterScore::Present,
            LetterScore::Present,
            LetterScore::Absent,
            LetterScore::Absent,
        ]
    );
    assert_eq!(
        score_guess("house", "shade"),
        [
            LetterScore::Present,
            LetterScore::Absent,
            LetterScore::Absent,
            LetterScore::Present,
            LetterScore::Correct,
        ]
    );
}

#[test]
fn score_letter_from_guesses_keeps_best_keyboard_hint() {
    let guesses = vec!["allee".to_string(), "sassy".to_string()];

    assert_eq!(
        score_letter_from_guesses(&guesses, "apple", 'a'),
        Some(LetterScore::Correct)
    );
    assert_eq!(
        score_letter_from_guesses(&guesses, "apple", 'l'),
        Some(LetterScore::Present)
    );
    assert_eq!(
        score_letter_from_guesses(&guesses, "apple", 's'),
        Some(LetterScore::Absent)
    );
    assert_eq!(score_letter_from_guesses(&guesses, "apple", 'z'), None);
}

#[test]
fn guessing_the_answer_marks_every_cell_correct() {
    assert_eq!(score_guess("crane", "crane"), [LetterScore::Correct; 5]);
}

#[test]
fn each_spare_copy_marks_one_cell() {
    // One spare 'e' in the answer: only the leftmost unmatched 'e' is Present.
    assert_eq!(
        score_guess("eexxx", "axxxe"),
        [
            LetterScore::Present,
            LetterScore::Absent,
            LetterScore::Correct,
            LetterScore::Correct,
            LetterScore::Present,
        ]
    );
    // Two spare 'o's: the first two unmatched 'o's are Present.
    assert_eq!(
        score_guess("oooxy", "xyzoo"),
        [
            LetterScore::Present,
            LetterScore::Present,
            LetterScore::Absent,
            LetterScore::Present,
            LetterScore::Present,
        ]
    );
}

#[test]
fn short_words_match_past_their_ends() {
    // Past the end of both words the cells compare equal.
    assert_eq!(
        score_guess("ab", "ab"),
        [LetterScore::Correct; 5]
    );
    assert_eq!(
        score_guess("ab", "abc"),
        [
            LetterScore::Correct,
            LetterScore::Correct,
            LetterScore::Absent,
            LetterScore::Correct,
            LetterScore::Correct,
        ]
    );
}

#[test]
fn capitals_are_never_present() {
    assert_eq!(
        score_guess("Ebcda", "abcde"),
        [
            LetterScore::Absent,
            LetterScore::Correct,
            LetterScore::Correct,
            LetterScore::Correct,
            LetterScore::Present,
        ]
    );
}

#[test]
fn keyboard_hint_ignores_case_and_non_letters() {
    let guesses = vec!["allee".to_string()];
    assert_eq!(
        score_letter_from_guesses(&guesses, "apple", 'A'),
        Some(LetterScore::Correct)
    );
    assert_eq!(score_letter_from_guesses(&guesses, "apple", '1'), None);
    assert_eq!(score_letter_from_guesses(&[], "apple", 'a'), None);
}

#[test]
fn score_rank_orders_hints() {
    assert_eq!(score_rank(LetterScore::Correct), 3);
    assert_eq!(score_rank(LetterScore::Present), 2);
    assert_eq!(score_rank(LetterScore::Absent), 1);
}

fn counts(scores: [LetterScore; 5]) -> (usize, usize) {
    (
        scores.iter().filter(|s| **s == LetterScore::Correct).count(),
        scores.iter().filter(|s| **s == LetterScore::Present).count(),
    )
}

#[test]
fn swapping_guess_and_answer_keeps_the_counts() {
    for (g, a) in [("allee", "apple"), ("sassy", "abyss"), ("adeem", "shade"), ("house", "shade")] {
        assert_eq!(counts(score_guess(g, a)), counts(score_guess(a, g)));
    }
    assert_eq!(counts(score_guess("sassy", "abyss")), (1, 3));
}

#[test]
fn keyboard_hints_never_drop_and_ignore_order() {
    let first = vec!["sassy".to_string()];
    let both = vec!["sassy".to_string(), "allee".to_string()];
    let reordered = vec!["allee".to_string(), "sassy".to_string()];
    assert_eq!(score_letter_from_guesses(&first, "apple", 'a'), Some(LetterScore::Present));
    assert_eq!(score_letter_from_guesses(&both, "apple", 'a'), Some(LetterScore::Correct));
    for c in 'a'..='z' {
        assert_eq!(
            score_letter_from_guesses(&both, "apple", c),
            score_letter_from_guesses(&reordered, "apple", c)
        );
    }
}
