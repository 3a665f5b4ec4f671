use rendezvous::wordle::{GuessLetterResult, GuessResult, Wordle};

#[test]
fn exact_guess_wins() {
    let mut w = Wordle::with_word("abeam".to_string());
    let r = w.guess("abeam".to_string());
    assert!(matches!(r, GuessResult::Win));
    assert_eq!(w.attempts_left, 4);
}

#[test]
fn guess_is_scored_letter_by_letter() {
    let mut w = Wordle::with_word("abeam".to_string());
    let r = w.guess("amxyz".to_string());
    match r {
        GuessResult::TryAgain { result } => {
            // 'a' matches position 0; 'm' occurs, but elsewhere; the rest
            // occur nowhere in the word.
            assert_eq!(result[0], GuessLetterResult::GREEN);
            assert_eq!(result[1], GuessLetterResult::YELLOW);
            assert_eq!(result[2], GuessLetterResult::GRAY);
            assert_eq!(result[3], GuessLetterResult::GRAY);
            assert_eq!(result[4], GuessLetterResult::GRAY);
        },
        _ => panic!("a wrong first guess must ask for another try"),
    }
    assert_eq!(w.attempts_left, 4);
}

#[test]
fn guessing_ignores_ascii_case() {
    // Winning takes the exact word, but letter scoring folds ASCII case.
    let mut w = Wordle::with_word("abeam".to_string());
    let r = w.guess("ABEAM".to_string());
    match r {
        GuessResult::TryAgain { result } => {
            for verdict in result {
                assert_eq!(verdict, GuessLetterResult::GREEN);
            }
        },
        _ => panic!("an upper-case guess is not the exact word"),
    }
}

#[test]
fn guess_letter_reports_green_yellow_gray() {
    let w = Wordle::with_word("abeam".to_string());
    assert_eq!(w.guess_letter('a', 0), GuessLetterResult::GREEN);
    assert_eq!(w.guess_letter('A', 0), GuessLetterResult::GREEN);
    assert_eq!(w.guess_letter('m', 0), GuessLetterResult::YELLOW);
    assert_eq!(w.guess_letter('z', 0), GuessLetterResult::GRAY);
}

#[test]
fn attempts_run_out_into_a_loss() {
    let mut w = Wordle::with_word("abeam".to_string());
    for _ in 0..4 {
        let r = w.guess("wrong".to_string());
        assert!(matches!(r, GuessResult::TryAgain { .. }));
    }
    let r = w.guess("wrong".to_string());
    assert!(matches!(r, GuessResult::Loss));
    assert_eq!(w.attempts_left, 0);
    let r = w.guess("abeam".to_string());
    assert!(matches!(r, GuessResult::Loss), "a spent game stays lost");
}

#[test]
fn default_game_draws_its_word_from_the_list() {
    let mut w = Wordle::default();
    assert_eq!(w.attempts_left, 5);
    let mut wins = 0;
    for word in ["abeam", "abear", "abeat", "abeng"] {
        if matches!(w.guess(word.to_string()), GuessResult::Win) {
            wins += 1;
        }
    }
    assert_eq!(wins, 1, "exactly one word of the list must win the default game");
}
