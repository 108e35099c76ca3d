use wordle::feedback::Classification;
use wordle::game::{chars_equal, summary_row, Game, GameStatus, MAX_ATTEMPTS};

fn chars(s: &str) -> Vec<char> {
    s.chars().collect()
}

#[test]
fn matching_guess_wins_on_the_first_attempt() {
    let mut game = Game::new(chars("APPLE"));
    assert_eq!(game.status(), GameStatus::InProgress);
    let colors = game.submit_guess(&chars("APPLE"));
    for c in colors {
        assert_eq!(c, Classification::Exact);
    }
    assert_eq!(game.status(), GameStatus::Won);
    assert_eq!(game.attempts(), 1);
    assert_eq!(game.history().len(), 1);
}

#[test]
fn six_misses_lose_and_leave_no_seventh_attempt() {
    let mut game = Game::new(chars("CRANE"));
    for attempt in 1..=MAX_ATTEMPTS {
        assert_eq!(game.status(), GameStatus::InProgress);
        game.submit_guess(&chars("WRONG"));
        assert_eq!(game.attempts(), attempt);
        if attempt < MAX_ATTEMPTS {
            assert_eq!(game.status(), GameStatus::InProgress);
        }
    }
    assert_eq!(game.status(), GameStatus::Lost);
    assert_eq!(game.attempts(), MAX_ATTEMPTS);
    assert_eq!(game.history().len(), MAX_ATTEMPTS as usize);
}

#[test]
fn a_miss_before_the_last_attempt_stays_in_progress() {
    let mut game = Game::new(chars("CRANE"));
    let colors = game.submit_guess(&chars("REACT"));
    assert_eq!(
        colors,
        vec![
            Classification::Partial,
            Classification::Partial,
            Classification::Exact,
            Classification::Partial,
            Classification::Absent,
        ]
    );
    assert_eq!(game.status(), GameStatus::InProgress);
    assert_eq!(game.attempts(), 1);
}

#[test]
fn winning_on_the_last_attempt_is_a_win() {
    let mut game = Game::new(chars("CRANE"));
    for _ in 1..MAX_ATTEMPTS {
        game.submit_guess(&chars("WRONG"));
    }
    assert_eq!(game.status(), GameStatus::InProgress);
    game.submit_guess(&chars("CRANE"));
    assert_eq!(game.status(), GameStatus::Won);
    assert_eq!(game.attempts(), MAX_ATTEMPTS);
}

#[test]
fn history_records_each_classification_in_order() {
    let mut game = Game::new(chars("CRANE"));
    let first = game.submit_guess(&chars("SPEED"));
    let second = game.submit_guess(&chars("REACT"));
    let history = game.history();
    assert_eq!(history.len(), 2);
    assert_eq!(history[0], first);
    assert_eq!(history[1], second);
}

#[test]
fn target_is_kept_for_the_final_reveal() {
    let mut game = Game::new(chars("CRANE"));
    game.submit_guess(&chars("WRONG"));
    assert_eq!(game.target(), &chars("CRANE"));
}

#[test]
fn summary_row_maps_each_position_to_its_square() {
    let row = summary_row(&vec![
        Classification::Exact,
        Classification::Partial,
        Classification::Absent,
    ]);
    let line: String = row.into_iter().collect();
    assert_eq!(line, "🟩🟨⬛️");
}

#[test]
fn summary_row_of_nothing_is_empty() {
    let row = summary_row(&Vec::new());
    assert_eq!(row.len(), 0);
}

#[test]
fn chars_equal_compares_contents() {
    assert!(chars_equal(&chars("CRANE"), &chars("CRANE")));
    assert!(!chars_equal(&chars("CRANE"), &chars("CRANK")));
    assert!(!chars_equal(&chars("CRANE"), &chars("CRAN")));
    assert!(chars_equal(&chars(""), &chars("")));
}
