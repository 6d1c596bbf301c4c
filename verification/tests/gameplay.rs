use range_guess::game::{hint_message, Game, GameStatus, GuessOutcome, DEFAULT_BUDGET};
use range_guess::span::Span;

fn fresh(min: i32, max: i32, secret: i32, budget: u32) -> Game {
    Game::new(Span { min, max }, secret, budget)
}

#[test]
fn winning_run_uses_the_whole_budget() {
    // bounds {1, 50}, secret 27, guesses [50, 1, 25, 30, 27], budget 5.
    let mut g = fresh(1, 50, 27, 5);

    assert_eq!(g.apply_guess("50"), GuessOutcome::TooBig);
    assert_eq!(g.current.min, 1);
    assert_eq!(g.current.max, 49);

    assert_eq!(g.apply_guess("1"), GuessOutcome::TooSmall);
    assert_eq!(g.current.min, 2);
    assert_eq!(g.current.max, 49);

    assert_eq!(g.apply_guess("25"), GuessOutcome::TooSmall);
    assert_eq!(g.current.min, 26);
    assert_eq!(g.current.max, 49);

    assert_eq!(g.apply_guess("30"), GuessOutcome::TooBig);
    assert_eq!(g.current.min, 26);
    assert_eq!(g.current.max, 29);

    assert_eq!(g.apply_guess("27"), GuessOutcome::Correct);
    assert_eq!(g.guesses_left, 0);
    assert_eq!(g.status(), GameStatus::Won);
}

#[test]
fn exhausting_the_budget_loses_and_reveals_the_secret() {
    let mut g = fresh(1, 50, 27, 5);
    for guess in ["50", "49", "48", "47", "46"] {
        assert_eq!(g.status(), GameStatus::InProgress);
        assert_eq!(g.apply_guess(guess), GuessOutcome::TooBig);
    }
    assert_eq!(g.guesses_left, 0);
    assert_eq!(g.status(), GameStatus::Lost);
    assert_eq!(g.secret, 27);
}

#[test]
fn non_numeric_input_costs_nothing() {
    let mut g = fresh(1, 50, 27, 5);
    assert_eq!(g.apply_guess("abc"), GuessOutcome::NotANumber);
    assert_eq!(g.guesses_left, 5);
    assert_eq!(g.current.min, 1);
    assert_eq!(g.current.max, 50);
}

#[test]
fn out_of_range_guess_costs_nothing() {
    let mut g = fresh(1, 50, 27, 5);
    assert_eq!(g.apply_guess("51"), GuessOutcome::OutOfRange);
    assert_eq!(g.guesses_left, 5);
    assert_eq!(g.current.min, 1);
    assert_eq!(g.current.max, 50);
}

#[test]
fn guesses_outside_the_narrowed_range_are_rejected() {
    let mut g = fresh(1, 50, 27, 5);
    assert_eq!(g.apply_guess("30"), GuessOutcome::TooBig);
    // 30 was valid a turn ago; the narrowed range no longer admits it.
    assert_eq!(g.apply_guess("30"), GuessOutcome::OutOfRange);
    assert_eq!(g.guesses_left, 4);
}

#[test]
fn correct_guess_leaves_the_range_alone() {
    let mut g = fresh(1, 50, 27, 5);
    assert_eq!(g.apply_guess("27"), GuessOutcome::Correct);
    assert_eq!(g.current.min, 1);
    assert_eq!(g.current.max, 50);
    assert_eq!(g.guesses_left, 4);
    assert_eq!(g.status(), GameStatus::Won);
}

#[test]
fn random_secret_lies_within_bounds() {
    let bounds = Span { min: 1, max: 50 };
    let g = Game::new_random(bounds, DEFAULT_BUDGET);
    assert!(1 <= g.secret && g.secret <= 50);
    assert_eq!(g.guesses_left, 5);

    let point = Span { min: 5, max: 5 };
    let h = Game::new_random(point, DEFAULT_BUDGET);
    assert_eq!(h.secret, 5);
}

#[test]
fn hints_carry_severity_colors() {
    assert_eq!(
        hint_message(GuessOutcome::NotANumber),
        "\x1b[31mInvalid: Not a number\x1b[0m"
    );
    assert_eq!(hint_message(GuessOutcome::OutOfRange), "\x1b[31mOut of bounds\x1b[0m");
    assert_eq!(hint_message(GuessOutcome::TooSmall), "\x1b[33mToo small\x1b[0m");
    assert_eq!(hint_message(GuessOutcome::TooBig), "\x1b[33mToo big\x1b[0m");
    assert_eq!(hint_message(GuessOutcome::Correct), "\x1b[32mCorrect\x1b[0m");
}
