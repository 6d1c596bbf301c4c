//! The guessing game itself: the secret, the guess budget, and the shrinking
//! candidate range, advanced one turn at a time from a raw line of input.

use vstd::prelude::*;
use rand::Rng;
use crate::color::Color;
use crate::color::Style;
use crate::color::colorize_spec;
use crate::color::fg;
use crate::parse::parse_guess;
use crate::parse::parse_i32_spec;
use crate::span::Span;

verus! {

/// The guess budget a game starts with unless configured otherwise.
pub const DEFAULT_BUDGET: u32 = 5;

/// What a single turn produced. The first two do not cost a guess and leave
/// the candidate range alone; the last three each consume one guess.
#[derive(Clone, Copy, PartialEq, Eq, Structural, Debug)]
pub enum GuessOutcome {
    /// The input line does not denote an integer.
    NotANumber,
    /// The guess lies outside the current candidate range.
    OutOfRange,
    /// The guess is smaller than the secret: the range shrinks from below.
    TooSmall,
    /// The guess is greater than the secret: the range shrinks from above.
    TooBig,
    /// The guess is the secret: the game is won.
    Correct,
}

/// Whether the game is over, and how it ended.
#[derive(Clone, Copy, PartialEq, Eq, Structural, Debug)]
pub enum GameStatus {
    Won,
    Lost,
    InProgress,
}

/// One game: the fixed bounds, the candidate range consistent with every
/// guess so far, the secret, and the guesses that remain.
pub struct Game {
    pub bounds: Span,
    pub current: Span,
    pub secret: i32,
    pub guesses_left: u32,
    pub won: bool,
}

impl Game {
    /// The run-long invariant: the candidate range is a non-empty interval
    /// nested in the bounds, and the secret still lies inside it.
    pub open spec fn wf(&self) -> bool {
        &&& self.bounds.min <= self.current.min
        &&& self.current.min <= self.current.max
        &&& self.current.max <= self.bounds.max
        &&& self.current.spec_contains(self.secret as int)
    }

    /// A fresh game over `bounds` with the given secret and budget; the
    /// candidate range starts as the whole bounds.
    pub fn new(bounds: Span, secret: i32, budget: u32) -> (g: Game)
        requires
            bounds.wf(),
            bounds.spec_contains(secret as int),
        ensures
            g.wf(),
            g.bounds == bounds,
            g.current == bounds,
            g.secret == secret,
            g.guesses_left == budget,
            !g.won,
    {
        Game { bounds, current: bounds, secret, guesses_left: budget, won: false }
    }

    /// Relies on `rand::Rng::gen_range` (via `rand::thread_rng`): a sample
    /// uniform in `[low, high)`, which panics iff `low >= high`.
    #[verifier::external_body]
    fn pick_secret(min: i32, max: i32) -> (r: i32)
        requires
            min <= max,
            max < i32::MAX,
        ensures
            min <= r <= max,
    {
        rand::thread_rng().gen_range(min, max + 1)
    }

    /// A fresh game whose secret is drawn uniformly from `bounds`.
    pub fn new_random(bounds: Span, budget: u32) -> (g: Game)
        requires
            bounds.wf(),
            bounds.max < i32::MAX,
        ensures
            g.wf(),
            g.bounds == bounds,
            g.current == bounds,
            g.guesses_left == budget,
            !g.won,
            bounds.spec_contains(g.secret as int),
    {
        let secret = Game::pick_secret(bounds.min, bounds.max);
        Game::new(bounds, secret, budget)
    }

    /// Over when won, or when the budget ran out before a correct guess.
    pub open spec fn spec_status(&self) -> GameStatus {
        if self.won {
            GameStatus::Won
        } else if self.guesses_left == 0 {
            GameStatus::Lost
        } else {
            GameStatus::InProgress
        }
    }

    /// Whether the game is over, and how it ended.
    pub fn status(&self) -> (r: GameStatus)
        ensures
            r == self.spec_status(),
    {
        if self.won {
            GameStatus::Won
        } else if self.guesses_left == 0 {
            GameStatus::Lost
        } else {
            GameStatus::InProgress
        }
    }

    /// Plays one turn from a raw line of input.
    ///
    /// A line that does not denote an integer, or denotes one outside the
    /// candidate range, costs nothing and changes nothing. A valid guess
    /// costs one unit of budget and narrows the range (or wins): everything
    /// at or below a too-small guess, or at or above a too-big one, is
    /// ruled out. The invariant — the secret stays inside the candidate
    /// range — is preserved.
    pub fn apply_guess(&mut self, line: &str) -> (r: GuessOutcome)
        requires
            old(self).wf(),
            old(self).guesses_left > 0,
            !old(self).won,
        ensures
            final(self).wf(),
            final(self).bounds == old(self).bounds,
            final(self).secret == old(self).secret,
            (match parse_i32_spec(line@) {
                None => r == GuessOutcome::NotANumber && *final(self) == *old(self),
                Some(g) => {
                    if !old(self).current.spec_contains(g) {
                        r == GuessOutcome::OutOfRange && *final(self) == *old(self)
                    } else {
                        &&& final(self).guesses_left == old(self).guesses_left - 1
                        &&& if g < old(self).secret {
                            &&& r == GuessOutcome::TooSmall
                            &&& final(self).current.min == g + 1
                            &&& final(self).current.max == old(self).current.max
                            &&& !final(self).won
                        } else if g > old(self).secret {
                            &&& r == GuessOutcome::TooBig
                            &&& final(self).current.max == g - 1
                            &&& final(self).current.min == old(self).current.min
                            &&& !final(self).won
                        } else {
                            &&& r == GuessOutcome::Correct
                            &&& final(self).current == old(self).current
                            &&& final(self).won
                        }
                    }
                },
            }),
    {
        match parse_guess(line) {
            None => GuessOutcome::NotANumber,
            Some(g) => {
                if !self.current.contains(g) {
                    GuessOutcome::OutOfRange
                } else {
                    self.guesses_left = self.guesses_left - 1;
                    if g < self.secret {
                        self.current.narrow_below(g);
                        GuessOutcome::TooSmall
                    } else if g > self.secret {
                        self.current.narrow_above(g);
                        GuessOutcome::TooBig
                    } else {
                        self.won = true;
                        GuessOutcome::Correct
                    }
                }
            },
        }
    }
}

/// The user-facing feedback text for an outcome, coloured by severity.
pub open spec fn hint_spec(o: GuessOutcome) -> Seq<char> {
    match o {
        GuessOutcome::NotANumber => colorize_spec(Style::Fg, Color::Red, "Invalid: Not a number"@),
        GuessOutcome::OutOfRange => colorize_spec(Style::Fg, Color::Red, "Out of bounds"@),
        GuessOutcome::TooSmall => colorize_spec(Style::Fg, Color::Yellow, "Too small"@),
        GuessOutcome::TooBig => colorize_spec(Style::Fg, Color::Yellow, "Too big"@),
        GuessOutcome::Correct => colorize_spec(Style::Fg, Color::Green, "Correct"@),
    }
}

/// The hint shown for the outcome of a turn.
pub fn hint_message(o: GuessOutcome) -> (r: String)
    ensures
        r@ == hint_spec(o),
{
    match o {
        GuessOutcome::NotANumber => fg(Color::Red, "Invalid: Not a number"),
        GuessOutcome::OutOfRange => fg(Color::Red, "Out of bounds"),
        GuessOutcome::TooSmall => fg(Color::Yellow, "Too small"),
        GuessOutcome::TooBig => fg(Color::Yellow, "Too big"),
        GuessOutcome::Correct => fg(Color::Green, "Correct"),
    }
}

} // verus!
