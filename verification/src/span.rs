//! The range-narrowing state machine: a closed integer interval that only
//! ever shrinks as guesses rule parts of it out.

use vstd::prelude::*;

verus! {

/// A closed interval of integers, `[min, max]`.
///
/// Two spans exist per game: `bounds`, the fixed full search space, and
/// `current`, the shrinking candidate range. A span is well formed when
/// `min <= max`; the renderer and the game loop only ever observe well-formed
/// spans. Narrowing on a value equal to one of the current endpoints would
/// produce `min > max`: this implementation does not clamp, it defines the
/// narrowed range as possibly empty. Guess validation (`contains`, checked
/// before any narrowing) keeps that state unreachable during a game.
#[derive(Clone, Copy)]
pub struct Span {
    pub min: i32,
    pub max: i32,
}

impl Span {
    /// True iff `n` lies in the interval, as a mathematical statement.
    pub open spec fn spec_contains(&self, n: int) -> bool {
        self.min <= n <= self.max
    }

    /// Well-formed: a non-empty interval.
    pub open spec fn wf(&self) -> bool {
        self.min <= self.max
    }

    /// Number of integers in the interval.
    pub open spec fn spec_size(&self) -> int {
        self.max - self.min + 1
    }

    /// The zero-based width of the interval: the count of steps from `min`
    /// to `max`, one less than the count of integers it holds.
    pub fn range(&self) -> (r: usize)
        requires
            self.wf(),
            self.max - self.min <= usize::MAX,
        ensures
            r == self.max - self.min,
    {
        (self.max as i64 - self.min as i64) as usize
    }

    /// True iff `num` still lies in the interval.
    pub fn contains(&self, num: i32) -> (r: bool)
        ensures
            r == self.spec_contains(num as int),
    {
        self.min <= num && num <= self.max
    }

    /// Record that the secret is strictly greater than `guessed`: everything
    /// at or below `guessed` is no longer possible. `max` is untouched.
    pub fn narrow_below(&mut self, guessed: i32)
        requires
            guessed < i32::MAX,
        ensures
            final(self).min == guessed + 1,
            final(self).max == old(self).max,
    {
        self.min = guessed + 1;
    }

    /// Record that the secret is strictly less than `guessed`: everything
    /// at or above `guessed` is no longer possible. `min` is untouched.
    pub fn narrow_above(&mut self, guessed: i32)
        requires
            guessed > i32::MIN,
        ensures
            final(self).max == guessed - 1,
            final(self).min == old(self).min,
    {
        self.max = guessed - 1;
    }
}

/// A well-formed span contains both of its endpoints and neither of the
/// integers just outside them.
pub proof fn lemma_contains_endpoints(s: Span)
    requires
        s.wf(),
    ensures
        s.spec_contains(s.min as int),
        s.spec_contains(s.max as int),
        !s.spec_contains(s.min - 1),
        !s.spec_contains(s.max + 1),
{
}

} // verus!
