//! A terminal number-guessing game, verified: a hidden integer is picked
//! inside a bounded range, and each guess narrows the visible candidate
//! range until the player finds it or the guess budget runs out.
//!
//! The heart of the library is the range-narrowing state machine
//! ([`span::Span`] and [`game::Game`]) and the text renderer
//! ([`view::render`]) that draws the candidate range inside the full bounds
//! as a bracketed bar with aligned `v` and `^` markers. Both come with
//! proved contracts: the three bar segments always tile the bounds exactly,
//! the markers always stand over the ends of the highlighted segment, a
//! turn costs a guess if and only if it was a valid in-range number, and
//! the secret never escapes the candidate range.

pub mod color;
pub mod game;
pub mod parse;
pub mod span;
pub mod text;
pub mod view;
