//! Game rules of a small sprite game: eight-way movement on a grid, directional
//! sprite-sheet animation, and a currency that pays for short-lived "things".
//!
//! Everything here is a decision over plain values. The frame loop, the
//! timers, the clock, input and rendering are supplied by the caller, which
//! hands each decision the events it needs (a key that is held, a timer that
//! has just finished).
use vstd::prelude::*;

pub mod animation;
pub mod money;
pub mod player;
pub mod thing;

pub use animation::{AnimationConfig, AnimationIndices, AnimationSheet, Animations};
pub use money::Money;
pub use player::{Direction, MovementKeys, Player, PlayerState};
