use vstd::prelude::*;

use crate::animation::{advance_frame, next_sprite_frame, AnimationIndices, AnimationSheet, Animations};

verus! {

/// Whether the player is standing still or walking.
#[derive(Clone, Copy, Debug, PartialEq, Eq, Hash, Structural)]
pub enum PlayerState {
    Idle,
    Moving,
}

/// The four diagonal directions the player can face.
#[derive(Clone, Copy, Debug, PartialEq, Eq, Hash, Structural)]
pub enum Direction {
    /// Right and up.
    RU,
    /// Left and up.
    LU,
    /// Right and down.
    RD,
    /// Left and down.
    LD,
}

/// Walking speed of a new player, in world units per second.
pub const PLAYER_SPEED: u32 = 240;

/// The four movement keys that are held down during a frame.
#[derive(Clone, Copy, Debug, PartialEq, Eq, Structural)]
pub struct MovementKeys {
    pub right_up: bool,
    pub left_up: bool,
    pub right_down: bool,
    pub left_down: bool,
}

pub open spec fn unit(held: bool) -> int {
    if held {
        1
    } else {
        0
    }
}

impl MovementKeys {
    /// Horizontal component of the summed key directions (right is positive).
    pub open spec fn step_x(self) -> int {
        unit(self.right_up) - unit(self.left_up) + unit(self.right_down) - unit(self.left_down)
    }

    /// Vertical component of the summed key directions (up is positive).
    pub open spec fn step_y(self) -> int {
        unit(self.right_up) + unit(self.left_up) - unit(self.right_down) - unit(self.left_down)
    }

    /// The held keys add up to a non-zero step.
    pub open spec fn moves(self) -> bool {
        self.step_x() != 0 || self.step_y() != 0
    }

    /// The direction faced after this frame: the held key checked last among
    /// right-up, left-up, right-down, left-down, or `previous` when none is held.
    pub open spec fn faced(self, previous: Option<Direction>) -> Option<Direction> {
        if self.left_down {
            Some(Direction::LD)
        } else if self.right_down {
            Some(Direction::RD)
        } else if self.left_up {
            Some(Direction::LU)
        } else if self.right_up {
            Some(Direction::RU)
        } else {
            previous
        }
    }
}

/// The player: speed, motion state, the direction last faced, and a sprite
/// sheet for each motion state.
#[derive(Clone)]
pub struct Player<I, L> {
    pub speed: u32,
    pub state: PlayerState,
    pub last_direction: Option<Direction>,
    pub animations: Animations<I, L>,
}

impl<I, L> Player<I, L> {
    /// The sheet for the current motion state.
    pub open spec fn current_sheet(self) -> AnimationSheet<I, L> {
        self.animations.sheet(self.state)
    }

    /// The frames of the current sheet for the direction last faced.
    pub open spec fn current_indices(self) -> AnimationIndices {
        self.current_sheet().facing(self.last_direction)
    }

    /// A player standing still, facing no direction yet, at the default speed.
    pub fn new(animations: Animations<I, L>) -> (r: Self)
        ensures
            r.speed == PLAYER_SPEED,
            r.state == PlayerState::Idle,
            r.last_direction.is_none(),
            r.animations == animations,
    {
        Player { speed: PLAYER_SPEED, state: PlayerState::Idle, last_direction: None, animations }
    }

    pub fn active_sheet(&self) -> (r: &AnimationSheet<I, L>)
        ensures
            *r == self.current_sheet(),
    {
        self.animations.sheet_for(self.state)
    }

    pub fn active_indices(&self) -> (r: &AnimationIndices)
        ensures
            *r == self.current_indices(),
    {
        self.active_sheet().indices_for(self.last_direction)
    }
}

/// Applies one frame of movement input to `player`: every held key turns the
/// player toward its direction (the last one checked wins), and the player is
/// moving exactly when the held keys do not cancel out. Returns the
/// unnormalised step `(x, y)`, each component in -2..=2, which the caller
/// scales to the player's speed.
pub fn character_movement<I, L>(player: &mut Player<I, L>, keys: MovementKeys) -> (r: (i8, i8))
    ensures
        r.0 == keys.step_x(),
        r.1 == keys.step_y(),
        final(player).last_direction == keys.faced(old(player).last_direction),
        final(player).state == (if keys.moves() {
            PlayerState::Moving
        } else {
            PlayerState::Idle
        }),
        final(player).speed == old(player).speed,
        final(player).animations == old(player).animations,
{
    let mut x: i8 = 0;
    let mut y: i8 = 0;
    if keys.right_up {
        y = y + 1;
        x = x + 1;
        player.last_direction = Some(Direction::RU);
    }
    if keys.left_up {
        y = y + 1;
        x = x - 1;
        player.last_direction = Some(Direction::LU);
    }
    if keys.right_down {
        y = y - 1;
        x = x + 1;
        player.last_direction = Some(Direction::RD);
    }
    if keys.left_down {
        y = y - 1;
        x = x - 1;
        player.last_direction = Some(Direction::LD);
    }
    if x != 0 || y != 0 {
        player.state = PlayerState::Moving;
    } else {
        player.state = PlayerState::Idle;
    }
    (x, y)
}

/// The sprite update of one frame: the sheet to draw for the player's motion
/// state, and the frame to show, kept within the range of the direction last
/// faced and moved on by one when the animation timer has just finished.
pub fn animate_sprite<'a, I, L>(player: &'a Player<I, L>, index: usize, timer_finished: bool) -> (r: (&'a AnimationSheet<I, L>, usize))
    requires
        player.current_indices().wf(),
    ensures
        *r.0 == player.current_sheet(),
        r.1 == next_sprite_frame(index as int, player.current_indices(), timer_finished),
        player.current_indices().contains(r.1 as int),
{
    let sheet = player.active_sheet();
    let range = sheet.indices_for(player.last_direction);
    (sheet, advance_frame(index, range, timer_finished))
}

} // verus!
