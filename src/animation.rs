use vstd::prelude::*;

use crate::player::{Direction, PlayerState};

verus! {

/// An inclusive range of frame indices in a sprite sheet.
#[derive(Clone, Copy, Debug, PartialEq, Eq, Structural)]
pub struct AnimationIndices {
    pub first: usize,
    pub last: usize,
}

impl AnimationIndices {
    /// The range is non-empty.
    pub open spec fn wf(self) -> bool {
        self.first <= self.last
    }

    pub open spec fn contains(self, index: int) -> bool {
        self.first <= index <= self.last
    }

    pub fn is_valid(&self) -> (r: bool)
        ensures
            r == self.wf(),
    {
        self.first <= self.last
    }
}

/// `index` itself when it lies in `range`, else the first frame of `range`.
pub open spec fn clamped_frame(index: int, range: AnimationIndices) -> int {
    if range.contains(index) {
        index
    } else {
        range.first as int
    }
}

/// The frame after `index`, wrapping from the last frame back to the first.
pub open spec fn stepped_frame(index: int, range: AnimationIndices) -> int {
    if index == range.last {
        range.first as int
    } else {
        index + 1
    }
}

/// The frame shown after one update: the current frame is first brought into
/// `range`, then moved on by one when the frame timer has just finished.
pub open spec fn next_sprite_frame(index: int, range: AnimationIndices, timer_finished: bool) -> int {
    let clamped = clamped_frame(index, range);
    if timer_finished {
        stepped_frame(clamped, range)
    } else {
        clamped
    }
}

/// Brings `index` into `range` and, when the frame timer has just finished,
/// moves it on by one frame, looping within the range.
pub fn advance_frame(index: usize, range: &AnimationIndices, timer_finished: bool) -> (r: usize)
    requires
        range.wf(),
    ensures
        r == next_sprite_frame(index as int, *range, timer_finished),
        range.contains(r as int),
{
    let clamped = if index < range.first || index > range.last {
        range.first
    } else {
        index
    };
    if !timer_finished {
        clamped
    } else if clamped == range.last {
        range.first
    } else {
        clamped + 1
    }
}

/// One sprite sheet: its texture, its frame grid, and the frames drawn when the
/// player faces each of the four diagonal directions. `I` and `L` are the
/// caller's handles to the texture and to the grid; they are carried, never read.
#[derive(Clone)]
pub struct AnimationSheet<I, L> {
    pub sprite_sheet: I,
    pub atlas_layout: L,
    pub ru: AnimationIndices,
    pub lu: AnimationIndices,
    pub rd: AnimationIndices,
    pub ld: AnimationIndices,
}

impl<I, L> AnimationSheet<I, L> {
    /// The frames for the direction last faced; right-down when none was faced yet.
    pub open spec fn facing(self, direction: Option<Direction>) -> AnimationIndices {
        match direction {
            Some(Direction::RU) => self.ru,
            Some(Direction::LU) => self.lu,
            Some(Direction::LD) => self.ld,
            Some(Direction::RD) => self.rd,
            None => self.rd,
        }
    }

    /// All four frame ranges are non-empty.
    pub open spec fn wf(self) -> bool {
        &&& self.ru.wf()
        &&& self.lu.wf()
        &&& self.rd.wf()
        &&& self.ld.wf()
    }

    pub fn indices_for(&self, direction: Option<Direction>) -> (r: &AnimationIndices)
        ensures
            *r == self.facing(direction),
    {
        match direction {
            Some(Direction::RU) => &self.ru,
            Some(Direction::LU) => &self.lu,
            Some(Direction::LD) => &self.ld,
            Some(Direction::RD) => &self.rd,
            None => &self.rd,
        }
    }
}

/// The sheet of each motion state. The idle sheet is always there; a player
/// without a moving sheet keeps showing the idle one while moving.
#[derive(Clone)]
pub struct Animations<I, L> {
    pub idle: AnimationSheet<I, L>,
    pub moving: Option<AnimationSheet<I, L>>,
}

impl<I, L> Animations<I, L> {
    /// The sheet shown in `state`.
    pub open spec fn sheet(self, state: PlayerState) -> AnimationSheet<I, L> {
        match (state, self.moving) {
            (PlayerState::Moving, Some(sheet)) => sheet,
            _ => self.idle,
        }
    }

    pub fn sheet_for(&self, state: PlayerState) -> (r: &AnimationSheet<I, L>)
        ensures
            *r == self.sheet(state),
    {
        match (state, &self.moving) {
            (PlayerState::Moving, Some(sheet)) => sheet,
            _ => &self.idle,
        }
    }
}

/// A one-shot animation that plays the frames `first_sprite_index` to
/// `last_sprite_index` once, at `fps` frames per second.
#[derive(Clone, Copy, Debug, PartialEq, Eq, Structural)]
pub struct AnimationConfig {
    pub first_sprite_index: usize,
    pub last_sprite_index: usize,
    pub fps: u8,
}

impl AnimationConfig {
    pub fn new(first: usize, last: usize, fps: u8) -> (r: Self)
        ensures
            r.first_sprite_index == first,
            r.last_sprite_index == last,
            r.fps == fps,
    {
        AnimationConfig { first_sprite_index: first, last_sprite_index: last, fps }
    }
}

/// What a one-shot animation does in a frame: the frame to show, and whether
/// its frame timer is to be started again.
pub open spec fn one_shot_step(config: AnimationConfig, index: int, timer_finished: bool) -> (int, bool) {
    if !timer_finished {
        (index, false)
    } else if index == config.last_sprite_index {
        (config.first_sprite_index as int, false)
    } else {
        (index + 1, true)
    }
}

/// One frame of a one-shot animation. Once the frame timer has finished, the
/// last frame goes back to the first and the animation stops; any other frame
/// moves on by one and restarts the timer. Returns the frame to show and
/// whether to restart the timer.
pub fn execute_animations(config: &AnimationConfig, index: usize, timer_finished: bool) -> (r: (usize, bool))
    requires
        timer_finished && index != config.last_sprite_index ==> index < usize::MAX,
    ensures
        r.0 == one_shot_step(*config, index as int, timer_finished).0,
        r.1 == one_shot_step(*config, index as int, timer_finished).1,
{
    if !timer_finished {
        (index, false)
    } else if index == config.last_sprite_index {
        (config.first_sprite_index, false)
    } else {
        (index + 1, true)
    }
}

/// Side of one square frame of the character sheets, in pixels.
pub const FRAME_SIZE: u32 = 64;

/// Columns and rows of the idle sheet's frame grid.
pub const IDLE_COLUMNS: u32 = 12;
pub const IDLE_ROWS: u32 = 4;

/// Columns and rows of the walking sheet's frame grid.
pub const WALK_COLUMNS: u32 = 6;
pub const WALK_ROWS: u32 = 4;

/// Time each frame of the character animation is shown, in milliseconds.
pub const FRAME_PERIOD_MS: u64 = 100;

/// The frame the character is first drawn with.
pub const INITIAL_FRAME: usize = 0;

/// The frame range from `first` to `last`, inclusive.
pub open spec fn frames(first: usize, last: usize) -> AnimationIndices {
    AnimationIndices { first, last }
}

/// The character's sheets: the idle sheet and the walking sheet, with the frame
/// ranges of each direction on them.
pub fn character_animations<I, L>(idle_sheet: I, idle_layout: L, walk_sheet: I, walk_layout: L) -> (r: Animations<I, L>)
    ensures
        r.idle.sprite_sheet == idle_sheet,
        r.idle.atlas_layout == idle_layout,
        r.idle.ru == frames(36, 36),
        r.idle.lu == frames(0, 4),
        r.idle.rd == frames(6, 10),
        r.idle.ld == frames(12, 15),
        r.moving is Some,
        r.moving->0.sprite_sheet == walk_sheet,
        r.moving->0.atlas_layout == walk_layout,
        r.moving->0.ru == frames(0, 5),
        r.moving->0.lu == frames(6, 11),
        r.moving->0.rd == frames(12, 17),
        r.moving->0.ld == frames(18, 23),
        r.idle.wf(),
        r.moving->0.wf(),
{
    let idle = AnimationSheet {
        sprite_sheet: idle_sheet,
        atlas_layout: idle_layout,
        ru: AnimationIndices { first: 36, last: 36 },
        lu: AnimationIndices { first: 0, last: 4 },
        rd: AnimationIndices { first: 6, last: 10 },
        ld: AnimationIndices { first: 12, last: 15 },
    };
    let moving = AnimationSheet {
        sprite_sheet: walk_sheet,
        atlas_layout: walk_layout,
        ru: AnimationIndices { first: 0, last: 5 },
        lu: AnimationIndices { first: 6, last: 11 },
        rd: AnimationIndices { first: 12, last: 17 },
        ld: AnimationIndices { first: 18, last: 23 },
    };
    Animations { idle, moving: Some(moving) }
}

} // verus!
