use vstd::prelude::*;

use crate::money::{credited, Money};

verus! {

/// The price of spawning a thing.
pub const THING_COST: u64 = 10;

/// What a thing pays back when its lifetime runs out.
pub const THING_REWARD: u64 = 15;

/// How long a thing lives, in milliseconds.
pub const THING_LIFETIME_MS: u64 = 2000;

/// How fast a thing drifts, in world units per second.
pub const THING_SPEED: u32 = 40;

/// The spawn decision of one frame: a thing is bought, and its price taken,
/// exactly when the spawn key was just pressed and the balance covers the
/// price. Returns whether a thing is to be spawned.
pub fn spawn_h(money: &mut Money, spawn_pressed: bool) -> (r: bool)
    ensures
        r == (spawn_pressed && old(money).0 >= THING_COST),
        r ==> final(money).0 == old(money).0 - THING_COST,
        !r ==> *final(money) == *old(money),
{
    if !spawn_pressed {
        return false;
    }
    money.try_spend(THING_COST)
}

/// The end of a thing's life: when its lifetime timer has just finished, the
/// thing's reward is paid. Returns whether the thing is to be despawned.
pub fn h_lifetime(money: &mut Money, lifetime_finished: bool) -> (r: bool)
    ensures
        r == lifetime_finished,
        r ==> final(money).0 == credited(old(money).0, THING_REWARD),
        !r ==> *final(money) == *old(money),
{
    if lifetime_finished {
        money.earn(THING_REWARD);
    }
    lifetime_finished
}

} // verus!
