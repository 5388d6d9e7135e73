use paracosm::animation::{advance_frame, character_animations, execute_animations, INITIAL_FRAME};
use paracosm::money::STARTING_MONEY;
use paracosm::player::{animate_sprite, character_movement, PLAYER_SPEED};
use paracosm::thing::{h_lifetime, spawn_h, THING_COST, THING_REWARD};
use paracosm::{
    AnimationConfig, AnimationIndices, AnimationSheet, Animations, Direction, Money, MovementKeys,
    Player, PlayerState,
};

fn keys(right_up: bool, left_up: bool, right_down: bool, left_down: bool) -> MovementKeys {
    MovementKeys { right_up, left_up, right_down, left_down }
}

fn range(first: usize, last: usize) -> AnimationIndices {
    AnimationIndices { first, last }
}

fn player() -> Player<&'static str, &'static str> {
    Player::new(character_animations("idle", "idle grid", "walk", "walk grid"))
}

fn idle_only() -> Player<&'static str, &'static str> {
    let sheet = AnimationSheet {
        sprite_sheet: "idle",
        atlas_layout: "idle grid",
        ru: range(1, 2),
        lu: range(3, 4),
        rd: range(5, 6),
        ld: range(7, 8),
    };
    Player::new(Animations { idle: sheet, moving: None })
}

#[test]
fn frame_outside_range_is_clamped_to_first() {
    assert_eq!(advance_frame(40, &range(6, 10), false), 6);
    assert_eq!(advance_frame(2, &range(6, 10), false), 6);
    assert_eq!(advance_frame(8, &range(6, 10), false), 8);
}

#[test]
fn frame_steps_and_wraps_when_timer_finishes() {
    assert_eq!(advance_frame(8, &range(6, 10), true), 9);
    assert_eq!(advance_frame(10, &range(6, 10), true), 6);
    assert_eq!(advance_frame(0, &range(6, 10), true), 7);
    assert_eq!(advance_frame(36, &range(36, 36), true), 36);
}

#[test]
fn new_player_stands_idle_at_default_speed() {
    let p = player();
    assert_eq!(p.speed, 240);
    assert_eq!(p.speed, PLAYER_SPEED);
    assert_eq!(p.state, PlayerState::Idle);
    assert_eq!(p.last_direction, None);
    assert_eq!(INITIAL_FRAME, 0);
}

#[test]
fn character_sheets_hold_the_frame_table() {
    let a = character_animations(1u8, 2u8, 3u8, 4u8);
    assert_eq!((a.idle.sprite_sheet, a.idle.atlas_layout), (1, 2));
    assert_eq!(a.idle.ru, range(36, 36));
    assert_eq!(a.idle.lu, range(0, 4));
    assert_eq!(a.idle.rd, range(6, 10));
    assert_eq!(a.idle.ld, range(12, 15));
    let m = a.moving.expect("walking sheet");
    assert_eq!((m.sprite_sheet, m.atlas_layout), (3, 4));
    assert_eq!(m.ru, range(0, 5));
    assert_eq!(m.lu, range(6, 11));
    assert_eq!(m.rd, range(12, 17));
    assert_eq!(m.ld, range(18, 23));
}

#[test]
fn single_key_moves_diagonally_and_turns() {
    let mut p = player();
    assert_eq!(character_movement(&mut p, keys(true, false, false, false)), (1, 1));
    assert_eq!(p.state, PlayerState::Moving);
    assert_eq!(p.last_direction, Some(Direction::RU));
    assert_eq!(character_movement(&mut p, keys(false, false, false, true)), (-1, -1));
    assert_eq!(p.last_direction, Some(Direction::LD));
}

#[test]
fn opposite_keys_cancel_but_still_turn() {
    let mut p = player();
    assert_eq!(character_movement(&mut p, keys(true, false, false, true)), (0, 0));
    assert_eq!(p.state, PlayerState::Idle);
    assert_eq!(p.last_direction, Some(Direction::LD));
}

#[test]
fn two_up_keys_move_straight_up() {
    let mut p = player();
    assert_eq!(character_movement(&mut p, keys(true, true, false, false)), (0, 2));
    assert_eq!(p.state, PlayerState::Moving);
    assert_eq!(p.last_direction, Some(Direction::LU));
}

#[test]
fn no_key_keeps_direction_and_idles() {
    let mut p = player();
    character_movement(&mut p, keys(false, false, true, false));
    assert_eq!(character_movement(&mut p, keys(false, false, false, false)), (0, 0));
    assert_eq!(p.state, PlayerState::Idle);
    assert_eq!(p.last_direction, Some(Direction::RD));
    assert_eq!(p.speed, 240);
}

#[test]
fn idle_player_without_direction_uses_right_down_frames() {
    let p = player();
    let (sheet, frame) = animate_sprite(&p, 0, false);
    assert_eq!(sheet.sprite_sheet, "idle");
    assert_eq!(sheet.atlas_layout, "idle grid");
    assert_eq!(frame, 6);
}

#[test]
fn moving_player_draws_walking_sheet() {
    let mut p = player();
    character_movement(&mut p, keys(false, true, false, false));
    let (sheet, frame) = animate_sprite(&p, 6, true);
    assert_eq!(sheet.sprite_sheet, "walk");
    assert_eq!(sheet.atlas_layout, "walk grid");
    assert_eq!(frame, 7);
    let (_, frame) = animate_sprite(&p, 11, true);
    assert_eq!(frame, 6);
}

#[test]
fn moving_without_walking_sheet_falls_back_to_idle() {
    let mut p = idle_only();
    character_movement(&mut p, keys(false, false, false, true));
    assert_eq!(p.state, PlayerState::Moving);
    let (sheet, frame) = animate_sprite(&p, 0, false);
    assert_eq!(sheet.sprite_sheet, "idle");
    assert_eq!(frame, 7);
}

#[test]
fn index_range_validity() {
    assert!(range(3, 3).is_valid());
    assert!(range(0, 4).is_valid());
    assert!(!range(5, 4).is_valid());
}

#[test]
fn one_shot_animation_waits_for_its_timer() {
    let c = AnimationConfig::new(2, 5, 10);
    assert_eq!((c.first_sprite_index, c.last_sprite_index, c.fps), (2, 5, 10));
    assert_eq!(execute_animations(&c, 3, false), (3, false));
}

#[test]
fn one_shot_animation_steps_and_restarts_timer() {
    let c = AnimationConfig::new(2, 5, 10);
    assert_eq!(execute_animations(&c, 3, true), (4, true));
}

#[test]
fn one_shot_animation_stops_after_last_frame() {
    let c = AnimationConfig::new(2, 5, 10);
    assert_eq!(execute_animations(&c, 5, true), (2, false));
}

#[test]
fn spending_needs_enough_money() {
    let mut m = Money::new(12);
    assert!(m.try_spend(10));
    assert_eq!(m, Money(2));
    assert!(!m.try_spend(10));
    assert_eq!(m, Money(2));
    assert!(m.try_spend(2));
    assert_eq!(m, Money(0));
}

#[test]
fn earning_saturates() {
    let mut m = Money(7);
    m.earn(15);
    assert_eq!(m, Money(22));
    let mut rich = Money(u64::MAX - 3);
    rich.earn(15);
    assert_eq!(rich, Money(u64::MAX));
}

#[test]
fn spawning_costs_ten() {
    let mut m = Money::new(STARTING_MONEY);
    assert_eq!(THING_COST, 10);
    assert!(spawn_h(&mut m, true));
    assert_eq!(m, Money(90));
}

#[test]
fn spawning_needs_the_key() {
    let mut m = Money(100);
    assert!(!spawn_h(&mut m, false));
    assert_eq!(m, Money(100));
}

#[test]
fn spawning_with_too_little_money_does_nothing() {
    let mut m = Money(9);
    assert!(!spawn_h(&mut m, true));
    assert_eq!(m, Money(9));
    let mut exact = Money(10);
    assert!(spawn_h(&mut exact, true));
    assert_eq!(exact, Money(0));
}

#[test]
fn expired_thing_pays_fifteen() {
    let mut m = Money(90);
    assert_eq!(THING_REWARD, 15);
    assert!(!h_lifetime(&mut m, false));
    assert_eq!(m, Money(90));
    assert!(h_lifetime(&mut m, true));
    assert_eq!(m, Money(105));
}
