use crate::engine::Engine;
use crate::input::Key;
use vstd::prelude::*;

verus! {

/// How far one tick of a held arrow key moves the player, in pixels.
pub const STEP: i32 = 10;

/// `1` when the key is held, else `0`.
pub open spec fn held(engine: &Engine, key: Key) -> int {
    if engine.pressed_keys().contains(key) {
        1
    } else {
        0
    }
}

/// Moves the player by one step for each arrow key held: up and left
/// decrease `y` and `x`, down and right increase them.
pub fn move_player(engine: &Engine, x: &mut i32, y: &mut i32)
    requires
        i32::MIN + STEP <= *old(x) <= i32::MAX - STEP,
        i32::MIN + STEP <= *old(y) <= i32::MAX - STEP,
    ensures
        *final(x) == *old(x) + STEP * (held(engine, Key::Right) - held(engine, Key::Left)),
        *final(y) == *old(y) + STEP * (held(engine, Key::Down) - held(engine, Key::Up)),
{
    if engine.is_key_pressed(Key::Up) {
        *y -= STEP;
    }
    if engine.is_key_pressed(Key::Down) {
        *y += STEP;
    }
    if engine.is_key_pressed(Key::Left) {
        *x -= STEP;
    }
    if engine.is_key_pressed(Key::Right) {
        *x += STEP;
    }
}

} // verus!
