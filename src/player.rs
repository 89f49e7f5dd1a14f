//! The player's role: how an intent becomes a change of the player body's
//! velocity, and when a jump is allowed.
use vstd::prelude::*;

use crate::geometry::{Point, Rect};
use crate::world::BodyHandle;

verus! {

/// Side of the player's square, and radius of its ball, in pixels.
pub const SIZE: i32 = 10;

/// Horizontal velocity, in pixels per second, per unit of horizontal intent.
pub const HORIZONTAL_SPEED: i64 = 100;

/// Size of the upward impulse that a jump applies.
pub const JUMP_IMPULSE: i64 = 700;

/// What one frame's intent does to the player body, applied in this order:
/// the vertical impulse (zero when there is none) is applied at the body's
/// centre, then the horizontal velocity is set while the vertical velocity
/// is kept as it stands.
#[derive(Clone, Copy, Debug, PartialEq, Eq, Structural)]
pub struct MoveCommand {
    pub vertical_impulse: i64,
    pub horizontal_velocity: i64,
}

/// The player: a role bound to one dynamic body of the world.
#[derive(Clone, Copy, Debug, PartialEq, Eq, Structural)]
pub struct Player {
    pub body: BodyHandle,
}

/// A jump is allowed exactly while the ground sensor overlaps some body.
pub open spec fn can_jump_spec(sensor_overlaps: nat) -> bool {
    sensor_overlaps > 0
}

/// The command for intent `(dx, jump)`: the horizontal velocity is set from
/// `dx` alone, and the upward impulse comes only with a jump that is allowed.
pub open spec fn move_spec(dx: int, jump: bool, sensor_overlaps: nat) -> MoveCommand {
    MoveCommand {
        vertical_impulse: if jump && can_jump_spec(sensor_overlaps) {
            (-JUMP_IMPULSE) as i64
        } else {
            0
        },
        horizontal_velocity: (HORIZONTAL_SPEED * dx) as i64,
    }
}

/// The square drawn for the player when its body is at `position`: side
/// `SIZE`, centred on the body.
pub open spec fn player_square(position: Point) -> Rect {
    Rect {
        x: (position.x - SIZE / 2) as i64,
        y: (position.y - SIZE / 2) as i64,
        width: SIZE as i64,
        height: SIZE as i64,
    }
}

impl Player {
    /// Whether the player may jump, given how many bodies the ground sensor
    /// overlaps right now (asked afresh each frame, never cached).
    pub fn can_jump(&self, sensor_overlaps: usize) -> (r: bool)
        ensures
            r == can_jump_spec(sensor_overlaps as nat),
    {
        sensor_overlaps > 0
    }

    /// Turns this frame's intent into a command for the player body.
    pub fn mov(&self, dx: i32, jump: bool, sensor_overlaps: usize) -> (r: MoveCommand)
        ensures
            r == move_spec(dx as int, jump, sensor_overlaps as nat),
            r.horizontal_velocity == HORIZONTAL_SPEED * dx,
            r.vertical_impulse == if jump && sensor_overlaps > 0 {
                -JUMP_IMPULSE
            } else {
                0
            },
    {
        let vertical_impulse = if self.can_jump(sensor_overlaps) && jump {
            -JUMP_IMPULSE
        } else {
            0
        };
        MoveCommand { vertical_impulse, horizontal_velocity: HORIZONTAL_SPEED * dx as i64 }
    }

    /// The square drawn for the player when its body is at `position`.
    pub fn draw(&self, position: Point) -> (r: Rect)
        ensures
            r == player_square(position),
            r.x == position.x - SIZE / 2,
            r.y == position.y - SIZE / 2,
            r.width == SIZE,
            r.height == SIZE,
    {
        Rect {
            x: position.x as i64 - (SIZE / 2) as i64,
            y: position.y as i64 - (SIZE / 2) as i64,
            width: SIZE as i64,
            height: SIZE as i64,
        }
    }
}

} // verus!
