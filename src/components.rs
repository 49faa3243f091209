use vstd::prelude::*;
use crate::limits::within;

verus! {

/// Marks the entity that the keyboard drives.
#[derive(Clone, Copy, Debug, PartialEq, Eq, Structural)]
pub struct Player;

/// Intent and physics flags of an entity. `left`, `right`, `jump` and
/// `attacking` are read from the held keys every frame; `in_air` persists.
#[derive(Clone, Copy, Debug, PartialEq, Eq, Structural)]
pub struct EntityState {
    pub moving: bool,
    pub attacking: bool,
    pub left: bool,
    pub right: bool,
    pub up: bool,
    pub down: bool,
    pub jump: bool,
    pub in_air: bool,
}

impl EntityState {
    /// A state with every flag cleared: standing, grounded, no intent.
    pub fn new() -> (r: EntityState)
        ensures
            !r.moving && !r.attacking && !r.left && !r.right,
            !r.up && !r.down && !r.jump && !r.in_air,
    {
        EntityState {
            moving: false,
            attacking: false,
            left: false,
            right: false,
            up: false,
            down: false,
            jump: false,
            in_air: false,
        }
    }
}

/// Render position, in world units.
#[derive(Clone, Copy, Debug, PartialEq, Eq, Structural)]
pub struct Position {
    pub x: i64,
    pub y: i64,
}

/// Render size, in world units.
#[derive(Clone, Copy, Debug, PartialEq, Eq, Structural)]
pub struct Dimension {
    pub width: i64,
    pub height: i64,
}

/// Horizontal speed, in world units per tick.
#[derive(Clone, Copy, Debug, PartialEq, Eq, Structural)]
pub struct Velocity {
    pub velocity: i64,
}

impl Velocity {
    pub open spec fn bounded(self) -> bool {
        within(self.velocity as int, 1)
    }
}

/// The hitbox used for solidity checks, in world units.
#[derive(Clone, Copy, Debug, PartialEq, Eq, Structural)]
pub struct Colider {
    pub x: i64,
    pub y: i64,
    pub width: i64,
    pub height: i64,
}

impl Colider {
    pub open spec fn bounded(self) -> bool {
        &&& within(self.x as int, 1)
        &&& within(self.y as int, 1)
        &&& within(self.width as int, 1)
        &&& within(self.height as int, 1)
    }
}

/// Vertical motion: the current vertical speed (negative is upward), the
/// gravity added each airborne tick, the impulse of a jump, and the speed
/// taken when a rise is blocked.
#[derive(Clone, Copy, Debug, PartialEq, Eq, Structural)]
pub struct Jump {
    pub air_speed: i64,
    pub gravity: i64,
    pub jump_speed: i64,
    pub fall_speed: i64,
}

impl Jump {
    pub open spec fn bounded(self) -> bool {
        &&& within(self.air_speed as int, 3)
        &&& within(self.gravity as int, 1)
        &&& within(self.jump_speed as int, 1)
        &&& within(self.fall_speed as int, 1)
    }
}

} // verus!
