use vstd::prelude::*;
use crate::animation::{Animation, AnimationsKind};
use crate::components::{Colider, Dimension, EntityState, Jump, Player, Position, Velocity};
use crate::world::{Entity, World};

verus! {

/// World units in one pixel: positions and speeds are whole world units.
pub const UNITS_PER_PIXEL: i64 = 1000;
/// Side of a tile on screen, in world units (32 pixels scaled by one and a half).
pub const TILE_SIZE_SCALED: i64 = 48_000;
/// Width of the playfield, in tiles.
pub const TILES_IN_WIDTH: usize = 26;
/// Height of the playfield, in tiles.
pub const TILES_IN_HEIGHT: usize = 14;
/// Width of the window, in pixels.
pub const GAME_WIDTH: u32 = 1248;
/// Height of the window, in pixels.
pub const GAME_HEIGHT: u32 = 672;
/// The one tile code that does not block movement.
pub const WALKABLE_TILE: u8 = 11;
/// Frames per row of the player's sprite atlas.
pub const ANIMATION_COLUMNS: usize = 6;
/// Ticks that each animation frame is held.
pub const ANIMATIONS_SPEED: i32 = 6;
/// How far left of its collider the player is drawn.
pub const RENDER_X_OFFSET: i64 = 33_000;
/// How far above its collider the player is drawn.
pub const RENDER_Y_OFFSET: i64 = 8_000;

/// The player as a level starts: grounded and idle, with its sprite size,
/// walking speed, hitbox and jump constants.
pub open spec fn initial_player() -> Entity {
    Entity {
        player: Some(Player),
        state: Some(
            EntityState {
                moving: false,
                attacking: false,
                left: false,
                right: false,
                up: false,
                down: false,
                jump: false,
                in_air: false,
            },
        ),
        position: Some(Position { x: 320_000, y: 338_000 }),
        dimension: Some(Dimension { width: 96_000, height: 60_000 }),
        velocity: Some(Velocity { velocity: 3_000 }),
        animation: Some(
            Animation {
                animations_kind: AnimationsKind::Idle,
                animations_tick: 0,
                animations_index: 0,
                animations_speed: ANIMATIONS_SPEED,
            },
        ),
        colider: Some(Colider { x: 353_000, y: 346_000, width: 30_000, height: 37_500 }),
        jump: Some(Jump { air_speed: 0, gravity: 60, jump_speed: -3_375i64, fall_speed: 2_250 }),
    }
}

/// A store that holds the player and nothing else.
pub fn init_world() -> (r: World)
    ensures
        r.wf(),
        r@ == seq![initial_player()],
{
    let mut ecs = World::new();
    let mut player = Entity::new();
    player.player = Some(Player);
    player.state = Some(EntityState::new());
    player.position = Some(Position { x: 320_000, y: 338_000 });
    player.dimension = Some(Dimension { width: 96_000, height: 60_000 });
    player.velocity = Some(Velocity { velocity: 3 * UNITS_PER_PIXEL });
    player.animation = Some(Animation::new(AnimationsKind::Idle, ANIMATIONS_SPEED));
    player.colider = Some(Colider { x: 353_000, y: 346_000, width: 30_000, height: 37_500 });
    player.jump = Some(Jump { air_speed: 0, gravity: 60, jump_speed: -3_375, fall_speed: 2_250 });
    ecs.create_entity(player);
    assert(ecs@ =~= seq![initial_player()]);
    ecs
}

} // verus!
