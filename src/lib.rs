//! A small tile-based platformer engine: a tile level with solidity queries,
//! a corner-sampling motion resolver, a jump and gravity model, an animation
//! state machine, an entity store and the per-frame simulation step.
//!
//! Positions, sizes and speeds are whole world units; the shell decides how
//! many world units make a pixel (see `UNITS_PER_PIXEL`).
mod animation;
mod atlas;
mod components;
mod config;
mod decode;
mod game;
mod input;
mod level;
mod level_manager;
mod limits;
mod pacing;
mod physics;
mod play;
mod roam;
mod shader_source;
mod sprite;
mod systems;
mod world;

pub use animation::{select_kind, selected_kind, Animation, AnimationsKind};
pub use atlas::get_index;
pub use components::{Colider, Dimension, EntityState, Jump, Player, Position, Velocity};
pub use config::{
    init_world, initial_player, ANIMATIONS_SPEED, ANIMATION_COLUMNS, GAME_HEIGHT, GAME_WIDTH,
    RENDER_X_OFFSET, RENDER_Y_OFFSET, TILES_IN_HEIGHT, TILES_IN_WIDTH, TILE_SIZE_SCALED,
    UNITS_PER_PIXEL, WALKABLE_TILE,
};
pub use decode::rgb8_decoding;
pub use game::{mode_after, GameMode, Menu, MyGame, Screen};
pub use input::{Key, KeySet};
pub use level::{decoded_level, lemma_level_load_is_deterministic, rgb8_level, Level, LevelView};
pub use level_manager::{
    lemma_free_iff_corners_walkable, lemma_non_walkable_corner_blocks, lemma_outside_grid_is_solid,
    LevelManager, LevelManagerView,
};
pub use limits::{within, COORD_LIMIT};
pub use pacing::{FrameClock, NANOS_PER_SEC};
pub use physics::{
    jump, jumped, landed, lemma_positioned_bounded, moved_x, positioned, reset_in_air,
    update_entity_position, update_x_position, x_speed_of,
};
pub use play::{
    animated_entity, entity_sprite, frame_step, keyed_entity, lemma_frame_step_keeps_frame_in_range,
    lemma_idle_step_is_noop, positioned_entity, read_keys, sprites_of, ticked_entity, Play,
};
pub use roam::{action_kind, handle_keys_events, key_actions, move_player, moved_by, Actions};
pub use shader_source::{
    fragment_word, has_sub, parse_shader, parsed_shader, scan, section_tag, strip_cr, take_line,
    vertex_word,
};
pub use sprite::Sprite;
pub use systems::AnimationTick;
pub use world::{Entity, World};
