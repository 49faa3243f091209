use omak::{
    jump, AnimationTick, update_entity_position, update_x_position, Animation, AnimationsKind, Colider, Dimension,
    Entity, EntityState, Jump, Key, KeySet, Level, LevelManager, Play, Player, Position, Velocity,
    World,
};

const TS: i64 = 48_000;
const GROUND_Y: i64 = 106_499;

// Five tiles wide, four high: a floor along the bottom row and one wall tile
// at the left end of the row above it. Code 11 is walkable.
fn test_level() -> LevelManager {
    let codes: [u8; 20] = [
        11, 11, 11, 11, 11, //
        11, 11, 11, 11, 11, //
        3, 11, 11, 11, 11, //
        3, 3, 3, 3, 3, //
    ];
    let mut px = Vec::new();
    for c in codes {
        px.extend_from_slice(&[c, 0, 0]);
    }
    let level = Level::from_rgb8(5, 4, &px).unwrap();
    LevelManager::new(level, TS, 11).unwrap()
}

fn player_at(x: i64, y: i64, in_air: bool, air_speed: i64) -> Entity {
    let mut e = Entity::new();
    e.player = Some(Player);
    let mut st = EntityState::new();
    st.in_air = in_air;
    e.state = Some(st);
    e.position = Some(Position { x: x - 33_000, y: y - 8_000 });
    e.dimension = Some(Dimension { width: 96_000, height: 60_000 });
    e.velocity = Some(Velocity { velocity: 3_000 });
    e.animation = Some(Animation::new(AnimationsKind::Idle, 6));
    e.colider = Some(Colider { x, y, width: 30_000, height: 37_500 });
    e.jump = Some(Jump { air_speed, gravity: 60, jump_speed: -3_375, fall_speed: 2_250 });
    e
}

fn play_with(e: Entity) -> Play {
    let mut w = World::new();
    w.create_entity(e);
    Play::with_world(w, test_level())
}

fn keys_of(held: &[Key]) -> KeySet {
    let mut k = KeySet::new();
    for &h in held {
        k.press(h);
    }
    k
}

fn player(play: &Play) -> Entity {
    play.world().entity(0)
}

#[test]
fn idle_step_without_keys_changes_nothing() {
    let mut play = play_with(player_at(100_000, GROUND_Y, false, 0));
    let before = player(&play);
    play.update(&KeySet::new());
    let after = player(&play);
    assert_eq!(after.colider, before.colider);
    assert_eq!(after.position, before.position);
    let (a, b) = (after.animation.unwrap(), before.animation.unwrap());
    assert_eq!(a.animations_kind, AnimationsKind::Idle);
    assert_eq!(a.animations_index, b.animations_index);
    assert_eq!(after.state.unwrap().in_air, false);
}

#[test]
fn grounded_without_floor_starts_falling_with_no_keys() {
    let mut play = play_with(player_at(100_000, 20_000, false, 0));
    play.update(&KeySet::new());
    let e = player(&play);
    assert!(e.state.unwrap().in_air);
    assert_eq!(e.colider.unwrap().y, 20_000);
    assert_eq!(e.jump.unwrap().air_speed, 60);
    assert_eq!(e.animation.unwrap().animations_kind, AnimationsKind::Falling);
    play.update(&KeySet::new());
    let e = player(&play);
    assert_eq!(e.colider.unwrap().y, 20_060);
    assert_eq!(e.jump.unwrap().air_speed, 120);
    assert_eq!(e.position.unwrap().y, 20_060 - 8_000);
}

#[test]
fn animation_tick_system_ticks_every_animation() {
    let mut w = World::new();
    w.create_entity(player_at(100_000, GROUND_Y, false, 0));
    let mut bare = Entity::new();
    bare.animation = Some(Animation::new(AnimationsKind::Falling, 1));
    w.create_entity(bare);
    w.create_entity(Entity::new());
    let mut system = AnimationTick;
    system.run(&mut w);
    assert_eq!(w.entity(0).animation.unwrap().animations_tick, 1);
    assert_eq!(w.entity(1).animation.unwrap().animations_tick, 0);
    assert!(w.entity(2).animation.is_none());
    assert_eq!(w.len(), 3);
}

#[test]
fn left_on_ground_moves_by_velocity_and_runs() {
    let mut play = play_with(player_at(100_000, GROUND_Y, false, 0));
    // Let the idle animation reach a later frame first.
    for _ in 0..7 {
        play.update(&KeySet::new());
    }
    assert_eq!(player(&play).animation.unwrap().animations_index, 1);
    let keys = keys_of(&[Key::Left]);
    play.update(&keys);
    let e = player(&play);
    assert_eq!(e.colider.unwrap().x, 97_000);
    assert_eq!(e.colider.unwrap().y, GROUND_Y);
    assert_eq!(e.position.unwrap().x, 97_000 - 33_000);
    let a = e.animation.unwrap();
    assert_eq!(a.animations_kind, AnimationsKind::Running);
    assert_eq!(a.animations_index, 0);
    assert_eq!(a.animations_tick, 0);
    assert!(e.state.unwrap().moving);
    for _ in 0..5 {
        play.update(&keys);
        assert_eq!(player(&play).animation.unwrap().animations_index, 0);
    }
    play.update(&keys);
    let e = player(&play);
    assert_eq!(e.animation.unwrap().animations_index, 1);
    assert_eq!(e.colider.unwrap().x, 100_000 - 7 * 3_000);
}

#[test]
fn right_on_ground_moves_right() {
    let mut play = play_with(player_at(100_000, GROUND_Y, false, 0));
    play.update(&keys_of(&[Key::Right]));
    assert_eq!(player(&play).colider.unwrap().x, 103_000);
}

#[test]
fn left_and_right_cancel_but_count_as_moving() {
    let mut play = play_with(player_at(100_000, GROUND_Y, false, 0));
    play.update(&keys_of(&[Key::Left, Key::Right]));
    let e = player(&play);
    assert_eq!(e.colider.unwrap().x, 100_000);
    assert_eq!(e.animation.unwrap().animations_kind, AnimationsKind::Running);
}

#[test]
fn jump_sets_air_speed_to_jump_speed() {
    let mut st = EntityState::new();
    let mut jmp = Jump { air_speed: 0, gravity: 60, jump_speed: -3_375, fall_speed: 2_250 };
    jump(&mut st, &mut jmp);
    assert!(st.in_air);
    assert_eq!(jmp.air_speed, -3_375);
    // A second press while airborne changes nothing.
    jmp.air_speed = 1_000;
    jump(&mut st, &mut jmp);
    assert_eq!(jmp.air_speed, 1_000);
}

#[test]
fn jump_press_takes_off_and_shows_jumping() {
    let mut play = play_with(player_at(100_000, GROUND_Y, false, 0));
    play.update(&keys_of(&[Key::Space]));
    let e = player(&play);
    assert!(e.state.unwrap().in_air);
    assert_eq!(e.colider.unwrap().y, GROUND_Y - 3_375);
    assert_eq!(e.jump.unwrap().air_speed, -3_375 + 60);
    assert_eq!(e.animation.unwrap().animations_kind, AnimationsKind::Jumping);
    assert_eq!(e.position.unwrap().y, GROUND_Y - 3_375 - 8_000);
}

#[test]
fn falling_onto_floor_lands() {
    let mut play = play_with(player_at(100_000, GROUND_Y, true, 500));
    play.update(&KeySet::new());
    let e = player(&play);
    assert_eq!(e.colider.unwrap().y, GROUND_Y);
    assert_eq!(e.jump.unwrap().air_speed, 0);
    assert!(!e.state.unwrap().in_air);
    assert_eq!(e.animation.unwrap().animations_kind, AnimationsKind::Idle);
    play.update(&keys_of(&[Key::Right]));
    assert_eq!(player(&play).animation.unwrap().animations_kind, AnimationsKind::Running);
}

#[test]
fn blocked_rise_starts_fall_speed() {
    // Rising into the top edge of the playfield.
    let mut play = play_with(player_at(100_000, 1_000, true, -3_375));
    play.update(&KeySet::new());
    let e = player(&play);
    assert_eq!(e.colider.unwrap().y, 1_000);
    assert_eq!(e.jump.unwrap().air_speed, 2_250);
    assert!(e.state.unwrap().in_air);
    assert_eq!(e.animation.unwrap().animations_kind, AnimationsKind::Falling);
}

#[test]
fn free_fall_accelerates_by_gravity() {
    let mut play = play_with(player_at(100_000, 20_000, true, 100));
    play.update(&KeySet::new());
    let e = player(&play);
    assert_eq!(e.colider.unwrap().y, 20_100);
    assert_eq!(e.jump.unwrap().air_speed, 160);
    assert_eq!(e.animation.unwrap().animations_kind, AnimationsKind::Falling);
}

#[test]
fn walking_off_a_ledge_starts_falling() {
    let mut play = play_with(player_at(100_000, 20_000, false, 0));
    play.update(&keys_of(&[Key::Left]));
    let e = player(&play);
    assert!(e.state.unwrap().in_air);
    assert_eq!(e.colider.unwrap().x, 97_000);
    assert_eq!(e.jump.unwrap().air_speed, 60);
    assert_eq!(e.animation.unwrap().animations_kind, AnimationsKind::Falling);
}

#[test]
fn wall_to_the_left_blocks_move() {
    let m = test_level();
    let col = Colider { x: TS, y: GROUND_Y, width: 30_000, height: 37_500 };
    assert!(!m.can_move_here(col.x - 3_000, col.y, col.width, col.height));
    let mut c = col;
    update_x_position(&m, &mut c, -3_000);
    assert_eq!(c.x, TS);

    let mut play = play_with(player_at(TS, GROUND_Y, false, 0));
    play.update(&keys_of(&[Key::Left]));
    assert_eq!(player(&play).colider.unwrap().x, TS);
    play.update(&KeySet::new());
    let e = player(&play);
    assert_eq!(e.colider.unwrap().x, TS);
    assert_eq!(e.animation.unwrap().animations_kind, AnimationsKind::Idle);
}

#[test]
fn attack_overrides_other_kinds() {
    let mut play = play_with(player_at(100_000, GROUND_Y, false, 0));
    play.update(&keys_of(&[Key::Q, Key::Left]));
    let e = player(&play);
    assert_eq!(e.animation.unwrap().animations_kind, AnimationsKind::Attacking);
    assert!(e.state.unwrap().attacking);
    assert_eq!(e.colider.unwrap().x, 97_000);
}

#[test]
fn frame_index_stays_in_range_over_many_steps() {
    let mut play = play_with(player_at(100_000, GROUND_Y, false, 0));
    let patterns: [&[Key]; 6] = [&[], &[Key::Left], &[Key::Space], &[Key::Q], &[Key::Right, Key::Space], &[Key::Right]];
    for step in 0..600 {
        let keys = keys_of(patterns[(step / 7) % patterns.len()]);
        play.update(&keys);
        let a = player(&play).animation.unwrap();
        assert!(a.animations_index < a.animations_kind.get_index_and_count().1);
    }
}

#[test]
fn entity_step_matches_world_step() {
    let m = test_level();
    let e = player_at(100_000, GROUND_Y, false, 0);
    let mut st = e.state.unwrap();
    st.left = true;
    let mut col = e.colider.unwrap();
    let mut jmp = e.jump.unwrap();
    update_entity_position(&m, &mut st, &mut col, &e.velocity.unwrap(), &mut jmp);
    assert_eq!(col.x, 97_000);
    assert!(st.moving);
    assert!(!st.in_air);
}

#[test]
fn draw_list_offsets_collider_and_picks_frame() {
    let mut play = play_with(player_at(100_000, GROUND_Y, false, 0));
    play.update(&keys_of(&[Key::Space]));
    let sprites = play.draw_list(33_000, 8_000, 6);
    assert_eq!(sprites.len(), 1);
    let c = player(&play).colider.unwrap();
    assert_eq!(sprites[0].x, c.x - 33_000);
    assert_eq!(sprites[0].y, c.y - 8_000);
    assert_eq!(sprites[0].width, 96_000);
    assert_eq!(sprites[0].height, 60_000);
    assert_eq!(sprites[0].texture, 2 * 6);
}

#[test]
fn draw_list_skips_entities_without_animation() {
    let mut w = World::new();
    let mut bare = Entity::new();
    bare.colider = Some(Colider { x: 0, y: 0, width: 1, height: 1 });
    w.create_entity(bare);
    w.create_entity(player_at(100_000, GROUND_Y, false, 0));
    let play = Play::with_world(w, test_level());
    let sprites = play.draw_list(0, 0, 6);
    assert_eq!(sprites.len(), 1);
    assert_eq!(sprites[0].x, 100_000);
    assert_eq!(sprites[0].texture, 0);
}

#[test]
fn non_player_entities_do_not_move() {
    let mut e = player_at(100_000, GROUND_Y, false, 0);
    e.player = None;
    let mut play = play_with(e);
    play.update(&keys_of(&[Key::Left]));
    assert_eq!(player(&play).colider.unwrap().x, 100_000);
    assert_eq!(player(&play).animation.unwrap().animations_tick, 1);
}
