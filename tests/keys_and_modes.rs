use omak::{
    handle_keys_events, init_world, move_player, parse_shader, Actions, Animation, AnimationsKind,
    FrameClock, GameMode, Key, KeySet, Level, LevelManager, Menu, MyGame, Position, Screen,
    Velocity,
};

#[test]
fn key_set_press_and_release() {
    let mut k = KeySet::new();
    assert!(k.is_empty());
    k.press(Key::Left);
    k.press(Key::Left);
    k.press(Key::Q);
    assert!(k.contains(Key::Left));
    assert!(k.contains(Key::Q));
    assert!(!k.contains(Key::Right));
    assert!(!k.is_empty());
    k.release(Key::Left);
    assert!(!k.contains(Key::Left));
    assert!(k.contains(Key::Q));
    k.release(Key::Space);
    k.release(Key::Q);
    assert!(k.is_empty());
}

fn small_level() -> LevelManager {
    let px = vec![11u8, 0, 0, 11, 0, 0, 11, 0, 0, 11, 0, 0];
    LevelManager::new(Level::from_rgb8(2, 2, &px).unwrap(), 48_000, 11).unwrap()
}

#[test]
fn menu_starts_touched() {
    assert!(Menu::new().touched);
}

#[test]
fn mode_switches_on_p_and_m() {
    let mut game = MyGame::new(small_level());
    assert_eq!(game.mode, GameMode::Playing);
    let mut keys = KeySet::new();
    assert_eq!(game.run(&keys), Screen::Play);
    assert_eq!(game.mode, GameMode::Playing);
    keys.press(Key::M);
    assert_eq!(game.run(&keys), Screen::Play);
    assert_eq!(game.mode, GameMode::Menu);
    assert_eq!(game.run(&keys), Screen::Menu);
    keys.release(Key::M);
    keys.press(Key::P);
    assert_eq!(game.run(&keys), Screen::Blank);
    assert_eq!(game.mode, GameMode::Playing);
}

#[test]
fn menu_frames_leave_play_untouched() {
    let mut game = MyGame::new(small_level());
    game.mode = GameMode::Menu;
    let mut keys = KeySet::new();
    keys.press(Key::Left);
    game.run(&keys);
    let a = game.play.world().entity(0).animation.unwrap();
    assert_eq!(a.animations_tick, 0);
}

#[test]
fn initial_world_holds_the_player() {
    let w = init_world();
    assert_eq!(w.len(), 1);
    let e = w.entity(0);
    assert!(e.player.is_some());
    let c = e.colider.unwrap();
    assert_eq!((c.x, c.y, c.width, c.height), (353_000, 346_000, 30_000, 37_500));
    let j = e.jump.unwrap();
    assert_eq!((j.air_speed, j.gravity, j.jump_speed, j.fall_speed), (0, 60, -3_375, 2_250));
    assert_eq!(e.velocity.unwrap().velocity, 3_000);
    assert_eq!(e.animation.unwrap().animations_kind, AnimationsKind::Idle);
    assert_eq!(e.animation.unwrap().animations_speed, 6);
    assert!(!e.state.unwrap().in_air);
}

#[test]
fn keys_map_to_actions_in_order() {
    assert_eq!(handle_keys_events(&KeySet::new()), vec![Actions::Idle]);
    let mut k = KeySet::new();
    k.press(Key::Q);
    k.press(Key::Right);
    k.press(Key::Up);
    assert_eq!(
        handle_keys_events(&k),
        vec![Actions::MoveUp, Actions::MoveRight, Actions::Attacking]
    );
    let mut k = KeySet::new();
    k.press(Key::Space);
    assert_eq!(handle_keys_events(&k), Vec::<Actions>::new());
}

#[test]
fn free_moves_follow_actions() {
    let vel = Velocity { velocity: 3 };
    let mut pos = Position { x: 300, y: 200 };
    let mut ani = Animation::new(AnimationsKind::Idle, 6);
    move_player(&mut pos, &vel, &mut ani, Actions::MoveUp);
    assert_eq!((pos.x, pos.y), (300, 197));
    assert_eq!(ani.animations_kind, AnimationsKind::Running);
    move_player(&mut pos, &vel, &mut ani, Actions::MoveRight);
    move_player(&mut pos, &vel, &mut ani, Actions::MoveDown);
    move_player(&mut pos, &vel, &mut ani, Actions::MoveLeft);
    move_player(&mut pos, &vel, &mut ani, Actions::MoveLeft);
    assert_eq!((pos.x, pos.y), (297, 200));
    ani.update_animations_tick();
    move_player(&mut pos, &vel, &mut ani, Actions::Attacking);
    assert_eq!(ani.animations_kind, AnimationsKind::Attacking);
    assert_eq!(ani.animations_tick, 0);
    move_player(&mut pos, &vel, &mut ani, Actions::Idle);
    assert_eq!(ani.animations_kind, AnimationsKind::Idle);
    assert_eq!((pos.x, pos.y), (297, 200));
}

#[test]
fn frame_clock_runs_at_the_rate() {
    let mut c = FrameClock::new(60, 0);
    let frame = 1_000_000_000u64 / 60;
    assert!(!c.on_redraw(frame));
    assert!(c.on_redraw(frame + 1));
    assert_eq!(c.pending, 60 * (frame as u128 + 1) - 1_000_000_000);
    assert!(!c.on_redraw(frame + 2));
}

#[test]
fn frame_clock_drops_a_long_backlog() {
    let mut c = FrameClock::new(60, 100);
    assert!(c.on_redraw(100 + 1_000_000_000));
    assert_eq!(c.pending, 0);
    let mut c = FrameClock::new(10, 0);
    assert!(c.on_redraw(250_000_000));
    assert_eq!(c.pending, 1_500_000_000);
}

#[test]
fn shader_file_splits_into_sections() {
    let src = b"#shader vertex\r\nvoid v();\nint a;\n#shader fragment\nvoid f();\n\nlast";
    let (v, f) = parse_shader(src);
    assert_eq!(String::from_utf8(v).unwrap(), "void v();\nint a;\n");
    assert_eq!(String::from_utf8(f).unwrap(), "void f();\n\nlast\n");
}

#[test]
fn shader_lines_before_a_section_are_dropped() {
    let src = b"// header\n#shader geometry\nkept nowhere\n#shader vertex\nx\n#shader\ny\n";
    let (v, f) = parse_shader(src);
    assert_eq!(String::from_utf8(v).unwrap(), "x\ny\n");
    assert!(f.is_empty());
    let (v, f) = parse_shader(b"");
    assert!(v.is_empty() && f.is_empty());
}
