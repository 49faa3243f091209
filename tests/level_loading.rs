use omak::{Level, LevelManager};

fn rgb_from_codes(codes: &[u8]) -> Vec<u8> {
    let mut px = Vec::new();
    for &c in codes {
        px.push(c);
        px.push(200);
        px.push(7);
    }
    px
}

fn png_from_codes(width: u32, height: u32, codes: &[u8]) -> Vec<u8> {
    let img = image::RgbImage::from_raw(width, height, rgb_from_codes(codes)).unwrap();
    let mut buf = std::io::Cursor::new(Vec::new());
    image::DynamicImage::ImageRgb8(img)
        .write_to(&mut buf, image::ImageOutputFormat::Png)
        .unwrap();
    buf.into_inner()
}

#[test]
fn from_rgb8_takes_red_channel_row_major() {
    let codes = [1u8, 2, 3, 4, 5, 6];
    let level = Level::from_rgb8(3, 2, &rgb_from_codes(&codes)).unwrap();
    assert_eq!(level.width(), 3);
    assert_eq!(level.height(), 2);
    assert_eq!(level.get_sprite_index(0, 0), 1);
    assert_eq!(level.get_sprite_index(2, 0), 3);
    assert_eq!(level.get_sprite_index(0, 1), 4);
    assert_eq!(level.get_sprite_index(2, 1), 6);
}

#[test]
fn from_rgb8_rejects_short_pixel_data() {
    let px = rgb_from_codes(&[1, 2, 3, 4, 5]);
    assert!(Level::from_rgb8(3, 2, &px).is_none());
    let px = rgb_from_codes(&[1, 2, 3, 4, 5, 6]);
    assert!(Level::from_rgb8(3, 2, &px[..17]).is_none());
    assert!(Level::from_rgb8(3, 2, &px).is_some());
}

#[test]
fn from_rgb8_ignores_trailing_bytes() {
    let mut px = rgb_from_codes(&[9, 8]);
    px.push(77);
    let level = Level::from_rgb8(2, 1, &px).unwrap();
    assert_eq!(level.get_sprite_index(1, 0), 8);
}

#[test]
fn empty_level_from_rgb8() {
    let level = Level::from_rgb8(0, 0, &[]).unwrap();
    assert_eq!(level.width(), 0);
    assert_eq!(level.height(), 0);
}

#[test]
fn new_decodes_png_level() {
    let codes = [11u8, 11, 3, 11, 48, 0];
    let bytes = png_from_codes(3, 2, &codes);
    let level = Level::new(&bytes).unwrap();
    assert_eq!(level.width(), 3);
    assert_eq!(level.height(), 2);
    for y in 0..2 {
        for x in 0..3 {
            assert_eq!(level.get_sprite_index(x, y), codes[y * 3 + x] as usize);
        }
    }
}

#[test]
fn new_rejects_bytes_that_are_no_image() {
    assert!(Level::new(&[1, 2, 3, 4, 5]).is_none());
    assert!(Level::new(&[]).is_none());
}

#[test]
fn loading_same_asset_twice_gives_same_codes() {
    let codes = [11u8, 3, 3, 11, 11, 11, 200, 0, 11, 11, 11, 11];
    let bytes = png_from_codes(4, 3, &codes);
    let a = Level::new(&bytes).unwrap();
    let b = Level::new(&bytes).unwrap();
    assert_eq!(a.width(), b.width());
    assert_eq!(a.height(), b.height());
    for y in 0..3 {
        for x in 0..4 {
            assert_eq!(a.get_sprite_index(x, y), b.get_sprite_index(x, y));
        }
    }
}

#[test]
fn level_manager_rejects_bad_tile_size() {
    let codes = [11u8; 4];
    let level = Level::from_rgb8(2, 2, &rgb_from_codes(&codes)).unwrap();
    assert!(LevelManager::new(level, 0, 11).is_none());
    let level = Level::from_rgb8(2, 2, &rgb_from_codes(&codes)).unwrap();
    assert!(LevelManager::new(level, -5, 11).is_none());
    let level = Level::from_rgb8(2, 2, &rgb_from_codes(&codes)).unwrap();
    assert!(LevelManager::new(level, omak::COORD_LIMIT, 11).is_none());
    let level = Level::from_rgb8(2, 2, &rgb_from_codes(&codes)).unwrap();
    let m = LevelManager::new(level, omak::COORD_LIMIT / 2, 11).unwrap();
    assert_eq!(m.game_width(), omak::COORD_LIMIT / 2 * 2);
}

#[test]
fn tile_sprites_cover_the_grid_row_by_row() {
    let codes = [11u8, 3, 7, 11, 11, 5];
    let level = Level::from_rgb8(3, 2, &rgb_from_codes(&codes)).unwrap();
    let m = LevelManager::new(level, 48_000, 11).unwrap();
    let sprites = m.tile_sprites();
    assert_eq!(sprites.len(), 6);
    assert_eq!(sprites[2].x, 96_000);
    assert_eq!(sprites[2].y, 0);
    assert_eq!(sprites[2].texture, 7);
    assert_eq!(sprites[4].x, 48_000);
    assert_eq!(sprites[4].y, 48_000);
    assert_eq!(sprites[4].width, 48_000);
    assert_eq!(sprites[4].height, 48_000);
    assert_eq!(sprites[5].texture, 5);
}
