//! Tests of the display subsystem's data model: color resolution, the
//! row-write protocol, the palette/tile/sprite stores and the background
//! plane.

use tmod::color::ColorMode;
use tmod::errors::SysError;
use tmod::system::MatrixSystem;
use tmod::system::Sprite;
use tmod::system::Tile;

#[test]
fn viewport_height_sanity() {
    assert!(tmod::VIEWPORT_HEIGHT.is_power_of_two());
}

#[test]
fn tile_size_sanity() {
    assert!(tmod::TILE_SIZE.is_power_of_two());

    assert_eq!(tmod::VIEWPORT_HEIGHT % tmod::TILE_SIZE, 0);
    assert_eq!(tmod::VIEWPORT_WIDTH % tmod::TILE_SIZE, 0);
}

#[test]
fn viewport_dimensions_per_constants() {
    assert_eq!(tmod::VIEWPORT_HEIGHT, 128);
    assert_eq!(tmod::VIEWPORT_WIDTH, tmod::VIEWPORT_HEIGHT + tmod::VIEWPORT_HEIGHT / 2);
    assert_eq!(
        tmod::BACKGROUND_WIDTH,
        (tmod::VIEWPORT_WIDTH / tmod::TILE_SIZE) * 2
    );
    assert_eq!(
        tmod::BACKGROUND_HEIGHT,
        (tmod::VIEWPORT_HEIGHT / tmod::TILE_SIZE) * 2
    );
    assert_eq!(
        tmod::MAX_TILE_COUNT,
        tmod::BACKGROUND_WIDTH * tmod::BACKGROUND_HEIGHT * 4
    );
    assert_eq!(
        tmod::MAX_SCROLL_X,
        tmod::BACKGROUND_WIDTH * tmod::TILE_SIZE - tmod::VIEWPORT_WIDTH
    );
    assert_eq!(
        tmod::MAX_SCROLL_Y,
        tmod::BACKGROUND_HEIGHT * tmod::TILE_SIZE - tmod::VIEWPORT_HEIGHT
    );
}

#[test]
fn new_state_is_well_formed_and_black() {
    let sys = MatrixSystem::new();
    assert!(sys.is_well_formed());
    let fb = sys.framebuffer();
    assert_eq!(fb.len(), tmod::VIEWPORT_WIDTH * tmod::VIEWPORT_HEIGHT);
    assert!(fb.iter().all(|&px| px == 0));
}

#[test]
fn system_identifier() {
    assert_eq!(tmod::system_id(), "org.bakervm.tmod");
    assert_eq!(tmod::SYSTEM_MEM_PAGES, 1);
}

#[test]
fn direct_color_bit_fields() {
    // red bits 101 = 5, green bits 010 = 2, blue bits 11 = 3
    let byte: u8 = 0b101_010_11;
    let expected: u32 = (5 * 36 << 16) | (2 * 36 << 8) | 3 * 85;
    assert_eq!(expected, (180 << 16) | (72 << 8) | 255);
    assert_eq!(tmod::color::direct_color(byte), expected);

    assert_eq!(tmod::color::direct_color(0), 0);
    assert_eq!(tmod::color::direct_color(0xFF), (252 << 16) | (252 << 8) | 255);
}

#[test]
fn direct_mode_row_write() {
    let mut sys = MatrixSystem::new();
    sys.set_color_mode(ColorMode::Direct);
    let mut data = vec![0u8; tmod::VIEWPORT_WIDTH];
    for (c, b) in data.iter_mut().enumerate() {
        *b = (c % 256) as u8;
    }
    assert!(sys.write_row(2, &data).is_ok());
    let fb = sys.framebuffer();
    for c in 0..tmod::VIEWPORT_WIDTH {
        assert_eq!(
            fb[2 * tmod::VIEWPORT_WIDTH + c],
            tmod::color::direct_color(data[c])
        );
    }
    // rows other than the written one stay black
    assert!(fb[..2 * tmod::VIEWPORT_WIDTH].iter().all(|&px| px == 0));
    assert!(fb[3 * tmod::VIEWPORT_WIDTH..].iter().all(|&px| px == 0));
}

#[test]
fn row_write_is_idempotent() {
    let mut sys = MatrixSystem::new();
    for i in 0..16u8 {
        sys.set_palette_entry(1, i, 16 * i + 3);
    }
    sys.set_background_palette(1);
    let mut data = vec![0u8; tmod::VIEWPORT_WIDTH];
    for (c, b) in data.iter_mut().enumerate() {
        *b = (c % 16) as u8;
    }
    assert!(sys.write_row(7, &data).is_ok());
    let first = sys.framebuffer().clone();
    assert!(sys.write_row(7, &data).is_ok());
    assert_eq!(*sys.framebuffer(), first);
}

#[test]
fn row_write_out_of_range_fails_deterministically() {
    let mut sys = MatrixSystem::new();
    let data = vec![5u8; tmod::VIEWPORT_WIDTH];
    assert!(sys.write_row(0, &data).is_ok());
    let before = sys.framebuffer().clone();
    for row in [tmod::VIEWPORT_HEIGHT, tmod::VIEWPORT_HEIGHT + 1, 100_000] {
        assert_eq!(sys.write_row(row, &data), Err(SysError::OutOfRangeAccess));
        assert_eq!(*sys.framebuffer(), before);
    }
}

#[test]
fn palette_round_trip_in_order() {
    let mut sys = MatrixSystem::new();
    let colors: [u8; 16] = [
        3, 9, 27, 81, 243, 201, 111, 77, 55, 44, 33, 22, 11, 250, 128, 64,
    ];
    for (i, &entry) in colors.iter().enumerate() {
        sys.set_palette_entry(4, i as u8, entry);
    }
    sys.set_background_palette(4);
    let mut data = vec![0u8; tmod::VIEWPORT_WIDTH];
    for i in 0..16 {
        data[i] = i as u8;
    }
    assert!(sys.write_row(0, &data).is_ok());
    let fb = sys.framebuffer();
    for i in 0..16 {
        assert_eq!(fb[i], u32::from(colors[i]) * 2000);
        assert_eq!(sys.resolve_color(4, i as u8), u32::from(colors[i]) * 2000);
    }
}

#[test]
fn scroll_clamps_at_plane_edge() {
    let mut sys = MatrixSystem::new();
    sys.scroll_to(5, 7);
    assert_eq!(sys.viewport_pos, (5, 7));
    sys.scroll_to(tmod::MAX_SCROLL_X, tmod::MAX_SCROLL_Y);
    assert_eq!(sys.viewport_pos, (tmod::MAX_SCROLL_X, tmod::MAX_SCROLL_Y));
    sys.scroll_to(tmod::MAX_SCROLL_X + 1, tmod::MAX_SCROLL_Y + 1);
    assert_eq!(sys.viewport_pos, (tmod::MAX_SCROLL_X, tmod::MAX_SCROLL_Y));
    sys.scroll_to(usize::MAX, usize::MAX);
    assert_eq!(sys.viewport_pos, (tmod::MAX_SCROLL_X, tmod::MAX_SCROLL_Y));
    assert!(sys.is_well_formed());
}

#[test]
fn tile_pixels_unpack_nibbles() {
    let row = 0x0123_4567u32;
    let tile = Tile([row; 8]);
    for y in 0..8 {
        for x in 0..8 {
            assert_eq!(tile.pixel(x, y), x as u8);
        }
    }
    let blank = Tile::blank();
    for y in 0..8 {
        for x in 0..8 {
            assert_eq!(blank.pixel(x, y), 0);
        }
    }
}

#[test]
fn tile_store_roundtrip() {
    let mut sys = MatrixSystem::new();
    let tile = Tile([0xDEAD_BEEF; 8]);
    sys.set_tile(5, tile);
    assert_eq!(sys.get_tile(5), tile);
    assert_eq!(sys.get_tile(4), Tile::blank());
    let last = (tmod::MAX_TILE_COUNT - 1) as u16;
    sys.set_tile(last, tile);
    assert_eq!(sys.get_tile(last), tile);
}

#[test]
fn sprite_table_roundtrip() {
    let mut sys = MatrixSystem::new();
    let mut refs = [0u16; 32];
    refs[0] = 7;
    refs[31] = 42;
    let sprite = Sprite {
        palette: 3,
        width: 2,
        height: 1,
        tiles: refs,
    };
    sys.set_sprite(200, sprite);
    assert_eq!(sys.get_sprite(200), sprite);
    assert_eq!(sys.get_sprite(0), Sprite::empty());
}

#[test]
fn background_plane_holds_weak_tile_references() {
    let mut sys = MatrixSystem::new();
    let tile = Tile([0x1111_1111; 8]);
    sys.set_tile(9, tile);
    sys.set_plane_tile(1, 2, 9);
    assert_eq!(sys.plane_tile_id(1, 2), 9);
    assert_eq!(sys.tile_at(1, 2), tile);
    // overwriting the referenced slot is valid: the plane shows the new tile
    let other = Tile([0x2222_2222; 8]);
    sys.set_tile(9, other);
    assert_eq!(sys.tile_at(1, 2), other);
    assert!(sys.is_well_formed());
}

#[test]
fn quit_poll_reports_exactly_once() {
    let mut sys = MatrixSystem::new();
    assert!(!sys.quit_poll(false));
    assert!(sys.quit_poll(true));
    assert!(!sys.quit_poll(true));
    assert!(!sys.quit_poll(false));
    assert!(!sys.quit_poll(true));
    assert!(sys.halt_sent);
}
