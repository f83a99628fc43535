use libdmg::peripherals::interrupts::{InterruptMask, InterruptSource};
use libdmg::peripherals::video::{palette_shade, tile_pixel, Lcdc, Mode, OamEntry, Video};
use libdmg::peripherals::Peripherals;
use libdmg::{Cartridge, Fault};

fn bus() -> Peripherals {
    Peripherals::new(vec![0u8; 256], Cartridge::new(vec![0u8; 0x8000], None))
}

/// Tile 1 has colour 1 on its whole first row and colour 3 on its second row;
/// tile 2 has colour 3 in the first column of its first row.
fn bus_with_tiles() -> Peripherals {
    let mut bus = bus();
    bus.write(0, 0x8010, 0xff).unwrap();
    bus.write(0, 0x8011, 0x00).unwrap();
    bus.write(0, 0x8012, 0xff).unwrap();
    bus.write(0, 0x8013, 0xff).unwrap();
    bus.write(0, 0x8020, 0x80).unwrap();
    bus.write(0, 0x8021, 0x80).unwrap();
    bus.write(0, 0x9800, 1).unwrap();
    bus.write(0, 0xff47, 0x1b).unwrap();
    bus
}

fn pixel(picture: &[u8; 23040], x: usize, y: usize) -> u8 {
    picture[y * 160 + x]
}

#[test]
fn nothing_is_drawn_before_a_line_has_ended() {
    let mut bus = bus_with_tiles();
    bus.write(0, 0xff40, 0x91).unwrap();
    let picture = bus.framebuffer(455).unwrap();
    assert_eq!(picture.len(), 160 * 144);
    assert!(picture.iter().all(|shade| *shade == 0));
}

#[test]
fn background_line_is_drawn_when_it_has_ended() {
    let mut bus = bus_with_tiles();
    bus.write(0, 0xff40, 0x91).unwrap();
    let picture = bus.framebuffer(456).unwrap();
    for x in 0..8 {
        assert_eq!(pixel(picture, x, 0), 2);
    }
    for x in 8..160 {
        assert_eq!(pixel(picture, x, 0), 3);
    }
    assert_eq!(pixel(picture, 0, 1), 0);
    let picture = bus.framebuffer(912).unwrap();
    for x in 0..8 {
        assert_eq!(pixel(picture, x, 1), 0);
    }
    assert_eq!(pixel(picture, 8, 1), 3);
    assert_eq!(pixel(picture, 0, 2), 0);
}

#[test]
fn whole_frame_is_drawn_after_a_frame() {
    let mut bus = bus_with_tiles();
    bus.write(0, 0xff40, 0x91).unwrap();
    let picture = bus.framebuffer(70224).unwrap();
    assert_eq!(pixel(picture, 0, 0), 2);
    assert_eq!(pixel(picture, 0, 1), 0);
    assert_eq!(pixel(picture, 0, 2), 3);
    assert_eq!(pixel(picture, 159, 143), 3);
    assert!(picture.iter().all(|shade| *shade <= 3));
}

#[test]
fn background_scrolls() {
    let mut bus = bus_with_tiles();
    bus.write(0, 0xff43, 4).unwrap();
    bus.write(0, 0xff42, 1).unwrap();
    bus.write(0, 0xff40, 0x91).unwrap();
    let picture = bus.framebuffer(456).unwrap();
    // Line 0 shows row 1 of the map, columns from 4 on.
    for x in 0..4 {
        assert_eq!(pixel(picture, x, 0), 0);
    }
    assert_eq!(pixel(picture, 4, 0), 3);
    assert_eq!(pixel(picture, 152, 0), 3);
}

#[test]
fn background_scroll_wraps_around_the_map() {
    let mut bus = bus_with_tiles();
    bus.write(0, 0xff43, 250).unwrap();
    bus.write(0, 0xff40, 0x91).unwrap();
    let picture = bus.framebuffer(456).unwrap();
    for x in 0..6 {
        assert_eq!(pixel(picture, x, 0), 3);
    }
    for x in 6..14 {
        assert_eq!(pixel(picture, x, 0), 2);
    }
    assert_eq!(pixel(picture, 14, 0), 3);
}

#[test]
fn signed_tile_numbers_below_0x9000() {
    let mut bus = bus();
    bus.write(0, 0x9000, 0xff).unwrap();
    bus.write(0, 0x8ff0, 0x00).unwrap();
    bus.write(0, 0x8ff1, 0xff).unwrap();
    bus.write(0, 0x9800, 0x00).unwrap();
    bus.write(0, 0x9801, 0xff).unwrap();
    bus.write(0, 0xff47, 0xe4).unwrap();
    bus.write(0, 0xff40, 0x81).unwrap();
    let picture = bus.framebuffer(456).unwrap();
    assert_eq!(pixel(picture, 0, 0), 1);
    assert_eq!(pixel(picture, 8, 0), 2);
    assert_eq!(pixel(picture, 16, 0), 1);
}

#[test]
fn second_tile_map() {
    let mut bus = bus_with_tiles();
    bus.write(0, 0x9c01, 1).unwrap();
    bus.write(0, 0xff40, 0x99).unwrap();
    let picture = bus.framebuffer(456).unwrap();
    assert_eq!(pixel(picture, 0, 0), 3);
    assert_eq!(pixel(picture, 8, 0), 2);
}

#[test]
fn window_covers_the_background() {
    let mut bus = bus_with_tiles();
    bus.write(0, 0xff4a, 0).unwrap();
    bus.write(0, 0xff4b, 7 + 4).unwrap();
    bus.write(0, 0xff40, 0xf1).unwrap();
    let picture = bus.framebuffer(456).unwrap();
    for x in 0..4 {
        assert_eq!(pixel(picture, x, 0), 2);
    }
    for x in 4..160 {
        assert_eq!(pixel(picture, x, 0), 3);
    }
}

#[test]
fn window_starts_at_its_line() {
    let mut bus = bus_with_tiles();
    bus.write(0, 0x9c00, 1).unwrap();
    bus.write(0, 0xff4a, 1).unwrap();
    bus.write(0, 0xff4b, 7).unwrap();
    bus.write(0, 0xff47, 0xe4).unwrap();
    bus.write(0, 0xff40, 0xf1).unwrap();
    let picture = bus.framebuffer(912).unwrap();
    assert_eq!(pixel(picture, 0, 0), 1);
    assert_eq!(pixel(picture, 8, 0), 0);
    // Line 1 is the window's row 0.
    assert_eq!(pixel(picture, 0, 1), 1);
    assert_eq!(pixel(picture, 8, 1), 0);
}

#[test]
fn window_left_of_the_screen() {
    let mut bus = bus_with_tiles();
    bus.write(0, 0x9c00, 1).unwrap();
    bus.write(0, 0xff4b, 3).unwrap();
    bus.write(0, 0xff47, 0xe4).unwrap();
    bus.write(0, 0xff40, 0xf1).unwrap();
    let picture = bus.framebuffer(456).unwrap();
    for x in 0..4 {
        assert_eq!(pixel(picture, x, 0), 1);
    }
    assert_eq!(pixel(picture, 4, 0), 0);
}

#[test]
fn object_is_drawn_over_the_background() {
    let mut bus = bus_with_tiles();
    bus.write(0, 0xfe00, 16).unwrap();
    bus.write(0, 0xfe01, 8).unwrap();
    bus.write(0, 0xfe02, 2).unwrap();
    bus.write(0, 0xfe03, 0x00).unwrap();
    bus.write(0, 0xff48, 0x40).unwrap();
    bus.write(0, 0xff40, 0x93).unwrap();
    let picture = bus.framebuffer(912).unwrap();
    assert_eq!(pixel(picture, 0, 0), 1);
    assert_eq!(pixel(picture, 1, 0), 2);
    assert_eq!(pixel(picture, 0, 1), 0);
}

#[test]
fn object_flips_and_second_palette() {
    let mut bus = bus_with_tiles();
    bus.write(0, 0xfe00, 16 + 3).unwrap();
    bus.write(0, 0xfe01, 8 + 20).unwrap();
    bus.write(0, 0xfe02, 2).unwrap();
    bus.write(0, 0xfe03, 0x70).unwrap();
    bus.write(0, 0xff48, 0x00).unwrap();
    bus.write(0, 0xff49, 0x40).unwrap();
    bus.write(0, 0xff40, 0x92).unwrap();
    let picture = bus.framebuffer(70224).unwrap();
    // Flipped both ways, the tile's top left pixel shows at the object's bottom right.
    assert_eq!(pixel(picture, 27, 10), 1);
    assert_eq!(pixel(picture, 20, 3), 0);
    assert_eq!(pixel(picture, 26, 10), 0);
    assert_eq!(picture.iter().filter(|shade| **shade != 0).count(), 1);
}

#[test]
fn object_behind_the_background() {
    let mut bus = bus_with_tiles();
    bus.write(0, 0xfe00, 16).unwrap();
    bus.write(0, 0xfe01, 8).unwrap();
    bus.write(0, 0xfe02, 2).unwrap();
    bus.write(0, 0xfe03, 0x80).unwrap();
    bus.write(0, 0xfe04, 16).unwrap();
    bus.write(0, 0xfe05, 8 + 8).unwrap();
    bus.write(0, 0xfe06, 2).unwrap();
    bus.write(0, 0xfe07, 0x80).unwrap();
    bus.write(0, 0xff48, 0x40).unwrap();
    bus.write(0, 0xff40, 0x93).unwrap();
    let picture = bus.framebuffer(456).unwrap();
    // Over background colour 1 the object stays hidden, over colour 0 it shows.
    assert_eq!(pixel(picture, 0, 0), 2);
    assert_eq!(pixel(picture, 8, 0), 1);
}

#[test]
fn object_partly_off_screen() {
    let mut bus = bus();
    bus.write(0, 0x8020, 0x81).unwrap();
    bus.write(0, 0x8021, 0x81).unwrap();
    bus.write(0, 0xfe00, 16).unwrap();
    bus.write(0, 0xfe01, 1).unwrap();
    bus.write(0, 0xfe02, 2).unwrap();
    bus.write(0, 0xfe04, 16).unwrap();
    bus.write(0, 0xfe05, 167).unwrap();
    bus.write(0, 0xfe06, 2).unwrap();
    bus.write(0, 0xff48, 0xc0).unwrap();
    bus.write(0, 0xff40, 0x82).unwrap();
    let picture = bus.framebuffer(456).unwrap();
    assert_eq!(pixel(picture, 0, 0), 3);
    assert_eq!(pixel(picture, 159, 0), 3);
    assert_eq!(picture.iter().filter(|shade| **shade != 0).count(), 2);
}

#[test]
fn tall_objects_fail() {
    let mut bus = bus();
    bus.write(0, 0xff40, 0x86).unwrap();
    assert!(bus.framebuffer(455).is_ok());
    assert_eq!(bus.framebuffer(456).err(), Some(Fault::TallObjects));
    assert_eq!(bus.write(456, 0x8000, 1), Err(Fault::TallObjects));
    assert_eq!(bus.read(456, 0x8000), Ok(0));
    // Tall objects that are not shown do no harm.
    bus.write(0, 0xff40, 0x84).unwrap();
    assert!(bus.framebuffer(456).is_ok());
}

#[test]
fn writes_take_effect_after_the_lines_that_ended() {
    let mut bus = bus_with_tiles();
    bus.write(0, 0xff40, 0x91).unwrap();
    bus.write(456, 0xff47, 0xe4).unwrap();
    let picture = bus.framebuffer(912).unwrap();
    assert_eq!(pixel(picture, 0, 0), 2);
    assert_eq!(pixel(picture, 8, 0), 3);
    assert_eq!(pixel(picture, 0, 1), 3);
    assert_eq!(pixel(picture, 8, 1), 0);
}

#[test]
fn rendering_skips_the_vertical_blank() {
    let mut bus = bus_with_tiles();
    bus.write(0, 0xff40, 0x91).unwrap();
    bus.framebuffer(70224).unwrap();
    bus.write(70224, 0xff47, 0xe4).unwrap();
    let picture = bus.framebuffer(70224 + 456).unwrap();
    assert_eq!(pixel(picture, 0, 0), 1);
    assert_eq!(pixel(picture, 8, 0), 0);
    assert_eq!(pixel(picture, 0, 1), 0);
    assert_eq!(pixel(picture, 8, 1), 3);
}

#[test]
fn stat_and_ly() {
    let mut bus = bus();
    assert_eq!(bus.read(0, 0xff40), Ok(0x80));
    assert_eq!(bus.read(456 * 5 + 10, 0xff44), Ok(5));
    assert_eq!(bus.read(456 * 5 + 10, 0xff41), Ok(3));
    assert_eq!(bus.read(79, 0xff41), Ok(7));
    assert_eq!(bus.read(80, 0xff41), Ok(6));
    assert_eq!(bus.read(251, 0xff41), Ok(6));
    assert_eq!(bus.read(252, 0xff41), Ok(4));
    assert_eq!(bus.read(455, 0xff41), Ok(4));
    assert_eq!(bus.read(65664, 0xff41), Ok(1));
    assert_eq!(bus.read(65664, 0xff44), Ok(144));
    assert_eq!(bus.read(70223, 0xff44), Ok(153));
    assert_eq!(bus.read(70224, 0xff44), Ok(0));
    bus.write(0, 0xff45, 144).unwrap();
    assert_eq!(bus.read(0, 0xff45), Ok(144));
    assert_eq!(bus.read(65664, 0xff41), Ok(5));
    assert_eq!(bus.write(0, 0xff41, 0), Ok(()));
    assert_eq!(bus.write(0, 0xff41, 0x40), Err(Fault::StatWrite(0x40)));
    assert_eq!(bus.write(0, 0xff44, 9), Ok(()));
    assert_eq!(bus.read(0, 0xff44), Ok(0));
}

#[test]
fn lcd_enable_restarts_the_timing() {
    let mut bus = bus();
    bus.write(1000, 0xff40, 0x00).unwrap();
    assert_eq!(bus.read(5000, 0xff44), Ok(0));
    bus.write(10_000, 0xff40, 0x80).unwrap();
    assert_eq!(bus.read(10_000, 0xff44), Ok(0));
    assert_eq!(bus.read(10_000 + 456 * 3, 0xff44), Ok(3));
    assert_eq!(bus.next_pending(10_000), 10_000 + 65664);
}

#[test]
fn plain_video_registers() {
    let mut bus = bus();
    for (addr, val) in [(0xff42u16, 1u8), (0xff43, 2), (0xff45, 3), (0xff47, 4), (0xff48, 5), (0xff49, 6), (0xff4a, 7), (0xff4b, 8), (0x8000, 9), (0x9fff, 10), (0xfe00, 11), (0xfe9f, 12)] {
        bus.write(0, addr, val).unwrap();
        assert_eq!(bus.read(0, addr), Ok(val));
    }
}

#[test]
fn video_unit_alone() {
    let mut video = Video::new();
    assert_eq!(video.line(456 * 143), 143);
    assert_eq!(video.cycle_in_line(457), 1);
    assert_eq!(video.cycle_in_frame(70225), 1);
    assert_eq!(video.frame(70224 * 3 + 5), 3);
    assert_eq!(video.mode(0), Mode::OamScan);
    assert_eq!(video.mode(100), Mode::Drawing);
    assert_eq!(video.mode(300), Mode::HBlank);
    assert_eq!(video.mode(456 * 150), Mode::VBlank);
    assert_eq!(video.write(0, 0xfe04, 1), Ok(()));
    assert_eq!(video.write(0, 0xfe07, 0xf0), Ok(()));
    assert_eq!(video.oam_entry(1), OamEntry { y: 1, x: 0, idx: 0, flags: 0xf0 });
    assert!(video.oam_entry(1).below_bg());
    assert!(video.oam_entry(1).flip_y());
    assert!(video.oam_entry(1).flip_x());
    assert!(video.oam_entry(1).obp1());
    assert!(!video.oam_entry(0).obp1());
    video.write(0, 0x8000, 0x12).unwrap();
    assert_eq!(video.video_ram_read(0x8000), 0x12);
    video.write(0, 0x9005, 0x34).unwrap();
    video.write(0, 0x8ff4, 0x56).unwrap();
    assert_eq!(video.get_bg_win_tile_row(0, 2), (0, 0x34));
    assert_eq!(video.get_bg_win_tile_row(255, 2), (0x56, 0));
    video.write(0, 0x8014, 0x78).unwrap();
    assert_eq!(video.get_obj_tile_row(1, 2), (0x78, 0));
    video.write(0, 0xff40, 0x90).unwrap();
    assert_eq!(video.get_bg_win_tile_row(1, 2), (0x78, 0));
    assert_eq!(video.pending(0), InterruptMask(0));
    video.set_pending(0, InterruptMask(0x03));
    assert_eq!(video.pending(0), InterruptMask(0x03));
    video.set_pending(0, InterruptMask(0x02));
    assert_eq!(video.pending(0), InterruptMask(0x02));
    assert_eq!(video.render_until(70224), Ok(()));
}

#[test]
fn lcdc_bits() {
    let lcdc = Lcdc(0b1010_1010);
    assert!(lcdc.lcd_enable());
    assert_eq!(lcdc.window_tile_map_base(), 0x9800);
    assert!(lcdc.window_enable());
    assert_eq!(lcdc.bg_win_tile_base(), 0x8800);
    assert_eq!(lcdc.background_tile_map_base(), 0x9c00);
    assert_eq!(lcdc.obj_size(), 8);
    assert!(lcdc.obj_enable());
    assert!(!lcdc.bw_win_enable());
    assert!(lcdc.bit(7));
    assert!(!lcdc.bit(0));
    let lcdc = Lcdc(0b0101_0101);
    assert!(!lcdc.lcd_enable());
    assert_eq!(lcdc.window_tile_map_base(), 0x9c00);
    assert_eq!(lcdc.bg_win_tile_base(), 0x8000);
    assert_eq!(lcdc.background_tile_map_base(), 0x9800);
    assert_eq!(lcdc.obj_size(), 16);
    assert!(lcdc.bw_win_enable());
}

#[test]
fn tile_pixels_and_shades() {
    assert_eq!(tile_pixel(0x80, 0x00, 0), 1);
    assert_eq!(tile_pixel(0x00, 0x80, 0), 2);
    assert_eq!(tile_pixel(0x80, 0x80, 0), 3);
    assert_eq!(tile_pixel(0x80, 0x80, 1), 0);
    assert_eq!(tile_pixel(0x01, 0x00, 7), 1);
    assert_eq!(tile_pixel(0x3c, 0x7e, 1), 2);
    assert_eq!(tile_pixel(0x3c, 0x7e, 2), 3);
    assert_eq!(palette_shade(0xe4, 0), 0);
    assert_eq!(palette_shade(0xe4, 1), 1);
    assert_eq!(palette_shade(0xe4, 2), 2);
    assert_eq!(palette_shade(0xe4, 3), 3);
    assert_eq!(palette_shade(0x1b, 0), 3);
    assert_eq!(palette_shade(0x1b, 3), 0);
}
