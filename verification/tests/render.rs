use lightcycle::build_arena;
use lightcycle::draw_players;
use lightcycle::draw_3d;
use lightcycle::raycast::angle_for;
use lightcycle::Direction;
use lightcycle::Framebuffer;
use lightcycle::Player;
use lightcycle::TrigTables;

#[test]
fn frame_renders_for_all_headings_inside_solid_border() {
    let g = build_arena();
    let t = TrigTables::new();
    let headings = [Direction::North, Direction::South, Direction::East, Direction::West];
    for dir in headings {
        for pos in [(1usize, 1usize), (1, 38), (38, 1), (38, 38), (20, 20)] {
            let mut fb = Framebuffer::new();
            let res = draw_3d(&g, &t, &mut fb, pos, dir);
            assert!(res.is_ok());
            // Every pixel was written: an empty arena shows only wall
            // colour 0 and background 3, never the initial zero pattern's
            // mix with other colours.
            for row in 0..160 {
                for col in 0..160 {
                    let c = fb.pixel(row, col);
                    assert!(c == 0 || c == 3);
                }
            }
        }
    }
}

#[test]
fn wall_slice_is_centred_and_bounded() {
    let g = build_arena();
    let t = TrigTables::new();
    let mut fb = Framebuffer::new();
    assert!(draw_3d(&g, &t, &mut fb, (20, 20), Direction::North).is_ok());
    // Column 0 samples angle 559; its slice height is 12: rows 75..=85 show
    // the wall, the rest the background.
    for row in 0..160 {
        let expect = if row > 74 && row < 86 { 0 } else { 3 };
        assert_eq!(fb.pixel(row, 0), expect);
    }
    // Column 79 samples the straight-ahead angle 480; height 14: rows
    // 74..=86.
    for row in 0..160 {
        let expect = if row > 73 && row < 87 { 0 } else { 3 };
        assert_eq!(fb.pixel(row, 79), expect);
    }
    // Column 159 samples angle 400; height 13: strictly between 80 - 6 and
    // 80 + 6.
    for row in 0..160 {
        let expect = if row > 74 && row < 86 { 0 } else { 3 };
        assert_eq!(fb.pixel(row, 159), expect);
    }
}

#[test]
fn east_heading_angle_sequence_wraps_without_a_seam() {
    assert_eq!(angle_for(Direction::East, 79), 0);
    assert_eq!(angle_for(Direction::East, 80), 1919);
    assert_eq!(angle_for(Direction::East, 0), 79);
    assert_eq!(angle_for(Direction::East, 159), 1840);
    assert_eq!(angle_for(Direction::North, 0), 559);
    assert_eq!(angle_for(Direction::North, 159), 400);
    assert_eq!(angle_for(Direction::South, 0), 1519);
    assert_eq!(angle_for(Direction::West, 0), 1039);
}

#[test]
fn set_pixel_touches_exactly_two_bits() {
    let mut fb = Framebuffer::new();
    fb.set_pixel(0, 0, 2);
    // The leftmost pixel of a byte sits in the two highest bits.
    assert_eq!(fb.byte_at(0), 0b1000_0000);
    fb.set_pixel(0, 3, 1);
    assert_eq!(fb.byte_at(0), 0b1000_0001);
    fb.set_pixel(0, 0, 3);
    assert_eq!(fb.byte_at(0), 0b1100_0001);
    assert_eq!(fb.pixel(0, 0), 3);
    assert_eq!(fb.pixel(0, 1), 0);
    assert_eq!(fb.pixel(0, 2), 0);
    assert_eq!(fb.pixel(0, 3), 1);
    // Other rows untouched.
    assert_eq!(fb.byte_at(40), 0);
}

#[test]
fn draw_tile_fills_a_four_by_four_block() {
    let mut fb = Framebuffer::new();
    fb.draw_tile(1, 2, 3);
    for row in 0..160 {
        for col in 0..160 {
            let expect = if row / 4 == 1 && col / 4 == 2 { 3 } else { 0 };
            assert_eq!(fb.pixel(row, col), expect);
        }
    }
    // Each written byte packs the colour four times.
    assert_eq!(fb.byte_at(4 * 40 + 2), 0xff);
}

#[test]
fn draw_board_blits_walls_and_background() {
    let g = build_arena();
    let mut fb = Framebuffer::new();
    fb.draw_board(&g);
    // A border tile shows the wall colour, an interior tile the background.
    assert_eq!(fb.pixel(0, 0), 0);
    assert_eq!(fb.pixel(159, 159), 0);
    assert_eq!(fb.pixel(2, 157), 0);
    assert_eq!(fb.pixel(80, 80), 3);
    assert_eq!(fb.pixel(4, 4), 3);
}

#[test]
fn draw_players_overlays_head_tiles() {
    let g = build_arena();
    let mut fb = Framebuffer::new();
    fb.draw_board(&g);
    let p = Player { index: 1, direction: Direction::North, position: (20, 25) };
    let r = Player { index: 2, direction: Direction::East, position: (38, 16) };
    draw_players(&mut fb, &p, &r);
    assert_eq!(fb.pixel(20 * 4 + 3, 25 * 4 + 3), 1);
    assert_eq!(fb.pixel(38 * 4, 16 * 4), 2);
    // Board pixels elsewhere untouched.
    assert_eq!(fb.pixel(80, 80), 3);
    assert_eq!(fb.pixel(0, 0), 0);
}
