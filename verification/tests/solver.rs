use lightcycle::build_arena;
use lightcycle::draw_3d;
use lightcycle::find_horizontal_intersection;
use lightcycle::find_intersection;
use lightcycle::find_vertical_intersection;
use lightcycle::raycast::isqrt;
use lightcycle::raycast::slice_height;
use lightcycle::Direction;
use lightcycle::Framebuffer;
use lightcycle::Grid;
use lightcycle::IntersectionKind;
use lightcycle::TrigTables;

// Angle units: 1920 per revolution; 480 is a quarter turn (straight North on
// screen), 0 points East, 960 West, 1440 South.

#[test]
fn camera_at_20_20_facing_north_hits_top_border() {
    let g = build_arena();
    let t = TrigTables::new();
    // Straight-ahead ray: the horizontal march must find the top border row
    // at the exact squared Euclidean distance from the sub-cell ray origin
    // (80, 80-ish) to the border line: origin y = 80, hit y = 3, x equal.
    let h = find_horizontal_intersection(&g, &t, (20, 20), 480, Direction::North).unwrap();
    assert!(matches!(h.kind, IntersectionKind::HorizontalGrid));
    assert_eq!(h.dist_sq, 77 * 77);
    assert_eq!(h.colour, 0);
    // The vertical march abstains at the degenerate angle.
    assert!(find_vertical_intersection(&g, &t, (20, 20), 480, Direction::North).is_none());
    let c = find_intersection(&g, &t, (20, 20), 480, Direction::North).unwrap();
    assert_eq!(c.dist_sq, 5929);
    assert!(matches!(c.kind, IntersectionKind::HorizontalGrid));
}

#[test]
fn degenerate_angles_resolve_through_the_other_march() {
    let g = build_arena();
    let t = TrigTables::new();
    // Angle 0: exactly horizontal; the horizontal march abstains, the
    // vertical one finds the right border.
    assert!(find_horizontal_intersection(&g, &t, (20, 20), 0, Direction::East).is_none());
    let v = find_vertical_intersection(&g, &t, (20, 20), 0, Direction::East).unwrap();
    assert_eq!(v.dist_sq, 72 * 72);
    assert!(find_intersection(&g, &t, (20, 20), 0, Direction::East).is_some());
    // Angle 960: exactly horizontal the other way.
    assert!(find_horizontal_intersection(&g, &t, (20, 20), 960, Direction::West).is_none());
    let v = find_vertical_intersection(&g, &t, (20, 20), 960, Direction::West).unwrap();
    assert_eq!(v.dist_sq, 77 * 77);
    // Angle 1440: exactly vertical downward.
    assert!(find_vertical_intersection(&g, &t, (20, 20), 1440, Direction::South).is_none());
    let h = find_horizontal_intersection(&g, &t, (20, 20), 1440, Direction::South).unwrap();
    assert_eq!(h.dist_sq, 72 * 72);
}

#[test]
fn equal_distance_tie_favours_the_horizontal_march() {
    // Two wall cells placed so that at angle 401 both marches hit at the
    // same squared distance 85; the combined result must be the horizontal
    // hit, deterministically.
    let mut g = build_arena();
    g.set_cell(17, 21, 1);
    g.set_cell(21, 22, 2);
    let t = TrigTables::new();
    let h = find_horizontal_intersection(&g, &t, (20, 20), 401, Direction::North).unwrap();
    let v = find_vertical_intersection(&g, &t, (20, 20), 401, Direction::North).unwrap();
    assert_eq!(h.dist_sq, 85);
    assert_eq!(v.dist_sq, 85);
    assert_eq!(h.colour, 1);
    assert_eq!(v.colour, 2);
    let c = find_intersection(&g, &t, (20, 20), 401, Direction::North).unwrap();
    assert!(matches!(c.kind, IntersectionKind::HorizontalGrid));
    assert_eq!(c.colour, 1);
}

#[test]
fn distance_grows_and_slice_shrinks_as_camera_backs_away() {
    let g = build_arena();
    let t = TrigTables::new();
    let rows = [5usize, 10, 20, 30, 38];
    let expected_dsq = [289u32, 1369, 5929, 13689, 22201];
    let expected_height = [64u32, 29, 14, 9, 7];
    let mut prev_dsq = 0u32;
    let mut prev_height = u32::MAX;
    for (i, r) in rows.iter().enumerate() {
        let h = find_horizontal_intersection(&g, &t, (*r, 20), 480, Direction::North).unwrap();
        assert_eq!(h.dist_sq, expected_dsq[i]);
        let sh = slice_height(h.dist_sq);
        assert_eq!(sh, expected_height[i]);
        assert!(h.dist_sq >= prev_dsq);
        assert!(sh <= prev_height);
        prev_dsq = h.dist_sq;
        prev_height = sh;
    }
}

#[test]
fn isqrt_rounds_down() {
    assert_eq!(isqrt(0), 0);
    assert_eq!(isqrt(1), 1);
    assert_eq!(isqrt(3), 1);
    assert_eq!(isqrt(4), 2);
    assert_eq!(isqrt(15), 3);
    assert_eq!(isqrt(16), 4);
    assert_eq!(isqrt(5929), 77);
    assert_eq!(isqrt(u32::MAX), 65535);
}

#[test]
fn slice_height_is_projection_constant_over_distance() {
    assert_eq!(slice_height(5929), 14);  // 1104 / 77
    assert_eq!(slice_height(16), 276);  // 1104 / 4
    assert_eq!(slice_height(1), 1104);
    // A hit at distance below one unit saturates to the full-wall height.
    assert_eq!(slice_height(0), 1104);
}

#[test]
fn missing_intersection_is_reported_and_aborts_the_render() {
    // A grid without any occupied cell breaks the border invariant: both
    // marches run out of the projection area and the render pass aborts.
    let g = Grid::new_empty();
    let t = TrigTables::new();
    assert!(find_intersection(&g, &t, (20, 20), 480, Direction::North).is_none());
    assert!(find_intersection(&g, &t, (20, 20), 333, Direction::North).is_none());
    let mut fb = Framebuffer::new();
    assert!(draw_3d(&g, &t, &mut fb, (20, 20), Direction::North).is_err());
}
