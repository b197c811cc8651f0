use lightcycle::build_arena;
use lightcycle::next_ahead;
use lightcycle::next_left;
use lightcycle::next_right;
use lightcycle::Direction;
use lightcycle::DrawMode;
use lightcycle::Framebuffer;
use lightcycle::GameState;
use lightcycle::TrigTables;

#[test]
fn sight_distances_from_the_centre_of_the_arena() {
    let g = build_arena();
    assert_eq!(next_ahead(&g, (20, 20), Direction::North), 20);
    assert_eq!(next_ahead(&g, (20, 20), Direction::East), 19);
    assert_eq!(next_ahead(&g, (20, 20), Direction::West), 20);
    assert_eq!(next_ahead(&g, (20, 20), Direction::South), 19);
    // Turn helpers look along the turned heading.
    assert_eq!(next_left(&g, (20, 20), Direction::North), 20);
    assert_eq!(next_right(&g, (20, 20), Direction::North), 19);
}

#[test]
fn sight_distance_stops_at_a_trail_cell() {
    let mut g = build_arena();
    g.set_cell(15, 20, 1);
    assert_eq!(next_ahead(&g, (20, 20), Direction::North), 5);
}

#[test]
fn step_moves_both_cycles_and_leaves_trails() {
    let mut s = GameState::new();
    s.step();
    assert_eq!(s.player.position, (19, 25));
    assert_eq!(s.rival.position, (38, 17));
    assert!(s.winner.is_none());
    assert_eq!(s.board.cell_at(20, 25), Some(1));
    assert_eq!(s.board.cell_at(38, 16), Some(2));
    assert_eq!(s.board.cell_at(19, 25), None);
}

#[test]
fn running_into_a_wall_loses() {
    let mut s = GameState::new();
    // Aim the human cycle at the adjacent wall cell.
    s.board.set_cell(19, 25, 0);
    s.step();
    assert_eq!(s.winner, Some(2));
}

#[test]
fn rival_crash_hands_the_win_to_the_player() {
    let mut s = GameState::new();
    s.board.set_cell(38, 17, 0);
    s.step();
    assert_eq!(s.winner, Some(1));
}

#[test]
fn rival_holds_course_in_the_open() {
    let mut s = GameState::new();
    s.ai();
    assert_eq!(s.rival.direction, Direction::East);
}

#[test]
fn rival_turns_into_the_longer_corridor() {
    let mut s = GameState::new();
    // Three cells of room toward the east wall: the long corridor is North.
    s.rival.position = (38, 36);
    s.ai();
    assert_eq!(s.rival.direction, Direction::North);
}

#[test]
fn advance_paces_the_step_by_the_frame_counter() {
    let mut s = GameState::new();
    assert_eq!(s.frame, 0);
    s.advance();
    // Frame 0 steps the cycles.
    assert_eq!(s.player.position, (19, 25));
    assert_eq!(s.frame, 1);
    let before = s.player.position;
    s.advance();
    // Frames 1..=8 only steer and count.
    assert_eq!(s.player.position, before);
    assert_eq!(s.frame, 2);
    for _ in 0..7 {
        s.advance();
    }
    assert_eq!(s.frame, 0);
    assert_eq!(s.player.position, before);
    s.advance();
    assert_eq!(s.player.position, (18, 25));
}

#[test]
fn mode_toggle_and_player_turns() {
    let mut s = GameState::new();
    assert!(matches!(s.mode, DrawMode::TwoD));
    s.toggle_mode();
    assert!(matches!(s.mode, DrawMode::ThreeD));
    s.toggle_mode();
    assert!(matches!(s.mode, DrawMode::TwoD));
    s.turn_player_left();
    assert_eq!(s.player.direction, Direction::West);
    s.turn_player_right();
    assert_eq!(s.player.direction, Direction::North);
}

#[test]
fn render_draws_both_modes() {
    let s = GameState::new();
    let t = TrigTables::new();
    let mut fb = Framebuffer::new();
    assert!(s.render(&t, &mut fb).is_ok());
    // Top-down: the player tile carries its colour over the board blit.
    assert_eq!(fb.pixel(20 * 4, 25 * 4), 1);
    assert_eq!(fb.pixel(38 * 4, 16 * 4), 2);
    assert_eq!(fb.pixel(0, 0), 0);
    assert_eq!(fb.pixel(80, 80), 3);
    let mut s2 = GameState::new();
    s2.toggle_mode();
    let mut fb2 = Framebuffer::new();
    assert!(s2.render(&t, &mut fb2).is_ok());
    // First-person: the centre row shows a wall, the top row background.
    assert_eq!(fb2.pixel(80, 80), 0);
    assert_eq!(fb2.pixel(0, 0), 3);
}

#[test]
fn arena_border_is_solid_and_interior_empty() {
    let g = build_arena();
    for i in 0..40 {
        assert_eq!(g.cell_at(0, i), Some(0));
        assert_eq!(g.cell_at(39, i), Some(0));
        assert_eq!(g.cell_at(i, 0), Some(0));
        assert_eq!(g.cell_at(i, 39), Some(0));
    }
    for r in 1..39 {
        for c in 1..39 {
            assert_eq!(g.cell_at(r, c), None);
        }
    }
}
