use lightcycle::Direction;

#[test]
fn left_then_right_is_identity_for_all_headings() {
    let headings = [Direction::North, Direction::South, Direction::East, Direction::West];
    for h in headings {
        assert_eq!(h.left_turn().right_turn(), h);
        assert_eq!(h.right_turn().left_turn(), h);
    }
}

#[test]
fn four_left_turns_cycle_back() {
    let headings = [Direction::North, Direction::South, Direction::East, Direction::West];
    for h in headings {
        assert_eq!(h.left_turn().left_turn().left_turn().left_turn(), h);
        assert_eq!(h.right_turn().right_turn().right_turn().right_turn(), h);
    }
}

#[test]
fn turns_rotate_the_expected_way() {
    assert_eq!(Direction::North.left_turn(), Direction::West);
    assert_eq!(Direction::West.left_turn(), Direction::South);
    assert_eq!(Direction::South.left_turn(), Direction::East);
    assert_eq!(Direction::East.left_turn(), Direction::North);
    assert_eq!(Direction::North.right_turn(), Direction::East);
    assert_eq!(Direction::East.right_turn(), Direction::South);
    assert_eq!(Direction::South.right_turn(), Direction::West);
    assert_eq!(Direction::West.right_turn(), Direction::North);
}
