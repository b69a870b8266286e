use snake::direction::Direction;

#[test]
fn opposite_of_each_heading() {
    assert_eq!(Direction::Up.opposite(), Direction::Down);
    assert_eq!(Direction::Down.opposite(), Direction::Up);
    assert_eq!(Direction::Left.opposite(), Direction::Right);
    assert_eq!(Direction::Right.opposite(), Direction::Left);
}

#[test]
fn opposite_is_an_involution() {
    for d in [Direction::Up, Direction::Down, Direction::Left, Direction::Right] {
        assert_eq!(d.opposite().opposite(), d);
        assert!(d.is_opposite(d.opposite()));
        assert_ne!(d.opposite(), d);
    }
}

#[test]
fn is_opposite_rejects_non_opposites() {
    assert!(!Direction::Up.is_opposite(Direction::Left));
    assert!(!Direction::Up.is_opposite(Direction::Up));
    assert!(Direction::Up.is_opposite(Direction::Down));
}

#[test]
fn glyphs_match_headings() {
    assert_eq!(Direction::Up.glyph(), '^');
    assert_eq!(Direction::Down.glyph(), 'v');
    assert_eq!(Direction::Left.glyph(), '<');
    assert_eq!(Direction::Right.glyph(), '>');
}
