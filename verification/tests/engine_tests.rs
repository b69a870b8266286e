use snake::body::Body;
use snake::direction::Direction;
use snake::engine::{Effect, Game, Key, Msg};
use snake::grid::{Grid, Position, Tile};

fn game_with_body(
    width: isize,
    height: isize,
    cells: &[(isize, isize)],
    heading: Direction,
) -> Game {
    let mut grid = Grid::new(width, height);
    let mut body = Body::new();
    for &(x, y) in cells {
        let p = Position { x, y };
        grid.set(p, Tile::Snake);
        body.push_head(p);
    }
    let (hx, hy) = cells[cells.len() - 1];
    Game {
        width,
        height,
        close_requested: false,
        direction: Some(heading),
        position: Position { x: hx, y: hy },
        grid,
        body,
        sleep_ms: 70,
    }
}

fn first_close_message(effects: &[Effect]) -> Option<String> {
    for e in effects {
        if let Effect::Close { message } = e {
            return Some(message.clone());
        }
    }
    None
}

fn consistent(game: &Game) -> bool {
    for x in 0..game.width {
        for y in 0..game.height {
            let p = Position { x, y };
            let occupied = game.grid.get(p) == Tile::Snake;
            if occupied != game.body.contains(p) {
                return false;
            }
        }
    }
    true
}

#[test]
fn boundary_collision_ends_game_with_score() {
    let mut game = game_with_body(5, 5, &[(4, 2)], Direction::Right);
    let mut effects = Vec::new();
    game.tick(Vec::new(), 5, 5, &mut effects);
    assert!(game.close_requested);
    assert_eq!(
        first_close_message(&effects).unwrap(),
        "Game Over. Score: 0.\n"
    );
    assert_eq!(game.body.len(), 1);
    assert_eq!(game.grid.get(Position { x: 4, y: 2 }), Tile::Snake);
}

#[test]
fn self_collision_ends_game_not_movement() {
    let cells = [(1, 1), (1, 2), (1, 3), (2, 3), (2, 2)];
    let mut game = game_with_body(5, 5, &cells, Direction::Left);
    let mut effects = Vec::new();
    game.tick(Vec::new(), 5, 5, &mut effects);
    assert!(game.close_requested);
    assert_eq!(
        first_close_message(&effects).unwrap(),
        "Game Over. Score: 4.\n"
    );
    assert_eq!(game.body.len(), 5);
    assert_eq!(game.position, Position { x: 2, y: 2 });
}

#[test]
fn food_tick_grows_body_by_one() {
    let mut game = game_with_body(5, 5, &[(2, 2)], Direction::Right);
    game.grid.set(Position { x: 3, y: 2 }, Tile::Food);
    let mut effects = Vec::new();
    game.tick(Vec::new(), 5, 5, &mut effects);
    assert!(!game.close_requested);
    assert_eq!(game.body.len(), 2);
    assert_eq!(game.position, Position { x: 3, y: 2 });
    assert!(matches!(effects[0], Effect::Draw { x: 3, y: 2, glyph: '>' }));
    // the eaten food was replaced somewhere on the field
    assert!(effects
        .iter()
        .any(|e| matches!(e, Effect::Draw { glyph: '+', .. })));
}

#[test]
fn plain_tick_keeps_length_and_erases_tail() {
    let mut game = game_with_body(5, 5, &[(2, 2)], Direction::Right);
    let mut effects = Vec::new();
    game.tick(Vec::new(), 5, 5, &mut effects);
    assert!(!game.close_requested);
    assert_eq!(game.body.len(), 1);
    assert_eq!(game.position, Position { x: 3, y: 2 });
    assert_eq!(game.grid.get(Position { x: 2, y: 2 }), Tile::Open);
    assert_eq!(game.grid.get(Position { x: 3, y: 2 }), Tile::Snake);
    assert!(matches!(effects[0], Effect::Draw { x: 3, y: 2, glyph: '>' }));
    assert!(matches!(effects[1], Effect::Draw { x: 2, y: 2, glyph: ' ' }));
}

#[test]
fn grid_and_body_agree_after_ticks() {
    let cells = [(1, 1), (2, 1), (2, 2)];
    let mut game = game_with_body(7, 7, &cells, Direction::Down);
    assert!(consistent(&game));
    let mut effects = Vec::new();
    game.tick(Vec::new(), 7, 7, &mut effects);
    assert!(consistent(&game));
    game.tick(
        vec![Msg::MoveDirection(Direction::Right)],
        7,
        7,
        &mut effects,
    );
    assert!(consistent(&game));
    game.tick(Vec::new(), 7, 7, &mut effects);
    assert!(consistent(&game));
}

#[test]
fn food_tile_survives_ticks_that_miss_it() {
    let mut game = game_with_body(5, 5, &[(2, 2)], Direction::Right);
    game.grid.set(Position { x: 0, y: 0 }, Tile::Food);
    let mut effects = Vec::new();
    game.tick(Vec::new(), 5, 5, &mut effects);
    assert_eq!(game.grid.get(Position { x: 0, y: 0 }), Tile::Food);
    game.tick(Vec::new(), 5, 5, &mut effects);
    assert_eq!(game.grid.get(Position { x: 0, y: 0 }), Tile::Food);
}

#[test]
fn queued_messages_apply_in_order_last_accepted_wins() {
    let mut game = game_with_body(7, 7, &[(2, 2)], Direction::Right);
    let msgs = vec![
        Msg::MoveDirection(Direction::Up),
        Msg::MoveDirection(Direction::Left),
        Msg::MoveDirection(Direction::Down),
    ];
    let mut effects = Vec::new();
    game.tick(msgs, 7, 7, &mut effects);
    assert_eq!(game.direction, Some(Direction::Down));
    assert_eq!(game.position, Position { x: 2, y: 3 });
}

#[test]
fn reversing_request_is_dropped() {
    let mut game = game_with_body(7, 7, &[(2, 2)], Direction::Right);
    let mut effects = Vec::new();
    game.update(Msg::MoveDirection(Direction::Left), &mut effects);
    assert_eq!(game.direction, Some(Direction::Right));
    game.update(Msg::MoveDirection(Direction::Up), &mut effects);
    assert_eq!(game.direction, Some(Direction::Up));
    game.update(Msg::MoveDirection(Direction::Down), &mut effects);
    assert_eq!(game.direction, Some(Direction::Up));
    assert!(effects.is_empty());
}

#[test]
fn empty_poll_still_moves() {
    let mut game = game_with_body(7, 7, &[(3, 3)], Direction::Up);
    let mut effects = Vec::new();
    game.tick(Vec::new(), 7, 7, &mut effects);
    assert!(!game.close_requested);
    assert_eq!(game.position, Position { x: 3, y: 2 });
}

#[test]
fn escape_key_requests_close() {
    let mut game = game_with_body(7, 7, &[(3, 3)], Direction::Up);
    let mut effects = Vec::new();
    game.update(Msg::OnKeyPress(Key::Escape), &mut effects);
    assert!(game.close_requested);
    assert_eq!(first_close_message(&effects).unwrap(), "Snake game closed");
}

#[test]
fn close_request_is_idempotent() {
    let mut game = game_with_body(7, 7, &[(3, 3)], Direction::Up);
    let mut effects = Vec::new();
    game.update(
        Msg::Close {
            message: String::from("first"),
        },
        &mut effects,
    );
    game.update(
        Msg::Close {
            message: String::from("second"),
        },
        &mut effects,
    );
    assert!(game.close_requested);
    assert_eq!(effects.len(), 2);
}

#[test]
fn viewport_change_ends_game_without_moving() {
    let mut game = game_with_body(5, 5, &[(2, 2)], Direction::Right);
    let mut effects = Vec::new();
    game.tick(Vec::new(), 6, 5, &mut effects);
    assert!(game.close_requested);
    assert_eq!(
        first_close_message(&effects).unwrap(),
        "Console was resized. Snake game has ended."
    );
    assert_eq!(game.position, Position { x: 2, y: 2 });
    assert_eq!(game.body.len(), 1);
}

#[test]
fn first_key_seeds_the_heading() {
    let mut game = Game::new(9, 9);
    assert_eq!(game.direction, None);
    let mut effects = Vec::new();
    game.update(Msg::OnKeyPress(Key::Other), &mut effects);
    assert_eq!(game.direction, None);
    game.update(Msg::OnKeyPress(Key::ArrowLeft), &mut effects);
    assert_eq!(game.direction, Some(Direction::Left));
}

#[test]
fn init_board_places_head_and_food() {
    let mut game = Game::new(5, 5);
    let mut effects = Vec::new();
    assert!(game.init_board(&mut effects));
    assert_eq!(game.body.len(), 1);
    assert_eq!(game.grid.get(Position { x: 2, y: 2 }), Tile::Snake);
    assert!(matches!(effects[0], Effect::Draw { x: 2, y: 2, glyph: '@' }));
    let mut food_tiles = 0;
    for x in 0..5 {
        for y in 0..5 {
            if game.grid.get(Position { x, y }) == Tile::Food {
                food_tiles += 1;
            }
        }
    }
    assert_eq!(food_tiles, 1);
}

#[test]
fn init_board_refuses_degenerate_viewport() {
    let mut game = Game::new(0, 0);
    let mut effects = Vec::new();
    assert!(!game.init_board(&mut effects));
    assert_eq!(game.body.len(), 0);
    assert!(effects.is_empty());
}

#[test]
fn food_lands_on_the_only_open_cell() {
    let mut game = game_with_body(1, 2, &[(0, 0)], Direction::Down);
    let mut effects = Vec::new();
    let placed = game.place_food(&mut effects);
    assert_eq!(placed, Some(Position { x: 0, y: 1 }));
    assert_eq!(game.grid.get(Position { x: 0, y: 1 }), Tile::Food);
    assert!(matches!(effects[0], Effect::Draw { x: 0, y: 1, glyph: '+' }));
}

#[test]
fn food_placement_fails_on_a_full_board() {
    let mut game = game_with_body(1, 1, &[(0, 0)], Direction::Down);
    let mut effects = Vec::new();
    assert_eq!(game.place_food(&mut effects), None);
    assert!(effects.is_empty());
}

#[test]
fn a_fresh_tile_is_open() {
    assert_eq!(Tile::default(), Tile::Open);
}

#[test]
fn rejected_last_message_leaves_previous_accepted_heading() {
    let mut game = game_with_body(7, 7, &[(2, 2)], Direction::Right);
    let msgs = vec![
        Msg::MoveDirection(Direction::Down),
        Msg::MoveDirection(Direction::Up),
    ];
    let mut effects = Vec::new();
    game.tick(msgs, 7, 7, &mut effects);
    // Up reverses the just-accepted Down, so Down still governs the move
    assert_eq!(game.direction, Some(Direction::Down));
    assert_eq!(game.position, Position { x: 2, y: 3 });
}

#[test]
fn escape_message_stops_the_tick_before_moving() {
    let mut game = game_with_body(7, 7, &[(2, 2)], Direction::Right);
    let msgs = vec![Msg::OnKeyPress(Key::Escape)];
    let mut effects = Vec::new();
    game.tick(msgs, 7, 7, &mut effects);
    assert!(game.close_requested);
    assert_eq!(game.position, Position { x: 2, y: 2 });
    assert_eq!(game.body.len(), 1);
    assert_eq!(first_close_message(&effects).unwrap(), "Snake game closed");
}

#[test]
fn init_on_a_single_cell_board_places_no_food() {
    let mut game = Game::new(1, 1);
    let mut effects = Vec::new();
    assert!(game.init_board(&mut effects));
    assert_eq!(game.grid.get(Position { x: 0, y: 0 }), Tile::Snake);
    assert_eq!(effects.len(), 1);
    assert!(matches!(effects[0], Effect::Draw { x: 0, y: 0, glyph: '@' }));
}
