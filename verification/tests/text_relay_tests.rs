use snake::engine::Key;
use snake::relay::relay_decide;
use snake::text::game_over_message;

#[test]
fn score_message_for_zero() {
    assert_eq!(game_over_message(0), "Game Over. Score: 0.\n");
}

#[test]
fn score_message_for_a_round_number() {
    assert_eq!(game_over_message(100), "Game Over. Score: 100.\n");
}

#[test]
fn score_message_for_an_arbitrary_number() {
    assert_eq!(game_over_message(42), "Game Over. Score: 42.\n");
}

#[test]
fn relay_forwards_a_fresh_recognized_key() {
    assert_eq!(relay_decide(Key::Other, Key::ArrowUp), Some(Key::ArrowUp));
    assert_eq!(relay_decide(Key::ArrowUp, Key::Escape), Some(Key::Escape));
}

#[test]
fn relay_drops_a_repeated_key() {
    assert_eq!(relay_decide(Key::ArrowUp, Key::ArrowUp), None);
}

#[test]
fn relay_ignores_unrecognized_keys() {
    assert_eq!(relay_decide(Key::ArrowUp, Key::Other), None);
}
