//! Core of a terminal snake game: a bounded grid of tiles, an ordered snake
//! body, a no-reverse direction state machine, and a tick engine that advances
//! the head one cell per frame, detects collisions, grows the body on food,
//! and emits incremental drawing commands for a terminal front end.

pub mod body;
pub mod clues;
pub mod direction;
pub mod engine;
pub mod grid;
pub mod relay;
pub mod text;
