//! Hunt the Wumpus: a cave of twenty rooms, two pits, two colonies of bats,
//! one Wumpus, and a player with five arrows.
//!
//! The library holds the rules of the game and proves them:
//!
//! - [`topology`] is the fixed cave, a dodecahedron: three two-way tunnels
//!   from every room, and every room within reach of every other.
//! - [`contents`] says what the rooms hold and when a cave counts as stocked.
//! - [`maze`] is the cave itself: stocked at random or as asked, it answers
//!   what is next door, reads the room a player names and describes a room.
//! - [`player`] is the player: a room and a quiver.
//! - [`game`] is the turn state machine, from an input to an outcome.
//! - [`laws`] states what holds of every turn.
//! - [`token`] reads numbers, [`text`] holds the words of the game, and
//!   [`random`] makes the draws.
//!
//! A program around the library reads the player's lines, hands each to
//! [`game::submit_input`] and prints what comes back.

pub mod contents;
pub mod game;
pub mod laws;
pub mod maze;
pub mod player;
pub mod random;
pub mod text;
pub mod token;
pub mod topology;
