//! Turn-synchronisation core of a two-player Connect Four client.
//!
//! - `grid`: hit-testing of pointer positions against the 6 by 7 board.
//! - `codec`: the bytes exchanged with the game server.
//! - `game`: the board and the turn state machine of the presentation loop.
//! - `session`: the decisions of the network session, one event at a time.
pub mod codec;
pub mod game;
pub mod grid;
pub mod session;
