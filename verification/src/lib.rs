//! A chess session between two peers on a direct connection, kept in step.
//!
//! The library holds the part of such a program that decides: what the bytes
//! on the wire mean, what a handshake settles, whose turn it is, what a click
//! on the board chooses, and what a move does to the game. Reading and
//! writing the connection, and drawing the board, is left to the caller.
//!
//! - `color`, `piece`, `records`: the values that the rest speaks of.
//! - `notation`, `fen`: moves and positions as text.
//! - `codec`, `framing`: records as bytes, and bytes as frames.
//! - `link`, `network`: the two ends of a session and its phases.
//! - `engine`: the rules of chess.
//! - `selection`, `menu`: what the pointer chooses.
//! - `sync`: the turn, the position and the next move, kept together.
//! - `error`: what can end a session.

pub mod codec;
pub mod color;
pub mod engine;
pub mod error;
pub mod fen;
pub mod framing;
pub mod link;
pub mod menu;
pub mod network;
pub mod notation;
pub mod piece;
pub mod records;
pub mod selection;
pub mod sync;
