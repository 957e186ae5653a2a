//! Network synchronization core for a two-peer chess game.
//!
//! Two processes (a server, which is authoritative for move legality, and a
//! client, which only proposes moves) keep their views of a chess game in
//! step over a message channel.  This crate holds the verified core of that
//! protocol: the coordinate codec that reads algebraic move notation, the
//! translator from the internal board/move representation to the wire
//! representation, the handshake that fixes roles and colors, and the state
//! machine that synchronizes the two peers turn by turn.
//!
//! The legal-move generator, the position exporter and all I/O are external
//! collaborators: they hand this crate plain values (position strings, move
//! notation strings, decoded wire records) and take plain values back.

pub mod pieces;
pub mod codec;
pub mod board;
pub mod wire;
pub mod translate;
pub mod fen;
pub mod index;
pub mod session;
