//! The wire records the two peers exchange, and the protocol error
//! taxonomy.
//!
//! These records mirror, field for field, the structured messages that go
//! over the connection: the two handshake records, the two tagged message
//! unions, the move record and the outcome tag.  Serialization itself is an
//! external collaborator; this crate only builds and reads the records.

use vstd::prelude::*;
use crate::pieces::Piece;
use crate::pieces::Color;

verus! {

/// A fatal protocol failure.  Every variant is unrecoverable for the
/// session: the design is to fail loudly and immediately rather than let
/// the two peers' views of the game diverge in silence.
#[derive(Clone, Copy, PartialEq, Eq, Structural, Debug)]
pub enum ProtocolError {
    /// A board-export string did not parse into 64 squares.
    MalformedBoardExport,
    /// A move notation string was not 4 or 5 coordinate characters.
    MalformedNotation,
    /// The fifth character of a move notation was not a recognized
    /// promotion letter.
    BadPromotion,
    /// A handshake payload could not be decoded.
    MalformedHandshake,
    /// A message arrived but could not be decoded.
    MalformedMessage,
    /// The peer proposed a move absent from the authoritative legal-move
    /// list.
    IllegalProposal,
}

/// The wire encoding of one move: endpoint coordinates in the wire
/// convention and the promotion piece, `Piece::Empty` when the move does
/// not promote.
#[derive(Clone, Copy, PartialEq, Eq, Structural, Debug)]
pub struct WireMove {
    pub start_x: u8,
    pub start_y: u8,
    pub end_x: u8,
    pub end_y: u8,
    pub promotion: Piece,
}

/// The wire encoding of a full board: an 8-by-8 grid of wire piece tags,
/// rank-flipped relative to the internal board snapshot.
#[derive(Clone, PartialEq, Eq, Debug)]
pub struct WireBoard {
    pub rows: Vec<Vec<Piece>>,
}

impl View for WireBoard {
    type V = Seq<Seq<Piece>>;

    open spec fn view(&self) -> Seq<Seq<Piece>> {
        Seq::new(self.rows@.len(), |i: int| self.rows@[i]@)
    }
}

impl WireBoard {
    /// The grid is exactly 8 rows of 8 squares.
    pub open spec fn well_formed(&self) -> bool {
        &&& self@.len() == 8
        &&& forall|r: int| 0 <= r < 8 ==> self@[r].len() == 8
    }
}

/// The outcome tag of the game, carried on every state-bearing message.
#[derive(Clone, Copy, PartialEq, Eq, Structural, Debug)]
pub enum Outcome {
    Ongoing,
    White,
    Black,
    Draw,
}

/// A capability flag announced during the handshake.
#[derive(Clone, Copy, PartialEq, Eq, Structural, Debug)]
pub enum Feature {
    EnPassant,
    Promotion,
}

/// The connecting peer's one handshake record: the color it wants the
/// accepting (authoritative) peer to play.
#[derive(Clone, Copy, PartialEq, Eq, Structural, Debug)]
pub struct ClientToServerHandshake {
    pub server_color: Color,
}

/// The accepting peer's handshake reply: the full wire board, the complete
/// wire legal-move list, the features this implementation supports, and the
/// initial outcome tag.
#[derive(Clone, PartialEq, Eq, Debug)]
pub struct ServerToClientHandshake {
    pub board: WireBoard,
    pub features: Vec<Feature>,
    pub joever: Outcome,
    pub moves: Vec<WireMove>,
}

/// A message from the proposing peer to the authoritative peer.  Variants
/// other than a move proposal are pass-through for the consuming
/// application and carry no synchronization logic here.
#[derive(Clone, PartialEq, Eq, Debug)]
pub enum ClientToServer {
    Move(WireMove),
}

/// A message from the authoritative peer to the proposing peer.  `State`
/// carries the new authoritative position; the other variants are terminal
/// or informational and only update the outcome tag.
#[derive(Clone, PartialEq, Eq, Debug)]
pub enum ServerToClient {
    State { board: WireBoard, moves: Vec<WireMove>, joever: Outcome, move_made: WireMove },
    Error { joever: Outcome },
    Resigned { joever: Outcome },
    Draw { joever: Outcome },
}

/// What one non-blocking poll of the transport yielded.  "No complete
/// message available yet" is a transient non-event and must stay distinct
/// from "bytes arrived but did not decode", which is a fatal protocol
/// failure.
#[derive(Clone, PartialEq, Eq, Debug)]
pub enum RecvOutcome<M> {
    /// Zero bytes of a new message are currently available.
    Nothing,
    /// A complete message arrived and decoded.
    Received(M),
    /// Bytes arrived but the message could not be decoded.
    Malformed,
}

} // verus!
