//! Colors, internal board squares, and the color-qualified wire piece tag.

use vstd::prelude::*;

verus! {

/// The color of a piece or of a player.
#[derive(Clone, Copy, PartialEq, Eq, Structural, Debug)]
pub enum Color {
    White,
    Black,
}

/// The opposite of a color, as a spec-level function.
pub open spec fn spec_opposite(c: Color) -> Color {
    match c {
        Color::White => Color::Black,
        Color::Black => Color::White,
    }
}

/// The opposite of a color.
pub fn opposite(c: Color) -> (r: Color)
    ensures
        r == spec_opposite(c),
{
    match c {
        Color::White => Color::Black,
        Color::Black => Color::White,
    }
}

/// One square of the internal board snapshot: empty, or a piece kind
/// qualified by its color.
#[derive(Clone, Copy, PartialEq, Eq, Structural, Debug)]
pub enum Square {
    Empty,
    Pawn(Color),
    Rook(Color),
    Bishop(Color),
    Knight(Color),
    King(Color),
    Queen(Color),
}

impl Square {
    /// The color of the piece on this square, if any.
    pub open spec fn spec_color(self) -> Option<Color> {
        match self {
            Square::Empty => None,
            Square::Pawn(c) => Some(c),
            Square::Rook(c) => Some(c),
            Square::Bishop(c) => Some(c),
            Square::Knight(c) => Some(c),
            Square::King(c) => Some(c),
            Square::Queen(c) => Some(c),
        }
    }

    /// The color of the piece on this square, if any.
    pub fn color(&self) -> (r: Option<Color>)
        ensures
            r == self.spec_color(),
    {
        match self {
            Square::Empty => None,
            Square::Pawn(c) => Some(*c),
            Square::Rook(c) => Some(*c),
            Square::Bishop(c) => Some(*c),
            Square::Knight(c) => Some(*c),
            Square::King(c) => Some(*c),
            Square::Queen(c) => Some(*c),
        }
    }
}

/// The wire representation of a square: vacant, or one of six piece kinds
/// qualified by color, thirteen values in all.
#[derive(Clone, Copy, PartialEq, Eq, Structural, Debug)]
pub enum Piece {
    Empty,
    WhitePawn,
    BlackPawn,
    WhiteRook,
    BlackRook,
    WhiteKnight,
    BlackKnight,
    WhiteBishop,
    BlackBishop,
    WhiteQueen,
    BlackQueen,
    WhiteKing,
    BlackKing,
}

/// The wire piece tag of an internal square, as a spec-level function.
pub open spec fn spec_piece_to_wire(sq: Square) -> Piece {
    match sq {
        Square::Empty => Piece::Empty,
        Square::Pawn(Color::White) => Piece::WhitePawn,
        Square::Pawn(Color::Black) => Piece::BlackPawn,
        Square::Rook(Color::White) => Piece::WhiteRook,
        Square::Rook(Color::Black) => Piece::BlackRook,
        Square::Bishop(Color::White) => Piece::WhiteBishop,
        Square::Bishop(Color::Black) => Piece::BlackBishop,
        Square::Knight(Color::White) => Piece::WhiteKnight,
        Square::Knight(Color::Black) => Piece::BlackKnight,
        Square::King(Color::White) => Piece::WhiteKing,
        Square::King(Color::Black) => Piece::BlackKing,
        Square::Queen(Color::White) => Piece::WhiteQueen,
        Square::Queen(Color::Black) => Piece::BlackQueen,
    }
}

/// Direct tagged mapping from an internal square to the wire piece tag:
/// `Empty` maps to `Piece::Empty`, every other variant to the piece tag
/// qualified by its color.
pub fn piece_to_wire(sq: Square) -> (r: Piece)
    ensures
        r == spec_piece_to_wire(sq),
{
    match sq {
        Square::Empty => Piece::Empty,
        Square::Pawn(Color::White) => Piece::WhitePawn,
        Square::Pawn(Color::Black) => Piece::BlackPawn,
        Square::Rook(Color::White) => Piece::WhiteRook,
        Square::Rook(Color::Black) => Piece::BlackRook,
        Square::Bishop(Color::White) => Piece::WhiteBishop,
        Square::Bishop(Color::Black) => Piece::BlackBishop,
        Square::Knight(Color::White) => Piece::WhiteKnight,
        Square::Knight(Color::Black) => Piece::BlackKnight,
        Square::King(Color::White) => Piece::WhiteKing,
        Square::King(Color::Black) => Piece::BlackKing,
        Square::Queen(Color::White) => Piece::WhiteQueen,
        Square::Queen(Color::Black) => Piece::BlackQueen,
    }
}

/// The wire piece mapping loses nothing: two squares with the same wire tag
/// are the same square.
pub proof fn lemma_piece_to_wire_injective(a: Square, b: Square)
    requires
        spec_piece_to_wire(a) == spec_piece_to_wire(b),
    ensures
        a == b,
{
}

} // verus!
