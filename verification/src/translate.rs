//! The translator from the internal board and move representation to the
//! wire representation: the vertical board flip, the move-notation decoder
//! and the promotion-letter mapping.

use vstd::prelude::*;
use crate::pieces::{Piece, Square, spec_piece_to_wire, piece_to_wire};
use crate::board::{Board, grid_well_formed, row_flip, lemma_row_flip_involution};
use crate::codec::{spec_cordinate, is_move_core, file_char, rank_char, to_cordinate};
use crate::wire::{WireBoard, WireMove, ProtocolError};

verus! {

/// The internal grid with every square replaced by its wire piece tag, row
/// order unchanged.
pub open spec fn spec_wire_rows(b: Seq<Seq<Square>>) -> Seq<Seq<Piece>> {
    Seq::new(b.len(), |r: int| Seq::new(b[r].len(), |c: int| spec_piece_to_wire(b[r][c])))
}

/// The wire encoding of an internal board: the piece-for-piece translation
/// of the grid with its rows in reverse order, so that wire row `7 - r`
/// receives internal row `r`'s pieces, columns unchanged.
pub open spec fn spec_board_to_wire(b: Seq<Seq<Square>>) -> Seq<Seq<Piece>> {
    row_flip(spec_wire_rows(b))
}

/// Translates the internal board snapshot to its wire encoding: a vertical
/// flip only, no horizontal flip, and the direct piece tag mapping on every
/// square.
pub fn board_to_wire(board: &Board) -> (r: WireBoard)
    requires
        board.well_formed(),
    ensures
        r.well_formed(),
        r@ == spec_board_to_wire(board@),
        forall|row: int, col: int|
            0 <= row < 8 && 0 <= col < 8 ==> r@[7 - row][col] == spec_piece_to_wire(
                #[trigger] board@[row][col],
            ),
{
    let mut rows: Vec<Vec<Piece>> = Vec::new();
    let mut w: usize = 0;
    while w < 8
        invariant
            board.well_formed(),
            w <= 8,
            rows@.len() == w,
            forall|k: int| 0 <= k < w ==> #[trigger] rows@[k]@ == spec_board_to_wire(board@)[k],
        decreases 8 - w,
    {
        let mut row: Vec<Piece> = Vec::new();
        let mut c: usize = 0;
        while c < 8
            invariant
                board.well_formed(),
                w < 8,
                c <= 8,
                row@.len() == c,
                forall|k: int|
                    0 <= k < c ==> #[trigger] row@[k] == spec_piece_to_wire(
                        board@[7 - w as int][k],
                    ),
            decreases 8 - c,
        {
            row.push(piece_to_wire(board.at(7 - w, c)));
            c += 1;
        }
        assert(row@ =~= spec_board_to_wire(board@)[w as int]);
        rows.push(row);
        w += 1;
    }
    let r = WireBoard { rows };
    assert(r@ =~= spec_board_to_wire(board@));
    r
}

/// Flipping the wire board's rows back restores the original row
/// assignment: the vertical flip is an involution, so the wire encoding
/// loses nothing of the board.
pub proof fn lemma_board_flip_involution(b: Seq<Seq<Square>>)
    ensures
        row_flip(spec_board_to_wire(b)) == spec_wire_rows(b),
{
    lemma_row_flip_involution(spec_wire_rows(b));
}

/// The color-qualified wire piece a promotion letter denotes: the letter
/// picks the piece kind, its case picks the color, uppercase for White.
/// Any other character is a fatal decode error.
pub open spec fn promotion_piece_of(c: char) -> Option<Piece> {
    if c == 'R' {
        Some(Piece::WhiteRook)
    } else if c == 'r' {
        Some(Piece::BlackRook)
    } else if c == 'B' {
        Some(Piece::WhiteBishop)
    } else if c == 'b' {
        Some(Piece::BlackBishop)
    } else if c == 'N' {
        Some(Piece::WhiteKnight)
    } else if c == 'n' {
        Some(Piece::BlackKnight)
    } else if c == 'Q' {
        Some(Piece::WhiteQueen)
    } else if c == 'q' {
        Some(Piece::BlackQueen)
    } else {
        None
    }
}

/// Maps a promotion letter to its color-qualified wire piece.
pub fn promotion_piece(c: char) -> (r: Option<Piece>)
    ensures
        r == promotion_piece_of(c),
{
    if c == 'R' {
        Some(Piece::WhiteRook)
    } else if c == 'r' {
        Some(Piece::BlackRook)
    } else if c == 'B' {
        Some(Piece::WhiteBishop)
    } else if c == 'b' {
        Some(Piece::BlackBishop)
    } else if c == 'N' {
        Some(Piece::WhiteKnight)
    } else if c == 'n' {
        Some(Piece::BlackKnight)
    } else if c == 'Q' {
        Some(Piece::WhiteQueen)
    } else if c == 'q' {
        Some(Piece::BlackQueen)
    } else {
        None
    }
}

/// The wire move record an internal move notation denotes, or the exact
/// error it raises.  A notation is 4 coordinate characters, optionally
/// followed by one promotion letter; the endpoint x coordinates come from
/// the file letters and the y coordinates from the rank digits, already in
/// the wire convention (rank 8 is wire row 0).
pub open spec fn spec_move_to_wire(s: Seq<char>) -> Result<WireMove, ProtocolError> {
    if !((s.len() == 4 || s.len() == 5) && is_move_core(s)) {
        Err(ProtocolError::MalformedNotation)
    } else if s.len() == 5 && promotion_piece_of(s[4]) is None {
        Err(ProtocolError::BadPromotion)
    } else {
        Ok(
            WireMove {
                start_x: spec_cordinate(s[0]) as u8,
                start_y: spec_cordinate(s[1]) as u8,
                end_x: spec_cordinate(s[2]) as u8,
                end_y: spec_cordinate(s[3]) as u8,
                promotion: if s.len() == 5 {
                    promotion_piece_of(s[4]).unwrap()
                } else {
                    Piece::Empty
                },
            },
        )
    }
}

/// Decodes an internal move notation into its wire move record.  Fails with
/// the exact error of the taxonomy: a string that is not a 4- or
/// 5-character coordinate core is a malformed notation, and a 5th character
/// that is not one of the eight recognized promotion letters is a bad
/// promotion.
pub fn move_to_wire(notation: &str) -> (r: Result<WireMove, ProtocolError>)
    ensures
        r == spec_move_to_wire(notation@),
{
    let len = notation.unicode_len();
    if !(len == 4 || len == 5) {
        return Err(ProtocolError::MalformedNotation);
    }
    let c0 = notation.get_char(0);
    let c1 = notation.get_char(1);
    let c2 = notation.get_char(2);
    let c3 = notation.get_char(3);
    if !(file_char(c0) && rank_char(c1) && file_char(c2) && rank_char(c3)) {
        return Err(ProtocolError::MalformedNotation);
    }
    let mut promotion = Piece::Empty;
    if len == 5 {
        match promotion_piece(notation.get_char(4)) {
            Some(p) => {
                promotion = p;
            },
            None => {
                return Err(ProtocolError::BadPromotion);
            },
        }
    }
    Ok(
        WireMove {
            start_x: to_cordinate(c0) as u8,
            start_y: to_cordinate(c1) as u8,
            end_x: to_cordinate(c2) as u8,
            end_y: to_cordinate(c3) as u8,
            promotion,
        },
    )
}

/// Encoding a move is deterministic: the wire record is a function of the
/// notation alone, so encoding the same internal move twice yields two
/// identical wire move records.
pub proof fn lemma_move_encode_deterministic(
    s1: Seq<char>,
    s2: Seq<char>,
    r1: Result<WireMove, ProtocolError>,
    r2: Result<WireMove, ProtocolError>,
)
    requires
        s1 == s2,
        r1 == spec_move_to_wire(s1),
        r2 == spec_move_to_wire(s2),
    ensures
        r1 == r2,
{
}

/// Translates a list of internal move notations to wire move records,
/// element-wise and order-preserving.  Fails with the error of the first
/// notation that does not decode.
pub fn moves_to_wire(notations: &Vec<String>) -> (r: Result<Vec<WireMove>, ProtocolError>)
    ensures
        match r {
            Ok(ms) => {
                &&& ms@.len() == notations@.len()
                &&& forall|i: int|
                    0 <= i < ms@.len() ==> #[trigger] spec_move_to_wire(notations@[i]@) == Ok::<
                        WireMove,
                        ProtocolError,
                    >(ms@[i])
            },
            Err(e) => exists|i: int|
                {
                    &&& 0 <= i < notations@.len()
                    &&& #[trigger] spec_move_to_wire(notations@[i]@) == Err::<
                        WireMove,
                        ProtocolError,
                    >(e)
                    &&& forall|j: int|
                        0 <= j < i ==> #[trigger] spec_move_to_wire(notations@[j]@) is Ok
                },
        },
{
    let mut out: Vec<WireMove> = Vec::new();
    let mut i: usize = 0;
    while i < notations.len()
        invariant
            i <= notations@.len(),
            out@.len() == i,
            forall|k: int|
                0 <= k < i ==> #[trigger] spec_move_to_wire(notations@[k]@) == Ok::<
                    WireMove,
                    ProtocolError,
                >(out@[k]),
        decreases notations@.len() - i,
    {
        match move_to_wire(notations[i].as_str()) {
            Ok(m) => {
                out.push(m);
            },
            Err(e) => {
                return Err(e);
            },
        }
        i += 1;
    }
    Ok(out)
}

} // verus!
