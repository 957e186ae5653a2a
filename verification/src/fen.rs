//! The board-export parser: turns the engine's exported position string
//! into the internal 8-by-8 board snapshot.
//!
//! The export begins with eight rows separated by `'/'` and closed by a
//! space; inside a row, a piece letter fills one square (uppercase White,
//! lowercase Black) and a digit fills that many empty squares.  Whatever
//! follows the closing space is no concern of the board parser.  An export
//! that does not yield exactly 64 squares this way is a fatal decode error.

use vstd::prelude::*;
use crate::pieces::{Color, Square};
use crate::board::Board;
use crate::wire::ProtocolError;

verus! {

/// The square one piece letter of a board export denotes, if any: the
/// letter picks the piece kind, its case picks the color, uppercase for
/// White.
pub open spec fn spec_square_of(c: char) -> Option<Square> {
    if c == 'P' {
        Some(Square::Pawn(Color::White))
    } else if c == 'p' {
        Some(Square::Pawn(Color::Black))
    } else if c == 'R' {
        Some(Square::Rook(Color::White))
    } else if c == 'r' {
        Some(Square::Rook(Color::Black))
    } else if c == 'B' {
        Some(Square::Bishop(Color::White))
    } else if c == 'b' {
        Some(Square::Bishop(Color::Black))
    } else if c == 'N' {
        Some(Square::Knight(Color::White))
    } else if c == 'n' {
        Some(Square::Knight(Color::Black))
    } else if c == 'Q' {
        Some(Square::Queen(Color::White))
    } else if c == 'q' {
        Some(Square::Queen(Color::Black))
    } else if c == 'K' {
        Some(Square::King(Color::White))
    } else if c == 'k' {
        Some(Square::King(Color::Black))
    } else {
        None
    }
}

/// The square a piece letter denotes, if any.
pub fn square_of(c: char) -> (r: Option<Square>)
    ensures
        r == spec_square_of(c),
{
    if c == 'P' {
        Some(Square::Pawn(Color::White))
    } else if c == 'p' {
        Some(Square::Pawn(Color::Black))
    } else if c == 'R' {
        Some(Square::Rook(Color::White))
    } else if c == 'r' {
        Some(Square::Rook(Color::Black))
    } else if c == 'B' {
        Some(Square::Bishop(Color::White))
    } else if c == 'b' {
        Some(Square::Bishop(Color::Black))
    } else if c == 'N' {
        Some(Square::Knight(Color::White))
    } else if c == 'n' {
        Some(Square::Knight(Color::Black))
    } else if c == 'Q' {
        Some(Square::Queen(Color::White))
    } else if c == 'q' {
        Some(Square::Queen(Color::Black))
    } else if c == 'K' {
        Some(Square::King(Color::White))
    } else if c == 'k' {
        Some(Square::King(Color::Black))
    } else {
        None
    }
}

/// A digit that fills one to eight empty squares of a row.
pub open spec fn is_count_digit(c: char) -> bool {
    '1' <= c && c <= '8'
}

/// How many empty squares a count digit fills.
pub open spec fn count_of(c: char) -> int {
    c as int - '0' as int
}

/// A run of empty squares.
pub open spec fn empties(n: nat) -> Seq<Square> {
    Seq::new(n, |j: int| Square::Empty)
}

/// Parses the rest of one export row.  `acc` holds the squares of the row
/// read so far and `col` how many there are; the parse succeeds exactly
/// when the row reaches 8 squares without overshooting, and then returns
/// the row together with the unread remainder of the input.
pub open spec fn spec_parse_row(s: Seq<char>, col: int, acc: Seq<Square>) -> Option<
    (Seq<Square>, Seq<char>),
>
    decreases s.len(),
{
    if col > 8 {
        None
    } else if col == 8 {
        Some((acc, s))
    } else if s.len() == 0 {
        None
    } else {
        let c = s[0];
        if is_count_digit(c) {
            spec_parse_row(s.drop_first(), col + count_of(c), acc + empties(count_of(c) as nat))
        } else if spec_square_of(c) is Some {
            spec_parse_row(s.drop_first(), col + 1, acc.push(spec_square_of(c).unwrap()))
        } else {
            None
        }
    }
}

/// Parses the remaining rows of a board export.  Each of the eight rows
/// must close with `'/'`, the last with `' '`; what follows that space is
/// ignored.  `acc` holds the rows read so far and `row` how many there are.
pub open spec fn spec_parse_rows(s: Seq<char>, row: int, acc: Seq<Seq<Square>>) -> Option<
    Seq<Seq<Square>>,
>
    decreases 8 - row,
{
    if row >= 8 {
        Some(acc)
    } else {
        match spec_parse_row(s, 0, Seq::empty()) {
            None => None,
            Some((rowsq, rest)) => {
                if rest.len() == 0 {
                    None
                } else if (row < 7 && rest[0] == '/') || (row == 7 && rest[0] == ' ') {
                    spec_parse_rows(rest.drop_first(), row + 1, acc.push(rowsq))
                } else {
                    None
                }
            },
        }
    }
}

/// The board grid a position export denotes, if it parses into exactly 64
/// squares.
pub open spec fn spec_parse_fen(s: Seq<char>) -> Option<Seq<Seq<Square>>> {
    spec_parse_rows(s, 0, Seq::empty())
}

/// A successfully parsed row holds exactly 8 squares.
proof fn lemma_parse_row_len(s: Seq<char>, col: int, acc: Seq<Square>)
    requires
        acc.len() == col,
        0 <= col,
    ensures
        match spec_parse_row(s, col, acc) {
            Some((rowsq, rest)) => rowsq.len() == 8,
            None => true,
        },
    decreases s.len(),
{
    if col > 8 || col == 8 || s.len() == 0 {
    } else {
        let c = s[0];
        if is_count_digit(c) {
            lemma_parse_row_len(
                s.drop_first(),
                col + count_of(c),
                acc + empties(count_of(c) as nat),
            );
        } else if spec_square_of(c) is Some {
            lemma_parse_row_len(s.drop_first(), col + 1, acc.push(spec_square_of(c).unwrap()));
        }
    }
}

/// Pushes a run of empty squares onto a row being built.
fn push_empties(row: &mut Vec<Square>, n: usize)
    ensures
        final(row)@ == old(row)@ + empties(n as nat),
{
    let mut j: usize = 0;
    while j < n
        invariant
            j <= n,
            row@ == old(row)@ + empties(j as nat),
        decreases n - j,
    {
        row.push(Square::Empty);
        proof {
            assert(row@ =~= old(row)@ + empties((j + 1) as nat));
        }
        j += 1;
    }
    proof {
        assert(row@ =~= old(row)@ + empties(n as nat));
    }
}

/// Parses the engine's exported position string into the internal board
/// snapshot.  Succeeds exactly when the export's first component is eight
/// well-formed rows of eight squares closed by a space; every other input
/// is rejected as a malformed board export, the fatal decode error of the
/// taxonomy.
pub fn parse_fen(fen: &str) -> (r: Result<Board, ProtocolError>)
    ensures
        match r {
            Ok(b) => b.well_formed() && spec_parse_fen(fen@) == Some(b@),
            Err(e) => e == ProtocolError::MalformedBoardExport && spec_parse_fen(fen@) is None,
        },
{
    let len = fen.unicode_len();
    let mut rows: Vec<Vec<Square>> = Vec::new();
    let mut i: usize = 0;
    let mut row: usize = 0;
    proof {
        assert(fen@.skip(0) =~= fen@);
        assert(Seq::new(rows@.len(), |k: int| rows@[k]@) =~= Seq::<Seq<Square>>::empty());
    }
    while row < 8
        invariant
            row <= 8,
            i <= len,
            len == fen@.len(),
            rows@.len() == row,
            forall|k: int| 0 <= k < row ==> #[trigger] rows@[k]@.len() == 8,
            spec_parse_fen(fen@) == spec_parse_rows(
                fen@.skip(i as int),
                row as int,
                Seq::new(rows@.len(), |k: int| rows@[k]@),
            ),
        decreases 8 - row,
    {
        let ghost i0 = i as int;
        let ghost built = Seq::new(rows@.len(), |k: int| rows@[k]@);
        let mut rowvec: Vec<Square> = Vec::new();
        let mut col: usize = 0;
        while col < 8
            invariant
                col <= 8,
                i <= len,
                len == fen@.len(),
                rowvec@.len() == col,
                i0 <= i as int,
                row < 8,
                spec_parse_fen(fen@) == spec_parse_rows(fen@.skip(i0), row as int, built),
                spec_parse_row(fen@.skip(i0), 0, Seq::empty()) == spec_parse_row(
                    fen@.skip(i as int),
                    col as int,
                    rowvec@,
                ),
            decreases 8 - col,
        {
            if i >= len {
                proof {
                    assert(fen@.skip(i as int).len() == 0);
                    assert(spec_parse_row(fen@.skip(i as int), col as int, rowvec@) is None);
                    assert(spec_parse_rows(fen@.skip(i0), row as int, built) is None);
                }
                return Err(ProtocolError::MalformedBoardExport);
            }
            let c = fen.get_char(i);
            proof {
                assert(fen@.skip(i as int)[0] == fen@[i as int]);
                assert(fen@.skip(i as int).drop_first() =~= fen@.skip(i as int + 1));
            }
            if '1' <= c && c <= '8' {
                let d = c as usize - '0' as usize;
                if col + d > 8 {
                    proof {
                        assert(spec_parse_row(
                            fen@.skip(i as int + 1),
                            col as int + count_of(c),
                            rowvec@ + empties(count_of(c) as nat),
                        ) is None);
                        assert(spec_parse_row(fen@.skip(i as int), col as int, rowvec@) is None);
                        assert(spec_parse_rows(fen@.skip(i0), row as int, built) is None);
                    }
                    return Err(ProtocolError::MalformedBoardExport);
                }
                push_empties(&mut rowvec, d);
                col += d;
            } else {
                match square_of(c) {
                    Some(sq) => {
                        rowvec.push(sq);
                        col += 1;
                    },
                    None => {
                        proof {
                            assert(spec_parse_row(
                                fen@.skip(i as int),
                                col as int,
                                rowvec@,
                            ) is None);
                            assert(spec_parse_rows(fen@.skip(i0), row as int, built) is None);
                        }
                        return Err(ProtocolError::MalformedBoardExport);
                    },
                }
            }
            i += 1;
        }
        proof {
            lemma_parse_row_len(fen@.skip(i0), 0, Seq::empty());
            assert(spec_parse_row(fen@.skip(i as int), col as int, rowvec@) == Some(
                (rowvec@, fen@.skip(i as int)),
            ));
        }
        if i >= len {
            proof {
                assert(fen@.skip(i as int).len() == 0);
                assert(spec_parse_rows(fen@.skip(i0), row as int, built) is None);
            }
            return Err(ProtocolError::MalformedBoardExport);
        }
        let c = fen.get_char(i);
        proof {
            assert(fen@.skip(i as int)[0] == fen@[i as int]);
            assert(fen@.skip(i as int).drop_first() =~= fen@.skip(i as int + 1));
        }
        if (row < 7 && c == '/') || (row == 7 && c == ' ') {
            i += 1;
            let ghost rowview = rowvec@;
            rows.push(rowvec);
            proof {
                assert(Seq::new(rows@.len(), |k: int| rows@[k]@) =~= built.push(rowview));
            }
            row += 1;
        } else {
            proof {
                assert(spec_parse_rows(fen@.skip(i0), row as int, built) is None);
            }
            return Err(ProtocolError::MalformedBoardExport);
        }
    }
    let b = Board { rows };
    proof {
        assert(b@ =~= Seq::new(b.rows@.len(), |k: int| b.rows@[k]@));
    }
    Ok(b)
}

} // verus!
