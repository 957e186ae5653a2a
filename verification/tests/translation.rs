use chess_sync::board::Board;
use chess_sync::codec::{move_core, parse_move, to_cordinate};
use chess_sync::fen::parse_fen;
use chess_sync::index::parse_moves;
use chess_sync::pieces::{opposite, piece_to_wire, Color, Piece, Square};
use chess_sync::translate::{board_to_wire, move_to_wire, moves_to_wire, promotion_piece};
use chess_sync::wire::{ProtocolError, WireMove};

const START_FEN: &str = "rnbqkbnr/pppppppp/8/8/8/8/PPPPPPPP/RNBQKBNR w KQkq - 0 1";

fn wm(start_x: u8, start_y: u8, end_x: u8, end_y: u8, promotion: Piece) -> WireMove {
    WireMove { start_x, start_y, end_x, end_y, promotion }
}

#[test]
fn cordinate_files() {
    let files = ['a', 'b', 'c', 'd', 'e', 'f', 'g', 'h'];
    for (i, c) in files.iter().enumerate() {
        assert_eq!(to_cordinate(*c), i);
    }
}

#[test]
fn cordinate_ranks() {
    let ranks = ['1', '2', '3', '4', '5', '6', '7', '8'];
    for (i, c) in ranks.iter().enumerate() {
        assert_eq!(to_cordinate(*c), 7 - i);
    }
}

#[test]
fn parse_move_opening() {
    assert_eq!(parse_move("e2e4"), ((6, 4), (4, 4)));
    assert_eq!(parse_move("a1h8"), ((7, 0), (0, 7)));
}

#[test]
fn move_core_checks() {
    assert!(move_core("e2e4"));
    assert!(move_core("e7e8Q"));
    assert!(!move_core("e2e"));
    assert!(!move_core("2ee4"));
    assert!(!move_core("i2e4"));
    assert!(!move_core("e9e4"));
}

#[test]
fn opening_move_to_wire() {
    assert_eq!(
        move_to_wire("e2e4"),
        Ok(wm(4, 6, 4, 4, Piece::Empty))
    );
}

#[test]
fn promotion_move_to_wire() {
    assert_eq!(
        move_to_wire("e7e8Q"),
        Ok(wm(4, 1, 4, 0, Piece::WhiteQueen))
    );
    assert_eq!(
        move_to_wire("e2e1q"),
        Ok(wm(4, 6, 4, 7, Piece::BlackQueen))
    );
    assert_eq!(
        move_to_wire("a7a8n"),
        Ok(wm(0, 1, 0, 0, Piece::BlackKnight))
    );
}

#[test]
fn move_to_wire_same_notation_same_record() {
    let first = move_to_wire("b1c3");
    let second = move_to_wire("b1c3");
    assert_eq!(first, second);
}

#[test]
fn move_to_wire_rejects_bad_promotion() {
    assert_eq!(move_to_wire("e7e8K"), Err(ProtocolError::BadPromotion));
    assert_eq!(move_to_wire("e7e8x"), Err(ProtocolError::BadPromotion));
}

#[test]
fn move_to_wire_rejects_malformed() {
    assert_eq!(move_to_wire("e2e"), Err(ProtocolError::MalformedNotation));
    assert_eq!(move_to_wire("e2e4e5"), Err(ProtocolError::MalformedNotation));
    assert_eq!(move_to_wire("e2x4"), Err(ProtocolError::MalformedNotation));
    assert_eq!(move_to_wire(""), Err(ProtocolError::MalformedNotation));
}

#[test]
fn promotion_letters() {
    assert_eq!(promotion_piece('R'), Some(Piece::WhiteRook));
    assert_eq!(promotion_piece('r'), Some(Piece::BlackRook));
    assert_eq!(promotion_piece('B'), Some(Piece::WhiteBishop));
    assert_eq!(promotion_piece('b'), Some(Piece::BlackBishop));
    assert_eq!(promotion_piece('N'), Some(Piece::WhiteKnight));
    assert_eq!(promotion_piece('n'), Some(Piece::BlackKnight));
    assert_eq!(promotion_piece('Q'), Some(Piece::WhiteQueen));
    assert_eq!(promotion_piece('q'), Some(Piece::BlackQueen));
    assert_eq!(promotion_piece('K'), None);
    assert_eq!(promotion_piece('1'), None);
}

#[test]
fn moves_to_wire_keeps_order() {
    let notations = vec!["e2e4".to_string(), "d2d4".to_string(), "g1f3".to_string()];
    let wires = moves_to_wire(&notations).unwrap();
    assert_eq!(
        wires,
        vec![
            wm(4, 6, 4, 4, Piece::Empty),
            wm(3, 6, 3, 4, Piece::Empty),
            wm(6, 7, 5, 5, Piece::Empty),
        ]
    );
}

#[test]
fn moves_to_wire_reports_first_error() {
    let notations = vec!["e2e4".to_string(), "e7e8K".to_string(), "zz".to_string()];
    assert_eq!(moves_to_wire(&notations), Err(ProtocolError::BadPromotion));
    let notations = vec!["zz".to_string(), "e7e8K".to_string()];
    assert_eq!(moves_to_wire(&notations), Err(ProtocolError::MalformedNotation));
}

#[test]
fn parse_fen_starting_position() {
    let board = parse_fen(START_FEN).unwrap();
    let back = |color: Color| {
        vec![
            Square::Rook(color),
            Square::Knight(color),
            Square::Bishop(color),
            Square::Queen(color),
            Square::King(color),
            Square::Bishop(color),
            Square::Knight(color),
            Square::Rook(color),
        ]
    };
    assert_eq!(board.rows[0], back(Color::Black));
    assert_eq!(board.rows[7], back(Color::White));
    for col in 0..8 {
        assert_eq!(board.rows[1][col], Square::Pawn(Color::Black));
        assert_eq!(board.rows[6][col], Square::Pawn(Color::White));
        for row in 2..6 {
            assert_eq!(board.rows[row][col], Square::Empty);
        }
    }
}

#[test]
fn parse_fen_mixed_row() {
    let board = parse_fen("8/8/8/3qK3/8/8/8/8 w - - 0 1").unwrap();
    assert_eq!(board.rows[3][3], Square::Queen(Color::Black));
    assert_eq!(board.rows[3][4], Square::King(Color::White));
    assert_eq!(board.rows[3][2], Square::Empty);
    assert_eq!(board.rows[3][5], Square::Empty);
}

#[test]
fn parse_fen_rejects_bad_exports() {
    // A row of nine squares.
    assert_eq!(
        parse_fen("9/8/8/8/8/8/8/8 w - - 0 1"),
        Err(ProtocolError::MalformedBoardExport)
    );
    // A row that overshoots eight squares.
    assert_eq!(
        parse_fen("7pp/8/8/8/8/8/8/8 w - - 0 1"),
        Err(ProtocolError::MalformedBoardExport)
    );
    // A short row.
    assert_eq!(
        parse_fen("7/8/8/8/8/8/8/8 w - - 0 1"),
        Err(ProtocolError::MalformedBoardExport)
    );
    // An unknown piece letter.
    assert_eq!(
        parse_fen("7x/8/8/8/8/8/8/8 w - - 0 1"),
        Err(ProtocolError::MalformedBoardExport)
    );
    // Only seven rows.
    assert_eq!(
        parse_fen("8/8/8/8/8/8/8 w - - 0 1"),
        Err(ProtocolError::MalformedBoardExport)
    );
    // No terminator after the eighth row.
    assert_eq!(
        parse_fen("8/8/8/8/8/8/8/8"),
        Err(ProtocolError::MalformedBoardExport)
    );
    assert_eq!(parse_fen(""), Err(ProtocolError::MalformedBoardExport));
}

#[test]
fn board_to_wire_flips_rows() {
    let board = parse_fen(START_FEN).unwrap();
    let wire = board_to_wire(&board);
    // Internal row 0 (the export's first rank) lands on wire row 7.
    assert_eq!(wire.rows[7][0], Piece::BlackRook);
    assert_eq!(wire.rows[7][4], Piece::BlackKing);
    assert_eq!(wire.rows[0][0], Piece::WhiteRook);
    assert_eq!(wire.rows[0][3], Piece::WhiteQueen);
    for col in 0..8 {
        assert_eq!(wire.rows[6][col], Piece::BlackPawn);
        assert_eq!(wire.rows[1][col], Piece::WhitePawn);
        for row in 2..6 {
            assert_eq!(wire.rows[row][col], Piece::Empty);
        }
    }
}

#[test]
fn board_flip_round_trip() {
    let board = parse_fen(START_FEN).unwrap();
    let wire = board_to_wire(&board);
    // Flipping the wire rows back restores the original row assignment.
    for row in 0..8 {
        for col in 0..8 {
            assert_eq!(
                wire.rows[7 - row][col],
                piece_to_wire(board.rows[row][col])
            );
        }
    }
}

#[test]
fn piece_to_wire_tags() {
    assert_eq!(piece_to_wire(Square::Empty), Piece::Empty);
    assert_eq!(piece_to_wire(Square::Pawn(Color::White)), Piece::WhitePawn);
    assert_eq!(piece_to_wire(Square::Pawn(Color::Black)), Piece::BlackPawn);
    assert_eq!(piece_to_wire(Square::King(Color::White)), Piece::WhiteKing);
    assert_eq!(piece_to_wire(Square::Queen(Color::Black)), Piece::BlackQueen);
    assert_eq!(piece_to_wire(Square::Rook(Color::White)), Piece::WhiteRook);
    assert_eq!(piece_to_wire(Square::Bishop(Color::Black)), Piece::BlackBishop);
    assert_eq!(piece_to_wire(Square::Knight(Color::White)), Piece::WhiteKnight);
}

#[test]
fn square_colors() {
    assert_eq!(Square::Empty.color(), None);
    assert_eq!(Square::Pawn(Color::White).color(), Some(Color::White));
    assert_eq!(Square::Queen(Color::Black).color(), Some(Color::Black));
    assert_eq!(opposite(Color::White), Color::Black);
    assert_eq!(opposite(Color::Black), Color::White);
}

#[test]
fn index_groups_promotions_together() {
    let notations = vec![
        "e7e8Q".to_string(),
        "e7e8R".to_string(),
        "a2a3".to_string(),
        "e7e8N".to_string(),
    ];
    let index = parse_moves(&notations).unwrap();
    // All three promotion choices share the (from, to) pair of e7 -> e8.
    assert_eq!(index.candidates_for(1, 4, 0, 4), Some(vec![0, 1, 3]));
    assert_eq!(index.candidates_for(6, 0, 5, 0), Some(vec![2]));
    assert_eq!(index.candidates_for(0, 0, 1, 1), None);
    assert_eq!(index.groups.len(), 2);
}

#[test]
fn index_covers_every_move_once() {
    let notations = vec![
        "e2e4".to_string(),
        "e2e3".to_string(),
        "d2d4".to_string(),
        "g1f3".to_string(),
        "g1h3".to_string(),
    ];
    let index = parse_moves(&notations).unwrap();
    let mut seen = vec![false; notations.len()];
    for group in &index.groups {
        assert!(!group.candidates.is_empty());
        for &position in &group.candidates {
            assert!(!seen[position]);
            seen[position] = true;
        }
    }
    assert!(seen.iter().all(|s| *s));
}

#[test]
fn index_rejects_malformed_notation() {
    let notations = vec!["e2e4".to_string(), "oops".to_string()];
    assert_eq!(parse_moves(&notations), Err(ProtocolError::MalformedNotation));
}

#[test]
fn board_accessor() {
    let board = parse_fen(START_FEN).unwrap();
    assert_eq!(board.at(0, 0), Square::Rook(Color::Black));
    assert_eq!(board.at(7, 4), Square::King(Color::White));
    assert_eq!(board.at(4, 4), Square::Empty);
}
