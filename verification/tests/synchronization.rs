use chess_sync::fen::parse_fen;
use chess_sync::pieces::{Color, Piece};
use chess_sync::session::{
    accept_handshake, client_propose_move, client_receive, confirm_handshake, find_proposal,
    propose_handshake, server_receive, server_state_message, ClientAction, Phase, ServerAction,
    Session,
};
use chess_sync::translate::{board_to_wire, move_to_wire};
use chess_sync::wire::{
    ClientToServer, ClientToServerHandshake, Feature, Outcome, ProtocolError, RecvOutcome,
    ServerToClient, WireMove,
};

const START_FEN: &str = "rnbqkbnr/pppppppp/8/8/8/8/PPPPPPPP/RNBQKBNR w KQkq - 0 1";

fn wm(start_x: u8, start_y: u8, end_x: u8, end_y: u8, promotion: Piece) -> WireMove {
    WireMove { start_x, start_y, end_x, end_y, promotion }
}

fn opening_notations() -> Vec<String> {
    vec!["e2e4".to_string(), "d2d4".to_string(), "g1f3".to_string()]
}

#[test]
fn accepting_peer_adopts_requested_color() {
    let board = parse_fen(START_FEN).unwrap();
    let request = ClientToServerHandshake { server_color: Color::White };
    let (session, reply) = accept_handshake(Some(request), &board, &opening_notations()).unwrap();
    assert!(session.is_server);
    assert_eq!(session.color, Color::White);
    assert_eq!(session.phase, Phase::Idle);
    assert_eq!(session.outcome, Outcome::Ongoing);
    assert_eq!(reply.joever, Outcome::Ongoing);
    assert_eq!(reply.features, vec![Feature::EnPassant, Feature::Promotion]);
    assert_eq!(reply.board, board_to_wire(&board));
    assert_eq!(reply.moves.len(), 3);
    assert_eq!(reply.moves[0], wm(4, 6, 4, 4, Piece::Empty));
}

#[test]
fn connecting_peer_takes_opposite_color() {
    let (session, record) = propose_handshake(Color::White);
    assert!(!session.is_server);
    assert_eq!(session.color, Color::Black);
    assert_eq!(record.server_color, Color::White);

    let (session, record) = propose_handshake(Color::Black);
    assert_eq!(session.color, Color::White);
    assert_eq!(record.server_color, Color::Black);
}

#[test]
fn handshake_decode_failures_are_fatal() {
    let board = parse_fen(START_FEN).unwrap();
    assert_eq!(
        accept_handshake(None, &board, &opening_notations()).unwrap_err(),
        ProtocolError::MalformedHandshake
    );
    assert_eq!(
        confirm_handshake(None).unwrap_err(),
        ProtocolError::MalformedHandshake
    );
}

#[test]
fn accept_handshake_rejects_bad_notation() {
    let board = parse_fen(START_FEN).unwrap();
    let request = ClientToServerHandshake { server_color: Color::Black };
    let notations = vec!["e2e4".to_string(), "e7e8K".to_string()];
    assert_eq!(
        accept_handshake(Some(request), &board, &notations).unwrap_err(),
        ProtocolError::BadPromotion
    );
}

#[test]
fn proposal_matching_picks_first_exact_match() {
    let legal = vec![
        wm(4, 6, 4, 4, Piece::Empty),
        wm(3, 6, 3, 4, Piece::Empty),
        wm(6, 7, 5, 5, Piece::Empty),
    ];
    assert_eq!(find_proposal(&wm(3, 6, 3, 4, Piece::Empty), &legal), Ok(1));
    assert_eq!(find_proposal(&wm(4, 6, 4, 4, Piece::Empty), &legal), Ok(0));
}

#[test]
fn illegal_proposal_is_fatal_and_mutates_nothing() {
    let session = Session {
        is_server: true,
        color: Color::White,
        phase: Phase::Idle,
        outcome: Outcome::Ongoing,
    };
    let legal = vec![wm(4, 6, 4, 4, Piece::Empty), wm(3, 6, 3, 4, Piece::Empty)];
    let proposal = wm(0, 0, 7, 7, Piece::Empty);
    let before = session;
    let result = server_receive(&session, RecvOutcome::Received(ClientToServer::Move(proposal)), &legal);
    assert_eq!(result, Err(ProtocolError::IllegalProposal));
    assert_eq!(session, before);
}

#[test]
fn server_accepts_matching_proposal() {
    let session = Session {
        is_server: true,
        color: Color::Black,
        phase: Phase::Idle,
        outcome: Outcome::Ongoing,
    };
    let legal = vec![wm(4, 6, 4, 4, Piece::Empty), wm(3, 6, 3, 4, Piece::Empty)];
    let proposal = wm(3, 6, 3, 4, Piece::Empty);
    let result = server_receive(&session, RecvOutcome::Received(ClientToServer::Move(proposal)), &legal);
    assert_eq!(result, Ok(ServerAction::Play(1)));
}

#[test]
fn server_poll_distinguishes_nothing_from_malformed() {
    let session = Session {
        is_server: true,
        color: Color::White,
        phase: Phase::Idle,
        outcome: Outcome::Ongoing,
    };
    let legal = vec![wm(4, 6, 4, 4, Piece::Empty)];
    assert_eq!(
        server_receive(&session, RecvOutcome::Nothing, &legal),
        Ok(ServerAction::Wait)
    );
    assert_eq!(
        server_receive(&session, RecvOutcome::Malformed, &legal),
        Err(ProtocolError::MalformedMessage)
    );
}

#[test]
fn state_broadcast_carries_refreshed_position() {
    let board = parse_fen("rnbqkbnr/pppppppp/8/8/4P3/8/PPPP1PPP/RNBQKBNR b KQkq e3 0 1").unwrap();
    let notations = vec!["e7e5".to_string(), "d7d5".to_string()];
    let message = server_state_message(&board, &notations, "e2e4", Outcome::Ongoing).unwrap();
    match message {
        ServerToClient::State { board: wire, moves, joever, move_made } => {
            assert_eq!(wire, board_to_wire(&board));
            assert_eq!(joever, Outcome::Ongoing);
            assert_eq!(move_made, wm(4, 6, 4, 4, Piece::Empty));
            assert_eq!(moves, vec![wm(4, 1, 4, 3, Piece::Empty), wm(3, 1, 3, 3, Piece::Empty)]);
        }
        _ => panic!("expected a State message"),
    }
}

#[test]
fn state_broadcast_rejects_bad_move_notation() {
    let board = parse_fen(START_FEN).unwrap();
    let notations = opening_notations();
    assert_eq!(
        server_state_message(&board, &notations, "bad", Outcome::Ongoing).unwrap_err(),
        ProtocolError::MalformedNotation
    );
}

#[test]
fn client_proposes_without_advancing() {
    let mut session = Session {
        is_server: false,
        color: Color::Black,
        phase: Phase::Idle,
        outcome: Outcome::Ongoing,
    };
    let message = client_propose_move(&mut session, "e7e5").unwrap();
    assert_eq!(message, ClientToServer::Move(wm(4, 1, 4, 3, Piece::Empty)));
    assert_eq!(session.phase, Phase::AwaitingConfirmation);
    assert_eq!(session.outcome, Outcome::Ongoing);
}

#[test]
fn client_proposal_with_bad_notation_changes_nothing() {
    let mut session = Session {
        is_server: false,
        color: Color::Black,
        phase: Phase::Idle,
        outcome: Outcome::Ongoing,
    };
    let before = session;
    assert_eq!(
        client_propose_move(&mut session, "nope").unwrap_err(),
        ProtocolError::MalformedNotation
    );
    assert_eq!(session, before);
}

#[test]
fn client_applies_authoritative_state() {
    let mut session = Session {
        is_server: false,
        color: Color::Black,
        phase: Phase::AwaitingConfirmation,
        outcome: Outcome::Ongoing,
    };
    let board = parse_fen(START_FEN).unwrap();
    let state = ServerToClient::State {
        board: board_to_wire(&board),
        moves: vec![wm(4, 1, 4, 3, Piece::Empty)],
        joever: Outcome::Ongoing,
        move_made: wm(4, 6, 4, 4, Piece::Empty),
    };
    let action = client_receive(&mut session, RecvOutcome::Received(state)).unwrap();
    assert_eq!(action, ClientAction::Apply(wm(4, 6, 4, 4, Piece::Empty)));
    assert_eq!(session.phase, Phase::Idle);
    assert_eq!(session.outcome, Outcome::Ongoing);
}

#[test]
fn client_poll_distinguishes_nothing_from_malformed() {
    let mut session = Session {
        is_server: false,
        color: Color::White,
        phase: Phase::Idle,
        outcome: Outcome::Ongoing,
    };
    let before = session;
    assert_eq!(
        client_receive(&mut session, RecvOutcome::Nothing).unwrap(),
        ClientAction::Wait
    );
    assert_eq!(session, before);
    assert_eq!(
        client_receive(&mut session, RecvOutcome::Malformed).unwrap_err(),
        ProtocolError::MalformedMessage
    );
    assert_eq!(session, before);
}

#[test]
fn terminal_messages_update_outcome_only() {
    let mut session = Session {
        is_server: false,
        color: Color::White,
        phase: Phase::AwaitingConfirmation,
        outcome: Outcome::Ongoing,
    };
    let action = client_receive(
        &mut session,
        RecvOutcome::Received(ServerToClient::Resigned { joever: Outcome::White }),
    )
    .unwrap();
    assert_eq!(action, ClientAction::Ended);
    assert_eq!(session.outcome, Outcome::White);
    assert_eq!(session.phase, Phase::AwaitingConfirmation);

    let action = client_receive(
        &mut session,
        RecvOutcome::Received(ServerToClient::Draw { joever: Outcome::Draw }),
    )
    .unwrap();
    assert_eq!(action, ClientAction::Ended);
    assert_eq!(session.outcome, Outcome::Draw);

    let action = client_receive(
        &mut session,
        RecvOutcome::Received(ServerToClient::Error { joever: Outcome::Black }),
    )
    .unwrap();
    assert_eq!(action, ClientAction::Ended);
    assert_eq!(session.outcome, Outcome::Black);
}

#[test]
fn full_turn_between_peers() {
    // The connecting peer asks the accepting peer to play White.
    let (mut client, request) = propose_handshake(Color::White);
    let board = parse_fen(START_FEN).unwrap();
    let notations = vec!["e2e4".to_string(), "d2d4".to_string()];
    let (server, reply) = accept_handshake(Some(request), &board, &notations).unwrap();
    assert_eq!(server.color, Color::White);
    assert_eq!(client.color, Color::Black);
    let reply = confirm_handshake(Some(reply)).unwrap();
    assert_eq!(reply.moves.len(), 2);

    // The server plays e2e4 and broadcasts; the client applies the echo.
    let after = parse_fen("rnbqkbnr/pppppppp/8/8/4P3/8/PPPP1PPP/RNBQKBNR b KQkq e3 0 1").unwrap();
    let replies = vec!["e7e5".to_string(), "d7d5".to_string()];
    let state = server_state_message(&after, &replies, "e2e4", Outcome::Ongoing).unwrap();
    let action = client_receive(&mut client, RecvOutcome::Received(state)).unwrap();
    assert_eq!(action, ClientAction::Apply(wm(4, 6, 4, 4, Piece::Empty)));

    // The client proposes e7e5; the server re-derives it from its own list.
    let proposal = client_propose_move(&mut client, "e7e5").unwrap();
    let legal_wire = vec![wm(4, 1, 4, 3, Piece::Empty), wm(3, 1, 3, 3, Piece::Empty)];
    let action = server_receive(&server, RecvOutcome::Received(proposal), &legal_wire).unwrap();
    assert_eq!(action, ServerAction::Play(0));
}
