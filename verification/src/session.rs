//! The handshake negotiator and the board-state synchronizer.
//!
//! The handshake runs once at connection start and fixes which peer is
//! authoritative and which color each plays.  After it, the synchronizer
//! decides, for every polled transport event, what the session does next:
//! the authoritative side re-derives every proposed move from its own
//! legal-move list and never trusts the peer's encoding, the proposing side
//! advances its board only on the authoritative echo.  All I/O and the
//! engine itself stay outside; these functions map decoded events to
//! decisions.

use vstd::prelude::*;
use crate::pieces::{Color, spec_opposite, opposite};
use crate::board::Board;
use crate::translate::{spec_board_to_wire, board_to_wire, spec_move_to_wire, move_to_wire,
    moves_to_wire};
use crate::wire::{ClientToServer, ClientToServerHandshake, Feature, Outcome, ProtocolError,
    RecvOutcome, ServerToClient, ServerToClientHandshake, WireMove};

verus! {

/// Where a peer stands in the per-turn proposal protocol.
#[derive(Clone, Copy, PartialEq, Eq, Structural, Debug)]
pub enum Phase {
    /// No proposal of ours is outstanding.
    Idle,
    /// We sent a move proposal and wait for the authoritative echo.
    AwaitingConfirmation,
}

/// One peer's view of an established session: its role, the color it
/// plays, where it stands in the proposal protocol, and the last outcome
/// tag it saw.
#[derive(Clone, Copy, PartialEq, Eq, Structural, Debug)]
pub struct Session {
    pub is_server: bool,
    pub color: Color,
    pub phase: Phase,
    pub outcome: Outcome,
}

/// The color the accepting (authoritative) peer ends up playing: exactly
/// the color the connecting peer requested for it.
pub open spec fn accepting_color(requested: Color) -> Color {
    requested
}

/// The color the connecting peer ends up playing: the opposite of the one
/// it requested for the accepting peer.
pub open spec fn proposing_color(requested: Color) -> Color {
    spec_opposite(requested)
}

/// Handshake color inversion: the two peers always end up on opposite
/// colors; a connecting peer that requests White for the accepting peer
/// plays Black itself, and vice versa.
pub proof fn lemma_handshake_color_inversion(requested: Color)
    ensures
        proposing_color(requested) == spec_opposite(accepting_color(requested)),
        proposing_color(requested) != accepting_color(requested),
        requested == Color::White ==> proposing_color(requested) == Color::Black,
        requested == Color::Black ==> proposing_color(requested) == Color::White,
{
}

/// The accepting peer's half of the handshake: adopt the color the
/// connecting peer requested, and answer with the full wire board, the
/// complete wire legal-move list, the supported features and an ongoing
/// outcome.  `request` is `None` when the blocking read or its decode
/// failed, which is fatal; so is a legal-move notation that does not
/// encode.
pub fn accept_handshake(
    request: Option<ClientToServerHandshake>,
    board: &Board,
    legal_notations: &Vec<String>,
) -> (r: Result<(Session, ServerToClientHandshake), ProtocolError>)
    requires
        board.well_formed(),
    ensures
        match r {
            Ok(sr) => {
                &&& request is Some
                &&& sr.0 == (Session {
                    is_server: true,
                    color: accepting_color(request.unwrap().server_color),
                    phase: Phase::Idle,
                    outcome: Outcome::Ongoing,
                })
                &&& sr.1.board@ == spec_board_to_wire(board@)
                &&& sr.1.features@ == seq![Feature::EnPassant, Feature::Promotion]
                &&& sr.1.joever == Outcome::Ongoing
                &&& sr.1.moves@.len() == legal_notations@.len()
                &&& forall|k: int|
                    0 <= k < legal_notations@.len() ==> #[trigger] spec_move_to_wire(
                        legal_notations@[k]@,
                    ) == Ok::<WireMove, ProtocolError>(sr.1.moves@[k])
            },
            Err(e) => {
                ||| (request is None && e == ProtocolError::MalformedHandshake)
                ||| (request is Some && exists|k: int|
                    {
                        &&& 0 <= k < legal_notations@.len()
                        &&& #[trigger] spec_move_to_wire(legal_notations@[k]@) == Err::<
                            WireMove,
                            ProtocolError,
                        >(e)
                        &&& forall|j: int|
                            0 <= j < k ==> #[trigger] spec_move_to_wire(
                                legal_notations@[j]@,
                            ) is Ok
                    })
            },
        },
{
    let req = match request {
        Some(req) => req,
        None => {
            return Err(ProtocolError::MalformedHandshake);
        },
    };
    let moves = match moves_to_wire(legal_notations) {
        Ok(ms) => ms,
        Err(e) => {
            return Err(e);
        },
    };
    let mut features: Vec<Feature> = Vec::new();
    features.push(Feature::EnPassant);
    features.push(Feature::Promotion);
    proof {
        assert(features@ =~= seq![Feature::EnPassant, Feature::Promotion]);
    }
    let session = Session {
        is_server: true,
        color: req.server_color,
        phase: Phase::Idle,
        outcome: Outcome::Ongoing,
    };
    let reply = ServerToClientHandshake {
        board: board_to_wire(board),
        features,
        joever: Outcome::Ongoing,
        moves,
    };
    Ok((session, reply))
}

/// The connecting peer's half of the handshake: pick the color the
/// accepting peer shall play, take the opposite color, and build the
/// record to send first.
pub fn propose_handshake(server_color: Color) -> (r: (Session, ClientToServerHandshake))
    ensures
        r.0 == (Session {
            is_server: false,
            color: proposing_color(server_color),
            phase: Phase::Idle,
            outcome: Outcome::Ongoing,
        }),
        r.1.server_color == server_color,
{
    let session = Session {
        is_server: false,
        color: opposite(server_color),
        phase: Phase::Idle,
        outcome: Outcome::Ongoing,
    };
    (session, ClientToServerHandshake { server_color })
}

/// The connecting peer's check of the handshake reply it block-read:
/// `None` means the read or its decode failed, which is fatal for the
/// fresh, single-shot connection.
pub fn confirm_handshake(reply: Option<ServerToClientHandshake>) -> (r: Result<
    ServerToClientHandshake,
    ProtocolError,
>)
    ensures
        match r {
            Ok(h) => reply == Some(h),
            Err(e) => reply is None && e == ProtocolError::MalformedHandshake,
        },
{
    match reply {
        Some(h) => Ok(h),
        None => Err(ProtocolError::MalformedHandshake),
    }
}

/// Scans the authoritative legal-move list, already in wire form, for the
/// first exact field-wise match of a peer-proposed wire move.  A proposal
/// that matches nothing is a fatal protocol violation: the peer proposed
/// an illegal or stale move.
pub fn find_proposal(proposal: &WireMove, legal_wire: &Vec<WireMove>) -> (r: Result<
    usize,
    ProtocolError,
>)
    ensures
        match r {
            Ok(i) => {
                &&& i < legal_wire@.len()
                &&& legal_wire@[i as int] == *proposal
                &&& forall|k: int| 0 <= k < i ==> legal_wire@[k] != *proposal
            },
            Err(e) => {
                &&& e == ProtocolError::IllegalProposal
                &&& forall|k: int| 0 <= k < legal_wire@.len() ==> legal_wire@[k] != *proposal
            },
        },
{
    let n = legal_wire.len();
    let mut i: usize = 0;
    while i < n
        invariant
            n == legal_wire@.len(),
            i <= n,
            forall|k: int| 0 <= k < i ==> legal_wire@[k] != *proposal,
        decreases n - i,
    {
        if legal_wire[i] == *proposal {
            return Ok(i);
        }
        i += 1;
    }
    Err(ProtocolError::IllegalProposal)
}

/// What the authoritative peer does next after one poll of the transport.
#[derive(Clone, Copy, PartialEq, Eq, Structural, Debug)]
pub enum ServerAction {
    /// Nothing arrived; keep ticking.
    Wait,
    /// Apply the legal move at this position of the authoritative list,
    /// then broadcast the refreshed state.
    Play(usize),
}

/// The authoritative peer's synchronizer step.  A transient empty poll is
/// no event; an undecodable message is fatal; a proposed move is accepted
/// only as the first field-wise match within the authoritative legal-move
/// list in wire form, and otherwise rejected as a fatal protocol violation
/// with nothing mutated.
pub fn server_receive(
    session: &Session,
    event: RecvOutcome<ClientToServer>,
    legal_wire: &Vec<WireMove>,
) -> (r: Result<ServerAction, ProtocolError>)
    requires
        session.is_server,
    ensures
        match event {
            RecvOutcome::Nothing => r == Ok::<ServerAction, ProtocolError>(ServerAction::Wait),
            RecvOutcome::Malformed => r == Err::<ServerAction, ProtocolError>(
                ProtocolError::MalformedMessage,
            ),
            RecvOutcome::Received(msg) => match msg {
                ClientToServer::Move(m) => match r {
                    Ok(a) => match a {
                        ServerAction::Play(i) => {
                            &&& i < legal_wire@.len()
                            &&& legal_wire@[i as int] == m
                            &&& forall|k: int| 0 <= k < i ==> legal_wire@[k] != m
                        },
                        ServerAction::Wait => false,
                    },
                    Err(e) => {
                        &&& e == ProtocolError::IllegalProposal
                        &&& forall|k: int| 0 <= k < legal_wire@.len() ==> legal_wire@[k] != m
                    },
                },
            },
        },
{
    match event {
        RecvOutcome::Nothing => Ok(ServerAction::Wait),
        RecvOutcome::Malformed => Err(ProtocolError::MalformedMessage),
        RecvOutcome::Received(msg) => match msg {
            ClientToServer::Move(m) => match find_proposal(&m, legal_wire) {
                Ok(i) => Ok(ServerAction::Play(i)),
                Err(e) => Err(e),
            },
        },
    }
}

/// Builds the authoritative State broadcast after a move was applied and
/// the board re-exported: the refreshed wire board, the refreshed wire
/// legal-move list, the outcome tag, and the wire encoding of the move
/// just made.  A notation that does not encode is fatal, the move just
/// made being checked first.
pub fn server_state_message(
    board: &Board,
    legal_notations: &Vec<String>,
    move_made: &str,
    joever: Outcome,
) -> (r: Result<ServerToClient, ProtocolError>)
    requires
        board.well_formed(),
    ensures
        match r {
            Ok(msg) => match msg {
                ServerToClient::State { board: b, moves: ms, joever: j, move_made: mm } => {
                    &&& b@ == spec_board_to_wire(board@)
                    &&& j == joever
                    &&& spec_move_to_wire(move_made@) == Ok::<WireMove, ProtocolError>(mm)
                    &&& ms@.len() == legal_notations@.len()
                    &&& forall|k: int|
                        0 <= k < legal_notations@.len() ==> #[trigger] spec_move_to_wire(
                            legal_notations@[k]@,
                        ) == Ok::<WireMove, ProtocolError>(ms@[k])
                },
                _ => false,
            },
            Err(e) => {
                ||| spec_move_to_wire(move_made@) == Err::<WireMove, ProtocolError>(e)
                ||| (spec_move_to_wire(move_made@) is Ok && exists|k: int|
                    {
                        &&& 0 <= k < legal_notations@.len()
                        &&& #[trigger] spec_move_to_wire(legal_notations@[k]@) == Err::<
                            WireMove,
                            ProtocolError,
                        >(e)
                        &&& forall|j: int|
                            0 <= j < k ==> #[trigger] spec_move_to_wire(
                                legal_notations@[j]@,
                            ) is Ok
                    })
            },
        },
{
    let mm = match move_to_wire(move_made) {
        Ok(m) => m,
        Err(e) => {
            return Err(e);
        },
    };
    let ms = match moves_to_wire(legal_notations) {
        Ok(ms) => ms,
        Err(e) => {
            return Err(e);
        },
    };
    Ok(
        ServerToClient::State {
            board: board_to_wire(board),
            moves: ms,
            joever,
            move_made: mm,
        },
    )
}

/// The proposing peer's local move: encode it and send it as a proposal,
/// advancing nothing locally; the local board moves only when the
/// authoritative echo arrives.  Leaves the session untouched on a notation
/// that does not encode.
pub fn client_propose_move(session: &mut Session, notation: &str) -> (r: Result<
    ClientToServer,
    ProtocolError,
>)
    requires
        !old(session).is_server,
        old(session).phase == Phase::Idle,
    ensures
        match r {
            Ok(msg) => match msg {
                ClientToServer::Move(m) => {
                    &&& spec_move_to_wire(notation@) == Ok::<WireMove, ProtocolError>(m)
                    &&& *final(session) == (Session {
                        phase: Phase::AwaitingConfirmation,
                        ..*old(session)
                    })
                },
            },
            Err(e) => {
                &&& *final(session) == *old(session)
                &&& spec_move_to_wire(notation@) == Err::<WireMove, ProtocolError>(e)
            },
        },
{
    match move_to_wire(notation) {
        Ok(m) => {
            session.phase = Phase::AwaitingConfirmation;
            Ok(ClientToServer::Move(m))
        },
        Err(e) => Err(e),
    }
}

/// What the proposing peer does next after one poll of the transport.
#[derive(Clone, Copy, PartialEq, Eq, Structural, Debug)]
pub enum ClientAction {
    /// Nothing arrived; keep ticking.
    Wait,
    /// The authoritative peer made this move; apply its local equivalent,
    /// then refresh the legal-move index.
    Apply(WireMove),
    /// A terminal or informational message arrived; the outcome tag was
    /// updated and no further synchronization follows.
    Ended,
}

/// The proposing peer's synchronizer step.  A transient empty poll is no
/// event; an undecodable message is fatal; a State message is
/// authoritative, resolving any pending proposal — whether it echoes our
/// proposal or corrects it — and carries the move to apply locally; the
/// terminal variants only update the outcome tag.
pub fn client_receive(session: &mut Session, event: RecvOutcome<ServerToClient>) -> (r: Result<
    ClientAction,
    ProtocolError,
>)
    requires
        !old(session).is_server,
    ensures
        match event {
            RecvOutcome::Nothing => r == Ok::<ClientAction, ProtocolError>(ClientAction::Wait)
                && *final(session) == *old(session),
            RecvOutcome::Malformed => r == Err::<ClientAction, ProtocolError>(
                ProtocolError::MalformedMessage,
            ) && *final(session) == *old(session),
            RecvOutcome::Received(msg) => match msg {
                ServerToClient::State { board: b, moves: ms, joever: j, move_made: mm } => r == Ok::<
                    ClientAction,
                    ProtocolError,
                >(ClientAction::Apply(mm)) && *final(session) == (Session {
                    phase: Phase::Idle,
                    outcome: j,
                    ..*old(session)
                }),
                ServerToClient::Error { joever: j } => r == Ok::<ClientAction, ProtocolError>(
                    ClientAction::Ended,
                ) && *final(session) == (Session { outcome: j, ..*old(session) }),
                ServerToClient::Resigned { joever: j } => r == Ok::<ClientAction, ProtocolError>(
                    ClientAction::Ended,
                ) && *final(session) == (Session { outcome: j, ..*old(session) }),
                ServerToClient::Draw { joever: j } => r == Ok::<ClientAction, ProtocolError>(
                    ClientAction::Ended,
                ) && *final(session) == (Session { outcome: j, ..*old(session) }),
            },
        },
{
    match event {
        RecvOutcome::Nothing => Ok(ClientAction::Wait),
        RecvOutcome::Malformed => Err(ProtocolError::MalformedMessage),
        RecvOutcome::Received(msg) => match msg {
            ServerToClient::State { board: _, moves: _, joever, move_made } => {
                session.phase = Phase::Idle;
                session.outcome = joever;
                Ok(ClientAction::Apply(move_made))
            },
            ServerToClient::Error { joever } => {
                session.outcome = joever;
                Ok(ClientAction::Ended)
            },
            ServerToClient::Resigned { joever } => {
                session.outcome = joever;
                Ok(ClientAction::Ended)
            },
            ServerToClient::Draw { joever } => {
                session.outcome = joever;
                Ok(ClientAction::Ended)
            },
        },
    }
}

} // verus!
