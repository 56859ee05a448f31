//! The requests that clients make, the answers they get, and the one function
//! that turns a request into a store operation and its answer.

use vstd::prelude::*;
use crate::ident::Id;
use crate::model::{Action, Reply};
use crate::records::Player;
use crate::store::{MachBackend, StateCheckResponse};

verus! {

/// A request of a client. Players are named by the number of their
/// identifier.
#[derive(Debug, Clone, PartialEq, Eq)]
pub enum ClientAction {
    Register { name: String },
    HostGame { player: usize },
    JoinGame { player: usize, game_name: String },
    IncreaseScore { player: usize },
    StateCheck { player: usize },
}

impl View for ClientAction {
    type V = Action;

    open spec fn view(&self) -> Action {
        match *self {
            ClientAction::Register { name } => Action::Register { name: name@ },
            ClientAction::HostGame { player } => Action::HostGame { player: player as nat },
            ClientAction::JoinGame { player, game_name } => Action::JoinGame {
                player: player as nat,
                game_name: game_name@,
            },
            ClientAction::IncreaseScore { player } => Action::IncreaseScore {
                player: player as nat,
            },
            ClientAction::StateCheck { player } => Action::StateCheck { player: player as nat },
        }
    }
}

/// The answer to a request.
#[derive(Debug, Clone, PartialEq, Eq)]
pub enum ServerAction {
    RegisterResponse { id: usize },
    HostGameResponse { id: usize, game_name: String },
    JoinGameResponse { success: bool, game_id: usize },
    Steady,
    StateCheckResponse(StateCheckResponse),
    BadRequest,
}

impl View for ServerAction {
    type V = Reply;

    open spec fn view(&self) -> Reply {
        match *self {
            ServerAction::RegisterResponse { id } => Reply::RegisterResponse { id: id as nat },
            ServerAction::HostGameResponse { id, game_name } => Reply::HostGameResponse {
                id: id as nat,
                game_name: game_name@,
            },
            ServerAction::JoinGameResponse { success, game_id } => Reply::JoinGameResponse {
                success,
                game_id: game_id as nat,
            },
            ServerAction::Steady => Reply::Steady,
            ServerAction::StateCheckResponse(status) => Reply::StateCheckResponse(status@),
            ServerAction::BadRequest => Reply::BadRequest,
        }
    }
}

/// Tells whether `handle_client_action` may be called with `action`: whether
/// an identifier is left where the request needs one, and whether the score
/// that the request would raise is below the largest score.
pub fn accepts(mach: &MachBackend, action: &ClientAction) -> (ok: bool)
    ensures
        ok == mach@.within_limits(action@),
{
    match action {
        ClientAction::Register { .. } => mach.can_allocate(),
        ClientAction::HostGame { .. } => mach.can_allocate(),
        ClientAction::IncreaseScore { player } => mach.can_increase_score(
            Player { id: Id(*player) },
        ),
        _ => true,
    }
}

/// Carries out one request on the store and gives the answer: a
/// registration answers with the new player's identifier; an offer with the
/// match's identifier and name; a join with success and the match's
/// identifier, or with failure and zero; a point with `Steady`; a status
/// request with the status, or with `BadRequest` for a player who is neither
/// playing nor waiting.
pub fn handle_client_action(mach: &mut MachBackend, action: ClientAction) -> (reply: ServerAction)
    requires
        old(mach).wf(),
        old(mach)@.within_limits(action@),
    ensures
        final(mach).wf(),
        final(mach)@ == old(mach)@.step(action@).0,
        reply@ == old(mach)@.step(action@).1,
{
    match action {
        ClientAction::Register { name } => {
            let player = mach.register(name);
            ServerAction::RegisterResponse { id: player.id.0 }
        },
        ClientAction::HostGame { player } => {
            let offer = mach.host_game(Player { id: Id(player) });
            ServerAction::HostGameResponse { id: offer.id.id.0, game_name: offer.game_name }
        },
        ClientAction::JoinGame { player, game_name } => {
            match mach.join_game(Player { id: Id(player) }, &game_name) {
                Some(game) => ServerAction::JoinGameResponse { success: true, game_id: game.id.0 },
                None => ServerAction::JoinGameResponse { success: false, game_id: 0 },
            }
        },
        ClientAction::IncreaseScore { player } => {
            mach.increase_score(Player { id: Id(player) });
            ServerAction::Steady
        },
        ClientAction::StateCheck { player } => {
            match mach.state_check(Player { id: Id(player) }) {
                Some(status) => ServerAction::StateCheckResponse(status),
                None => ServerAction::BadRequest,
            }
        },
    }
}

} // verus!
