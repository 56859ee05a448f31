//! The records that the store keeps: players, open offers and running matches.

use vstd::prelude::*;
use crate::game::GameState;
use crate::ident::Id;
use crate::model::{ActiveMatch, WaitingMatch};

verus! {

/// A player, known by an identifier.
#[derive(Debug, Clone, Copy, PartialEq, Eq, Hash, Structural)]
pub struct Player {
    pub id: Id,
}

impl View for Player {
    type V = nat;

    open spec fn view(&self) -> nat {
        self.id@
    }
}

/// A match, known by an identifier.
#[derive(Debug, Clone, Copy, PartialEq, Eq, Hash, Structural)]
pub struct Game {
    pub id: Id,
}

impl View for Game {
    type V = nat;

    open spec fn view(&self) -> nat {
        self.id@
    }
}

/// What is kept about a registered player.
#[derive(Debug, Clone, PartialEq, Eq)]
pub struct PlayerData {
    pub id: Player,
    pub name: String,
}

/// An open offer to play.
#[derive(Debug, Clone, PartialEq, Eq)]
pub struct WaitingGame {
    pub id: Game,
    pub game_name: String,
    pub player: Player,
}

impl View for WaitingGame {
    type V = WaitingMatch;

    open spec fn view(&self) -> WaitingMatch {
        WaitingMatch { id: self.id@, name: self.game_name@, host: self.player@ }
    }
}

/// A running match.
#[derive(Debug, Clone, PartialEq, Eq)]
pub struct GameData {
    pub id: Game,
    pub player1: Player,
    pub player2: Player,
    pub game_state: GameState,
}

impl View for GameData {
    type V = ActiveMatch;

    open spec fn view(&self) -> ActiveMatch {
        ActiveMatch {
            id: self.id@,
            player1: self.player1@,
            player2: self.player2@,
            score1: self.game_state.player1_score as int,
            score2: self.game_state.player2_score as int,
        }
    }
}

} // verus!
