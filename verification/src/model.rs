//! The mathematical model of the matchmaking store.
//!
//! The store is a value: the number of identifiers issued, the registered
//! players, the open offers in the order they were made and the running
//! matches in the order they were paired. Each client action is a function
//! from one such value to the next, together with what is answered.

use vstd::prelude::*;
use crate::names::name_of;
use crate::search::first_index;

verus! {

/// An open offer to play: the match's identifier, its display name and the
/// player who offered it.
pub struct WaitingMatch {
    pub id: nat,
    pub name: Seq<char>,
    pub host: nat,
}

/// A paired match with its two seats and their scores.
pub struct ActiveMatch {
    pub id: nat,
    pub player1: nat,
    pub player2: nat,
    pub score1: int,
    pub score2: int,
}

/// What a player is told about where they stand.
pub enum Status {
    Waiting { game_name: Seq<char> },
    InGame { player: nat, player1_score: int, player2_score: int },
}

/// A request of a client.
pub enum Action {
    Register { name: Seq<char> },
    HostGame { player: nat },
    JoinGame { player: nat, game_name: Seq<char> },
    IncreaseScore { player: nat },
    StateCheck { player: nat },
}

/// The answer to a request.
pub enum Reply {
    RegisterResponse { id: nat },
    HostGameResponse { id: nat, game_name: Seq<char> },
    JoinGameResponse { success: bool, game_id: nat },
    Steady,
    StateCheckResponse(Status),
    BadRequest,
}

/// The whole state of the service.
pub struct Store {
    pub issued: nat,
    pub players: Map<nat, Seq<char>>,
    pub waiting: Seq<WaitingMatch>,
    pub active: Seq<ActiveMatch>,
}

/// Selects the offers with the given display name.
pub open spec fn named(name: Seq<char>) -> spec_fn(WaitingMatch) -> bool {
    |w: WaitingMatch| w.name == name
}

/// Selects the offers made by the given player.
pub open spec fn hosted_by(player: nat) -> spec_fn(WaitingMatch) -> bool {
    |w: WaitingMatch| w.host == player
}

/// Selects the matches in which the given player holds a seat.
pub open spec fn involving(player: nat) -> spec_fn(ActiveMatch) -> bool {
    |m: ActiveMatch| m.involves(player)
}

impl WaitingMatch {
    /// The match that begins when `player` takes up this offer: the host in
    /// the first seat, the joiner in the second, nothing scored.
    pub open spec fn joined_by(self, player: nat) -> ActiveMatch {
        ActiveMatch { id: self.id, player1: self.host, player2: player, score1: 0, score2: 0 }
    }
}

impl ActiveMatch {
    /// Whether `player` holds one of the two seats.
    pub open spec fn involves(self, player: nat) -> bool {
        self.player1 == player || self.player2 == player
    }

    /// The seat that counts as `player`'s: the first if they hold it,
    /// otherwise the second.
    pub open spec fn seat_of(self, player: nat) -> nat {
        if self.player1 == player {
            1
        } else {
            2
        }
    }

    /// The match after `player` has scored once: the counter of their seat is
    /// one higher, the other is untouched.
    pub open spec fn scored_by(self, player: nat) -> ActiveMatch {
        if self.player1 == player {
            ActiveMatch { score1: self.score1 + 1, ..self }
        } else if self.player2 == player {
            ActiveMatch { score2: self.score2 + 1, ..self }
        } else {
            self
        }
    }

    /// What `player` is told about this match.
    pub open spec fn status_for(self, player: nat) -> Status {
        Status::InGame {
            player: self.seat_of(player),
            player1_score: self.score1,
            player2_score: self.score2,
        }
    }
}

impl Store {
    /// The store of a service that has just started.
    pub open spec fn init() -> Store {
        Store { issued: 0, players: Map::empty(), waiting: Seq::empty(), active: Seq::empty() }
    }

    /// The identifier that the next allocation yields.
    pub open spec fn fresh_id(self) -> nat {
        self.issued + 1
    }

    /// Registering a player under `name`: the player gets the next
    /// identifier. Gives the new store and the player.
    pub open spec fn register(self, name: Seq<char>) -> (Store, nat) {
        let id = self.fresh_id();
        (Store { issued: id, players: self.players.insert(id, name), ..self }, id)
    }

    /// `player` offers a match: it gets the next identifier and the name
    /// that belongs to it, and queues up behind the offers already open.
    /// Gives the new store and the offer.
    pub open spec fn host_game(self, player: nat) -> (Store, WaitingMatch) {
        let id = self.fresh_id();
        let offer = WaitingMatch { id, name: name_of(id), host: player };
        (Store { issued: id, waiting: self.waiting.push(offer), ..self }, offer)
    }

    /// `player` asks to join the match called `name`. The first open offer
    /// of that name leaves the queue and becomes a running match; with no
    /// such offer nothing changes. Gives the new store and the identifier of
    /// the match that began.
    pub open spec fn join_game(self, player: nat, name: Seq<char>) -> (Store, Option<nat>) {
        match first_index(self.waiting, named(name)) {
            Some(i) => {
                let offer = self.waiting[i];
                (
                    Store {
                        waiting: self.waiting.remove(i),
                        active: self.active.push(offer.joined_by(player)),
                        ..self
                    },
                    Some(offer.id),
                )
            },
            None => (self, None),
        }
    }

    /// `player` scores in the first running match in which they hold a seat;
    /// if they hold none, nothing changes.
    pub open spec fn increase_score(self, player: nat) -> Store {
        match first_index(self.active, involving(player)) {
            Some(i) => Store {
                active: self.active.update(i, self.active[i].scored_by(player)),
                ..self
            },
            None => self,
        }
    }

    /// Where `player` stands: in the first running match that involves them
    /// if there is one, else waiting with the first offer they made, else
    /// unknown.
    pub open spec fn state_check(self, player: nat) -> Option<Status> {
        match first_index(self.active, involving(player)) {
            Some(i) => Some(self.active[i].status_for(player)),
            None => match first_index(self.waiting, hosted_by(player)) {
                Some(i) => Some(Status::Waiting { game_name: self.waiting[i].name }),
                None => None,
            },
        }
    }

    /// One request: the store afterwards and the answer.
    pub open spec fn step(self, action: Action) -> (Store, Reply) {
        match action {
            Action::Register { name } => {
                let (next, id) = self.register(name);
                (next, Reply::RegisterResponse { id })
            },
            Action::HostGame { player } => {
                let (next, offer) = self.host_game(player);
                (next, Reply::HostGameResponse { id: offer.id, game_name: offer.name })
            },
            Action::JoinGame { player, game_name } => {
                let (next, joined) = self.join_game(player, game_name);
                match joined {
                    Some(id) => (next, Reply::JoinGameResponse { success: true, game_id: id }),
                    None => (next, Reply::JoinGameResponse { success: false, game_id: 0 }),
                }
            },
            Action::IncreaseScore { player } => (self.increase_score(player), Reply::Steady),
            Action::StateCheck { player } => match self.state_check(player) {
                Some(status) => (self, Reply::StateCheckResponse(status)),
                None => (self, Reply::BadRequest),
            },
        }
    }

    /// Whether the counter that `player`'s next point goes to can still be
    /// raised within the range of a 32-bit signed score.
    pub open spec fn score_has_room(self, player: nat) -> bool {
        match first_index(self.active, involving(player)) {
            Some(i) => {
                if self.active[i].player1 == player {
                    self.active[i].score1 < i32::MAX
                } else {
                    self.active[i].score2 < i32::MAX
                }
            },
            None => true,
        }
    }

    /// Whether the machine can carry out `action`: an identifier is left
    /// where one is needed, and the score counter is not at its end.
    pub open spec fn within_limits(self, action: Action) -> bool {
        match action {
            Action::Register { .. } => self.issued < usize::MAX,
            Action::HostGame { .. } => self.issued < usize::MAX,
            Action::IncreaseScore { player } => self.score_has_room(player),
            _ => true,
        }
    }

    /// Every identifier in use has been issued.
    pub open spec fn ids_issued(self) -> bool {
        &&& forall|k: nat| self.players.contains_key(k) ==> 1 <= k <= self.issued
        &&& forall|i: int|
            0 <= i < self.waiting.len() ==> 1 <= (#[trigger] self.waiting[i]).id <= self.issued
        &&& forall|i: int|
            0 <= i < self.active.len() ==> 1 <= (#[trigger] self.active[i]).id <= self.issued
    }

    /// No identifier stands for two things: not for two matches, open or
    /// running, and not for a match and a player.
    pub open spec fn ids_unique(self) -> bool {
        &&& forall|i: int, j: int|
            0 <= i < j < self.waiting.len() ==> (#[trigger] self.waiting[i]).id != (
            #[trigger] self.waiting[j]).id
        &&& forall|i: int, j: int|
            0 <= i < j < self.active.len() ==> (#[trigger] self.active[i]).id != (
            #[trigger] self.active[j]).id
        &&& forall|i: int, j: int|
            0 <= i < self.waiting.len() && 0 <= j < self.active.len() ==> (
            #[trigger] self.waiting[i]).id != (#[trigger] self.active[j]).id
        &&& forall|i: int|
            0 <= i < self.waiting.len() ==> !self.players.contains_key(
                (#[trigger] self.waiting[i]).id,
            )
        &&& forall|i: int|
            0 <= i < self.active.len() ==> !self.players.contains_key(
                (#[trigger] self.active[i]).id,
            )
    }

    /// What holds of every store that the service can reach: identifiers in
    /// use were issued and are unique, every open offer carries the name of
    /// its identifier, and no score is negative.
    pub open spec fn wf(self) -> bool {
        &&& self.ids_issued()
        &&& self.ids_unique()
        &&& forall|i: int|
            0 <= i < self.waiting.len() ==> (#[trigger] self.waiting[i]).name == name_of(
                self.waiting[i].id,
            )
        &&& forall|i: int|
            0 <= i < self.active.len() ==> (#[trigger] self.active[i]).score1 >= 0
                && self.active[i].score2 >= 0
    }
}

} // verus!
