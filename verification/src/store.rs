//! The matchmaking store: players, open offers and running matches, with one
//! operation for each thing a client can ask.

use vstd::prelude::*;
use std::collections::HashMap;
use crate::game::GameState;
use crate::ident::{next_id, IdAllocator};
use crate::model::{hosted_by, involving, named, ActiveMatch, Status, Store, WaitingMatch};
use crate::names::{name_for, name_of};
use crate::preservation::{
    lemma_host_game_wf, lemma_increase_score_wf, lemma_init_wf, lemma_join_game_wf,
    lemma_register_wf,
};
use crate::records::{Game, GameData, Player, PlayerData, WaitingGame};
use crate::search::{first_index, lemma_first_index, lemma_first_index_is};

verus! {

broadcast use vstd::std_specs::hash::group_hash_axioms;

/// What a player is told about where they stand.
#[derive(Debug, Clone, PartialEq, Eq)]
pub enum StateCheckResponse {
    Waiting { game_name: String },
    InGame { player: usize, player1_score: i32, player2_score: i32 },
}

impl View for StateCheckResponse {
    type V = Status;

    open spec fn view(&self) -> Status {
        match *self {
            StateCheckResponse::Waiting { game_name } => Status::Waiting { game_name: game_name@ },
            StateCheckResponse::InGame { player, player1_score, player2_score } => Status::InGame {
                player: player as nat,
                player1_score: player1_score as int,
                player2_score: player2_score as int,
            },
        }
    }
}

/// The model of an optional status.
pub open spec fn status_view(status: Option<StateCheckResponse>) -> Option<Status> {
    match status {
        Some(s) => Some(s@),
        None => None,
    }
}

/// The model of an optional match handle.
pub open spec fn game_view(game: Option<Game>) -> Option<nat> {
    match game {
        Some(g) => Some(g@),
        None => None,
    }
}

/// The registered names by player identifier, read off the player table.
pub open spec fn names_by_id(table: Map<usize, PlayerData>) -> Map<nat, Seq<char>> {
    Map::new(
        |k: nat| k <= usize::MAX && table.contains_key(k as usize),
        |k: nat| table[k as usize].name@,
    )
}

/// The offers of a queue, in order.
pub open spec fn offers_of(queue: Seq<WaitingGame>) -> Seq<WaitingMatch> {
    queue.map_values(|w: WaitingGame| w@)
}

/// The matches of a list, in order.
pub open spec fn matches_of(list: Seq<GameData>) -> Seq<ActiveMatch> {
    list.map_values(|g: GameData| g@)
}

/// Makes the offer of `player`: draws the next identifier for the match and
/// names the match after it.
pub fn gen_waiting_game(ids: &mut IdAllocator, player: Player) -> (offer: WaitingGame)
    requires
        old(ids).has_room(),
    ensures
        final(ids).issued() == old(ids).issued() + 1,
        offer@ == (WaitingMatch {
            id: old(ids).issued() + 1,
            name: name_of(old(ids).issued() + 1),
            host: player@,
        }),
{
    let id = next_id(ids);
    let game_name = name_for(id);
    WaitingGame { id: Game { id }, game_name, player }
}

/// The state of the service. Its collections are its own: they change only
/// through the operations below.
pub struct MachBackend {
    ids: IdAllocator,
    players_map: HashMap<usize, PlayerData>,
    games: Vec<GameData>,
    waiting_games: Vec<WaitingGame>,
}

impl View for MachBackend {
    type V = Store;

    closed spec fn view(&self) -> Store {
        Store {
            issued: self.ids.issued(),
            players: names_by_id(self.players_map@),
            waiting: offers_of(self.waiting_games@),
            active: matches_of(self.games@),
        }
    }
}

impl MachBackend {
    /// Whether the store is one that the service can have reached.
    pub closed spec fn wf(&self) -> bool {
        &&& self@.wf()
        &&& forall|k: usize| #[trigger]
            self.players_map@.contains_key(k) ==> self.players_map@[k].id@ == k
    }

    /// A reachable store has a model that satisfies the model's invariant,
    /// and its counter fits the machine word.
    pub proof fn lemma_wf(&self)
        requires
            self.wf(),
        ensures
            self@.wf(),
            self@.issued <= usize::MAX,
    {
        self.ids.lemma_issued_bounded();
    }

    /// The store of a service that has just started: nothing issued, nobody
    /// registered, no match open or running.
    pub fn new() -> (store: Self)
        ensures
            store.wf(),
            store@ == Store::init(),
    {
        let store = Self {
            ids: IdAllocator::new(),
            players_map: HashMap::new(),
            games: Vec::new(),
            waiting_games: Vec::new(),
        };
        proof {
            assert(store@.players =~= Map::empty());
            assert(store@.waiting =~= Seq::empty());
            assert(store@.active =~= Seq::empty());
            lemma_init_wf();
        }
        store
    }

    /// The name under which `player` is registered, if they are.
    pub fn player_name(&self, player: Player) -> (name: Option<String>)
        ensures
            match name {
                Some(n) => self@.players.contains_key(player@) && self@.players[player@] == n@,
                None => !self@.players.contains_key(player@),
            },
    {
        match self.players_map.get(&player.id.0) {
            Some(record) => Some(record.name.clone()),
            None => None,
        }
    }

    /// How many offers are open.
    pub fn waiting_len(&self) -> (n: usize)
        ensures
            n == self@.waiting.len(),
    {
        self.waiting_games.len()
    }

    /// How many matches are running.
    pub fn active_len(&self) -> (n: usize)
        ensures
            n == self@.active.len(),
    {
        self.games.len()
    }

    /// Tells whether an identifier is left for a registration or an offer.
    pub fn can_allocate(&self) -> (ok: bool)
        ensures
            ok == (self@.issued < usize::MAX),
    {
        self.ids.can_allocate()
    }

    /// Registers a player under `name`. The player gets the next identifier
    /// and is entered in the player table; nothing else changes.
    pub fn register(&mut self, name: String) -> (player: Player)
        requires
            old(self).wf(),
            old(self)@.issued < usize::MAX,
        ensures
            final(self).wf(),
            final(self)@ == old(self)@.register(name@).0,
            player@ == old(self)@.register(name@).1,
    {
        let id = next_id(&mut self.ids);
        let player = Player { id };
        let record = PlayerData { id: player, name };
        self.players_map.insert(id.0, record);
        proof {
            assert(self@.players =~= old(self)@.players.insert(id@, name@));
            lemma_register_wf(old(self)@, name@);
        }
        player
    }

    /// Opens an offer of `player`. The match gets the next identifier and
    /// the name that belongs to it, and the offer queues up behind those
    /// already open. Whether `player` is registered is not asked, nor
    /// whether they have an offer open already.
    pub fn host_game(&mut self, player: Player) -> (offer: WaitingGame)
        requires
            old(self).wf(),
            old(self)@.issued < usize::MAX,
        ensures
            final(self).wf(),
            final(self)@ == old(self)@.host_game(player@).0,
            offer@ == old(self)@.host_game(player@).1,
    {
        let offer = gen_waiting_game(&mut self.ids, player);
        let queued = WaitingGame {
            id: offer.id,
            game_name: offer.game_name.clone(),
            player: offer.player,
        };
        self.waiting_games.push(queued);
        proof {
            assert(self@.waiting =~= old(self)@.waiting.push(offer@));
            lemma_host_game_wf(old(self)@, player@);
        }
        offer
    }

    /// Pairs `player` with the first open offer called `game_name`. The offer
    /// leaves the queue and becomes a running match with its host in the
    /// first seat, `player` in the second and nothing scored; the match keeps
    /// the offer's identifier, which is returned. With no offer of that name
    /// nothing changes and nothing is returned. A host may join their own
    /// offer.
    pub fn join_game(&mut self, player: Player, game_name: &String) -> (joined: Option<Game>)
        requires
            old(self).wf(),
        ensures
            final(self).wf(),
            final(self)@ == old(self)@.join_game(player@, game_name@).0,
            game_view(joined) == old(self)@.join_game(player@, game_name@).1,
    {
        proof {
            lemma_join_game_wf(old(self)@, player@, game_name@);
        }
        match self.find_offer_named(game_name) {
            Some(i) => {
                let offer = self.waiting_games.remove(i);
                let game = offer.id;
                self.games.push(
                    GameData {
                        id: game,
                        player1: offer.player,
                        player2: player,
                        game_state: GameState::new(),
                    },
                );
                proof {
                    assert(offer@ == old(self)@.waiting[i as int]);
                    assert(self@.waiting =~= old(self)@.waiting.remove(i as int));
                    assert(self@.active =~= old(self)@.active.push(offer@.joined_by(player@)));
                }
                Some(game)
            },
            None => None,
        }
    }

    /// Tells whether `increase_score` may be called for `player`: whether
    /// the counter that their point goes to is below the largest score.
    pub fn can_increase_score(&self, player: Player) -> (ok: bool)
        ensures
            ok == self@.score_has_room(player@),
    {
        match self.find_match_of(player) {
            Some(i) => {
                if self.games[i].player1.id.0 == player.id.0 {
                    self.games[i].game_state.player1_score < i32::MAX
                } else {
                    self.games[i].game_state.player2_score < i32::MAX
                }
            },
            None => true,
        }
    }

    /// Gives `player` a point in the first running match in which they hold
    /// a seat: the counter of the first seat if they hold it, otherwise that
    /// of the second. A player without a running match changes nothing.
    pub fn increase_score(&mut self, player: Player)
        requires
            old(self).wf(),
            old(self)@.score_has_room(player@),
        ensures
            final(self).wf(),
            final(self)@ == old(self)@.increase_score(player@),
    {
        proof {
            lemma_increase_score_wf(old(self)@, player@);
        }
        match self.find_match_of(player) {
            Some(i) => {
                if self.games[i].player1.id.0 == player.id.0 {
                    self.games[i].game_state.player1_score += 1;
                } else {
                    self.games[i].game_state.player2_score += 1;
                }
                proof {
                    let before = old(self)@.active;
                    lemma_first_index(before, involving(player@));
                    assert(self@.active =~= before.update(
                        i as int,
                        before[i as int].scored_by(player@),
                    ));
                }
            },
            None => {},
        }
    }

    /// Tells `player` where they stand: in the first running match in which
    /// they hold a seat, with their seat and both scores; failing that,
    /// waiting with the first offer they made, by its name; failing that,
    /// nothing.
    pub fn state_check(&self, player: Player) -> (status: Option<StateCheckResponse>)
        ensures
            status_view(status) == self@.state_check(player@),
    {
        match self.find_match_of(player) {
            Some(i) => {
                let game = &self.games[i];
                let seat: usize = if game.player1.id.0 == player.id.0 {
                    1
                } else {
                    2
                };
                Some(
                    StateCheckResponse::InGame {
                        player: seat,
                        player1_score: game.game_state.player1_score,
                        player2_score: game.game_state.player2_score,
                    },
                )
            },
            None => match self.find_offer_of(player) {
                Some(i) => Some(
                    StateCheckResponse::Waiting {
                        game_name: self.waiting_games[i].game_name.clone(),
                    },
                ),
                None => None,
            },
        }
    }

    /// The position of the first open offer called `name`.
    fn find_offer_named(&self, name: &String) -> (found: Option<usize>)
        ensures
            first_index(self@.waiting, named(name@)) == match found {
                Some(i) => Some(i as int),
                None => None,
            },
            found matches Some(i) ==> i < self.waiting_games.len(),
    {
        let ghost offers = self@.waiting;
        let ghost wanted = named(name@);
        let mut i: usize = 0;
        while i < self.waiting_games.len()
            invariant
                i <= self.waiting_games.len(),
                offers == offers_of(self.waiting_games@),
                wanted == named(name@),
                forall|j: int| 0 <= j < i ==> !wanted(#[trigger] offers[j]),
            decreases self.waiting_games.len() - i,
        {
            if self.waiting_games[i].game_name == *name {
                proof {
                    assert(wanted(offers[i as int]));
                    lemma_first_index_is(offers, wanted, i as int);
                }
                return Some(i);
            }
            i = i + 1;
        }
        proof {
            lemma_first_index(offers, wanted);
        }
        None
    }

    /// The position of the first open offer made by `player`.
    fn find_offer_of(&self, player: Player) -> (found: Option<usize>)
        ensures
            first_index(self@.waiting, hosted_by(player@)) == match found {
                Some(i) => Some(i as int),
                None => None,
            },
            found matches Some(i) ==> i < self.waiting_games.len(),
    {
        let ghost offers = self@.waiting;
        let ghost wanted = hosted_by(player@);
        let mut i: usize = 0;
        while i < self.waiting_games.len()
            invariant
                i <= self.waiting_games.len(),
                offers == offers_of(self.waiting_games@),
                wanted == hosted_by(player@),
                forall|j: int| 0 <= j < i ==> !wanted(#[trigger] offers[j]),
            decreases self.waiting_games.len() - i,
        {
            if self.waiting_games[i].player.id.0 == player.id.0 {
                proof {
                    assert(wanted(offers[i as int]));
                    lemma_first_index_is(offers, wanted, i as int);
                }
                return Some(i);
            }
            i = i + 1;
        }
        proof {
            lemma_first_index(offers, wanted);
        }
        None
    }

    /// The position of the first running match in which `player` holds a
    /// seat.
    fn find_match_of(&self, player: Player) -> (found: Option<usize>)
        ensures
            first_index(self@.active, involving(player@)) == match found {
                Some(i) => Some(i as int),
                None => None,
            },
            found matches Some(i) ==> i < self.games.len(),
    {
        let ghost matches = self@.active;
        let ghost wanted = involving(player@);
        let mut i: usize = 0;
        while i < self.games.len()
            invariant
                i <= self.games.len(),
                matches == matches_of(self.games@),
                wanted == involving(player@),
                forall|j: int| 0 <= j < i ==> !wanted(#[trigger] matches[j]),
            decreases self.games.len() - i,
        {
            if self.games[i].player1.id.0 == player.id.0 || self.games[i].player2.id.0
                == player.id.0 {
                proof {
                    assert(wanted(matches[i as int]));
                    lemma_first_index_is(matches, wanted, i as int);
                }
                return Some(i);
            }
            i = i + 1;
        }
        proof {
            lemma_first_index(matches, wanted);
        }
        None
    }
}

} // verus!
