//! Every operation of the store keeps the store well formed.

use vstd::prelude::*;
use crate::model::{involving, named, Action, Store};
use crate::search::lemma_first_index;

verus! {

/// The store of a service that has just started is well formed.
pub proof fn lemma_init_wf()
    ensures
        Store::init().wf(),
{
}

/// Registering a player keeps the store well formed.
pub proof fn lemma_register_wf(s: Store, name: Seq<char>)
    requires
        s.wf(),
    ensures
        s.register(name).0.wf(),
{
}

/// Offering a match keeps the store well formed.
pub proof fn lemma_host_game_wf(s: Store, player: nat)
    requires
        s.wf(),
    ensures
        s.host_game(player).0.wf(),
{
}

/// Joining a match keeps the store well formed, whether or not an offer of
/// that name is open.
pub proof fn lemma_join_game_wf(s: Store, player: nat, name: Seq<char>)
    requires
        s.wf(),
    ensures
        s.join_game(player, name).0.wf(),
{
    lemma_first_index(s.waiting, named(name));
}

/// Scoring keeps the store well formed.
pub proof fn lemma_increase_score_wf(s: Store, player: nat)
    requires
        s.wf(),
    ensures
        s.increase_score(player).wf(),
{
    lemma_first_index(s.active, involving(player));
}

/// Every request leaves a well-formed store well formed.
pub proof fn lemma_step_wf(s: Store, action: Action)
    requires
        s.wf(),
    ensures
        s.step(action).0.wf(),
{
    match action {
        Action::Register { name } => lemma_register_wf(s, name),
        Action::HostGame { player } => lemma_host_game_wf(s, player),
        Action::JoinGame { player, game_name } => lemma_join_game_wf(s, player, game_name),
        Action::IncreaseScore { player } => lemma_increase_score_wf(s, player),
        Action::StateCheck { .. } => {},
    }
}

} // verus!
