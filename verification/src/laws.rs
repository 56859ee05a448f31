//! What holds of the store whatever the requests are.

use vstd::prelude::*;
use crate::model::{hosted_by, involving, named, Action, ActiveMatch, Reply, Status, Store};
use crate::names::{lemma_name_of_injective, name_of};
use crate::preservation::lemma_step_wf;
use crate::search::{
    first_index, has_match, lemma_first_index, lemma_first_index_is, lemma_first_index_push,
    lemma_first_index_remove, lemma_first_index_update,
};

verus! {

/// The store after a series of requests, carried out one after the other.
pub open spec fn run(s: Store, actions: Seq<Action>) -> Store
    decreases actions.len(),
{
    if actions.len() == 0 {
        s
    } else {
        run(s, actions.drop_last()).step(actions.last()).0
    }
}

/// The answer to request number `i` of a series.
pub open spec fn answer(s: Store, actions: Seq<Action>, i: int) -> Reply
    recommends
        0 <= i < actions.len(),
{
    run(s, actions.take(i)).step(actions[i]).1
}

/// The identifier that an answer hands out as new, if it hands one out.
pub open spec fn issued_in(reply: Reply) -> Option<nat> {
    match reply {
        Reply::RegisterResponse { id } => Some(id),
        Reply::HostGameResponse { id, .. } => Some(id),
        _ => None,
    }
}

/// The store after `player` has scored `n` times in a row.
pub open spec fn scored(s: Store, player: nat, n: nat) -> Store
    decreases n,
{
    if n == 0 {
        s
    } else {
        scored(s, player, (n - 1) as nat).increase_score(player)
    }
}

/// A request never lowers the count of identifiers issued, and an answer
/// that hands out an identifier hands out the count after the request, which
/// is one more than the count before.
pub proof fn law_step_counts(s: Store, action: Action)
    ensures
        s.step(action).0.issued >= s.issued,
        issued_in(s.step(action).1) matches Some(id) ==> id == s.issued + 1 && s.step(action).0.issued
            == id,
{
}

/// Carrying out more requests never lowers the count of identifiers issued.
pub proof fn law_run_counts(s: Store, actions: Seq<Action>, i: int, j: int)
    requires
        0 <= i <= j <= actions.len(),
    ensures
        run(s, actions.take(i)).issued <= run(s, actions.take(j)).issued,
    decreases j - i,
{
    if i < j {
        law_run_counts(s, actions, i, j - 1);
        assert(actions.take(j).drop_last() == actions.take(j - 1));
        assert(actions.take(j).last() == actions[j - 1]);
        law_step_counts(run(s, actions.take(j - 1)), actions[j - 1]);
    }
}

/// Identifiers are handed out in strictly increasing order, whatever
/// requests come in between: of two answers in a series that each hand out
/// an identifier, the later one hands out the greater. So none is handed out
/// twice.
pub proof fn law_ids_increase(s: Store, actions: Seq<Action>, i: int, j: int)
    requires
        0 <= i < j < actions.len(),
        issued_in(answer(s, actions, i)) is Some,
        issued_in(answer(s, actions, j)) is Some,
    ensures
        s.issued < issued_in(answer(s, actions, i))->0 < issued_in(answer(s, actions, j))->0,
{
    law_run_counts(s, actions, 0, i);
    assert(actions.take(0) == Seq::<Action>::empty());
    law_step_counts(run(s, actions.take(i)), actions[i]);
    assert(actions.take(i + 1).drop_last() == actions.take(i));
    assert(actions.take(i + 1).last() == actions[i]);
    law_run_counts(s, actions, i + 1, j);
    law_step_counts(run(s, actions.take(j)), actions[j]);
}

/// Every store that a series of requests leads to from a well-formed store
/// is well formed.
pub proof fn law_run_wf(s: Store, actions: Seq<Action>)
    requires
        s.wf(),
    ensures
        run(s, actions).wf(),
    decreases actions.len(),
{
    if actions.len() > 0 {
        law_run_wf(s, actions.drop_last());
        lemma_step_wf(run(s, actions.drop_last()), actions.last());
    }
}

/// A registration changes nobody's status.
pub proof fn law_register_keeps_status(s: Store, name: Seq<char>, player: nat)
    ensures
        s.register(name).0.state_check(player) == s.state_check(player),
{
}

/// A player who has just registered is neither playing nor waiting, unless
/// an offer or a match was made under their identifier before it was issued.
pub proof fn law_registered_is_unknown(s: Store, name: Seq<char>)
    requires
        s.state_check(s.fresh_id()) is None,
    ensures
        s.register(name).0.state_check(s.register(name).1) is None,
{
}

/// An offer changes the status of the host alone, and only if they had
/// none: then they are waiting, under the name that belongs to the
/// identifier of the new match. A host who was playing is still shown their
/// match, and one who was waiting their earlier offer.
pub proof fn law_host_status(s: Store, host: nat, player: nat)
    ensures
        s.host_game(host).0.state_check(player) == if player == host && s.state_check(host)
            is None {
            Some(Status::Waiting { game_name: name_of(s.host_game(host).1.id) })
        } else {
            s.state_check(player)
        },
        s.host_game(host).1.name == name_of(s.host_game(host).1.id),
{
    lemma_first_index_push(s.waiting, hosted_by(player), s.host_game(host).1);
}

/// The open offers of a well-formed store have names of their own.
pub proof fn law_offer_names_differ(s: Store, i: int, j: int)
    requires
        s.wf(),
        0 <= i < s.waiting.len(),
        0 <= j < s.waiting.len(),
        i != j,
    ensures
        s.waiting[i].name != s.waiting[j].name,
{
    if s.waiting[i].name == s.waiting[j].name {
        lemma_name_of_injective(s.waiting[i].id, s.waiting[j].id);
        if i < j {
            assert(s.waiting[i].id != s.waiting[j].id);
        } else {
            assert(s.waiting[j].id != s.waiting[i].id);
        }
    }
}

/// Every open offer of a well-formed store can be taken up by its name:
/// joining under that name begins the match with that offer's identifier.
pub proof fn law_offer_found_by_name(s: Store, i: int, player: nat)
    requires
        s.wf(),
        0 <= i < s.waiting.len(),
    ensures
        first_index(s.waiting, named(s.waiting[i].name)) == Some(i),
        s.join_game(player, s.waiting[i].name).1 == Some(s.waiting[i].id),
{
    let wanted = named(s.waiting[i].name);
    assert forall|j: int| 0 <= j < i implies !wanted(#[trigger] s.waiting[j]) by {
        law_offer_names_differ(s, i, j);
    }
    assert(wanted(s.waiting[i]));
    lemma_first_index_is(s.waiting, wanted, i);
}

/// Joining under the name of an open offer succeeds, takes exactly that
/// offer out of the queue and adds one match with nothing scored; after
/// that, joining under the same name fails.
pub proof fn law_join_consumes_offer(s: Store, player: nat, name: Seq<char>, later: nat)
    requires
        s.wf(),
        has_match(s.waiting, named(name)),
    ensures
        first_index(s.waiting, named(name)) is Some,
        ({
            let i = first_index(s.waiting, named(name))->0;
            let (next, joined) = s.join_game(player, name);
            &&& joined == Some(s.waiting[i].id)
            &&& next.waiting == s.waiting.remove(i)
            &&& next.active == s.active.push(
                ActiveMatch {
                    id: s.waiting[i].id,
                    player1: s.waiting[i].host,
                    player2: player,
                    score1: 0,
                    score2: 0,
                },
            )
            &&& next.join_game(later, name) == (next, None::<nat>)
        }),
{
    lemma_first_index(s.waiting, named(name));
    let i = first_index(s.waiting, named(name))->0;
    let next = s.join_game(player, name).0;
    assert forall|k: int| 0 <= k < next.waiting.len() implies !named(name)(
        #[trigger] next.waiting[k],
    ) by {
        let from = if k < i {
            k
        } else {
            k + 1
        };
        assert(next.waiting[k] == s.waiting[from]);
        law_offer_names_differ(s, i, from);
    }
    lemma_first_index(next.waiting, named(name));
}

/// Joining under a name that no open offer has fails and changes nothing.
pub proof fn law_join_unknown_name(s: Store, player: nat, name: Seq<char>)
    requires
        !has_match(s.waiting, named(name)),
    ensures
        s.join_game(player, name) == (s, None::<nat>),
{
    lemma_first_index(s.waiting, named(name));
}

/// A join that succeeds changes the status of two players at most, and only
/// if they were in no match before: the host of the offer is then playing in
/// the first seat and the joiner in the second, with nothing scored. (A host
/// who joins their own offer holds both seats and is shown the first.)
/// Whoever was in a match before is still shown that match, and everybody
/// else is shown what they were shown.
pub proof fn law_join_status(s: Store, joiner: nat, name: Seq<char>, player: nat)
    requires
        first_index(s.waiting, named(name)) is Some,
    ensures
        s.join_game(joiner, name).0.state_check(player) == ({
            let host = s.waiting[first_index(s.waiting, named(name))->0].host;
            if first_index(s.active, involving(player)) is Some {
                s.state_check(player)
            } else if player == host {
                Some(Status::InGame { player: 1, player1_score: 0, player2_score: 0 })
            } else if player == joiner {
                Some(Status::InGame { player: 2, player1_score: 0, player2_score: 0 })
            } else {
                s.state_check(player)
            }
        }),
{
    lemma_first_index(s.waiting, named(name));
    let i = first_index(s.waiting, named(name))->0;
    let offer = s.waiting[i];
    lemma_first_index_push(s.active, involving(player), offer.joined_by(joiner));
    if player != offer.host {
        lemma_first_index_remove(s.waiting, hosted_by(player), i);
    }
}

/// A point of a player who is in a match raises the score of their seat by
/// one in the match that their status shows, and changes nothing else: not
/// the other score, not their seat, no other match, no offer, no player.
pub proof fn law_score_counts(s: Store, player: nat)
    requires
        has_match(s.active, involving(player)),
    ensures
        first_index(s.active, involving(player)) is Some,
        ({
            let i = first_index(s.active, involving(player))->0;
            let next = s.increase_score(player);
            let seat = s.active[i].seat_of(player);
            &&& s.state_check(player) == Some(
                Status::InGame {
                    player: seat,
                    player1_score: s.active[i].score1,
                    player2_score: s.active[i].score2,
                },
            )
            &&& next.state_check(player) == Some(
                Status::InGame {
                    player: seat,
                    player1_score: s.active[i].score1 + if seat == 1 { 1int } else { 0 },
                    player2_score: s.active[i].score2 + if seat == 2 { 1int } else { 0 },
                },
            )
            &&& next.active.len() == s.active.len()
            &&& forall|k: int| 0 <= k < s.active.len() && k != i ==> next.active[k] == s.active[k]
            &&& next.waiting == s.waiting
            &&& next.players == s.players
            &&& next.issued == s.issued
        }),
{
    lemma_first_index(s.active, involving(player));
    let i = first_index(s.active, involving(player))->0;
    lemma_first_index_update(s.active, involving(player), i, s.active[i].scored_by(player));
}

/// Points add up: after `n` points in a row the score of the player's seat
/// is `n` higher, and the other score is what it was.
pub proof fn law_scores_accumulate(s: Store, player: nat, n: nat)
    requires
        has_match(s.active, involving(player)),
    ensures
        first_index(s.active, involving(player)) is Some,
        ({
            let i = first_index(s.active, involving(player))->0;
            let seat = s.active[i].seat_of(player);
            scored(s, player, n).state_check(player) == Some(
                Status::InGame {
                    player: seat,
                    player1_score: s.active[i].score1 + if seat == 1 { n as int } else { 0 },
                    player2_score: s.active[i].score2 + if seat == 2 { n as int } else { 0 },
                },
            )
        }),
    decreases n,
{
    lemma_first_index(s.active, involving(player));
    if n > 0 {
        let before = scored(s, player, (n - 1) as nat);
        law_scores_accumulate(s, player, (n - 1) as nat);
        lemma_first_index(before.active, involving(player));
        law_score_counts(before, player);
    }
}

/// A point of a player who is in no match changes nothing.
pub proof fn law_score_without_match(s: Store, player: nat)
    requires
        !has_match(s.active, involving(player)),
    ensures
        s.increase_score(player) == s,
{
    lemma_first_index(s.active, involving(player));
}

} // verus!
