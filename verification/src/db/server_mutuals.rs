//! The remote ActivityPub actors this server follows or is followed by.
use vstd::prelude::*;
use crate::db::user::same_text;

verus! {

/// A remote actor and the state of the follow in each direction.
#[derive(PartialEq, Debug)]
pub struct ServerMutual {
    pub id: i32,
    pub actor_id: String,
    pub inbox_url: String,
    /// The remote actor accepted our follow.
    pub accepted: bool,
    /// The remote actor follows us and we accepted.
    pub followed_back: bool,
    pub outbox_url: Option<String>,
}

/// A remote actor we start to follow, ready to be stored.
pub struct NewServerMutual {
    pub actor_id: String,
    pub inbox_url: String,
}

/// Whether this server is connected with a remote actor: it accepted our
/// follow and we accepted its follow back.
pub open spec fn connected(m: ServerMutual) -> bool {
    m.accepted && m.followed_back
}

/// The inboxes of the connected actors among `mutuals`, in order.
pub open spec fn connected_inboxes(mutuals: Seq<ServerMutual>) -> Seq<Seq<char>>
    decreases mutuals.len(),
{
    if mutuals.len() == 0 {
        seq![]
    } else if connected(mutuals.last()) {
        connected_inboxes(mutuals.drop_last()).push(mutuals.last().inbox_url@)
    } else {
        connected_inboxes(mutuals.drop_last())
    }
}

/// Where neighborhood notes are delivered: the inboxes of the connected
/// actors among the stored remote actors (see `connected_inboxes`).
pub fn get_destinations(mutuals: &[ServerMutual]) -> (inboxes: Vec<String>)
    ensures
        inboxes@.len() == connected_inboxes(mutuals@).len(),
        forall|i: int| 0 <= i < inboxes@.len() ==> #[trigger] inboxes@[i]@ == connected_inboxes(mutuals@)[i],
{
    let mut inboxes: Vec<String> = Vec::new();
    let mut i: usize = 0;
    while i < mutuals.len()
        invariant
            i <= mutuals@.len(),
            inboxes@.len() == connected_inboxes(mutuals@.take(i as int)).len(),
            forall|j: int|
                0 <= j < inboxes@.len() ==> #[trigger] inboxes@[j]@ == connected_inboxes(
                    mutuals@.take(i as int),
                )[j],
        decreases mutuals@.len() - i,
    {
        assert(mutuals@.take((i + 1) as int).drop_last() == mutuals@.take(i as int));
        assert(mutuals@.take((i + 1) as int).last() == mutuals@[i as int]);
        if mutuals[i].accepted && mutuals[i].followed_back {
            inboxes.push(mutuals[i].inbox_url.clone());
        }
        i = i + 1;
    }
    assert(mutuals@.take(mutuals@.len() as int) == mutuals@);
    inboxes
}

/// Whether `actor_id` is among the stored remote actors `mutuals`: the
/// actors this server follows or has whitelisted.
pub open spec fn whitelisted(mutuals: Seq<ServerMutual>, actor_id: Seq<char>) -> bool {
    exists|i: int| 0 <= i < mutuals.len() && #[trigger] mutuals[i].actor_id@ == actor_id
}

/// Whether a follow from `actor_id` is accepted: only from whitelisted actors
/// (see `whitelisted`); every other follow is rejected.
pub fn should_accept(mutuals: &[ServerMutual], actor_id: &str) -> (accept: bool)
    ensures
        accept == whitelisted(mutuals@, actor_id@),
{
    let mut i: usize = 0;
    while i < mutuals.len()
        invariant
            i <= mutuals@.len(),
            forall|j: int| 0 <= j < i ==> #[trigger] mutuals@[j].actor_id@ != actor_id@,
        decreases mutuals@.len() - i,
    {
        if same_text(mutuals[i].actor_id.as_str(), actor_id) {
            assert(mutuals@[i as int].actor_id@ == actor_id@);
            return true;
        }
        i = i + 1;
    }
    false
}

/// The whitelist is exactly the stored actors: a follow from an actor is
/// accepted if and only if it is one of the stored actors' ids, whatever its
/// place among them, the first included.
pub proof fn lemma_whitelist_is_stored_actors(mutuals: Seq<ServerMutual>, actor_id: Seq<char>)
    ensures
        whitelisted(mutuals, actor_id) <==> mutuals.map_values(|m: ServerMutual| m.actor_id@).contains(actor_id),
        forall|i: int| 0 <= i < mutuals.len() ==> whitelisted(mutuals, #[trigger] mutuals[i].actor_id@),
{
    let ids = mutuals.map_values(|m: ServerMutual| m.actor_id@);
    if whitelisted(mutuals, actor_id) {
        let i = choose|i: int| 0 <= i < mutuals.len() && #[trigger] mutuals[i].actor_id@ == actor_id;
        assert(ids[i] == actor_id);
    }
    if ids.contains(actor_id) {
        let i = choose|i: int| 0 <= i < ids.len() && ids[i] == actor_id;
        assert(mutuals[i].actor_id@ == actor_id);
    }
}

/// Whether some connected actor among `mutuals` has the inbox `inbox`.
pub open spec fn has_connected_actor_at(mutuals: Seq<ServerMutual>, inbox: Seq<char>) -> bool {
    exists|i: int| 0 <= i < mutuals.len() && connected(#[trigger] mutuals[i]) && mutuals[i].inbox_url@ == inbox
}

/// Notes reach only connected actors: every inbox that `get_destinations`
/// gives belongs to a stored actor that accepted our follow and that we
/// followed back, and every such actor's inbox is among them.
pub proof fn lemma_destinations_connected(mutuals: Seq<ServerMutual>)
    ensures
        forall|j: int|
            0 <= j < connected_inboxes(mutuals).len() ==> has_connected_actor_at(
                mutuals,
                #[trigger] connected_inboxes(mutuals)[j],
            ),
        forall|i: int|
            0 <= i < mutuals.len() && connected(#[trigger] mutuals[i]) ==> connected_inboxes(
                mutuals,
            ).contains(mutuals[i].inbox_url@),
    decreases mutuals.len(),
{
    if mutuals.len() > 0 {
        let init = mutuals.drop_last();
        lemma_destinations_connected(init);
        let c = connected_inboxes(mutuals);
        let ci = connected_inboxes(init);
        assert forall|j: int| 0 <= j < c.len() implies has_connected_actor_at(mutuals, #[trigger] c[j]) by {
            if connected(mutuals.last()) && j == ci.len() {
                assert(connected(mutuals[mutuals.len() - 1]));
                assert(c[j] == mutuals[mutuals.len() - 1].inbox_url@);
            } else {
                assert(c[j] == ci[j]);
                assert(has_connected_actor_at(init, ci[j]));
                let i = choose|i: int| 0 <= i < init.len() && connected(#[trigger] init[i]) && init[i].inbox_url@ == ci[j];
                assert(mutuals[i] == init[i]);
                assert(connected(mutuals[i]) && mutuals[i].inbox_url@ == c[j]);
            }
        }
        assert forall|i: int| 0 <= i < mutuals.len() && connected(#[trigger] mutuals[i]) implies c.contains(
            mutuals[i].inbox_url@,
        ) by {
            if i == mutuals.len() - 1 {
                assert(c[ci.len() as int] == mutuals[i].inbox_url@);
            } else {
                assert(mutuals[i] == init[i]);
                let k = choose|k: int| 0 <= k < ci.len() && ci[k] == init[i].inbox_url@;
                assert(c[k] == ci[k]);
            }
        }
    } else {
        assert(connected_inboxes(mutuals).len() == 0);
    }
}

} // verus!
