//! The registry of callers that wait for a reply, keyed by call identifier.
//!
//! A waiter is whatever the caller left behind to be reached by: the table
//! stores it under the call's identifier, hands it back once when the reply
//! with that identifier arrives, and forgets it when the caller gives up.

use vstd::prelude::*;
use vstd::set_lib::lemma_len_subset;
use vstd::std_specs::hash::spec_keys_iter;
use vstd::std_specs::iter::IteratorSpec;
use std::collections::HashMap;
use crate::redis::CallId;

verus! {

broadcast use vstd::std_specs::hash::group_hash_axioms;

/// The waiters of the calls that are under way. Its value is the map from
/// the identifiers that are pending to their waiters.
pub struct CorrelationTable<W> {
    slots: HashMap<u128, W>,
}

impl<W> View for CorrelationTable<W> {
    type V = Map<u128, W>;

    closed spec fn view(&self) -> Map<u128, W> {
        self.slots@
    }
}

/// The waiter of `id` in `pending`, if a caller waits under it.
pub open spec fn waiter_of<W>(pending: Map<u128, W>, id: u128) -> Option<W> {
    if pending.dom().contains(id) {
        Some(pending[id])
    } else {
        None
    }
}

/// Whether `ids` lists `id` before position `upto`.
pub open spec fn listed_before(ids: Seq<CallId>, upto: int, id: u128) -> bool {
    exists|j: int| 0 <= j < upto && j < ids.len() && #[trigger] ids[j].value == id
}

/// The identifier `steps` after `seed`, going round from the largest
/// identifier to zero.
pub open spec fn probe(seed: u128, steps: nat) -> u128
    recommends
        steps <= u128::MAX,
{
    if seed + steps <= u128::MAX {
        (seed + steps) as u128
    } else {
        (seed + steps - u128::MAX - 1) as u128
    }
}

/// Whether `id` is the first identifier from `seed` on that `pending` does
/// not hold.
pub open spec fn first_vacant(pending: Set<u128>, seed: u128, id: u128) -> bool {
    exists|steps: nat|
        {
            &&& steps <= pending.len()
            &&& id == #[trigger] probe(seed, steps)
            &&& !pending.contains(id)
            &&& forall|k: nat| k < steps ==> pending.contains(#[trigger] probe(seed, k))
        }
}

/// The first `count` identifiers from `seed` on.
spec fn run_of(seed: u128, count: nat) -> Set<u128> {
    Set::new(|id: u128| exists|k: nat| k < count && id == #[trigger] probe(seed, k))
}

/// A set that holds the first `count` identifiers from `seed` on has at
/// least `count` members.
proof fn lemma_run_fits(pending: Set<u128>, seed: u128, count: nat)
    requires
        pending.finite(),
        count <= u64::MAX + 1,
        forall|k: nat| k < count ==> pending.contains(#[trigger] probe(seed, k)),
    ensures
        count <= pending.len(),
{
    assert(run_of(seed, count).subset_of(pending));
    lemma_len_subset(run_of(seed, count), pending);
    lemma_run_len(seed, count);
}

/// The first `count` identifiers from `seed` on are `count` different ones.
proof fn lemma_run_len(seed: u128, count: nat)
    requires
        count <= u64::MAX + 1,
    ensures
        run_of(seed, count).finite(),
        run_of(seed, count).len() == count,
    decreases count,
{
    if count == 0 {
        assert(run_of(seed, 0) =~= Set::<u128>::empty());
    } else {
        let before = (count - 1) as nat;
        lemma_run_len(seed, before);
        let last = probe(seed, before);
        assert(!run_of(seed, before).contains(last)) by {
            if run_of(seed, before).contains(last) {
                let k = choose|k: nat| k < before && last == #[trigger] probe(seed, k);
                assert(probe(seed, k) != probe(seed, before));
            }
        }
        assert(run_of(seed, count) =~= run_of(seed, before).insert(last)) by {
            assert forall|id: u128| run_of(seed, count).contains(id) implies run_of(
                seed,
                before,
            ).insert(last).contains(id) by {
                let k = choose|k: nat| k < count && id == #[trigger] probe(seed, k);
                if k < before {
                    assert(run_of(seed, before).contains(probe(seed, k)));
                }
            }
            assert forall|id: u128| run_of(seed, before).insert(last).contains(
                id,
            ) implies run_of(seed, count).contains(id) by {
                if id == last {
                    assert(before < count && id == probe(seed, before));
                } else {
                    let k = choose|k: nat| k < before && id == #[trigger] probe(seed, k);
                    assert(k < count && id == probe(seed, k));
                }
            }
        }
    }
}

impl<W> CorrelationTable<W> {
    /// A table in which no call is pending.
    pub fn new() -> (table: Self)
        ensures
            table@ == Map::<u128, W>::empty(),
    {
        CorrelationTable { slots: HashMap::new() }
    }

    /// The number of calls that are pending.
    pub fn len(&self) -> (n: usize)
        ensures
            self@.dom().finite(),
            n == self@.len(),
    {
        self.slots.len()
    }

    /// Whether a caller waits under `id`.
    pub fn is_pending(&self, id: CallId) -> (pending: bool)
        ensures
            pending == self@.dom().contains(id.value),
    {
        self.slots.contains_key(&id.value)
    }

    /// The waiter of `id`, if a caller waits under it.
    pub fn get(&self, id: CallId) -> (waiter: Option<&W>)
        ensures
            waiter == match waiter_of(self@, id.value) {
                Some(w) => Some(&w),
                None => None,
            },
    {
        self.slots.get(&id.value)
    }

    /// The identifiers that are pending, each once, in no order that could
    /// be relied on.
    pub fn ids(&self) -> (ids: Vec<CallId>)
        ensures
            forall|i: int, j: int| 0 <= i < j < ids@.len() ==> ids@[i] != ids@[j],
            forall|id: u128|
                self@.dom().contains(id) <==> listed_before(ids@, ids@.len() as int, id),
    {
        let mut ids: Vec<CallId> = Vec::new();
        let keys = self.slots.keys();
        let ghost all = spec_keys_iter(&self.slots).remaining();
        for key in it: keys
            invariant
                it.seq() == all,
                ids@.len() == it.index(),
                forall|i: int| 0 <= i < ids@.len() ==> (#[trigger] ids@[i]).value == *all[i],
        {
            ids.push(CallId { value: *key });
        }
        proof {
            assert forall|i: int, j: int| 0 <= i < j < ids@.len() implies ids@[i] != ids@[j] by {
                assert(all[i] != all[j]);
            }
            assert forall|id: u128| self@.dom().contains(id) <==> listed_before(
                ids@,
                ids@.len() as int,
                id,
            ) by {
                if self@.dom().contains(id) {
                    assert(all.unref().to_set().contains(id));
                    let j = choose|j: int| 0 <= j < all.unref().len() && all.unref()[j] == id;
                    assert(ids@[j].value == id);
                }
                if listed_before(ids@, ids@.len() as int, id) {
                    let j = choose|j: int|
                        0 <= j < ids@.len() && j < ids@.len() && #[trigger] ids@[j].value == id;
                    assert(all.unref()[j] == id);
                    assert(all.unref().to_set().contains(id));
                }
            }
        }
        ids
    }

    /// Stores `waiter` under `id`. An identifier that is pending is never
    /// given to a second caller: the waiter then comes back and the table
    /// stays as it was.
    pub fn register(&mut self, id: CallId, waiter: W) -> (r: Result<(), W>)
        ensures
            match r {
                Ok(()) => !old(self)@.dom().contains(id.value) && final(self)@ == old(self)@.insert(
                    id.value,
                    waiter,
                ),
                Err(back) => old(self)@.dom().contains(id.value) && back == waiter && final(self)@
                    == old(self)@,
            },
    {
        if self.slots.contains_key(&id.value) {
            Err(waiter)
        } else {
            self.slots.insert(id.value, waiter);
            Ok(())
        }
    }

    /// Takes out the waiter of `id` for a reply that bears this identifier.
    /// A reply for an identifier that is not pending finds nobody and
    /// changes nothing.
    pub fn resolve(&mut self, id: CallId) -> (waiter: Option<W>)
        ensures
            waiter == waiter_of(old(self)@, id.value),
            final(self)@ == old(self)@.remove(id.value),
    {
        self.slots.remove(&id.value)
    }

    /// Forgets the waiter of `id`, for a caller that gave up. Says whether
    /// there was one.
    pub fn remove(&mut self, id: CallId) -> (was_pending: bool)
        ensures
            was_pending == old(self)@.dom().contains(id.value),
            final(self)@ == old(self)@.remove(id.value),
    {
        self.slots.remove(&id.value).is_some()
    }

    /// The first identifier from `seed` on that is not pending: `seed`
    /// itself unless a caller waits under it.
    pub fn vacant_from(&self, seed: CallId) -> (id: CallId)
        ensures
            first_vacant(self@.dom(), seed.value, id.value),
    {
        let n = self.slots.len();
        let mut candidate: u128 = seed.value;
        let mut tried: usize = 0;
        while self.slots.contains_key(&candidate)
            invariant
                self@.dom().finite(),
                n == self@.len(),
                tried <= n,
                candidate == probe(seed.value, tried as nat),
                forall|k: nat| k < tried ==> self@.dom().contains(#[trigger] probe(seed.value, k)),
            decreases n - tried,
        {
            proof {
                lemma_run_fits(self@.dom(), seed.value, (tried + 1) as nat);
            }
            candidate = if candidate == u128::MAX {
                0
            } else {
                candidate + 1
            };
            tried = tried + 1;
        }
        CallId { value: candidate }
    }
}

/// A seed under which nobody waits is the identifier that is taken.
pub proof fn lemma_vacant_seed_is_kept(pending: Set<u128>, seed: u128, id: u128)
    requires
        first_vacant(pending, seed, id),
        !pending.contains(seed),
    ensures
        id == seed,
{
    let steps = choose|steps: nat|
        {
            &&& steps <= pending.len()
            &&& id == #[trigger] probe(seed, steps)
            &&& !pending.contains(id)
            &&& forall|k: nat| k < steps ==> pending.contains(#[trigger] probe(seed, k))
        };
    if steps > 0 {
        assert(pending.contains(probe(seed, 0)));
    }
}

/// An identifier that is taken for a call differs from every identifier
/// that is pending, and so do the identifiers of two calls of which the
/// second is opened while the first is pending.
pub proof fn law_issued_identifiers_are_unique(
    pending: Set<u128>,
    first_seed: u128,
    first: u128,
    second_seed: u128,
    second: u128,
)
    requires
        first_vacant(pending, first_seed, first),
        first_vacant(pending.insert(first), second_seed, second),
    ensures
        !pending.contains(first),
        !pending.contains(second),
        first != second,
{
}

/// What a list holds before one position more: what it holds before the
/// position, and the identifier at the position. Where no identifier is
/// listed twice, the one at the position is not listed before it.
pub proof fn lemma_listed_step(ids: Seq<CallId>, at: int)
    requires
        0 <= at < ids.len(),
    ensures
        forall|id: u128|
            listed_before(ids, at + 1, id) <==> (id == ids[at].value || listed_before(ids, at, id)),
        (forall|i: int, j: int| 0 <= i < j < ids.len() ==> ids[i] != ids[j]) ==> !listed_before(
            ids,
            at,
            ids[at].value,
        ),
{
    assert forall|id: u128|
        listed_before(ids, at + 1, id) <==> (id == ids[at].value || listed_before(
            ids,
            at,
            id,
        )) by {
        if listed_before(ids, at + 1, id) {
            let j = choose|j: int| 0 <= j < at + 1 && j < ids.len() && #[trigger] ids[j].value == id;
            if j < at {
                assert(listed_before(ids, at, id));
            }
        }
        if id == ids[at].value {
            assert(ids[at].value == id);
        }
        if listed_before(ids, at, id) {
            let j = choose|j: int| 0 <= j < at && j < ids.len() && #[trigger] ids[j].value == id;
            assert(0 <= j < at + 1 && ids[j].value == id);
        }
    }
    if forall|i: int, j: int| 0 <= i < j < ids.len() ==> ids[i] != ids[j] {
        if listed_before(ids, at, ids[at].value) {
            let j = choose|j: int|
                0 <= j < at && j < ids.len() && #[trigger] ids[j].value == ids[at].value;
            assert(ids[j] != ids[at]);
        }
    }
}

} // verus!
