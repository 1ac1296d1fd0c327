//! The bridge to the worker: what turns a broker that only publishes and
//! subscribes into calls that are answered or time out.
//!
//! The bridge owns the table of waiters and decides; it neither publishes
//! nor sleeps. Time comes in as seconds on a clock that does not go back. A
//! caller opens a call and gets the envelope to publish and the seconds to
//! wait. The task that listens on the inbound channel hands every message
//! to [`RedisLink::deliver`], which says whom to wake. A caller whose wait
//! ended without a reply says so through [`RedisLink::abandon`], and
//! [`RedisLink::expire`] clears out the calls whose time is up.

use vstd::prelude::*;
use crate::error::{CommunicationError, DatabaseError};
use crate::redis::correlation::{
    first_vacant, lemma_listed_step, listed_before, waiter_of, CorrelationTable,
};
use crate::redis::{
    CallId, GearBotRequest, MinimalGuildInfo, Reply, ReplyData, Request, TeamInfo, UserInfo,
};

verus! {

/// The channel on which calls are published.
pub const OUTBOUND_CHANNEL: &'static str = "api-out";

/// The channel on which the worker's replies arrive.
pub const INBOUND_CHANNEL: &'static str = "gearbot-out";

/// The seconds a call waits for its reply when the caller names no budget.
pub const DEFAULT_WAIT: u64 = 60;

/// A caller that waits for a reply: how it is reached, and the last second
/// at which a reply still reaches it.
#[derive(Debug, PartialEq, Eq)]
pub struct PendingWaiter<W> {
    pub slot: W,
    pub deadline: u64,
}

/// A call that is registered and ready to go out.
#[derive(Debug, Clone, Copy, PartialEq, Eq, Structural)]
pub struct Ticket {
    /// What to publish on the outbound channel.
    pub envelope: GearBotRequest,
    /// The seconds to wait for the reply.
    pub max_wait: u64,
    /// The last second at which the reply is taken.
    pub deadline: u64,
}

/// How a call ended without a reply.
#[derive(Debug, Clone, PartialEq, Eq)]
pub enum Lapse {
    /// The envelope could not be encoded.
    Encode(String),
    /// The broker did not take the envelope.
    Publish(String),
    /// The budget ran out.
    Elapsed,
    /// The slot in which the reply was awaited was dropped.
    Dropped(String),
}

impl Lapse {
    /// The failure that the caller is told of.
    pub open spec fn error(self) -> CommunicationError {
        match self {
            Lapse::Encode(detail) => CommunicationError::DataFormat(detail),
            Lapse::Publish(detail) => CommunicationError::DarkRedis(detail),
            Lapse::Elapsed => CommunicationError::Timeout,
            Lapse::Dropped(detail) => CommunicationError::Receiver(detail),
        }
    }

    /// The failure that the caller is told of.
    pub fn into_error(self) -> (error: CommunicationError)
        ensures
            error == self.error(),
    {
        match self {
            Lapse::Encode(detail) => CommunicationError::DataFormat(detail),
            Lapse::Publish(detail) => CommunicationError::DarkRedis(detail),
            Lapse::Elapsed => CommunicationError::Timeout,
            Lapse::Dropped(detail) => CommunicationError::Receiver(detail),
        }
    }
}

/// How a value is written to the cache.
#[derive(Debug, Clone, PartialEq, Eq)]
pub enum CacheWrite {
    /// Kept until it is overwritten or deleted.
    Keep { key: String, data: String },
    /// Dropped by the cache after `seconds`.
    Expire { key: String, data: String, seconds: u32 },
}

/// The seconds a call waits: the caller's budget, or the default.
pub open spec fn wait_of(max_wait: Option<u64>) -> u64 {
    match max_wait {
        Some(seconds) => seconds,
        None => DEFAULT_WAIT,
    }
}

/// The last second at which a call that is opened at `now` and waits
/// `wait` seconds takes its reply: `wait` seconds on, or the last second of
/// the clock where that is sooner.
pub open spec fn deadline_of(now: u64, wait: u64) -> u64 {
    if now + wait > u64::MAX {
        u64::MAX
    } else {
        (now + wait) as u64
    }
}

/// The waiter that a reply for `id` reaches at `now`: the one that waits
/// under `id`, unless its time is up.
pub open spec fn live_waiter<W>(pending: Map<u128, PendingWaiter<W>>, id: u128, now: u64) -> Option<
    W,
> {
    if pending.dom().contains(id) && now <= pending[id].deadline {
        Some(pending[id].slot)
    } else {
        None
    }
}

/// The identifiers of the calls whose time is up at `now`.
pub open spec fn overdue<W>(pending: Map<u128, PendingWaiter<W>>, now: u64) -> Set<u128> {
    Set::new(|id: u128| pending.dom().contains(id) && pending[id].deadline < now)
}

/// Calls `uuid::Uuid::new_v4` and keeps the 128 bits of the identifier it
/// returns. Nothing is claimed of the value: it is drawn from the operating
/// system's random source, and the call panics where that source fails.
#[verifier::external_body]
fn random_call_id() -> (id: CallId) {
    CallId { value: uuid::Uuid::new_v4().as_u128() }
}

/// The state of the bridge. Its value, [`RedisLink::waiters`], is the map
/// from the identifiers of the calls under way to their waiters.
pub struct RedisLink<W> {
    pending: CorrelationTable<PendingWaiter<W>>,
}

impl<W> RedisLink<W> {
    /// The waiters of the calls under way, by call identifier.
    pub closed spec fn waiters(&self) -> Map<u128, PendingWaiter<W>> {
        self.pending@
    }

    /// A bridge on which no call is under way.
    pub fn new() -> (link: Self)
        ensures
            link.waiters() == Map::<u128, PendingWaiter<W>>::empty(),
    {
        RedisLink { pending: CorrelationTable::new() }
    }

    /// The number of calls under way.
    pub fn pending_calls(&self) -> (n: usize)
        ensures
            self.waiters().dom().finite(),
            n == self.waiters().len(),
    {
        self.pending.len()
    }

    /// Whether a caller waits under `uuid`.
    pub fn is_pending(&self, uuid: CallId) -> (pending: bool)
        ensures
            pending == self.waiters().dom().contains(uuid.value),
    {
        self.pending.is_pending(uuid)
    }

    /// Opens a call of `request` at `now` under the first identifier from
    /// `seed` on that no other call holds, and stores `waiter` under it.
    pub fn open(
        &mut self,
        seed: CallId,
        request: Request,
        max_wait: Option<u64>,
        waiter: W,
        now: u64,
    ) -> (ticket: Ticket)
        ensures
            first_vacant(old(self).waiters().dom(), seed.value, ticket.envelope.uuid.value),
            ticket.envelope.request == request,
            ticket.max_wait == wait_of(max_wait),
            ticket.deadline == deadline_of(now, wait_of(max_wait)),
            final(self).waiters() == old(self).waiters().insert(
                ticket.envelope.uuid.value,
                PendingWaiter { slot: waiter, deadline: ticket.deadline },
            ),
    {
        let uuid = self.pending.vacant_from(seed);
        let wait = match max_wait {
            Some(seconds) => seconds,
            None => DEFAULT_WAIT,
        };
        let deadline = if wait > u64::MAX - now {
            u64::MAX
        } else {
            now + wait
        };
        let registered = self.pending.register(uuid, PendingWaiter { slot: waiter, deadline });
        assert(registered is Ok);
        Ticket { envelope: GearBotRequest { uuid, request }, max_wait: wait, deadline }
    }

    /// Opens a call of `request` at `now` under a fresh identifier, which
    /// no call under way holds, and stores `waiter` under it. The ticket
    /// says what to publish and how long to wait.
    pub fn get_reply(
        &mut self,
        request: Request,
        max_wait: Option<u64>,
        waiter: W,
        now: u64,
    ) -> (ticket: Ticket)
        ensures
            !old(self).waiters().dom().contains(ticket.envelope.uuid.value),
            ticket.envelope.request == request,
            ticket.max_wait == wait_of(max_wait),
            ticket.deadline == deadline_of(now, wait_of(max_wait)),
            final(self).waiters() == old(self).waiters().insert(
                ticket.envelope.uuid.value,
                PendingWaiter { slot: waiter, deadline: ticket.deadline },
            ),
    {
        let seed = random_call_id();
        self.open(seed, request, max_wait, waiter, now)
    }

    /// Takes in one message of the inbound channel at `now`. A message
    /// that did not decode, a reply that nobody waits for and a reply that
    /// comes after its call's deadline are dropped and leave the bridge as
    /// it was. Any other reply comes back with the waiter of the
    /// identifier it bears, who waits no longer.
    pub fn deliver(&mut self, decoded: Result<Reply, String>, now: u64) -> (found: Option<
        (W, Reply),
    >)
        ensures
            match decoded {
                Ok(reply) => match live_waiter(old(self).waiters(), reply.uuid.value, now) {
                    Some(slot) => found == Some((slot, reply)) && final(self).waiters() == old(
                        self,
                    ).waiters().remove(reply.uuid.value),
                    None => found is None && final(self).waiters() == old(self).waiters(),
                },
                Err(_) => found is None && final(self).waiters() == old(self).waiters(),
            },
    {
        match decoded {
            Ok(reply) => {
                let in_time = match self.pending.get(reply.uuid) {
                    Some(waiter) => now <= waiter.deadline,
                    None => false,
                };
                if in_time {
                    match self.pending.resolve(reply.uuid) {
                        Some(waiter) => Some((waiter.slot, reply)),
                        None => None,
                    }
                } else {
                    None
                }
            },
            Err(_) => None,
        }
    }

    /// Ends the call `uuid` without a reply: its waiter is forgotten, so
    /// that a reply which comes later is dropped, and the caller is told
    /// why.
    pub fn abandon(&mut self, uuid: CallId, lapse: Lapse) -> (error: CommunicationError)
        ensures
            error == lapse.error(),
            final(self).waiters() == old(self).waiters().remove(uuid.value),
    {
        self.pending.remove(uuid);
        lapse.into_error()
    }

    /// Clears out the calls whose deadline lies before `now`, and hands
    /// back their waiters, each once and with its call's identifier, to be
    /// told of the timeout. The calls whose time is not up stay as they
    /// are.
    pub fn expire(&mut self, now: u64) -> (gone: Vec<(CallId, W)>)
        ensures
            final(self).waiters() == old(self).waiters().remove_keys(
                overdue(old(self).waiters(), now),
            ),
            forall|i: int|
                0 <= i < gone@.len() ==> overdue(old(self).waiters(), now).contains(
                    (#[trigger] gone@[i]).0.value,
                ) && gone@[i].1 == old(self).waiters()[gone@[i].0.value].slot,
            forall|id: u128|
                overdue(old(self).waiters(), now).contains(id) ==> exists|i: int|
                    0 <= i < gone@.len() && (#[trigger] gone@[i]).0.value == id,
            forall|i: int, j: int| 0 <= i < j < gone@.len() ==> gone@[i].0 != gone@[j].0,
    {
        let ids = self.pending.ids();
        let ghost before = self.waiters();
        let ghost late = overdue(before, now);
        let mut gone: Vec<(CallId, W)> = Vec::new();
        let mut k: usize = 0;
        assert(self.waiters() =~= before.remove_keys(
            Set::new(|id: u128| late.contains(id) && listed_before(ids@, 0, id)),
        ));
        while k < ids.len()
            invariant
                k <= ids@.len(),
                before == old(self).waiters(),
                late == overdue(before, now),
                forall|i: int, j: int| 0 <= i < j < ids@.len() ==> ids@[i] != ids@[j],
                forall|id: u128|
                    before.dom().contains(id) <==> listed_before(ids@, ids@.len() as int, id),
                self.waiters() == before.remove_keys(
                    Set::new(|id: u128| late.contains(id) && listed_before(ids@, k as int, id)),
                ),
                forall|i: int|
                    0 <= i < gone@.len() ==> late.contains((#[trigger] gone@[i]).0.value)
                        && listed_before(ids@, k as int, gone@[i].0.value) && gone@[i].1
                        == before[gone@[i].0.value].slot,
                forall|id: u128|
                    late.contains(id) && listed_before(ids@, k as int, id) ==> exists|i: int|
                        0 <= i < gone@.len() && (#[trigger] gone@[i]).0.value == id,
                forall|i: int, j: int| 0 <= i < j < gone@.len() ==> gone@[i].0 != gone@[j].0,
            decreases ids@.len() - k,
        {
            let id = ids[k];
            let ghost done = Set::new(
                |id: u128| late.contains(id) && listed_before(ids@, k as int, id),
            );
            let ghost next = Set::new(
                |id: u128| late.contains(id) && listed_before(ids@, k + 1, id),
            );
            proof {
                lemma_listed_step(ids@, k as int);
                assert(listed_before(ids@, ids@.len() as int, id.value)) by {
                    assert(ids@[k as int].value == id.value);
                }
            }
            let due = match self.pending.get(id) {
                Some(waiter) => waiter.deadline < now,
                None => false,
            };
            assert(due == late.contains(id.value));
            let ghost found = gone@;
            if due {
                match self.pending.resolve(id) {
                    Some(waiter) => {
                        gone.push((id, waiter.slot));
                    },
                    None => {},
                }
                assert(self.waiters() =~= before.remove_keys(next));
                assert(gone@[found.len() as int].0.value == id.value);
            } else {
                assert(next =~= done);
            }
            assert forall|other: u128|
                late.contains(other) && listed_before(ids@, k + 1, other) implies exists|i: int|
                0 <= i < gone@.len() && (#[trigger] gone@[i]).0.value == other by {
                if other != id.value {
                    let i = choose|i: int|
                        0 <= i < found.len() && (#[trigger] found[i]).0.value == other;
                    assert(gone@[i] == found[i]);
                }
            }
            k += 1;
        }
        proof {
            let all = Set::new(
                |id: u128| late.contains(id) && listed_before(ids@, ids@.len() as int, id),
            );
            assert(all =~= late);
        }
        gone
    }

    /// Lets a reply through to the caller of `uuid` only if it bears that
    /// identifier.
    pub fn await_reply(&self, uuid: CallId, reply: Reply) -> (own: Option<Reply>)
        ensures
            own == (if reply.uuid == uuid {
                Some(reply)
            } else {
                None
            }),
    {
        if reply.uuid.value == uuid.value {
            Some(reply)
        } else {
            None
        }
    }

    /// The team out of the outcome of a [`Request::TeamInfo`] call.
    pub fn get_team_members(&self, outcome: Result<Reply, CommunicationError>) -> (r: Result<
        TeamInfo,
        CommunicationError,
    >)
        ensures
            r == match outcome {
                Ok(reply) => match reply.data {
                    ReplyData::TeamInfo(info) => Ok(info),
                    _ => Err(CommunicationError::WrongReplyType),
                },
                Err(e) => Err(e),
            },
    {
        match outcome {
            Ok(reply) => match reply.data {
                ReplyData::TeamInfo(info) => Ok(info),
                _ => Err(CommunicationError::WrongReplyType),
            },
            Err(e) => Err(e),
        }
    }

    /// The user, if the worker knows one, out of the outcome of a
    /// [`Request::UserInfo`] call.
    pub fn get_user_info(&self, outcome: Result<Reply, CommunicationError>) -> (r: Result<
        Option<UserInfo>,
        CommunicationError,
    >)
        ensures
            r == match outcome {
                Ok(reply) => match reply.data {
                    ReplyData::UserInfo(info) => Ok(info),
                    _ => Err(CommunicationError::WrongReplyType),
                },
                Err(e) => Err(e),
            },
    {
        match outcome {
            Ok(reply) => match reply.data {
                ReplyData::UserInfo(info) => Ok(info),
                _ => Err(CommunicationError::WrongReplyType),
            },
            Err(e) => Err(e),
        }
    }

    /// The shared guilds out of the outcome of a [`Request::MutualGuilds`]
    /// call.
    pub fn get_mutual_guilds(&self, outcome: Result<Reply, CommunicationError>) -> (r: Result<
        Vec<MinimalGuildInfo>,
        CommunicationError,
    >)
        ensures
            r == match outcome {
                Ok(reply) => match reply.data {
                    ReplyData::MutualGuildList(guilds) => Ok(guilds),
                    _ => Err(CommunicationError::WrongReplyType),
                },
                Err(e) => Err(e),
            },
    {
        match outcome {
            Ok(reply) => match reply.data {
                ReplyData::MutualGuildList(guilds) => Ok(guilds),
                _ => Err(CommunicationError::WrongReplyType),
            },
            Err(e) => Err(e),
        }
    }

    /// What a cache lookup comes to. `fetched` is what the store said: a
    /// failure, no value, or a value as it decoded.
    pub fn get<D>(&self, fetched: Result<Option<Result<D, String>>, String>) -> (r: Result<
        Option<D>,
        DatabaseError,
    >)
        ensures
            r == match fetched {
                Ok(Some(Ok(value))) => Ok(Some(value)),
                Ok(Some(Err(detail))) => Err(DatabaseError::Deserializing(detail)),
                Ok(None) => Ok(None),
                Err(detail) => Err(DatabaseError::Darkredis(detail)),
            },
    {
        match fetched {
            Ok(Some(Ok(value))) => Ok(Some(value)),
            Ok(Some(Err(detail))) => Err(DatabaseError::Deserializing(detail)),
            Ok(None) => Ok(None),
            Err(detail) => Err(DatabaseError::Darkredis(detail)),
        }
    }

    /// How `encoded` is written under `key`: to expire after `expiry`
    /// seconds where a time is given, to stay otherwise. A value that did
    /// not encode is not written.
    pub fn set(&self, key: String, encoded: Result<String, String>, expiry: Option<u32>) -> (r:
        Result<CacheWrite, DatabaseError>)
        ensures
            r == match encoded {
                Ok(data) => Ok(
                    match expiry {
                        Some(seconds) => CacheWrite::Expire { key, data, seconds },
                        None => CacheWrite::Keep { key, data },
                    },
                ),
                Err(detail) => Err(DatabaseError::Serializing(detail)),
            },
    {
        match encoded {
            Ok(data) => Ok(
                match expiry {
                    Some(seconds) => CacheWrite::Expire { key, data, seconds },
                    None => CacheWrite::Keep { key, data },
                },
            ),
            Err(detail) => Err(DatabaseError::Serializing(detail)),
        }
    }

    /// What a write or a delete comes to, from what the store said.
    pub fn delete(&self, done: Result<(), String>) -> (r: Result<(), DatabaseError>)
        ensures
            r == match done {
                Ok(()) => Ok(()),
                Err(detail) => Err(DatabaseError::Darkredis(detail)),
            },
    {
        match done {
            Ok(()) => Ok(()),
            Err(detail) => Err(DatabaseError::Darkredis(detail)),
        }
    }
}

/// Of two calls under different identifiers each is answered by the reply
/// that bears its own identifier, whichever reply comes first.
pub proof fn law_reply_reaches_own_caller<W>(
    pending: Map<u128, PendingWaiter<W>>,
    first: u128,
    first_waiter: PendingWaiter<W>,
    second: u128,
    second_waiter: PendingWaiter<W>,
    now: u64,
)
    requires
        first != second,
        now <= first_waiter.deadline,
        now <= second_waiter.deadline,
    ensures
        ({
            let both = pending.insert(first, first_waiter).insert(second, second_waiter);
            &&& live_waiter(both, first, now) == Some(first_waiter.slot)
            &&& live_waiter(both, second, now) == Some(second_waiter.slot)
            &&& live_waiter(both.remove(second), first, now) == Some(first_waiter.slot)
            &&& live_waiter(both.remove(first), second, now) == Some(second_waiter.slot)
            &&& live_waiter(both.remove(first), first, now) is None
            &&& live_waiter(both.remove(second), second, now) is None
        }),
{
}

/// A reply takes out the waiter of the identifier it bears and leaves every
/// other call under way, with its own waiter.
pub proof fn law_reply_leaves_others_waiting<W>(
    pending: Map<u128, PendingWaiter<W>>,
    reply: u128,
    other: u128,
)
    requires
        other != reply,
    ensures
        !pending.remove(reply).dom().contains(reply),
        waiter_of(pending.remove(reply), other) == waiter_of(pending, other),
{
}

/// A reply for an identifier under which nobody waits reaches nobody, at
/// any time, and taking its identifier out changes nothing.
pub proof fn law_unmatched_reply_dropped<W>(
    pending: Map<u128, PendingWaiter<W>>,
    reply: u128,
    now: u64,
)
    requires
        !pending.dom().contains(reply),
    ensures
        live_waiter(pending, reply, now) is None,
        pending.remove(reply) == pending,
{
    assert(pending.remove(reply) =~= pending);
}

/// A call whose budget runs out fails with a timeout, and giving it up
/// leaves the bridge as it was before the call: calls that nobody answers
/// do not pile up, and a reply that comes later finds nobody.
pub proof fn law_abandoned_call_leaves_no_trace<W>(
    pending: Map<u128, PendingWaiter<W>>,
    uuid: u128,
    waiter: PendingWaiter<W>,
    now: u64,
)
    requires
        !pending.dom().contains(uuid),
    ensures
        Lapse::Elapsed.error() == CommunicationError::Timeout,
        pending.insert(uuid, waiter).remove(uuid) == pending,
        live_waiter(pending.insert(uuid, waiter).remove(uuid), uuid, now) is None,
{
    assert(pending.insert(uuid, waiter).remove(uuid) =~= pending);
}

/// A call gets no reply after its deadline, and once the overdue calls are
/// cleared out, no call is left whose time is up, while every other call
/// is left as it was.
pub proof fn law_overdue_calls_are_cleared<W>(
    pending: Map<u128, PendingWaiter<W>>,
    now: u64,
    id: u128,
)
    ensures
        overdue(pending, now).contains(id) ==> live_waiter(pending, id, now) is None,
        overdue(pending.remove_keys(overdue(pending, now)), now) == Set::<u128>::empty(),
        !overdue(pending, now).contains(id) ==> waiter_of(
            pending.remove_keys(overdue(pending, now)),
            id,
        ) == waiter_of(pending, id),
{
    assert(overdue(pending.remove_keys(overdue(pending, now)), now) =~= Set::<u128>::empty());
}

} // verus!
