//! The state of one connection: the generator of request IDs and the table of
//! requests that await their response.

use crate::datum::Datum;
use crate::error::RpcError;
use crate::message::{Message, Request, Response};
use std::collections::HashMap;
use vstd::prelude::*;

verus! {

/// The ID that follows `id`: one more, and zero after the largest.
pub open spec fn successor(id: i32) -> i32 {
    if id == i32::MAX {
        0
    } else {
        (id + 1) as i32
    }
}

/// How many steps of `successor` lead from `start` to `id`, both not negative.
pub open spec fn distance(start: i32, id: i32) -> int {
    if id >= start {
        id - start
    } else {
        id - start + 0x8000_0000
    }
}

/// Whether each ID of `ids` but the first is the successor of the one before
/// it: what consecutive calls of `IdGenerator::next_id` return.
pub open spec fn consecutive(ids: Seq<i32>) -> bool {
    forall|i: int| 0 <= i < ids.len() - 1 ==> #[trigger] ids[i + 1] == successor(ids[i])
}

/// In a run of consecutive IDs that starts with one that is not negative,
/// each is as many steps from the first as its place says, and none is
/// negative.
pub proof fn lemma_consecutive_ids_keep_step(ids: Seq<i32>, i: int)
    requires
        consecutive(ids),
        0 <= i < ids.len() <= 0x8000_0000,
        ids[0] >= 0,
    ensures
        ids[i] >= 0,
        distance(ids[0], ids[i]) == i,
    decreases i,
{
    if i > 0 {
        lemma_consecutive_ids_keep_step(ids, i - 1);
        assert(ids[(i - 1) + 1] == successor(ids[i - 1]));
    }
}

/// The IDs that up to 2^31 consecutive calls of `next_id` return are never
/// negative and differ from one another.
pub proof fn lemma_consecutive_ids_are_distinct(ids: Seq<i32>)
    requires
        consecutive(ids),
        0 < ids.len() <= 0x8000_0000,
        ids[0] >= 0,
    ensures
        forall|i: int| 0 <= i < ids.len() ==> #[trigger] ids[i] >= 0,
        forall|i: int, j: int| 0 <= i < j < ids.len() ==> ids[i] != ids[j],
{
    assert forall|i: int| 0 <= i < ids.len() implies #[trigger] ids[i] >= 0 by {
        lemma_consecutive_ids_keep_step(ids, i);
    }
    assert forall|i: int, j: int| 0 <= i < j < ids.len() implies ids[i] != ids[j] by {
        lemma_consecutive_ids_keep_step(ids, i);
        lemma_consecutive_ids_keep_step(ids, j);
    }
}

/// A counter that walks the IDs from zero to `i32::MAX` and starts over.
pub struct IdGenerator {
    next: i32,
}

impl IdGenerator {
    #[verifier::type_invariant]
    spec fn in_range(&self) -> bool {
        self.next >= 0
    }

    /// The ID that the next call of `next_id` returns.
    pub closed spec fn upcoming(&self) -> i32 {
        self.next
    }

    /// A generator whose first ID is zero.
    pub fn new() -> (g: Self)
        ensures
            g.upcoming() == 0,
    {
        IdGenerator { next: 0 }
    }

    /// A generator whose first ID is `first`, where that is not negative.
    pub fn starting_at(first: i32) -> (g: Option<Self>)
        ensures
            first >= 0 ==> g is Some && g->0.upcoming() == first,
            first < 0 ==> g is None,
    {
        if first >= 0 {
            Some(IdGenerator { next: first })
        } else {
            None
        }
    }

    /// The ID that the next call of `next_id` returns.
    pub fn peek(&self) -> (id: i32)
        ensures
            id == self.upcoming(),
            id >= 0,
    {
        proof {
            use_type_invariant(self);
        }
        self.next
    }

    /// Returns the current ID and moves on to its successor.
    pub fn next_id(&mut self) -> (id: i32)
        ensures
            id == old(self).upcoming(),
            id >= 0,
            final(self).upcoming() == successor(id),
    {
        proof {
            use_type_invariant(&*self);
        }
        let id = self.next;
        self.next = if id == i32::MAX {
            0
        } else {
            id + 1
        };
        id
    }
}

/// What the reader of a connection has to do with a message it received.
pub enum Action<S> {
    /// Complete `slot` with `result`: the response to a request of this
    /// endpoint, which is no longer outstanding.
    Deliver { slot: S, result: Result<Datum, Datum> },
    /// Drop the response: no outstanding request has this ID.
    UnknownResponseId { id: i32 },
    /// Hand the request to the dispatcher, on a task of its own, and send
    /// back its outcome under the same ID.
    Dispatch { id: i32, method: String, params: Vec<Datum> },
    /// Hand the notification to the dispatcher. Nothing is sent back.
    Notify { method: String, params: Vec<Datum> },
}

/// The multiplexing state of one connection. `S` is the completion slot that
/// the caller of a request waits on.
pub struct Endpoint<S> {
    ids: IdGenerator,
    pending: HashMap<i32, S>,
    closed: bool,
}

/// Whether `id` is the first free ID from `start` on: it is not negative and
/// not in `taken`, and every ID that comes before it on the way from `start`
/// is in `taken`.
pub open spec fn first_free(taken: Set<i32>, start: i32, id: i32) -> bool {
    &&& id >= 0
    &&& !taken.contains(id)
    &&& forall|other: i32|
        other >= 0 && distance(start, other) < distance(start, id) ==> taken.contains(other)
}

/// Whether every ID is in `taken`.
pub open spec fn exhausted(taken: Set<i32>) -> bool {
    forall|id: i32| id >= 0 ==> taken.contains(id)
}

/// What routing `message` does to the table of outstanding requests, and the
/// action it asks for.
pub open spec fn routed<S>(table: Map<i32, S>, message: Message) -> (Map<i32, S>, Action<S>) {
    match message {
        Message::Response(response) => if table.contains_key(response.id) {
            (
                table.remove(response.id),
                Action::Deliver { slot: table[response.id], result: response.result },
            )
        } else {
            (table, Action::UnknownResponseId { id: response.id })
        },
        Message::Request(request) => (
            table,
            Action::Dispatch { id: request.id, method: request.method, params: request.params },
        ),
        Message::Notification(notification) => (
            table,
            Action::Notify { method: notification.method, params: notification.params },
        ),
    }
}

/// A response to a request that was registered under a free ID is delivered
/// to that request's slot, with the response's own outcome, and retires the
/// request: the table is as it was before the call, so a second response with
/// the same ID finds nothing and is dropped.
pub proof fn lemma_response_resolves_once<S>(
    table: Map<i32, S>,
    id: i32,
    slot: S,
    first: Result<Datum, Datum>,
    second: Result<Datum, Datum>,
)
    requires
        !table.contains_key(id),
    ensures
        routed(table.insert(id, slot), Message::Response(Response { id, result: first })) == (
            table,
            Action::Deliver { slot, result: first },
        ),
        routed(table, Message::Response(Response { id, result: second })) == (
            table,
            Action::<S>::UnknownResponseId { id },
        ),
{
    assert(table.insert(id, slot).remove(id) =~= table);
}

/// A response never disturbs another outstanding request: whatever its ID,
/// every other entry of the table stays, with its slot.
pub proof fn lemma_routing_keeps_others<S>(table: Map<i32, S>, message: Message, other: i32)
    requires
        table.contains_key(other),
        !(message is Response && message->Response_0.id == other),
    ensures
        routed(table, message).0.contains_key(other),
        routed(table, message).0[other] == table[other],
{
}

/// From `start`, the first free ID is unique.
pub proof fn lemma_first_free_is_unique(taken: Set<i32>, start: i32, a: i32, b: i32)
    requires
        start >= 0,
        first_free(taken, start, a),
        first_free(taken, start, b),
    ensures
        a == b,
{
    if distance(start, a) < distance(start, b) {
        assert(taken.contains(a));
    } else if distance(start, b) < distance(start, a) {
        assert(taken.contains(b));
    }
}

/// What starting a call does: `before` and `after` are the endpoint around it,
/// `r` is what the caller gets.
///
/// After teardown it fails with `TransportClosed`; where every ID is
/// outstanding it fails with `IdSpaceExhausted`; the endpoint is then
/// unchanged. Otherwise it gives a request with the method and parameters
/// given, under the first free ID from the upcoming one on, and that ID is
/// registered with `slot`.
pub open spec fn began_call<S>(
    before: Endpoint<S>,
    after: Endpoint<S>,
    method: Seq<char>,
    params: Vec<Datum>,
    slot: S,
    r: Result<Message, RpcError>,
) -> bool {
    &&& after.is_closed() == before.is_closed()
    &&& if before.is_closed() {
        r == Err::<Message, RpcError>(RpcError::TransportClosed)
    } else if exhausted(before.outstanding().dom()) {
        r == Err::<Message, RpcError>(RpcError::IdSpaceExhausted)
    } else {
        r is Ok
    }
    &&& match r {
        Ok(message) => {
            &&& message is Request
            &&& message->Request_0.method@ == method
            &&& message->Request_0.params == params
            &&& first_free(before.outstanding().dom(), before.upcoming(), message->Request_0.id)
            &&& after.outstanding() == before.outstanding().insert(message->Request_0.id, slot)
            &&& after.upcoming() == successor(message->Request_0.id)
        },
        Err(_) => after.outstanding() == before.outstanding() && after.upcoming()
            == before.upcoming(),
    }
}

/// A call that succeeds gets an ID that no outstanding request has, and
/// leaves every outstanding request as it was: at any time, no two
/// outstanding requests share an ID.
pub proof fn lemma_fresh_id_is_unique<S>(
    before: Endpoint<S>,
    after: Endpoint<S>,
    method: Seq<char>,
    params: Vec<Datum>,
    slot: S,
    r: Result<Message, RpcError>,
)
    requires
        began_call(before, after, method, params, slot, r),
        r is Ok,
    ensures
        r->Ok_0 is Request,
        r->Ok_0->Request_0.id >= 0,
        !before.outstanding().contains_key(r->Ok_0->Request_0.id),
        after.outstanding().contains_key(r->Ok_0->Request_0.id),
        after.outstanding()[r->Ok_0->Request_0.id] == slot,
        forall|k: i32| #[trigger]
            before.outstanding().contains_key(k) ==> after.outstanding().contains_key(k)
                && after.outstanding()[k] == before.outstanding()[k],
{
}

/// After teardown nothing is outstanding and no call can be started: every
/// attempt fails with `TransportClosed` and leaves the endpoint as it is.
pub proof fn lemma_closed_endpoint_refuses<S>(
    before: Endpoint<S>,
    after: Endpoint<S>,
    method: Seq<char>,
    params: Vec<Datum>,
    slot: S,
    r: Result<Message, RpcError>,
)
    requires
        before.is_closed(),
        began_call(before, after, method, params, slot, r),
    ensures
        r == Err::<Message, RpcError>(RpcError::TransportClosed),
        after.is_closed(),
        after.outstanding() == before.outstanding(),
{
}

impl<S> Endpoint<S> {
    /// The outstanding requests of this endpoint: each ID with the slot that
    /// waits for its response.
    pub closed spec fn outstanding(&self) -> Map<i32, S> {
        self.pending@
    }

    /// The ID from which the search for a free one starts.
    pub closed spec fn upcoming(&self) -> i32 {
        self.ids.upcoming()
    }

    /// Whether the endpoint has been torn down.
    pub closed spec fn is_closed(&self) -> bool {
        self.closed
    }

    /// An open endpoint with no outstanding request, whose first ID is zero.
    pub fn new() -> (e: Self)
        ensures
            e.outstanding() == Map::<i32, S>::empty(),
            e.upcoming() == 0,
            !e.is_closed(),
    {
        Endpoint { ids: IdGenerator::new(), pending: HashMap::new(), closed: false }
    }

    /// An open endpoint with no outstanding request, which takes its IDs
    /// from `ids`.
    pub fn with_generator(ids: IdGenerator) -> (e: Self)
        ensures
            e.outstanding() == Map::<i32, S>::empty(),
            e.upcoming() == ids.upcoming(),
            !e.is_closed(),
    {
        Endpoint { ids, pending: HashMap::new(), closed: false }
    }

    /// Whether the endpoint has been torn down.
    pub fn closed(&self) -> (b: bool)
        ensures
            b == self.is_closed(),
    {
        self.closed
    }

    /// Whether a request with this ID is outstanding.
    pub fn is_outstanding(&self, id: i32) -> (b: bool)
        ensures
            b == self.outstanding().contains_key(id),
    {
        self.pending.contains_key(&id)
    }

    /// The number of outstanding requests.
    pub fn outstanding_count(&self) -> (n: usize)
        ensures
            n == self.outstanding().len(),
    {
        self.pending.len()
    }

    /// Starts a call: picks the first free ID from the upcoming one on,
    /// registers `slot` under it, and returns the request to hand to the
    /// writer. The slot is registered before the request exists, so no
    /// response can arrive ahead of it.
    ///
    /// Fails with `TransportClosed` after teardown, and with
    /// `IdSpaceExhausted` where every ID is outstanding; the endpoint is then
    /// unchanged.
    pub fn begin_call(&mut self, method: &str, params: Vec<Datum>, slot: S) -> (r: Result<
        Message,
        RpcError,
    >)
        ensures
            began_call(*old(self), *final(self), method@, params, slot, r),
    {
        if self.closed {
            return Err(RpcError::TransportClosed);
        }
        let start: i32 = self.ids.peek();
        let mut candidate: i32 = self.ids.next_id();
        let mut tries: u32 = 0;
        let mut occupied: bool = self.pending.contains_key(&candidate);
        while occupied && tries < 0x7fff_ffff
            invariant
                self.pending == old(self).pending,
                self.closed == old(self).closed,
                self.ids.upcoming() == successor(candidate),
                start == old(self).ids.upcoming(),
                start >= 0,
                candidate >= 0,
                tries <= 0x7fff_ffff,
                distance(start, candidate) == tries,
                occupied == self.pending@.contains_key(candidate),
                forall|other: i32|
                    other >= 0 && distance(start, other) < tries ==> self.pending@.contains_key(
                        other,
                    ),
            decreases 0x7fff_ffff - tries,
        {
            candidate = self.ids.next_id();
            tries = tries + 1;
            occupied = self.pending.contains_key(&candidate);
        }
        if occupied {
            assert forall|id: i32| id >= 0 implies self.pending@.dom().contains(id) by {
                if distance(start, id) < tries {
                } else {
                    assert(id == candidate);
                }
            }
            assert(successor(candidate) == start);
            return Err(RpcError::IdSpaceExhausted);
        }
        assert(!exhausted(self.pending@.dom()));
        self.pending.insert(candidate, slot);
        Ok(Message::Request(Request { id: candidate, method: method.to_string(), params }))
    }

    /// Routes one inbound message. A response to an outstanding request
    /// retires the request and gives its slot with the outcome to deliver; a
    /// response with any other ID is to be dropped; requests and notifications
    /// are for the dispatcher. Only a delivered response changes the endpoint.
    pub fn on_message(&mut self, message: Message) -> (action: Action<S>)
        ensures
            final(self).is_closed() == old(self).is_closed(),
            final(self).upcoming() == old(self).upcoming(),
            (final(self).outstanding(), action) == routed(old(self).outstanding(), message),
    {
        match message {
            Message::Response(response) => match self.pending.remove(&response.id) {
                Some(slot) => Action::Deliver { slot, result: response.result },
                None => Action::UnknownResponseId { id: response.id },
            },
            Message::Request(request) => Action::Dispatch {
                id: request.id,
                method: request.method,
                params: request.params,
            },
            Message::Notification(notification) => Action::Notify {
                method: notification.method,
                params: notification.params,
            },
        }
    }

    /// Tears the endpoint down: it is closed from now on, and every request
    /// that was outstanding is handed back with its slot, to be completed with
    /// `RpcError::TransportClosed`. A second teardown hands back nothing.
    pub fn teardown(&mut self) -> (released: HashMap<i32, S>)
        ensures
            released@ == old(self).outstanding(),
            final(self).outstanding() == Map::<i32, S>::empty(),
            final(self).is_closed(),
            final(self).upcoming() == old(self).upcoming(),
    {
        let mut released: HashMap<i32, S> = HashMap::new();
        std::mem::swap(&mut self.pending, &mut released);
        self.closed = true;
        released
    }
}

} // verus!
