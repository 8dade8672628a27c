//! The bookkeeping of the task that owns a connection: the RPCs waiting for
//! their responses, what to do with each message read, and how the connection
//! closes.
//!
//! The task itself (reading, writing, timers) runs outside this module; it
//! hands each event to a `TaskState` and carries out what comes back. A
//! pending RPC carries an opaque `responder` of the caller's choosing (the
//! channel its result is sent on), which is handed back with the RPC's one reply.

use crate::message::{CastMessage, CastMessagePayload, CastMessageView, EndpointId, Namespace, PayloadView};
use crate::payload::{MessageType, RequestId, RequestInner};
use crate::payload::{connection, heartbeat, media, receiver};
use vstd::prelude::*;

verus! {

/// An RPC waiting for its response.
#[derive(Debug)]
pub struct PendingRpc<S> {
    pub request_id: RequestId,
    /// The namespace the response must arrive on.
    pub response_ns: Namespace,
    pub responder: S,
}

/// The RPCs waiting for their responses, at most one per request id.
#[derive(Debug)]
pub struct RpcTable<S> {
    entries: Vec<PendingRpc<S>>,
}

/// Some entry has request id `id`.
pub open spec fn spec_has_id<S>(es: Seq<PendingRpc<S>>, id: i32) -> bool {
    exists|i: int| 0 <= i < es.len() && #[trigger] es[i].request_id.0 == id
}

/// The position of an entry with request id `id`.
pub open spec fn spec_index_of<S>(es: Seq<PendingRpc<S>>, id: i32) -> int {
    choose|i: int| 0 <= i < es.len() && #[trigger] es[i].request_id.0 == id
}

/// No two entries share a request id.
pub open spec fn spec_ids_distinct<S>(es: Seq<PendingRpc<S>>) -> bool {
    forall|i: int, j: int|
        0 <= i < es.len() && 0 <= j < es.len() && i != j ==> #[trigger] es[i].request_id.0
            != #[trigger] es[j].request_id.0
}

/// The entries as a map from request id to the expected response namespace and the responder.
pub open spec fn spec_entries_map<S>(es: Seq<PendingRpc<S>>) -> Map<i32, (Seq<char>, S)> {
    Map::new(
        |id: i32| spec_has_id(es, id),
        |id: i32| (es[spec_index_of(es, id)].response_ns@, es[spec_index_of(es, id)].responder),
    )
}

proof fn lemma_index_of<S>(es: Seq<PendingRpc<S>>, i: int)
    requires
        spec_ids_distinct(es),
        0 <= i < es.len(),
    ensures
        spec_has_id(es, es[i].request_id.0),
        spec_index_of(es, es[i].request_id.0) == i,
{
    let id = es[i].request_id.0;
    assert(spec_has_id(es, id));
    let j = spec_index_of(es, id);
    assert(es[j].request_id.0 == id);
}

proof fn lemma_remove_entry<S>(es: Seq<PendingRpc<S>>, j: int)
    requires
        spec_ids_distinct(es),
        0 <= j < es.len(),
    ensures
        spec_ids_distinct(es.remove(j)),
        spec_entries_map(es.remove(j)) == spec_entries_map(es).remove(es[j].request_id.0),
{
    let rs = es.remove(j);
    let id = es[j].request_id.0;
    assert forall|a: int, b: int|
        0 <= a < rs.len() && 0 <= b < rs.len() && a != b implies #[trigger] rs[a].request_id.0
        != #[trigger] rs[b].request_id.0 by {
        let a0 = if a < j { a } else { a + 1 };
        let b0 = if b < j { b } else { b + 1 };
        assert(rs[a] == es[a0]);
        assert(rs[b] == es[b0]);
    }
    let m1 = spec_entries_map(rs);
    let m2 = spec_entries_map(es).remove(id);
    assert forall|k: i32| #[trigger] m1.contains_key(k) == m2.contains_key(k) by {
        if spec_has_id(rs, k) {
            let a = choose|a: int| 0 <= a < rs.len() && #[trigger] rs[a].request_id.0 == k;
            let a0 = if a < j { a } else { a + 1 };
            assert(es[a0].request_id.0 == k);
            assert(k != id);
        }
        if spec_has_id(es, k) && k != id {
            let a0 = choose|a: int| 0 <= a < es.len() && #[trigger] es[a].request_id.0 == k;
            assert(a0 != j);
            let a = if a0 < j { a0 } else { a0 - 1 };
            assert(rs[a].request_id.0 == k);
        }
    }
    assert forall|k: i32| #[trigger] m1.contains_key(k) implies m1[k] == m2[k] by {
        let a = spec_index_of(rs, k);
        let a0 = if a < j { a } else { a + 1 };
        assert(rs[a] == es[a0]);
        lemma_index_of(es, a0);
        lemma_index_of(rs, a);
    }
    assert(m1 =~= m2);
}

proof fn lemma_push_entry<S>(es: Seq<PendingRpc<S>>, e: PendingRpc<S>)
    requires
        spec_ids_distinct(es),
        !spec_has_id(es, e.request_id.0),
    ensures
        spec_ids_distinct(es.push(e)),
        spec_entries_map(es.push(e)) == spec_entries_map(es).insert(
            e.request_id.0,
            (e.response_ns@, e.responder),
        ),
{
    let ps = es.push(e);
    let id = e.request_id.0;
    assert forall|a: int, b: int|
        0 <= a < ps.len() && 0 <= b < ps.len() && a != b implies #[trigger] ps[a].request_id.0
        != #[trigger] ps[b].request_id.0 by {
        if a < es.len() && b < es.len() {
            assert(ps[a] == es[a] && ps[b] == es[b]);
        } else if a < es.len() {
            assert(ps[a] == es[a]);
        } else if b < es.len() {
            assert(ps[b] == es[b]);
        }
    }
    let m1 = spec_entries_map(ps);
    let m2 = spec_entries_map(es).insert(id, (e.response_ns@, e.responder));
    assert forall|k: i32| #[trigger] m1.contains_key(k) == m2.contains_key(k) by {
        if spec_has_id(ps, k) {
            let a = choose|a: int| 0 <= a < ps.len() && #[trigger] ps[a].request_id.0 == k;
            if a < es.len() {
                assert(ps[a] == es[a]);
            }
        }
        if spec_has_id(es, k) {
            let a = choose|a: int| 0 <= a < es.len() && #[trigger] es[a].request_id.0 == k;
            assert(ps[a] == es[a]);
        }
        if k == id {
            assert(ps[es.len() as int] == e);
        }
    }
    assert forall|k: i32| #[trigger] m1.contains_key(k) implies m1[k] == m2[k] by {
        let a = spec_index_of(ps, k);
        lemma_index_of(ps, a);
        if a < es.len() {
            assert(ps[a] == es[a]);
            lemma_index_of(es, a);
        } else {
            assert(ps[a] == e);
        }
    }
    assert(m1 =~= m2);
}

impl<S> View for RpcTable<S> {
    type V = Map<i32, (Seq<char>, S)>;

    closed spec fn view(&self) -> Map<i32, (Seq<char>, S)> {
        spec_entries_map(self.entries@)
    }
}

impl<S> RpcTable<S> {
    #[verifier::type_invariant]
    spec fn ids_distinct(self) -> bool {
        spec_ids_distinct(self.entries@)
    }

    pub fn new() -> (r: RpcTable<S>)
        ensures
            r@ == Map::<i32, (Seq<char>, S)>::empty(),
    {
        let r = RpcTable { entries: Vec::new() };
        assert(r@ =~= Map::<i32, (Seq<char>, S)>::empty());
        r
    }

    /// Whether an RPC with this request id is waiting.
    pub fn contains(&self, id: RequestId) -> (r: bool)
        ensures
            r == self@.contains_key(id.0),
    {
        proof {
            use_type_invariant(self);
        }
        position_of_id(&self.entries, id).is_some()
    }

    /// Records an RPC waiting for its response. An RPC already waiting under
    /// the same id is replaced, and its responder handed back.
    pub fn insert(&mut self, id: RequestId, response_ns: Namespace, responder: S) -> (r: Option<S>)
        ensures
            final(self)@ == old(self)@.insert(id.0, (response_ns@, responder)),
            old(self)@.contains_key(id.0) ==> r == Some(old(self)@[id.0].1),
            !old(self)@.contains_key(id.0) ==> r is None,
    {
        proof {
            use_type_invariant(&*self);
        }
        let mut entries = Vec::new();
        std::mem::swap(&mut entries, &mut self.entries);
        let ghost es0 = entries@;
        let displaced = match position_of_id(&entries, id) {
            Some(i) => {
                proof {
                    lemma_index_of(es0, i as int);
                    lemma_remove_entry(es0, i as int);
                }
                let old_entry = entries.remove(i);
                Some(old_entry.responder)
            },
            None => None,
        };
        let ghost es1 = entries@;
        let entry = PendingRpc { request_id: id, response_ns, responder };
        proof {
            lemma_push_entry(es1, entry);
            assert(spec_entries_map(es1.push(entry)) =~= spec_entries_map(es0).insert(
                id.0,
                (entry.response_ns@, entry.responder),
            ));
        }
        entries.push(entry);
        self.entries = entries;
        displaced
    }

    /// Takes the RPC waiting under this request id, if any.
    pub fn remove(&mut self, id: RequestId) -> (r: Option<PendingRpc<S>>)
        ensures
            old(self)@.contains_key(id.0) ==> r is Some && r.unwrap().request_id == id && (
            r.unwrap().response_ns@, r.unwrap().responder) == old(self)@[id.0] && final(self)@
                == old(self)@.remove(id.0),
            !old(self)@.contains_key(id.0) ==> r is None && final(self)@ == old(self)@,
    {
        proof {
            use_type_invariant(&*self);
        }
        let mut entries = Vec::new();
        std::mem::swap(&mut entries, &mut self.entries);
        let ghost es0 = entries@;
        let r = match position_of_id(&entries, id) {
            Some(i) => {
                proof {
                    lemma_index_of(es0, i as int);
                    lemma_remove_entry(es0, i as int);
                }
                Some(entries.remove(i))
            },
            None => None,
        };
        self.entries = entries;
        r
    }

    /// Takes every waiting RPC, each once.
    pub fn drain(&mut self) -> (r: Vec<PendingRpc<S>>)
        ensures
            final(self)@ == Map::<i32, (Seq<char>, S)>::empty(),
            spec_ids_distinct(r@),
            spec_entries_map(r@) == old(self)@,
    {
        proof {
            use_type_invariant(&*self);
        }
        let mut entries = Vec::new();
        std::mem::swap(&mut entries, &mut self.entries);
        assert(self@ =~= Map::<i32, (Seq<char>, S)>::empty());
        entries
    }
}

fn position_of_id<S>(entries: &Vec<PendingRpc<S>>, id: RequestId) -> (r: Option<usize>)
    ensures
        match r {
            Some(i) => i < entries@.len() && entries@[i as int].request_id.0 == id.0,
            None => !spec_has_id(entries@, id.0),
        },
{
    let mut i: usize = 0;
    while i < entries.len()
        invariant
            i <= entries@.len(),
            forall|j: int| 0 <= j < i ==> #[trigger] entries@[j].request_id.0 != id.0,
        decreases entries@.len() - i,
    {
        if entries[i].request_id.0 == id.0 {
            return Some(i);
        }
        i = i + 1;
    }
    None
}

/// The state of the connection, as published to listeners.
#[derive(Clone, Copy, Debug, PartialEq, Eq, Structural)]
pub enum ConnectionState {
    Connected,
    /// Connection closed by request.
    ClosedOk,
    /// Connection closed due to an error.
    ClosedErr,
}

/// The request id and the message type of a JSON payload that was read.
#[derive(Debug)]
pub struct PayloadHeader {
    pub request_id: Option<RequestId>,
    pub typ: MessageType,
}

/// A JSON payload handed to the caller of the RPC it answers.
#[derive(Debug)]
pub struct ReceivedPayload {
    pub request_id: Option<RequestId>,
    pub typ: MessageType,
    /// The whole JSON text of the payload.
    pub json: String,
}

/// Why an RPC got no response.
#[derive(Debug)]
pub enum RpcError {
    /// The reply arrived on another namespace than the one expected.
    UnexpectedNamespace { expected: Namespace, received: Namespace },
    /// No reply arrived before the deadline.
    Timeout,
    /// The task stopped, with the connection in this state.
    TaskStopping(ConnectionState),
}

/// The one reply to an RPC, with the responder it was registered with.
#[derive(Debug)]
pub struct RpcReply<S> {
    pub request_id: RequestId,
    pub responder: S,
    pub result: Result<ReceivedPayload, RpcError>,
}

/// What a message that was read is.
#[derive(Clone, Copy, Debug, PartialEq, Eq, Structural)]
pub enum ReadKind {
    /// Its namespace is none of the JSON namespaces this library speaks: ignored.
    UnknownNamespace,
    /// Its payload is binary: ignored.
    BinaryPayload,
    /// Its payload is not a JSON payload with a message type: ignored.
    InvalidPayload,
    /// The destination closed the virtual connection: ignored.
    PeerClosed,
    /// A heartbeat ping: answer with a pong to its source.
    HeartbeatPing,
    /// A heartbeat pong: nothing more to do.
    HeartbeatPong,
    /// Anything else: a status to publish and/or the reply to an RPC.
    Delivered,
}

/// Which status a delivered message carries to publish to listeners.
#[derive(Clone, Copy, Debug, PartialEq, Eq, Structural)]
pub enum StatusKind {
    NoStatus,
    ReceiverStatus,
    MediaStatus,
}

/// How a message that was read relates to the pending RPCs.
#[derive(Debug)]
pub enum RpcMatch<S> {
    /// The message was not delivered (see its `ReadKind`).
    NotDelivered,
    /// The payload has no request id, or the broadcast id 0.
    NoRequestId,
    /// No RPC waits under the payload's request id.
    Unmatched(RequestId),
    /// The message is the reply to a pending RPC, which is no longer pending.
    Replied(RpcReply<S>),
}

/// What to do with a message that was read.
#[derive(Debug)]
pub struct ReadOutcome<S> {
    pub kind: ReadKind,
    pub status: StatusKind,
    pub rpc: RpcMatch<S>,
}

/// The decisions of the task that owns a connection.
#[derive(Debug)]
pub struct TaskState<S> {
    rpcs: RpcTable<S>,
    closed: bool,
}

/// The namespaces whose payloads are JSON and which this library handles.
pub open spec fn spec_known_namespace(ns: Seq<char>) -> bool {
    ||| ns == connection::CHANNEL_NAMESPACE@
    ||| ns == heartbeat::CHANNEL_NAMESPACE@
    ||| ns == media::CHANNEL_NAMESPACE@
    ||| ns == receiver::CHANNEL_NAMESPACE@
}

/// What a message that was read is, given the message type of its JSON payload
/// (`None` when the payload is not a JSON payload).
pub open spec fn spec_read_kind(m: CastMessageView, typ: Option<Seq<char>>) -> ReadKind {
    if !spec_known_namespace(m.namespace) {
        ReadKind::UnknownNamespace
    } else if m.payload is Bytes {
        ReadKind::BinaryPayload
    } else if typ is None {
        ReadKind::InvalidPayload
    } else if m.namespace == connection::CHANNEL_NAMESPACE@ && typ.unwrap()
        == connection::MESSAGE_TYPE_CLOSE@ {
        ReadKind::PeerClosed
    } else if m.namespace == heartbeat::CHANNEL_NAMESPACE@ && typ.unwrap()
        == heartbeat::MESSAGE_TYPE_PING@ {
        ReadKind::HeartbeatPing
    } else if m.namespace == heartbeat::CHANNEL_NAMESPACE@ && typ.unwrap()
        == heartbeat::MESSAGE_TYPE_PONG@ {
        ReadKind::HeartbeatPong
    } else {
        ReadKind::Delivered
    }
}

/// The status a delivered message carries.
pub open spec fn spec_status_kind(ns: Seq<char>, typ: Seq<char>) -> StatusKind {
    if ns == receiver::CHANNEL_NAMESPACE@ && typ == receiver::MESSAGE_RESPONSE_TYPE_RECEIVER_STATUS@ {
        StatusKind::ReceiverStatus
    } else if ns == media::CHANNEL_NAMESPACE@ && typ == media::MESSAGE_RESPONSE_TYPE_MEDIA_STATUS@ {
        StatusKind::MediaStatus
    } else {
        StatusKind::NoStatus
    }
}

/// The message type of a header, if there is one.
pub open spec fn spec_header_type(h: Option<PayloadHeader>) -> Option<Seq<char>> {
    match h {
        Some(h) => Some(h.typ@),
        None => None,
    }
}

/// `replies` answer each RPC of `pending` exactly once, each with its responder.
pub open spec fn spec_answers_each_once<S>(
    replies: Seq<RpcReply<S>>,
    pending: Map<i32, (Seq<char>, S)>,
) -> bool {
    &&& forall|i: int|
        0 <= i < replies.len() ==> pending.contains_key(#[trigger] replies[i].request_id.0)
            && pending[replies[i].request_id.0].1 == replies[i].responder
    &&& forall|id: i32|
        #[trigger] pending.contains_key(id) ==> exists|i: int|
            0 <= i < replies.len() && #[trigger] replies[i].request_id.0 == id
    &&& forall|i: int, j: int|
        0 <= i < replies.len() && 0 <= j < replies.len() && i != j ==> #[trigger] replies[i].request_id.0
            != #[trigger] replies[j].request_id.0
}

impl<S> TaskState<S> {
    /// The RPCs waiting for their responses.
    pub closed spec fn pending(&self) -> Map<i32, (Seq<char>, S)> {
        self.rpcs@
    }

    /// Whether the connection has closed.
    pub closed spec fn spec_closed(&self) -> bool {
        self.closed
    }

    /// A connected task with no RPC waiting.
    pub fn new() -> (r: TaskState<S>)
        ensures
            r.pending() == Map::<i32, (Seq<char>, S)>::empty(),
            !r.spec_closed(),
    {
        TaskState { rpcs: RpcTable::new(), closed: false }
    }

    pub fn is_closed(&self) -> (r: bool)
        ensures
            r == self.spec_closed(),
    {
        self.closed
    }

    /// Whether an RPC waits under this request id.
    pub fn is_pending(&self, id: RequestId) -> (r: bool)
        ensures
            r == self.pending().contains_key(id.0),
    {
        self.rpcs.contains(id)
    }

    /// Records an RPC whose request was sent: its response must arrive on
    /// `response_ns`. An RPC already waiting under the same id is replaced, and
    /// its responder handed back.
    pub fn on_rpc_sent(&mut self, id: RequestId, response_ns: Namespace, responder: S) -> (r: Option<S>)
        ensures
            final(self).pending() == old(self).pending().insert(id.0, (response_ns@, responder)),
            old(self).pending().contains_key(id.0) ==> r == Some(old(self).pending()[id.0].1),
            !old(self).pending().contains_key(id.0) ==> r is None,
            final(self).spec_closed() == old(self).spec_closed(),
    {
        self.rpcs.insert(id, response_ns, responder)
    }

    /// An RPC's deadline passed: it gets its one reply, a timeout.
    pub fn on_rpc_timeout(&mut self, id: RequestId) -> (r: RpcReply<S>)
        requires
            old(self).pending().contains_key(id.0),
        ensures
            r.request_id == id,
            r.responder == old(self).pending()[id.0].1,
            r.result matches Err(RpcError::Timeout),
            final(self).pending() == old(self).pending().remove(id.0),
            final(self).spec_closed() == old(self).spec_closed(),
    {
        let entry = self.rpcs.remove(id);
        let entry = entry.unwrap();
        RpcReply { request_id: id, responder: entry.responder, result: Err(RpcError::Timeout) }
    }

    /// The connection closed (by request, or on an error): every pending RPC
    /// gets its one reply, an error naming the state.
    pub fn close(&mut self, state: ConnectionState) -> (r: Vec<RpcReply<S>>)
        requires
            state != ConnectionState::Connected,
        ensures
            final(self).spec_closed(),
            final(self).pending() == Map::<i32, (Seq<char>, S)>::empty(),
            spec_answers_each_once(r@, old(self).pending()),
            forall|i: int| 0 <= i < r@.len() ==> ((#[trigger] r@[i]).result matches Err(
                RpcError::TaskStopping(s),
            ) && s == state),
    {
        self.closed = true;
        let drained = self.rpcs.drain();
        let ghost es = drained@;
        let mut replies: Vec<RpcReply<S>> = Vec::new();
        let mut rest = drained;
        let ghost mut taken: int = 0;
        while rest.len() > 0
            invariant
                taken + rest@.len() == es.len(),
                0 <= taken <= es.len(),
                rest@ == es.subrange(0, es.len() - taken),
                replies@.len() == taken,
                forall|i: int|
                    0 <= i < taken ==> (#[trigger] replies@[i]).request_id == es[es.len() - 1 - i].request_id
                        && replies@[i].responder == es[es.len() - 1 - i].responder
                        && (replies@[i].result matches Err(RpcError::TaskStopping(s)) && s == state),
            decreases rest@.len(),
        {
            let e = rest.pop().unwrap();
            replies.push(
                RpcReply { request_id: e.request_id, responder: e.responder, result: Err(RpcError::TaskStopping(state)) },
            );
            proof {
                taken = taken + 1;
                assert(rest@ =~= es.subrange(0, es.len() - taken));
            }
        }
        proof {
            let p = spec_entries_map(es);
            assert forall|i: int| 0 <= i < replies@.len() implies p.contains_key(
                #[trigger] replies@[i].request_id.0,
            ) && p[replies@[i].request_id.0].1 == replies@[i].responder by {
                lemma_index_of(es, es.len() - 1 - i);
            }
            assert forall|id: i32| #[trigger] p.contains_key(id) implies exists|i: int|
                0 <= i < replies@.len() && #[trigger] replies@[i].request_id.0 == id by {
                let j = spec_index_of(es, id);
                let i = es.len() - 1 - j;
                assert(replies@[i].request_id.0 == id);
            }
            assert forall|i: int, j: int|
                0 <= i < replies@.len() && 0 <= j < replies@.len() && i != j implies #[trigger] replies@[i].request_id.0
                != #[trigger] replies@[j].request_id.0 by {
                assert(es[es.len() - 1 - i].request_id.0 != es[es.len() - 1 - j].request_id.0);
            }
        }
        replies
    }
}

/// `reply` is the reply a delivered message gives to the RPC that waited under
/// `id` with `entry`: the JSON payload when the message came on the expected
/// namespace, an error naming both namespaces otherwise.
pub open spec fn spec_delivered_reply<S>(
    reply: RpcReply<S>,
    id: RequestId,
    entry: (Seq<char>, S),
    m: CastMessageView,
    header: PayloadHeader,
) -> bool {
    &&& reply.request_id == id
    &&& reply.responder == entry.1
    &&& entry.0 == m.namespace ==> (reply.result matches Ok(p) && p.request_id == header.request_id
        && p.typ@ == header.typ@ && PayloadView::Text(p.json@) == m.payload)
    &&& entry.0 != m.namespace ==> (reply.result matches Err(
        RpcError::UnexpectedNamespace { expected, received },
    ) && expected@ == entry.0 && received@ == m.namespace)
}

impl<S> TaskState<S> {
    /// Decides what to do with a message that was read. `header` is the request
    /// id and message type of its payload read as JSON, or `None` when the
    /// payload is not such a JSON payload. A delivered message that carries the
    /// id of a pending RPC is that RPC's one reply, and the RPC is no longer pending.
    pub fn on_message_read(&mut self, msg: CastMessage, header: Option<PayloadHeader>) -> (r:
        ReadOutcome<S>)
        ensures
            r.kind == spec_read_kind(msg@, spec_header_type(header)),
            final(self).spec_closed() == old(self).spec_closed(),
            r.kind != ReadKind::Delivered ==> r.status == StatusKind::NoStatus && r.rpc is NotDelivered
                && final(self).pending() == old(self).pending(),
            r.kind == ReadKind::Delivered ==> r.status == spec_status_kind(
                msg@.namespace,
                header.unwrap().typ@,
            ),
            r.kind == ReadKind::Delivered && (header.unwrap().request_id is None
                || header.unwrap().request_id.unwrap().0 == 0) ==> r.rpc is NoRequestId
                && final(self).pending() == old(self).pending(),
            r.kind == ReadKind::Delivered && header.unwrap().request_id is Some
                && header.unwrap().request_id.unwrap().0 != 0 && !old(self).pending().contains_key(
                header.unwrap().request_id.unwrap().0,
            ) ==> r.rpc == RpcMatch::<S>::Unmatched(header.unwrap().request_id.unwrap())
                && final(self).pending() == old(self).pending(),
            r.kind == ReadKind::Delivered && header.unwrap().request_id is Some
                && header.unwrap().request_id.unwrap().0 != 0 && old(self).pending().contains_key(
                header.unwrap().request_id.unwrap().0,
            ) ==> (r.rpc matches RpcMatch::Replied(reply) && spec_delivered_reply(
                reply,
                header.unwrap().request_id.unwrap(),
                old(self).pending()[header.unwrap().request_id.unwrap().0],
                msg@,
                header.unwrap(),
            )) && final(self).pending() == old(self).pending().remove(
                header.unwrap().request_id.unwrap().0,
            ),
    {
        let ghost m = msg@;
        let CastMessage { namespace, source: _, destination: _, payload } = msg;
        let is_connection = namespace.same_as(&Namespace::from_const(connection::CHANNEL_NAMESPACE));
        let is_heartbeat = namespace.same_as(&Namespace::from_const(heartbeat::CHANNEL_NAMESPACE));
        let is_media = namespace.same_as(&Namespace::from_const(media::CHANNEL_NAMESPACE));
        let is_receiver = namespace.same_as(&Namespace::from_const(receiver::CHANNEL_NAMESPACE));
        if !(is_connection || is_heartbeat || is_media || is_receiver) {
            return ReadOutcome {
                kind: ReadKind::UnknownNamespace,
                status: StatusKind::NoStatus,
                rpc: RpcMatch::NotDelivered,
            };
        }
        let text = match payload {
            CastMessagePayload::Binary(_) => {
                return ReadOutcome {
                    kind: ReadKind::BinaryPayload,
                    status: StatusKind::NoStatus,
                    rpc: RpcMatch::NotDelivered,
                };
            },
            CastMessagePayload::String(text) => text,
        };
        let header = match header {
            None => {
                return ReadOutcome {
                    kind: ReadKind::InvalidPayload,
                    status: StatusKind::NoStatus,
                    rpc: RpcMatch::NotDelivered,
                };
            },
            Some(h) => h,
        };
        let typ = &header.typ;
        if is_connection && typ.same_as(&MessageType::from_const(connection::MESSAGE_TYPE_CLOSE)) {
            return ReadOutcome {
                kind: ReadKind::PeerClosed,
                status: StatusKind::NoStatus,
                rpc: RpcMatch::NotDelivered,
            };
        }
        if is_heartbeat && typ.same_as(&MessageType::from_const(heartbeat::MESSAGE_TYPE_PING)) {
            return ReadOutcome {
                kind: ReadKind::HeartbeatPing,
                status: StatusKind::NoStatus,
                rpc: RpcMatch::NotDelivered,
            };
        }
        if is_heartbeat && typ.same_as(&MessageType::from_const(heartbeat::MESSAGE_TYPE_PONG)) {
            return ReadOutcome {
                kind: ReadKind::HeartbeatPong,
                status: StatusKind::NoStatus,
                rpc: RpcMatch::NotDelivered,
            };
        }
        let status = if is_receiver && typ.same_as(
            &MessageType::from_const(receiver::MESSAGE_RESPONSE_TYPE_RECEIVER_STATUS),
        ) {
            StatusKind::ReceiverStatus
        } else if is_media && typ.same_as(
            &MessageType::from_const(media::MESSAGE_RESPONSE_TYPE_MEDIA_STATUS),
        ) {
            StatusKind::MediaStatus
        } else {
            StatusKind::NoStatus
        };
        let id = match header.request_id {
            None => {
                return ReadOutcome { kind: ReadKind::Delivered, status, rpc: RpcMatch::NoRequestId };
            },
            Some(id) => id,
        };
        if id.is_broadcast() {
            return ReadOutcome { kind: ReadKind::Delivered, status, rpc: RpcMatch::NoRequestId };
        }
        let rpc = match self.rpcs.remove(id) {
            None => RpcMatch::Unmatched(id),
            Some(entry) => {
                let result = if entry.response_ns.same_as(&namespace) {
                    Ok(ReceivedPayload { request_id: header.request_id, typ: header.typ, json: text })
                } else {
                    Err(RpcError::UnexpectedNamespace { expected: entry.response_ns, received: namespace })
                };
                RpcMatch::Replied(RpcReply { request_id: id, responder: entry.responder, result })
            },
        };
        ReadOutcome { kind: ReadKind::Delivered, status, rpc }
    }
}

/// The id this library sends from unless configured otherwise.
pub const DEFAULT_SENDER_ID: &'static str = "sender-0";

/// The id of the platform receiver of every Cast device.
pub const DEFAULT_RECEIVER_ID: &'static str = "receiver-0";

/// The TCP port Cast devices listen on.
pub const DEFAULT_PORT: u16 = 8009;

/// The message that carries a request payload, already written as JSON, from
/// `sender` to `destination` on the namespace of the request.
pub fn request_message(
    namespace: Namespace,
    sender: &EndpointId,
    destination: EndpointId,
    payload_json: String,
) -> (r: CastMessage)
    ensures
        r@ == (CastMessageView {
            namespace: namespace@,
            source: sender@,
            destination: destination@,
            payload: PayloadView::Text(payload_json@),
        }),
{
    CastMessage {
        namespace,
        source: sender.duplicate(),
        destination,
        payload: CastMessagePayload::String(payload_json),
    }
}

/// The message that carries a request of a payload type of this library,
/// already written as JSON, from `sender` to `destination`.
pub fn typed_request_message<Req: RequestInner>(
    sender: &EndpointId,
    destination: EndpointId,
    payload_json: String,
) -> (r: CastMessage)
    ensures
        r@ == (CastMessageView {
            namespace: Req::spec_channel_namespace(),
            source: sender@,
            destination: destination@,
            payload: PayloadView::Text(payload_json@),
        }),
{
    request_message(Req::channel_namespace(), sender, destination, payload_json)
}

/// The heartbeat ping sent when nothing was read for a while: from `sender` to
/// the platform receiver, with its payload already written as JSON.
pub fn ping_message(sender: &EndpointId, payload_json: String) -> (r: CastMessage)
    ensures
        r@ == (CastMessageView {
            namespace: heartbeat::CHANNEL_NAMESPACE@,
            source: sender@,
            destination: DEFAULT_RECEIVER_ID@,
            payload: PayloadView::Text(payload_json@),
        }),
{
    CastMessage {
        namespace: Namespace::from_const(heartbeat::CHANNEL_NAMESPACE),
        source: sender.duplicate(),
        destination: EndpointId::from_const(DEFAULT_RECEIVER_ID),
        payload: CastMessagePayload::String(payload_json),
    }
}

/// The answer to a heartbeat ping: a pong from `sender` back to the source of
/// the ping, with its payload already written as JSON.
pub fn pong_message(sender: &EndpointId, ping_source: EndpointId, payload_json: String) -> (r:
    CastMessage)
    ensures
        r@ == (CastMessageView {
            namespace: heartbeat::CHANNEL_NAMESPACE@,
            source: sender@,
            destination: ping_source@,
            payload: PayloadView::Text(payload_json@),
        }),
{
    CastMessage {
        namespace: Namespace::from_const(heartbeat::CHANNEL_NAMESPACE),
        source: sender.duplicate(),
        destination: ping_source,
        payload: CastMessagePayload::String(payload_json),
    }
}

/// Why the task stops.
#[derive(Clone, Copy, Debug, PartialEq, Eq, Structural)]
pub enum TaskStop {
    /// A command asked the task to shut down.
    Shutdown,
    /// No more events can come (every command sender is gone).
    EventsEnded,
    /// Reading a message from the connection failed.
    ReadFailed,
    /// Flushing written messages to the connection failed or timed out.
    FlushFailed,
    /// Nothing was read from the connection for too long.
    HeartbeatLost,
}

/// The state a connection closes in: by request when the task was asked to
/// shut down or no event can come any more, on an error otherwise.
pub open spec fn spec_closing_state(why: TaskStop) -> ConnectionState {
    match why {
        TaskStop::Shutdown | TaskStop::EventsEnded => ConnectionState::ClosedOk,
        _ => ConnectionState::ClosedErr,
    }
}

impl<S> TaskState<S> {
    /// The request of an RPC was written (`Ok`) or could not be (`Err`). Once
    /// written, the RPC waits for its response (an RPC already waiting under
    /// the same id is replaced, and its responder handed back); otherwise it is
    /// answered at once with the error, through the responder handed back.
    pub fn on_rpc_written<E>(
        &mut self,
        id: RequestId,
        response_ns: Namespace,
        responder: S,
        written: Result<(), E>,
    ) -> (r: Result<Option<S>, (S, E)>)
        ensures
            final(self).spec_closed() == old(self).spec_closed(),
            written is Err ==> r == Err::<Option<S>, (S, E)>((responder, written->Err_0))
                && final(self).pending() == old(self).pending(),
            written is Ok ==> final(self).pending() == old(self).pending().insert(
                id.0,
                (response_ns@, responder),
            ),
            written is Ok && old(self).pending().contains_key(id.0) ==> r == Ok::<Option<S>, (S, E)>(
                Some(old(self).pending()[id.0].1),
            ),
            written is Ok && !old(self).pending().contains_key(id.0) ==> r == Ok::<
                Option<S>,
                (S, E),
            >(None),
    {
        match written {
            Err(e) => Err((responder, e)),
            Ok(()) => Ok(self.on_rpc_sent(id, response_ns, responder)),
        }
    }

    /// The task stops: the connection closes in the state the reason calls
    /// for, and every pending RPC gets its one reply, an error naming that state.
    pub fn stop(&mut self, why: TaskStop) -> (r: (ConnectionState, Vec<RpcReply<S>>))
        ensures
            r.0 == spec_closing_state(why),
            final(self).spec_closed(),
            final(self).pending() == Map::<i32, (Seq<char>, S)>::empty(),
            spec_answers_each_once(r.1@, old(self).pending()),
            forall|i: int| 0 <= i < r.1@.len() ==> ((#[trigger] r.1@[i]).result matches Err(
                RpcError::TaskStopping(s),
            ) && s == r.0),
    {
        let state = match why {
            TaskStop::Shutdown | TaskStop::EventsEnded => ConnectionState::ClosedOk,
            _ => ConnectionState::ClosedErr,
        };
        let replies = self.close(state);
        (state, replies)
    }
}


/// A task closes in `ClosedOk` only when it was asked to shut down or no more
/// events can come; a failed read, a failed flush or a lost heartbeat closes it
/// in `ClosedErr`. It never closes in `Connected`.
pub proof fn lemma_closing_states(why: TaskStop)
    ensures
        spec_closing_state(why) != ConnectionState::Connected,
        spec_closing_state(why) == ConnectionState::ClosedOk <==> (why == TaskStop::Shutdown || why
            == TaskStop::EventsEnded),
        spec_closing_state(why) == ConnectionState::ClosedErr <==> (why == TaskStop::ReadFailed
            || why == TaskStop::FlushFailed || why == TaskStop::HeartbeatLost),
{
}

/// A delivered message carries a media status exactly when it is on the media
/// namespace with type `MEDIA_STATUS`, a receiver status exactly when it is on
/// the receiver namespace with type `RECEIVER_STATUS`, and no status otherwise.
pub proof fn lemma_status_kinds(ns: Seq<char>, typ: Seq<char>)
    ensures
        spec_status_kind(ns, typ) == StatusKind::MediaStatus <==> (ns
            == "urn:x-cast:com.google.cast.media"@ && typ == "MEDIA_STATUS"@),
        spec_status_kind(ns, typ) == StatusKind::ReceiverStatus <==> (ns
            == "urn:x-cast:com.google.cast.receiver"@ && typ == "RECEIVER_STATUS"@),
        spec_status_kind(ns, typ) == StatusKind::NoStatus <==> !((ns
            == "urn:x-cast:com.google.cast.media"@ && typ == "MEDIA_STATUS"@) || (ns
            == "urn:x-cast:com.google.cast.receiver"@ && typ == "RECEIVER_STATUS"@)),
{
    reveal_strlit("urn:x-cast:com.google.cast.media");
    reveal_strlit("urn:x-cast:com.google.cast.receiver");
    assert("urn:x-cast:com.google.cast.media"@.len() != "urn:x-cast:com.google.cast.receiver"@.len());
}

/// The namespaces whose messages are read: connection, heartbeat, media and receiver.
pub proof fn lemma_known_namespaces(ns: Seq<char>)
    ensures
        spec_known_namespace(ns) <==> (ns == "urn:x-cast:com.google.cast.tp.connection"@ || ns
            == "urn:x-cast:com.google.cast.tp.heartbeat"@ || ns == "urn:x-cast:com.google.cast.media"@
            || ns == "urn:x-cast:com.google.cast.receiver"@),
{
}

/// How a message read is classified: a namespace other than the four is
/// ignored; a binary payload is ignored; a payload without a message type is
/// invalid; `CLOSE` on the connection namespace is the peer closing; `PING` and
/// `PONG` on the heartbeat namespace are heartbeats; anything else is delivered.
pub proof fn lemma_read_kinds(m: CastMessageView, typ: Option<Seq<char>>)
    requires
        spec_known_namespace(m.namespace),
        m.payload is Text,
        typ is Some,
    ensures
        spec_read_kind(m, typ) == ReadKind::PeerClosed <==> (m.namespace
            == "urn:x-cast:com.google.cast.tp.connection"@ && typ.unwrap() == "CLOSE"@),
        spec_read_kind(m, typ) == ReadKind::HeartbeatPing <==> (m.namespace
            == "urn:x-cast:com.google.cast.tp.heartbeat"@ && typ.unwrap() == "PING"@),
        spec_read_kind(m, typ) == ReadKind::HeartbeatPong <==> (m.namespace
            == "urn:x-cast:com.google.cast.tp.heartbeat"@ && typ.unwrap() == "PONG"@),
        spec_read_kind(m, typ) == ReadKind::Delivered <==> !((m.namespace
            == "urn:x-cast:com.google.cast.tp.connection"@ && typ.unwrap() == "CLOSE"@) || (
        m.namespace == "urn:x-cast:com.google.cast.tp.heartbeat"@ && (typ.unwrap() == "PING"@
            || typ.unwrap() == "PONG"@))),
{
    reveal_strlit("urn:x-cast:com.google.cast.tp.connection");
    reveal_strlit("urn:x-cast:com.google.cast.tp.heartbeat");
    reveal_strlit("PING");
    reveal_strlit("PONG");
    assert("urn:x-cast:com.google.cast.tp.connection"@.len()
        != "urn:x-cast:com.google.cast.tp.heartbeat"@.len());
    assert("PING"@[1] != "PONG"@[1]);
}

/// A message on an unknown namespace, or with a binary payload, or without a
/// message type, is never delivered.
pub proof fn lemma_not_delivered(m: CastMessageView, typ: Option<Seq<char>>)
    ensures
        !spec_known_namespace(m.namespace) ==> spec_read_kind(m, typ) == ReadKind::UnknownNamespace,
        spec_known_namespace(m.namespace) && m.payload is Bytes ==> spec_read_kind(m, typ)
            == ReadKind::BinaryPayload,
        spec_known_namespace(m.namespace) && m.payload is Text && typ is None ==> spec_read_kind(
            m,
            typ,
        ) == ReadKind::InvalidPayload,
{
}

} // verus!
