//! Payloads used in Chromecast protocol messages.
//!
//! For many `enum`s in this module there are fieldless variants matching the
//! Chromecast documentation, and then an `Unknown(T)` variant that keeps any value
//! the Chromecast sends that this library does not know, in its wire form.

pub mod connection;
pub mod heartbeat;
pub mod media;
pub mod receiver;

use crate::message::Namespace;
use vstd::prelude::*;
use vstd::string::*;

verus! {

/// i32 that represents a request_id in the Chromecast protocol.
///
/// Zero is only used in broadcast responses with no corresponding request.
#[derive(Clone, Copy, Debug, PartialEq, Eq, Hash, PartialOrd, Ord, Structural)]
pub struct RequestId(pub i32);

/// Hands out the ids of requests sent on one connection: successive values,
/// wrapping around at `i32::MAX`, never 0.
#[derive(Debug)]
pub struct RequestIdGen {
    next: i32,
}

/// A message type: the `type` field of a JSON payload.
#[derive(Clone, Debug, Hash, PartialEq, Eq, PartialOrd, Ord)]
pub struct MessageType(pub String);

/// A JSON payload: the request id, the message type, and the fields of the
/// message proper (flattened into the same JSON object on the wire).
#[derive(Debug)]
pub struct Payload<T> {
    pub request_id: Option<RequestId>,
    pub typ: MessageType,
    pub inner: T,
}

/// A request payload: it names the namespace it is sent on and its message type.
pub trait RequestInner {
    /// The namespace the request is sent on.
    spec fn spec_channel_namespace() -> Seq<char>;

    /// The message type of the request.
    spec fn spec_message_type() -> Seq<char>;

    fn channel_namespace() -> (r: Namespace)
        ensures
            r@ == Self::spec_channel_namespace(),
    ;

    fn message_type() -> (r: MessageType)
        ensures
            r@ == Self::spec_message_type(),
    ;
}

/// A response payload: it names the namespace it arrives on and the message
/// types it may carry.
pub trait ResponseInner {
    /// The namespace the response arrives on.
    spec fn spec_channel_namespace() -> Seq<char>;

    /// The message types the response may carry.
    spec fn spec_type_names() -> Seq<Seq<char>>;

    fn channel_namespace() -> (r: Namespace)
        ensures
            r@ == Self::spec_channel_namespace(),
    ;

    fn type_names() -> (r: Vec<MessageType>)
        ensures
            r@.map_values(|t: MessageType| t@) == Self::spec_type_names(),
    ;
}

/// The user agent sent when connecting to a destination.
pub const USER_AGENT: &'static str = "RustCast; https://github.com/azasypkin/rust-cast";

/// The id after `n`, wrapping around from `i32::MAX` to `i32::MIN`.
pub open spec fn spec_wrapping_succ(n: i32) -> i32 {
    if n == i32::MAX {
        i32::MIN
    } else {
        (n + 1) as i32
    }
}

/// The id `take_next` hands out when the generator holds `next`: 0 is skipped.
pub open spec fn spec_issued_id(next: i32) -> i32 {
    if next == 0 {
        1
    } else {
        next
    }
}

/// The value a generator that holds `next` holds after `k` calls of `take_next`.
pub open spec fn spec_state_after(next: i32, k: nat) -> i32
    decreases k,
{
    if k == 0 {
        next
    } else {
        spec_state_after(spec_wrapping_succ(spec_issued_id(next)), (k - 1) as nat)
    }
}

/// The id the call numbered `k` (from 0) of `take_next` hands out, on a
/// generator that holds `next`.
pub open spec fn spec_nth_id(next: i32, k: nat) -> i32 {
    spec_issued_id(spec_state_after(next, k))
}

/// How many ids a generator hands out before it repeats one: every `i32` but 0.
pub open spec fn spec_id_cycle_len() -> int {
    4294967295
}

/// The place of a non-zero id in the order a generator hands ids out:
/// 1, 2, ..., `i32::MAX`, `i32::MIN`, ..., -1.
pub open spec fn spec_cycle_pos(id: i32) -> int {
    if id > 0 {
        id - 1
    } else {
        id + 4294967295
    }
}

proof fn lemma_cycle_step(next: i32)
    ensures
        spec_cycle_pos(spec_issued_id(spec_wrapping_succ(spec_issued_id(next)))) == (spec_cycle_pos(
            spec_issued_id(next),
        ) + 1) % spec_id_cycle_len(),
{
    let x = spec_issued_id(next);
    let p = spec_cycle_pos(x);
    assert(0 <= p < spec_id_cycle_len());
    if x == -1 {
        assert((p + 1) % spec_id_cycle_len() == 0);
    } else {
        assert(p + 1 < spec_id_cycle_len());
        vstd::arithmetic::div_mod::lemma_small_mod((p + 1) as nat, spec_id_cycle_len() as nat);
    }
}

proof fn lemma_cycle_pos_nth(next: i32, k: nat)
    ensures
        spec_cycle_pos(spec_nth_id(next, k)) == (spec_cycle_pos(spec_issued_id(next)) + k)
            % spec_id_cycle_len(),
    decreases k,
{
    let m = spec_id_cycle_len();
    let p0 = spec_cycle_pos(spec_issued_id(next));
    if k == 0 {
        vstd::arithmetic::div_mod::lemma_small_mod(p0 as nat, m as nat);
    } else {
        let n1 = spec_wrapping_succ(spec_issued_id(next));
        lemma_cycle_pos_nth(n1, (k - 1) as nat);
        lemma_cycle_step(next);
        assert(spec_nth_id(next, k) == spec_nth_id(n1, (k - 1) as nat));
        assert(((p0 + 1) % m + (k - 1)) % m == (p0 + k) % m) by {
            vstd::arithmetic::div_mod::lemma_add_mod_noop_right((k - 1) as int, p0 + 1, m);
        }
    }
}

/// From a positive value, a generator counts up by one: call `k` hands out
/// `next + k` as long as that does not pass `i32::MAX`. A new generator thus
/// hands out 1, 2, 3, ...
pub proof fn lemma_ids_count_up(next: i32, k: nat)
    requires
        next >= 1,
        next + k <= i32::MAX,
    ensures
        spec_nth_id(next, k) == next + k,
    decreases k,
{
    if k > 0 {
        lemma_ids_count_up((next + 1) as i32, (k - 1) as nat);
        assert(spec_state_after(next, k) == spec_state_after((next + 1) as i32, (k - 1) as nat));
    }
}

/// A generator never hands out the same id twice within fewer successive calls
/// than there are non-zero `i32` values: the ids of calls `i` and `j` differ.
pub proof fn lemma_successive_ids_distinct(next: i32, i: nat, j: nat)
    requires
        i < j,
        j - i < spec_id_cycle_len(),
    ensures
        spec_nth_id(next, i) != spec_nth_id(next, j),
{
    let m = spec_id_cycle_len();
    let p0 = spec_cycle_pos(spec_issued_id(next));
    lemma_cycle_pos_nth(next, i);
    lemma_cycle_pos_nth(next, j);
    let a = p0 + i;
    let d = j - i;
    vstd::arithmetic::div_mod::lemma_fundamental_div_mod(a, m);
    vstd::arithmetic::div_mod::lemma_fundamental_div_mod(a + d, m);
    if a % m == (a + d) % m {
        let q1 = a / m;
        let q2 = (a + d) / m;
        assert(d == m * (q2 - q1)) by (nonlinear_arith)
            requires
                a == m * q1 + a % m,
                a + d == m * q2 + (a + d) % m,
                a % m == (a + d) % m,
        ;
        assert(false) by (nonlinear_arith)
            requires
                d == m * (q2 - q1),
                0 < d < m,
        ;
    }
}

impl RequestId {
    /// The id of broadcast messages, which answer no request.
    pub fn broadcast() -> (r: RequestId)
        ensures
            r.0 == 0,
    {
        RequestId(0)
    }

    pub fn inner(self) -> (r: i32)
        ensures
            r == self.0,
    {
        self.0
    }

    /// The id written in decimal, as `Display` writes it.
    pub fn to_string(&self) -> (r: String)
        ensures
            r@ == crate::text::spec_i32_text(self.0),
    {
        crate::text::i32_text(self.0)
    }

    fn rpc_id_from(n: i32) -> (r: RequestId)
        requires
            n != 0,
        ensures
            r.0 == n,
    {
        RequestId(n)
    }

    pub fn is_broadcast(self) -> (r: bool)
        ensures
            r == (self.0 == 0),
    {
        self == RequestId::broadcast()
    }

    pub fn is_rpc(self) -> (r: bool)
        ensures
            r == (self.0 != 0),
    {
        self != RequestId::broadcast()
    }
}

impl From<RequestId> for i32 {
    fn from(id: RequestId) -> (r: i32) {
        id.0
    }
}

impl vstd::std_specs::convert::FromSpecImpl<RequestId> for i32 {
    open spec fn obeys_from_spec() -> bool {
        true
    }

    open spec fn from_spec(id: RequestId) -> i32 {
        id.0
    }
}

impl RequestIdGen {
    /// The value `take_next` will look at next.
    pub closed spec fn spec_next(&self) -> i32 {
        self.next
    }

    /// A generator whose first id is 1: 0 is the broadcast id.
    pub fn new() -> (r: RequestIdGen)
        ensures
            r.spec_next() == 1,
    {
        RequestIdGen { next: 1 }
    }

    /// A generator that looks at `next` first.
    pub fn starting_at(next: i32) -> (r: RequestIdGen)
        ensures
            r.spec_next() == next,
    {
        RequestIdGen { next }
    }

    /// The next request id: the value held, or 1 where the value held is 0;
    /// the generator then holds the value after the id handed out.
    pub fn take_next(&mut self) -> (r: RequestId)
        ensures
            r.0 == spec_issued_id(old(self).spec_next()),
            r.0 != 0,
            final(self).spec_next() == spec_wrapping_succ(r.0),
            r.0 == spec_nth_id(old(self).spec_next(), 0),
            final(self).spec_next() == spec_state_after(old(self).spec_next(), 1),
    {
        let ghost start = self.next;
        loop
            invariant
                start == old(self).next,
                self.next == start || (start == 0 && self.next == 1),
            decreases (if self.next == 0 {
                1int
            } else {
                0int
            }),
        {
            let id = self.next;
            self.next = if id == i32::MAX {
                i32::MIN
            } else {
                id + 1
            };
            if id == 0 {
                // Receivers use 0 for broadcast messages: take the next value.
                continue ;
            }
            proof {
                assert(spec_state_after(start, 1) == spec_state_after(
                    spec_wrapping_succ(spec_issued_id(start)),
                    0,
                ));
            }
            return RequestId::rpc_id_from(id);
        }
    }
}

impl View for MessageType {
    type V = Seq<char>;

    open spec fn view(&self) -> Seq<char> {
        self.0@
    }
}

impl MessageType {
    pub fn as_str(&self) -> (r: &str)
        ensures
            r@ == self@,
    {
        self.0.as_str()
    }

    pub fn from_const(s: &'static str) -> (r: MessageType)
        ensures
            r@ == s@,
    {
        MessageType(String::from_str(s))
    }

    pub fn to_string(&self) -> (r: String)
        ensures
            r@ == self@,
    {
        self.0.clone()
    }

    /// A copy of this message type.
    pub fn duplicate(&self) -> (r: MessageType)
        ensures
            r@ == self@,
    {
        MessageType(self.0.clone())
    }

    /// Whether two message types are the same.
    pub fn same_as(&self, other: &MessageType) -> (r: bool)
        ensures
            r == (self@ == other@),
    {
        self.0 == other.0
    }
}

impl From<String> for MessageType {
    fn from(s: String) -> (r: MessageType) {
        MessageType(s)
    }
}

impl vstd::std_specs::convert::FromSpecImpl<String> for MessageType {
    open spec fn obeys_from_spec() -> bool {
        true
    }

    open spec fn from_spec(s: String) -> MessageType {
        MessageType(s)
    }
}

impl From<MessageType> for String {
    fn from(t: MessageType) -> (r: String) {
        t.0
    }
}

impl vstd::std_specs::convert::FromSpecImpl<MessageType> for String {
    open spec fn obeys_from_spec() -> bool {
        true
    }

    open spec fn from_spec(t: MessageType) -> String {
        t.0
    }
}

} // verus!
