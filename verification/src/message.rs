//! Cast messages: the envelope that carries every payload between a sender and a receiver.

use vstd::prelude::*;
use vstd::string::*;

verus! {

/// Identifies one end of a Cast virtual connection (a sender, a receiver, or an app transport).
#[derive(Clone, Debug, Hash, PartialEq, Eq, PartialOrd, Ord)]
pub struct EndpointId(pub String);

/// A labeled protocol: every Cast message names the protocol it belongs to.
#[derive(Clone, Debug, Hash, PartialEq, Eq, PartialOrd, Ord)]
pub struct Namespace(pub String);

/// Payload data attached to a message, either text (JSON in practice) or binary.
#[derive(Clone, Debug)]
pub enum CastMessagePayload {
    String(String),
    Binary(Vec<u8>),
}

/// Messages that are exchanged between Receiver and Sender.
#[derive(Clone, Debug)]
pub struct CastMessage {
    /// A namespace is a labeled protocol. That is, messages that are exchanged throughout the
    /// Cast ecosystem utilize namespaces to identify the protocol of the message being sent.
    pub namespace: Namespace,
    /// Unique identifier of the `sender` application.
    pub source: EndpointId,
    /// Unique identifier of the `receiver` application.
    pub destination: EndpointId,
    /// Payload data attached to the message (either string or binary).
    pub payload: CastMessagePayload,
}

/// The abstract content of a payload.
#[verifier::ext_equal]
pub enum PayloadView {
    Text(Seq<char>),
    Bytes(Seq<u8>),
}

/// The abstract content of a message.
#[verifier::ext_equal]
pub struct CastMessageView {
    pub namespace: Seq<char>,
    pub source: Seq<char>,
    pub destination: Seq<char>,
    pub payload: PayloadView,
}

impl View for CastMessage {
    type V = CastMessageView;

    open spec fn view(&self) -> CastMessageView {
        CastMessageView {
            namespace: self.namespace@,
            source: self.source@,
            destination: self.destination@,
            payload: self.payload@,
        }
    }
}

impl View for EndpointId {
    type V = Seq<char>;

    open spec fn view(&self) -> Seq<char> {
        self.0@
    }
}

impl View for Namespace {
    type V = Seq<char>;

    open spec fn view(&self) -> Seq<char> {
        self.0@
    }
}

impl View for CastMessagePayload {
    type V = PayloadView;

    open spec fn view(&self) -> PayloadView {
        match self {
            CastMessagePayload::String(s) => PayloadView::Text(s@),
            CastMessagePayload::Binary(b) => PayloadView::Bytes(b@),
        }
    }
}

/// The endpoint id that addresses every endpoint at once.
pub open spec fn spec_broadcast_id() -> Seq<char> {
    seq!['*']
}

impl EndpointId {
    pub fn as_str(&self) -> (r: &str)
        ensures
            r@ == self@,
    {
        self.0.as_str()
    }

    /// Whether this id is the broadcast id `*`.
    pub fn is_broadcast(&self) -> (r: bool)
        ensures
            r == (self@ == spec_broadcast_id()),
    {
        let b = Self::broadcast();
        self.0 == b.0
    }

    pub fn from_const(s: &'static str) -> (r: EndpointId)
        ensures
            r@ == s@,
    {
        EndpointId(String::from_str(s))
    }

    pub fn to_string(&self) -> (r: String)
        ensures
            r@ == self@,
    {
        self.0.clone()
    }

    /// A copy of this id.
    pub fn duplicate(&self) -> (r: EndpointId)
        ensures
            r@ == self@,
    {
        EndpointId(self.0.clone())
    }

    /// The broadcast id `*`.
    pub fn broadcast() -> (r: EndpointId)
        ensures
            r@ == spec_broadcast_id(),
    {
        proof {
            reveal_strlit("*");
        }
        Self::from_const("*")
    }

    /// The id this library uses as the sender of its messages unless configured otherwise.
    pub fn default_sender() -> (r: EndpointId)
        ensures
            r@ == "sender-0"@,
    {
        Self::from_const("sender-0")
    }

    /// The id of the platform receiver on every Cast device.
    pub fn default_receiver() -> (r: EndpointId)
        ensures
            r@ == "receiver-0"@,
    {
        Self::from_const("receiver-0")
    }
}

impl From<String> for EndpointId {
    fn from(s: String) -> (r: EndpointId) {
        EndpointId(s)
    }
}

impl vstd::std_specs::convert::FromSpecImpl<String> for EndpointId {
    open spec fn obeys_from_spec() -> bool {
        true
    }

    open spec fn from_spec(s: String) -> EndpointId {
        EndpointId(s)
    }
}

impl From<EndpointId> for String {
    fn from(id: EndpointId) -> (r: String) {
        id.0
    }
}

impl vstd::std_specs::convert::FromSpecImpl<EndpointId> for String {
    open spec fn obeys_from_spec() -> bool {
        true
    }

    open spec fn from_spec(id: EndpointId) -> String {
        id.0
    }
}

impl Namespace {
    pub fn as_str(&self) -> (r: &str)
        ensures
            r@ == self@,
    {
        self.0.as_str()
    }

    pub fn from_const(s: &'static str) -> (r: Namespace)
        ensures
            r@ == s@,
    {
        Namespace(String::from_str(s))
    }

    pub fn to_string(&self) -> (r: String)
        ensures
            r@ == self@,
    {
        self.0.clone()
    }

    /// A copy of this namespace.
    pub fn duplicate(&self) -> (r: Namespace)
        ensures
            r@ == self@,
    {
        Namespace(self.0.clone())
    }

    /// Whether two namespaces name the same protocol.
    pub fn same_as(&self, other: &Namespace) -> (r: bool)
        ensures
            r == (self@ == other@),
    {
        self.0 == other.0
    }
}

impl From<String> for Namespace {
    fn from(s: String) -> (r: Namespace) {
        Namespace(s)
    }
}

impl vstd::std_specs::convert::FromSpecImpl<String> for Namespace {
    open spec fn obeys_from_spec() -> bool {
        true
    }

    open spec fn from_spec(s: String) -> Namespace {
        Namespace(s)
    }
}

impl From<Namespace> for String {
    fn from(ns: Namespace) -> (r: String) {
        ns.0
    }
}

impl vstd::std_specs::convert::FromSpecImpl<Namespace> for String {
    open spec fn obeys_from_spec() -> bool {
        true
    }

    open spec fn from_spec(ns: Namespace) -> String {
        ns.0
    }
}

impl From<String> for CastMessagePayload {
    fn from(s: String) -> (r: CastMessagePayload) {
        CastMessagePayload::String(s)
    }
}

impl vstd::std_specs::convert::FromSpecImpl<String> for CastMessagePayload {
    open spec fn obeys_from_spec() -> bool {
        true
    }

    open spec fn from_spec(s: String) -> CastMessagePayload {
        CastMessagePayload::String(s)
    }
}

impl From<Vec<u8>> for CastMessagePayload {
    fn from(b: Vec<u8>) -> (r: CastMessagePayload) {
        CastMessagePayload::Binary(b)
    }
}

impl vstd::std_specs::convert::FromSpecImpl<Vec<u8>> for CastMessagePayload {
    open spec fn obeys_from_spec() -> bool {
        true
    }

    open spec fn from_spec(b: Vec<u8>) -> CastMessagePayload {
        CastMessagePayload::Binary(b)
    }
}

} // verus!
