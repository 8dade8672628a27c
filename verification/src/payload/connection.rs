//! The connection namespace: opening and closing virtual connections.

use crate::message::Namespace;
use crate::payload::{MessageType, RequestInner, ResponseInner};
use vstd::prelude::*;

verus! {

pub const CHANNEL_NAMESPACE: &'static str = "urn:x-cast:com.google.cast.tp.connection";

pub const MESSAGE_TYPE_CONNECT: &'static str = "CONNECT";

pub const MESSAGE_TYPE_CLOSE: &'static str = "CLOSE";

/// Opens a virtual connection to a destination.
#[derive(Debug)]
pub struct ConnectRequest {
    pub user_agent: String,
}

/// The answer to a `CONNECT`.
#[derive(Debug)]
pub struct ConnectResponse {}

impl RequestInner for ConnectRequest {
    open spec fn spec_channel_namespace() -> Seq<char> {
        CHANNEL_NAMESPACE@
    }

    open spec fn spec_message_type() -> Seq<char> {
        MESSAGE_TYPE_CONNECT@
    }

    fn channel_namespace() -> Namespace {
        Namespace::from_const(CHANNEL_NAMESPACE)
    }

    fn message_type() -> MessageType {
        MessageType::from_const(MESSAGE_TYPE_CONNECT)
    }
}

impl ResponseInner for ConnectResponse {
    open spec fn spec_channel_namespace() -> Seq<char> {
        CHANNEL_NAMESPACE@
    }

    open spec fn spec_type_names() -> Seq<Seq<char>> {
        seq![MESSAGE_TYPE_CONNECT@]
    }

    fn channel_namespace() -> Namespace {
        Namespace::from_const(CHANNEL_NAMESPACE)
    }

    fn type_names() -> Vec<MessageType> {
        vec![MessageType::from_const(MESSAGE_TYPE_CONNECT)]
    }
}

} // verus!
