//! The heartbeat namespace: pings and pongs that keep a connection alive.

use crate::message::Namespace;
use crate::payload::{MessageType, RequestInner};
use vstd::prelude::*;

verus! {

pub const CHANNEL_NAMESPACE: &'static str = "urn:x-cast:com.google.cast.tp.heartbeat";

pub const MESSAGE_TYPE_PING: &'static str = "PING";

pub const MESSAGE_TYPE_PONG: &'static str = "PONG";

/// A heartbeat ping.
#[derive(Debug)]
pub struct Ping {}

/// The answer to a heartbeat ping.
#[derive(Debug)]
pub struct Pong {}

impl RequestInner for Ping {
    open spec fn spec_channel_namespace() -> Seq<char> {
        CHANNEL_NAMESPACE@
    }

    open spec fn spec_message_type() -> Seq<char> {
        MESSAGE_TYPE_PING@
    }

    fn channel_namespace() -> Namespace {
        Namespace::from_const(CHANNEL_NAMESPACE)
    }

    fn message_type() -> MessageType {
        MessageType::from_const(MESSAGE_TYPE_PING)
    }
}

impl RequestInner for Pong {
    open spec fn spec_channel_namespace() -> Seq<char> {
        CHANNEL_NAMESPACE@
    }

    open spec fn spec_message_type() -> Seq<char> {
        MESSAGE_TYPE_PONG@
    }

    fn channel_namespace() -> Namespace {
        Namespace::from_const(CHANNEL_NAMESPACE)
    }

    fn message_type() -> MessageType {
        MessageType::from_const(MESSAGE_TYPE_PONG)
    }
}

} // verus!
