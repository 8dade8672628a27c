//! A client library for the Cast v2 protocol spoken by Chromecast devices.
//!
//! The verified core holds the protocol's data model, the wire framing of
//! messages, the bookkeeping of the connection task and the decoding of mDNS
//! discovery answers.

pub mod args;
pub mod codec;
pub mod mdns;
pub mod message;
pub mod payload;
pub mod task;
pub mod text;
pub mod types;

use vstd::prelude::*;

verus! {

/// `anyhow::Error`, the general-purpose error type that some operations of the
/// library return; verified code only carries values of it through.
#[verifier::external_type_specification]
#[verifier::external_body]
pub struct ExAnyhowError(anyhow::Error);

} // verus!
