//! Error values that the conduit layer reports through the message stream.

use vstd::prelude::*;

verus! {

/// An error reported by the exchange itself, carried verbatim as text.
#[derive(Clone, Debug, PartialEq, PartialOrd)]
pub struct CBError(pub String);

/// Everything that can go wrong between the exchange and the caller.  These
/// values travel inside `Message::InternalError`, so a harvester chain can
/// route them like any other message.
#[derive(Clone, Debug, PartialEq, PartialOrd)]
pub enum CBProError {
    Coinbase(CBError),
    Connect(String),
    Http(String),
    Message(String),
    Null,
    Read(String),
    Send(String),
    Serde(String),
}

} // verus!
