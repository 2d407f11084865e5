//! What the request rules read of stored documents.

use vstd::prelude::*;

use crate::ids::Oid;

verus! {

/// Where a message stands.
#[derive(Clone, Copy, Debug, PartialEq, Eq, Structural)]
pub enum Place {
    /// In a channel.
    Channel(Oid),
    /// In a conversation with one recipient.
    Dm(Oid),
    /// In neither.
    Nowhere,
}

/// Whether an account may act.
#[derive(Clone, Copy, Debug, PartialEq, Eq, Structural)]
pub enum Account {
    Allowed,
    Blocked,
    Missing,
    Unavailable,
}

/// Outcome of the access check on a conversation of two.
#[derive(Clone, Copy, Debug, PartialEq, Eq)]
pub enum DmAccess {
    Granted { me: Oid, other: Oid },
    Unavailable,
    Denied(&'static str),
}

} // verus!
