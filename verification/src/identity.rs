//! The token that tells one connection from every other.

use vstd::prelude::*;

verus! {

/// What a session is known by on the bus. It is given out once, when the
/// connection is accepted, and never changes. It serves only to tell a
/// session's own events from everybody else's.
#[derive(Clone, Copy, Debug, PartialEq, Eq, Hash, Structural)]
pub struct ConnectionIdentity {
    pub token: u64,
}

impl ConnectionIdentity {
    /// The identity that carries `token`.
    pub fn from_token(token: u64) -> (identity: ConnectionIdentity)
        ensures
            identity.token == token,
    {
        ConnectionIdentity { token }
    }

    /// The token this identity carries.
    pub fn token(&self) -> (token: u64)
        ensures
            token == self.token,
    {
        self.token
    }

    /// Tells whether two identities name the same connection.
    pub fn same_as(&self, other: &ConnectionIdentity) -> (same: bool)
        ensures
            same == (*self == *other),
            same == (self.token == other.token),
    {
        self.token == other.token
    }
}

} // verus!
