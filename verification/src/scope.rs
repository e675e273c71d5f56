//! The scope model: the capability grants that an access token can carry.

use vstd::prelude::*;

verus! {

/// A capability grant embedded in an access token.
#[derive(Clone, Copy, Debug, PartialEq, Eq, Structural)]
pub enum Scope {
    /// Administration scope, for administration purposes only.
    Admin,
    /// User scope, carrying the ID of the authenticated user.
    User(u64),
    /// Public scope, available to every client.
    Public,
    /// Developer scope, for development accounts.
    Developer,
}

/// The type of an access token. The API only issues bearer tokens.
#[derive(Clone, Copy, Debug, PartialEq, Eq, Structural)]
pub enum TokenType {
    /// OAuth bearer token type.
    Bearer,
}

} // verus!
