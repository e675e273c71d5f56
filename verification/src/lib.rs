//! Client library for the Fractal Global Credits web API.
//!
//! The library models the access-token authorization grants, decides for each
//! remote operation whether the caller's token permits it, builds the request
//! that has to be sent, and interprets the status code and body of the
//! response.  Sending the request over the network is left to the embedding
//! program: every function here is a pure computation from plain values to
//! plain values, with a contract.

use vstd::prelude::*;

pub mod digits;
pub mod dto;
pub mod envelope;
pub mod error;
pub mod friends;
pub mod oauth;
pub mod public;
pub mod responses;
pub mod scope;
pub mod transaction;
pub mod types;
pub mod user;
pub mod wire;

verus! {

/// Fractal API server.
pub const FRACTAL_SERVER: &'static str = "https://api.fractal.global/";

/// Fractal development API server.
pub const FRACTAL_DEV_SERVER: &'static str = "https://dev.fractal.global/";

/// The client struct.
///
/// A client holds the versioned base URL of the remote API; every operation
/// builds its request URL from it.
pub struct Client {
    /// The versioned base URL that every request URL starts with.
    pub url: String,
}

impl Client {
    /// Creates a new Fractal Global Credits API client.
    pub fn new() -> (r: Client)
        ensures
            r.url@ == FRACTAL_SERVER@ + "v1/"@,
    {
        Client { url: String::from_str(FRACTAL_SERVER).concat("v1/") }
    }

    /// Creates a new Fractal Global Credits API client for the given server.
    pub fn new_with_url(url: &str) -> (r: Client)
        ensures
            r.url@ == url@ + "v1/"@,
    {
        Client { url: url.to_owned().concat("v1/") }
    }

    /// Creates a new Fractal Global Credits API development client.
    pub fn new_dev() -> (r: Client)
        ensures
            r.url@ == FRACTAL_DEV_SERVER@ + "v1/"@,
    {
        Client { url: String::from_str(FRACTAL_DEV_SERVER).concat("v1/") }
    }
}

} // verus!
