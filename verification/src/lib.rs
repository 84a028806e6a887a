//! A typed client library for a subset of the Steam Web API.
//!
//! The library holds everything about a call that can be stated and checked:
//! how a request URL and its query string are built, which response status
//! codes allow the body to be parsed, and how the outcome of one exchange is
//! mapped to either the unwrapped payload or the endpoint's error.  The
//! network round trip itself, and the JSON (de)serialization of the wire
//! documents, are performed by the surrounding application, which reports
//! what happened as an [`http::HttpEvent`] and hands it back to the library.

use vstd::prelude::*;

pub mod args;
pub mod econ_service;
pub mod errors;
pub mod http;
pub mod render;
pub mod steam_apps;
pub mod steam_webapi_util;

verus! {

/// A handle to the Steam Web API: it carries the caller's API key.  The
/// HTTP client itself lives outside the library; the application pairs a
/// `Steam` value with whatever transport it uses and shares both freely,
/// since neither is mutated by any call.
pub struct Steam {
    /// The Web API key sent as the `key` query argument where an endpoint
    /// requires one.
    pub api_key: String,
}

impl Steam {
    /// Makes a handle from an API key.
    pub fn new(api_key: String) -> (s: Steam)
        ensures
            s.api_key == api_key,
    {
        Steam { api_key }
    }
}

} // verus!
