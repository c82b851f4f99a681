//! The service's interfaces: what is asked, and what its answers mean.

pub mod addresses;
pub mod auth;
pub mod entries;
pub mod gateway;
pub mod graphql;
pub mod json;
pub mod pages;
pub mod replies;
pub mod requests;
pub mod sorting;

use vstd::prelude::*;

verus! {

/// What can go wrong between the program and the service.
#[derive(Debug)]
pub enum DeezerError {
    /// The service refuses a request, or its answer cannot be understood.
    Api(String),
    /// The session is missing or no longer valid.
    Auth(String),
    /// The network failed.
    Http(String),
    /// The audio output failed.
    Playback(String),
    /// The track is in the playlist already.
    TrackAlreadyInPlaylist,
}

/// An error of the service that reads `msg`.
pub open spec fn is_api(e: DeezerError, msg: Seq<char>) -> bool {
    e matches DeezerError::Api(m) && m@ == msg
}

/// An error of the session that reads `msg`.
pub open spec fn is_auth(e: DeezerError, msg: Seq<char>) -> bool {
    e matches DeezerError::Auth(m) && m@ == msg
}

/// An error of the connection that reads `msg`.
pub open spec fn is_http(e: DeezerError, msg: Seq<char>) -> bool {
    e matches DeezerError::Http(m) && m@ == msg
}

/// An error of the service.
pub fn api_error(msg: &str) -> (r: DeezerError)
    ensures
        is_api(r, msg@),
{
    DeezerError::Api(crate::text::owned(msg))
}

/// An error of the session.
pub fn auth_error(msg: &str) -> (r: DeezerError)
    ensures
        is_auth(r, msg@),
{
    DeezerError::Auth(crate::text::owned(msg))
}

} // verus!
