//! The session with the service.

use vstd::prelude::*;

use crate::api;
use crate::api::{auth_error, DeezerError};

verus! {

/// A session of a user.
#[derive(Debug)]
pub struct Session {
    pub api_token: String,
    pub license_token: String,
    pub user_id: u64,
    pub user_name: String,
}

impl Clone for Session {
    fn clone(&self) -> (r: Self)
        ensures
            r == *self,
    {
        Session {
            api_token: self.api_token.clone(),
            license_token: self.license_token.clone(),
            user_id: self.user_id,
            user_name: self.user_name.clone(),
        }
    }
}

/// What the service tells about the user of a cookie. The id is zero where the
/// cookie is not valid.
#[derive(Debug)]
pub struct UserData {
    pub api_token: String,
    pub license_token: String,
    pub user_id: u64,
    pub user_name: String,
}

/// What the program knows of its session.
#[derive(Debug)]
pub struct DeezerClient {
    pub session: Option<Session>,
    /// The token of the GraphQL interface, fetched when it is first needed.
    pub jwt_cache: Option<String>,
    /// The gateway's current token. It starts as the session's and is replaced
    /// when the gateway rejects it as expired.
    pub api_token: Option<String>,
}

impl DeezerClient {
    /// No session yet.
    pub fn new() -> (r: DeezerClient)
        ensures
            r.session is None,
            r.jwt_cache is None,
            r.api_token is None,
    {
        DeezerClient { session: None, jwt_cache: None, api_token: None }
    }

    /// Whether there is a session.
    pub fn is_authenticated(&self) -> (r: bool)
        ensures
            r == (self.session is Some),
    {
        self.session.is_some()
    }

    /// The session.
    pub fn session(&self) -> (r: Option<&Session>)
        ensures
            match r {
                Some(s) => self.session == Some(*s),
                None => self.session is None,
            },
    {
        match &self.session {
            Some(s) => Some(s),
            None => None,
        }
    }

    /// The user of the session.
    pub fn user_id(&self) -> (r: Result<u64, DeezerError>)
        ensures
            match r {
                Ok(id) => self.session matches Some(s) && id == s.user_id,
                Err(e) => self.session is None && api::is_auth(e, "Not authenticated"@),
            },
    {
        match &self.session {
            Some(s) => Ok(s.user_id),
            None => Err(auth_error("Not authenticated")),
        }
    }

    /// The gateway's current token.
    pub fn api_token(&self) -> (r: Result<String, DeezerError>)
        ensures
            match r {
                Ok(token) => self.session is Some && self.api_token == Some(token),
                Err(e) => (self.session is None || self.api_token is None) && api::is_auth(
                    e,
                    "Not authenticated"@,
                ),
            },
    {
        if self.session.is_none() {
            return Err(auth_error("Not authenticated"));
        }
        match &self.api_token {
            Some(token) => Ok(token.clone()),
            None => Err(auth_error("Not authenticated")),
        }
    }

    /// Opens the session of a user. A token of the GraphQL interface that belongs
    /// to an earlier session is dropped. A cookie that is not valid opens nothing.
    pub fn login_arl(&mut self, user: UserData) -> (r: Result<Session, DeezerError>)
        ensures
            match r {
                Ok(s) => {
                    &&& user.user_id != 0
                    &&& s == (Session {
                        api_token: user.api_token,
                        license_token: user.license_token,
                        user_id: user.user_id,
                        user_name: user.user_name,
                    })
                    &&& final(self).session == Some(s)
                    &&& final(self).api_token == Some(user.api_token)
                    &&& final(self).jwt_cache is None
                },
                Err(e) => {
                    &&& user.user_id == 0
                    &&& api::is_auth(e, "Invalid ARL token — user_id is 0"@)
                    &&& *final(self) == *old(self)
                },
            },
    {
        if user.user_id == 0 {
            return Err(auth_error("Invalid ARL token — user_id is 0"));
        }
        let session: Session = Session {
            api_token: user.api_token.clone(),
            license_token: user.license_token,
            user_id: user.user_id,
            user_name: user.user_name,
        };
        self.jwt_cache = None;
        self.api_token = Some(user.api_token);
        self.session = Some(session.clone());
        Ok(session)
    }

    /// Replaces the gateway's token after the gateway rejected it.
    pub fn refresh_api_token(&mut self, user: UserData) -> (r: Result<String, DeezerError>)
        ensures
            match r {
                Ok(token) => {
                    &&& user.user_id != 0
                    &&& token == user.api_token
                    &&& final(self).api_token == Some(token)
                    &&& final(self).session == old(self).session
                    &&& final(self).jwt_cache == old(self).jwt_cache
                },
                Err(e) => {
                    &&& user.user_id == 0
                    &&& api::is_auth(e, "Session expired — ARL token is no longer valid"@)
                    &&& *final(self) == *old(self)
                },
            },
    {
        if user.user_id == 0 {
            return Err(auth_error("Session expired — ARL token is no longer valid"));
        }
        self.api_token = Some(user.api_token.clone());
        Ok(user.api_token)
    }

    /// The token of the GraphQL interface, if one is kept. `force` drops it first,
    /// to replace one that was rejected.
    pub fn cached_jwt(&mut self, force: bool) -> (r: Option<String>)
        ensures
            r == (if force {
                None
            } else {
                old(self).jwt_cache
            }),
            final(self).jwt_cache == r,
            final(self).session == old(self).session,
            final(self).api_token == old(self).api_token,
    {
        if force {
            self.jwt_cache = None;
        }
        self.jwt_cache.clone()
    }

    /// Keeps a token of the GraphQL interface.
    pub fn keep_jwt(&mut self, jwt: String)
        ensures
            final(self).jwt_cache == Some(jwt),
            final(self).session == old(self).session,
            final(self).api_token == old(self).api_token,
    {
        self.jwt_cache = Some(jwt);
    }
}

} // verus!
