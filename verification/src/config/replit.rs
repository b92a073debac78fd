//! The one backend whose credential is refreshed dynamically: the library
//! decides when a refresh is due and records the fresh parameters; fetching
//! them is the caller's job.
use vstd::prelude::*;

use crate::config::apis::ApiParams;

verus! {

#[derive(Debug, Clone)]
pub struct ReplitApiParams {
    pub params: ApiParams,
}

impl ReplitApiParams {
    pub fn new() -> (r: Self)
        ensures
            r.params.key@ == Seq::<char>::empty(),
            r.params.timeout is None,
    {
        Self { params: ApiParams::new() }
    }

    /// The currently recorded key.
    pub fn get_key(&self) -> (r: String)
        ensures
            r == self.params.key,
    {
        self.params.key.clone()
    }

    /// Whether the recorded key's expiry has passed and a fresh key must be
    /// fetched before use.
    pub fn needs_refresh(&self, now: i64) -> (r: bool)
        ensures
            r == match self.params.timeout {
                Some(t) => now > t,
                None => false,
            },
    {
        self.params.is_expired(now)
    }

    /// Installs freshly fetched parameters.
    pub fn set_params(&mut self, params: ApiParams)
        ensures
            final(self).params == params,
    {
        self.params = params;
    }
}

/// The shape of the token manager's answer: a key and its expiry.
pub struct ReplitTokenManagerResponse {
    pub token: String,
    pub timeout: i64,
}

} // verus!
