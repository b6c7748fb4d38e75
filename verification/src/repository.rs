//! A place to keep sessions, and the one that keeps none.
//!
//! The session-of-record service owns every session, so the gateway's own
//! repository stores nothing and finds nothing.

use vstd::prelude::*;
use crate::backoffice::EkycSessionDto;
use crate::error::AppResult;

verus! {

/// A session as a repository holds it.
pub type EkycSession = EkycSessionDto;

/// Somewhere sessions can be saved and found again.
pub trait EkycRepository {
    /// Saves a session.
    fn save_session(&self, session: &EkycSession) -> AppResult<()>;

    /// Finds the session with the given identifier.
    fn find_session(&self, id: &str) -> AppResult<Option<EkycSession>>;
}

/// The repository of a gateway that keeps no state.
#[derive(Debug)]
pub struct RedisEkycRepository;

impl RedisEkycRepository {
    pub fn new() -> Self {
        RedisEkycRepository
    }
}

impl EkycRepository for RedisEkycRepository {
    /// Accepts the session and keeps nothing.
    fn save_session(&self, session: &EkycSession) -> (r: AppResult<()>)
        ensures
            r is Ok,
    {
        Ok(())
    }

    /// Finds nothing.
    fn find_session(&self, id: &str) -> (r: AppResult<Option<EkycSession>>)
        ensures
            r matches Ok(found) && found is None,
    {
        Ok(None)
    }
}

} // verus!
