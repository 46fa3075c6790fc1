use vstd::prelude::*;

use crate::backend::SessionBackend;
use crate::manager::SessionManager;
use crate::manager::TrackedManager;

verus! {

/// Why a fetch produced no session: the incoming request carried no
/// decodable session value.
#[derive(Clone, Copy, Debug, PartialEq, Eq)]
pub struct FetchFailed;

/// The smallest complete backend: the whole "store" is one counter value
/// travelling with the request/response exchange, the way a counter cookie
/// would.  The incoming request optionally carries the stored value (absent
/// when the client sent none, in which case the fetch fails); persisting
/// writes the session's current payload into the outgoing response's slot.
pub struct CounterBackend;

impl SessionBackend for CounterBackend {
    type Manager = TrackedManager<u64>;

    type Request = Option<u64>;

    type Response = Option<u64>;

    type Error = FetchFailed;

    open spec fn fetch_post(&self, req: Option<u64>, m: TrackedManager<u64>) -> bool {
        req == Some(m.data()) && !m.is_changed()
    }

    open spec fn update_post(&self, m: TrackedManager<u64>, resp: Option<u64>, out: Option<u64>) -> bool {
        out == Some(m.data())
    }

    /// Succeeds exactly when the request carries a value: the manager then
    /// holds that value and is not yet changed.
    fn get_session(&self, req: &Option<u64>) -> (r: Result<TrackedManager<u64>, FetchFailed>)
        ensures
            match *req {
                Some(v) => r matches Ok(m) && m.data() == v && !m.is_changed(),
                None => r is Err,
            },
    {
        match req {
            Some(v) => Ok(TrackedManager::new(*v)),
            None => Err(FetchFailed),
        }
    }

    /// Persisting never fails here: the outgoing slot is overwritten with
    /// the session's current payload.
    fn update_session(&self, session_manager: &TrackedManager<u64>, _resp: Option<u64>) -> (out: Option<u64>) {
        Some(*session_manager.get_session())
    }
}

} // verus!
