use vstd::prelude::*;

use crate::handle::RequestExtensions;
use crate::handle::UseSession;
use crate::manager::SessionManager;

verus! {

/// The persistence decision of the default policy, as a value: the
/// post-handler hook persists exactly when a handle is installed for the
/// request and its manager reports mutation.  A surrounding pipeline whose
/// persistence step is asynchronous asks this first and then performs the
/// write itself.
pub fn should_persist<M: SessionManager>(ext: &RequestExtensions<M>) -> (b: bool)
    ensures
        b == match ext.stored() {
            Some(s) => s.session_manager.is_changed(),
            None => false,
        },
{
    match ext.session() {
        Some(handle) => handle.changed(),
        None => false,
    }
}

/// The pluggable storage strategy.  A backend knows how to produce a session
/// manager for an incoming request (decode a cookie, query a store) and how
/// to write a manager back into an outgoing response.  The "should I persist
/// at all" decision is supplied here as the default `response` policy, so a
/// backend stays ignorant of handler logic: it implements fetch and persist,
/// and writes are skipped whenever nothing changed.
pub trait SessionBackend: Sized {
    /// The manager type this backend produces and persists.
    type Manager: SessionManager;
    /// The incoming request data the fetch reads.
    type Request;
    /// The outgoing response the persistence step may rewrite.
    type Response;
    /// How a failed fetch is reported to the surrounding pipeline.
    type Error;

    /// What this backend guarantees of every manager its fetch produces
    /// for a given request (say: freshly loaded, not yet changed).
    spec fn fetch_post(&self, req: Self::Request, m: Self::Manager) -> bool;

    /// What this backend guarantees of every persistence outcome: how the
    /// response it returns relates to the manager it was asked to persist.
    spec fn update_post(&self, m: Self::Manager, resp: Self::Response, out: Self::Response) -> bool;

    /// Produce a session manager for the incoming request.  Whether this
    /// succeeds is the backend's decision alone (the store may be down, the
    /// cookie malformed); whenever it does succeed, the manager satisfies
    /// the backend's own fetch guarantee.
    fn get_session(&self, req: &Self::Request) -> (r: Result<Self::Manager, Self::Error>)
        ensures
            r matches Ok(m) ==> self.fetch_post(*req, m),
    ;

    /// Persist the given manager into the outgoing response.  The returned
    /// response fully determines what is sent to the client; a persistence
    /// failure is encoded by the backend as an alternate response value,
    /// never thrown past it.
    fn update_session(&self, session_manager: &Self::Manager, resp: Self::Response) -> (out: Self::Response)
        ensures
            self.update_post(*session_manager, resp, out),
    ;

    /// The default persistence policy, run by the post-handler hook: if a
    /// handle was installed for this request and its manager reports
    /// mutation, delegate to `update_session`; in every other case -- no
    /// handle, or an untouched session -- the response passes through
    /// exactly as it came in.
    fn response(&self, ext: &RequestExtensions<Self::Manager>, resp: Self::Response) -> (out: Self::Response)
        ensures
            match ext.stored() {
                Some(s) => if s.session_manager.is_changed() {
                    self.update_post(s.session_manager, resp, out)
                } else {
                    out == resp
                },
                None => out == resp,
            },
    {
        if let Some(session) = ext.session() {
            if session.changed() {
                return self.update_session(&session.session_manager, resp);
            }
        }
        resp
    }
}

} // verus!
