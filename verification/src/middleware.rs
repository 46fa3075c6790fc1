use vstd::prelude::*;

use crate::backend::SessionBackend;
use crate::handle::RequestExtensions;
use crate::handle::Session;
use crate::handle::UseSession;
use crate::manager::SessionManager;

verus! {

/// Install the outcome of a backend fetch into request-scoped storage: the
/// decision step of the pre-handler hook, taking the completed fetch result
/// as its input.  A fetched manager is wrapped in a fresh handle and
/// installed; a fetch failure is propagated untouched to the surrounding
/// pipeline's error handling and installs nothing, so the handler never runs
/// with a half-loaded session.
pub fn install_session<M: SessionManager, E>(
    ext: &mut RequestExtensions<M>,
    fetched: Result<M, E>,
) -> (r: Result<(), E>)
    ensures
        match fetched {
            Ok(m) => r is Ok && final(ext).stored() == Some((Session { session_manager: m })),
            Err(e) => r == Result::<(), E>::Err(e) && *final(ext) == *old(ext),
        },
{
    match fetched {
        Ok(m) => {
            ext.insert(Session::new(m));
            Ok(())
        }
        Err(e) => Err(e),
    }
}

/// The orchestrator: owns the backend and runs the two pipeline hooks every
/// request passes through.  The pre-handler hook (`start`) fetches the
/// session and installs the handle; the post-handler hook (`response`) asks
/// the backend's policy whether to persist.
pub struct SessionMiddleware<B> {
    backend: B,
}

impl<B: SessionBackend> SessionMiddleware<B> {
    /// The backend this middleware fetches and persists through.
    pub closed spec fn backend(&self) -> B {
        self.backend
    }

    pub fn new(backend: B) -> (mw: Self)
        ensures
            mw.backend() == backend,
    {
        SessionMiddleware { backend }
    }

    /// Pre-handler hook, run once per request before any handler code.  On a
    /// successful fetch, exactly one handle -- wrapping the fetched manager,
    /// with this backend's fetch guarantee -- sits in request-scoped storage
    /// when this returns, so it is there before the handler runs.  On a
    /// failed fetch the error is propagated and the storage stays as it was:
    /// the request is aborted before the handler.
    pub fn start(&self, req: &B::Request, ext: &mut RequestExtensions<B::Manager>) -> (r: Result<(), B::Error>)
        ensures
            r is Ok ==> (final(ext).stored() matches Some(s)
                && self.backend().fetch_post(*req, s.session_manager)),
            r is Err ==> *final(ext) == *old(ext),
    {
        let fetched = self.backend.get_session(req);
        install_session(ext, fetched)
    }

    /// Post-handler hook, run once per request after the handler has fully
    /// completed: delegates the persistence decision to the backend's
    /// `response` policy.  If no handle is installed or the session was
    /// never mutated, the response passes through exactly as it came in;
    /// otherwise the outcome is the backend's persistence result for the
    /// manager the handler left behind.
    pub fn response(&self, ext: &RequestExtensions<B::Manager>, resp: B::Response) -> (out: B::Response)
        ensures
            match ext.stored() {
                Some(s) => if s.session_manager.is_changed() {
                    self.backend().update_post(s.session_manager, resp, out)
                } else {
                    out == resp
                },
                None => out == resp,
            },
    {
        self.backend.response(ext, resp)
    }
}

} // verus!
