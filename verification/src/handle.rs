use vstd::prelude::*;

use crate::manager::SessionManager;

verus! {

/// The per-request handle binding one request to one in-flight session
/// manager.  Exactly one handle exists per request (the request-scoped
/// storage holds at most one); handler code reaches it by borrowing from
/// that storage, so every reader and writer observes the same manager.
pub struct Session<M> {
    pub session_manager: M,
}

impl<M: SessionManager> Session<M> {
    /// Wrap a freshly fetched manager into a handle.
    pub fn new(session_manager: M) -> (s: Self)
        ensures
            s.session_manager == session_manager,
    {
        Session { session_manager }
    }

    /// Whether the wrapped manager reports mutation.
    pub fn changed(&self) -> (c: bool)
        ensures
            c == self.session_manager.is_changed(),
    {
        self.session_manager.changed()
    }

    /// Read access to the payload, delegated to the manager.  Takes `&self`:
    /// no number of reads can alter the manager or its changed flag.
    pub fn get_session(&self) -> (d: &M::SessionData)
        ensures
            *d == self.session_manager.data(),
    {
        self.session_manager.get_session()
    }

    /// Mutable access to the payload, delegated to the manager.  From this
    /// call on the handle reports itself changed.
    pub fn get_mut_session(&mut self) -> (d: &mut M::SessionData)
        ensures
            *d == old(self).session_manager.data(),
            final(self).session_manager.data() == *final(d),
            final(self).session_manager.is_changed(),
    {
        self.session_manager.get_mut_session()
    }
}

/// Request-scoped storage: owned by one request/response exchange, holding at
/// most one session handle for the manager type the middleware was set up
/// with, for the lifetime of that single request.
pub struct RequestExtensions<M> {
    slot: Option<Session<M>>,
}

/// Typed lookup of the session handle in request-scoped storage.  Absence --
/// nothing was fetched for this request -- is the normal no-session case, not
/// an error: the lookup returns none.
pub trait UseSession<M: SessionManager>: Sized {
    /// The handle currently installed, if any.
    spec fn stored(&self) -> Option<Session<M>>;

    /// Look up the installed handle for reading.  Returns a borrow of the
    /// stored handle itself, so every caller observes the same manager.
    fn session(&self) -> (h: Option<&Session<M>>)
        ensures
            match h {
                Some(r) => self.stored() == Some(*r),
                None => self.stored() is None,
            },
    ;

    /// Look up the installed handle for writing.  Mutations made through the
    /// returned borrow become visible to everything that reads the storage
    /// afterwards -- sharing, not copying.
    fn session_mut(&mut self) -> (h: Option<&mut Session<M>>)
        ensures
            match old(self).stored() {
                None => final(self).stored() is None && h.is_none(),
                Some(s) => h.is_some() && *h.unwrap() == s
                    && final(self).stored() == Some(*final(h.unwrap())),
            },
    ;
}

impl<M: SessionManager> RequestExtensions<M> {
    /// Fresh storage for a request no session has been fetched for.
    pub fn new() -> (e: Self)
        ensures
            e.stored() is None,
    {
        RequestExtensions { slot: None }
    }

    /// Install a handle; the pre-handler hook calls this exactly once per
    /// request, after the backend's fetch succeeds.
    pub fn insert(&mut self, s: Session<M>)
        ensures
            final(self).stored() == Some(s),
    {
        self.slot = Some(s);
    }
}

/// Write a payload through the handle looked up in request-scoped storage,
/// as a handler would.  The handle obtained from the lookup shares the
/// stored manager rather than copying it, so the write is observable through
/// every later lookup from the same storage: afterwards the stored manager
/// holds the written payload and reports itself changed.  With no handle
/// installed nothing is written and the storage stays empty.
pub fn write_session<M: SessionManager>(ext: &mut RequestExtensions<M>, data: M::SessionData) -> (wrote: bool)
    ensures
        match old(ext).stored() {
            None => !wrote && final(ext).stored() is None,
            Some(s) => wrote && (final(ext).stored() matches Some(t)
                && t.session_manager.data() == data
                && t.session_manager.is_changed()),
        },
{
    match ext.session_mut() {
        Some(handle) => {
            let payload = handle.get_mut_session();
            *payload = data;
            true
        }
        None => false,
    }
}

impl<M: SessionManager> UseSession<M> for RequestExtensions<M> {
    closed spec fn stored(&self) -> Option<Session<M>> {
        self.slot
    }

    fn session(&self) -> (h: Option<&Session<M>>) {
        self.slot.as_ref()
    }

    fn session_mut(&mut self) -> (h: Option<&mut Session<M>>) {
        self.slot.as_mut()
    }
}

} // verus!
