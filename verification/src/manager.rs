use vstd::prelude::*;

verus! {

/// The capability a session value offers to the rest of the pipeline: read
/// access to a payload, mutable access to it, and a report of whether the
/// payload has been touched mutably since the manager was created.
///
/// The `changed` flag is monotonic within one manager's lifetime: the trait
/// offers no operation that resets it, and the mutable accessor is required to
/// set it.  The middleware decides whether to persist *after* the handler has
/// run, based solely on this flag, so a resettable flag could let a late read
/// mask an earlier mutation.
pub trait SessionManager: Sized {
    /// The session payload's shape; chosen by the implementer.
    type SessionData;

    /// The payload this manager currently holds.
    spec fn data(&self) -> Self::SessionData;

    /// Whether the payload has been exposed for mutation since creation.
    spec fn is_changed(&self) -> bool;

    /// Read access to the payload.  Takes `&self`, so it can change nothing:
    /// any number of reads leaves the manager, and with it the changed flag,
    /// exactly as it was.
    fn get_session(&self) -> (d: &Self::SessionData)
        ensures
            *d == self.data(),
    ;

    /// Mutable access to the payload.  Whatever the caller writes through the
    /// returned reference becomes the manager's payload, and the manager
    /// reports itself changed from this call on -- even if nothing is written.
    fn get_mut_session(&mut self) -> (d: &mut Self::SessionData)
        ensures
            *d == old(self).data(),
            final(self).data() == *final(d),
            final(self).is_changed(),
    ;

    /// Whether the payload has been exposed for mutation since creation.
    fn changed(&self) -> (c: bool)
        ensures
            c == self.is_changed(),
    ;
}

/// The plain change-tracking manager: a payload next to a dirty flag.  The
/// flag starts `false` and is set, forever, by the first mutable access.
pub struct TrackedManager<D> {
    data: D,
    dirty: bool,
}

impl<D> TrackedManager<D> {
    /// A freshly loaded manager holds the given payload and is not yet
    /// considered changed.
    pub fn new(data: D) -> (m: Self)
        ensures
            m.data() == data,
            !m.is_changed(),
    {
        TrackedManager { data, dirty: false }
    }
}

impl<D> SessionManager for TrackedManager<D> {
    type SessionData = D;

    closed spec fn data(&self) -> D {
        self.data
    }

    closed spec fn is_changed(&self) -> bool {
        self.dirty
    }

    fn get_session(&self) -> (d: &D) {
        &self.data
    }

    fn get_mut_session(&mut self) -> (d: &mut D) {
        self.dirty = true;
        &mut self.data
    }

    fn changed(&self) -> (c: bool) {
        self.dirty
    }
}

} // verus!
