use vstd::prelude::*;

use crate::manager::SessionManager;

verus! {

/// One handler interaction with the session, observed at the level of
/// manager values.  Every accessor that only reads takes a shared borrow, so
/// a read step leaves the manager exactly as it was; a step through the
/// mutable accessor leaves a manager that reports itself changed (whatever
/// payload was written -- the mutable accessor guarantees the flag even when
/// nothing is written through it).
pub open spec fn handler_step<M: SessionManager>(wrote: bool, before: M, after: M) -> bool {
    if wrote {
        after.is_changed()
    } else {
        after == before
    }
}

/// A handler's whole run against one session handle: `states[0]` is the
/// manager as installed by the pre-handler hook, and `states[i + 1]` follows
/// `states[i]` by one access, mutable exactly when `writes[i]` holds.
pub open spec fn handler_run<M: SessionManager>(states: Seq<M>, writes: Seq<bool>) -> bool {
    &&& states.len() == writes.len() + 1
    &&& forall|i: int|
        0 <= i < writes.len() ==> #[trigger] handler_step(writes[i], states[i], states[i + 1])
}

/// The changed flag is monotonic: once a manager reports mutation, no amount
/// of further handler activity -- reads or writes -- can reset it within the
/// manager's lifetime.
pub proof fn lemma_changed_monotonic<M: SessionManager>(states: Seq<M>, writes: Seq<bool>)
    requires
        handler_run(states, writes),
        states.first().is_changed(),
    ensures
        states.last().is_changed(),
    decreases writes.len(),
{
    if writes.len() > 0 {
        assert(handler_run(states.drop_last(), writes.drop_last()));
        lemma_changed_monotonic(states.drop_last(), writes.drop_last());
        assert(handler_step(
            writes[writes.len() - 1],
            states[states.len() - 2],
            states[states.len() - 1],
        ));
    }
}

/// Read access is idempotent: a run in which the handler never uses the
/// mutable accessor leaves the manager -- payload and changed flag alike --
/// exactly as the pre-handler hook installed it.  In particular a freshly
/// loaded, unchanged session still reports itself unchanged at post-hook
/// time, and the persistence step is skipped.
pub proof fn lemma_reads_preserve_manager<M: SessionManager>(states: Seq<M>, writes: Seq<bool>)
    requires
        handler_run(states, writes),
        forall|i: int| 0 <= i < writes.len() ==> !writes[i],
    ensures
        states.last() == states.first(),
    decreases writes.len(),
{
    if writes.len() > 0 {
        assert(handler_run(states.drop_last(), writes.drop_last()));
        lemma_reads_preserve_manager(states.drop_last(), writes.drop_last());
        assert(handler_step(
            writes[writes.len() - 1],
            states[states.len() - 2],
            states[states.len() - 1],
        ));
    }
}

/// One mutable access marks the session for the rest of the request: if any
/// step of the run went through the mutable accessor, the manager the
/// handler leaves behind reports mutation, regardless of how many reads or
/// further writes follow.
pub proof fn lemma_write_sets_changed<M: SessionManager>(states: Seq<M>, writes: Seq<bool>, i: int)
    requires
        handler_run(states, writes),
        0 <= i < writes.len(),
        writes[i],
    ensures
        states.last().is_changed(),
{
    let tail_states = states.subrange(i + 1, states.len() as int);
    let tail_writes = writes.subrange(i + 1, writes.len() as int);
    assert(handler_step(writes[i], states[i], states[i + 1]));
    assert forall|j: int| 0 <= j < tail_writes.len() implies #[trigger] handler_step(
        tail_writes[j],
        tail_states[j],
        tail_states[j + 1],
    ) by {
        assert(handler_step(writes[i + 1 + j], states[i + 1 + j], states[i + 1 + j + 1]));
    }
    assert(tail_states.first() == states[i + 1]);
    assert(tail_states.last() == states.last());
    lemma_changed_monotonic(tail_states, tail_writes);
}

} // verus!
