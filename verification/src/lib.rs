//! Request-scoped session lifecycle coordination.
//!
//! A web server loads session data once per incoming request, hands it to the
//! request handler as a shared, mutably accessible value, and persists it back
//! through a storage backend after the handler finishes -- but only if the
//! handler actually changed it.  This crate is the coordination protocol
//! between those steps: fetch, use, detect change, conditionally persist.
//!
//! The pieces, leaves first:
//! - [`SessionManager`]: the capability a session value offers (read access,
//!   mutable access, and a monotonic "was it changed" flag).
//! - [`Session`]: the per-request handle wrapping one manager.
//! - [`SessionBackend`]: the pluggable fetch/persist strategy, with the
//!   default "persist only if changed" policy.
//! - [`SessionMiddleware`]: the pre-handler and post-handler pipeline hooks.

mod backend;
mod counter;
mod handle;
mod laws;
mod manager;
mod middleware;

pub use backend::should_persist;
pub use backend::SessionBackend;
pub use counter::CounterBackend;
pub use counter::FetchFailed;
pub use handle::write_session;
pub use handle::RequestExtensions;
pub use handle::Session;
pub use handle::UseSession;
pub use laws::handler_run;
pub use laws::handler_step;
pub use laws::lemma_changed_monotonic;
pub use laws::lemma_reads_preserve_manager;
pub use laws::lemma_write_sets_changed;
pub use manager::SessionManager;
pub use manager::TrackedManager;
pub use middleware::install_session;
pub use middleware::SessionMiddleware;
