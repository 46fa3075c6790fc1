use session_lifecycle::install_session;
use session_lifecycle::should_persist;
use session_lifecycle::write_session;
use session_lifecycle::CounterBackend;
use session_lifecycle::FetchFailed;
use session_lifecycle::RequestExtensions;
use session_lifecycle::Session;
use session_lifecycle::SessionManager;
use session_lifecycle::SessionMiddleware;
use session_lifecycle::TrackedManager;
use session_lifecycle::UseSession;

#[test]
fn it_works() {
    assert_eq!(2 + 2, 4);
}

#[test]
fn fresh_manager_is_unchanged() {
    let m = TrackedManager::new(3u64);
    assert!(!m.changed());
    assert_eq!(*m.get_session(), 3);
}

#[test]
fn mutable_accessor_sets_changed_even_without_write() {
    let mut m = TrackedManager::new(3u64);
    let _ = m.get_mut_session();
    assert!(m.changed());
    assert_eq!(*m.get_session(), 3);
}

#[test]
fn mutable_accessor_write_updates_payload() {
    let mut m = TrackedManager::new(0u64);
    *m.get_mut_session() = 42;
    assert!(m.changed());
    assert_eq!(*m.get_session(), 42);
}

#[test]
fn reads_never_flip_changed() {
    let mut ext = RequestExtensions::<TrackedManager<u64>>::new();
    let mw = SessionMiddleware::new(CounterBackend);
    assert_eq!(mw.start(&Some(5), &mut ext), Ok(()));
    for _ in 0..100 {
        let handle = ext.session().expect("handle installed");
        assert_eq!(*handle.get_session(), 5);
        assert!(!handle.changed());
    }
    let handle = ext.session().expect("handle installed");
    assert!(!handle.changed());
}

#[test]
fn successful_fetch_installs_handle_before_handler() {
    let mut ext = RequestExtensions::<TrackedManager<u64>>::new();
    let mw = SessionMiddleware::new(CounterBackend);
    assert_eq!(mw.start(&Some(5), &mut ext), Ok(()));
    let handle = ext.session().expect("handle installed by the pre-hook");
    assert_eq!(*handle.get_session(), 5);
    assert!(!handle.changed());
}

#[test]
fn untouched_session_passes_response_through() {
    // Fetch yields a count of 0 and the handler never touches it;
    // the post-hook must leave the response untouched and skip persistence.
    let mut ext = RequestExtensions::<TrackedManager<u64>>::new();
    let mw = SessionMiddleware::new(CounterBackend);
    assert_eq!(mw.start(&Some(0), &mut ext), Ok(()));
    let handle = ext.session().expect("handle installed");
    assert_eq!(*handle.get_session(), 0);
    assert_eq!(mw.response(&ext, None), None);
    assert_eq!(mw.response(&ext, Some(7)), Some(7));
}

#[test]
fn mutated_session_is_persisted() {
    // Fetch yields a count of 0 and the handler sets it to 1; the
    // post-hook must call persist with the manager holding 1.
    let mut ext = RequestExtensions::<TrackedManager<u64>>::new();
    let mw = SessionMiddleware::new(CounterBackend);
    assert_eq!(mw.start(&Some(0), &mut ext), Ok(()));
    assert!(write_session(&mut ext, 1));
    let handle = ext.session().expect("handle installed");
    assert!(handle.changed());
    assert_eq!(mw.response(&ext, None), Some(1));
}

#[test]
fn changed_stays_set_for_rest_of_request() {
    let mut ext = RequestExtensions::<TrackedManager<u64>>::new();
    let mw = SessionMiddleware::new(CounterBackend);
    assert_eq!(mw.start(&Some(0), &mut ext), Ok(()));
    assert!(write_session(&mut ext, 1));
    for _ in 0..10 {
        let handle = ext.session().expect("handle installed");
        assert_eq!(*handle.get_session(), 1);
        assert!(handle.changed());
    }
    assert_eq!(mw.response(&ext, None), Some(1));
}

#[test]
fn failed_fetch_aborts_before_handler() {
    // The fetch fails: the handler never runs (no handle is ever
    // installed) and the error reaches the pipeline's error path.
    let mut ext = RequestExtensions::<TrackedManager<u64>>::new();
    let mw = SessionMiddleware::new(CounterBackend);
    assert_eq!(mw.start(&None, &mut ext), Err(FetchFailed));
    assert!(ext.session().is_none());
}

#[test]
fn absent_session_is_none_not_error() {
    // Nothing was fetched for this request; a handler that asks
    // for a session gets "absent", and the response passes through.
    let mut ext = RequestExtensions::<TrackedManager<u64>>::new();
    assert!(ext.session().is_none());
    assert!(ext.session_mut().is_none());
    assert!(!write_session(&mut ext, 9));
    let mw = SessionMiddleware::new(CounterBackend);
    assert_eq!(mw.response(&ext, Some(3)), Some(3));
}

#[test]
fn mutation_through_second_lookup_is_shared() {
    // The handle is shared, not copied: a write through the handle obtained
    // by one lookup is observed through every later lookup.
    let mut ext = RequestExtensions::<TrackedManager<u64>>::new();
    let mw = SessionMiddleware::new(CounterBackend);
    assert_eq!(mw.start(&Some(0), &mut ext), Ok(()));
    {
        let alias = ext.session_mut().expect("handle installed");
        *alias.get_mut_session() = 8;
    }
    let original = ext.session().expect("handle installed");
    assert!(original.changed());
    assert_eq!(*original.get_session(), 8);
}

#[test]
fn separate_requests_are_isolated() {
    // Two requests, two storages: neither observes the other's
    // mutations.
    let mw = SessionMiddleware::new(CounterBackend);
    let mut first = RequestExtensions::<TrackedManager<u64>>::new();
    let mut second = RequestExtensions::<TrackedManager<u64>>::new();
    assert_eq!(mw.start(&Some(0), &mut first), Ok(()));
    assert_eq!(mw.start(&Some(0), &mut second), Ok(()));
    assert!(write_session(&mut first, 99));
    let untouched = second.session().expect("handle installed");
    assert!(!untouched.changed());
    assert_eq!(*untouched.get_session(), 0);
    assert_eq!(mw.response(&first, None), Some(99));
    assert_eq!(mw.response(&second, None), None);
}

#[test]
fn should_persist_exactly_when_installed_and_changed() {
    let mut ext = RequestExtensions::<TrackedManager<u64>>::new();
    assert!(!should_persist(&ext));
    let mw = SessionMiddleware::new(CounterBackend);
    assert_eq!(mw.start(&Some(0), &mut ext), Ok(()));
    assert!(!should_persist(&ext));
    assert!(write_session(&mut ext, 2));
    assert!(should_persist(&ext));
}

#[test]
fn install_session_wraps_fetched_manager() {
    let mut ext = RequestExtensions::<TrackedManager<u64>>::new();
    let r = install_session(&mut ext, Ok::<_, FetchFailed>(TrackedManager::new(6)));
    assert_eq!(r, Ok(()));
    assert_eq!(*ext.session().expect("installed").get_session(), 6);
}

#[test]
fn install_session_propagates_fetch_error() {
    let mut ext = RequestExtensions::<TrackedManager<u64>>::new();
    let r = install_session(&mut ext, Err::<TrackedManager<u64>, _>(FetchFailed));
    assert_eq!(r, Err(FetchFailed));
    assert!(ext.session().is_none());
}

#[test]
fn handle_wraps_given_manager() {
    let mut s = Session::new(TrackedManager::new(4u64));
    assert!(!s.changed());
    assert_eq!(*s.get_session(), 4);
    *s.get_mut_session() = 5;
    assert!(s.changed());
    assert_eq!(*s.get_session(), 5);
}
