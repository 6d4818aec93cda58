use audioipc::Error;
use audioipc::PlatformHandle;
use audioipc::reactor::CoreThread;
use audioipc::reactor::Handoff;
use audioipc::reactor::new_client_handle;
use audioipc::reactor::run;
use audioipc::reactor::server_platform_init;

#[test]
fn handoff_signals_only_after_registration() {
    let mut h = Handoff::submit();
    assert!(!h.complete_wait());
    h.register();
    assert!(!h.complete_wait());
    h.signal();
    assert!(h.complete_wait());
}

#[test]
fn run_spawns_both_reactors() {
    let w = run(Ok(CoreThread::started()), Ok(CoreThread::started()))
        .expect("both spawns succeeded");
    assert_eq!(w.core_thread, CoreThread::started());
    assert_eq!(w.callback_thread, CoreThread::started());
}

#[test]
fn run_reports_first_spawn_failure() {
    assert_eq!(
        run(Err(Error::Transport), Ok(CoreThread::started())).err(),
        Some(Error::Transport)
    );
    assert_eq!(
        run(Ok(CoreThread::started()), Err(Error::Cancelled)).err(),
        Some(Error::Cancelled)
    );
}

#[test]
fn new_client_returns_handle_after_handoff() {
    let mut h = Handoff::submit();
    h.register();
    h.signal();
    assert_eq!(new_client_handle(Ok(PlatformHandle::new(5)), &h), 5);
}

#[test]
fn new_client_returns_sentinel_on_failure() {
    let h = Handoff::submit();
    assert_eq!(new_client_handle(Err(Error::Transport), &h), -1);
}

#[test]
fn platform_init_is_a_no_op_here() {
    server_platform_init();
}
