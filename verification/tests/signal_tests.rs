use render_loop::signal::Signal;

#[test]
fn completed_sentinel_is_ready() {
    assert!(Signal::completed().is_ready());
}

#[test]
fn pending_signal_is_not_ready() {
    assert!(!Signal::pending().is_ready());
}

#[test]
fn join_completes_when_both_complete() {
    assert!(Signal::completed().join(Signal::completed()).is_ready());
    assert!(!Signal::completed().join(Signal::pending()).is_ready());
    assert!(!Signal::pending().join(Signal::completed()).is_ready());
    assert!(!Signal::pending().join(Signal::pending()).is_ready());
}

#[test]
fn waiting_on_ready_signal_changes_nothing() {
    let mut s = Signal::completed();
    s.wait();
    assert!(s.is_ready());
}

#[test]
fn wait_makes_pending_signal_ready() {
    let mut s = Signal::pending();
    s.wait();
    assert!(s.is_ready());
}
