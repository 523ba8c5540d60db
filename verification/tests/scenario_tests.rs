use tcp2serial::arbiter::{Arbiter, HandleMode};
use tcp2serial::cancel::CancellationSignal;
use tcp2serial::session::{CloseReason, Session, SessionPhase, TcpDataAction};
use tcp2serial::supervisor::{FailurePolicy, Supervisor, SupervisorOutcome};

#[test]
fn idle_holder_hands_resource_to_contender() {
    // Client A connects and sends "AAAA"; A acquires the resource; client B
    // connects and sends "BB"; A goes idle for the switch delay; the
    // resource moves to B without disconnecting A; A regains it only after
    // sending new bytes.
    let mut arb = Arbiter::new();

    let a = arb.register();
    let mut sess_a = Session::new(1000, 0);
    arb.announce(a);
    arb.grant(a);
    sess_a.claim_first();
    assert_eq!(sess_a.on_tcp_data(b"AAAA".to_vec()), TcpDataAction::Forward);

    // B connects; its first cycle acquires unconditionally, so it announces
    // and waits while A still holds.
    let b = arb.register();
    let mut sess_b = Session::new(1000, 0);
    arb.announce(b);
    assert!(arb.contended());
    assert_eq!(arb.mode(a), HandleMode::Holding);

    // A has been idle for the switch delay and sees the contention.
    sess_a.on_switch_timeout();
    assert_eq!(sess_a.on_contended_while_idle(), None);
    assert_eq!(sess_a.current_phase(), SessionPhase::AwaitData);
    arb.release(a);

    // B acquires and forwards its pending bytes.
    arb.grant(b);
    sess_b.claim_first();
    assert_eq!(sess_b.on_tcp_data(b"BB".to_vec()), TcpDataAction::Forward);
    assert_eq!(arb.mode(b), HandleMode::Holding);

    // A was not disconnected, and regains the resource only on new bytes.
    assert_eq!(sess_a.current_phase(), SessionPhase::AwaitData);
    assert_eq!(
        sess_a.on_tcp_data(b"more".to_vec()),
        TcpDataAction::AcquireThenForward
    );
    arb.announce(a);
    assert!(arb.contended());
    sess_b.on_switch_timeout();
    assert_eq!(sess_b.on_contended_while_idle(), None);
    arb.release(b);
    arb.grant(a);
    assert_eq!(arb.mode(a), HandleMode::Holding);
}

#[test]
fn shutdown_drains_mid_transfer_holder() {
    // Shutdown arrives while A holds the lease mid-transfer: A finishes its
    // current operation (the pending bytes are flushed), releases, closes,
    // and the supervisor drains successfully.
    let mut cancel = CancellationSignal::new();
    let mut sup = Supervisor::new(FailurePolicy::Escalate);
    let mut arb = Arbiter::new();

    sup.on_accept();
    let a = arb.register();
    let mut sess_a = Session::new(1000, 50);
    arb.announce(a);
    arb.grant(a);
    sess_a.claim_first();
    assert_eq!(sess_a.on_serial_data(vec![1, 2, 3]), None);

    cancel.trigger();
    sup.on_cancel_observed();

    let flush = sess_a.on_cancelled();
    assert_eq!(flush, Some(vec![1, 2, 3]));
    assert_eq!(sess_a.current_phase(), SessionPhase::Closed(CloseReason::Cancelled));
    arb.release(a);

    sup.on_session_finished(false);
    assert!(sup.running());
    sup.on_sentinel_finished();
    assert_eq!(sup.result(), Some(SupervisorOutcome::Drained));
}
