use tcp2serial::cancel::CancellationSignal;
use tcp2serial::lifecycle::{Lifecycle, LifecycleNote, ReporterKind};

#[test]
fn console_reporter_logs_each_step() {
    let mut l = Lifecycle::new(ReporterKind::Console);
    assert_eq!(l.start(), Some(LifecycleNote::LogStarting));
    assert_eq!(l.ready(), LifecycleNote::LogReady);
    assert_eq!(l.exiting(), LifecycleNote::LogExiting);
    assert!(!l.flush_on_exit());
}

#[test]
fn syslog_reporter_logs_and_flushes() {
    let mut l = Lifecycle::new(ReporterKind::SysLogDaemon);
    assert_eq!(l.start(), Some(LifecycleNote::LogStarting));
    assert_eq!(l.ready(), LifecycleNote::LogReady);
    assert_eq!(l.exiting(), LifecycleNote::LogExiting);
    assert!(l.flush_on_exit());
}

#[test]
fn service_manager_reporter_notifies() {
    let mut l = Lifecycle::new(ReporterKind::ServiceManager);
    assert_eq!(l.start(), None);
    assert_eq!(l.ready(), LifecycleNote::NotifyReady);
    assert_eq!(l.exiting(), LifecycleNote::NotifyStopping);
    assert!(l.flush_on_exit());
}

#[test]
fn cancellation_trigger_is_idempotent() {
    let mut once = CancellationSignal::new();
    assert!(!once.fired());
    once.trigger();
    assert!(once.fired());

    let mut many = CancellationSignal::new();
    many.trigger();
    many.trigger();
    many.trigger();
    assert!(many.fired());
    // Triggering more than once leaves the state identical to one trigger.
    assert_eq!(once, many);
}
