//! Daemon-lifecycle reporting: starting, ready, exiting.
//!
//! The process tells its surroundings when it starts, when it is listening
//! and when it has drained. How that is delivered depends on one explicitly
//! configured reporter — plain console logging, a syslog daemon, or a
//! service manager that takes readiness and stopping notifications — chosen
//! once at startup and carried as a field, never as a global flag. This type
//! decides, for each lifecycle step, which notification is owed; emitting it
//! (the logging backend, the notification socket) is the collaborator's job.

use vstd::prelude::*;

verus! {

/// The reporting backend selected at startup.
#[derive(Clone, Copy, Debug, PartialEq, Eq, Structural)]
pub enum ReporterKind {
    /// Plain console logging.
    Console,
    /// A syslog daemon: log lines, flushed on exit.
    SysLogDaemon,
    /// A service manager: readiness and stopping notifications instead of
    /// log lines.
    ServiceManager,
}

/// The lifecycle steps, in the order they may happen.
#[derive(Clone, Copy, Debug, PartialEq, Eq, Structural)]
pub enum LifecyclePhase {
    Created,
    Started,
    Ready,
    Exiting,
}

/// A notification the collaborator must emit.
#[derive(Clone, Copy, Debug, PartialEq, Eq, Structural)]
pub enum LifecycleNote {
    /// Log that the server is starting.
    LogStarting,
    /// Log that the server is ready.
    LogReady,
    /// Log that the server is exiting.
    LogExiting,
    /// Tell the service manager the server is ready.
    NotifyReady,
    /// Tell the service manager the server is stopping.
    NotifyStopping,
}

pub struct Lifecycle {
    kind: ReporterKind,
    phase: LifecyclePhase,
}

impl Lifecycle {
    pub closed spec fn kind(self) -> ReporterKind {
        self.kind
    }

    pub closed spec fn phase(self) -> LifecyclePhase {
        self.phase
    }

    pub fn new(kind: ReporterKind) -> (l: Lifecycle)
        ensures
            l.kind() == kind,
            l.phase() == LifecyclePhase::Created,
    {
        Lifecycle { kind, phase: LifecyclePhase::Created }
    }

    /// The process is starting, before it accepts anything. A service
    /// manager gets no message here (its journal shows the start itself);
    /// the logging reporters announce the start.
    pub fn start(&mut self) -> (note: Option<LifecycleNote>)
        requires
            old(self).phase() == LifecyclePhase::Created,
        ensures
            final(self).kind() == old(self).kind(),
            final(self).phase() == LifecyclePhase::Started,
            note == (if old(self).kind() == ReporterKind::ServiceManager {
                Option::<LifecycleNote>::None
            } else {
                Some(LifecycleNote::LogStarting)
            }),
    {
        self.phase = LifecyclePhase::Started;
        match self.kind {
            ReporterKind::ServiceManager => None,
            _ => Some(LifecycleNote::LogStarting),
        }
    }

    /// The server is listening. A service manager is notified of readiness;
    /// the logging reporters log it.
    pub fn ready(&mut self) -> (note: LifecycleNote)
        requires
            old(self).phase() == LifecyclePhase::Started,
        ensures
            final(self).kind() == old(self).kind(),
            final(self).phase() == LifecyclePhase::Ready,
            note == (if old(self).kind() == ReporterKind::ServiceManager {
                LifecycleNote::NotifyReady
            } else {
                LifecycleNote::LogReady
            }),
    {
        self.phase = LifecyclePhase::Ready;
        match self.kind {
            ReporterKind::ServiceManager => LifecycleNote::NotifyReady,
            _ => LifecycleNote::LogReady,
        }
    }

    /// The server has fully drained and is about to exit. A service manager
    /// is notified of stopping; the logging reporters log it. The reporters
    /// that buffer (syslog, service manager) owe a flush afterwards.
    pub fn exiting(&mut self) -> (note: LifecycleNote)
        requires
            old(self).phase() == LifecyclePhase::Ready,
        ensures
            final(self).kind() == old(self).kind(),
            final(self).phase() == LifecyclePhase::Exiting,
            note == (if old(self).kind() == ReporterKind::ServiceManager {
                LifecycleNote::NotifyStopping
            } else {
                LifecycleNote::LogExiting
            }),
    {
        self.phase = LifecyclePhase::Exiting;
        match self.kind {
            ReporterKind::ServiceManager => LifecycleNote::NotifyStopping,
            _ => LifecycleNote::LogExiting,
        }
    }

    /// Whether this reporter's backend buffers and must be flushed when
    /// exiting.
    pub fn flush_on_exit(&self) -> (r: bool)
        ensures
            r == (self.kind() != ReporterKind::Console),
    {
        !matches!(self.kind, ReporterKind::Console)
    }
}

} // verus!
