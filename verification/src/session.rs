//! Per-connection session: the claim / forward / idle-detect / release cycle.
//!
//! A session bridges one TCP socket to the shared serial resource. While it
//! holds the lease it forwards bytes both ways; serial-to-TCP traffic may be
//! coalesced for up to the framing delay, TCP-to-serial traffic is written
//! through unbuffered. When the session has been idle for the switch delay
//! and another handle announces intent, it flushes, yields the lease and
//! waits for fresh TCP data before acquiring again.
//!
//! The racing of reads, timers and cancellation is the runtime's job; this
//! type holds the session state and decides every transition. Ghost fields
//! record the byte streams so the contracts can say that nothing is lost,
//! duplicated or reordered in either direction.

use vstd::prelude::*;

use crate::arbiter::{Arbiter, HandleMode, count_mode, lemma_count_mode_at_least_one,
    lemma_release_enables_waiter};

verus! {

/// Size of the fixed per-direction buffers.
pub const SER_BUF_CAPACITY: usize = 256;

/// Timing configuration, in milliseconds. A zero framing delay disables
/// coalescing: serial bytes are flushed to TCP as soon as they are read.
#[derive(Clone, Copy, Debug, PartialEq, Eq, Structural)]
pub struct SessionConfig {
    pub switch_delay: u64,
    pub framing_delay: u64,
}

/// Why a session ended.
#[derive(Clone, Copy, Debug, PartialEq, Eq, Structural)]
pub enum CloseReason {
    /// The TCP peer closed its side (zero-length read): a graceful end.
    PeerClosed,
    /// The cancellation signal fired: a graceful end.
    Cancelled,
    /// An I/O failure on the socket or the serial side.
    TransportFailed,
}

/// The session's position in its cycle.
#[derive(Clone, Copy, Debug, PartialEq, Eq, Structural)]
pub enum SessionPhase {
    /// First cycle after the connection was accepted: acquire the lease
    /// unconditionally before reading anything.
    ClaimImmediate,
    /// Holding the lease, forwarding both directions.
    Active,
    /// Holding no lease; listening only for inbound TCP bytes.
    AwaitData,
    /// Terminal.
    Closed(CloseReason),
}

/// What the runtime must do with TCP bytes the session accepted.
#[derive(Clone, Copy, Debug, PartialEq, Eq, Structural)]
pub enum TcpDataAction {
    /// Write the bytes to the serial lease already held.
    Forward,
    /// Acquire the lease first, then write the bytes to it.
    AcquireThenForward,
}

pub struct Session {
    config: SessionConfig,
    phase: SessionPhase,
    idle: bool,
    framing_armed: bool,
    ser_buf: Vec<u8>,
    /// All bytes ever read from the serial side.
    serial_seen: Ghost<Seq<u8>>,
    /// All bytes ever written to the TCP side.
    tcp_flushed: Ghost<Seq<u8>>,
    /// All bytes ever read from the TCP side.
    net_seen: Ghost<Seq<u8>>,
    /// All bytes ever written to the serial side.
    serial_written: Ghost<Seq<u8>>,
}

impl Session {
    pub closed spec fn config(self) -> SessionConfig {
        self.config
    }

    pub closed spec fn phase(self) -> SessionPhase {
        self.phase
    }

    /// The idle flag: set by the switch-delay timer, cleared by TCP data.
    pub closed spec fn is_idle(self) -> bool {
        self.idle
    }

    /// Whether a one-shot framing flush timer should currently be armed.
    pub closed spec fn framing_armed(self) -> bool {
        self.framing_armed
    }

    /// Serial bytes read but not yet written to TCP (the coalescing buffer).
    pub closed spec fn buffered(self) -> Seq<u8> {
        self.ser_buf@
    }

    pub closed spec fn serial_seen(self) -> Seq<u8> {
        self.serial_seen@
    }

    pub closed spec fn tcp_flushed(self) -> Seq<u8> {
        self.tcp_flushed@
    }

    pub closed spec fn net_seen(self) -> Seq<u8> {
        self.net_seen@
    }

    pub closed spec fn serial_written(self) -> Seq<u8> {
        self.serial_written@
    }

    /// The session owns the lease exactly while it is `Active`.
    pub open spec fn holds_lease(self) -> bool {
        self.phase() is Active
    }

    /// An incoming serial read of `added` more bytes must be flushed at once:
    /// either coalescing is disabled, or it fills the buffer.
    pub open spec fn flush_due(self, added: nat) -> bool {
        self.config().framing_delay == 0 || self.buffered().len() + added
            == SER_BUF_CAPACITY as nat
    }

    /// Session invariant. The two stream clauses are the no-loss property:
    /// what was written to TCP, followed by what is still buffered, is
    /// exactly what was read from serial, in order; and the serial side has
    /// been handed exactly the bytes read from TCP, in order.
    pub open spec fn wf(self) -> bool {
        &&& self.buffered().len() <= SER_BUF_CAPACITY as nat
        &&& (self.phase() is ClaimImmediate || self.phase() is AwaitData) ==> self.buffered().len()
            == 0
        &&& self.framing_armed() ==> (self.phase() is Active && self.config().framing_delay > 0)
        &&& !(self.phase() is Active) ==> (!self.framing_armed() && !self.is_idle())
        &&& self.config().framing_delay == 0 ==> self.buffered().len() == 0
        &&& self.tcp_flushed() + self.buffered() == self.serial_seen()
        &&& self.serial_written() == self.net_seen()
    }

    pub fn new(switch_delay: u64, framing_delay: u64) -> (s: Session)
        ensures
            s.wf(),
            s.phase() is ClaimImmediate,
            s.config() == (SessionConfig { switch_delay, framing_delay }),
            !s.is_idle(),
            !s.framing_armed(),
            s.buffered().len() == 0,
            s.serial_seen().len() == 0,
            s.tcp_flushed().len() == 0,
            s.net_seen().len() == 0,
            s.serial_written().len() == 0,
    {
        let s = Session {
            config: SessionConfig { switch_delay, framing_delay },
            phase: SessionPhase::ClaimImmediate,
            idle: false,
            framing_armed: false,
            ser_buf: Vec::new(),
            serial_seen: Ghost(Seq::empty()),
            tcp_flushed: Ghost(Seq::empty()),
            net_seen: Ghost(Seq::empty()),
            serial_written: Ghost(Seq::empty()),
        };
        proof {
            assert(s.tcp_flushed() + s.buffered() =~= s.serial_seen());
        }
        s
    }

    /// The unconditional first-cycle acquisition completed: a freshly
    /// accepted connection is assumed about to send data, so the runtime
    /// acquires before reading anything.
    pub fn claim_first(&mut self)
        requires
            old(self).wf(),
            old(self).phase() is ClaimImmediate,
        ensures
            final(self).wf(),
            final(self).phase() is Active,
            final(self).holds_lease(),
            !final(self).is_idle(),
            !final(self).framing_armed(),
            final(self).config() == old(self).config(),
            final(self).buffered() == old(self).buffered(),
            final(self).serial_seen() == old(self).serial_seen(),
            final(self).tcp_flushed() == old(self).tcp_flushed(),
            final(self).net_seen() == old(self).net_seen(),
            final(self).serial_written() == old(self).serial_written(),
    {
        self.phase = SessionPhase::Active;
    }

    /// Nonempty TCP data arrived. It is forwarded to the serial side at once,
    /// unbuffered; if the session was waiting without a lease, the lease is
    /// acquired first. Receiving TCP data clears the idle flag, so a session
    /// that keeps receiving data within each switch-delay window never
    /// becomes eligible to yield its lease to a contender.
    pub fn on_tcp_data(&mut self, data: Vec<u8>) -> (act: TcpDataAction)
        requires
            old(self).wf(),
            old(self).phase() is Active || old(self).phase() is AwaitData,
            data@.len() > 0,
        ensures
            final(self).wf(),
            final(self).phase() is Active,
            final(self).holds_lease(),
            !final(self).is_idle(),
            act == (if old(self).phase() is Active {
                TcpDataAction::Forward
            } else {
                TcpDataAction::AcquireThenForward
            }),
            final(self).net_seen() == old(self).net_seen() + data@,
            final(self).serial_written() == old(self).serial_written() + data@,
            final(self).config() == old(self).config(),
            final(self).buffered() == old(self).buffered(),
            final(self).framing_armed() == old(self).framing_armed(),
            final(self).serial_seen() == old(self).serial_seen(),
            final(self).tcp_flushed() == old(self).tcp_flushed(),
    {
        self.net_seen = Ghost(self.net_seen@ + data@);
        self.serial_written = Ghost(self.serial_written@ + data@);
        self.idle = false;
        let was_active = match self.phase {
            SessionPhase::Active => true,
            _ => false,
        };
        self.phase = SessionPhase::Active;
        if was_active {
            TcpDataAction::Forward
        } else {
            TcpDataAction::AcquireThenForward
        }
    }

    /// Bytes arrived from the serial side. If coalescing is disabled or the
    /// buffer fills, everything buffered (including these bytes) must be
    /// written to TCP now, as one write; otherwise the bytes are buffered and
    /// the one-shot framing flush timer must be (re)armed. Serial data does
    /// not clear the idle flag.
    pub fn on_serial_data(&mut self, data: Vec<u8>) -> (flush: Option<Vec<u8>>)
        requires
            old(self).wf(),
            old(self).phase() is Active,
            old(self).buffered().len() + data@.len() <= SER_BUF_CAPACITY as nat,
        ensures
            final(self).wf(),
            final(self).phase() is Active,
            final(self).is_idle() == old(self).is_idle(),
            final(self).config() == old(self).config(),
            final(self).serial_seen() == old(self).serial_seen() + data@,
            final(self).net_seen() == old(self).net_seen(),
            final(self).serial_written() == old(self).serial_written(),
            old(self).flush_due(data@.len()) ==> (flush matches Some(f) && f@ == old(self).buffered() + data@),
            old(self).flush_due(data@.len()) ==> final(self).buffered().len() == 0
                && final(self).tcp_flushed() == old(self).tcp_flushed() + old(self).buffered()
                + data@ && !final(self).framing_armed(),
            !old(self).flush_due(data@.len()) ==> flush is None,
            !old(self).flush_due(data@.len()) ==> final(self).buffered() == old(self).buffered()
                + data@ && final(self).tcp_flushed() == old(self).tcp_flushed() && final(self).framing_armed(),
    {
        let ghost pre = *self;
        let mut d = data;
        if self.config.framing_delay == 0 || self.ser_buf.len() + d.len() == SER_BUF_CAPACITY {
            let mut out = self.ser_buf.split_off(0);
            out.append(&mut d);
            self.framing_armed = false;
            self.serial_seen = Ghost(self.serial_seen@ + data@);
            self.tcp_flushed = Ghost(self.tcp_flushed@ + out@);
            proof {
                assert(self.ser_buf@ =~= Seq::<u8>::empty());
                assert(out@ == pre.buffered() + data@);
                assert(self.tcp_flushed() + self.buffered() =~= self.serial_seen());
            }
            Some(out)
        } else {
            self.ser_buf.append(&mut d);
            self.framing_armed = true;
            self.serial_seen = Ghost(self.serial_seen@ + data@);
            proof {
                assert(self.tcp_flushed() + self.buffered() =~= self.serial_seen());
            }
            None
        }
    }

    /// The framing flush timer fired: whatever is buffered goes out to TCP
    /// as one write, and the timer is disarmed.
    pub fn on_framing_timeout(&mut self) -> (flush: Vec<u8>)
        requires
            old(self).wf(),
            old(self).phase() is Active,
            old(self).framing_armed(),
        ensures
            final(self).wf(),
            final(self).phase() is Active,
            final(self).is_idle() == old(self).is_idle(),
            final(self).config() == old(self).config(),
            flush@ == old(self).buffered(),
            final(self).buffered().len() == 0,
            !final(self).framing_armed(),
            final(self).tcp_flushed() == old(self).tcp_flushed() + old(self).buffered(),
            final(self).tcp_flushed() == final(self).serial_seen(),
            final(self).serial_seen() == old(self).serial_seen(),
            final(self).net_seen() == old(self).net_seen(),
            final(self).serial_written() == old(self).serial_written(),
    {
        self.framing_armed = false;
        self.tcp_flushed = Ghost(self.tcp_flushed@ + self.ser_buf@);
        let out = self.ser_buf.split_off(0);
        proof {
            assert(self.ser_buf@ =~= Seq::<u8>::empty());
            assert(self.tcp_flushed() + self.buffered() =~= self.tcp_flushed());
        }
        out
    }

    /// The switch-delay timer fired with no intervening TCP data: the
    /// session is now idle, and from here on it additionally races the
    /// contention wait.
    pub fn on_switch_timeout(&mut self)
        requires
            old(self).wf(),
            old(self).phase() is Active,
        ensures
            final(self).wf(),
            final(self).phase() is Active,
            final(self).is_idle(),
            final(self).config() == old(self).config(),
            final(self).framing_armed() == old(self).framing_armed(),
            final(self).buffered() == old(self).buffered(),
            final(self).serial_seen() == old(self).serial_seen(),
            final(self).tcp_flushed() == old(self).tcp_flushed(),
            final(self).net_seen() == old(self).net_seen(),
            final(self).serial_written() == old(self).serial_written(),
    {
        self.idle = true;
    }

    /// Contention was observed while idle: the session flushes whatever is
    /// still buffered, yields the lease to the waiting contender and goes
    /// back to listening for TCP data. This transition exists only from the
    /// idle state: a session actively exchanging data is never asked to
    /// yield.
    pub fn on_contended_while_idle(&mut self) -> (flush: Option<Vec<u8>>)
        requires
            old(self).wf(),
            old(self).phase() is Active,
            old(self).is_idle(),
        ensures
            final(self).wf(),
            final(self).phase() is AwaitData,
            !final(self).holds_lease(),
            !final(self).is_idle(),
            !final(self).framing_armed(),
            final(self).buffered().len() == 0,
            old(self).buffered().len() > 0 ==> (flush matches Some(f) && f@ == old(self).buffered()),
            old(self).buffered().len() == 0 ==> flush is None,
            final(self).tcp_flushed() == old(self).tcp_flushed() + old(self).buffered(),
            final(self).tcp_flushed() == final(self).serial_seen(),
            final(self).config() == old(self).config(),
            final(self).serial_seen() == old(self).serial_seen(),
            final(self).net_seen() == old(self).net_seen(),
            final(self).serial_written() == old(self).serial_written(),
    {
        self.idle = false;
        self.framing_armed = false;
        self.phase = SessionPhase::AwaitData;
        self.tcp_flushed = Ghost(self.tcp_flushed@ + self.ser_buf@);
        proof {
            assert(self.tcp_flushed() + Seq::<u8>::empty() =~= self.tcp_flushed());
        }
        if self.ser_buf.len() > 0 {
            let out = self.ser_buf.split_off(0);
            proof {
                assert(self.ser_buf@ =~= Seq::<u8>::empty());
            }
            Some(out)
        } else {
            None
        }
    }

    /// The TCP peer closed its side (zero-length read): the session ends
    /// gracefully, flushing anything still buffered first.
    pub fn on_tcp_eof(&mut self) -> (flush: Option<Vec<u8>>)
        requires
            old(self).wf(),
            old(self).phase() is Active || old(self).phase() is AwaitData,
        ensures
            final(self).wf(),
            final(self).phase() == SessionPhase::Closed(CloseReason::PeerClosed),
            !final(self).holds_lease(),
            old(self).buffered().len() > 0 ==> (flush matches Some(f) && f@ == old(self).buffered()),
            old(self).buffered().len() == 0 ==> flush is None,
            final(self).tcp_flushed() == old(self).tcp_flushed() + old(self).buffered(),
            final(self).tcp_flushed() == final(self).serial_seen(),
            final(self).serial_written() == final(self).net_seen(),
            final(self).config() == old(self).config(),
            final(self).serial_seen() == old(self).serial_seen(),
            final(self).net_seen() == old(self).net_seen(),
            final(self).serial_written() == old(self).serial_written(),
    {
        self.close_gracefully(CloseReason::PeerClosed)
    }

    /// The cancellation signal fired: the session finishes its current
    /// operation, flushes anything still buffered, releases and closes.
    pub fn on_cancelled(&mut self) -> (flush: Option<Vec<u8>>)
        requires
            old(self).wf(),
            old(self).phase() is Active || old(self).phase() is AwaitData,
        ensures
            final(self).wf(),
            final(self).phase() == SessionPhase::Closed(CloseReason::Cancelled),
            !final(self).holds_lease(),
            old(self).buffered().len() > 0 ==> (flush matches Some(f) && f@ == old(self).buffered()),
            old(self).buffered().len() == 0 ==> flush is None,
            final(self).tcp_flushed() == old(self).tcp_flushed() + old(self).buffered(),
            final(self).tcp_flushed() == final(self).serial_seen(),
            final(self).serial_written() == final(self).net_seen(),
            final(self).config() == old(self).config(),
            final(self).serial_seen() == old(self).serial_seen(),
            final(self).net_seen() == old(self).net_seen(),
            final(self).serial_written() == old(self).serial_written(),
    {
        self.close_gracefully(CloseReason::Cancelled)
    }

    /// An I/O failure on either side: the session ends as a failure. Bytes
    /// still buffered can no longer be delivered and stay recorded as
    /// undelivered.
    pub fn on_transport_error(&mut self)
        requires
            old(self).wf(),
            old(self).phase() is Active || old(self).phase() is AwaitData,
        ensures
            final(self).wf(),
            final(self).phase() == SessionPhase::Closed(CloseReason::TransportFailed),
            !final(self).holds_lease(),
            !final(self).framing_armed(),
            final(self).config() == old(self).config(),
            final(self).buffered() == old(self).buffered(),
            final(self).serial_seen() == old(self).serial_seen(),
            final(self).tcp_flushed() == old(self).tcp_flushed(),
            final(self).net_seen() == old(self).net_seen(),
            final(self).serial_written() == old(self).serial_written(),
    {
        self.idle = false;
        self.framing_armed = false;
        self.phase = SessionPhase::Closed(CloseReason::TransportFailed);
    }

    fn close_gracefully(&mut self, reason: CloseReason) -> (flush: Option<Vec<u8>>)
        requires
            old(self).wf(),
            old(self).phase() is Active || old(self).phase() is AwaitData,
            reason == CloseReason::PeerClosed || reason == CloseReason::Cancelled,
        ensures
            final(self).wf(),
            final(self).phase() == SessionPhase::Closed(reason),
            old(self).buffered().len() > 0 ==> (flush matches Some(f) && f@ == old(self).buffered()),
            old(self).buffered().len() == 0 ==> flush is None,
            final(self).tcp_flushed() == old(self).tcp_flushed() + old(self).buffered(),
            final(self).tcp_flushed() == final(self).serial_seen(),
            final(self).config() == old(self).config(),
            final(self).serial_seen() == old(self).serial_seen(),
            final(self).net_seen() == old(self).net_seen(),
            final(self).serial_written() == old(self).serial_written(),
    {
        self.idle = false;
        self.framing_armed = false;
        self.phase = SessionPhase::Closed(reason);
        self.tcp_flushed = Ghost(self.tcp_flushed@ + self.ser_buf@);
        proof {
            assert(self.tcp_flushed() + Seq::<u8>::empty() =~= self.tcp_flushed());
        }
        if self.ser_buf.len() > 0 {
            let out = self.ser_buf.split_off(0);
            proof {
                assert(self.ser_buf@ =~= Seq::<u8>::empty());
            }
            Some(out)
        } else {
            None
        }
    }

    pub fn current_phase(&self) -> (p: SessionPhase)
        ensures
            p == self.phase(),
    {
        self.phase
    }

    pub fn idle_flag(&self) -> (r: bool)
        ensures
            r == self.is_idle(),
    {
        self.idle
    }

    pub fn framing_timer_armed(&self) -> (r: bool)
        ensures
            r == self.framing_armed(),
    {
        self.framing_armed
    }

    /// Free space left in the coalescing buffer: the most the serial reader
    /// may hand to `on_serial_data` next.
    pub fn buffer_room(&self) -> (n: usize)
        requires
            self.wf(),
        ensures
            n == SER_BUF_CAPACITY as nat - self.buffered().len(),
    {
        SER_BUF_CAPACITY - self.ser_buf.len()
    }
}

/// Law: round-trip without loss. In every well-formed state, the bytes
/// written to TCP followed by the bytes still buffered are exactly the bytes
/// read from the serial side, in order — nothing dropped, duplicated or
/// reordered, coalescing only regroups them — and the serial side has been
/// handed exactly the bytes read from TCP, in order. Once the buffer is
/// empty (after any flush, and on every graceful exit), the two sides match
/// exactly.
pub proof fn lemma_no_byte_loss(s: Session)
    requires
        s.wf(),
    ensures
        s.tcp_flushed() + s.buffered() == s.serial_seen(),
        s.serial_written() == s.net_seen(),
        s.buffered().len() == 0 ==> s.tcp_flushed() == s.serial_seen(),
{
    if s.buffered().len() == 0 {
        assert(s.tcp_flushed() + s.buffered() =~= s.tcp_flushed());
    }
}

/// Law: framing coalescing. With coalescing enabled, a read that neither
/// fills the buffer nor finds it disabled is buffered without any TCP write;
/// two such reads within one framing window therefore leave the buffer
/// holding both payloads in order and write nothing, so the single write
/// that flushes next — the framing timeout after a gap, or the buffer
/// filling — carries both reads as one unit.
pub proof fn lemma_framing_coalesces(
    s0: Session,
    s1: Session,
    s2: Session,
    d1: Seq<u8>,
    d2: Seq<u8>,
)
    requires
        s0.buffered().len() == 0,
        s1.buffered() == s0.buffered() + d1,
        s1.tcp_flushed() == s0.tcp_flushed(),
        s2.buffered() == s1.buffered() + d2,
        s2.tcp_flushed() == s1.tcp_flushed(),
    ensures
        s2.buffered() == d1 + d2,
        s2.tcp_flushed() == s0.tcp_flushed(),
{
    assert(s0.buffered() + d1 =~= d1);
}

/// Law: idle handoff. Suppose handle `a`'s session holds the lease and has
/// been idle for the switch delay, and handle `b` has announced intent.
/// Then the holder's contention wait resolves (the counter is positive);
/// its contention step leaves it in `AwaitData`, holding no lease and not
/// starting a new forwarding cycle; and once it releases, no handle holds
/// the lease while `b` is still announced — granting to `b` is enabled, and
/// every grant needs an announcement, so the lease cannot bypass the
/// waiters.
pub proof fn lemma_idle_handoff(
    holder_before: Session,
    holder_after: Session,
    arb: Arbiter,
    a: int,
    b: int,
)
    requires
        holder_before.wf(),
        holder_before.phase() is Active,
        holder_before.is_idle(),
        holder_after.phase() is AwaitData,
        arb.wf(),
        arb.valid_handle(a),
        arb.valid_handle(b),
        arb.mode_of(a) == HandleMode::Holding,
        arb.mode_of(b) == HandleMode::Requesting,
    ensures
        arb.is_contended(),
        holder_before.holds_lease(),
        !holder_after.holds_lease(),
        count_mode(arb.modes().update(a, HandleMode::Idle), HandleMode::Holding) == 0,
        arb.modes().update(a, HandleMode::Idle)[b] == HandleMode::Requesting,
{
    lemma_count_mode_at_least_one(arb.modes(), b, HandleMode::Requesting);
    lemma_release_enables_waiter(arb.modes(), a, b);
}

} // verus!
