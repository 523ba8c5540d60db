use tcp2serial::session::{CloseReason, Session, SessionPhase, TcpDataAction};

#[test]
fn first_cycle_claims_before_reading() {
    let mut s = Session::new(1000, 0);
    assert_eq!(s.current_phase(), SessionPhase::ClaimImmediate);
    s.claim_first();
    assert_eq!(s.current_phase(), SessionPhase::Active);
    assert!(!s.idle_flag());
}

#[test]
fn framing_disabled_flushes_each_read() {
    let mut s = Session::new(1000, 0);
    s.claim_first();
    let flush = s.on_serial_data(vec![1, 2, 3]);
    assert_eq!(flush, Some(vec![1, 2, 3]));
    assert!(!s.framing_timer_armed());
    let flush = s.on_serial_data(vec![4]);
    assert_eq!(flush, Some(vec![4]));
}

#[test]
fn framing_coalesces_two_reads_into_one_write() {
    // Two serial reads inside one framing window come out as a single write.
    let mut s = Session::new(1000, 50);
    s.claim_first();
    assert_eq!(s.on_serial_data(vec![10, 11]), None);
    assert!(s.framing_timer_armed());
    assert_eq!(s.on_serial_data(vec![12]), None);
    assert!(s.framing_timer_armed());
    let flushed = s.on_framing_timeout();
    assert_eq!(flushed, vec![10, 11, 12]);
    assert!(!s.framing_timer_armed());
}

#[test]
fn full_buffer_flushes_without_waiting() {
    let mut s = Session::new(1000, 50);
    s.claim_first();
    let first: Vec<u8> = vec![7; 200];
    assert_eq!(s.on_serial_data(first), None);
    assert_eq!(s.buffer_room(), 56);
    let second: Vec<u8> = vec![8; 56];
    let flush = s.on_serial_data(second).expect("a full buffer must flush");
    let mut expected: Vec<u8> = vec![7; 200];
    expected.extend(std::iter::repeat(8).take(56));
    assert_eq!(flush, expected);
    assert_eq!(s.buffer_room(), 256);
}

#[test]
fn tcp_data_forwards_and_clears_idle() {
    let mut s = Session::new(1000, 0);
    s.claim_first();
    s.on_switch_timeout();
    assert!(s.idle_flag());
    let act = s.on_tcp_data(vec![65, 66]);
    assert_eq!(act, TcpDataAction::Forward);
    assert!(!s.idle_flag());
    assert_eq!(s.current_phase(), SessionPhase::Active);
}

#[test]
fn serial_data_does_not_clear_idle() {
    let mut s = Session::new(1000, 0);
    s.claim_first();
    s.on_switch_timeout();
    assert!(s.idle_flag());
    let _ = s.on_serial_data(vec![1]);
    assert!(s.idle_flag());
}

#[test]
fn idle_contention_yields_lease() {
    let mut s = Session::new(1000, 50);
    s.claim_first();
    assert_eq!(s.on_serial_data(vec![42]), None);
    s.on_switch_timeout();
    let flush = s.on_contended_while_idle();
    // The pending coalesced byte goes out before the lease is yielded.
    assert_eq!(flush, Some(vec![42]));
    assert_eq!(s.current_phase(), SessionPhase::AwaitData);
}

#[test]
fn await_data_reacquires_on_tcp_bytes() {
    let mut s = Session::new(1000, 0);
    s.claim_first();
    s.on_switch_timeout();
    assert_eq!(s.on_contended_while_idle(), None);
    assert_eq!(s.current_phase(), SessionPhase::AwaitData);
    let act = s.on_tcp_data(vec![1]);
    assert_eq!(act, TcpDataAction::AcquireThenForward);
    assert_eq!(s.current_phase(), SessionPhase::Active);
}

#[test]
fn tcp_eof_closes_gracefully() {
    let mut s = Session::new(1000, 50);
    s.claim_first();
    assert_eq!(s.on_serial_data(vec![5, 6]), None);
    let flush = s.on_tcp_eof();
    assert_eq!(flush, Some(vec![5, 6]));
    assert_eq!(s.current_phase(), SessionPhase::Closed(CloseReason::PeerClosed));
}

#[test]
fn transport_error_closes_as_failure() {
    let mut s = Session::new(1000, 0);
    s.claim_first();
    s.on_transport_error();
    assert_eq!(
        s.current_phase(),
        SessionPhase::Closed(CloseReason::TransportFailed)
    );
}

#[test]
fn single_full_read_flushes_immediately() {
    let mut s = Session::new(1000, 50);
    s.claim_first();
    let data: Vec<u8> = vec![9; 256];
    let flush = s.on_serial_data(data.clone());
    assert_eq!(flush, Some(data));
    assert!(!s.framing_timer_armed());
}

#[test]
fn zero_length_serial_read_is_harmless() {
    let mut s = Session::new(1000, 0);
    s.claim_first();
    assert_eq!(s.on_serial_data(Vec::new()), Some(Vec::new()));

    let mut buffered = Session::new(1000, 50);
    buffered.claim_first();
    assert_eq!(buffered.on_serial_data(Vec::new()), None);
    assert!(buffered.framing_timer_armed());
    assert_eq!(buffered.on_framing_timeout(), Vec::<u8>::new());
}

#[test]
fn each_read_rearms_framing_window() {
    let mut s = Session::new(1000, 50);
    s.claim_first();
    assert_eq!(s.on_serial_data(vec![1]), None);
    assert_eq!(s.on_serial_data(vec![2]), None);
    assert_eq!(s.on_serial_data(vec![3]), None);
    assert!(s.framing_timer_armed());
    assert_eq!(s.on_framing_timeout(), vec![1, 2, 3]);
}

#[test]
fn round_trip_keeps_bytes_in_order() {
    // Every byte read from the serial side reaches the TCP side exactly
    // once, in order, however the flushes are grouped.
    let mut s = Session::new(1000, 50);
    s.claim_first();
    let mut tcp_out: Vec<u8> = Vec::new();
    let mut serial_in: Vec<u8> = Vec::new();

    for chunk in [vec![104, 101], vec![108, 108, 111]] {
        serial_in.extend(&chunk);
        if let Some(f) = s.on_serial_data(chunk) {
            tcp_out.extend(f);
        }
    }
    tcp_out.extend(s.on_framing_timeout());

    for chunk in [vec![119, 111]] {
        serial_in.extend(&chunk);
        if let Some(f) = s.on_serial_data(chunk) {
            tcp_out.extend(f);
        }
    }
    if let Some(f) = s.on_tcp_eof() {
        tcp_out.extend(f);
    }
    assert_eq!(tcp_out, serial_in);
}
