use protoqueue::frame::Frame;
use protoqueue::session::{
    Session, SessionState, DEFAULT_PROBE_INTERVAL, DEFAULT_SILENCE_TIMEOUT,
};

fn active_session(now: u64) -> Session {
    let mut s = Session::with_defaults(now);
    s.on_activate(now);
    s
}

#[test]
fn defaults_are_five_and_ten() {
    let s = Session::with_defaults(3);
    assert_eq!(DEFAULT_PROBE_INTERVAL, 5);
    assert_eq!(DEFAULT_SILENCE_TIMEOUT, 10);
    assert_eq!(s.probe_interval, 5);
    assert_eq!(s.silence_timeout, 10);
    assert_eq!(s.last_liveness, 3);
    assert_eq!(s.state, SessionState::Created);
}

#[test]
fn new_stores_configuration() {
    let s = Session::new(7, 2, 9);
    assert_eq!(s.probe_interval, 2);
    assert_eq!(s.silence_timeout, 9);
    assert_eq!(s.last_liveness, 7);
    assert_eq!(s.state, SessionState::Created);
}

#[test]
fn activation_records_liveness() {
    let mut s = Session::with_defaults(0);
    s.on_activate(4);
    assert_eq!(s.state, SessionState::Active);
    assert_eq!(s.last_liveness, 4);
}

#[test]
fn echoes_text_unchanged() {
    let mut s = active_session(0);
    let reply = s.on_message(Frame::Text(String::from("hello world")), 1);
    assert_eq!(reply, Some(Frame::Text(String::from("hello world"))));
    assert_eq!(s.state, SessionState::Active);
    assert_eq!(s.last_liveness, 0);
}

#[test]
fn echoes_empty_text() {
    let mut s = active_session(0);
    let reply = s.on_message(Frame::Text(String::new()), 1);
    assert_eq!(reply, Some(Frame::Text(String::new())));
}

#[test]
fn echoes_binary_unchanged() {
    let mut s = active_session(0);
    let reply = s.on_message(Frame::Binary(vec![0, 255, 7, 42]), 2);
    assert_eq!(reply, Some(Frame::Binary(vec![0, 255, 7, 42])));
    assert_eq!(s.state, SessionState::Active);
    assert_eq!(s.last_liveness, 0);
}

#[test]
fn probe_request_acknowledged_with_same_payload() {
    let mut s = active_session(0);
    let reply = s.on_message(Frame::ProbeRequest(vec![9, 8, 7]), 3);
    assert_eq!(reply, Some(Frame::ProbeAck(vec![9, 8, 7])));
    assert_eq!(s.last_liveness, 3);
    assert_eq!(s.state, SessionState::Active);
}

#[test]
fn probe_ack_records_liveness_silently() {
    let mut s = active_session(0);
    let reply = s.on_message(Frame::ProbeAck(vec![]), 6);
    assert_eq!(reply, None);
    assert_eq!(s.last_liveness, 6);
    assert_eq!(s.state, SessionState::Active);
}

#[test]
fn liveness_never_decreases_across_events() {
    let mut s = active_session(0);
    let mut previous: u64 = s.last_liveness;
    s.on_message(Frame::ProbeAck(vec![]), 2);
    assert!(s.last_liveness >= previous);
    previous = s.last_liveness;
    s.on_message(Frame::Text(String::from("data")), 3);
    assert!(s.last_liveness >= previous);
    previous = s.last_liveness;
    s.on_tick(4);
    assert!(s.last_liveness >= previous);
    previous = s.last_liveness;
    s.on_message(Frame::ProbeRequest(vec![1]), 8);
    assert!(s.last_liveness >= previous);
    previous = s.last_liveness;
    s.on_transport_error();
    assert!(s.last_liveness >= previous);
}

#[test]
fn tick_within_timeout_sends_probe() {
    let mut s = active_session(0);
    let probe = s.on_tick(5);
    assert_eq!(probe, Some(Frame::ProbeRequest(Vec::new())));
    assert_eq!(s.state, SessionState::Active);
}

#[test]
fn tick_at_exact_timeout_still_sends_probe() {
    let mut s = active_session(0);
    let probe = s.on_tick(10);
    assert_eq!(probe, Some(Frame::ProbeRequest(Vec::new())));
    assert_eq!(s.state, SessionState::Active);
}

#[test]
fn tick_past_timeout_closes_without_probe() {
    let mut s = active_session(0);
    let probe = s.on_tick(11);
    assert_eq!(probe, None);
    assert_eq!(s.state, SessionState::Closed);
    assert_eq!(s.on_tick(16), None);
    assert_eq!(s.state, SessionState::Closed);
}

#[test]
fn stale_tick_before_last_liveness_sends_probe() {
    let mut s = active_session(0);
    s.on_message(Frame::ProbeAck(vec![]), 20);
    let probe = s.on_tick(19);
    assert_eq!(probe, Some(Frame::ProbeRequest(Vec::new())));
    assert_eq!(s.state, SessionState::Active);
}

#[test]
fn fresh_acks_keep_session_open() {
    let mut s = active_session(0);
    let mut t: u64 = 0;
    let mut sent: usize = 0;
    while t < 100 {
        t += 5;
        let probe = s.on_tick(t);
        assert_eq!(probe, Some(Frame::ProbeRequest(Vec::new())));
        sent += 1;
        assert_eq!(s.on_message(Frame::ProbeAck(vec![]), t), None);
    }
    assert_eq!(s.state, SessionState::Active);
    assert_eq!(sent, 20);
}

#[test]
fn close_request_closes_and_discards_reason() {
    let mut s = active_session(0);
    let reply = s.on_message(Frame::Close(Some(String::from("goodbye"))), 1);
    assert_eq!(reply, None);
    assert_eq!(s.state, SessionState::Closed);
}

#[test]
fn close_is_idempotent() {
    let mut s = active_session(0);
    assert_eq!(s.on_message(Frame::Close(None), 1), None);
    let snapshot = s;
    assert_eq!(s.on_message(Frame::Close(Some(String::from("again"))), 2), None);
    assert_eq!(s, snapshot);
    s.on_transport_error();
    assert_eq!(s, snapshot);
    assert_eq!(s.on_message(Frame::Text(String::from("late")), 3), None);
    assert_eq!(s, snapshot);
    assert_eq!(s.on_tick(99), None);
    assert_eq!(s, snapshot);
}

#[test]
fn transport_error_closes_like_close() {
    let mut s = active_session(0);
    s.on_transport_error();
    assert_eq!(s.state, SessionState::Closed);
    let snapshot = s;
    s.on_transport_error();
    assert_eq!(s, snapshot);
    assert_eq!(s.on_message(Frame::ProbeRequest(vec![1]), 5), None);
    assert_eq!(s, snapshot);
}

#[test]
fn created_session_ignores_frames() {
    let mut s = Session::with_defaults(0);
    assert_eq!(s.on_message(Frame::Text(String::from("early")), 1), None);
    assert_eq!(s.on_tick(2), None);
    assert_eq!(s.state, SessionState::Created);
    assert_eq!(s.last_liveness, 0);
}

#[test]
fn heartbeat_scenario() {
    // Start at t=0 with probe interval 5 and silence timeout 10.
    let mut s = Session::with_defaults(0);
    s.on_activate(0);
    // t=5: elapsed 5 <= 10, probe goes out.
    assert_eq!(s.on_tick(5), Some(Frame::ProbeRequest(Vec::new())));
    // t=7: the peer acknowledges.
    assert_eq!(s.on_message(Frame::ProbeAck(vec![]), 7), None);
    assert_eq!(s.last_liveness, 7);
    // t=10: elapsed 3 <= 10, probe goes out.
    assert_eq!(s.on_tick(10), Some(Frame::ProbeRequest(Vec::new())));
    // The peer sends nothing further.
    // t=15: elapsed 8 <= 10, probe goes out.
    assert_eq!(s.on_tick(15), Some(Frame::ProbeRequest(Vec::new())));
    // t=20: elapsed 13 > 10, the session closes and no probe goes out.
    assert_eq!(s.on_tick(20), None);
    assert_eq!(s.state, SessionState::Closed);
    // No later tick sends anything.
    assert_eq!(s.on_tick(25), None);
}
