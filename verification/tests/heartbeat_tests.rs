use ws_session::heartbeat::{
    HeartbeatAction, HeartbeatConfig, CLIENT_TIMEOUT_MS, HEARTBEAT_INTERVAL_MS,
};
use ws_session::session::{Frame, WsSession};

#[test]
fn default_config_uses_standard_timing() {
    let c = HeartbeatConfig::default();
    assert_eq!(c.interval_ms, HEARTBEAT_INTERVAL_MS);
    assert_eq!(c.timeout_ms, CLIENT_TIMEOUT_MS);
    assert_eq!(c.interval_ms, 5000);
    assert_eq!(c.timeout_ms, 10000);
}

#[test]
fn config_new_keeps_the_given_timing() {
    let c = HeartbeatConfig::new(100, 250);
    assert_eq!(c.interval_ms, 100);
    assert_eq!(c.timeout_ms, 250);
}

#[test]
fn silent_peer_is_terminated_without_a_ping() {
    let c = HeartbeatConfig::default();
    let s = WsSession::new(0, 1000);
    // silence strictly longer than the timeout: terminate, no ping
    let a = s.hb(&c, 1000 + c.timeout_ms + 1);
    assert_eq!(a, HeartbeatAction::Terminate);
    assert_ne!(a, HeartbeatAction::Ping);
}

#[test]
fn silence_up_to_the_timeout_is_tolerated() {
    let c = HeartbeatConfig::default();
    let s = WsSession::new(0, 1000);
    // exactly the timeout is not yet an eviction
    assert_eq!(s.hb(&c, 1000 + c.timeout_ms), HeartbeatAction::Ping);
    assert_eq!(s.hb(&c, 1000), HeartbeatAction::Ping);
}

#[test]
fn last_seen_in_the_future_counts_as_no_silence() {
    let c = HeartbeatConfig::default();
    let s = WsSession::new(0, 50000);
    assert_eq!(s.hb(&c, 10), HeartbeatAction::Ping);
}

#[test]
fn peer_answering_every_ping_is_never_terminated() {
    let c = HeartbeatConfig::default();
    let start = 1_000u64;
    let mut s = WsSession::new(0, start);
    let mut now = start;
    for round in 0..100u64 {
        // the monitor ticks one interval after the previous event
        now += c.interval_ms;
        assert_eq!(s.hb(&c, now), HeartbeatAction::Ping, "round {round}");
        // the peer's pong arrives within the interval and refreshes hb
        let pong_at = now + (round % 1000);
        let acts = s.handle(Ok(Frame::Pong(Vec::new())), pong_at);
        assert!(acts.is_empty());
        assert_eq!(s.hb, pong_at);
        now = pong_at;
    }
}

#[test]
fn peer_that_stops_answering_is_dropped_on_a_later_tick() {
    let c = HeartbeatConfig::default();
    let mut s = WsSession::new(0, 0);
    // one healthy round
    let acts = s.handle(Ok(Frame::Pong(Vec::new())), 4_000);
    assert!(acts.is_empty());
    assert_eq!(s.hb(&c, 9_000), HeartbeatAction::Ping);
    // then silence: ticks keep coming every interval, the peer says nothing
    assert_eq!(s.hb(&c, 14_000), HeartbeatAction::Ping);
    assert_eq!(s.hb(&c, 19_000), HeartbeatAction::Terminate);
}
