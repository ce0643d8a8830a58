use vstd::prelude::*;
use crate::session::{SessionState, WsSession, finalize};

verus! {

/// How often heartbeat pings are sent, in milliseconds.
pub const HEARTBEAT_INTERVAL_MS: u64 = 5000;

/// How long a peer may stay silent before the connection is dropped, in
/// milliseconds.
pub const CLIENT_TIMEOUT_MS: u64 = 10000;

/// Timing of the heartbeat protocol for one session.
pub struct HeartbeatConfig {
    /// Milliseconds between outbound pings.
    pub interval_ms: u64,
    /// Milliseconds of allowed silence before forced termination.
    pub timeout_ms: u64,
}

impl HeartbeatConfig {
    /// The timeout must exceed the ping interval, so at least one ping
    /// round trip fits before eviction.
    pub open spec fn wf(self) -> bool {
        0 < self.interval_ms < self.timeout_ms
    }

    /// A heartbeat configuration with the given timing.
    pub fn new(interval_ms: u64, timeout_ms: u64) -> (c: HeartbeatConfig)
        requires
            0 < interval_ms < timeout_ms,
        ensures
            c == (HeartbeatConfig { interval_ms, timeout_ms }),
            c.wf(),
    {
        HeartbeatConfig { interval_ms, timeout_ms }
    }
}

impl Default for HeartbeatConfig {
    /// The standard timing: a ping every five seconds, eviction after ten
    /// seconds of silence.
    fn default() -> (c: Self)
        ensures
            c.interval_ms == HEARTBEAT_INTERVAL_MS,
            c.timeout_ms == CLIENT_TIMEOUT_MS,
            c.wf(),
    {
        HeartbeatConfig { interval_ms: HEARTBEAT_INTERVAL_MS, timeout_ms: CLIENT_TIMEOUT_MS }
    }
}

/// What one tick of the heartbeat monitor decides to do.
#[derive(PartialEq, Eq, Structural, Clone, Copy, Debug)]
pub enum HeartbeatAction {
    /// The peer has been silent too long: stop the session now, and send no
    /// ping on this tick.
    Terminate,
    /// The peer is still considered live: send a ping with an empty payload.
    Ping,
}

/// Milliseconds of silence at `now` since the peer was last seen. A
/// last-seen time in the future counts as no silence at all.
pub open spec fn elapsed_ms(last_seen: u64, now: u64) -> int {
    if now >= last_seen {
        now - last_seen
    } else {
        0
    }
}

/// The monitor's decision on a tick at time `now` for a peer last seen at
/// `last_seen`: terminate exactly when the silence exceeds the timeout.
pub open spec fn hb_decision(last_seen: u64, now: u64, c: HeartbeatConfig) -> HeartbeatAction {
    if elapsed_ms(last_seen, now) > c.timeout_ms {
        HeartbeatAction::Terminate
    } else {
        HeartbeatAction::Ping
    }
}

impl WsSession {
    /// One tick of the heartbeat monitor at time `now`: if the peer has
    /// been silent for longer than the timeout the session is to be stopped,
    /// and no ping is sent on this terminating tick; otherwise a ping (with
    /// an empty payload) is sent. The monitor never ticks on a terminated
    /// session.
    pub fn hb(&self, c: &HeartbeatConfig, now: u64) -> (a: HeartbeatAction)
        requires
            self.state != SessionState::Terminated,
        ensures
            a == hb_decision(self.hb, now, *c),
            a is Terminate <==> elapsed_ms(self.hb, now) > c.timeout_ms,
    {
        let elapsed: u64 = if now >= self.hb {
            now - self.hb
        } else {
            0
        };
        if elapsed > c.timeout_ms {
            HeartbeatAction::Terminate
        } else {
            HeartbeatAction::Ping
        }
    }
}

/// Heartbeat timeout: a session whose peer has been silent for longer than
/// the timeout is terminated by the monitor's next tick, the monitor sends
/// no ping on that tick, and finalizing the session reaches `Terminated`.
pub proof fn lemma_heartbeat_timeout(s: WsSession, c: HeartbeatConfig, now: u64)
    requires
        c.wf(),
        elapsed_ms(s.hb, now) > c.timeout_ms,
    ensures
        hb_decision(s.hb, now, c) is Terminate,
        !(hb_decision(s.hb, now, c) is Ping),
        finalize(s).state == SessionState::Terminated,
{
}

/// The time of monitor tick `i` (counting from zero) for a session created
/// at `start`: the monitor first fires one interval after creation and then
/// every interval.
pub open spec fn tick_time(start: int, interval: int, i: int) -> int {
    start + (i + 1) * interval
}

/// The peer's last-seen time as of tick `i`, when the pong answering the
/// ping of tick `j` arrived `delays[j]` milliseconds after that ping. Before
/// the first tick, the only liveness signal is the connection itself at
/// `start`.
pub open spec fn last_seen_at(start: int, interval: int, delays: Seq<int>, i: int) -> int {
    if i == 0 {
        start
    } else {
        tick_time(start, interval, i - 1) + delays[i - 1]
    }
}

/// Whether a peer last seen at `last_seen` counts as timed out at `now`.
/// This is `hb_decision` restated over unbounded times.
pub open spec fn timed_out(last_seen: int, now: int, timeout: int) -> bool {
    now - last_seen > timeout
}

/// For times that fit the machine representation (and a peer not seen in
/// the future), the monitor's decision is exactly the `timed_out` predicate:
/// the tick terminates if and only if the silence exceeds the timeout.
pub proof fn lemma_decision_matches_timeout(last_seen: u64, now: u64, c: HeartbeatConfig)
    requires
        last_seen <= now,
    ensures
        hb_decision(last_seen, now, c) is Terminate <==> timed_out(
            last_seen as int,
            now as int,
            c.timeout_ms as int,
        ),
{
}

/// Heartbeat liveness: a session whose peer answers every server ping with
/// a pong within one interval is never timed out by the monitor, however
/// many ping/pong rounds occur. Tick `i` may rely on the pong answering the
/// ping of tick `i - 1`, which by hypothesis arrived before tick `i`.
pub proof fn lemma_heartbeat_liveness(start: int, interval: int, timeout: int, delays: Seq<int>)
    requires
        0 < interval < timeout,
        forall|j: int| 0 <= j < delays.len() ==> 0 <= #[trigger] delays[j] <= interval,
    ensures
        forall|i: int|
            0 <= i <= delays.len() ==> !timed_out(
                last_seen_at(start, interval, delays, i),
                #[trigger] tick_time(start, interval, i),
                timeout,
            ),
{
    assert forall|i: int| 0 <= i <= delays.len() implies !timed_out(
        last_seen_at(start, interval, delays, i),
        #[trigger] tick_time(start, interval, i),
        timeout,
    ) by {
        if i > 0 {
            assert((i + 1) * interval - i * interval == interval) by (nonlinear_arith);
        }
    }
}

} // verus!
