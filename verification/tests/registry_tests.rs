use ws_session::registry::AppContext;
use ws_session::session::{Frame, SessionState, WsSession};

#[test]
fn new_registry_is_empty() {
    let app = AppContext::new();
    assert_eq!(app.snapshot(), 0);
}

#[test]
fn increment_and_decrement_move_the_count_by_one() {
    let mut app = AppContext::new();
    app.increment();
    app.increment();
    assert_eq!(app.snapshot(), 2);
    app.decrement();
    assert_eq!(app.snapshot(), 1);
    app.decrement();
    assert_eq!(app.snapshot(), 0);
}

#[test]
fn thousand_start_stop_pairs_converge_to_zero() {
    let mut app = AppContext::new();
    for i in 0..1000usize {
        let mut s = WsSession::new(i, 0);
        s.started(&mut app);
        assert_eq!(app.snapshot(), 1);
        s.stopped(&mut app);
        assert_eq!(app.snapshot(), 0);
    }
    assert_eq!(app.snapshot(), 0);
}

#[test]
fn interleaved_lifecycles_balance_at_every_instant() {
    let mut app = AppContext::new();
    let mut live: Vec<WsSession> = Vec::new();
    let mut started = 0usize;
    let mut terminated = 0usize;
    for round in 0..200usize {
        // a mixed schedule: mostly starts early, mostly stops late
        if round % 3 != 2 && round < 150 {
            let mut s = WsSession::new(round, 0);
            s.started(&mut app);
            started += 1;
            live.push(s);
        } else if let Some(mut s) = live.pop() {
            // alternate exit paths: clean close, protocol error, timeout
            if round % 2 == 0 {
                let _ = s.handle(Ok(Frame::Close(None)), 1);
            } else {
                let _ = s.handle(Ok(Frame::Continuation), 1);
            }
            s.stopped(&mut app);
            assert_eq!(s.state, SessionState::Terminated);
            terminated += 1;
        }
        assert_eq!(app.snapshot(), started - terminated);
    }
    while let Some(mut s) = live.pop() {
        s.stopped(&mut app);
        terminated += 1;
        assert_eq!(app.snapshot(), started - terminated);
    }
    assert_eq!(started, terminated);
    assert_eq!(app.snapshot(), 0);
}
