use ws_echo::frame::{echo_reply, CloseReason, EchoError, Frame, Message};
use ws_echo::heartbeat::{HeartbeatConfig, Supervisor, SupervisorAction, SupervisorEvent, SupervisorState};
use ws_echo::service::{ConnectionState, EchoService, ShutdownSignal};
use ws_echo::{elapsed, CLIENT_TIMEOUT_MS, HEARTBEAT_INTERVAL_MS};

fn units() -> HeartbeatConfig {
    HeartbeatConfig::new(5, 10).unwrap()
}

fn tick(now: u64, last_heartbeat: u64) -> SupervisorEvent {
    SupervisorEvent::Tick { now, last_heartbeat }
}

#[test]
fn text_is_echoed_unchanged() {
    let r = echo_reply(Frame::Text("héllo, wörld".as_bytes().to_vec()));
    assert_eq!(r, Ok(Message::Text("héllo, wörld".to_string())));
    assert_eq!(echo_reply(Frame::Text(vec![])), Ok(Message::Text(String::new())));
}

#[test]
fn binary_is_echoed_byte_for_byte() {
    let payload = vec![0u8, 255, 0xc3, 0x28, 7];
    assert_eq!(echo_reply(Frame::Binary(payload.clone())), Ok(Message::Binary(payload)));
}

#[test]
fn ping_gets_pong_and_refreshes_timestamp() {
    let mut svc = EchoService::new(100);
    let r = svc.handle(Frame::Ping(b"abc".to_vec()), 250);
    assert_eq!(r, Ok(Some(Message::Pong(b"abc".to_vec()))));
    assert_eq!(svc.last_heartbeat(), 250);
    assert!(!svc.is_closed());
}

#[test]
fn other_frames_leave_timestamp_alone() {
    let mut svc = EchoService::new(100);
    assert_eq!(svc.handle(Frame::Binary(vec![1]), 300), Ok(Some(Message::Binary(vec![1]))));
    assert_eq!(svc.handle(Frame::Text(b"hi".to_vec()), 400), Ok(Some(Message::Text("hi".to_string()))));
    assert_eq!(svc.last_heartbeat(), 100);
}

#[test]
fn close_is_echoed_once_then_silence() {
    let reason = CloseReason { code: 1000, description: Some("bye".to_string()) };
    let mut svc = EchoService::new(0);
    let r = svc.handle(Frame::Close(Some(reason.clone())), 1);
    assert_eq!(r, Ok(Some(Message::Close(Some(reason)))));
    assert!(svc.is_closed());
    assert_eq!(svc.handle(Frame::Text(b"more".to_vec()), 2), Ok(None));
    assert_eq!(svc.handle(Frame::Ping(b"p".to_vec()), 3), Ok(None));
    assert_eq!(svc.last_heartbeat(), 0);
}

#[test]
fn close_without_reason_is_echoed() {
    assert_eq!(echo_reply(Frame::Close(None)), Ok(Message::Close(None)));
}

#[test]
fn unrecognized_frames_close_without_reason() {
    assert_eq!(echo_reply(Frame::Pong(b"x".to_vec())), Ok(Message::Close(None)));
    assert_eq!(echo_reply(Frame::Continuation(b"x".to_vec())), Ok(Message::Close(None)));
    let mut svc = EchoService::new(0);
    assert_eq!(svc.handle(Frame::Pong(vec![]), 1), Ok(Some(Message::Close(None))));
    assert!(svc.is_closed());
}

#[test]
fn malformed_text_closes_without_echo() {
    assert_eq!(echo_reply(Frame::Text(vec![0xc3, 0x28])), Err(EchoError::InvalidText));
    let mut svc = EchoService::new(0);
    assert_eq!(svc.handle(Frame::Text(vec![b'a', 0xff]), 1), Err(EchoError::InvalidText));
    assert!(svc.is_closed());
    assert_eq!(svc.handle(Frame::Text(b"ok".to_vec()), 2), Ok(None));
}

#[test]
fn teardown_fires_exactly_once() {
    let mut svc = EchoService::new(0);
    assert!(svc.teardown());
    assert!(!svc.teardown());
    let mut sig = ShutdownSignal::new();
    assert!(sig.armed());
    assert!(sig.fire());
    assert!(!sig.armed());
    assert!(!sig.fire());
}

#[test]
fn connection_state_touch() {
    let mut st = ConnectionState::new(3);
    st.touch(9);
    assert_eq!(st.last_heartbeat, 9);
}

#[test]
fn ping_at_zero_then_silence_times_out() {
    let mut svc = EchoService::new(0);
    assert_eq!(svc.handle(Frame::Ping(b"x".to_vec()), 0), Ok(Some(Message::Pong(b"x".to_vec()))));
    assert_eq!(svc.last_heartbeat(), 0);
    let mut sup = Supervisor::new(units());
    let mut detected_at = None;
    let mut t: u64 = 5;
    while t <= 20 {
        let a = sup.step(tick(t, svc.last_heartbeat()));
        if a == SupervisorAction::Disconnect {
            detected_at = Some(t);
        }
        if detected_at.is_some() && Some(t) != detected_at {
            assert_eq!(a, SupervisorAction::Idle);
        }
        t += 5;
    }
    assert_eq!(detected_at, Some(15));
    assert_eq!(sup.state(), SupervisorState::TimedOut);
}

#[test]
fn silent_peer_pinged_then_timed_out() {
    let svc = EchoService::new(0);
    let mut sup = Supervisor::new(units());
    assert_eq!(sup.step(tick(5, svc.last_heartbeat())), SupervisorAction::SendPing);
    assert_eq!(sup.step(tick(10, svc.last_heartbeat())), SupervisorAction::SendPing);
    assert_eq!(sup.step(tick(15, svc.last_heartbeat())), SupervisorAction::Disconnect);
    assert_eq!(sup.state(), SupervisorState::TimedOut);
    assert_eq!(sup.step(tick(20, svc.last_heartbeat())), SupervisorAction::Idle);
}

#[test]
fn pings_from_peer_keep_connection_alive() {
    let mut svc = EchoService::new(0);
    let mut sup = Supervisor::new(units());
    let mut t: u64 = 5;
    while t <= 100 {
        svc.handle(Frame::Ping(vec![]), t - 1).unwrap();
        assert_eq!(sup.step(tick(t, svc.last_heartbeat())), SupervisorAction::SendPing);
        t += 5;
    }
    assert_eq!(sup.state(), SupervisorState::Active);
}

#[test]
fn shutdown_halts_supervisor() {
    let mut sup = Supervisor::new(units());
    assert_eq!(sup.step(tick(5, 0)), SupervisorAction::SendPing);
    assert_eq!(sup.step(SupervisorEvent::Shutdown), SupervisorAction::Stop);
    assert_eq!(sup.state(), SupervisorState::Cancelled);
    assert_eq!(sup.step(tick(10, 0)), SupervisorAction::Idle);
    assert_eq!(sup.step(tick(100, 0)), SupervisorAction::Idle);
}

#[test]
fn failed_send_stops_supervisor() {
    let mut sup = Supervisor::new(units());
    assert_eq!(sup.step(SupervisorEvent::SendFailed), SupervisorAction::Stop);
    assert_eq!(sup.state(), SupervisorState::SendFailed);
    assert_eq!(sup.step(SupervisorEvent::Shutdown), SupervisorAction::Idle);
}

#[test]
fn silence_of_exactly_the_timeout_is_tolerated() {
    let mut sup = Supervisor::new(units());
    assert_eq!(sup.step(tick(10, 0)), SupervisorAction::SendPing);
    assert_eq!(sup.step(tick(11, 0)), SupervisorAction::Disconnect);
}

#[test]
fn clock_reading_before_heartbeat_counts_as_no_silence() {
    let mut sup = Supervisor::new(units());
    assert_eq!(sup.step(tick(3, 50)), SupervisorAction::SendPing);
    assert_eq!(elapsed(3, 50), 0);
    assert_eq!(elapsed(50, 3), 47);
}

#[test]
fn config_rules() {
    assert!(HeartbeatConfig::new(0, 10).is_none());
    assert!(HeartbeatConfig::new(5, 9).is_none());
    assert_eq!(HeartbeatConfig::new(5, 10), Some(HeartbeatConfig { interval: 5, timeout: 10 }));
    assert!(HeartbeatConfig::new(u64::MAX, u64::MAX).is_none());
    let std_cfg = HeartbeatConfig::standard();
    assert_eq!(std_cfg.interval, HEARTBEAT_INTERVAL_MS);
    assert_eq!(std_cfg.timeout, CLIENT_TIMEOUT_MS);
    assert_eq!((HEARTBEAT_INTERVAL_MS, CLIENT_TIMEOUT_MS), (5000, 10000));
    let sup = Supervisor::new(std_cfg);
    assert_eq!(sup.config(), std_cfg);
    assert_eq!(sup.state(), SupervisorState::Active);
}
