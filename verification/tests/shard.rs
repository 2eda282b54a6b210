use leap_client_rs::errors::LeapError;
use leap_client_rs::shard::error::{CloseFrame, GatewayError};
use leap_client_rs::shard::socket::{Connection, Delivery, Message};
use leap_client_rs::shard::types::{GatewayEvent, ReconnectType, ShardAction, Stage};
use leap_client_rs::shard::Shard;
use serde_json::Value;

fn json(text: &str) -> Value {
    serde_json::from_str(text).unwrap()
}

fn fresh() -> Shard {
    Shard::new(Connection::new(false), "p".to_string(), Some("t".to_string()), (0, 1))
}

fn greeted(interval: u64, at: u64) -> Shard {
    let mut shard = fresh();
    let action = shard.handle_event(&Ok(GatewayEvent::Hello { heartbeat_interval: interval }), at);
    assert_eq!(action.unwrap(), Some(ShardAction::Identify));
    shard
}

fn dispatch(sequence: u64) -> Result<GatewayEvent, LeapError> {
    Ok(GatewayEvent::Dispatch { sequence, payload: Value::Null })
}

fn written(shard: &mut Shard) -> Vec<Value> {
    shard.take_outbound().iter().map(|frame| json(frame)).collect()
}

#[test]
fn a_new_shard_waits_for_the_hello() {
    let mut shard = fresh();
    assert_eq!(shard.stage(), Stage::Connecting);
    assert_eq!(shard.latency(), None);
    assert_eq!(shard.seq(), None);
    assert_eq!(shard.shard_info(), (0, 1));
    assert_eq!(shard.reconnection_type(), ReconnectType::Reidentify);
    assert_eq!(shard.pending(), 0);
    assert!(!shard.is_closed());
    assert!(shard.take_outbound().is_empty());
}

#[test]
fn hello_dispatches_and_ack_lead_to_connected() {
    let mut shard = fresh();
    let mut stages = vec![shard.stage()];
    let hello = shard.handle_event(&Ok(GatewayEvent::Hello { heartbeat_interval: 1000 }), 10);
    assert_eq!(hello.unwrap(), Some(ShardAction::Identify));
    stages.push(shard.stage());
    for sequence in 1..=3 {
        assert_eq!(shard.handle_event(&dispatch(sequence), 20).unwrap(), None);
        stages.push(shard.stage());
    }
    let ack = shard.handle_event(&Ok(GatewayEvent::HeartbeatAck), 30);
    assert_eq!(ack.unwrap(), Some(ShardAction::Update));
    stages.push(shard.stage());
    assert_eq!(
        stages,
        vec![
            Stage::Connecting,
            Stage::Identifying,
            Stage::Connected,
            Stage::Connected,
            Stage::Connected,
            Stage::Connected,
        ]
    );
}

#[test]
fn hello_and_ack_alone_lead_to_connected() {
    let mut shard = greeted(1000, 0);
    assert_eq!(shard.stage(), Stage::Identifying);
    let ack = shard.handle_event(&Ok(GatewayEvent::HeartbeatAck), 5);
    assert_eq!(ack.unwrap(), Some(ShardAction::Update));
    assert_eq!(shard.stage(), Stage::Connected);
}

#[test]
fn a_connected_shard_stays_connected_through_events() {
    let mut shard = greeted(1000, 0);
    shard.handle_event(&dispatch(1), 1).unwrap();
    assert_eq!(shard.stage(), Stage::Connected);
    let late = shard.handle_event(&Ok(GatewayEvent::Hello { heartbeat_interval: 5 }), 2);
    assert!(matches!(late, Err(LeapError::Gateway(GatewayError::InvalidHandshake))));
    assert_eq!(shard.stage(), Stage::Connected);
    shard.handle_event(&Ok(GatewayEvent::HeartbeatAck), 3).unwrap();
    assert_eq!(shard.stage(), Stage::Connected);
    shard.handle_event(&dispatch(2), 4).unwrap();
    assert_eq!(shard.stage(), Stage::Connected);
}

#[test]
fn events_before_the_hello_are_refused() {
    let mut shard = fresh();
    let early = shard.handle_event(&dispatch(1), 0);
    assert!(matches!(early, Err(LeapError::Gateway(GatewayError::ExpectedHello))));
    let ack = shard.handle_event(&Ok(GatewayEvent::HeartbeatAck), 0);
    assert!(matches!(ack, Err(LeapError::Gateway(GatewayError::ExpectedHello))));
    assert_eq!(shard.stage(), Stage::Connecting);
    assert_eq!(shard.seq(), None);
}

#[test]
fn a_gap_in_the_sequence_is_no_error() {
    let mut shard = greeted(1000, 0);
    assert_eq!(shard.handle_event(&dispatch(5), 1).unwrap(), None);
    assert_eq!(shard.seq(), Some(5));
    assert_eq!(shard.handle_event(&dispatch(7), 2).unwrap(), None);
    assert_eq!(shard.seq(), Some(7));
}

#[test]
fn the_recorded_sequence_never_falls() {
    let mut shard = greeted(1000, 0);
    shard.handle_event(&dispatch(7), 1).unwrap();
    assert_eq!(shard.handle_event(&dispatch(5), 2).unwrap(), None);
    assert_eq!(shard.seq(), Some(7));
    shard.handle_event(&dispatch(7), 3).unwrap();
    assert_eq!(shard.seq(), Some(7));
    shard.handle_event(&dispatch(u64::MAX), 4).unwrap();
    assert_eq!(shard.seq(), Some(u64::MAX));
}

#[test]
fn no_heartbeat_before_the_hello() {
    let mut shard = fresh();
    let sent = shard.heartbeat(Some("x"), 5);
    assert!(matches!(sent, Err(LeapError::Gateway(GatewayError::ExpectedHello))));
    assert!(matches!(shard.identify(), Err(LeapError::Gateway(GatewayError::ExpectedHello))));
    assert!(shard.check_heartbeat(1_000_000));
    assert!(shard.take_outbound().is_empty());
    assert_eq!(shard.stage(), Stage::Connecting);
}

#[test]
fn check_heartbeat_is_true_while_no_beat_is_due() {
    let mut shard = greeted(1000, 100);
    assert!(shard.check_heartbeat(100));
    assert!(shard.check_heartbeat(600));
    assert!(shard.check_heartbeat(1100));
    assert!(shard.check_heartbeat(50));
    assert!(shard.take_outbound().is_empty());
}

#[test]
fn check_heartbeat_sends_the_beat_that_is_due() {
    let mut shard = greeted(1000, 100);
    assert!(shard.check_heartbeat(1101));
    assert_eq!(written(&mut shard), vec![json(r#"{"op":3}"#)]);
    assert!(shard.check_heartbeat(1102));
    assert!(shard.check_heartbeat(2101));
    assert!(shard.take_outbound().is_empty());
}

#[test]
fn a_missed_answer_fails_the_check() {
    let mut shard = greeted(1000, 0);
    assert!(shard.check_heartbeat(1001));
    assert!(shard.check_heartbeat(2001));
    assert!(!shard.check_heartbeat(2002));
    assert_eq!(shard.stage(), Stage::Disconnected);
    assert!(shard.is_closed());
    assert_eq!(written(&mut shard), vec![json(r#"{"op":3}"#)]);
}

#[test]
fn an_answer_in_time_keeps_the_session_alive() {
    let mut shard = greeted(1000, 0);
    assert!(shard.check_heartbeat(1001));
    let ack = shard.handle_event(&Ok(GatewayEvent::HeartbeatAck), 1040);
    assert_eq!(ack.unwrap(), Some(ShardAction::Update));
    assert_eq!(shard.latency(), Some(39));
    assert!(shard.check_heartbeat(2002));
    assert_eq!(shard.stage(), Stage::Connected);
    assert_eq!(written(&mut shard).len(), 2);
}

#[test]
fn latency_is_the_time_from_beat_to_answer() {
    let mut shard = greeted(10, 0);
    shard.heartbeat(Some("a"), 500).unwrap();
    assert_eq!(shard.latency(), None);
    shard.handle_event(&Ok(GatewayEvent::HeartbeatAck), 750).unwrap();
    assert_eq!(shard.latency(), Some(250));
    shard.heartbeat(None, 800).unwrap();
    shard.handle_event(&Ok(GatewayEvent::HeartbeatAck), 800).unwrap();
    assert_eq!(shard.latency(), Some(0));
    shard.heartbeat(None, 900).unwrap();
    shard.handle_event(&Ok(GatewayEvent::HeartbeatAck), 850).unwrap();
    assert_eq!(shard.latency(), Some(0));
}

#[test]
fn an_answer_without_a_beat_leaves_the_latency() {
    let mut shard = greeted(10, 0);
    let ack = shard.handle_event(&Ok(GatewayEvent::HeartbeatAck), 7);
    assert_eq!(ack.unwrap(), Some(ShardAction::Update));
    assert_eq!(shard.latency(), None);
}

#[test]
fn heartbeat_carries_its_tag() {
    let mut shard = greeted(10, 0);
    shard.heartbeat(Some("abc"), 1).unwrap();
    assert_eq!(written(&mut shard), vec![json(r#"{"op":3,"d":{"tag":"abc"}}"#)]);
}

#[test]
fn a_second_heartbeat_without_answer_ends_the_session() {
    let mut shard = greeted(10, 0);
    shard.heartbeat(None, 1).unwrap();
    let again = shard.heartbeat(None, 2);
    assert!(matches!(again, Err(LeapError::Gateway(GatewayError::HeartbeatFailed))));
    assert_eq!(shard.stage(), Stage::Disconnected);
    assert_eq!(written(&mut shard).len(), 1);
    let dead = shard.heartbeat(None, 3);
    assert!(matches!(dead, Err(LeapError::Gateway(GatewayError::HeartbeatFailed))));
}

#[test]
fn identify_sends_the_credentials() {
    let mut shard = greeted(10, 0);
    shard.handle_event(&dispatch(1), 1).unwrap();
    assert_eq!(shard.stage(), Stage::Connected);
    shard.identify().unwrap();
    assert_eq!(shard.stage(), Stage::Identifying);
    assert_eq!(written(&mut shard), vec![json(r#"{"op":2,"d":{"project_id":"p","token":"t"}}"#)]);
}

#[test]
fn identify_without_token_omits_it() {
    let mut shard = Shard::new(Connection::new(false), "proj".to_string(), None, (2, 4));
    shard.handle_event(&Ok(GatewayEvent::Hello { heartbeat_interval: 1 }), 0).unwrap();
    shard.identify().unwrap();
    assert_eq!(written(&mut shard), vec![json(r#"{"op":2,"d":{"project_id":"proj"}}"#)]);
}

#[test]
fn identify_clears_the_outstanding_beat() {
    let mut shard = greeted(10, 0);
    shard.heartbeat(None, 1).unwrap();
    shard.identify().unwrap();
    shard.heartbeat(None, 2).unwrap();
    assert_eq!(shard.stage(), Stage::Identifying);
}

#[test]
fn invalid_session_and_reconnect_call_for_reidentify() {
    for event in [GatewayEvent::InvalidSession, GatewayEvent::Reconnect] {
        let mut shard = greeted(10, 0);
        shard.handle_event(&dispatch(1), 1).unwrap();
        let action = shard.handle_event(&Ok(event.clone()), 2);
        assert_eq!(action.unwrap(), Some(ShardAction::Reconnect(ReconnectType::Reidentify)));
        assert_eq!(shard.stage(), Stage::Disconnected);
        assert!(shard.is_closed());
        let mut early = fresh();
        let action = early.handle_event(&Ok(event), 2);
        assert_eq!(action.unwrap(), Some(ShardAction::Reconnect(ReconnectType::Reidentify)));
    }
}

#[test]
fn a_close_frame_with_the_auth_code_is_the_rejection() {
    let mut shard = greeted(10, 0);
    let frame = CloseFrame { code: 4001, reason: "invalid token".to_string() };
    let closed = Err(LeapError::Gateway(GatewayError::Closed(Some(frame))));
    let action = shard.handle_event(&closed, 1);
    assert!(matches!(action, Err(LeapError::Gateway(GatewayError::InvalidAuthentication))));
    assert_eq!(shard.stage(), Stage::Identifying);
    assert!(!shard.is_closed());
}

#[test]
fn any_other_close_frame_calls_for_a_reconnect() {
    for code in [1000u16, 4000, 4002, 4004, 4005, 4006, 4007] {
        let mut shard = greeted(10, 0);
        let frame = CloseFrame { code, reason: String::new() };
        let closed = Err(LeapError::Gateway(GatewayError::Closed(Some(frame))));
        let action = shard.handle_event(&closed, 1);
        assert_eq!(action.unwrap(), Some(ShardAction::Reconnect(ReconnectType::Reidentify)));
        assert_eq!(shard.stage(), Stage::Disconnected);
    }
    let mut shard = greeted(10, 0);
    let bare = Err(LeapError::Gateway(GatewayError::Closed(None)));
    assert_eq!(
        shard.handle_event(&bare, 1).unwrap(),
        Some(ShardAction::Reconnect(ReconnectType::Reidentify))
    );
}

#[test]
fn a_failure_of_the_transport_calls_for_a_reconnect() {
    let mut shard = greeted(10, 0);
    let failure = Err(LeapError::Tungstenite(async_tungstenite::tungstenite::Error::Utf8));
    let action = shard.handle_event(&failure, 1);
    assert_eq!(action.unwrap(), Some(ShardAction::Reconnect(ReconnectType::Reidentify)));
    assert_eq!(shard.stage(), Stage::Disconnected);
}

#[test]
fn other_protocol_failures_are_handed_back() {
    let mut shard = greeted(10, 0);
    let invalid = Err(LeapError::Gateway(GatewayError::InvalidOpCode));
    let action = shard.handle_event(&invalid, 1);
    assert!(matches!(action, Err(LeapError::Gateway(GatewayError::InvalidOpCode))));
    assert_eq!(shard.stage(), Stage::Identifying);
}

#[test]
fn unreadable_payloads_call_for_nothing() {
    let mut shard = greeted(10, 0);
    let json_error = serde_json::from_str::<Value>("{").unwrap_err();
    assert_eq!(shard.handle_event(&Err(LeapError::Json(json_error)), 1).unwrap(), None);
    let io = std::io::Error::new(std::io::ErrorKind::InvalidData, "corrupt");
    assert_eq!(shard.handle_event(&Err(LeapError::Io(io)), 1).unwrap(), None);
    assert_eq!(shard.stage(), Stage::Identifying);
}

#[test]
fn shutdown_is_tolerant_of_a_closed_connection() {
    let mut shard = greeted(10, 0);
    shard.shutdown();
    assert_eq!(shard.stage(), Stage::Disconnected);
    assert!(shard.is_closed());
    shard.shutdown();
    assert_eq!(shard.stage(), Stage::Disconnected);
    assert!(shard.is_closed());
    assert!(matches!(shard.identify(), Err(LeapError::Gateway(GatewayError::Closed(None)))));
    assert_eq!(shard.stage(), Stage::Disconnected);
}

#[test]
fn a_session_that_has_ended_stays_ended() {
    let mut shard = greeted(10, 0);
    shard.shutdown();
    assert_eq!(shard.handle_event(&dispatch(3), 1).unwrap(), None);
    assert_eq!(shard.stage(), Stage::Disconnected);
    shard.handle_event(&Ok(GatewayEvent::HeartbeatAck), 2).unwrap();
    assert_eq!(shard.stage(), Stage::Disconnected);
    let hello = shard.handle_event(&Ok(GatewayEvent::Hello { heartbeat_interval: 1 }), 3);
    assert!(matches!(hello, Err(LeapError::Gateway(GatewayError::InvalidHandshake))));
    assert_eq!(shard.stage(), Stage::Disconnected);
    assert!(!shard.check_heartbeat(1000));
}

#[test]
fn the_shard_receives_what_was_delivered() {
    let mut shard = fresh();
    shard.deliver(Delivery::Message(Message::Text(r#"{"op":4}"#.to_string())));
    assert_eq!(shard.pending(), 1);
    assert_eq!(shard.recieve_json().unwrap(), Some(json(r#"{"op":4}"#)));
    assert_eq!(shard.recieve_json().unwrap(), None);
    shard.send_json(&json("[1]")).unwrap();
    assert_eq!(shard.take_outbound(), vec!["[1]".to_string()]);
}
