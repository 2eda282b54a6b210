use leap_client_rs::errors::LeapError;
use leap_client_rs::manager::types::{ShardManagerMessage, ShardRunnerUpdate};
use leap_client_rs::runner::{Progress, ShardRunner};
use leap_client_rs::shard::error::{CloseFrame, GatewayError};
use leap_client_rs::shard::socket::{Connection, Delivery, Message};
use leap_client_rs::shard::types::{
    GatewayEvent, InterMessage, ReconnectType, ShardAction, Stage,
};
use leap_client_rs::shard::Shard;
use serde_json::Value;

fn json(text: &str) -> Value {
    serde_json::from_str(text).unwrap()
}

fn runner() -> ShardRunner {
    let shard = Shard::new(Connection::new(false), "p".to_string(), Some("t".to_string()), (0, 1));
    ShardRunner::new(shard)
}

fn text(runner: &mut ShardRunner, frame: &str) {
    runner.deliver(Delivery::Message(Message::Text(frame.to_string())));
}

fn written(runner: &mut ShardRunner) -> Vec<Value> {
    runner.take_outbound().iter().map(|frame| json(frame)).collect()
}

fn update(latency: Option<u64>, stage: Stage) -> ShardManagerMessage {
    ShardManagerMessage::Update(ShardRunnerUpdate { latency, stage })
}

/// A runner whose shard has been greeted at instant 0 and has identified.
fn identified(interval: u64) -> ShardRunner {
    let mut runner = runner();
    text(&mut runner, &format!(r#"{{"op":1,"d":{{"heartbeat_interval":{}}}}}"#, interval));
    assert_eq!(runner.run(0).unwrap(), Progress::Waiting);
    runner.take_reports();
    runner.take_outbound();
    runner
}

fn restarts(reports: &[ShardManagerMessage]) -> usize {
    reports.iter().filter(|report| matches!(report, ShardManagerMessage::Restart)).count()
}

#[test]
fn an_idle_runner_waits() {
    let mut runner = runner();
    assert_eq!(runner.run(0).unwrap(), Progress::Waiting);
    assert_eq!(runner.run(1_000_000).unwrap(), Progress::Waiting);
    assert!(runner.take_reports().is_empty());
    assert!(runner.take_outbound().is_empty());
    assert_eq!(runner.shard.stage(), Stage::Connecting);
}

#[test]
fn hello_makes_the_runner_identify_and_report() {
    let mut runner = runner();
    text(&mut runner, r#"{"op":1,"d":{"heartbeat_interval":45000}}"#);
    assert_eq!(runner.run(7).unwrap(), Progress::Waiting);
    assert_eq!(runner.shard.stage(), Stage::Identifying);
    assert_eq!(written(&mut runner), vec![json(r#"{"op":2,"d":{"project_id":"p","token":"t"}}"#)]);
    assert_eq!(
        runner.take_reports(),
        vec![update(None, Stage::Identifying), update(None, Stage::Identifying)]
    );
}

#[test]
fn the_whole_handshake_in_one_run() {
    let mut runner = runner();
    text(&mut runner, r#"{"op":1,"d":{"heartbeat_interval":1000}}"#);
    text(&mut runner, r#"{"op":0,"s":1,"d":{"e":"INIT"}}"#);
    text(&mut runner, r#"{"op":0,"s":2,"d":{"e":"MESSAGE"}}"#);
    text(&mut runner, r#"{"op":4}"#);
    assert_eq!(runner.run(5).unwrap(), Progress::Waiting);
    assert_eq!(runner.shard.stage(), Stage::Connected);
    assert_eq!(runner.shard.seq(), Some(2));
    assert_eq!(
        runner.take_reports(),
        vec![
            update(None, Stage::Identifying),
            update(None, Stage::Identifying),
            update(None, Stage::Connected),
            ShardManagerMessage::Event(json(r#"{"e":"INIT"}"#)),
            ShardManagerMessage::Event(json(r#"{"e":"MESSAGE"}"#)),
            update(None, Stage::Connected),
        ]
    );
}

#[test]
fn a_dispatch_is_passed_on_as_it_is() {
    let mut runner = identified(1000);
    text(&mut runner, r#"{"op":0,"s":5,"d":{"c":"chat","d":{"n":[1,2,{"k":null}]}}}"#);
    assert_eq!(runner.iterate(1).unwrap(), true);
    assert_eq!(
        runner.take_reports(),
        vec![
            update(None, Stage::Connected),
            ShardManagerMessage::Event(json(r#"{"c":"chat","d":{"n":[1,2,{"k":null}]}}"#)),
        ]
    );
    assert_eq!(runner.shard.seq(), Some(5));
}

#[test]
fn a_missed_heartbeat_requests_exactly_one_restart() {
    let mut runner = identified(1000);
    assert_eq!(runner.run(1001).unwrap(), Progress::Waiting);
    assert_eq!(written(&mut runner), vec![json(r#"{"op":3}"#)]);
    assert_eq!(runner.run(2001).unwrap(), Progress::Waiting);
    assert!(runner.take_reports().is_empty());
    assert_eq!(runner.run(2002).unwrap(), Progress::Finished);
    assert_eq!(runner.take_reports(), vec![ShardManagerMessage::Restart]);
    assert_eq!(runner.shard.stage(), Stage::Disconnected);
    assert!(runner.take_outbound().is_empty());
}

#[test]
fn a_missed_heartbeat_ends_the_loop_before_anything_is_received() {
    let mut runner = identified(10);
    assert_eq!(runner.run(11).unwrap(), Progress::Waiting);
    text(&mut runner, r#"{"op":0,"s":1,"d":1}"#);
    text(&mut runner, r#"{"op":6}"#);
    assert_eq!(runner.run(22).unwrap(), Progress::Finished);
    let reports = runner.take_reports();
    assert_eq!(reports, vec![ShardManagerMessage::Restart]);
    assert_eq!(restarts(&reports), 1);
    assert_eq!(runner.shard.pending(), 2);
}

#[test]
fn an_answered_heartbeat_is_reported_with_its_latency() {
    let mut runner = identified(1000);
    assert_eq!(runner.run(1001).unwrap(), Progress::Waiting);
    text(&mut runner, r#"{"op":4}"#);
    assert_eq!(runner.run(1031).unwrap(), Progress::Waiting);
    assert_eq!(
        runner.take_reports(),
        vec![update(Some(30), Stage::Connected), update(Some(30), Stage::Connected)]
    );
    assert_eq!(runner.shard.latency(), Some(30));
}

#[test]
fn rejected_credentials_end_the_loop_without_restart() {
    let mut runner = identified(1000);
    let frame = CloseFrame { code: 4001, reason: "bad token".to_string() };
    runner.deliver(Delivery::Message(Message::Close(Some(frame))));
    text(&mut runner, r#"{"op":0,"s":1,"d":1}"#);
    let ended = runner.run(1);
    assert!(matches!(ended, Err(LeapError::Gateway(GatewayError::InvalidAuthentication))));
    let reports = runner.take_reports();
    assert_eq!(reports, vec![ShardManagerMessage::InvalidAuthentication]);
    assert_eq!(restarts(&reports), 0);
    assert_eq!(runner.shard.pending(), 1);
}

#[test]
fn invalid_session_requests_one_restart_and_ends_the_loop() {
    let mut runner = identified(1000);
    text(&mut runner, r#"{"op":5}"#);
    text(&mut runner, r#"{"op":4}"#);
    assert_eq!(runner.run(1).unwrap(), Progress::Finished);
    assert_eq!(
        runner.take_reports(),
        vec![update(None, Stage::Disconnected), ShardManagerMessage::Restart]
    );
    assert_eq!(runner.shard.pending(), 1);
}

#[test]
fn reconnect_requests_one_restart_and_ends_the_loop() {
    let mut runner = identified(1000);
    text(&mut runner, r#"{"op":0,"s":1,"d":1}"#);
    text(&mut runner, r#"{"op":6}"#);
    assert_eq!(runner.run(1).unwrap(), Progress::Finished);
    let reports = runner.take_reports();
    assert_eq!(
        reports,
        vec![
            update(None, Stage::Connected),
            ShardManagerMessage::Event(json("1")),
            update(None, Stage::Disconnected),
            ShardManagerMessage::Restart,
        ]
    );
    assert_eq!(restarts(&reports), 1);
    assert!(matches!(reports.last(), Some(ShardManagerMessage::Restart)));
}

#[test]
fn a_close_frame_requests_a_restart() {
    let mut runner = identified(1000);
    let frame = CloseFrame { code: 4007, reason: "out of sync".to_string() };
    runner.deliver(Delivery::Message(Message::Close(Some(frame))));
    assert_eq!(runner.run(1).unwrap(), Progress::Finished);
    assert_eq!(
        runner.take_reports(),
        vec![update(None, Stage::Disconnected), ShardManagerMessage::Restart]
    );
}

#[test]
fn close_ends_the_loop_without_error_or_restart() {
    let mut runner = identified(1000);
    runner.post(InterMessage::Close);
    text(&mut runner, r#"{"op":0,"s":1,"d":1}"#);
    assert_eq!(runner.run(5000).unwrap(), Progress::Finished);
    assert!(runner.take_reports().is_empty());
    assert_eq!(runner.shard.stage(), Stage::Disconnected);
    assert!(runner.shard.is_closed());
    assert_eq!(runner.shard.pending(), 1);
}

#[test]
fn close_after_other_commands_ends_the_loop_without_restart() {
    let mut runner = identified(1000);
    runner.post(InterMessage::Json(json(r#"{"op":9,"d":"first"}"#)));
    runner.post(InterMessage::Json(json(r#"{"op":9,"d":"second"}"#)));
    runner.post(InterMessage::Close);
    runner.post(InterMessage::Json(json(r#"{"op":9,"d":"never"}"#)));
    assert_eq!(runner.run(1).unwrap(), Progress::Finished);
    assert!(runner.take_reports().is_empty());
    assert_eq!(
        written(&mut runner),
        vec![json(r#"{"op":9,"d":"first"}"#), json(r#"{"op":9,"d":"second"}"#)]
    );
}

#[test]
fn close_on_a_new_runner_ends_the_loop() {
    let mut runner = runner();
    runner.post(InterMessage::Close);
    assert_eq!(runner.run(0).unwrap(), Progress::Finished);
    assert!(runner.take_reports().is_empty());
}

#[test]
fn a_json_command_is_forwarded_as_it_is() {
    let mut runner = runner();
    let payload = json(r#"{"op":7,"d":{"channel":"news","deep":[{"a":"é"}]}}"#);
    runner.post(InterMessage::Json(payload.clone()));
    assert_eq!(runner.run(0).unwrap(), Progress::Waiting);
    assert_eq!(written(&mut runner), vec![payload]);
    assert!(runner.take_reports().is_empty());
}

#[test]
fn a_command_that_cannot_be_forwarded_requests_a_restart() {
    let mut runner = identified(1000);
    runner.shard.shutdown();
    runner.post(InterMessage::Json(json("1")));
    runner.post(InterMessage::Json(json("2")));
    runner.post(InterMessage::Close);
    text(&mut runner, r#"{"op":0,"s":1,"d":1}"#);
    assert_eq!(runner.run(1).unwrap(), Progress::Finished);
    let reports = runner.take_reports();
    assert_eq!(reports, vec![ShardManagerMessage::Restart]);
    assert_eq!(restarts(&reports), 1);
    assert!(runner.take_outbound().is_empty());
    assert!(runner.is_finished());
    assert_eq!(runner.shard.pending(), 1);
    assert_eq!(runner.run(2).unwrap(), Progress::Finished);
    assert!(runner.take_reports().is_empty());
}

#[test]
fn a_failed_forward_is_told_from_close() {
    let mut failing = identified(1000);
    failing.shard.shutdown();
    assert!(!failing.handle_rx_message(InterMessage::Json(json("1"))));
    assert_eq!(failing.take_reports(), vec![ShardManagerMessage::Restart]);
    let mut closing = identified(1000);
    assert!(!closing.handle_rx_message(InterMessage::Close));
    assert!(closing.take_reports().is_empty());
}

#[test]
fn commands_behind_a_failed_forward_are_not_forwarded() {
    let mut runner = identified(1000);
    runner.post(InterMessage::Json(json("1")));
    assert!(runner.recieve_internal());
    runner.shard.shutdown();
    runner.post(InterMessage::Json(json("2")));
    runner.post(InterMessage::Json(json("3")));
    assert!(!runner.recieve_internal());
    assert_eq!(written(&mut runner), vec![json("1")]);
    assert_eq!(runner.take_reports(), vec![ShardManagerMessage::Restart]);
}

#[test]
fn a_lost_command_channel_requests_a_restart() {
    let mut runner = identified(1000);
    runner.post(InterMessage::Json(json("1")));
    runner.disconnect();
    assert_eq!(runner.run(1).unwrap(), Progress::Finished);
    assert_eq!(runner.take_reports(), vec![ShardManagerMessage::Restart]);
    assert_eq!(written(&mut runner), vec![json("1")]);
}

#[test]
fn an_io_error_of_the_transport_is_no_event() {
    let mut runner = identified(1000);
    let io = std::io::Error::new(std::io::ErrorKind::WouldBlock, "not yet");
    runner.deliver(Delivery::Failure(async_tungstenite::tungstenite::Error::Io(io)));
    text(&mut runner, r#"{"op":0,"s":3,"d":true}"#);
    assert_eq!(runner.run(1).unwrap(), Progress::Waiting);
    assert_eq!(
        runner.take_reports(),
        vec![update(None, Stage::Connected), ShardManagerMessage::Event(json("true"))]
    );
}

#[test]
fn another_error_of_the_transport_requests_a_restart() {
    let mut runner = identified(1000);
    runner.deliver(Delivery::Failure(async_tungstenite::tungstenite::Error::ConnectionClosed));
    assert_eq!(runner.run(1).unwrap(), Progress::Finished);
    assert_eq!(
        runner.take_reports(),
        vec![update(None, Stage::Disconnected), ShardManagerMessage::Restart]
    );
}

#[test]
fn frames_that_cannot_be_read_are_passed_over() {
    let mut runner = identified(1000);
    text(&mut runner, "{oops");
    text(&mut runner, r#"{"op":77}"#);
    text(&mut runner, r#"{"op":1,"d":{"heartbeat_interval":5}}"#);
    text(&mut runner, r#"{"no":"code"}"#);
    runner.deliver(Delivery::Message(Message::Ping(vec![1, 2])));
    runner.deliver(Delivery::Message(Message::Binary(vec![1, 2])));
    assert_eq!(runner.run(1).unwrap(), Progress::Waiting);
    assert!(runner.take_reports().is_empty());
    assert_eq!(runner.shard.stage(), Stage::Identifying);
    assert_eq!(runner.shard.pending(), 0);
}

#[test]
fn an_event_before_the_hello_is_passed_over() {
    let mut runner = runner();
    text(&mut runner, r#"{"op":0,"s":1,"d":1}"#);
    assert_eq!(runner.run(1).unwrap(), Progress::Waiting);
    assert!(runner.take_reports().is_empty());
    assert_eq!(runner.shard.stage(), Stage::Connecting);
    assert_eq!(runner.shard.seq(), None);
}

#[test]
fn settle_restarts_on_reconnect_whatever_else_is_given() {
    let mut runner = identified(1000);
    let reception = (
        Some(json("1")),
        Some(ShardAction::Reconnect(ReconnectType::Reidentify)),
        true,
    );
    assert!(!runner.settle(Stage::Identifying, reception, 1));
    assert_eq!(runner.take_reports(), vec![ShardManagerMessage::Restart]);
}

#[test]
fn settle_restarts_when_an_action_fails() {
    let mut runner = identified(1000);
    runner.shard.heartbeat(None, 1).unwrap();
    runner.take_outbound();
    let reception = (Some(json("1")), Some(ShardAction::Heartbeat(Some("x".to_string()))), true);
    assert!(!runner.settle(Stage::Identifying, reception, 2));
    assert_eq!(
        runner.take_reports(),
        vec![ShardManagerMessage::Restart]
    );
    assert!(runner.take_outbound().is_empty());
}

#[test]
fn settle_restarts_after_a_failed_exchange_past_setup() {
    let mut runner = identified(1000);
    text(&mut runner, r#"{"op":0,"s":1,"d":1}"#);
    runner.run(1).unwrap();
    runner.take_reports();
    assert_eq!(runner.shard.stage(), Stage::Connected);
    assert!(!runner.settle(Stage::Connected, (Some(json("2")), None, false), 2));
    assert_eq!(
        runner.take_reports(),
        vec![ShardManagerMessage::Event(json("2")), ShardManagerMessage::Restart]
    );
}

#[test]
fn settle_goes_on_after_a_failed_exchange_during_setup() {
    let mut runner = identified(1000);
    assert!(runner.settle(Stage::Identifying, (None, None, false), 2));
    assert!(runner.take_reports().is_empty());
}

#[test]
fn settle_carries_out_a_heartbeat_action() {
    let mut runner = identified(1000);
    let reception = (None, Some(ShardAction::Heartbeat(Some("abc".to_string()))), true);
    assert!(runner.settle(Stage::Identifying, reception, 9));
    assert_eq!(written(&mut runner), vec![json(r#"{"op":3,"d":{"tag":"abc"}}"#)]);
    assert!(runner.take_reports().is_empty());
}

#[test]
fn actions_do_what_they_say() {
    let mut runner = identified(1000);
    runner.action(&ShardAction::Update, 1).unwrap();
    assert_eq!(runner.take_reports(), vec![update(None, Stage::Identifying)]);
    runner.action(&ShardAction::Reconnect(ReconnectType::Reidentify), 1).unwrap();
    assert_eq!(runner.take_reports(), vec![ShardManagerMessage::Restart]);
    runner.action(&ShardAction::Identify, 1).unwrap();
    assert_eq!(runner.take_reports(), vec![update(None, Stage::Identifying)]);
    assert_eq!(written(&mut runner), vec![json(r#"{"op":2,"d":{"project_id":"p","token":"t"}}"#)]);
    runner.action(&ShardAction::Heartbeat(None), 1).unwrap();
    assert_eq!(written(&mut runner), vec![json(r#"{"op":3}"#)]);
}

#[test]
fn a_failed_identify_is_still_reported() {
    let mut runner = runner();
    let failed = runner.action(&ShardAction::Identify, 1);
    assert!(matches!(failed, Err(LeapError::Gateway(GatewayError::ExpectedHello))));
    assert_eq!(runner.take_reports(), vec![update(None, Stage::Connecting)]);
}

#[test]
fn interpret_takes_any_event() {
    let mut runner = identified(1000);
    let reception = runner.interpret(Ok(GatewayEvent::Dispatch { sequence: 4, payload: json("[]") }), 1);
    assert_eq!(reception.unwrap(), (Some(json("[]")), None, true));
    let reception = runner.interpret(Ok(GatewayEvent::HeartbeatAck), 1);
    assert_eq!(reception.unwrap(), (None, Some(ShardAction::Update), true));
    let reception = runner.interpret(Err(LeapError::Gateway(GatewayError::InvalidOpCode)), 1);
    assert_eq!(reception.unwrap(), (None, None, true));
    assert!(runner.take_reports().is_empty());
}

#[test]
fn commands_are_taken_in_order() {
    let mut runner = runner();
    assert!(runner.recieve_internal());
    assert!(runner.handle_rx_message(InterMessage::Json(json("0"))));
    runner.post(InterMessage::Json(json("1")));
    runner.post(InterMessage::Json(json("2")));
    assert!(runner.recieve_internal());
    assert_eq!(written(&mut runner), vec![json("0"), json("1"), json("2")]);
    assert!(!runner.handle_rx_message(InterMessage::Close));
    assert_eq!(runner.shard.stage(), Stage::Disconnected);
}

#[test]
fn reports_are_taken_once() {
    let mut runner = runner();
    runner.request_restart();
    runner.update_manager();
    assert_eq!(
        runner.take_reports(),
        vec![ShardManagerMessage::Restart, update(None, Stage::Connecting)]
    );
    assert!(runner.take_reports().is_empty());
}

#[test]
fn a_run_never_requests_two_restarts() {
    let mut runner = identified(10);
    runner.run(11).unwrap();
    runner.disconnect();
    text(&mut runner, r#"{"op":5}"#);
    text(&mut runner, r#"{"op":6}"#);
    assert_eq!(runner.run(100).unwrap(), Progress::Finished);
    let reports = runner.take_reports();
    assert_eq!(restarts(&reports), 1);
    assert!(matches!(reports.last(), Some(ShardManagerMessage::Restart)));
}

#[test]
fn a_finished_runner_does_nothing_more() {
    let mut runner = identified(10);
    assert!(!runner.is_finished());
    assert_eq!(runner.run(11).unwrap(), Progress::Waiting);
    assert_eq!(written(&mut runner), vec![json(r#"{"op":3}"#)]);
    assert_eq!(runner.run(22).unwrap(), Progress::Finished);
    assert!(runner.is_finished());
    assert_eq!(runner.take_reports(), vec![ShardManagerMessage::Restart]);
    text(&mut runner, r#"{"op":6}"#);
    runner.post(InterMessage::Json(json("1")));
    runner.disconnect();
    assert_eq!(runner.run(1000).unwrap(), Progress::Finished);
    assert_eq!(runner.iterate(2000).unwrap(), false);
    assert!(runner.take_reports().is_empty());
    assert!(runner.take_outbound().is_empty());
    assert_eq!(runner.shard.pending(), 1);
}

#[test]
fn a_runner_is_finished_after_the_rejection() {
    let mut runner = identified(1000);
    let frame = CloseFrame { code: 4001, reason: String::new() };
    runner.deliver(Delivery::Message(Message::Close(Some(frame))));
    assert!(runner.run(1).is_err());
    assert!(runner.is_finished());
    runner.take_reports();
    assert_eq!(runner.run(2).unwrap(), Progress::Finished);
    assert!(runner.take_reports().is_empty());
}

#[test]
fn a_lost_connection_requests_one_restart() {
    let mut runner = identified(1000);
    runner.connection_lost();
    assert!(runner.is_finished());
    assert_eq!(runner.shard.stage(), Stage::Disconnected);
    assert!(runner.shard.is_closed());
    runner.connection_lost();
    assert_eq!(runner.take_reports(), vec![ShardManagerMessage::Restart]);
    assert_eq!(runner.run(5).unwrap(), Progress::Finished);
    assert!(runner.take_reports().is_empty());
}

#[test]
fn a_lost_connection_after_the_end_requests_nothing() {
    let mut runner = identified(1000);
    runner.post(InterMessage::Close);
    assert_eq!(runner.run(1).unwrap(), Progress::Finished);
    runner.connection_lost();
    assert!(runner.take_reports().is_empty());
}
