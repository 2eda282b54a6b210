//! What holds of every run of the loop.

use vstd::prelude::*;

use crate::errors::Fault;
use crate::json::json_text;
use crate::manager::types::{ShardManagerMessage, ShardRunnerUpdate};
use crate::runner::{Progress, Reception, ShardRunnerView};
use crate::shard::error::{CloseFrame, GatewayErrorView, INVALID_AUTH};
use crate::shard::socket::{
    convert_spec, identify_payload_spec, ConnectionView, Delivery, Message,
};
use crate::shard::theorems::theorem_missed_answer_fails_check;
use crate::shard::types::{
    decode_spec, GatewayEvent, InterMessage, ReconnectType, ShardAction, Stage,
};
use crate::shard::ShardView;

verus! {

/// How many of `reports` ask for a restart.
pub open spec fn restarts(reports: Seq<ShardManagerMessage>) -> nat
    decreases reports.len(),
{
    if reports.len() == 0 {
        0
    } else {
        restarts(reports.drop_last()) + if reports.last() is Restart {
            1nat
        } else {
            0nat
        }
    }
}

/// Whether `later` is `earlier` with at most one request for a restart more,
/// and that one, if it is there, at the very end.
pub open spec fn at_most_one_restart_more(
    earlier: Seq<ShardManagerMessage>,
    later: Seq<ShardManagerMessage>,
) -> bool {
    ||| restarts(later) == restarts(earlier)
    ||| {
        &&& restarts(later) == restarts(earlier) + 1
        &&& later.len() > 0
        &&& later.last() is Restart
    }
}

/// One more report is one more request for a restart exactly when it is one.
pub proof fn lemma_restarts_push(reports: Seq<ShardManagerMessage>, report: ShardManagerMessage)
    ensures
        restarts(reports.push(report)) == restarts(reports) + if report is Restart {
            1nat
        } else {
            0nat
        },
{
    assert(reports.push(report).drop_last() =~= reports);
}

/// What taking the commands can change: where the loop goes on, no command is
/// left, nothing has been reported, and of the shard only what waits to be
/// written has changed; where it ends, at most a request for a restart has
/// been reported.
pub proof fn lemma_commands(runner: ShardRunnerView)
    ensures
        runner.recieve_internal().1 ==> runner.recieve_internal().0 == (ShardRunnerView {
            commands: Seq::<InterMessage>::empty(),
            shard: ShardView {
                client: ConnectionView {
                    outbound: runner.recieve_internal().0.shard.client.outbound,
                    ..runner.shard.client
                },
                ..runner.shard
            },
            ..runner
        }),
        !runner.recieve_internal().1 ==> runner.recieve_internal().0.reports == runner.reports
            || runner.recieve_internal().0.reports == runner.reports.push(
            ShardManagerMessage::Restart,
        ),
        runner.shard.stage.progress() <= runner.recieve_internal().0.shard.stage.progress(),
    decreases runner.commands.len(),
{
    if runner.commands.len() > 0 {
        let rest = ShardRunnerView {
            commands: runner.commands.subrange(1, runner.commands.len() as int),
            ..runner
        };
        let (next, proceed) = rest.handle_rx_message(runner.commands[0]);
        if proceed {
            lemma_commands(next);
        }
    } else {
        assert(runner.commands =~= Seq::<InterMessage>::empty());
    }
}

/// Whether every payload among the first `count` commands can be forwarded:
/// the connection is open and each payload can be written as JSON text.
pub open spec fn forwardable(runner: ShardRunnerView, count: int) -> bool {
    &&& !runner.shard.client.closed
    &&& forall|k: int|
        0 <= k < count && k < runner.commands.len() ==> (#[trigger] runner.commands[k]
            matches InterMessage::Json(value) ==> json_text(value) is Some)
}

/// A `Close` among the commands ends the loop, and nothing is reported on the
/// way to it, where every payload before it can be forwarded.
pub proof fn lemma_close_ends_commands(runner: ShardRunnerView, at: int)
    requires
        0 <= at < runner.commands.len(),
        runner.commands[at] == InterMessage::Close,
        forwardable(runner, at),
    ensures
        !runner.recieve_internal().1,
        runner.recieve_internal().0.reports == runner.reports,
    decreases runner.commands.len(),
{
    let rest = ShardRunnerView {
        commands: runner.commands.subrange(1, runner.commands.len() as int),
        ..runner
    };
    let (next, proceed) = rest.handle_rx_message(runner.commands[0]);
    if at > 0 {
        assert(runner.commands[0] matches InterMessage::Json(value) ==> json_text(value)
            is Some);
        if proceed {
            assert(next.commands[at - 1] == runner.commands[at]);
            assert forall|k: int| 0 <= k < at - 1 && k < next.commands.len() implies (
            #[trigger] next.commands[k] matches InterMessage::Json(value) ==> json_text(value)
                is Some) by {
                assert(next.commands[k] == runner.commands[k + 1]);
            }
            lemma_close_ends_commands(next, at - 1);
        }
    }
}

/// `Close` among the waiting commands ends the loop without an error, and
/// without a request for a restart or any other report, where every payload
/// that waits before it can be forwarded. (A payload that cannot be forwarded
/// ends the loop before the `Close` is reached, with a request for a restart.)
pub proof fn theorem_close_ends_the_loop(runner: ShardRunnerView, at: int, now: u64)
    requires
        0 <= at < runner.commands.len(),
        runner.commands[at] == InterMessage::Close,
        forwardable(runner, at),
    ensures
        runner.iterate(now).1 == Ok::<bool, Fault>(false),
        runner.run(now).1 == Ok::<Progress, Fault>(Progress::Finished),
        runner.run(now).0 == runner.iterate(now).0,
        runner.run(now).0.reports == runner.reports,
{
    lemma_close_ends_commands(runner, at);
}

/// A payload that cannot be forwarded makes the runner ask for a restart once,
/// and the loop ends; the commands behind it are not taken.
pub proof fn theorem_failed_forward_restarts_once(
    runner: ShardRunnerView,
    value: serde_json::Value,
    now: u64,
)
    requires
        !runner.finished,
        runner.commands.len() > 0,
        runner.commands[0] == InterMessage::Json(value),
        runner.shard.client.send(value).1 is Err,
    ensures
        runner.run(now).1 == Ok::<Progress, Fault>(Progress::Finished),
        runner.run(now).0.reports == runner.reports.push(ShardManagerMessage::Restart),
        runner.run(now).0.commands == runner.commands.subrange(1, runner.commands.len() as int),
        runner.run(now).0.shard.client.outbound == runner.shard.client.outbound,
        runner.run(now).0.finished,
{
}

/// A heartbeat that is due while the last one is unanswered makes the runner
/// ask for a restart once, and the loop ends: unless the commands have ended
/// it before.
pub proof fn theorem_missed_heartbeat_restarts_once(runner: ShardRunnerView, now: u64)
    requires
        !runner.finished,
        runner.recieve_internal().1,
        runner.shard.beat_due(now),
        !runner.shard.last_heartbeat_acknowledged,
    ensures
        runner.iterate(now).1 == Ok::<bool, Fault>(false),
        runner.run(now).1 == Ok::<Progress, Fault>(Progress::Finished),
        runner.run(now).0 == runner.iterate(now).0,
        runner.run(now).0.reports == runner.reports.push(ShardManagerMessage::Restart),
        runner.run(now).0.shard.stage == Stage::Disconnected,
{
    lemma_commands(runner);
    theorem_missed_answer_fails_check(runner.recieve_internal().0.shard, now);
}

/// Handing an event to the shard reports nothing, but for the rejection of
/// the credentials: that is reported, and it is the error.
pub proof fn lemma_interpret_reports(
    runner: ShardRunnerView,
    incoming: Result<GatewayEvent, Fault>,
    now: u64,
)
    ensures
        match runner.interpret(incoming, now).1 {
            Ok(reception) => runner.interpret(incoming, now).0.reports == runner.reports,
            Err(fault) => {
                &&& fault == Fault::Gateway(GatewayErrorView::InvalidAuthentication)
                &&& runner.interpret(incoming, now).0.reports == runner.reports.push(
                    ShardManagerMessage::InvalidAuthentication,
                )
                &&& runner.interpret(incoming, now).0.shard == runner.shard
            },
        },
{
}

/// An attempt to receive reports nothing, but for the rejection of the
/// credentials: that is reported, and it is the error.
pub proof fn lemma_receiving_reports(runner: ShardRunnerView, now: u64)
    ensures
        match runner.recieve_event(now).1 {
            Ok(reception) => runner.recieve_event(now).0.reports == runner.reports,
            Err(fault) => {
                &&& fault == Fault::Gateway(GatewayErrorView::InvalidAuthentication)
                &&& runner.recieve_event(now).0.reports == runner.reports.push(
                    ShardManagerMessage::InvalidAuthentication,
                )
            },
        },
{
    let (client, received) = runner.shard.client.receive();
    let polled = ShardRunnerView { shard: ShardView { client, ..runner.shard }, ..runner };
    match received {
        Ok(Some(frame)) => {
            lemma_interpret_reports(polled, crate::shard::types::decode_spec(frame), now);
        },
        Err(fault) => {
            lemma_interpret_reports(polled, Err(fault), now);
        },
        _ => {},
    }
}

/// The rejection of the credentials is the only error that ends the loop. It
/// is reported to the manager once, as `InvalidAuthentication`, and no
/// restart is asked for.
pub proof fn theorem_rejection_ends_without_restart(runner: ShardRunnerView, now: u64)
    requires
        runner.iterate(now).1 is Err,
    ensures
        runner.iterate(now).1 == Err::<bool, Fault>(
            Fault::Gateway(GatewayErrorView::InvalidAuthentication),
        ),
        runner.iterate(now).0.reports == runner.reports.push(
            ShardManagerMessage::InvalidAuthentication,
        ),
        restarts(runner.iterate(now).0.reports) == restarts(runner.reports),
        runner.run(now) == (
            runner.iterate(now).0,
            Err::<Progress, Fault>(Fault::Gateway(GatewayErrorView::InvalidAuthentication)),
        ),
{
    lemma_commands(runner);
    let drained = runner.recieve_internal().0;
    let (shard, alive) = drained.shard.check_heartbeat(now);
    let checked = ShardRunnerView { shard, ..drained };
    lemma_receiving_reports(checked, now);
    lemma_restarts_push(runner.reports, ShardManagerMessage::InvalidAuthentication);
}

/// When the shard reads the rejection of the credentials out of what it is
/// handed, the runner reports `InvalidAuthentication` once and fails with it.
pub proof fn theorem_rejection_is_reported(
    runner: ShardRunnerView,
    incoming: Result<GatewayEvent, Fault>,
    now: u64,
)
    requires
        runner.shard.handle_event(incoming, now).1 == Err::<Option<ShardAction>, Fault>(
            Fault::Gateway(GatewayErrorView::InvalidAuthentication),
        ),
    ensures
        runner.interpret(incoming, now) == (
            runner.report(ShardManagerMessage::InvalidAuthentication),
            Err::<Reception, Fault>(Fault::Gateway(GatewayErrorView::InvalidAuthentication)),
        ),
{
}

/// `InvalidSession` and `Reconnect` make the runner ask for a restart once,
/// and the loop ends. Before that the runner reports that the session has
/// ended, unless it had ended already; after it nothing is reported.
pub proof fn theorem_reconnect_restarts_once(
    runner: ShardRunnerView,
    event: GatewayEvent,
    now: u64,
)
    requires
        event == GatewayEvent::InvalidSession || event == GatewayEvent::Reconnect,
    ensures
        runner.interpret(Ok(event), now).1 == Ok::<Reception, Fault>(
            (None, Some(ShardAction::Reconnect(ReconnectType::Reidentify)), true),
        ),
        ({
            let (handled, reception) = runner.interpret(Ok(event), now);
            let (settled, proceed) = handled.settle(runner.shard.stage, reception->Ok_0, now);
            &&& !proceed
            &&& settled.shard == runner.shard.disconnect()
            &&& settled.reports == if runner.shard.stage == Stage::Disconnected {
                runner.reports.push(ShardManagerMessage::Restart)
            } else {
                runner.reports.push(
                    ShardManagerMessage::Update(
                        ShardRunnerUpdate {
                            latency: runner.shard.latency,
                            stage: Stage::Disconnected,
                        },
                    ),
                ).push(ShardManagerMessage::Restart)
            }
            &&& restarts(settled.reports) == restarts(runner.reports) + 1
        }),
{
    lemma_restarts_push(runner.reports, ShardManagerMessage::Restart);
    let update = ShardManagerMessage::Update(
        ShardRunnerUpdate { latency: runner.shard.latency, stage: Stage::Disconnected },
    );
    lemma_restarts_push(runner.reports, update);
    lemma_restarts_push(runner.reports.push(update), ShardManagerMessage::Restart);
}

/// The action `Reconnect(Reidentify)` always makes the runner ask for a
/// restart once and end the loop, and nothing is reported after the request.
pub proof fn theorem_reconnect_action_restarts(
    runner: ShardRunnerView,
    previous: Stage,
    payload: Option<serde_json::Value>,
    success: bool,
    now: u64,
)
    ensures
        ({
            let (settled, proceed) = runner.settle(
                previous,
                (payload, Some(ShardAction::Reconnect(ReconnectType::Reidentify)), success),
                now,
            );
            &&& !proceed
            &&& settled.reports == if previous != runner.shard.stage {
                runner.update_manager().reports.push(ShardManagerMessage::Restart)
            } else {
                runner.reports.push(ShardManagerMessage::Restart)
            }
            &&& settled.reports.last() == ShardManagerMessage::Restart
            &&& restarts(settled.reports) == restarts(runner.reports) + 1
        }),
{
    lemma_restarts_push(runner.reports, ShardManagerMessage::Restart);
    lemma_restarts_push(runner.reports, runner.update_manager().reports.last());
    lemma_restarts_push(runner.update_manager().reports, ShardManagerMessage::Restart);
}

/// Carrying out an action asks for a restart only where the action is
/// `Reconnect`.
pub proof fn lemma_action_reports(runner: ShardRunnerView, action: ShardAction, now: u64)
    ensures
        restarts(runner.action(action, now).0.reports) == restarts(runner.reports) + if action
            is Reconnect {
            1nat
        } else {
            0nat
        },
{
    lemma_restarts_push(runner.reports, ShardManagerMessage::Restart);
    match action {
        ShardAction::Identify => {
            let (shard, sent) = runner.shard.identify();
            let identified = ShardRunnerView { shard, ..runner };
            lemma_restarts_push(runner.reports, identified.update_manager().reports.last());
        },
        ShardAction::Update => {
            lemma_restarts_push(runner.reports, runner.update_manager().reports.last());
        },
        _ => {},
    }
}

/// What follows an attempt to receive asks for a restart at most once, and
/// where it does, the request is the last report and the loop ends.
pub proof fn lemma_settling_reports(
    runner: ShardRunnerView,
    previous: Stage,
    reception: Reception,
    now: u64,
)
    ensures
        at_most_one_restart_more(runner.reports, runner.settle(previous, reception, now).0.reports),
        runner.settle(previous, reception, now).1 ==> restarts(
            runner.settle(previous, reception, now).0.reports,
        ) == restarts(runner.reports),
{
    let (payload, action, success) = reception;
    let noted = if previous != runner.shard.stage {
        runner.update_manager()
    } else {
        runner
    };
    if previous != runner.shard.stage {
        lemma_restarts_push(runner.reports, noted.reports.last());
    }
    lemma_restarts_push(noted.reports, ShardManagerMessage::Restart);
    match action {
        Some(ShardAction::Reconnect(ReconnectType::Reidentify)) => {},
        _ => {
            let (acted, done) = match action {
                Some(other) => noted.action(other, now),
                None => (noted, Ok(())),
            };
            match action {
                Some(other) => {
                    lemma_action_reports(noted, other, now);
                },
                None => {},
            }
            lemma_restarts_push(acted.reports, ShardManagerMessage::Restart);
            let passed = match payload {
                Some(payload) => acted.report(ShardManagerMessage::Event(payload)),
                None => acted,
            };
            match payload {
                Some(payload) => {
                    lemma_restarts_push(acted.reports, ShardManagerMessage::Event(payload));
                },
                None => {},
            }
            lemma_restarts_push(passed.reports, ShardManagerMessage::Restart);
        },
    }
}

/// One turn of the loop asks for a restart at most once. Where it does, the
/// request is its last report and the loop ends without an error; where the
/// loop goes on, and where it fails, no restart has been asked for.
pub proof fn theorem_turn_restarts_at_most_once(runner: ShardRunnerView, now: u64)
    ensures
        at_most_one_restart_more(runner.reports, runner.iterate(now).0.reports),
        runner.iterate(now).1 != Ok::<bool, Fault>(false) ==> restarts(
            runner.iterate(now).0.reports,
        ) == restarts(runner.reports),
{
    lemma_commands(runner);
    lemma_restarts_push(runner.reports, ShardManagerMessage::Restart);
    let (drained, proceed) = runner.recieve_internal();
    if proceed {
        let (shard, alive) = drained.shard.check_heartbeat(now);
        let checked = ShardRunnerView { shard, ..drained };
        if alive {
            lemma_receiving_reports(checked, now);
            let (received, reception) = checked.recieve_event(now);
            match reception {
                Ok(reception) => {
                    lemma_settling_reports(received, checked.shard.stage, reception, now);
                },
                Err(_) => {
                    lemma_restarts_push(
                        runner.reports,
                        ShardManagerMessage::InvalidAuthentication,
                    );
                },
            }
        }
    }
}

/// A run of the loop asks for a restart at most once, however many turns it
/// takes. Where it does, the request is its last report and the loop has
/// ended without an error: no failure is answered with two requests, and
/// nothing follows a request.
pub proof fn theorem_run_restarts_at_most_once(runner: ShardRunnerView, now: u64)
    ensures
        at_most_one_restart_more(runner.reports, runner.run(now).0.reports),
        runner.run(now).1 != Ok::<Progress, Fault>(Progress::Finished) ==> restarts(
            runner.run(now).0.reports,
        ) == restarts(runner.reports),
    decreases runner.shard.client.inbound.len(),
{
    theorem_turn_restarts_at_most_once(runner, now);
    let (next, turn) = runner.iterate(now);
    if turn == Ok::<bool, Fault>(true) && runner.shard.client.inbound.len() > 0 {
        crate::runner::lemma_turn_consumes(runner, now);
        theorem_run_restarts_at_most_once(next, now);
    }
}

/// A loop that has ended does nothing more: no turn is made, nothing is sent
/// and nothing reported.
pub proof fn theorem_finished_runner_rests(runner: ShardRunnerView, now: u64)
    requires
        runner.finished,
    ensures
        runner.iterate(now) == (runner, Ok::<bool, Fault>(false)),
        runner.run(now) == (runner, Ok::<Progress, Fault>(Progress::Finished)),
{
}

/// The end of the loop is final: after a turn that ended the loop or failed,
/// and after a run that did not end waiting, the runner has finished.
pub proof fn theorem_end_is_final(runner: ShardRunnerView, now: u64)
    ensures
        runner.iterate(now).1 != Ok::<bool, Fault>(true) ==> runner.iterate(now).0.finished,
        runner.run(now).1 != Ok::<Progress, Fault>(Progress::Waiting) ==> runner.run(
            now,
        ).0.finished,
    decreases runner.shard.client.inbound.len(),
{
    let (next, turn) = runner.iterate(now);
    if turn == Ok::<bool, Fault>(true) && runner.shard.client.inbound.len() > 0 {
        crate::runner::lemma_turn_consumes(runner, now);
        theorem_end_is_final(next, now);
    }
}

/// A runner asks for a restart at most once in its life. Whatever is
/// delivered, posted or taken between two runs, the second run adds no
/// request to one that the first has made.
pub proof fn theorem_restart_is_requested_once(
    runner: ShardRunnerView,
    first: u64,
    later: ShardRunnerView,
    second: u64,
)
    requires
        later.reports == runner.run(first).0.reports,
        later.finished == runner.run(first).0.finished,
    ensures
        at_most_one_restart_more(runner.reports, later.run(second).0.reports),
{
    theorem_run_restarts_at_most_once(runner, first);
    theorem_end_is_final(runner, first);
    theorem_run_restarts_at_most_once(later, second);
    if later.finished {
        theorem_finished_runner_rests(later, second);
    }
}

/// The loss of the connection is answered with one request for a restart,
/// and with none where the loop has ended before; after it the loop has
/// ended.
pub proof fn theorem_lost_connection_restarts_once(runner: ShardRunnerView, now: u64)
    ensures
        runner.connection_lost().finished,
        runner.connection_lost().reports == if runner.finished {
            runner.reports
        } else {
            runner.reports.push(ShardManagerMessage::Restart)
        },
        at_most_one_restart_more(runner.reports, runner.connection_lost().reports),
        runner.connection_lost().run(now).0.reports == runner.connection_lost().reports,
{
    lemma_restarts_push(runner.reports, ShardManagerMessage::Restart);
    theorem_finished_runner_rests(runner.connection_lost(), now);
}

/// A close frame with the code `INVALID_AUTH`, received by a runner that has
/// no command to take and no heartbeat to send, ends the loop with
/// `InvalidAuthentication`: that is reported once, no restart is asked for,
/// and the session is left as it was.
pub proof fn theorem_rejecting_close_frame_ends_the_loop(
    runner: ShardRunnerView,
    frame: CloseFrame,
    now: u64,
)
    requires
        !runner.finished,
        runner.commands.len() == 0,
        runner.commands_open,
        !runner.shard.beat_due(now),
        runner.shard.client.inbound.len() > 0,
        runner.shard.client.inbound[0] == Delivery::Message(Message::Close(Some(frame))),
        frame.code == INVALID_AUTH,
    ensures
        runner.run(now).1 == Err::<Progress, Fault>(
            Fault::Gateway(GatewayErrorView::InvalidAuthentication),
        ),
        runner.run(now).0.reports == runner.reports.push(
            ShardManagerMessage::InvalidAuthentication,
        ),
        runner.run(now).0.finished,
        runner.run(now).0.shard.stage == runner.shard.stage,
        runner.run(now).0.shard.client.outbound == runner.shard.client.outbound,
{
}

/// Whether `later` begins with all of `earlier`, in the same order.
pub open spec fn continues(
    earlier: Seq<ShardManagerMessage>,
    later: Seq<ShardManagerMessage>,
) -> bool {
    earlier.len() <= later.len() && later.subrange(0, earlier.len() as int) =~= earlier
}

/// One more report continues what was reported.
pub proof fn lemma_continues_push(
    earlier: Seq<ShardManagerMessage>,
    later: Seq<ShardManagerMessage>,
    report: ShardManagerMessage,
)
    ensures
        continues(earlier, earlier),
        continues(earlier, later) ==> continues(earlier, later.push(report)),
{
    if continues(earlier, later) {
        assert(later.push(report).subrange(0, earlier.len() as int) =~= later.subrange(
            0,
            earlier.len() as int,
        ));
    }
}

/// What continues a continuation continues the beginning.
pub proof fn lemma_continues_on(
    earlier: Seq<ShardManagerMessage>,
    between: Seq<ShardManagerMessage>,
    later: Seq<ShardManagerMessage>,
)
    requires
        continues(earlier, between),
        continues(between, later),
    ensures
        continues(earlier, later),
{
    assert(later.subrange(0, earlier.len() as int) =~= later.subrange(
        0,
        between.len() as int,
    ).subrange(0, earlier.len() as int));
}

/// Carrying out an action takes no report back and changes none.
pub proof fn lemma_action_continues(runner: ShardRunnerView, action: ShardAction, now: u64)
    ensures
        continues(runner.reports, runner.action(action, now).0.reports),
{
    lemma_continues_push(runner.reports, runner.reports, ShardManagerMessage::Restart);
    match action {
        ShardAction::Identify => {
            let (shard, sent) = runner.shard.identify();
            let identified = ShardRunnerView { shard, ..runner };
            lemma_continues_push(
                runner.reports,
                runner.reports,
                identified.update_manager().reports.last(),
            );
        },
        ShardAction::Update => {
            lemma_continues_push(
                runner.reports,
                runner.reports,
                runner.update_manager().reports.last(),
            );
        },
        _ => {},
    }
}

/// What follows an attempt to receive takes no report back and changes none;
/// and where the stage is not the one before the attempt, the first thing
/// reported is the shard's latency and its new stage.
pub proof fn theorem_stage_change_is_reported(
    runner: ShardRunnerView,
    previous: Stage,
    reception: Reception,
    now: u64,
)
    ensures
        continues(runner.reports, runner.settle(previous, reception, now).0.reports),
        previous != runner.shard.stage ==> continues(
            runner.update_manager().reports,
            runner.settle(previous, reception, now).0.reports,
        ),
{
    let (payload, action, success) = reception;
    let noted = if previous != runner.shard.stage {
        runner.update_manager()
    } else {
        runner
    };
    lemma_continues_push(noted.reports, noted.reports, ShardManagerMessage::Restart);
    match action {
        Some(ShardAction::Reconnect(ReconnectType::Reidentify)) => {},
        _ => {
            let (acted, done) = match action {
                Some(other) => noted.action(other, now),
                None => (noted, Ok(())),
            };
            match action {
                Some(other) => {
                    lemma_action_continues(noted, other, now);
                },
                None => {},
            }
            lemma_continues_push(noted.reports, acted.reports, ShardManagerMessage::Restart);
            let passed = match payload {
                Some(payload) => acted.report(ShardManagerMessage::Event(payload)),
                None => acted,
            };
            match payload {
                Some(payload) => {
                    lemma_continues_push(
                        noted.reports,
                        acted.reports,
                        ShardManagerMessage::Event(payload),
                    );
                },
                None => {},
            }
            lemma_continues_push(noted.reports, passed.reports, ShardManagerMessage::Restart);
        },
    }
    if previous != runner.shard.stage {
        lemma_continues_push(runner.reports, runner.reports, noted.reports.last());
        lemma_continues_on(
            runner.reports,
            noted.reports,
            runner.settle(previous, reception, now).0.reports,
        );
    }
}

/// A turn of the loop takes no report back and changes none.
pub proof fn lemma_turn_continues(runner: ShardRunnerView, now: u64)
    ensures
        continues(runner.reports, runner.iterate(now).0.reports),
{
    lemma_commands(runner);
    lemma_continues_push(runner.reports, runner.reports, ShardManagerMessage::Restart);
    if !runner.finished {
        let (drained, proceed) = runner.recieve_internal();
        if proceed {
            let (shard, alive) = drained.shard.check_heartbeat(now);
            let checked = ShardRunnerView { shard, ..drained };
            if alive {
                lemma_receiving_reports(checked, now);
                let (received, reception) = checked.recieve_event(now);
                match reception {
                    Ok(reception) => {
                        theorem_stage_change_is_reported(
                            received,
                            checked.shard.stage,
                            reception,
                            now,
                        );
                    },
                    Err(_) => {
                        lemma_continues_push(
                            runner.reports,
                            runner.reports,
                            ShardManagerMessage::InvalidAuthentication,
                        );
                    },
                }
            }
        }
    }
}

/// The loop only adds to what it has reported: no report is taken back,
/// changed or moved, however many turns a run takes.
pub proof fn theorem_reports_only_grow(runner: ShardRunnerView, now: u64)
    ensures
        continues(runner.reports, runner.iterate(now).0.reports),
        continues(runner.reports, runner.run(now).0.reports),
    decreases runner.shard.client.inbound.len(),
{
    lemma_turn_continues(runner, now);
    let (next, turn) = runner.iterate(now);
    if turn == Ok::<bool, Fault>(true) && runner.shard.client.inbound.len() > 0 {
        crate::runner::lemma_turn_consumes(runner, now);
        theorem_reports_only_grow(next, now);
        lemma_continues_on(runner.reports, next.reports, next.run(now).0.reports);
    }
}

/// After the Hello a dispatch goes to the manager as it came: its payload is
/// the last thing reported, unchanged, the sequence number is recorded, and
/// the loop goes on.
pub proof fn theorem_dispatch_is_passed_on(
    runner: ShardRunnerView,
    sequence: u64,
    payload: serde_json::Value,
    now: u64,
)
    requires
        !runner.shard.stage.awaits_hello(),
    ensures
        ({
            let event = GatewayEvent::Dispatch { sequence, payload };
            let (handled, reception) = runner.interpret(Ok(event), now);
            let (settled, proceed) = handled.settle(runner.shard.stage, reception->Ok_0, now);
            &&& reception == Ok::<Reception, Fault>((Some(payload), None, true))
            &&& proceed
            &&& settled.reports.last() == ShardManagerMessage::Event(payload)
            &&& settled.reports.drop_last() == if handled.shard.stage != runner.shard.stage {
                runner.reports.push(
                    ShardManagerMessage::Update(
                        ShardRunnerUpdate {
                            latency: runner.shard.latency,
                            stage: handled.shard.stage,
                        },
                    ),
                )
            } else {
                runner.reports
            }
            &&& settled.shard.seq == Some(crate::shard::advanced(runner.shard.seq, sequence))
        }),
{
    let event = GatewayEvent::Dispatch { sequence, payload };
    let (handled, reception) = runner.interpret(Ok(event), now);
    let (settled, proceed) = handled.settle(runner.shard.stage, reception->Ok_0, now);
    assert(settled.reports.drop_last() =~= if handled.shard.stage != runner.shard.stage {
        runner.reports.push(
            ShardManagerMessage::Update(
                ShardRunnerUpdate { latency: runner.shard.latency, stage: handled.shard.stage },
            ),
        )
    } else {
        runner.reports
    });
}

/// The stage that a report carries, if it is an update.
pub open spec fn reported_stage(report: ShardManagerMessage) -> Option<Stage> {
    match report {
        ShardManagerMessage::Update(update) => Some(update.stage),
        _ => None,
    }
}

/// Whether the updates among `reports`, from the report at `from` on, carry
/// stages that never fall back: each is at least as far as `low`, no further
/// than `high`, and no further than any that is reported after it.
pub open spec fn stages_advance(
    reports: Seq<ShardManagerMessage>,
    from: int,
    low: Stage,
    high: Stage,
) -> bool {
    forall|i: int, j: int|
        from <= i <= j < reports.len() && (#[trigger] reported_stage(reports[i])) is Some && (
        #[trigger] reported_stage(reports[j])) is Some ==> low.progress() <= reported_stage(
            reports[i],
        )->0.progress() <= reported_stage(reports[j])->0.progress() <= high.progress()
}

/// One more report keeps the reported stages advancing, if it is no update or
/// carries a stage between the last bound and the new one.
pub proof fn lemma_stages_push(
    reports: Seq<ShardManagerMessage>,
    from: int,
    low: Stage,
    mid: Stage,
    high: Stage,
    report: ShardManagerMessage,
)
    requires
        0 <= from,
        stages_advance(reports, from, low, mid),
        low.progress() <= mid.progress() <= high.progress(),
        reported_stage(report) matches Some(stage) ==> mid.progress() <= stage.progress()
            <= high.progress(),
    ensures
        stages_advance(reports.push(report), from, low, high),
        stages_advance(reports, from, low, high),
{
    let pushed = reports.push(report);
    assert forall|i: int, j: int|
        from <= i <= j < pushed.len() && (#[trigger] reported_stage(pushed[i])) is Some && (
        #[trigger] reported_stage(pushed[j])) is Some implies low.progress() <= reported_stage(
        pushed[i],
    )->0.progress() <= reported_stage(pushed[j])->0.progress() <= high.progress() by {
        if j < reports.len() {
            assert(pushed[i] == reports[i] && pushed[j] == reports[j]);
            assert(reported_stage(reports[i]) is Some && reported_stage(reports[j]) is Some);
        } else if i < reports.len() {
            assert(pushed[i] == reports[i]);
            assert(reported_stage(reports[i]) is Some);
        }
    }
}

/// Reported stages that advance within narrower bounds advance within wider
/// ones.
pub proof fn lemma_stages_widen(
    reports: Seq<ShardManagerMessage>,
    from: int,
    low: Stage,
    high: Stage,
    lower: Stage,
    higher: Stage,
)
    requires
        stages_advance(reports, from, low, high),
        lower.progress() <= low.progress(),
        high.progress() <= higher.progress(),
    ensures
        stages_advance(reports, from, lower, higher),
{
}

/// Reports that advance up to a stage, continued by reports that advance from
/// that stage on, advance as a whole.
pub proof fn lemma_stages_join(
    earlier: Seq<ShardManagerMessage>,
    later: Seq<ShardManagerMessage>,
    from: int,
    low: Stage,
    mid: Stage,
    high: Stage,
)
    requires
        0 <= from <= earlier.len(),
        continues(earlier, later),
        stages_advance(earlier, from, low, mid),
        stages_advance(later, earlier.len() as int, mid, high),
        low.progress() <= mid.progress() <= high.progress(),
    ensures
        stages_advance(later, from, low, high),
{
    assert forall|i: int, j: int|
        from <= i <= j < later.len() && (#[trigger] reported_stage(later[i])) is Some && (
        #[trigger] reported_stage(later[j])) is Some implies low.progress() <= reported_stage(
        later[i],
    )->0.progress() <= reported_stage(later[j])->0.progress() <= high.progress() by {
        let kept = later.subrange(0, earlier.len() as int);
        if i < earlier.len() {
            assert(kept[i] == later[i]);
            assert(reported_stage(earlier[i]) is Some);
        }
        if j < earlier.len() {
            assert(kept[j] == later[j]);
            assert(reported_stage(earlier[j]) is Some);
        }
    }
}

/// Carrying out an action that the shard has called for reports no stage
/// behind the one the session is in.
pub proof fn lemma_action_stages(runner: ShardRunnerView, action: ShardAction, now: u64)
    requires
        action == ShardAction::Identify ==> runner.shard.stage != Stage::Connected,
    ensures
        runner.shard.stage.progress() <= runner.action(action, now).0.shard.stage.progress(),
        stages_advance(
            runner.action(action, now).0.reports,
            runner.reports.len() as int,
            runner.shard.stage,
            runner.action(action, now).0.shard.stage,
        ),
{
    let acted = runner.action(action, now).0;
    match action {
        ShardAction::Reconnect(_) => {
            lemma_stages_push(
                runner.reports,
                runner.reports.len() as int,
                runner.shard.stage,
                runner.shard.stage,
                runner.shard.stage,
                ShardManagerMessage::Restart,
            );
        },
        ShardAction::Heartbeat(tag) => {},
        ShardAction::Identify => {
            let (shard, sent) = runner.shard.identify();
            let identified = ShardRunnerView { shard, ..runner };
            lemma_stages_push(
                runner.reports,
                runner.reports.len() as int,
                runner.shard.stage,
                runner.shard.stage,
                shard.stage,
                identified.update_manager().reports.last(),
            );
        },
        ShardAction::Update => {
            lemma_stages_push(
                runner.reports,
                runner.reports.len() as int,
                runner.shard.stage,
                runner.shard.stage,
                runner.shard.stage,
                runner.update_manager().reports.last(),
            );
        },
    }
}

/// What follows an attempt to receive reports stages that never fall back,
/// from the stage before the attempt to the stage the session is left in.
pub proof fn lemma_settling_stages(
    runner: ShardRunnerView,
    previous: Stage,
    reception: Reception,
    now: u64,
)
    requires
        previous.progress() <= runner.shard.stage.progress(),
        reception.1 == Some(ShardAction::Identify) ==> runner.shard.stage != Stage::Connected,
    ensures
        runner.shard.stage.progress() <= runner.settle(
            previous,
            reception,
            now,
        ).0.shard.stage.progress(),
        stages_advance(
            runner.settle(previous, reception, now).0.reports,
            runner.reports.len() as int,
            previous,
            runner.settle(previous, reception, now).0.shard.stage,
        ),
{
    let (payload, action, success) = reception;
    let from = runner.reports.len() as int;
    let stage = runner.shard.stage;
    let noted = if previous != stage {
        runner.update_manager()
    } else {
        runner
    };
    if previous != stage {
        lemma_stages_push(runner.reports, from, previous, previous, stage, noted.reports.last());
    }
    assert(stages_advance(noted.reports, from, previous, stage));
    lemma_stages_push(noted.reports, from, previous, stage, stage, ShardManagerMessage::Restart);
    match action {
        Some(ShardAction::Reconnect(ReconnectType::Reidentify)) => {},
        _ => {
            let (acted, done) = match action {
                Some(other) => noted.action(other, now),
                None => (noted, Ok(())),
            };
            match action {
                Some(other) => {
                    lemma_action_stages(noted, other, now);
                    lemma_action_continues(noted, other, now);
                    lemma_stages_join(
                        noted.reports,
                        acted.reports,
                        from,
                        previous,
                        stage,
                        acted.shard.stage,
                    );
                },
                None => {},
            }
            let reached = acted.shard.stage;
            assert(stages_advance(acted.reports, from, previous, reached));
            lemma_stages_push(
                acted.reports,
                from,
                previous,
                reached,
                reached,
                ShardManagerMessage::Restart,
            );
            let passed = match payload {
                Some(payload) => acted.report(ShardManagerMessage::Event(payload)),
                None => acted,
            };
            match payload {
                Some(payload) => {
                    lemma_stages_push(
                        acted.reports,
                        from,
                        previous,
                        reached,
                        reached,
                        ShardManagerMessage::Event(payload),
                    );
                },
                None => {},
            }
            lemma_stages_push(
                passed.reports,
                from,
                previous,
                reached,
                reached,
                ShardManagerMessage::Restart,
            );
        },
    }
}

/// Handing an event to the shard never moves the session back, and where the
/// shard calls for `Identify`, the session is `Identifying`.
pub proof fn lemma_interpret_stage(
    runner: ShardRunnerView,
    incoming: Result<GatewayEvent, Fault>,
    now: u64,
)
    ensures
        runner.shard.stage.progress() <= runner.interpret(incoming, now).0.shard.stage.progress(),
        runner.interpret(incoming, now).1 matches Ok(reception) && reception.1 == Some(
            ShardAction::Identify,
        ) ==> runner.interpret(incoming, now).0.shard.stage == Stage::Identifying,
{
}

/// An attempt to receive never moves the session back, and where the shard
/// calls for `Identify`, the session is `Identifying`.
pub proof fn lemma_receiving_stage(runner: ShardRunnerView, now: u64)
    ensures
        runner.shard.stage.progress() <= runner.recieve_event(now).0.shard.stage.progress(),
        runner.recieve_event(now).1 matches Ok(reception) && reception.1 == Some(
            ShardAction::Identify,
        ) ==> runner.recieve_event(now).0.shard.stage == Stage::Identifying,
{
    let (client, received) = runner.shard.client.receive();
    let polled = ShardRunnerView { shard: ShardView { client, ..runner.shard }, ..runner };
    match received {
        Ok(Some(frame)) => {
            lemma_interpret_stage(polled, crate::shard::types::decode_spec(frame), now);
        },
        Err(fault) => {
            lemma_interpret_stage(polled, Err(fault), now);
        },
        _ => {},
    }
}

/// In one turn of the loop the session never moves back, and the stages that
/// the turn reports never fall back: they lead from the stage before the turn
/// to the stage after it.
pub proof fn lemma_turn_stages(runner: ShardRunnerView, now: u64)
    ensures
        runner.shard.stage.progress() <= runner.iterate(now).0.shard.stage.progress(),
        stages_advance(
            runner.iterate(now).0.reports,
            runner.reports.len() as int,
            runner.shard.stage,
            runner.iterate(now).0.shard.stage,
        ),
{
    let from = runner.reports.len() as int;
    let start = runner.shard.stage;
    lemma_commands(runner);
    if !runner.finished {
        let (drained, proceed) = runner.recieve_internal();
        lemma_stages_push(
            runner.reports,
            from,
            start,
            start,
            drained.shard.stage,
            ShardManagerMessage::Restart,
        );
        if proceed {
            let (shard, alive) = drained.shard.check_heartbeat(now);
            let checked = ShardRunnerView { shard, ..drained };
            lemma_stages_push(
                runner.reports,
                from,
                start,
                start,
                checked.shard.stage,
                ShardManagerMessage::Restart,
            );
            if alive {
                lemma_receiving_reports(checked, now);
                lemma_receiving_stage(checked, now);
                let (received, reception) = checked.recieve_event(now);
                match reception {
                    Ok(reception) => {
                        lemma_settling_stages(received, checked.shard.stage, reception, now);
                        let settled = received.settle(checked.shard.stage, reception, now).0;
                        lemma_stages_widen(
                            settled.reports,
                            from,
                            checked.shard.stage,
                            settled.shard.stage,
                            start,
                            settled.shard.stage,
                        );
                    },
                    Err(_) => {
                        lemma_stages_push(
                            runner.reports,
                            from,
                            start,
                            start,
                            received.shard.stage,
                            ShardManagerMessage::InvalidAuthentication,
                        );
                    },
                }
            }
        }
    }
}

/// In a run of the loop the session never moves back, and the stages that the
/// run reports to the manager never fall back: update after update they lead
/// from the stage before the run to the stage after it, whatever is received
/// and however many turns the run takes.
pub proof fn theorem_reported_stages_advance(runner: ShardRunnerView, now: u64)
    ensures
        runner.shard.stage.progress() <= runner.run(now).0.shard.stage.progress(),
        stages_advance(
            runner.run(now).0.reports,
            runner.reports.len() as int,
            runner.shard.stage,
            runner.run(now).0.shard.stage,
        ),
    decreases runner.shard.client.inbound.len(),
{
    lemma_turn_stages(runner, now);
    let (next, turn) = runner.iterate(now);
    if turn == Ok::<bool, Fault>(true) && runner.shard.client.inbound.len() > 0 {
        crate::runner::lemma_turn_consumes(runner, now);
        theorem_reported_stages_advance(next, now);
        theorem_reports_only_grow(next, now);
        lemma_turn_continues(runner, now);
        lemma_stages_join(
            next.reports,
            next.run(now).0.reports,
            runner.reports.len() as int,
            runner.shard.stage,
            next.shard.stage,
            next.run(now).0.shard.stage,
        );
    }
}

/// The event that a delivery is read as when it is received, if it is a
/// message that carries a frame and the frame is an event.
pub open spec fn delivered(delivery: Delivery, zlib: bool) -> Option<GatewayEvent> {
    match delivery {
        Delivery::Message(message) => match convert_spec(message, zlib) {
            Ok(Some(frame)) => match decode_spec(frame) {
                Ok(event) => Some(event),
                Err(_) => None,
            },
            _ => None,
        },
        Delivery::Failure(_) => None,
    }
}

/// Whether every one of `deliveries` is read as a dispatch or as the answer to
/// a heartbeat.
pub open spec fn carries_session(deliveries: Seq<Delivery>, zlib: bool) -> bool {
    forall|k: int|
        0 <= k < deliveries.len() ==> match delivered(#[trigger] deliveries[k], zlib) {
            Some(event) => event is Dispatch || event is HeartbeatAck,
            None => false,
        }
}

/// Whether `deliveries` is read as a Hello followed by dispatches and answers
/// to heartbeats, at least one.
pub open spec fn carries_handshake(deliveries: Seq<Delivery>, zlib: bool) -> bool {
    &&& deliveries.len() >= 2
    &&& delivered(deliveries[0], zlib) matches Some(event) && event is Hello
    &&& carries_session(deliveries.subrange(1, deliveries.len() as int), zlib)
}

/// Whether the runner has nothing to do but to receive: the loop has not
/// ended, no command waits, and the connection is open.
pub open spec fn attentive(runner: ShardRunnerView) -> bool {
    &&& !runner.finished
    &&& runner.commands.len() == 0
    &&& runner.commands_open
    &&& !runner.shard.client.closed
}

/// Whether the session has been greeted and is on its way: `Identifying` or
/// `Connected`, with no heartbeat due at `now`.
pub open spec fn under_way(runner: ShardRunnerView, now: u64) -> bool {
    &&& attentive(runner)
    &&& runner.shard.stage == Stage::Identifying || runner.shard.stage == Stage::Connected
    &&& !runner.shard.beat_due(now)
}

proof fn lemma_session_turn(runner: ShardRunnerView, now: u64)
    requires
        under_way(runner, now),
        runner.shard.client.inbound.len() > 0,
        carries_session(runner.shard.client.inbound, runner.shard.client.zlib),
    ensures
        runner.iterate(now).1 == Ok::<bool, Fault>(true),
        under_way(runner.iterate(now).0, now),
        runner.iterate(now).0.shard.stage == Stage::Connected,
        runner.iterate(now).0.shard.client.zlib == runner.shard.client.zlib,
        runner.iterate(now).0.shard.client.inbound == runner.shard.client.inbound.subrange(
            1,
            runner.shard.client.inbound.len() as int,
        ),
{
    let first = runner.shard.client.inbound[0];
    assert(delivered(first, runner.shard.client.zlib) is Some);
    assert(runner.recieve_internal() == (runner, true));
}

proof fn lemma_session_run(runner: ShardRunnerView, now: u64)
    requires
        under_way(runner, now),
        carries_session(runner.shard.client.inbound, runner.shard.client.zlib),
    ensures
        runner.run(now).1 == Ok::<Progress, Fault>(Progress::Waiting),
        runner.run(now).0.shard.stage == if runner.shard.client.inbound.len() > 0 {
            Stage::Connected
        } else {
            runner.shard.stage
        },
    decreases runner.shard.client.inbound.len(),
{
    let inbound = runner.shard.client.inbound;
    if inbound.len() > 0 {
        lemma_session_turn(runner, now);
        let next = runner.iterate(now).0;
        assert forall|k: int| 0 <= k < next.shard.client.inbound.len() implies match delivered(
            #[trigger] next.shard.client.inbound[k],
            next.shard.client.zlib,
        ) {
            Some(event) => event is Dispatch || event is HeartbeatAck,
            None => false,
        } by {
            assert(next.shard.client.inbound[k] == inbound[k + 1]);
        }
        lemma_session_run(next, now);
    } else {
        assert(runner.recieve_internal() == (runner, true));
    }
}

/// A shard that waits for the Hello and whose credentials can be sent is
/// handed a Hello, then dispatches and answers to heartbeats, at least one.
/// One run of the loop takes them all and waits for more; the session is
/// `Connected`; no restart is asked for; and the stages that the run reports
/// lead from the first stage to `Connected` without falling back, so that
/// none of them is `Disconnected`.
pub proof fn theorem_handshake_run_connects(runner: ShardRunnerView, now: u64)
    requires
        attentive(runner),
        runner.shard.stage.awaits_hello(),
        runner.shard.heartbeat_interval is None,
        json_text(identify_payload_spec(runner.shard.project, runner.shard.token)) is Some,
        carries_handshake(runner.shard.client.inbound, runner.shard.client.zlib),
    ensures
        runner.run(now).1 == Ok::<Progress, Fault>(Progress::Waiting),
        runner.run(now).0.shard.stage == Stage::Connected,
        restarts(runner.run(now).0.reports) == restarts(runner.reports),
        continues(runner.reports, runner.run(now).0.reports),
        stages_advance(
            runner.run(now).0.reports,
            runner.reports.len() as int,
            runner.shard.stage,
            Stage::Connected,
        ),
        forall|k: int|
            runner.reports.len() <= k < runner.run(now).0.reports.len() ==> reported_stage(
                #[trigger] runner.run(now).0.reports[k],
            ) != Some(Stage::Disconnected),
{
    let inbound = runner.shard.client.inbound;
    let zlib = runner.shard.client.zlib;
    assert(delivered(inbound[0], zlib) is Some);
    assert(runner.recieve_internal() == (runner, true));
    let (next, turn) = runner.iterate(now);
    assert(turn == Ok::<bool, Fault>(true));
    assert(next.shard.stage == Stage::Identifying);
    assert(under_way(next, now));
    assert(next.shard.client.inbound == inbound.subrange(1, inbound.len() as int));
    lemma_session_run(next, now);
    theorem_run_restarts_at_most_once(runner, now);
    theorem_reports_only_grow(runner, now);
    theorem_reported_stages_advance(runner, now);
    let reports = runner.run(now).0.reports;
    assert forall|k: int| runner.reports.len() <= k < reports.len() implies reported_stage(
        #[trigger] reports[k],
    ) != Some(Stage::Disconnected) by {
        if reported_stage(reports[k]) is Some {
            assert(reported_stage(reports[k])->0.progress() <= Stage::Connected.progress());
        }
    }
}

} // verus!
