//! The loop that drives one shard.
//!
//! A runner takes the commands of its owner, watches the heartbeat, receives
//! what the gateway sent, acts on it, and reports to the manager. It never
//! waits: commands and deliveries are handed to it, and what it has to say
//! waits in it until it is collected.

pub mod theorems;

use std::collections::VecDeque;
use vstd::prelude::*;

use crate::errors::{outcome, Fault, LeapError};
use crate::manager::types::{ShardManagerMessage, ShardRunnerUpdate};
use crate::shard::error::GatewayErrorView;
use crate::shard::types::{
    decode_spec, text_view, GatewayEvent, InterMessage, ReconnectType, ShardAction, Stage,
};
use crate::shard::{lemma_shard_leaves_inbound, Shard, ShardView};

verus! {

/// How a run of the loop ended.
#[derive(Clone, Copy, Debug, PartialEq, Eq, Structural)]
pub enum Progress {
    /// Everything that was delivered has been handled; the loop goes on when
    /// there is more.
    Waiting,
    /// The loop has ended.
    Finished,
}

/// What one attempt to receive an event gives: the payload to pass on to the
/// manager, the action to take, and whether the exchange succeeded.
pub type Reception = (Option<serde_json::Value>, Option<ShardAction>, bool);

/// The driver of one shard.
#[derive(Debug)]
pub struct ShardRunner {
    manager_tx: Vec<ShardManagerMessage>,
    runner_rx: VecDeque<InterMessage>,
    runner_rx_open: bool,
    finished: bool,
    /// The shard that is driven.
    pub shard: Shard,
}

/// Mathematical model of a [`ShardRunner`].
pub struct ShardRunnerView {
    /// The reports that wait to be collected, oldest first.
    pub reports: Seq<ShardManagerMessage>,
    /// The commands that wait to be taken, oldest first.
    pub commands: Seq<InterMessage>,
    /// Whether more commands can still come.
    pub commands_open: bool,
    /// Whether the loop has ended, for good.
    pub finished: bool,
    /// The shard that is driven.
    pub shard: ShardView,
}

/// The payload that an inbound event has for the manager.
pub open spec fn payload_of(incoming: Result<GatewayEvent, Fault>) -> Option<serde_json::Value> {
    match incoming {
        Ok(GatewayEvent::Dispatch { sequence, payload }) => Some(payload),
        _ => None,
    }
}

impl ShardRunnerView {
    /// The runner after `report` has been added to its reports.
    pub open spec fn report(self, report: ShardManagerMessage) -> ShardRunnerView {
        ShardRunnerView { reports: self.reports.push(report), ..self }
    }

    /// The runner after it has asked to be replaced.
    pub open spec fn request_restart(self) -> ShardRunnerView {
        self.report(ShardManagerMessage::Restart)
    }

    /// The runner after it has reported the shard's latency and stage.
    pub open spec fn update_manager(self) -> ShardRunnerView {
        self.report(
            ShardManagerMessage::Update(
                ShardRunnerUpdate { latency: self.shard.latency, stage: self.shard.stage },
            ),
        )
    }

    /// One command taken. A payload is forwarded to the gateway: if that
    /// succeeds the loop goes on, and if it fails the runner asks to be
    /// replaced and the loop ends. `Close` ends the session and the loop, and
    /// nothing is reported. The flag says whether the loop goes on.
    pub open spec fn handle_rx_message(self, message: InterMessage) -> (ShardRunnerView, bool) {
        match message {
            InterMessage::Json(value) => {
                let (client, sent) = self.shard.client.send(value);
                let next = ShardRunnerView { shard: ShardView { client, ..self.shard }, ..self };
                if sent is Ok {
                    (next, true)
                } else {
                    (next.request_restart(), false)
                }
            },
            InterMessage::Close => (
                ShardRunnerView { shard: self.shard.disconnect(), ..self },
                false,
            ),
        }
    }

    /// All waiting commands taken in their order, up to the first that ends
    /// the loop; the commands behind that one stay where they are. When none
    /// is left and none can come any more, the runner asks to be replaced. The
    /// flag says whether the loop goes on.
    pub open spec fn recieve_internal(self) -> (ShardRunnerView, bool)
        decreases self.commands.len(),
    {
        if self.commands.len() == 0 {
            if self.commands_open {
                (self, true)
            } else {
                (self.request_restart(), false)
            }
        } else {
            let rest = ShardRunnerView {
                commands: self.commands.subrange(1, self.commands.len() as int),
                ..self
            };
            let (next, proceed) = rest.handle_rx_message(self.commands[0]);
            if proceed {
                next.recieve_internal()
            } else {
                (next, false)
            }
        }
    }

    /// One event, or the failure to receive one, handed to the shard at `now`.
    ///
    /// If the shard finds the credentials rejected, that is reported to the
    /// manager and is the error. Any other error of the shard counts as no
    /// event. Else the result holds the payload of a dispatch and the action
    /// that the shard calls for. The exchange always counts as a success.
    pub open spec fn interpret(self, incoming: Result<GatewayEvent, Fault>, now: u64) -> (
        ShardRunnerView,
        Result<Reception, Fault>,
    ) {
        let (shard, action) = self.shard.handle_event(incoming, now);
        let handled = ShardRunnerView { shard, ..self };
        match action {
            Ok(action) => (handled, Ok((payload_of(incoming), action, true))),
            Err(fault) => if fault == Fault::Gateway(GatewayErrorView::InvalidAuthentication) {
                (handled.report(ShardManagerMessage::InvalidAuthentication), Err(fault))
            } else {
                (handled, Ok((None, None, true)))
            },
        }
    }

    /// One attempt to receive an event at `now`.
    ///
    /// Where nothing has been delivered, or the transport met an I/O error,
    /// there is no event this time, and that is a success. Else what was
    /// received is read as an event and handed to the shard.
    pub open spec fn recieve_event(self, now: u64) -> (ShardRunnerView, Result<Reception, Fault>) {
        let (client, received) = self.shard.client.receive();
        let polled = ShardRunnerView { shard: ShardView { client, ..self.shard }, ..self };
        match received {
            Ok(None) => (polled, Ok((None, None, true))),
            Err(Fault::TransportIo) => (polled, Ok((None, None, true))),
            Ok(Some(frame)) => polled.interpret(decode_spec(frame), now),
            Err(fault) => polled.interpret(Err(fault), now),
        }
    }

    /// One action carried out at `now`.
    pub open spec fn action(self, action: ShardAction, now: u64) -> (
        ShardRunnerView,
        Result<(), Fault>,
    ) {
        match action {
            ShardAction::Reconnect(ReconnectType::Reidentify) => (self.request_restart(), Ok(())),
            ShardAction::Heartbeat(tag) => {
                let (shard, sent) = self.shard.heartbeat(text_view(tag), now);
                (ShardRunnerView { shard, ..self }, sent)
            },
            ShardAction::Identify => {
                let (shard, sent) = self.shard.identify();
                ((ShardRunnerView { shard, ..self }).update_manager(), sent)
            },
            ShardAction::Update => (self.update_manager(), Ok(())),
        }
    }

    /// What follows the attempt to receive an event, at `now`.
    ///
    /// A stage other than `previous` is reported first. `Reconnect` makes the
    /// runner ask to be replaced, and the loop ends. Any other action is
    /// carried out; if that fails, the runner asks to be replaced and the loop
    /// ends. Then the payload goes to the manager. If the exchange did not
    /// succeed and the session is past its setup, the runner asks to be
    /// replaced and the loop ends. The flag says whether the loop goes on.
    pub open spec fn settle(self, previous: Stage, reception: Reception, now: u64) -> (
        ShardRunnerView,
        bool,
    ) {
        let (payload, action, success) = reception;
        let noted = if previous != self.shard.stage {
            self.update_manager()
        } else {
            self
        };
        match action {
            Some(ShardAction::Reconnect(ReconnectType::Reidentify)) => (
                noted.request_restart(),
                false,
            ),
            _ => {
                let (acted, done) = match action {
                    Some(other) => noted.action(other, now),
                    None => (noted, Ok(())),
                };
                if done is Err {
                    (acted.request_restart(), false)
                } else {
                    let passed = match payload {
                        Some(payload) => acted.report(ShardManagerMessage::Event(payload)),
                        None => acted,
                    };
                    if !success && !passed.shard.stage.is_connecting_spec() {
                        (passed.request_restart(), false)
                    } else {
                        (passed, true)
                    }
                }
            },
        }
    }

    /// One turn of the loop at `now`: commands, heartbeat, one event and what
    /// follows from it. The flag says whether the loop goes on; the error is
    /// the rejection of the credentials.
    pub open spec fn turn(self, now: u64) -> (ShardRunnerView, Result<bool, Fault>) {
        let (drained, proceed) = self.recieve_internal();
        if !proceed {
            (drained, Ok(false))
        } else {
            let (shard, alive) = drained.shard.check_heartbeat(now);
            let checked = ShardRunnerView { shard, ..drained };
            if !alive {
                (checked.request_restart(), Ok(false))
            } else {
                let (received, reception) = checked.recieve_event(now);
                match reception {
                    Ok(reception) => {
                        let (settled, proceed) = received.settle(
                            checked.shard.stage,
                            reception,
                            now,
                        );
                        (settled, Ok(proceed))
                    },
                    Err(fault) => (received, Err(fault)),
                }
            }
        }
    }

    /// The transport has failed to write or has lost its connection: the
    /// session ends, the runner asks to be replaced, and the loop has ended.
    /// After the end of the loop this changes nothing.
    pub open spec fn connection_lost(self) -> ShardRunnerView {
        if self.finished {
            self
        } else {
            ShardRunnerView {
                finished: true,
                ..(ShardRunnerView { shard: self.shard.disconnect(), ..self }).request_restart()
            }
        }
    }

    /// One turn of the loop at `now`, if the loop has not ended. A loop that
    /// has ended stays ended: nothing is done then, and nothing reported.
    pub open spec fn iterate(self, now: u64) -> (ShardRunnerView, Result<bool, Fault>) {
        if self.finished {
            (self, Ok(false))
        } else {
            let (next, turn) = self.turn(now);
            if turn == Ok::<bool, Fault>(true) {
                (next, turn)
            } else {
                (ShardRunnerView { finished: true, ..next }, turn)
            }
        }
    }

    /// The loop at `now`: turn after turn until the loop ends, or until a turn
    /// found nothing delivered.
    pub open spec fn run(self, now: u64) -> (ShardRunnerView, Result<Progress, Fault>)
        decreases self.shard.client.inbound.len(),
    {
        let (next, turn) = self.iterate(now);
        match turn {
            Err(fault) => (next, Err(fault)),
            Ok(false) => (next, Ok(Progress::Finished)),
            Ok(true) => if self.shard.client.inbound.len() == 0 {
                (next, Ok(Progress::Waiting))
            } else {
                proof {
                    lemma_turn_consumes(self, now);
                }
                next.run(now)
            },
        }
    }
}

/// Taking commands leaves the deliveries as they are.
pub proof fn lemma_commands_leave_inbound(runner: ShardRunnerView)
    ensures
        runner.recieve_internal().0.shard.client.inbound == runner.shard.client.inbound,
    decreases runner.commands.len(),
{
    if runner.commands.len() > 0 {
        let rest = ShardRunnerView {
            commands: runner.commands.subrange(1, runner.commands.len() as int),
            ..runner
        };
        let (next, proceed) = rest.handle_rx_message(runner.commands[0]);
        if proceed {
            lemma_commands_leave_inbound(next);
        }
    }
}

/// Handing an event to the shard leaves the deliveries as they are.
pub proof fn lemma_interpret_leaves_inbound(
    runner: ShardRunnerView,
    incoming: Result<GatewayEvent, Fault>,
    now: u64,
)
    ensures
        runner.interpret(incoming, now).0.shard.client.inbound == runner.shard.client.inbound,
{
    lemma_shard_leaves_inbound(runner.shard, None, incoming, now);
}

/// An attempt to receive takes the oldest delivery, if there is one, and no
/// other.
pub proof fn lemma_receiving_consumes(runner: ShardRunnerView, now: u64)
    ensures
        runner.recieve_event(now).0.shard.client.inbound == if runner.shard.client.inbound.len()
            == 0 {
            runner.shard.client.inbound
        } else {
            runner.shard.client.inbound.subrange(1, runner.shard.client.inbound.len() as int)
        },
{
    let (client, received) = runner.shard.client.receive();
    let polled = ShardRunnerView { shard: ShardView { client, ..runner.shard }, ..runner };
    match received {
        Ok(Some(frame)) => {
            lemma_interpret_leaves_inbound(polled, decode_spec(frame), now);
        },
        Err(fault) => {
            lemma_interpret_leaves_inbound(polled, Err(fault), now);
        },
        _ => {},
    }
}

/// Carrying out an action leaves the deliveries as they are.
pub proof fn lemma_action_leaves_inbound(runner: ShardRunnerView, action: ShardAction, now: u64)
    ensures
        runner.action(action, now).0.shard.client.inbound == runner.shard.client.inbound,
{
    match action {
        ShardAction::Heartbeat(tag) => {
            lemma_shard_leaves_inbound(runner.shard, text_view(tag), Err(Fault::Io), now);
        },
        _ => {
            lemma_shard_leaves_inbound(runner.shard, None, Err(Fault::Io), now);
        },
    }
}

/// What follows an attempt to receive leaves the deliveries as they are.
pub proof fn lemma_settling_leaves_inbound(
    runner: ShardRunnerView,
    previous: Stage,
    reception: Reception,
    now: u64,
)
    ensures
        runner.settle(previous, reception, now).0.shard.client.inbound
            == runner.shard.client.inbound,
{
    let noted = if previous != runner.shard.stage {
        runner.update_manager()
    } else {
        runner
    };
    match reception.1 {
        Some(other) => {
            lemma_action_leaves_inbound(noted, other, now);
        },
        None => {},
    }
}

/// A turn after which the loop goes on has received the oldest delivery, if
/// there was one, and no other.
pub proof fn lemma_turn_consumes(runner: ShardRunnerView, now: u64)
    requires
        runner.iterate(now).1 == Ok::<bool, Fault>(true),
    ensures
        runner.iterate(now).0.shard.client.inbound == if runner.shard.client.inbound.len() == 0 {
            runner.shard.client.inbound
        } else {
            runner.shard.client.inbound.subrange(1, runner.shard.client.inbound.len() as int)
        },
{
    lemma_commands_leave_inbound(runner);
    let (drained, proceed) = runner.recieve_internal();
    lemma_shard_leaves_inbound(drained.shard, None, Err(Fault::Io), now);
    let (shard, alive) = drained.shard.check_heartbeat(now);
    let checked = ShardRunnerView { shard, ..drained };
    lemma_receiving_consumes(checked, now);
    let (received, reception) = checked.recieve_event(now);
    match reception {
        Ok(reception) => {
            lemma_settling_leaves_inbound(received, checked.shard.stage, reception, now);
        },
        Err(_) => {},
    }
}

impl View for ShardRunner {
    type V = ShardRunnerView;

    closed spec fn view(&self) -> ShardRunnerView {
        ShardRunnerView {
            reports: self.manager_tx@,
            commands: self.runner_rx@,
            commands_open: self.runner_rx_open,
            finished: self.finished,
            shard: self.shard@,
        }
    }
}

impl ShardRunner {
    /// A runner for `shard`, with no command waiting and nothing to report.
    pub fn new(shard: Shard) -> (runner: ShardRunner)
        ensures
            runner@ == (ShardRunnerView {
                reports: Seq::<ShardManagerMessage>::empty(),
                commands: Seq::<InterMessage>::empty(),
                commands_open: true,
                finished: false,
                shard: shard@,
            }),
    {
        ShardRunner {
            manager_tx: Vec::new(),
            runner_rx: VecDeque::new(),
            runner_rx_open: true,
            finished: false,
            shard,
        }
    }

    /// Whether the loop has ended, for good.
    pub fn is_finished(&self) -> (finished: bool)
        ensures
            finished == self@.finished,
    {
        self.finished
    }

    /// Hands a command of the owner to the runner.
    pub fn post(&mut self, message: InterMessage)
        ensures
            final(self)@ == (ShardRunnerView {
                commands: old(self)@.commands.push(message),
                ..old(self)@
            }),
    {
        self.runner_rx.push_back(message);
    }

    /// Tells the runner that no more commands can come.
    pub fn disconnect(&mut self)
        ensures
            final(self)@ == (ShardRunnerView { commands_open: false, ..old(self)@ }),
    {
        self.runner_rx_open = false;
    }

    /// Takes the reports that wait to be collected, oldest first.
    pub fn take_reports(&mut self) -> (reports: Vec<ShardManagerMessage>)
        ensures
            reports@ == old(self)@.reports,
            final(self)@ == (ShardRunnerView {
                reports: Seq::<ShardManagerMessage>::empty(),
                ..old(self)@
            }),
    {
        let mut reports: Vec<ShardManagerMessage> = Vec::new();
        std::mem::swap(&mut reports, &mut self.manager_tx);
        reports
    }

    /// Hands to the shard's connection what the transport has read.
    pub fn deliver(&mut self, delivery: crate::shard::socket::Delivery)
        ensures
            final(self)@ == (ShardRunnerView {
                shard: ShardView {
                    client: crate::shard::socket::ConnectionView {
                        inbound: old(self)@.shard.client.inbound.push(delivery),
                        ..old(self)@.shard.client
                    },
                    ..old(self)@.shard
                },
                ..old(self)@
            }),
    {
        self.shard.deliver(delivery);
    }

    /// Takes from the shard's connection the frames that wait to be written,
    /// oldest first.
    pub fn take_outbound(&mut self) -> (frames: Vec<String>)
        ensures
            crate::shard::socket::texts(frames@) == old(self)@.shard.client.outbound,
            final(self)@ == (ShardRunnerView {
                shard: ShardView {
                    client: crate::shard::socket::ConnectionView {
                        outbound: Seq::<Seq<char>>::empty(),
                        ..old(self)@.shard.client
                    },
                    ..old(self)@.shard
                },
                ..old(self)@
            }),
    {
        self.shard.take_outbound()
    }

    /// Asks the manager to replace this shard.
    pub fn request_restart(&mut self)
        ensures
            final(self)@ == old(self)@.request_restart(),
    {
        self.manager_tx.push(ShardManagerMessage::Restart);
    }

    /// Reports the shard's latency and stage to the manager.
    pub fn update_manager(&mut self)
        ensures
            final(self)@ == old(self)@.update_manager(),
    {
        let update = ShardRunnerUpdate { latency: self.shard.latency(), stage: self.shard.stage() };
        self.manager_tx.push(ShardManagerMessage::Update(update));
    }

    /// Takes one command of the owner: forwards a payload, and asks for a
    /// restart if that fails; ends the session on `Close`. Returns whether the
    /// loop goes on.
    pub fn handle_rx_message(&mut self, message: InterMessage) -> (proceed: bool)
        ensures
            (final(self)@, proceed) == old(self)@.handle_rx_message(message),
    {
        match message {
            InterMessage::Json(json) => {
                if self.shard.send_json(&json).is_ok() {
                    true
                } else {
                    self.request_restart();
                    false
                }
            },
            InterMessage::Close => {
                self.shard.shutdown();
                false
            },
        }
    }

    /// Takes all commands that wait, up to the first that ends the loop.
    /// Returns whether the loop goes on.
    pub fn recieve_internal(&mut self) -> (proceed: bool)
        ensures
            (final(self)@, proceed) == old(self)@.recieve_internal(),
    {
        loop
            invariant
                self@.recieve_internal() == old(self)@.recieve_internal(),
            decreases self.runner_rx@.len(),
        {
            match self.runner_rx.pop_front() {
                Some(message) => {
                    if !self.handle_rx_message(message) {
                        return false;
                    }
                },
                None => {
                    if self.runner_rx_open {
                        return true;
                    }
                    self.request_restart();
                    return false;
                },
            }
        }
    }

    /// Hands one event, or the failure to receive one, to the shard at `now`.
    pub fn interpret(&mut self, event: Result<GatewayEvent, LeapError>, now: u64) -> (reception:
        Result<Reception, LeapError>)
        ensures
            (final(self)@, outcome(reception)) == old(self)@.interpret(outcome(event), now),
    {
        let action = match self.shard.handle_event(&event, now) {
            Ok(action) => action,
            Err(why) => {
                if why.is_invalid_authentication() {
                    self.manager_tx.push(ShardManagerMessage::InvalidAuthentication);
                    return Err(why);
                }
                return Ok((None, None, true));
            },
        };
        let payload = match event {
            Ok(GatewayEvent::Dispatch { sequence: _, payload }) => Some(payload),
            _ => None,
        };
        Ok((payload, action, true))
    }

    /// Tries at `now` to receive one event, and hands it to the shard.
    pub fn recieve_event(&mut self, now: u64) -> (reception: Result<Reception, LeapError>)
        ensures
            (final(self)@, outcome(reception)) == old(self)@.recieve_event(now),
    {
        let event: Result<GatewayEvent, LeapError> = match self.shard.recieve_json() {
            Ok(Some(frame)) => GatewayEvent::decode(&frame),
            Ok(None) => {
                return Ok((None, None, true));
            },
            Err(why) => {
                if why.is_transport_io() {
                    return Ok((None, None, true));
                }
                Err(why)
            },
        };
        self.interpret(event, now)
    }

    /// Carries out one action at `now`.
    pub fn action(&mut self, action: &ShardAction, now: u64) -> (done: Result<(), LeapError>)
        ensures
            (final(self)@, outcome(done)) == old(self)@.action(*action, now),
    {
        match action {
            ShardAction::Reconnect(ReconnectType::Reidentify) => {
                self.request_restart();
                Ok(())
            },
            ShardAction::Heartbeat(tag) => {
                let tag: Option<&str> = match tag {
                    Some(tag) => Some(tag.as_str()),
                    None => None,
                };
                self.shard.heartbeat(tag, now)
            },
            ShardAction::Identify => {
                let sent = self.shard.identify();
                self.update_manager();
                sent
            },
            ShardAction::Update => {
                self.update_manager();
                Ok(())
            },
        }
    }

    /// Does at `now` what follows the attempt to receive an event: `previous`
    /// is the stage before the attempt, `reception` what the attempt gave.
    /// Returns whether the loop goes on.
    pub fn settle(&mut self, previous: Stage, reception: Reception, now: u64) -> (proceed: bool)
        ensures
            (final(self)@, proceed) == old(self)@.settle(previous, reception, now),
    {
        let (payload, action, success) = reception;
        if previous != self.shard.stage() {
            self.update_manager();
        }
        match action {
            Some(ShardAction::Reconnect(ReconnectType::Reidentify)) => {
                self.request_restart();
                return false;
            },
            Some(other) => {
                if self.action(&other, now).is_err() {
                    match self.shard.reconnection_type() {
                        ReconnectType::Reidentify => {
                            self.request_restart();
                            return false;
                        },
                    }
                }
            },
            None => {},
        }
        if let Some(payload) = payload {
            self.manager_tx.push(ShardManagerMessage::Event(payload));
        }
        if !success && !self.shard.stage().is_connecting() {
            self.request_restart();
            return false;
        }
        true
    }

    fn turn(&mut self, now: u64) -> (proceed: Result<bool, LeapError>)
        ensures
            (final(self)@, outcome(proceed)) == old(self)@.turn(now),
    {
        if !self.recieve_internal() {
            return Ok(false);
        }
        if !self.shard.check_heartbeat(now) {
            self.request_restart();
            return Ok(false);
        }
        let previous = self.shard.stage();
        let reception = self.recieve_event(now)?;
        Ok(self.settle(previous, reception, now))
    }

    /// Makes one turn of the loop at `now`, unless the loop has ended. Returns
    /// whether the loop goes on.
    pub fn iterate(&mut self, now: u64) -> (proceed: Result<bool, LeapError>)
        ensures
            (final(self)@, outcome(proceed)) == old(self)@.iterate(now),
    {
        if self.finished {
            return Ok(false);
        }
        let proceed = self.turn(now);
        match proceed {
            Ok(true) => {},
            _ => {
                self.finished = true;
            },
        }
        proceed
    }

    /// Tells the runner that the transport could not write a frame or has lost
    /// its connection. Unless the loop has ended already, the session ends, a
    /// restart is asked for, and the loop has ended.
    pub fn connection_lost(&mut self)
        ensures
            final(self)@ == old(self)@.connection_lost(),
    {
        if !self.finished {
            match self.shard.reconnection_type() {
                ReconnectType::Reidentify => {
                    self.shard.shutdown();
                    self.request_restart();
                    self.finished = true;
                },
            }
        }
    }

    /// Runs the loop at `now`, turn after turn, until it ends or until a turn
    /// found nothing delivered.
    pub fn run(&mut self, now: u64) -> (progress: Result<Progress, LeapError>)
        ensures
            (final(self)@, outcome(progress)) == old(self)@.run(now),
    {
        loop
            invariant
                self@.run(now) == old(self)@.run(now),
            decreases self@.shard.client.inbound.len(),
        {
            let ghost before = self@;
            let pending = self.shard.pending();
            match self.iterate(now) {
                Err(why) => {
                    return Err(why);
                },
                Ok(false) => {
                    return Ok(Progress::Finished);
                },
                Ok(true) => {
                    if pending == 0 {
                        return Ok(Progress::Waiting);
                    }
                    proof {
                        lemma_turn_consumes(before, now);
                    }
                },
            }
        }
    }
}

} // verus!
