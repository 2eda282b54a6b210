//! One shard: a single gateway session and the connection that carries it.
//!
//! The shard reads gateway events against the state of its session and says
//! what has to be done next. It owns its connection and keeps the books of the
//! heartbeat. Time is what the caller says it is: every instant is a reading,
//! in milliseconds, of a clock that does not run backwards.

pub mod error;
pub mod socket;
pub mod theorems;
pub mod types;

use vstd::prelude::*;

use crate::errors::{outcome, Fault, LeapError};
use crate::shard::error::{GatewayError, GatewayErrorView, INVALID_AUTH};
use crate::shard::socket::{
    heartbeat_payload_spec, identify_payload_spec, Connection, ConnectionView, Delivery,
    RecieverExt, SenderExt, WsStreamExt,
};
use crate::shard::types::{
    str_view, text_view, GatewayEvent, ReconnectType, ShardAction, Stage,
};

verus! {

/// One logical session with the gateway.
#[derive(Debug)]
pub struct Shard {
    client: Connection,
    shard_info: (u64, u64),
    project: String,
    token: Option<String>,
    stage: Stage,
    seq: Option<u64>,
    heartbeat_interval: Option<u64>,
    interval_started: u64,
    last_heartbeat_sent: Option<u64>,
    last_heartbeat_ack: Option<u64>,
    last_heartbeat_acknowledged: bool,
    latency: Option<u64>,
}

/// Mathematical model of a [`Shard`].
pub struct ShardView {
    /// The connection that carries the session.
    pub client: ConnectionView,
    /// The number of this shard, and how many shards there are.
    pub shard_info: (u64, u64),
    /// The project that the session belongs to.
    pub project: Seq<char>,
    /// The token that proves the right to it, if one is needed.
    pub token: Option<Seq<char>>,
    /// The phase of the session.
    pub stage: Stage,
    /// The highest sequence number that a dispatch has carried.
    pub seq: Option<u64>,
    /// The interval between heartbeats that the Hello asked for.
    pub heartbeat_interval: Option<u64>,
    /// The instant from which the running interval counts: the Hello, then
    /// each heartbeat sent.
    pub interval_started: u64,
    /// When the last heartbeat was sent.
    pub last_heartbeat_sent: Option<u64>,
    /// When the last heartbeat was answered.
    pub last_heartbeat_ack: Option<u64>,
    /// Whether no heartbeat is waiting for its answer.
    pub last_heartbeat_acknowledged: bool,
    /// The time between the last heartbeat and its answer.
    pub latency: Option<u64>,
}

/// The time from `earlier` to `now`, and none where `now` is not later.
pub open spec fn since(now: u64, earlier: u64) -> u64 {
    if now >= earlier {
        (now - earlier) as u64
    } else {
        0
    }
}

/// The greater of a recorded sequence number and a new one.
pub open spec fn advanced(recorded: Option<u64>, sequence: u64) -> u64 {
    match recorded {
        Some(recorded) => if recorded >= sequence {
            recorded
        } else {
            sequence
        },
        None => sequence,
    }
}

/// The stage after the gateway has shown that it accepts the session.
pub open spec fn accepted(stage: Stage) -> Stage {
    if stage == Stage::Identifying || stage == Stage::Resuming {
        Stage::Connected
    } else {
        stage
    }
}

impl ShardView {
    /// The session given up: its stage is `Disconnected` and its connection is
    /// closed.
    pub open spec fn disconnect(self) -> ShardView {
        ShardView { stage: Stage::Disconnected, client: self.client.close(), ..self }
    }

    /// Whether a heartbeat is due at `now`: an interval is known, and more
    /// than that has passed since the interval began.
    pub open spec fn beat_due(self, now: u64) -> bool {
        self.heartbeat_interval matches Some(interval) && since(now, self.interval_started)
            > interval
    }

    /// Sending a heartbeat at `now`.
    ///
    /// Before the Hello there is nothing to keep alive: `ExpectedHello`. On a
    /// session that has ended, nothing is sent: `HeartbeatFailed`. A second
    /// heartbeat while the first waits for its answer ends the session:
    /// `HeartbeatFailed`. Else the frame is sent; if that fails the session
    /// ends with `HeartbeatFailed`, and if not the heartbeat now waits for its
    /// answer and a new interval begins.
    pub open spec fn heartbeat(self, tag: Option<Seq<char>>, now: u64) -> (
        ShardView,
        Result<(), Fault>,
    ) {
        if self.heartbeat_interval is None {
            (self, Err(Fault::Gateway(GatewayErrorView::ExpectedHello)))
        } else if self.stage == Stage::Disconnected {
            (self, Err(Fault::Gateway(GatewayErrorView::HeartbeatFailed)))
        } else if !self.last_heartbeat_acknowledged {
            (self.disconnect(), Err(Fault::Gateway(GatewayErrorView::HeartbeatFailed)))
        } else {
            let (client, sent) = self.client.send(heartbeat_payload_spec(tag));
            if sent is Ok {
                (
                    ShardView {
                        client,
                        last_heartbeat_sent: Some(now),
                        interval_started: now,
                        last_heartbeat_acknowledged: false,
                        ..self
                    },
                    Ok(()),
                )
            } else {
                (
                    (ShardView { client, ..self }).disconnect(),
                    Err(Fault::Gateway(GatewayErrorView::HeartbeatFailed)),
                )
            }
        }
    }

    /// Sending the credentials.
    ///
    /// Before the Hello the gateway is not listening: `ExpectedHello`. On a
    /// session that has ended, nothing is sent: `Closed`. Else the frame is
    /// sent; if that fails the session ends with the failure, and if not the
    /// stage is `Identifying` and no heartbeat waits for an answer.
    pub open spec fn identify(self) -> (ShardView, Result<(), Fault>) {
        if self.heartbeat_interval is None {
            (self, Err(Fault::Gateway(GatewayErrorView::ExpectedHello)))
        } else if self.stage == Stage::Disconnected {
            (self, Err(Fault::Gateway(GatewayErrorView::Closed(None))))
        } else {
            let (client, sent) = self.client.send(
                identify_payload_spec(self.project, self.token),
            );
            match sent {
                Ok(_) => (
                    ShardView {
                        client,
                        stage: Stage::Identifying,
                        last_heartbeat_acknowledged: true,
                        ..self
                    },
                    Ok(()),
                ),
                Err(fault) => ((ShardView { client, ..self }).disconnect(), Err(fault)),
            }
        }
    }

    /// The check of the heartbeat at `now`.
    ///
    /// While no heartbeat is due, all is well. When one is due and the last
    /// one has not been answered, the gateway has gone silent: the session
    /// ends and the check fails. When one is due and nothing is outstanding,
    /// it is sent, and the check fails only if sending does.
    pub open spec fn check_heartbeat(self, now: u64) -> (ShardView, bool) {
        if !self.beat_due(now) {
            (self, true)
        } else if !self.last_heartbeat_acknowledged {
            (self.disconnect(), false)
        } else {
            let (next, sent) = self.heartbeat(None, now);
            (next, sent is Ok)
        }
    }

    /// The reading of one inbound event, or of the failure to receive one, at
    /// `now`.
    pub open spec fn handle_event(self, incoming: Result<GatewayEvent, Fault>, now: u64) -> (
        ShardView,
        Result<Option<ShardAction>, Fault>,
    ) {
        match incoming {
            Ok(GatewayEvent::Hello { heartbeat_interval }) => if self.stage.awaits_hello() {
                (
                    ShardView {
                        heartbeat_interval: Some(heartbeat_interval),
                        interval_started: now,
                        last_heartbeat_acknowledged: true,
                        stage: Stage::Identifying,
                        ..self
                    },
                    Ok(Some(ShardAction::Identify)),
                )
            } else {
                (self, Err(Fault::Gateway(GatewayErrorView::InvalidHandshake)))
            },
            Ok(GatewayEvent::HeartbeatAck) => if self.stage.awaits_hello() {
                (self, Err(Fault::Gateway(GatewayErrorView::ExpectedHello)))
            } else {
                (
                    ShardView {
                        last_heartbeat_acknowledged: true,
                        last_heartbeat_ack: Some(now),
                        latency: match self.last_heartbeat_sent {
                            Some(sent) => Some(since(now, sent)),
                            None => self.latency,
                        },
                        stage: accepted(self.stage),
                        ..self
                    },
                    Ok(Some(ShardAction::Update)),
                )
            },
            Ok(GatewayEvent::Dispatch { sequence, payload }) => if self.stage.awaits_hello() {
                (self, Err(Fault::Gateway(GatewayErrorView::ExpectedHello)))
            } else {
                (
                    ShardView {
                        seq: Some(advanced(self.seq, sequence)),
                        stage: accepted(self.stage),
                        ..self
                    },
                    Ok(None),
                )
            },
            Ok(GatewayEvent::InvalidSession) | Ok(GatewayEvent::Reconnect) => (
                self.disconnect(),
                Ok(Some(ShardAction::Reconnect(ReconnectType::Reidentify))),
            ),
            Err(Fault::Gateway(GatewayErrorView::Closed(frame))) => if frame matches Some(frame)
                && frame.code == INVALID_AUTH {
                (self, Err(Fault::Gateway(GatewayErrorView::InvalidAuthentication)))
            } else {
                (self.disconnect(), Ok(Some(ShardAction::Reconnect(ReconnectType::Reidentify))))
            },
            Err(Fault::Gateway(error)) => (self, Err(Fault::Gateway(error))),
            Err(Fault::Transport) | Err(Fault::TransportIo) => (
                self.disconnect(),
                Ok(Some(ShardAction::Reconnect(ReconnectType::Reidentify))),
            ),
            Err(Fault::Io) | Err(Fault::Json) => (self, Ok(None)),
        }
    }
}

/// Nothing that the shard does takes a delivery from its connection or adds
/// one to it: only receiving does.
pub proof fn lemma_shard_leaves_inbound(
    shard: ShardView,
    tag: Option<Seq<char>>,
    incoming: Result<GatewayEvent, Fault>,
    now: u64,
)
    ensures
        shard.disconnect().client.inbound == shard.client.inbound,
        shard.heartbeat(tag, now).0.client.inbound == shard.client.inbound,
        shard.identify().0.client.inbound == shard.client.inbound,
        shard.check_heartbeat(now).0.client.inbound == shard.client.inbound,
        shard.handle_event(incoming, now).0.client.inbound == shard.client.inbound,
{
}

impl View for Shard {
    type V = ShardView;

    closed spec fn view(&self) -> ShardView {
        ShardView {
            client: self.client@,
            shard_info: self.shard_info,
            project: self.project@,
            token: text_view(self.token),
            stage: self.stage,
            seq: self.seq,
            heartbeat_interval: self.heartbeat_interval,
            interval_started: self.interval_started,
            last_heartbeat_sent: self.last_heartbeat_sent,
            last_heartbeat_ack: self.last_heartbeat_ack,
            last_heartbeat_acknowledged: self.last_heartbeat_acknowledged,
            latency: self.latency,
        }
    }
}

fn elapsed(now: u64, earlier: u64) -> (time: u64)
    ensures
        time == since(now, earlier),
{
    if now >= earlier {
        now - earlier
    } else {
        0
    }
}

fn borrowed(text: &Option<String>) -> (borrowed: Option<&str>)
    ensures
        str_view(borrowed) == text_view(*text),
{
    match text {
        Some(text) => Some(text.as_str()),
        None => None,
    }
}

impl Shard {
    /// A shard that waits for the gateway's Hello.
    pub fn new(client: Connection, project: String, token: Option<String>, shard_info: (u64, u64)) -> (shard: Shard)
        ensures
            shard@ == (ShardView {
                client: client@,
                shard_info,
                project: project@,
                token: text_view(token),
                stage: Stage::Connecting,
                seq: None,
                heartbeat_interval: None,
                interval_started: 0,
                last_heartbeat_sent: None,
                last_heartbeat_ack: None,
                last_heartbeat_acknowledged: true,
                latency: None,
            }),
    {
        Shard {
            client,
            shard_info,
            project,
            token,
            stage: Stage::Connecting,
            seq: None,
            heartbeat_interval: None,
            interval_started: 0,
            last_heartbeat_sent: None,
            last_heartbeat_ack: None,
            last_heartbeat_acknowledged: true,
            latency: None,
        }
    }

    /// The phase of the session.
    pub fn stage(&self) -> (stage: Stage)
        ensures
            stage == self@.stage,
    {
        self.stage
    }

    /// The time between the last heartbeat and its answer, in milliseconds.
    pub fn latency(&self) -> (latency: Option<u64>)
        ensures
            latency == self@.latency,
    {
        self.latency
    }

    /// The highest sequence number that a dispatch has carried.
    pub fn seq(&self) -> (seq: Option<u64>)
        ensures
            seq == self@.seq,
    {
        self.seq
    }

    /// The number of this shard, and how many shards there are.
    pub fn shard_info(&self) -> (info: (u64, u64))
        ensures
            info == self@.shard_info,
    {
        self.shard_info
    }

    /// How a lost session is taken up again: always from scratch.
    pub fn reconnection_type(&self) -> (kind: ReconnectType)
        ensures
            kind == ReconnectType::Reidentify,
    {
        ReconnectType::Reidentify
    }

    fn disconnect(&mut self)
        ensures
            final(self)@ == old(self)@.disconnect(),
    {
        self.stage = Stage::Disconnected;
        self.client.close();
    }

    /// Ends the session and closes the connection. On a session that has
    /// ended already this changes nothing.
    pub fn shutdown(&mut self)
        ensures
            final(self)@ == old(self)@.disconnect(),
    {
        self.disconnect();
    }

    /// Hands over to the shard's connection what the transport has read.
    pub fn deliver(&mut self, delivery: Delivery)
        ensures
            final(self)@ == (ShardView {
                client: ConnectionView {
                    inbound: old(self)@.client.inbound.push(delivery),
                    ..old(self)@.client
                },
                ..old(self)@
            }),
    {
        self.client.deliver(delivery);
    }

    /// Takes from the shard's connection the frames that wait to be written,
    /// oldest first.
    pub fn take_outbound(&mut self) -> (frames: Vec<String>)
        ensures
            crate::shard::socket::texts(frames@) == old(self)@.client.outbound,
            final(self)@ == (ShardView {
                client: ConnectionView {
                    outbound: Seq::<Seq<char>>::empty(),
                    ..old(self)@.client
                },
                ..old(self)@
            }),
    {
        self.client.take_outbound()
    }

    /// How many deliveries wait to be received.
    pub fn pending(&self) -> (pending: usize)
        ensures
            pending == self@.client.inbound.len(),
    {
        self.client.pending()
    }

    /// Whether the shard has closed its connection.
    pub fn is_closed(&self) -> (closed: bool)
        ensures
            closed == self@.client.closed,
    {
        self.client.is_closed()
    }

    /// Sends `value` over the shard's connection.
    pub fn send_json(&mut self, value: &serde_json::Value) -> (sent: Result<(), LeapError>)
        ensures
            outcome(sent) == old(self)@.client.send(*value).1,
            final(self)@ == (ShardView { client: old(self)@.client.send(*value).0, ..old(self)@ }),
    {
        self.client.send_json(value)
    }

    /// Receives from the shard's connection the next JSON value that has
    /// arrived, if any.
    pub fn recieve_json(&mut self) -> (received: Result<Option<serde_json::Value>, LeapError>)
        ensures
            outcome(received) == old(self)@.client.receive().1,
            final(self)@ == (ShardView { client: old(self)@.client.receive().0, ..old(self)@ }),
            old(self)@.client.inbound.len() > 0 ==> match old(self)@.client.inbound[0] {
                Delivery::Failure(error) => received == Err::<
                    Option<serde_json::Value>,
                    LeapError,
                >(LeapError::Tungstenite(error)),
                Delivery::Message(_) => true,
            },
    {
        self.client.recieve_json()
    }

    /// Sends a heartbeat at `now`, with `tag` if there is one.
    pub fn heartbeat(&mut self, tag: Option<&str>, now: u64) -> (sent: Result<(), LeapError>)
        ensures
            (final(self)@, outcome(sent)) == old(self)@.heartbeat(str_view(tag), now),
    {
        if self.heartbeat_interval.is_none() {
            return Err(LeapError::Gateway(GatewayError::ExpectedHello));
        }
        if self.stage == Stage::Disconnected {
            return Err(LeapError::Gateway(GatewayError::HeartbeatFailed));
        }
        if !self.last_heartbeat_acknowledged {
            self.disconnect();
            return Err(LeapError::Gateway(GatewayError::HeartbeatFailed));
        }
        match self.client.send_heartbeat(tag) {
            Ok(()) => {
                self.last_heartbeat_sent = Some(now);
                self.interval_started = now;
                self.last_heartbeat_acknowledged = false;
                Ok(())
            },
            Err(_) => {
                self.disconnect();
                Err(LeapError::Gateway(GatewayError::HeartbeatFailed))
            },
        }
    }

    /// Sends the credentials and moves the session to `Identifying`.
    pub fn identify(&mut self) -> (sent: Result<(), LeapError>)
        ensures
            (final(self)@, outcome(sent)) == old(self)@.identify(),
    {
        if self.heartbeat_interval.is_none() {
            return Err(LeapError::Gateway(GatewayError::ExpectedHello));
        }
        if self.stage == Stage::Disconnected {
            return Err(LeapError::Gateway(GatewayError::Closed(None)));
        }
        let token = borrowed(&self.token);
        match self.client.send_identify(self.project.as_str(), token) {
            Ok(()) => {
                self.stage = Stage::Identifying;
                self.last_heartbeat_acknowledged = true;
                Ok(())
            },
            Err(error) => {
                self.disconnect();
                Err(error)
            },
        }
    }

    /// Checks at `now` that the gateway still answers, and sends the heartbeat
    /// that is due. Returns whether the session is alive.
    pub fn check_heartbeat(&mut self, now: u64) -> (alive: bool)
        ensures
            (final(self)@, alive) == old(self)@.check_heartbeat(now),
    {
        let interval: u64 = match self.heartbeat_interval {
            Some(interval) => interval,
            None => {
                return true;
            },
        };
        if elapsed(now, self.interval_started) <= interval {
            return true;
        }
        if !self.last_heartbeat_acknowledged {
            self.disconnect();
            return false;
        }
        self.heartbeat(None, now).is_ok()
    }

    /// Reads one inbound event, or the failure to receive one, at `now`, and
    /// says what it calls for.
    ///
    /// The Hello that opens the session sets the heartbeat interval, starts
    /// it at `now`, and calls for `Identify`; any later Hello is an
    /// `InvalidHandshake`. The answer to a heartbeat clears the outstanding
    /// beat, measures the latency from the beat to `now`, and calls for
    /// `Update`. A dispatch raises the recorded sequence number to its own and
    /// calls for nothing. The first answer or dispatch after the credentials
    /// makes the session `Connected`; either one before the Hello is an
    /// `ExpectedHello`. `InvalidSession` and `Reconnect` end the session and
    /// call for `Reconnect(Reidentify)`, and so do a close frame and a failure
    /// of the transport; but a close frame with the code `INVALID_AUTH` is an
    /// `InvalidAuthentication` and leaves the session as it is. Another
    /// protocol failure is handed back, and a payload that could not be read
    /// calls for nothing.
    pub fn handle_event(&mut self, event: &Result<GatewayEvent, LeapError>, now: u64) -> (action:
        Result<Option<ShardAction>, LeapError>)
        ensures
            (final(self)@, outcome(action)) == old(self)@.handle_event(outcome(*event), now),
    {
        match event {
            Ok(GatewayEvent::Hello { heartbeat_interval }) => {
                if self.stage == Stage::Connecting || self.stage == Stage::Handshake {
                    self.heartbeat_interval = Some(*heartbeat_interval);
                    self.interval_started = now;
                    self.last_heartbeat_acknowledged = true;
                    self.stage = Stage::Identifying;
                    Ok(Some(ShardAction::Identify))
                } else {
                    Err(LeapError::Gateway(GatewayError::InvalidHandshake))
                }
            },
            Ok(GatewayEvent::HeartbeatAck) => {
                if self.stage == Stage::Connecting || self.stage == Stage::Handshake {
                    return Err(LeapError::Gateway(GatewayError::ExpectedHello));
                }
                self.last_heartbeat_acknowledged = true;
                self.last_heartbeat_ack = Some(now);
                if let Some(sent) = self.last_heartbeat_sent {
                    self.latency = Some(elapsed(now, sent));
                }
                self.accept();
                Ok(Some(ShardAction::Update))
            },
            Ok(GatewayEvent::Dispatch { sequence, payload: _ }) => {
                if self.stage == Stage::Connecting || self.stage == Stage::Handshake {
                    return Err(LeapError::Gateway(GatewayError::ExpectedHello));
                }
                let sequence: u64 = *sequence;
                let recorded: u64 = match self.seq {
                    Some(recorded) => if recorded >= sequence {
                        recorded
                    } else {
                        sequence
                    },
                    None => sequence,
                };
                self.seq = Some(recorded);
                self.accept();
                Ok(None)
            },
            Ok(GatewayEvent::InvalidSession) | Ok(GatewayEvent::Reconnect) => {
                self.disconnect();
                Ok(Some(ShardAction::Reconnect(ReconnectType::Reidentify)))
            },
            Err(LeapError::Gateway(GatewayError::Closed(frame))) => {
                let rejected = match frame {
                    Some(frame) => frame.code == INVALID_AUTH,
                    None => false,
                };
                if rejected {
                    Err(LeapError::Gateway(GatewayError::InvalidAuthentication))
                } else {
                    self.disconnect();
                    Ok(Some(ShardAction::Reconnect(self.reconnection_type())))
                }
            },
            Err(LeapError::Gateway(error)) => Err(LeapError::Gateway(error.duplicate())),
            Err(LeapError::Tungstenite(_)) => {
                self.disconnect();
                Ok(Some(ShardAction::Reconnect(self.reconnection_type())))
            },
            Err(LeapError::Io(_)) | Err(LeapError::Json(_)) => Ok(None),
        }
    }

    fn accept(&mut self)
        ensures
            final(self)@ == (ShardView { stage: accepted(old(self)@.stage), ..old(self)@ }),
    {
        if self.stage == Stage::Identifying || self.stage == Stage::Resuming {
            self.stage = Stage::Connected;
        }
    }
}

} // verus!
