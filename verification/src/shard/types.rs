//! The vocabulary of the gateway protocol: operation codes, connection stages,
//! inbound events, the actions they call for, and the commands of the owner.

use vstd::prelude::*;

use crate::errors::{outcome, Fault, LeapError};
use crate::json::{field, json_field, json_unsigned, unsigned};
use crate::shard::error::{GatewayError, GatewayErrorView};

verus! {

/// The operation that a frame stands for, sent in its `op` member.
#[derive(Clone, Copy, Debug, PartialEq, Eq, Structural)]
pub enum OpCode {
    /// Gateway to client: an application event.
    Dispatch,
    /// Gateway to client: the greeting that opens a session.
    Hello,
    /// Client to gateway: the credentials of the session.
    Identify,
    /// Client to gateway: a sign of life.
    Heartbeat,
    /// Gateway to client: the answer to a heartbeat.
    HeartbeatAck,
    /// Gateway to client: the session is no longer valid.
    InvalidSession,
    /// Gateway to client: the client is asked to connect anew.
    Reconnect,
}

impl OpCode {
    /// The number that stands for this operation on the wire.
    pub open spec fn number_spec(self) -> u8 {
        match self {
            OpCode::Dispatch => 0,
            OpCode::Hello => 1,
            OpCode::Identify => 2,
            OpCode::Heartbeat => 3,
            OpCode::HeartbeatAck => 4,
            OpCode::InvalidSession => 5,
            OpCode::Reconnect => 6,
        }
    }

    /// The operation that `number` stands for on the wire, if any.
    pub open spec fn from_number_spec(number: u64) -> Option<OpCode> {
        if number == 0 {
            Some(OpCode::Dispatch)
        } else if number == 1 {
            Some(OpCode::Hello)
        } else if number == 2 {
            Some(OpCode::Identify)
        } else if number == 3 {
            Some(OpCode::Heartbeat)
        } else if number == 4 {
            Some(OpCode::HeartbeatAck)
        } else if number == 5 {
            Some(OpCode::InvalidSession)
        } else if number == 6 {
            Some(OpCode::Reconnect)
        } else {
            None
        }
    }

    /// The number that stands for this operation on the wire.
    pub fn number(self) -> (number: u8)
        ensures
            number == self.number_spec(),
    {
        match self {
            OpCode::Dispatch => 0,
            OpCode::Hello => 1,
            OpCode::Identify => 2,
            OpCode::Heartbeat => 3,
            OpCode::HeartbeatAck => 4,
            OpCode::InvalidSession => 5,
            OpCode::Reconnect => 6,
        }
    }

    /// The operation that `number` stands for on the wire, if any.
    pub fn from_number(number: u64) -> (op: Option<OpCode>)
        ensures
            op == OpCode::from_number_spec(number),
    {
        if number == 0 {
            Some(OpCode::Dispatch)
        } else if number == 1 {
            Some(OpCode::Hello)
        } else if number == 2 {
            Some(OpCode::Identify)
        } else if number == 3 {
            Some(OpCode::Heartbeat)
        } else if number == 4 {
            Some(OpCode::HeartbeatAck)
        } else if number == 5 {
            Some(OpCode::InvalidSession)
        } else if number == 6 {
            Some(OpCode::Reconnect)
        } else {
            None
        }
    }

    /// Every operation is found again from its number, and no two operations
    /// share one.
    pub proof fn theorem_numbers_tell_operations_apart(op: OpCode, other: OpCode)
        ensures
            OpCode::from_number_spec(op.number_spec() as u64) == Some(op),
            op.number_spec() == other.number_spec() ==> op == other,
    {
    }
}

/// The phase of a shard's life.
#[derive(Clone, Copy, Debug, PartialEq, Eq, Structural)]
pub enum Stage {
    /// The connection is being opened; no Hello has arrived.
    Connecting,
    /// Hello has arrived and the credentials are on their way.
    Identifying,
    /// An earlier session is being taken up again.
    Resuming,
    /// The connection is open and the Hello is awaited.
    Handshake,
    /// The gateway has accepted the session.
    Connected,
    /// The session has ended; this shard will not be used again.
    Disconnected,
}

impl Stage {
    /// Whether the session is still being set up.
    pub open spec fn is_connecting_spec(self) -> bool {
        self == Stage::Connecting || self == Stage::Identifying || self == Stage::Resuming
            || self == Stage::Handshake
    }

    /// Whether the gateway's Hello is still awaited.
    pub open spec fn awaits_hello(self) -> bool {
        self == Stage::Connecting || self == Stage::Handshake
    }

    /// How far a session in this stage has come: before the Hello, between
    /// Hello and acceptance, accepted, ended.
    pub open spec fn progress(self) -> nat {
        match self {
            Stage::Connecting => 0,
            Stage::Handshake => 0,
            Stage::Identifying => 1,
            Stage::Resuming => 1,
            Stage::Connected => 2,
            Stage::Disconnected => 3,
        }
    }

    /// Whether the session is still being set up.
    pub fn is_connecting(&self) -> (connecting: bool)
        ensures
            connecting == self.is_connecting_spec(),
    {
        match self {
            Stage::Connecting | Stage::Identifying | Stage::Resuming | Stage::Handshake => true,
            Stage::Connected | Stage::Disconnected => false,
        }
    }
}

/// How a lost session is taken up again.
#[derive(Clone, Copy, Debug, PartialEq, Eq, Structural)]
pub enum ReconnectType {
    /// The session cannot be resumed: connect and identify from scratch.
    Reidentify,
}

/// What one inbound event asks the shard's owner to do.
#[derive(Clone, Debug, PartialEq, Eq)]
pub enum ShardAction {
    /// Send a heartbeat, with this tag if there is one.
    Heartbeat(Option<String>),
    /// Send the credentials.
    Identify,
    /// Report latency and stage; nothing is sent to the gateway.
    Update,
    /// Give the connection up and connect anew.
    Reconnect(ReconnectType),
}

/// Mathematical model of a [`ShardAction`].
pub enum ShardActionView {
    Heartbeat(Option<Seq<char>>),
    Identify,
    Update,
    Reconnect(ReconnectType),
}

/// The model of an optional piece of text.
pub open spec fn text_view(text: Option<String>) -> Option<Seq<char>> {
    match text {
        Some(text) => Some(text@),
        None => None,
    }
}

/// The model of an optional borrowed piece of text.
pub open spec fn str_view(text: Option<&str>) -> Option<Seq<char>> {
    match text {
        Some(text) => Some(text@),
        None => None,
    }
}

impl View for ShardAction {
    type V = ShardActionView;

    open spec fn view(&self) -> ShardActionView {
        match *self {
            ShardAction::Heartbeat(tag) => ShardActionView::Heartbeat(text_view(tag)),
            ShardAction::Identify => ShardActionView::Identify,
            ShardAction::Update => ShardActionView::Update,
            ShardAction::Reconnect(kind) => ShardActionView::Reconnect(kind),
        }
    }
}

/// One frame of the gateway, read as a protocol event.
#[derive(Clone, Debug, PartialEq)]
pub enum GatewayEvent {
    /// An application event, numbered by the gateway.
    Dispatch { sequence: u64, payload: serde_json::Value },
    /// The greeting, with the heartbeat interval in milliseconds.
    Hello { heartbeat_interval: u64 },
    /// The answer to a heartbeat.
    HeartbeatAck,
    /// The session is no longer valid.
    InvalidSession,
    /// The client is asked to connect anew.
    Reconnect,
}

/// A command of the shard's owner to the running shard.
#[derive(Clone, Debug, PartialEq)]
pub enum InterMessage {
    /// Forward this payload to the gateway as it is.
    Json(serde_json::Value),
    /// End the session.
    Close,
}

/// The member that holds a frame's operation code.
pub open spec fn op_key() -> Seq<char> {
    "op"@
}

/// The member that holds a frame's data.
pub open spec fn data_key() -> Seq<char> {
    "d"@
}

/// The member that holds a dispatch frame's sequence number.
pub open spec fn sequence_key() -> Seq<char> {
    "s"@
}

/// The member of a Hello's data that holds the heartbeat interval.
pub open spec fn interval_key() -> Seq<char> {
    "heartbeat_interval"@
}

/// The operation code of `frame`, if it has one.
pub open spec fn frame_op(frame: serde_json::Value) -> Option<u64> {
    json_unsigned(json_field(frame, op_key()))
}

/// The reading of `frame` as a protocol event.
pub open spec fn decode_spec(frame: serde_json::Value) -> Result<GatewayEvent, Fault> {
    match frame_op(frame) {
        None => Err(Fault::Json),
        Some(number) => match OpCode::from_number_spec(number) {
            Some(OpCode::Dispatch) => match json_unsigned(json_field(frame, sequence_key())) {
                Some(sequence) => Ok(
                    GatewayEvent::Dispatch { sequence, payload: json_field(frame, data_key()) },
                ),
                None => Err(Fault::Json),
            },
            Some(OpCode::Hello) => match json_unsigned(
                json_field(json_field(frame, data_key()), interval_key()),
            ) {
                Some(heartbeat_interval) => Ok(GatewayEvent::Hello { heartbeat_interval }),
                None => Err(Fault::Json),
            },
            Some(OpCode::HeartbeatAck) => Ok(GatewayEvent::HeartbeatAck),
            Some(OpCode::InvalidSession) => Ok(GatewayEvent::InvalidSession),
            Some(OpCode::Reconnect) => Ok(GatewayEvent::Reconnect),
            _ => Err(Fault::Gateway(GatewayErrorView::InvalidOpCode)),
        },
    }
}

impl GatewayEvent {
    /// Reads a frame as a protocol event.
    ///
    /// The operation code is the unsigned integer under `op`. A dispatch has
    /// its number under `s` and its payload under `d`; a Hello has the
    /// heartbeat interval under `heartbeat_interval` in `d`. A frame without
    /// these is rejected with the JSON error of the member that failed, and
    /// one whose code the gateway never sends with `InvalidOpCode`.
    pub fn decode(frame: &serde_json::Value) -> (result: Result<GatewayEvent, LeapError>)
        ensures
            outcome(result) == decode_spec(*frame),
    {
        let number: u64 = match unsigned(field(frame, "op").clone()) {
            Ok(number) => number,
            Err(error) => {
                return Err(LeapError::Json(error));
            },
        };
        match OpCode::from_number(number) {
            Some(OpCode::Dispatch) => match unsigned(field(frame, "s").clone()) {
                Ok(sequence) => Ok(
                    GatewayEvent::Dispatch { sequence, payload: field(frame, "d").clone() },
                ),
                Err(error) => Err(LeapError::Json(error)),
            },
            Some(OpCode::Hello) => {
                let data = field(frame, "d");
                match unsigned(field(data, "heartbeat_interval").clone()) {
                    Ok(heartbeat_interval) => Ok(GatewayEvent::Hello { heartbeat_interval }),
                    Err(error) => Err(LeapError::Json(error)),
                }
            },
            Some(OpCode::HeartbeatAck) => Ok(GatewayEvent::HeartbeatAck),
            Some(OpCode::InvalidSession) => Ok(GatewayEvent::InvalidSession),
            Some(OpCode::Reconnect) => Ok(GatewayEvent::Reconnect),
            _ => Err(LeapError::Gateway(GatewayError::InvalidOpCode)),
        }
    }
}

} // verus!
