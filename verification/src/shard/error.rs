//! Protocol-level failures of a gateway connection.

use vstd::prelude::*;

verus! {

/// Close code: the gateway failed for a reason it does not name.
pub const UNKNOWN_ERROR: u16 = 4000;

/// Close code: the credentials sent in the identify frame were rejected.
pub const INVALID_AUTH: u16 = 4001;

/// Close code: no identify frame arrived in time.
pub const IDENTIFY_TIMEOUT: u16 = 4002;

/// Close code: the gateway received an operation code it does not know.
pub const UNKNOWN_OPCODE: u16 = 4004;

/// Close code: the gateway could not read a payload.
pub const INVALID_PAYLOAD: u16 = 4005;

/// Close code: the connection was routed to the wrong place.
pub const BAD_ROUTE: u16 = 4006;

/// Close code: client and gateway disagree about the session's state.
pub const OUT_OF_SYNC: u16 = 4007;

/// The content of a close frame: a numeric code and a human-readable reason.
#[derive(Clone, Debug)]
pub struct CloseFrame {
    pub code: u16,
    pub reason: String,
}

/// Mathematical model of a [`CloseFrame`].
pub struct CloseFrameView {
    pub code: u16,
    pub reason: Seq<char>,
}

impl View for CloseFrame {
    type V = CloseFrameView;

    open spec fn view(&self) -> CloseFrameView {
        CloseFrameView { code: self.code, reason: self.reason@ }
    }
}

impl CloseFrame {
    /// A close frame with the same code and reason.
    pub fn duplicate(&self) -> (copy: CloseFrame)
        ensures
            copy@ == self@,
    {
        CloseFrame { code: self.code, reason: self.reason.clone() }
    }
}

/// A violation of the gateway protocol, or the end of the connection.
#[derive(Clone, Debug)]
#[non_exhaustive]
pub enum GatewayError {
    /// The connection was closed, with the close frame if one was received.
    Closed(Option<CloseFrame>),
    /// An event arrived before the gateway's Hello.
    ExpectedHello,
    /// A heartbeat could not be sent.
    HeartbeatFailed,
    /// The gateway rejected the credentials.
    InvalidAuthentication,
    /// A Hello arrived outside of a handshake.
    InvalidHandshake,
    /// A frame carried no operation code that the client reads.
    InvalidOpCode,
    /// The connection could not be re-established.
    ReconnectFailure,
}

/// Mathematical model of a [`GatewayError`].
pub enum GatewayErrorView {
    Closed(Option<CloseFrameView>),
    ExpectedHello,
    HeartbeatFailed,
    InvalidAuthentication,
    InvalidHandshake,
    InvalidOpCode,
    ReconnectFailure,
}

/// The model of an optional close frame.
pub open spec fn close_frame_view(frame: Option<CloseFrame>) -> Option<CloseFrameView> {
    match frame {
        Some(frame) => Some(frame@),
        None => None,
    }
}

impl View for GatewayError {
    type V = GatewayErrorView;

    open spec fn view(&self) -> GatewayErrorView {
        match *self {
            GatewayError::Closed(frame) => GatewayErrorView::Closed(close_frame_view(frame)),
            GatewayError::ExpectedHello => GatewayErrorView::ExpectedHello,
            GatewayError::HeartbeatFailed => GatewayErrorView::HeartbeatFailed,
            GatewayError::InvalidAuthentication => GatewayErrorView::InvalidAuthentication,
            GatewayError::InvalidHandshake => GatewayErrorView::InvalidHandshake,
            GatewayError::InvalidOpCode => GatewayErrorView::InvalidOpCode,
            GatewayError::ReconnectFailure => GatewayErrorView::ReconnectFailure,
        }
    }
}

/// The decimal digit `d` as text.
pub open spec fn digit_text(d: nat) -> Seq<char> {
    if d == 0 {
        seq!['0']
    } else if d == 1 {
        seq!['1']
    } else if d == 2 {
        seq!['2']
    } else if d == 3 {
        seq!['3']
    } else if d == 4 {
        seq!['4']
    } else if d == 5 {
        seq!['5']
    } else if d == 6 {
        seq!['6']
    } else if d == 7 {
        seq!['7']
    } else if d == 8 {
        seq!['8']
    } else {
        seq!['9']
    }
}

/// The decimal numeral of `n`, without leading zeros.
pub open spec fn decimal_text(n: nat) -> Seq<char>
    decreases n,
{
    if n < 10 {
        digit_text(n)
    } else {
        decimal_text(n / 10) + digit_text(n % 10)
    }
}

/// What [`GatewayError::to_string`] returns for an error with the given model.
pub open spec fn error_text(error: GatewayErrorView) -> Seq<char> {
    match error {
        GatewayErrorView::Closed(Some(frame)) => "Connection closed with code "@ + decimal_text(
            frame.code as nat,
        ) + ": "@ + frame.reason,
        GatewayErrorView::Closed(None) => "Connection closed"@,
        GatewayErrorView::ExpectedHello => "Expected a Hello"@,
        GatewayErrorView::HeartbeatFailed => "Failed sending a heartbeat"@,
        GatewayErrorView::InvalidAuthentication => "Sent invalid authentication"@,
        GatewayErrorView::InvalidHandshake => "Expected a valid Handshake"@,
        GatewayErrorView::InvalidOpCode => "Invalid OpCode"@,
        GatewayErrorView::ReconnectFailure => "Failed to Reconnect"@,
    }
}

fn digit(d: u16) -> (text: &'static str)
    requires
        d < 10,
    ensures
        text@ == digit_text(d as nat),
{
    proof {
        reveal_strlit("0");
        reveal_strlit("1");
        reveal_strlit("2");
        reveal_strlit("3");
        reveal_strlit("4");
        reveal_strlit("5");
        reveal_strlit("6");
        reveal_strlit("7");
        reveal_strlit("8");
        reveal_strlit("9");
    }
    let text: &'static str = if d == 0 {
        "0"
    } else if d == 1 {
        "1"
    } else if d == 2 {
        "2"
    } else if d == 3 {
        "3"
    } else if d == 4 {
        "4"
    } else if d == 5 {
        "5"
    } else if d == 6 {
        "6"
    } else if d == 7 {
        "7"
    } else if d == 8 {
        "8"
    } else {
        "9"
    };
    assert(text@ =~= digit_text(d as nat));
    text
}

fn decimal(n: u16) -> (text: String)
    ensures
        text@ == decimal_text(n as nat),
    decreases n,
{
    if n < 10 {
        digit(n).to_owned()
    } else {
        let mut text = decimal(n / 10);
        text.append(digit(n % 10));
        text
    }
}

impl GatewayError {
    /// An error with the same model.
    pub fn duplicate(&self) -> (copy: GatewayError)
        ensures
            copy@ == self@,
    {
        match self {
            GatewayError::Closed(Some(frame)) => GatewayError::Closed(Some(frame.duplicate())),
            GatewayError::Closed(None) => GatewayError::Closed(None),
            GatewayError::ExpectedHello => GatewayError::ExpectedHello,
            GatewayError::HeartbeatFailed => GatewayError::HeartbeatFailed,
            GatewayError::InvalidAuthentication => GatewayError::InvalidAuthentication,
            GatewayError::InvalidHandshake => GatewayError::InvalidHandshake,
            GatewayError::InvalidOpCode => GatewayError::InvalidOpCode,
            GatewayError::ReconnectFailure => GatewayError::ReconnectFailure,
        }
    }

    /// The message that describes this error to a person.
    pub fn to_string(&self) -> (text: String)
        ensures
            text@ == error_text(self@),
    {
        match self {
            GatewayError::Closed(Some(frame)) => {
                let mut text = "Connection closed with code ".to_owned();
                let code = decimal(frame.code);
                text.append(code.as_str());
                text.append(": ");
                text.append(frame.reason.as_str());
                text
            },
            GatewayError::Closed(None) => "Connection closed".to_owned(),
            GatewayError::ExpectedHello => "Expected a Hello".to_owned(),
            GatewayError::HeartbeatFailed => "Failed sending a heartbeat".to_owned(),
            GatewayError::InvalidAuthentication => "Sent invalid authentication".to_owned(),
            GatewayError::InvalidHandshake => "Expected a valid Handshake".to_owned(),
            GatewayError::InvalidOpCode => "Invalid OpCode".to_owned(),
            GatewayError::ReconnectFailure => "Failed to Reconnect".to_owned(),
        }
    }
}

} // verus!
