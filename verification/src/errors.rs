//! The one error type of the client.
//!
//! Transport, serialization and protocol failures each keep their own value
//! and are told apart by the variant that carries them.

use vstd::prelude::*;

use crate::shard::error::{error_text, GatewayError, GatewayErrorView};

verus! {

/// `std::io::Error`, carried as it is: nothing is known of what it holds.
#[verifier::external_type_specification]
#[verifier::external_body]
pub struct ExIoError(std::io::Error);

/// `tungstenite::Error`, carried as it is: of what it holds only
/// [`transport_error_is_io`] is known.
#[verifier::external_type_specification]
#[verifier::external_body]
pub struct ExTransportError(async_tungstenite::tungstenite::Error);

/// Whether a WebSocket error is the one that wraps an I/O error.
pub uninterp spec fn transport_error_is_io(error: async_tungstenite::tungstenite::Error) -> bool;

/// Tells the `Io` variant of `tungstenite::Error` from the others. Believed:
/// the answer depends on the error alone.
#[verifier::external_body]
pub(crate) fn is_io(error: &async_tungstenite::tungstenite::Error) -> (io: bool)
    ensures
        io == transport_error_is_io(*error),
{
    matches!(error, async_tungstenite::tungstenite::Error::Io(_))
}

/// `to_string` of a `std::io::Error`. Nothing is claimed of the text: for an
/// error of the operating system it is the system's own.
#[verifier::external_body]
fn io_error_text(error: &std::io::Error) -> String {
    error.to_string()
}

/// `to_string` of a `serde_json::Error`. Nothing is claimed of the text: such
/// an error may hold an I/O error and then shows that error's text.
#[verifier::external_body]
fn json_error_text(error: &serde_json::Error) -> String {
    error.to_string()
}

/// `to_string` of a `tungstenite::Error`. Nothing is claimed of the text: such
/// an error may hold an I/O error and then shows that error's text.
#[verifier::external_body]
fn transport_error_text(error: &async_tungstenite::tungstenite::Error) -> String {
    error.to_string()
}

/// Any failure that the client reports.
#[derive(Debug)]
pub enum LeapError {
    /// An I/O failure below the WebSocket layer.
    Io(std::io::Error),
    /// A payload that is no JSON, or not the JSON that was expected.
    Json(serde_json::Error),
    /// A violation of the gateway protocol.
    Gateway(GatewayError),
    /// A failure of the WebSocket layer.
    Tungstenite(async_tungstenite::tungstenite::Error),
}

/// Mathematical model of a [`LeapError`].
pub enum LeapErrorView {
    Io(std::io::Error),
    Json(serde_json::Error),
    Gateway(GatewayErrorView),
    Tungstenite(async_tungstenite::tungstenite::Error),
}

impl View for LeapError {
    type V = LeapErrorView;

    open spec fn view(&self) -> LeapErrorView {
        match *self {
            LeapError::Io(error) => LeapErrorView::Io(error),
            LeapError::Json(error) => LeapErrorView::Json(error),
            LeapError::Gateway(error) => LeapErrorView::Gateway(error@),
            LeapError::Tungstenite(error) => LeapErrorView::Tungstenite(error),
        }
    }
}

/// What went wrong, without the value that an outside error carries: the
/// engine decides by this and by nothing else of an error.
pub enum Fault {
    /// An I/O failure below the WebSocket layer.
    Io,
    /// A payload that is no JSON, or not the JSON that was expected.
    Json,
    /// A violation of the gateway protocol.
    Gateway(GatewayErrorView),
    /// An I/O failure reported by the WebSocket layer.
    TransportIo,
    /// Any other failure of the WebSocket layer.
    Transport,
}

/// A result with its error reduced to its [`Fault`].
pub open spec fn outcome<T>(result: Result<T, LeapError>) -> Result<T, Fault> {
    match result {
        Ok(value) => Ok(value),
        Err(error) => Err(error@.fault()),
    }
}

impl LeapErrorView {
    /// The kind of this failure.
    pub open spec fn fault(self) -> Fault {
        match self {
            LeapErrorView::Io(_) => Fault::Io,
            LeapErrorView::Json(_) => Fault::Json,
            LeapErrorView::Gateway(error) => Fault::Gateway(error),
            LeapErrorView::Tungstenite(error) => if transport_error_is_io(error) {
                Fault::TransportIo
            } else {
                Fault::Transport
            },
        }
    }

    /// Whether this is the rejection of the client's credentials.
    pub open spec fn is_invalid_authentication(self) -> bool {
        self == LeapErrorView::Gateway(GatewayErrorView::InvalidAuthentication)
    }

    /// Whether this is an I/O failure reported by the WebSocket layer.
    pub open spec fn is_transport_io(self) -> bool {
        self matches LeapErrorView::Tungstenite(error) && transport_error_is_io(error)
    }
}

impl From<std::io::Error> for LeapError {
    fn from(e: std::io::Error) -> (error: LeapError) {
        LeapError::Io(e)
    }
}

impl vstd::std_specs::convert::FromSpecImpl<std::io::Error> for LeapError {
    open spec fn obeys_from_spec() -> bool {
        true
    }

    open spec fn from_spec(e: std::io::Error) -> LeapError {
        LeapError::Io(e)
    }
}

impl From<serde_json::Error> for LeapError {
    fn from(e: serde_json::Error) -> (error: LeapError) {
        LeapError::Json(e)
    }
}

impl vstd::std_specs::convert::FromSpecImpl<serde_json::Error> for LeapError {
    open spec fn obeys_from_spec() -> bool {
        true
    }

    open spec fn from_spec(e: serde_json::Error) -> LeapError {
        LeapError::Json(e)
    }
}

impl From<GatewayError> for LeapError {
    fn from(e: GatewayError) -> (error: LeapError) {
        LeapError::Gateway(e)
    }
}

impl vstd::std_specs::convert::FromSpecImpl<GatewayError> for LeapError {
    open spec fn obeys_from_spec() -> bool {
        true
    }

    open spec fn from_spec(e: GatewayError) -> LeapError {
        LeapError::Gateway(e)
    }
}

impl From<async_tungstenite::tungstenite::Error> for LeapError {
    fn from(e: async_tungstenite::tungstenite::Error) -> (error: LeapError) {
        LeapError::Tungstenite(e)
    }
}

impl vstd::std_specs::convert::FromSpecImpl<async_tungstenite::tungstenite::Error> for LeapError {
    open spec fn obeys_from_spec() -> bool {
        true
    }

    open spec fn from_spec(e: async_tungstenite::tungstenite::Error) -> LeapError {
        LeapError::Tungstenite(e)
    }
}

impl LeapError {
    /// Whether this is the rejection of the client's credentials.
    pub fn is_invalid_authentication(&self) -> (rejected: bool)
        ensures
            rejected == self@.is_invalid_authentication(),
    {
        match self {
            LeapError::Gateway(GatewayError::InvalidAuthentication) => true,
            _ => false,
        }
    }

    /// Whether this is an I/O failure reported by the WebSocket layer.
    pub fn is_transport_io(&self) -> (io: bool)
        ensures
            io == self@.is_transport_io(),
    {
        match self {
            LeapError::Tungstenite(error) => is_io(error),
            _ => false,
        }
    }

    /// The message that describes this error to a person: that of the error
    /// inside. For a protocol failure it is the library's own text; for the
    /// others it is whatever the error inside says of itself.
    pub fn to_string(&self) -> (text: String)
        ensures
            self@ matches LeapErrorView::Gateway(error) ==> text@ == error_text(error),
    {
        match self {
            LeapError::Io(inner) => io_error_text(inner),
            LeapError::Json(inner) => json_error_text(inner),
            LeapError::Tungstenite(inner) => transport_error_text(inner),
            LeapError::Gateway(inner) => inner.to_string(),
        }
    }
}

} // verus!
