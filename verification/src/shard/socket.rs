//! The shard's side of its WebSocket.
//!
//! A [`Connection`] stands where the socket would: what the transport read is
//! delivered into it, and what the shard sends waits in it to be written. It
//! turns frames into JSON values and values into frames, and knows nothing of
//! what they mean.

use std::collections::VecDeque;
use vstd::prelude::*;
use vstd::utf8::encode_utf8;

use crate::errors::{outcome, Fault, LeapError};
use crate::json::{
    json_number, json_object, json_parsed, json_string, json_text, members_view, number, object,
    parse, print, string,
};
use crate::shard::error::{close_frame_view, CloseFrame, GatewayError, GatewayErrorView};
use crate::shard::types::{data_key, op_key, str_view, OpCode};

verus! {

/// One WebSocket message, as the transport hands it over.
#[derive(Clone, Debug)]
pub enum Message {
    /// A text message.
    Text(String),
    /// A binary message.
    Binary(Vec<u8>),
    /// A ping, with its payload.
    Ping(Vec<u8>),
    /// A pong, with its payload.
    Pong(Vec<u8>),
    /// The close message, with its frame if it has one.
    Close(Option<CloseFrame>),
    /// A raw frame.
    Frame,
}

/// What the transport delivers: a message, or the error it met while reading.
#[derive(Debug)]
pub enum Delivery {
    Message(Message),
    Failure(async_tungstenite::tungstenite::Error),
}

/// The bytes that `compressed` inflates to, if it is one zlib stream.
pub uninterp spec fn zlib_inflated(compressed: Seq<u8>) -> Option<Seq<u8>>;

/// Reads `compressed` to its end through `async_compression`'s zlib decoder,
/// with one poll of tokio's `read_to_end` by `FutureExt::now_or_never`: over
/// bytes in memory the decoder never waits, so one poll ends the read, and no
/// executor is entered. Believed: whether that succeeds, and the bytes it
/// gives, depend on `compressed` alone.
#[verifier::external_body]
fn inflate(compressed: Vec<u8>) -> (inflated: Result<Vec<u8>, std::io::Error>)
    ensures
        inflated is Ok <==> zlib_inflated(compressed@) is Some,
        inflated matches Ok(bytes) ==> zlib_inflated(compressed@) == Some(bytes@),
{
    let mut decoder = async_compression::tokio::bufread::ZlibDecoder::new(
        std::io::Cursor::new(compressed),
    );
    let mut buffer = Vec::new();
    let read = tokio::io::AsyncReadExt::read_to_end(&mut decoder, &mut buffer);
    match futures::FutureExt::now_or_never(read) {
        Some(Ok(_)) => Ok(buffer),
        Some(Err(error)) => Err(error),
        None => Err(std::io::ErrorKind::WouldBlock.into()),
    }
}

/// The reading of `bytes` as JSON text.
pub open spec fn parsed_spec(bytes: Seq<u8>) -> Result<Option<serde_json::Value>, Fault> {
    match json_parsed(bytes) {
        Some(value) => Ok(Some(value)),
        None => Err(Fault::Json),
    }
}

/// What a message yields: the JSON value it carries, nothing for a message
/// that carries none, or the failure to read it.
pub open spec fn convert_spec(message: Message, zlib: bool) -> Result<
    Option<serde_json::Value>,
    Fault,
> {
    match message {
        Message::Text(text) => parsed_spec(encode_utf8(text@)),
        Message::Binary(compressed) => if zlib {
            match zlib_inflated(compressed@) {
                Some(bytes) => parsed_spec(bytes),
                None => Err(Fault::Io),
            }
        } else {
            Ok(None)
        },
        Message::Close(frame) => Err(Fault::Gateway(GatewayErrorView::Closed(close_frame_view(frame)))),
        _ => Ok(None),
    }
}

/// Takes the JSON value out of a message.
///
/// A text message is parsed as it is. A binary message is inflated and then
/// parsed where `zlib` is set, and passed over where it is not. The close
/// message is the error `Closed` with its frame. Every other message is passed
/// over.
pub fn convert_message(message: Message, zlib: bool) -> (converted: Result<
    Option<serde_json::Value>,
    LeapError,
>)
    ensures
        outcome(converted) == convert_spec(message, zlib),
{
    match message {
        Message::Text(text) => match parse(text.as_str().as_bytes()) {
            Ok(value) => Ok(Some(value)),
            Err(error) => Err(LeapError::Json(error)),
        },
        Message::Binary(compressed) => {
            if zlib {
                match inflate(compressed) {
                    Ok(bytes) => match parse(bytes.as_slice()) {
                        Ok(value) => Ok(Some(value)),
                        Err(error) => Err(LeapError::Json(error)),
                    },
                    Err(error) => Err(LeapError::Io(error)),
                }
            } else {
                Ok(None)
            }
        },
        Message::Close(frame) => Err(LeapError::Gateway(GatewayError::Closed(frame))),
        _ => Ok(None),
    }
}

/// The member of a heartbeat's data that holds its tag.
pub open spec fn tag_key() -> Seq<char> {
    "tag"@
}

/// The member of an identify's data that holds the project.
pub open spec fn project_key() -> Seq<char> {
    "project_id"@
}

/// The member of an identify's data that holds the token.
pub open spec fn token_key() -> Seq<char> {
    "token"@
}

/// The operation code of `op` as a JSON number.
pub open spec fn op_number(op: OpCode) -> serde_json::Value {
    json_number(op.number_spec() as u64)
}

/// The heartbeat frame: the operation code alone, or with the tag as its data.
pub open spec fn heartbeat_payload_spec(tag: Option<Seq<char>>) -> serde_json::Value {
    match tag {
        Some(tag) => json_object(
            seq![
                (op_key(), op_number(OpCode::Heartbeat)),
                (data_key(), json_object(seq![(tag_key(), json_string(tag))])),
            ],
        ),
        None => json_object(seq![(op_key(), op_number(OpCode::Heartbeat))]),
    }
}

/// The identify frame: the operation code, and as its data the project and,
/// where there is one, the token.
pub open spec fn identify_payload_spec(
    project: Seq<char>,
    token: Option<Seq<char>>,
) -> serde_json::Value {
    match token {
        Some(token) => json_object(
            seq![
                (op_key(), op_number(OpCode::Identify)),
                (
                    data_key(),
                    json_object(
                        seq![
                            (project_key(), json_string(project)),
                            (token_key(), json_string(token)),
                        ],
                    ),
                ),
            ],
        ),
        None => json_object(
            seq![
                (op_key(), op_number(OpCode::Identify)),
                (data_key(), json_object(seq![(project_key(), json_string(project))])),
            ],
        ),
    }
}

/// Builds the heartbeat frame. Without a tag the frame has no data member.
pub fn heartbeat_payload(tag: Option<&str>) -> (payload: serde_json::Value)
    ensures
        payload == heartbeat_payload_spec(str_view(tag)),
{
    let mut members: Vec<(String, serde_json::Value)> = Vec::new();
    members.push(("op".to_owned(), number(OpCode::Heartbeat.number() as u64)));
    match tag {
        Some(tag) => {
            let mut data: Vec<(String, serde_json::Value)> = Vec::new();
            data.push(("tag".to_owned(), string(tag)));
            assert(members_view(data@) =~= seq![(tag_key(), json_string(tag@))]);
            members.push(("d".to_owned(), object(data)));
            assert(members_view(members@) =~= seq![
                (op_key(), op_number(OpCode::Heartbeat)),
                (data_key(), json_object(seq![(tag_key(), json_string(tag@))])),
            ]);
        },
        None => {
            assert(members_view(members@) =~= seq![(op_key(), op_number(OpCode::Heartbeat))]);
        },
    }
    object(members)
}

/// Builds the identify frame. Without a token the data has no token member.
pub fn identify_payload(project: &str, token: Option<&str>) -> (payload: serde_json::Value)
    ensures
        payload == identify_payload_spec(project@, str_view(token)),
{
    let mut data: Vec<(String, serde_json::Value)> = Vec::new();
    data.push(("project_id".to_owned(), string(project)));
    match token {
        Some(token) => {
            data.push(("token".to_owned(), string(token)));
            assert(members_view(data@) =~= seq![
                (project_key(), json_string(project@)),
                (token_key(), json_string(token@)),
            ]);
        },
        None => {
            assert(members_view(data@) =~= seq![(project_key(), json_string(project@))]);
        },
    }
    let ghost data_members = members_view(data@);
    let mut members: Vec<(String, serde_json::Value)> = Vec::new();
    members.push(("op".to_owned(), number(OpCode::Identify.number() as u64)));
    members.push(("d".to_owned(), object(data)));
    assert(members_view(members@) =~= seq![
        (op_key(), op_number(OpCode::Identify)),
        (data_key(), json_object(data_members)),
    ]);
    object(members)
}

/// Receiving JSON from a connection.
pub trait RecieverExt {
    /// The next JSON value that has arrived, if any.
    fn recieve_json(&mut self) -> Result<Option<serde_json::Value>, LeapError>;
}

/// Sending JSON over a connection.
pub trait SenderExt {
    /// Sends `value` as one text frame.
    fn send_json(&mut self, value: &serde_json::Value) -> Result<(), LeapError>;
}

/// Sending the protocol's control frames over a connection.
pub trait WsStreamExt {
    /// Sends a heartbeat, with `tag` if there is one.
    fn send_heartbeat(&mut self, tag: Option<&str>) -> Result<(), LeapError>;

    /// Sends the credentials: the project, and the token if there is one.
    fn send_identify(&mut self, project: &str, token: Option<&str>) -> Result<(), LeapError>;
}

/// The shard's end of one WebSocket.
#[derive(Debug)]
pub struct Connection {
    zlib: bool,
    closed: bool,
    inbound: VecDeque<Delivery>,
    outbound: Vec<String>,
}

/// Mathematical model of a [`Connection`].
pub struct ConnectionView {
    /// Whether binary messages are inflated and read.
    pub zlib: bool,
    /// Whether the connection has been closed from this end.
    pub closed: bool,
    /// What the transport has delivered and the shard has not yet received,
    /// oldest first.
    pub inbound: Seq<Delivery>,
    /// The text frames that wait to be written, oldest first.
    pub outbound: Seq<Seq<char>>,
}

/// The texts of a list of strings.
pub open spec fn texts(frames: Seq<String>) -> Seq<Seq<char>> {
    frames.map_values(|frame: String| frame@)
}

impl View for Connection {
    type V = ConnectionView;

    closed spec fn view(&self) -> ConnectionView {
        ConnectionView {
            zlib: self.zlib,
            closed: self.closed,
            inbound: self.inbound@,
            outbound: texts(self.outbound@),
        }
    }
}

impl ConnectionView {
    /// The connection after `text` has been queued for writing.
    pub open spec fn queue(self, text: Seq<char>) -> ConnectionView {
        ConnectionView { outbound: self.outbound.push(text), ..self }
    }

    /// Sending `value`: on a connection closed from this end it fails with
    /// `Closed`; a value that cannot be written fails with the JSON error;
    /// else its text is queued.
    pub open spec fn send(self, value: serde_json::Value) -> (ConnectionView, Result<(), Fault>) {
        if self.closed {
            (self, Err(Fault::Gateway(GatewayErrorView::Closed(None))))
        } else {
            match json_text(value) {
                Some(text) => (self.queue(text), Ok(())),
                None => (self, Err(Fault::Json)),
            }
        }
    }

    /// Receiving: nothing where nothing has been delivered; else the oldest
    /// delivery leaves the queue, and is the transport's error, as it was
    /// delivered, or what its message yields.
    pub open spec fn receive(self) -> (ConnectionView, Result<Option<serde_json::Value>, Fault>) {
        if self.inbound.len() == 0 {
            (self, Ok(None))
        } else {
            let rest = ConnectionView { inbound: self.inbound.subrange(1, self.inbound.len() as int), ..self };
            match self.inbound[0] {
                Delivery::Message(message) => (rest, convert_spec(message, self.zlib)),
                Delivery::Failure(error) => (
                    rest,
                    Err(crate::errors::LeapErrorView::Tungstenite(error).fault()),
                ),
            }
        }
    }

    /// The connection after it has been closed from this end.
    pub open spec fn close(self) -> ConnectionView {
        ConnectionView { closed: true, ..self }
    }
}

impl Connection {
    /// A connection on which nothing has happened yet. With `zlib` set, binary
    /// messages are taken to hold zlib-compressed JSON.
    pub fn new(zlib: bool) -> (connection: Connection)
        ensures
            connection@ == (ConnectionView {
                zlib,
                closed: false,
                inbound: Seq::<Delivery>::empty(),
                outbound: Seq::<Seq<char>>::empty(),
            }),
    {
        let connection = Connection {
            zlib,
            closed: false,
            inbound: VecDeque::new(),
            outbound: Vec::new(),
        };
        assert(texts(connection.outbound@) =~= Seq::<Seq<char>>::empty());
        connection
    }

    /// Hands over what the transport has read.
    pub fn deliver(&mut self, delivery: Delivery)
        ensures
            final(self)@ == (ConnectionView {
                inbound: old(self)@.inbound.push(delivery),
                ..old(self)@
            }),
    {
        self.inbound.push_back(delivery);
    }

    /// Takes the frames that wait to be written, oldest first.
    pub fn take_outbound(&mut self) -> (frames: Vec<String>)
        ensures
            texts(frames@) == old(self)@.outbound,
            final(self)@ == (ConnectionView {
                outbound: Seq::<Seq<char>>::empty(),
                ..old(self)@
            }),
    {
        let mut frames: Vec<String> = Vec::new();
        std::mem::swap(&mut frames, &mut self.outbound);
        assert(texts(self.outbound@) =~= Seq::<Seq<char>>::empty());
        frames
    }

    /// Closes the connection from this end. Closing a closed connection
    /// changes nothing.
    pub fn close(&mut self)
        ensures
            final(self)@ == old(self)@.close(),
    {
        self.closed = true;
    }

    /// Whether the connection has been closed from this end.
    pub fn is_closed(&self) -> (closed: bool)
        ensures
            closed == self@.closed,
    {
        self.closed
    }

    /// How many deliveries wait to be received.
    pub fn pending(&self) -> (pending: usize)
        ensures
            pending == self@.inbound.len(),
    {
        self.inbound.len()
    }
}

impl RecieverExt for Connection {
    /// Receives without waiting: what has not been delivered is not there.
    fn recieve_json(&mut self) -> (received: Result<Option<serde_json::Value>, LeapError>)
        ensures
            (final(self)@, outcome(received)) == old(self)@.receive(),
            old(self)@.inbound.len() > 0 ==> match old(self)@.inbound[0] {
                Delivery::Failure(error) => received == Err::<
                    Option<serde_json::Value>,
                    LeapError,
                >(LeapError::Tungstenite(error)),
                Delivery::Message(_) => true,
            },
    {
        match self.inbound.pop_front() {
            None => Ok(None),
            Some(Delivery::Message(message)) => convert_message(message, self.zlib),
            Some(Delivery::Failure(error)) => Err(LeapError::Tungstenite(error)),
        }
    }
}

impl SenderExt for Connection {
    /// Writes `value` as JSON text and queues it as one text frame.
    fn send_json(&mut self, value: &serde_json::Value) -> (sent: Result<(), LeapError>)
        ensures
            (final(self)@, outcome(sent)) == old(self)@.send(*value),
    {
        if self.closed {
            return Err(LeapError::Gateway(GatewayError::Closed(None)));
        }
        match print(value) {
            Ok(text) => {
                self.outbound.push(text);
                assert(texts(self.outbound@) =~= texts(old(self).outbound@).push(text@));
                Ok(())
            },
            Err(error) => Err(LeapError::Json(error)),
        }
    }
}

impl WsStreamExt for Connection {
    fn send_heartbeat(&mut self, tag: Option<&str>) -> (sent: Result<(), LeapError>)
        ensures
            (final(self)@, outcome(sent)) == old(self)@.send(heartbeat_payload_spec(str_view(tag))),
    {
        let payload = heartbeat_payload(tag);
        self.send_json(&payload)
    }

    fn send_identify(&mut self, project: &str, token: Option<&str>) -> (sent: Result<
        (),
        LeapError,
    >)
        ensures
            (final(self)@, outcome(sent)) == old(self)@.send(
                identify_payload_spec(project@, str_view(token)),
            ),
    {
        let payload = identify_payload(project, token);
        self.send_json(&payload)
    }
}

} // verus!
