//! Receivers: the one source of the messages that the relay passes on.
//!
//! A receiver creator recognises the descriptors of its kind and plans the
//! transport to open for one. What arrives on that transport is decoded to
//! text here; a message that is not text ends the relay.

use vstd::prelude::*;
use vstd::string::*;
use vstd::utf8::{decode_utf8, encode_utf8, encode_utf8_decode_utf8, valid_utf8};
use std::string::FromUtf8Error;
use url::Url;
use crate::descriptor::{has_prefix, is_keyword, line_source_keyword, socket_scheme};
use crate::effect::SetupError;

verus! {

/// The size of the buffer into which one datagram is received. A longer
/// datagram is cut off at this length.
pub const DATAGRAM_CAPACITY: usize = 8192;

/// The transport that a receiver reads from.
#[derive(Debug, PartialEq, Eq)]
pub enum ReceiverPlan {
    /// Read the lines of standard input, one message a line, until it ends.
    ReadLines,
    /// Connect to the websocket at `url` and take one message from every
    /// frame.
    Connect { url: String },
    /// Bind a datagram socket to `address` and take one message from every
    /// datagram, received into a buffer of `capacity` bytes.
    Bind { address: String, capacity: usize },
}

/// The mathematical content of a [`ReceiverPlan`].
pub enum PlanView {
    ReadLines,
    Connect { url: Seq<char> },
    Bind { address: Seq<char>, capacity: usize },
}

impl View for ReceiverPlan {
    type V = PlanView;

    open spec fn view(&self) -> PlanView {
        match *self {
            ReceiverPlan::ReadLines => PlanView::ReadLines,
            ReceiverPlan::Connect { url } => PlanView::Connect { url: url@ },
            ReceiverPlan::Bind { address, capacity } => PlanView::Bind {
                address: address@,
                capacity,
            },
        }
    }
}

/// The content of the outcome of planning a receiver.
pub open spec fn plan_view(plan: Result<ReceiverPlan, SetupError>) -> Result<PlanView, SetupError> {
    match plan {
        Ok(plan) => Ok(plan@),
        Err(error) => Err(error),
    }
}

/// A kind of source.
pub trait ReceiverCreator {
    /// Whether a descriptor names a source of this kind.
    spec fn accepts(descriptor: Seq<char>) -> bool;

    /// The transport to open for `descriptor`, or why there is none.
    spec fn plan(descriptor: Seq<char>) -> Result<PlanView, SetupError>;

    /// Whether `option` names a source of this kind.
    fn matches(&self, option: &String) -> (accepted: bool)
        ensures
            accepted == Self::accepts(option@),
    ;

    /// Plans the transport from which the messages of `option` are read.
    fn create_receiver(&self, option: &String) -> (plan: Result<ReceiverPlan, SetupError>)
        ensures
            plan_view(plan) == Self::plan(option@),
    ;
}

/// Creates the receiver that reads standard input.
pub struct StdinReceiverCreator;

impl ReceiverCreator for StdinReceiverCreator {
    open spec fn accepts(descriptor: Seq<char>) -> bool {
        descriptor == line_source_keyword()
    }

    open spec fn plan(descriptor: Seq<char>) -> Result<PlanView, SetupError> {
        Ok(PlanView::ReadLines)
    }

    fn matches(&self, option: &String) -> (accepted: bool) {
        is_keyword(option, "stdin")
    }

    fn create_receiver(&self, option: &String) -> (plan: Result<ReceiverPlan, SetupError>) {
        Ok(ReceiverPlan::ReadLines)
    }
}

/// The serialization of the absolute URL that `input` parses to; `None`
/// where `input` is no absolute URL.
pub uninterp spec fn url_serialization(input: Seq<char>) -> Option<Seq<char>>;

#[verifier::external_type_specification]
#[verifier::external_body]
pub struct ExParseError(url::ParseError);

/// The content of a text that came with a possible failure.
pub open spec fn parsed_view<E>(parsed: Result<String, E>) -> Option<Seq<char>> {
    match parsed {
        Ok(text) => Some(text@),
        Err(_) => None,
    }
}

/// Parses `input` with `url::Url::parse` and hands out the serialization
/// that the parsed URL holds.
///
/// Trusted: that the outcome is a function of `input` alone.
#[verifier::external_body]
fn parse_url(input: &str) -> (parsed: Result<String, url::ParseError>)
    ensures
        parsed_view(parsed) == url_serialization(input@),
{
    Url::parse(input).map(String::from)
}

/// The plan to connect to the URL `parsed`, or the refusal where there is
/// none.
pub open spec fn connection_plan(parsed: Option<Seq<char>>) -> Result<PlanView, SetupError> {
    match parsed {
        Some(url) => Ok(PlanView::Connect { url }),
        None => Err(SetupError::InvalidUrl),
    }
}

/// Plans the connection to the URL `parsed`, and refuses where there is
/// none.
pub fn plan_connection(parsed: Option<String>) -> (plan: Result<ReceiverPlan, SetupError>)
    ensures
        plan_view(plan) == connection_plan(
            match parsed {
                Some(url) => Some(url@),
                None => None,
            },
        ),
{
    match parsed {
        Some(url) => Ok(ReceiverPlan::Connect { url }),
        None => Err(SetupError::InvalidUrl),
    }
}

/// Creates the receiver that reads from an outbound websocket connection.
pub struct WebSocketReceiverCreator;

impl ReceiverCreator for WebSocketReceiverCreator {
    open spec fn accepts(descriptor: Seq<char>) -> bool {
        socket_scheme().is_prefix_of(descriptor)
    }

    open spec fn plan(descriptor: Seq<char>) -> Result<PlanView, SetupError> {
        connection_plan(url_serialization(descriptor))
    }

    fn matches(&self, option: &String) -> (accepted: bool) {
        has_prefix(option, "ws://")
    }

    fn create_receiver(&self, option: &String) -> (plan: Result<ReceiverPlan, SetupError>) {
        match parse_url(option.as_str()) {
            Ok(url) => plan_connection(Some(url)),
            Err(_) => plan_connection(None),
        }
    }
}

/// Creates the receiver that reads datagrams: the kind of every descriptor
/// that is of no other.
pub struct UdpReceiverCreator;

impl ReceiverCreator for UdpReceiverCreator {
    open spec fn accepts(descriptor: Seq<char>) -> bool {
        true
    }

    open spec fn plan(descriptor: Seq<char>) -> Result<PlanView, SetupError> {
        Ok(PlanView::Bind { address: descriptor, capacity: DATAGRAM_CAPACITY })
    }

    fn matches(&self, option: &String) -> (accepted: bool) {
        true
    }

    fn create_receiver(&self, option: &String) -> (plan: Result<ReceiverPlan, SetupError>) {
        Ok(ReceiverPlan::Bind { address: option.clone(), capacity: DATAGRAM_CAPACITY })
    }
}

/// Why what was received is no message.
#[derive(Clone, Copy, Debug, PartialEq, Eq, Structural)]
pub enum DecodeError {
    /// The bytes are not UTF-8.
    InvalidUtf8,
}

#[verifier::external_type_specification]
#[verifier::external_body]
pub struct ExFromUtf8Error(FromUtf8Error);

/// `String::from_utf8` succeeds on the byte sequences that are UTF-8, and
/// then gives the string that is encoded by the bytes.
pub assume_specification[ String::from_utf8 ](vec: Vec<u8>) -> (text: Result<String, FromUtf8Error>)
    ensures
        text is Ok <==> valid_utf8(vec@),
        text matches Ok(decoded) ==> encode_utf8(decoded@) == vec@,
;

/// The text that `bytes` encode, where they encode one.
pub open spec fn text_of(bytes: Seq<u8>) -> Result<Seq<char>, DecodeError> {
    if valid_utf8(bytes) {
        Ok(decode_utf8(bytes))
    } else {
        Err(DecodeError::InvalidUtf8)
    }
}

/// The content of the outcome of decoding.
pub open spec fn decoded_view(text: Result<String, DecodeError>) -> Result<Seq<char>, DecodeError> {
    match text {
        Ok(text) => Ok(text@),
        Err(error) => Err(error),
    }
}

/// Decodes the payload of a datagram as UTF-8 text.
pub fn decode_datagram(bytes: Vec<u8>) -> (text: Result<String, DecodeError>)
    ensures
        decoded_view(text) == text_of(bytes@),
        text matches Ok(decoded) ==> encode_utf8(decoded@) == bytes@,
{
    match String::from_utf8(bytes) {
        Ok(decoded) => {
            proof {
                encode_utf8_decode_utf8(decoded@);
            }
            Ok(decoded)
        },
        Err(_) => Err(DecodeError::InvalidUtf8),
    }
}

/// One websocket message as it was read.
#[derive(Debug, PartialEq, Eq)]
pub enum Frame {
    /// A text message.
    Text(String),
    /// A binary message.
    Binary(Vec<u8>),
    /// A ping, with its payload.
    Ping(Vec<u8>),
    /// A pong, with its payload.
    Pong(Vec<u8>),
    /// A close message, with the reason that it gives, if any.
    Close(Option<String>),
    /// A raw frame, with its payload.
    Raw(Vec<u8>),
}

/// The mathematical content of a [`Frame`].
pub enum FrameView {
    Text(Seq<char>),
    Binary(Seq<u8>),
    Ping(Seq<u8>),
    Pong(Seq<u8>),
    Close(Option<Seq<char>>),
    Raw(Seq<u8>),
}

impl View for Frame {
    type V = FrameView;

    open spec fn view(&self) -> FrameView {
        match *self {
            Frame::Text(text) => FrameView::Text(text@),
            Frame::Binary(payload) => FrameView::Binary(payload@),
            Frame::Ping(payload) => FrameView::Ping(payload@),
            Frame::Pong(payload) => FrameView::Pong(payload@),
            Frame::Close(Some(reason)) => FrameView::Close(Some(reason@)),
            Frame::Close(None) => FrameView::Close(None),
            Frame::Raw(payload) => FrameView::Raw(payload@),
        }
    }
}

/// The message that a frame carries: a text message is its text; a payload
/// of bytes is the text that the bytes encode; a close message is the reason
/// it gives, and the empty text where it gives none.
pub open spec fn frame_text(frame: FrameView) -> Result<Seq<char>, DecodeError> {
    match frame {
        FrameView::Text(text) => Ok(text),
        FrameView::Binary(payload) => text_of(payload),
        FrameView::Ping(payload) => text_of(payload),
        FrameView::Pong(payload) => text_of(payload),
        FrameView::Close(Some(reason)) => Ok(reason),
        FrameView::Close(None) => Ok(Seq::empty()),
        FrameView::Raw(payload) => text_of(payload),
    }
}

/// Decodes a websocket message to the text that it carries.
pub fn decode_frame(frame: Frame) -> (text: Result<String, DecodeError>)
    ensures
        decoded_view(text) == frame_text(frame@),
{
    match frame {
        Frame::Text(text) => Ok(text),
        Frame::Binary(payload) => decode_datagram(payload),
        Frame::Ping(payload) => decode_datagram(payload),
        Frame::Pong(payload) => decode_datagram(payload),
        Frame::Close(Some(reason)) => Ok(reason),
        Frame::Close(None) => Ok(String::new()),
        Frame::Raw(payload) => decode_datagram(payload),
    }
}

} // verus!
