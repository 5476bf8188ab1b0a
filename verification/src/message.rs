//! The message model and its codec boundaries.
//!
//! `Message` is the sole type crossing the application/core boundary.
//! `Frame` models the transport frame variants the dispatcher distinguishes;
//! the runtime converts it one-for-one to and from the frame type of the
//! transport library at the I/O edge.

use vstd::prelude::*;

use crate::error::Error;

verus! {

/// An application-visible frame.
///
/// `Text` and `Binary` travel on the wire; `Open` and `Close` are synthetic,
/// produced by the core to mark the start and the end of a session on the
/// receiver channel, and are never serialized onto the wire.
#[derive(Clone, Debug, PartialEq, Eq)]
pub enum Message {
    /// A text frame.
    Text(String),
    /// A binary frame.
    Binary(Vec<u8>),
    /// Synthetic: a session has begun.
    Open,
    /// Synthetic: the session has ended (peer close, transport failure, or
    /// local shutdown).
    Close,
}

/// The mathematical value of a [`Message`].
pub enum MessageView {
    /// A text frame.
    Text(Seq<char>),
    /// A binary frame.
    Binary(Seq<u8>),
    /// Synthetic session start.
    Open,
    /// Synthetic session end.
    Close,
}

impl View for Message {
    type V = MessageView;

    open spec fn view(&self) -> MessageView {
        match self {
            Message::Text(text) => MessageView::Text(text@),
            Message::Binary(data) => MessageView::Binary(data@),
            Message::Open => MessageView::Open,
            Message::Close => MessageView::Close,
        }
    }
}

impl DeepView for Message {
    type V = MessageView;

    open spec fn deep_view(&self) -> MessageView {
        self.view()
    }
}

impl MessageView {
    /// Whether the message may be passed into the transport: only `Text` and
    /// `Binary` have a wire representation.
    pub open spec fn is_wire(self) -> bool {
        match self {
            MessageView::Text(_) => true,
            MessageView::Binary(_) => true,
            MessageView::Open => false,
            MessageView::Close => false,
        }
    }

    /// The transport frame a wire message converts into.
    pub open spec fn wire_frame(self) -> FrameView
        recommends
            self.is_wire(),
    {
        match self {
            MessageView::Text(text) => FrameView::Text(text),
            MessageView::Binary(data) => FrameView::Binary(data),
            _ => FrameView::Other,
        }
    }
}

/// A transport frame, as the dispatcher distinguishes them.
///
/// `Other` stands for the intermediate frame variants of the transport
/// library (raw or partial frames) that the dispatcher drops silently.
#[derive(Clone, Debug, PartialEq, Eq)]
pub enum Frame {
    /// A text frame.
    Text(String),
    /// A binary frame.
    Binary(Vec<u8>),
    /// A close frame from the peer.
    Close,
    /// A ping frame with its payload.
    Ping(Vec<u8>),
    /// A pong frame with its payload.
    Pong(Vec<u8>),
    /// Any intermediate frame variant.
    Other,
}

/// The mathematical value of a [`Frame`].
pub enum FrameView {
    /// A text frame.
    Text(Seq<char>),
    /// A binary frame.
    Binary(Seq<u8>),
    /// A close frame.
    Close,
    /// A ping frame.
    Ping(Seq<u8>),
    /// A pong frame.
    Pong(Seq<u8>),
    /// Any intermediate frame variant.
    Other,
}

impl View for Frame {
    type V = FrameView;

    open spec fn view(&self) -> FrameView {
        match self {
            Frame::Text(text) => FrameView::Text(text@),
            Frame::Binary(data) => FrameView::Binary(data@),
            Frame::Close => FrameView::Close,
            Frame::Ping(data) => FrameView::Ping(data@),
            Frame::Pong(data) => FrameView::Pong(data@),
            Frame::Other => FrameView::Other,
        }
    }
}

impl DeepView for Frame {
    type V = FrameView;

    open spec fn deep_view(&self) -> FrameView {
        self.view()
    }
}

impl FrameView {
    /// Whether the dispatcher surfaces this frame to the application:
    /// text, binary and peer-close frames do; ping, pong and intermediate
    /// frames never do.
    pub open spec fn is_surfaced(self) -> bool {
        match self {
            FrameView::Text(_) => true,
            FrameView::Binary(_) => true,
            FrameView::Close => true,
            _ => false,
        }
    }

    /// The application message a surfaced frame maps to: text to `Text`,
    /// binary to `Binary`, a peer close frame to `Close`.
    pub open spec fn surface(self) -> MessageView
        recommends
            self.is_surfaced(),
    {
        match self {
            FrameView::Text(text) => MessageView::Text(text),
            FrameView::Binary(data) => MessageView::Binary(data),
            _ => MessageView::Close,
        }
    }
}

impl Message {
    /// Whether the message may be passed into the transport.
    pub fn is_wire(&self) -> (r: bool)
        ensures
            r == self@.is_wire(),
    {
        match self {
            Message::Text(_) => true,
            Message::Binary(_) => true,
            _ => false,
        }
    }

    /// Converts a wire message into its transport frame. Conversion is
    /// defined only for `Text` and `Binary`: asking the transport to
    /// serialize a synthetic `Open` or `Close` is a programmer error, and
    /// the core never does it.
    pub fn into_frame(self) -> (f: Frame)
        requires
            self@.is_wire(),
        ensures
            f@ == self@.wire_frame(),
    {
        match self {
            Message::Text(text) => Frame::Text(text),
            Message::Binary(data) => Frame::Binary(data),
            Message::Open => Frame::Other,
            Message::Close => Frame::Other,
        }
    }

    /// Converts a borrowed wire message into its transport frame.
    pub fn to_frame(&self) -> (f: Frame)
        requires
            self@.is_wire(),
        ensures
            f@ == self@.wire_frame(),
    {
        match self {
            Message::Text(text) => Frame::Text(clone_string(text)),
            Message::Binary(data) => Frame::Binary(clone_bytes(data)),
            Message::Open => Frame::Other,
            Message::Close => Frame::Other,
        }
    }
}

impl Frame {
    /// Whether the dispatcher surfaces this frame to the application.
    pub fn is_surfaced(&self) -> (r: bool)
        ensures
            r == self@.is_surfaced(),
    {
        match self {
            Frame::Text(_) => true,
            Frame::Binary(_) => true,
            Frame::Close => true,
            _ => false,
        }
    }

    /// Converts a borrowed surfaced frame into the application message it
    /// carries, leaving the frame in place.
    pub fn clone_surfaced(&self) -> (m: Message)
        requires
            self@.is_surfaced(),
        ensures
            m@ == self@.surface(),
    {
        match self {
            Frame::Text(text) => Message::Text(clone_string(text)),
            Frame::Binary(data) => Message::Binary(clone_bytes(data)),
            _ => Message::Close,
        }
    }

    /// Converts a surfaced frame into the application message it carries.
    pub fn into_message(self) -> (m: Message)
        requires
            self@.is_surfaced(),
        ensures
            m@ == self@.surface(),
    {
        match self {
            Frame::Text(text) => Message::Text(text),
            Frame::Binary(data) => Message::Binary(data),
            _ => Message::Close,
        }
    }
}

/// Clones a byte vector.
pub fn clone_bytes(data: &Vec<u8>) -> (r: Vec<u8>)
    ensures
        r@ == data@,
{
    let r = data.clone();
    assert(r@ =~= data@);
    r
}

/// Clones a string.
pub fn clone_string(text: &String) -> (r: String)
    ensures
        r == *text,
{
    text.clone()
}

/// The payload shapes a browser message event can hand the adapter: an
/// array buffer, a well-formed string, a string value that does not decode
/// to text, or data of any other type.
#[derive(Clone, Debug, PartialEq, Eq)]
pub enum EventData {
    /// The event data is an array buffer holding these bytes.
    Buffer(Vec<u8>),
    /// The event data is this string.
    Text(String),
    /// The event data reports itself as a string but yields no text.
    MalformedText,
    /// The event data has any other type.
    Unsupported,
}

/// The mathematical value of an [`EventData`].
pub enum EventDataView {
    /// An array buffer.
    Buffer(Seq<u8>),
    /// A well-formed string.
    Text(Seq<char>),
    /// A string value that yields no text.
    MalformedText,
    /// Any other type.
    Unsupported,
}

impl View for EventData {
    type V = EventDataView;

    open spec fn view(&self) -> EventDataView {
        match self {
            EventData::Buffer(data) => EventDataView::Buffer(data@),
            EventData::Text(text) => EventDataView::Text(text@),
            EventData::MalformedText => EventDataView::MalformedText,
            EventData::Unsupported => EventDataView::Unsupported,
        }
    }
}

impl DeepView for EventData {
    type V = EventDataView;

    open spec fn deep_view(&self) -> EventDataView {
        self.view()
    }
}

/// The message a browser event payload decodes to, or the exact error kind:
/// buffers decode to `Binary`, strings to `Text`, a malformed string fails
/// with `DataEncoding`, and any other payload fails with `DataType`.
pub open spec fn spec_decode_event(data: EventDataView) -> Result<MessageView, Error> {
    match data {
        EventDataView::Buffer(bytes) => Ok(MessageView::Binary(bytes)),
        EventDataView::Text(text) => Ok(MessageView::Text(text)),
        EventDataView::MalformedText => Err(Error::DataEncoding),
        EventDataView::Unsupported => Err(Error::DataType),
    }
}

/// Decodes the payload of a browser message event into an application
/// message.
pub fn decode_event(data: EventData) -> (r: Result<Message, Error>)
    ensures
        match (r, spec_decode_event(data@)) {
            (Ok(m), Ok(v)) => m@ == v,
            (Err(e), Err(v)) => e == v,
            _ => false,
        },
{
    match data {
        EventData::Buffer(bytes) => Ok(Message::Binary(bytes)),
        EventData::Text(text) => Ok(Message::Text(text)),
        EventData::MalformedText => Err(Error::DataEncoding),
        EventData::Unsupported => Err(Error::DataType),
    }
}

} // verus!
