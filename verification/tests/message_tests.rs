use websocket_core::error::Error;
use websocket_core::message::decode_event;
use websocket_core::message::EventData;
use websocket_core::message::Frame;
use websocket_core::message::Message;

#[test]
fn text_message_converts_to_text_frame() {
    let m = Message::Text(String::from("hello"));
    assert_eq!(m.into_frame(), Frame::Text(String::from("hello")));
}

#[test]
fn binary_message_converts_to_binary_frame() {
    let m = Message::Binary(vec![1u8, 2, 3]);
    assert_eq!(m.into_frame(), Frame::Binary(vec![1u8, 2, 3]));
}

#[test]
fn to_frame_leaves_message_in_place() {
    let m = Message::Text(String::from("keep"));
    let f = m.to_frame();
    assert_eq!(f, Frame::Text(String::from("keep")));
    assert_eq!(m, Message::Text(String::from("keep")));
}

#[test]
fn wire_messages_are_wire() {
    assert!(Message::Text(String::from("a")).is_wire());
    assert!(Message::Binary(vec![0u8]).is_wire());
    assert!(!Message::Open.is_wire());
    assert!(!Message::Close.is_wire());
}

#[test]
fn text_frame_surfaces_as_text() {
    let f = Frame::Text(String::from("hi"));
    assert!(f.is_surfaced());
    assert_eq!(f.into_message(), Message::Text(String::from("hi")));
}

#[test]
fn binary_frame_surfaces_as_binary() {
    let f = Frame::Binary(vec![9u8, 8]);
    assert_eq!(f.into_message(), Message::Binary(vec![9u8, 8]));
}

#[test]
fn close_frame_surfaces_as_close() {
    assert_eq!(Frame::Close.into_message(), Message::Close);
}

#[test]
fn ping_pong_and_other_frames_never_surface() {
    assert!(!Frame::Ping(vec![1u8]).is_surfaced());
    assert!(!Frame::Pong(vec![1u8]).is_surfaced());
    assert!(!Frame::Other.is_surfaced());
}

#[test]
fn buffer_event_decodes_to_binary() {
    let r = decode_event(EventData::Buffer(vec![7u8, 7]));
    assert_eq!(r, Ok(Message::Binary(vec![7u8, 7])));
}

#[test]
fn string_event_decodes_to_text() {
    let r = decode_event(EventData::Text(String::from("msg")));
    assert_eq!(r, Ok(Message::Text(String::from("msg"))));
}

#[test]
fn malformed_string_event_fails_with_data_encoding() {
    assert_eq!(decode_event(EventData::MalformedText), Err(Error::DataEncoding));
}

#[test]
fn unsupported_event_fails_with_data_type() {
    assert_eq!(decode_event(EventData::Unsupported), Err(Error::DataType));
}

#[test]
fn retryable_error_kinds() {
    assert!(Error::ConnectionTimeout.is_retryable());
    assert!(Error::NegotiationFailure.is_retryable());
    assert!(Error::Transport.is_retryable());
    assert!(Error::Io.is_retryable());
    assert!(!Error::AlreadyConnected.is_retryable());
    assert!(!Error::MissingUrl.is_retryable());
    assert!(!Error::Shutdown.is_retryable());
}
