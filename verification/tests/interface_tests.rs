use websocket_core::error::Error;
use websocket_core::interface::WebSocketInterface;
use websocket_core::options::ConnectOptions;
use websocket_core::options::ConnectStrategy;
use websocket_core::options::Options;

fn options_with_handshake() -> Options {
    let mut o = Options::default();
    o.handshake = true;
    o
}

#[test]
fn new_interface_is_closed_and_keeps_url() {
    let i = WebSocketInterface::new(Some("ws://a"), &Options::default()).unwrap();
    assert_eq!(i.url(), Some(String::from("ws://a")));
    assert!(!i.is_open());
    assert!(i.reconnect);
    assert!(!i.handshake);
}

#[test]
fn new_interface_takes_handshake_from_options() {
    let i = WebSocketInterface::new(None, &options_with_handshake()).unwrap();
    assert_eq!(i.url(), None);
    assert!(i.handshake);
}

#[test]
fn set_url_redirects_later_attempts() {
    let mut i = WebSocketInterface::new(Some("ws://a"), &Options::default()).unwrap();
    i.set_url("ws://b");
    assert_eq!(i.url(), Some(String::from("ws://b")));
}

#[test]
fn connect_while_open_fails_with_already_connected() {
    let mut i = WebSocketInterface::new(Some("ws://a"), &Options::default()).unwrap();
    i.is_open = true;
    let r = i.connect(&ConnectOptions::default());
    assert_eq!(r.unwrap_err(), Error::AlreadyConnected);
}

#[test]
fn connect_without_url_fails_with_missing_url() {
    let mut i = WebSocketInterface::new(None, &Options::default()).unwrap();
    let r = i.connect(&ConnectOptions::default());
    assert_eq!(r.unwrap_err(), Error::MissingUrl);
}

#[test]
fn connect_applies_url_override() {
    let mut i = WebSocketInterface::new(None, &Options::default()).unwrap();
    let mut o = ConnectOptions::default();
    o.url = Some(String::from("ws://override"));
    let task = i.connect(&o).unwrap();
    assert_eq!(i.url(), Some(String::from("ws://override")));
    assert!(task.trigger_armed);
    assert_eq!(task.strategy, ConnectStrategy::Retry);
    assert!(task.block_async_connect);
}

#[test]
fn connect_arms_the_supervisor_with_the_options() {
    let mut i = WebSocketInterface::new(Some("ws://a"), &Options::default()).unwrap();
    i.reconnect = false;
    let task = i.connect(&ConnectOptions::fallback()).unwrap();
    assert!(i.reconnect);
    assert_eq!(task.strategy, ConnectStrategy::Fallback);
    assert!(task.trigger_armed);
}

#[test]
fn close_signals_only_while_open() {
    let mut i = WebSocketInterface::new(Some("ws://a"), &Options::default()).unwrap();
    assert!(!i.close());
    i.is_open = true;
    assert!(i.close());
}

#[test]
fn disconnect_disables_reconnect_then_closes() {
    let mut i = WebSocketInterface::new(Some("ws://a"), &Options::default()).unwrap();
    i.is_open = true;
    let signal = i.disconnect();
    assert!(signal);
    assert!(!i.reconnect);
}

#[test]
fn init_inner_occupies_once() {
    let mut i = WebSocketInterface::new(Some("ws://a"), &Options::default()).unwrap();
    assert_eq!(i.init_inner(), Ok(()));
    assert!(i.inner_active);
    assert_eq!(i.init_inner(), Err(Error::AlreadyInitialized));
}

#[test]
fn clear_inner_empties_the_slot() {
    let mut i = WebSocketInterface::new(Some("ws://a"), &Options::default()).unwrap();
    i.init_inner().unwrap();
    assert!(i.clear_inner());
    assert!(!i.inner_active);
    assert!(!i.clear_inner());
}

#[test]
fn should_reconnect_reads_the_flag() {
    let mut i = WebSocketInterface::new(Some("ws://a"), &Options::default()).unwrap();
    assert!(i.should_reconnect());
    i.disconnect();
    assert!(!i.should_reconnect());
}
