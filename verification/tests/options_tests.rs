use websocket_core::options::ConnectOptions;
use websocket_core::options::ConnectStrategy;
use websocket_core::options::HostValue;
use websocket_core::options::Options;
use websocket_core::options::DEFAULT_CONNECT_TIMEOUT_MILLIS;
use websocket_core::options::DEFAULT_RETRY_INTERVAL_MILLIS;

#[test]
fn default_options_have_no_handshake_and_unbounded_channels() {
    let o = Options::default();
    assert_eq!(o.receiver_channel_cap, None);
    assert_eq!(o.sender_channel_cap, None);
    assert!(!o.handshake);
}

#[test]
fn strategy_new_maps_retry_flag() {
    assert_eq!(ConnectStrategy::new(true), ConnectStrategy::Retry);
    assert_eq!(ConnectStrategy::new(false), ConnectStrategy::Fallback);
}

#[test]
fn strategy_is_fallback() {
    assert!(ConnectStrategy::Fallback.is_fallback());
    assert!(!ConnectStrategy::Retry.is_fallback());
    assert_eq!(ConnectStrategy::default(), ConnectStrategy::Retry);
}

#[test]
fn default_connect_options_block_and_retry() {
    let o = ConnectOptions::default();
    assert!(o.block_async_connect);
    assert_eq!(o.strategy, ConnectStrategy::Retry);
    assert_eq!(o.url, None);
}

#[test]
fn fallback_connect_options() {
    let o = ConnectOptions::fallback();
    assert!(o.block_async_connect);
    assert_eq!(o.strategy, ConnectStrategy::Fallback);
    assert_eq!(o.url, None);
}

#[test]
fn reconnect_defaults_connect_options() {
    let o = ConnectOptions::reconnect_defaults();
    assert!(o.block_async_connect);
    assert_eq!(o.strategy, ConnectStrategy::Retry);
    assert_eq!(o.url, None);
}

#[test]
fn effective_timings_fall_back_to_defaults() {
    let o = ConnectOptions::default();
    assert_eq!(o.connect_timeout(), DEFAULT_CONNECT_TIMEOUT_MILLIS);
    assert_eq!(o.retry_interval(), DEFAULT_RETRY_INTERVAL_MILLIS);
    let mut o2 = ConnectOptions::default();
    o2.connect_timeout_millis = Some(250);
    o2.retry_interval_millis = Some(50);
    assert_eq!(o2.connect_timeout(), 250);
    assert_eq!(o2.retry_interval(), 50);
}

#[test]
fn host_object_with_all_keys() {
    let o = ConnectOptions::from_host_value(HostValue::Object {
        url: Some(String::from("ws://example")),
        block: Some(false),
        retry: Some(false),
    });
    assert_eq!(o.url, Some(String::from("ws://example")));
    assert!(!o.block_async_connect);
    assert_eq!(o.strategy, ConnectStrategy::Fallback);
}

#[test]
fn host_object_keys_default_to_true() {
    let o = ConnectOptions::from_host_value(HostValue::Object {
        url: None,
        block: None,
        retry: None,
    });
    assert_eq!(o.url, None);
    assert!(o.block_async_connect);
    assert_eq!(o.strategy, ConnectStrategy::Retry);
}

#[test]
fn host_bare_boolean_is_retry_flag() {
    let retry = ConnectOptions::from_host_value(HostValue::Bool(true));
    assert_eq!(retry.strategy, ConnectStrategy::Retry);
    assert!(retry.block_async_connect);
    let fallback = ConnectOptions::from_host_value(HostValue::Bool(false));
    assert_eq!(fallback.strategy, ConnectStrategy::Fallback);
    assert!(fallback.block_async_connect);
}

#[test]
fn host_other_shape_yields_defaults() {
    let o = ConnectOptions::from_host_value(HostValue::Other);
    assert_eq!(o, ConnectOptions::default());
}
