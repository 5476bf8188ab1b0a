use websocket_core::channel::Channel;
use websocket_core::channel::ChannelError;

#[test]
fn channel_is_first_in_first_out() {
    let mut ch: Channel<u32> = Channel::new(None);
    assert!(ch.try_send(1).is_ok());
    assert!(ch.try_send(2).is_ok());
    assert!(ch.try_send(3).is_ok());
    assert_eq!(ch.len(), 3);
    assert_eq!(ch.try_recv(), Ok(1));
    assert_eq!(ch.try_recv(), Ok(2));
    assert_eq!(ch.try_recv(), Ok(3));
    assert!(ch.is_empty());
}

#[test]
fn bounded_channel_rejects_at_capacity() {
    let mut ch: Channel<u32> = Channel::new(Some(2));
    assert!(ch.try_send(10).is_ok());
    assert!(ch.try_send(11).is_ok());
    match ch.try_send(12) {
        Err((ChannelError::Full, v)) => assert_eq!(v, 12),
        other => panic!("expected the channel to be full, got {other:?}"),
    }
    assert_eq!(ch.try_recv(), Ok(10));
    assert!(ch.try_send(12).is_ok());
}

#[test]
fn empty_open_channel_reports_empty() {
    let mut ch: Channel<u32> = Channel::new(None);
    assert_eq!(ch.try_recv(), Err(ChannelError::Empty));
}

#[test]
fn closed_channel_fails_sends_with_closed() {
    let mut ch: Channel<u32> = Channel::new(None);
    ch.close();
    match ch.try_send(1) {
        Err((ChannelError::Closed, v)) => assert_eq!(v, 1),
        other => panic!("expected the channel to be closed, got {other:?}"),
    }
}

#[test]
fn closed_channel_drains_then_reports_closed() {
    let mut ch: Channel<u32> = Channel::new(None);
    assert!(ch.try_send(7).is_ok());
    ch.close();
    assert_eq!(ch.try_recv(), Ok(7));
    assert_eq!(ch.try_recv(), Err(ChannelError::Closed));
}
