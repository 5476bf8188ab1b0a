use websocket_core::dispatch::dispatcher_step;
use websocket_core::dispatch::drain_pending;
use websocket_core::dispatch::run_dispatcher;
use websocket_core::dispatch::run_session;
use websocket_core::dispatch::select_source;
use websocket_core::dispatch::AckResolution;
use websocket_core::dispatch::DispatchEvent;
use websocket_core::dispatch::InboundEvent;
use websocket_core::dispatch::OutboundItem;
use websocket_core::dispatch::SendOutcome;
use websocket_core::dispatch::Source;
use websocket_core::error::Error;
use websocket_core::message::Frame;
use websocket_core::message::Message;

fn outbound(msg: Message, ack: Option<u64>, sink: SendOutcome) -> DispatchEvent {
    DispatchEvent::Outbound { item: OutboundItem { msg, ack }, sink }
}

#[test]
fn biased_select_prefers_outbound_over_inbound() {
    assert_eq!(select_source(true, true, true), Some(Source::Outbound));
    assert_eq!(select_source(true, true, false), Some(Source::Outbound));
    assert_eq!(select_source(true, false, true), Some(Source::Outbound));
}

#[test]
fn biased_select_prefers_inbound_over_shutdown() {
    assert_eq!(select_source(false, true, true), Some(Source::Inbound));
    assert_eq!(select_source(false, false, true), Some(Source::Shutdown));
    assert_eq!(select_source(false, false, false), None);
}

#[test]
fn outbound_with_ack_resolves_with_sink_outcome() {
    let ev = outbound(Message::Text(String::from("x")), Some(7), SendOutcome::Sent);
    let out = dispatcher_step(&ev);
    assert_eq!(out.sent, vec![Frame::Text(String::from("x"))]);
    assert_eq!(out.acks, vec![AckResolution { id: 7, outcome: SendOutcome::Sent }]);
    assert!(out.emitted.is_empty());
    assert!(!out.exit);
}

#[test]
fn outbound_failed_send_reports_error_to_ack_and_continues() {
    let ev = outbound(
        Message::Binary(vec![1u8]),
        Some(9),
        SendOutcome::Failed(Error::Transport),
    );
    let out = dispatcher_step(&ev);
    assert_eq!(
        out.acks,
        vec![AckResolution { id: 9, outcome: SendOutcome::Failed(Error::Transport) }]
    );
    assert!(!out.exit);
}

#[test]
fn outbound_without_ack_is_best_effort() {
    let ev = outbound(
        Message::Text(String::from("y")),
        None,
        SendOutcome::Failed(Error::Transport),
    );
    let out = dispatcher_step(&ev);
    assert_eq!(out.sent, vec![Frame::Text(String::from("y"))]);
    assert!(out.acks.is_empty());
    assert!(!out.exit);
}

#[test]
fn inbound_text_surfaces() {
    let ev = DispatchEvent::Inbound(InboundEvent::Frame(Frame::Text(String::from("in"))));
    let out = dispatcher_step(&ev);
    assert_eq!(out.emitted, vec![Message::Text(String::from("in"))]);
    assert!(out.sent.is_empty());
    assert!(!out.exit);
}

#[test]
fn inbound_peer_close_emits_close_and_exits() {
    let ev = DispatchEvent::Inbound(InboundEvent::Frame(Frame::Close));
    let out = dispatcher_step(&ev);
    assert_eq!(out.emitted, vec![Message::Close]);
    assert!(out.exit);
    assert!(!out.shutdown_ack);
}

#[test]
fn inbound_ping_yields_one_pong_and_nothing_else() {
    let ev = DispatchEvent::Inbound(InboundEvent::Frame(Frame::Ping(vec![1u8, 2, 3])));
    let out = dispatcher_step(&ev);
    assert_eq!(out.sent, vec![Frame::Pong(vec![1u8, 2, 3])]);
    assert!(out.emitted.is_empty());
    assert!(out.acks.is_empty());
    assert!(!out.exit);
}

#[test]
fn inbound_pong_and_intermediate_frames_are_dropped() {
    for frame in [Frame::Pong(vec![1u8]), Frame::Other] {
        let out = dispatcher_step(&DispatchEvent::Inbound(InboundEvent::Frame(frame)));
        assert!(out.sent.is_empty());
        assert!(out.emitted.is_empty());
        assert!(!out.exit);
    }
}

#[test]
fn transport_failure_emits_close_and_exits() {
    let out = dispatcher_step(&DispatchEvent::Inbound(InboundEvent::Failed(Error::Transport)));
    assert_eq!(out.emitted, vec![Message::Close]);
    assert!(out.exit);
}

#[test]
fn end_of_stream_emits_close_and_exits() {
    let out = dispatcher_step(&DispatchEvent::Inbound(InboundEvent::Eos));
    assert_eq!(out.emitted, vec![Message::Close]);
    assert!(out.exit);
}

#[test]
fn shutdown_emits_close_acknowledges_and_exits() {
    let out = dispatcher_step(&DispatchEvent::Shutdown);
    assert_eq!(out.emitted, vec![Message::Close]);
    assert!(out.shutdown_ack);
    assert!(out.exit);
}

#[test]
fn run_stops_at_first_exit_event() {
    let events = vec![
        outbound(Message::Text(String::from("a")), Some(1), SendOutcome::Sent),
        DispatchEvent::Inbound(InboundEvent::Eos),
        outbound(Message::Text(String::from("never")), Some(2), SendOutcome::Sent),
    ];
    let run = run_dispatcher(&events);
    assert_eq!(run.consumed, 2);
    assert!(run.exited);
    assert_eq!(run.sent, vec![Frame::Text(String::from("a"))]);
    assert_eq!(run.acks, vec![AckResolution { id: 1, outcome: SendOutcome::Sent }]);
    assert_eq!(run.emitted, vec![Message::Close]);
}

#[test]
fn drain_resolves_every_queued_ack_with_shutdown_error() {
    let pending = vec![
        OutboundItem { msg: Message::Text(String::from("p")), ack: Some(4) },
        OutboundItem { msg: Message::Binary(vec![1u8]), ack: None },
        OutboundItem { msg: Message::Text(String::from("q")), ack: Some(5) },
    ];
    let drained = drain_pending(&pending);
    assert_eq!(
        drained,
        vec![
            AckResolution { id: 4, outcome: SendOutcome::Failed(Error::Shutdown) },
            AckResolution { id: 5, outcome: SendOutcome::Failed(Error::Shutdown) },
        ]
    );
}

// Round trip: a session sends text with an ack, receives the echo, and is
// then disconnected; the ack resolves once, the receiver sees Open, the
// echo, and one final Close.
#[test]
fn session_round_trip() {
    let events = vec![
        outbound(Message::Text(String::from("hello")), Some(1), SendOutcome::Sent),
        DispatchEvent::Inbound(InboundEvent::Frame(Frame::Text(String::from("hello")))),
        DispatchEvent::Shutdown,
    ];
    let session = run_session(&events, &Vec::new());
    assert_eq!(session.sent, vec![Frame::Text(String::from("hello"))]);
    assert_eq!(
        session.emitted,
        vec![
            Message::Open,
            Message::Text(String::from("hello")),
            Message::Close,
        ]
    );
    assert_eq!(session.acks, vec![AckResolution { id: 1, outcome: SendOutcome::Sent }]);
    assert!(session.shutdown_acked);
    assert!(session.exited);
}

// A ping from the peer is answered on the wire and the application
// observes nothing beyond the session bracket.
#[test]
fn session_ping_pong_is_invisible_to_application() {
    let events = vec![
        DispatchEvent::Inbound(InboundEvent::Frame(Frame::Ping(vec![1u8, 2, 3]))),
        DispatchEvent::Shutdown,
    ];
    let session = run_session(&events, &Vec::new());
    assert_eq!(session.sent, vec![Frame::Pong(vec![1u8, 2, 3])]);
    assert_eq!(session.emitted, vec![Message::Open, Message::Close]);
}

// Shutdown drain: ten ack-bearing sends are still queued when disconnect
// shuts the session down; every one of the ten acks resolves exactly once
// with the shutdown error kind.
#[test]
fn session_shutdown_drains_all_ten_acks() {
    let mut residual = Vec::new();
    for id in 0u64..10 {
        residual.push(OutboundItem { msg: Message::Text(format!("m{id}")), ack: Some(id) });
    }
    let events = vec![DispatchEvent::Shutdown];
    let session = run_session(&events, &residual);
    assert_eq!(session.acks.len(), 10);
    for id in 0u64..10 {
        let hits: Vec<&AckResolution> =
            session.acks.iter().filter(|r| r.id == id).collect();
        assert_eq!(hits.len(), 1);
        assert_eq!(hits[0].outcome, SendOutcome::Failed(Error::Shutdown));
    }
    assert!(session.shutdown_acked);
}

// Open/Close pairing: however a session ends, the receiver channel carries
// exactly one Open followed in order by exactly one Close.
#[test]
fn session_open_close_paired_on_each_ending() {
    let endings = vec![
        DispatchEvent::Inbound(InboundEvent::Frame(Frame::Close)),
        DispatchEvent::Inbound(InboundEvent::Failed(Error::Transport)),
        DispatchEvent::Inbound(InboundEvent::Eos),
        DispatchEvent::Shutdown,
    ];
    for ending in endings {
        let events = vec![
            DispatchEvent::Inbound(InboundEvent::Frame(Frame::Text(String::from("t")))),
            ending,
        ];
        let session = run_session(&events, &Vec::new());
        let opens = session.emitted.iter().filter(|m| **m == Message::Open).count();
        let closes = session.emitted.iter().filter(|m| **m == Message::Close).count();
        assert_eq!(opens, 1);
        assert_eq!(closes, 1);
        assert_eq!(session.emitted.first(), Some(&Message::Open));
        assert_eq!(session.emitted.last(), Some(&Message::Close));
    }
}

// An unfinished session has emitted its Open and no Close yet.
#[test]
fn session_without_ending_has_open_and_no_close() {
    let events = vec![
        DispatchEvent::Inbound(InboundEvent::Frame(Frame::Text(String::from("t")))),
    ];
    let session = run_session(&events, &Vec::new());
    assert!(!session.exited);
    assert_eq!(session.emitted, vec![Message::Open, Message::Text(String::from("t"))]);
}
