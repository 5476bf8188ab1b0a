//! The application-layer handshake phase.
//!
//! When a handshake hook is installed, it runs exactly once per session:
//! after the transport opens and before the synthetic `Open` is published.
//! While it runs, the dispatcher's multiplexing is not active; the runtime
//! routes all flow through the hook's own channel pair with a dedicated
//! select loop, fusing three sources with strict priority (high to low):
//! the hook's completion result, the hook-side outbound channel, and the
//! transport-side inbound source. Each item it yields is handed to
//! [`handshake_step`], whose outputs say what to forward where and when the
//! phase is finished.

use vstd::prelude::*;

use crate::error::Error;
use crate::message::{Frame, Message};

verus! {

/// The three sources of the handshake phase, in their biased priority order.
#[derive(Clone, Copy, Debug, PartialEq, Eq, Structural)]
pub enum HandshakeSource {
    /// The hook's completion one-shot.
    Completion,
    /// The hook-side outbound channel.
    HookOutbound,
    /// The transport-side inbound source.
    TransportInbound,
}

/// The source a strictly biased handshake select services, given which
/// sources are ready: completion first, then hook outbound, then transport
/// inbound.
pub open spec fn handshake_choice(
    completion_ready: bool,
    outbound_ready: bool,
    inbound_ready: bool,
) -> Option<HandshakeSource> {
    if completion_ready {
        Some(HandshakeSource::Completion)
    } else if outbound_ready {
        Some(HandshakeSource::HookOutbound)
    } else if inbound_ready {
        Some(HandshakeSource::TransportInbound)
    } else {
        None
    }
}

/// Picks the handshake source to service, with the negotiation phase's strict bias.
pub fn select_handshake_source(
    completion_ready: bool,
    outbound_ready: bool,
    inbound_ready: bool,
) -> (r: Option<HandshakeSource>)
    ensures
        r == handshake_choice(completion_ready, outbound_ready, inbound_ready),
{
    if completion_ready {
        Some(HandshakeSource::Completion)
    } else if outbound_ready {
        Some(HandshakeSource::HookOutbound)
    } else if inbound_ready {
        Some(HandshakeSource::TransportInbound)
    } else {
        None
    }
}

/// How the hook's completion one-shot resolved.
#[derive(Clone, Copy, Debug, PartialEq, Eq, Structural)]
pub enum HookCompletion {
    /// The hook accepted the session.
    Accepted,
    /// The hook rejected the session with this error.
    Rejected(Error),
    /// The completion channel failed before a result arrived.
    Lost,
}

/// One item the negotiation phase's biased select yielded.
#[derive(Clone, Debug, PartialEq, Eq)]
pub enum HandshakeEvent {
    /// The hook completed.
    Completed(HookCompletion),
    /// The hook pushed this message toward the transport.
    HookOutbound(Message),
    /// The hook-side outbound channel failed; nothing to forward.
    HookOutboundLost,
    /// A frame arrived from the transport.
    TransportInbound(Frame),
    /// The transport failed or ended while the negotiation phase was open.
    TransportFailed,
}

impl HandshakeEvent {
    /// An event is well formed when a hook-outbound message has a wire
    /// representation; the hook pushing a synthetic `Open` or `Close` is a
    /// programmer error the runtime rejects at the channel.
    pub open spec fn wf(self) -> bool {
        match self {
            HandshakeEvent::HookOutbound(m) => m@.is_wire(),
            _ => true,
        }
    }
}

/// Everything one handshake step asks the runtime to do.
pub struct HandshakeStep {
    /// Push this frame into the transport sink.
    pub forward_to_transport: Option<Frame>,
    /// Hand this message to the hook's inbound channel.
    pub forward_to_hook: Option<Message>,
    /// The phase is finished: `Ok` proceeds to publishing `Open`, an error
    /// aborts the session and counts as a failed attempt.
    pub finished: Option<Result<(), Error>>,
}

/// Processes one handshake phase event.
///
/// The hook's completion ends the negotiation phase with the hook's verdict (a lost
/// completion channel ends it with the channel error kind). A hook-side
/// outbound message is forwarded to the transport as its frame. An inbound
/// text, binary or peer-close frame is forwarded to the hook; ping, pong
/// and intermediate frames are dropped silently. A transport failure ends
/// the negotiation phase with `NegotiationFailure`. Nothing is ever published on the
/// receiver channel while the negotiation phase is open.
pub fn handshake_step(ev: HandshakeEvent) -> (out: HandshakeStep)
    requires
        ev.wf(),
    ensures
        match ev {
            HandshakeEvent::Completed(c) => {
                &&& out.forward_to_transport is None
                &&& out.forward_to_hook is None
                &&& out.finished == Some(
                    match c {
                        HookCompletion::Accepted => Ok::<(), Error>(()),
                        HookCompletion::Rejected(e) => Err(e),
                        HookCompletion::Lost => Err(Error::Channel),
                    },
                )
            },
            HandshakeEvent::HookOutbound(m) => {
                &&& match out.forward_to_transport {
                    Some(f) => f@ == m@.wire_frame(),
                    None => false,
                }
                &&& out.forward_to_hook is None
                &&& out.finished is None
            },
            HandshakeEvent::HookOutboundLost => {
                &&& out.forward_to_transport is None
                &&& out.forward_to_hook is None
                &&& out.finished is None
            },
            HandshakeEvent::TransportInbound(f) => {
                &&& out.forward_to_transport is None
                &&& (if f@.is_surfaced() {
                    match out.forward_to_hook {
                        Some(m) => m@ == f@.surface(),
                        None => false,
                    }
                } else {
                    out.forward_to_hook is None
                })
                &&& out.finished is None
            },
            HandshakeEvent::TransportFailed => {
                &&& out.forward_to_transport is None
                &&& out.forward_to_hook is None
                &&& out.finished == Some(Err::<(), Error>(Error::NegotiationFailure))
            },
        },
{
    match ev {
        HandshakeEvent::Completed(c) => HandshakeStep {
            forward_to_transport: None,
            forward_to_hook: None,
            finished: Some(
                match c {
                    HookCompletion::Accepted => Ok(()),
                    HookCompletion::Rejected(e) => Err(e),
                    HookCompletion::Lost => Err(Error::Channel),
                },
            ),
        },
        HandshakeEvent::HookOutbound(m) => HandshakeStep {
            forward_to_transport: Some(m.into_frame()),
            forward_to_hook: None,
            finished: None,
        },
        HandshakeEvent::HookOutboundLost => HandshakeStep {
            forward_to_transport: None,
            forward_to_hook: None,
            finished: None,
        },
        HandshakeEvent::TransportInbound(f) => {
            let forward = if f.is_surfaced() {
                Some(f.into_message())
            } else {
                None
            };
            HandshakeStep { forward_to_transport: None, forward_to_hook: forward, finished: None }
        },
        HandshakeEvent::TransportFailed => HandshakeStep {
            forward_to_transport: None,
            forward_to_hook: None,
            finished: Some(Err(Error::NegotiationFailure)),
        },
    }
}

} // verus!
