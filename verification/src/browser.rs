//! The browser-hosted transport adapter.
//!
//! In a browser the host delivers transport activity through four callbacks
//! (message, error, open, close) that the runtime funnels into one event
//! channel. [`adapter_step`] maps each funneled event onto the transport
//! port the dispatcher and the supervisor already understand: a message
//! event becomes an inbound frame, the close event becomes end of stream,
//! the open event corresponds to a connected attempt, and error events are
//! silent (the close event follows them).

use vstd::prelude::*;

use crate::dispatch::InboundEvent;
use crate::error::Error;
use crate::message::{spec_decode_event, EventData};

verus! {

/// One event funneled out of the host's callbacks.
#[derive(Clone, Debug, PartialEq, Eq)]
pub enum BrowserEvent {
    /// The message callback fired with this payload.
    MessageData(EventData),
    /// The error callback fired.
    ErrorEvent,
    /// The open callback fired: the host socket is connected.
    OpenEvent,
    /// The close callback fired: the host socket is gone.
    CloseEvent,
}

/// What a funneled browser event means to the client core.
#[derive(Clone, Debug, PartialEq, Eq)]
pub enum AdapterStep {
    /// Hand this to the dispatch loop as an inbound transport event.
    Inbound(InboundEvent),
    /// The session is up: the attempt outcome is connected, and the
    /// handshake phase (if any) runs now.
    SessionOpen,
    /// Nothing to do.
    Ignore,
    /// The payload could not be decoded; the error says why.
    DecodeFailed(Error),
}

/// Maps one funneled browser event onto the transport port.
pub fn adapter_step(ev: BrowserEvent) -> (r: AdapterStep)
    ensures
        match ev {
            BrowserEvent::MessageData(data) => match spec_decode_event(data@) {
                Ok(m) => match r {
                    AdapterStep::Inbound(InboundEvent::Frame(f)) => f@ == m.wire_frame(),
                    _ => false,
                },
                Err(e) => r == AdapterStep::DecodeFailed(e),
            },
            BrowserEvent::ErrorEvent => r == AdapterStep::Ignore,
            BrowserEvent::OpenEvent => r == AdapterStep::SessionOpen,
            BrowserEvent::CloseEvent => r == AdapterStep::Inbound(InboundEvent::Eos),
        },
{
    match ev {
        BrowserEvent::MessageData(data) => {
            match crate::message::decode_event(data) {
                Ok(message) => {
                    proof {
                        assert(message@ is Text || message@ is Binary);
                    }
                    AdapterStep::Inbound(InboundEvent::Frame(message.into_frame()))
                },
                Err(e) => AdapterStep::DecodeFailed(e),
            }
        },
        BrowserEvent::ErrorEvent => AdapterStep::Ignore,
        BrowserEvent::OpenEvent => AdapterStep::SessionOpen,
        BrowserEvent::CloseEvent => AdapterStep::Inbound(InboundEvent::Eos),
    }
}

} // verus!
