//! Error kinds surfaced by the client core.

use vstd::prelude::*;

verus! {

/// The error kinds the client core can surface.
///
/// The first group is detected by the core itself; the last three stand for
/// errors handed through from the surrounding runtime (I/O failures,
/// transport-level failures, and channel failures), whose payloads stay with
/// the caller.
#[derive(Clone, Copy, Debug, PartialEq, Eq, Structural)]
pub enum Error {
    /// `connect` was called while a session is open.
    AlreadyConnected,
    /// The browser adapter's inner slot was initialized twice.
    AlreadyInitialized,
    /// No URL is configured at the moment an attempt needs one.
    MissingUrl,
    /// A dial attempt exceeded its deadline.
    ConnectionTimeout,
    /// The application-layer handshake failed.
    NegotiationFailure,
    /// A browser frame carried text that could not be decoded.
    DataEncoding,
    /// A browser frame carried data of an unsupported shape.
    DataType,
    /// The dispatcher shutdown plumbing failed.
    DispatcherSignal,
    /// The session was shut down before the operation completed.
    Shutdown,
    /// An I/O error handed through from the runtime.
    Io,
    /// A transport error handed through from the transport library.
    Transport,
    /// A channel error handed through from the channel layer.
    Channel,
}

impl Error {
    /// Whether this error is fatal to the session but retryable: under the
    /// `Retry` strategy the supervisor backs off and dials again, under
    /// `Fallback` it ends.
    pub fn is_retryable(&self) -> (r: bool)
        ensures
            r == self.spec_is_retryable(),
    {
        match self {
            Error::ConnectionTimeout => true,
            Error::NegotiationFailure => true,
            Error::Io => true,
            Error::Transport => true,
            _ => false,
        }
    }

    /// The retryable error kinds: dial failure, dial timeout, transport
    /// read/write failure, handshake failure.
    pub open spec fn spec_is_retryable(self) -> bool {
        match self {
            Error::ConnectionTimeout => true,
            Error::NegotiationFailure => true,
            Error::Io => true,
            Error::Transport => true,
            _ => false,
        }
    }
}

} // verus!
