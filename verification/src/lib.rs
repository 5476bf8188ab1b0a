//! Core logic of a reconnecting WebSocket client.
//!
//! The crate verifies the decision logic of the client: the message model
//! and its codec boundaries, the connect options, the biased dispatch loop,
//! the application-layer handshake phase, and the reconnect supervisor.
//! The asynchronous plumbing (sockets, channels, timers) lives outside the
//! library and drives these state machines, handing each outside event to a
//! step function and performing the actions the step function returns.

pub mod browser;
pub mod channel;
pub mod dispatch;
pub mod error;
pub mod handshake;
pub mod interface;
pub mod message;
pub mod method;
pub mod options;
pub mod supervisor;

pub use error::Error;
pub use interface::WebSocketInterface;
pub use message::{Frame, Message};
pub use options::{ConnectOptions, ConnectStrategy, Options, WebSocketConfig};
