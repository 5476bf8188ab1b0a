//! The client interface: the shared state the public API and the reconnect
//! supervisor operate on.
//!
//! The runtime holds this record next to its channels and its transport
//! handle; every decision the public API makes on the shared flags and the
//! settings is a verified method here. The suspension points themselves
//! (awaiting the shutdown duplex, awaiting the first-connect listener) stay
//! with the runtime.

use vstd::prelude::*;

use crate::error::Error;
use crate::message::clone_string;
use crate::options::{ConnectOptions, Options};
use crate::supervisor::SupervisorTask;

verus! {

/// The URL an optional string holds, as a mathematical value.
pub open spec fn opt_url_view(url: Option<String>) -> Option<Seq<char>> {
    match url {
        Some(u) => Some(u@),
        None => None,
    }
}

/// Per-instance state of the client.
///
/// `url` is the mutable settings record: `connect` may redirect subsequent
/// attempts by replacing it. `reconnect` and `is_open` are the two flags the
/// runtime keeps in atomics; the supervisor is the only writer of `is_open`.
/// `inner_active` models the browser adapter's inner slot: whether a host
/// handle with its callback registry is currently installed.
pub struct WebSocketInterface {
    /// The URL the next attempt dials, if any.
    pub url: Option<String>,
    /// Whether the supervisor loops after a session ends.
    pub reconnect: bool,
    /// Whether a dispatcher is currently running between post-handshake and
    /// loop exit.
    pub is_open: bool,
    /// Whether an application-layer handshake hook is installed.
    pub handshake: bool,
    /// Whether the browser adapter's inner slot is occupied.
    pub inner_active: bool,
}

impl WebSocketInterface {
    /// Builds the interface: no session is open, reconnection is enabled,
    /// and the handshake hook is taken from the options.
    pub fn new(url: Option<&str>, options: &Options) -> (r: Result<WebSocketInterface, Error>)
        ensures
            match r {
                Ok(iface) => {
                    &&& opt_url_view(iface.url) == match url {
                        Some(u) => Some(u@),
                        None => None::<Seq<char>>,
                    }
                    &&& iface.reconnect
                    &&& !iface.is_open
                    &&& iface.handshake == options.handshake
                    &&& !iface.inner_active
                },
                Err(_) => false,
            },
    {
        let owned_url = match url {
            Some(u) => Some(u.to_owned()),
            None => None,
        };
        Ok(
            WebSocketInterface {
                url: owned_url,
                reconnect: true,
                is_open: false,
                handshake: options.handshake,
                inner_active: false,
            },
        )
    }

    /// The currently configured URL.
    pub fn url(&self) -> (r: Option<String>)
        ensures
            r == self.url,
    {
        match &self.url {
            Some(u) => Some(clone_string(u)),
            None => None,
        }
    }

    /// Replaces the configured URL; only attempts that begin afterwards use
    /// the new value.
    pub fn set_url(&mut self, url: &str)
        ensures
            opt_url_view(final (self).url) == Some(url@),
            final (self).reconnect == old(self).reconnect,
            final (self).is_open == old(self).is_open,
            final (self).handshake == old(self).handshake,
            final (self).inner_active == old(self).inner_active,
    {
        self.url = Some(url.to_owned());
    }

    /// Whether a dispatcher is currently running.
    pub fn is_open(&self) -> (r: bool)
        ensures
            r == self.is_open,
    {
        self.is_open
    }

    /// Validates a connect request and arms the supervisor.
    ///
    /// Fails with `AlreadyConnected` while a session is open, leaving the
    /// state untouched. Otherwise it re-enables reconnection, applies the
    /// options' URL override, and fails with `MissingUrl` when no URL is
    /// configured after that; on success it hands back the armed supervisor
    /// task the runtime spawns.
    pub fn connect(&mut self, options: &ConnectOptions) -> (r: Result<SupervisorTask, Error>)
        ensures
            old(self).is_open ==> r == Err::<SupervisorTask, Error>(Error::AlreadyConnected)
                && *final (self) == *old(self),
            !old(self).is_open ==> {
                &&& final (self).reconnect
                &&& final (self).is_open == old(self).is_open
                &&& final (self).handshake == old(self).handshake
                &&& final (self).inner_active == old(self).inner_active
                &&& opt_url_view(final (self).url) == match options.url {
                    Some(u) => Some(u@),
                    None => opt_url_view(old(self).url),
                }
                &&& match r {
                    Ok(task) => final (self).url is Some && task == (SupervisorTask {
                        strategy: options.strategy,
                        block_async_connect: options.block_async_connect,
                        trigger_armed: true,
                    }),
                    Err(e) => e == Error::MissingUrl && final (self).url is None,
                }
            },
    {
        if self.is_open {
            return Err(Error::AlreadyConnected);
        }
        self.reconnect = true;
        match &options.url {
            Some(u) => {
                self.url = Some(clone_string(u));
            },
            None => {},
        }
        if self.url.is_none() {
            return Err(Error::MissingUrl);
        }
        Ok(
            SupervisorTask {
                strategy: options.strategy,
                block_async_connect: options.block_async_connect,
                trigger_armed: true,
            },
        )
    }

    /// Graceful session close, reconnect policy unchanged: says whether the
    /// runtime must signal the shutdown duplex and await its response —
    /// exactly when a session is open.
    pub fn close(&self) -> (signal: bool)
        ensures
            signal == self.is_open,
    {
        self.is_open
    }

    /// Disables reconnection, then closes: says whether the runtime must
    /// signal the shutdown duplex, exactly when a session is open.
    pub fn disconnect(&mut self) -> (signal: bool)
        ensures
            final (self).reconnect == false,
            final (self).url == old(self).url,
            final (self).is_open == old(self).is_open,
            final (self).handshake == old(self).handshake,
            final (self).inner_active == old(self).inner_active,
            signal == old(self).is_open,
    {
        self.reconnect = false;
        self.is_open
    }

    /// Occupies the browser adapter's inner slot at the start of a browser
    /// connect: fails with `AlreadyInitialized` when the slot is already
    /// occupied, otherwise re-enables reconnection and occupies it.
    pub fn init_inner(&mut self) -> (r: Result<(), Error>)
        ensures
            old(self).inner_active ==> r == Err::<(), Error>(Error::AlreadyInitialized) && *final (
            self) == *old(self),
            !old(self).inner_active ==> {
                &&& r == Ok::<(), Error>(())
                &&& final (self).inner_active
                &&& final (self).reconnect
                &&& final (self).url == old(self).url
                &&& final (self).is_open == old(self).is_open
                &&& final (self).handshake == old(self).handshake
            },
    {
        if self.inner_active {
            return Err(Error::AlreadyInitialized);
        }
        self.reconnect = true;
        self.inner_active = true;
        Ok(())
    }

    /// Empties the browser adapter's inner slot — the close and cleanup
    /// paths drop the handle and its callback registry — and says whether it
    /// was occupied.
    pub fn clear_inner(&mut self) -> (had: bool)
        ensures
            final (self).inner_active == false,
            final (self).url == old(self).url,
            final (self).reconnect == old(self).reconnect,
            final (self).is_open == old(self).is_open,
            final (self).handshake == old(self).handshake,
            had == old(self).inner_active,
    {
        let had = self.inner_active;
        self.inner_active = false;
        had
    }

    /// Whether the browser adapter's reconnect helper runs another connect
    /// after its dispatcher ends.
    pub fn should_reconnect(&self) -> (r: bool)
        ensures
            r == self.reconnect,
    {
        self.reconnect
    }
}

} // verus!
