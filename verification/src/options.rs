//! Configuration records: construction options, per-connect options, the
//! connect strategy, and the transport configuration.

use vstd::prelude::*;

verus! {

/// Construction-time options of the client: channel capacities and whether
/// an application-layer handshake hook is installed. A capacity of `None`
/// means unbounded.
#[derive(Clone, Debug, PartialEq, Eq)]
pub struct Options {
    /// Capacity of the receiver channel; `None` is unbounded.
    pub receiver_channel_cap: Option<usize>,
    /// Capacity of the sender channel; `None` is unbounded.
    pub sender_channel_cap: Option<usize>,
    /// Whether an application-layer handshake hook is installed. The hook
    /// itself runs in the surrounding runtime; the core only needs to know
    /// whether the handshake phase is active.
    pub handshake: bool,
}

impl Default for Options {
    /// Unbounded channels, no handshake hook.
    fn default() -> (r: Self)
        ensures
            r.receiver_channel_cap is None,
            r.sender_channel_cap is None,
            !r.handshake,
    {
        Options { receiver_channel_cap: None, sender_channel_cap: None, handshake: false }
    }
}

/// How `connect` behaves while the first connection is being established.
#[derive(Clone, Copy, Debug, PartialEq, Eq, Structural)]
pub enum ConnectStrategy {
    /// Continuously attempt to connect to the server, sleeping the retry
    /// interval between attempts.
    Retry,
    /// Give up after the first failed dial.
    Fallback,
}

impl Default for ConnectStrategy {
    /// The default strategy is `Retry`.
    fn default() -> (r: Self)
        ensures
            r == ConnectStrategy::Retry,
    {
        ConnectStrategy::Retry
    }
}

impl ConnectStrategy {
    /// Builds the strategy from a retry flag: `true` is `Retry`, `false` is
    /// `Fallback`.
    pub fn new(retry: bool) -> (r: Self)
        ensures
            r == (if retry {
                ConnectStrategy::Retry
            } else {
                ConnectStrategy::Fallback
            }),
    {
        if retry {
            ConnectStrategy::Retry
        } else {
            ConnectStrategy::Fallback
        }
    }

    /// Whether this strategy is `Fallback`.
    pub fn is_fallback(&self) -> (r: bool)
        ensures
            r == (*self == ConnectStrategy::Fallback),
    {
        match self {
            ConnectStrategy::Fallback => true,
            ConnectStrategy::Retry => false,
        }
    }
}

/// The connect timeout used when `ConnectOptions` does not set one, in
/// milliseconds.
pub const DEFAULT_CONNECT_TIMEOUT_MILLIS: u64 = 5_000;

/// The retry interval used when `ConnectOptions` does not set one, in
/// milliseconds.
pub const DEFAULT_RETRY_INTERVAL_MILLIS: u64 = 1_000;

/// Immutable per-connect options.
#[derive(Clone, Debug, PartialEq, Eq)]
pub struct ConnectOptions {
    /// Whether `connect` blocks until the first attempt succeeds or fails
    /// terminally, or instead returns at once and hands the caller the
    /// pending first-connect listener.
    pub block_async_connect: bool,
    /// The retry or fallback behavior.
    pub strategy: ConnectStrategy,
    /// An optional URL that redirects this and subsequent attempts.
    pub url: Option<String>,
    /// Per-attempt dial deadline in milliseconds; `None` means the default.
    pub connect_timeout_millis: Option<u64>,
    /// Sleep between failed attempts in milliseconds; `None` means the
    /// default.
    pub retry_interval_millis: Option<u64>,
}

impl Default for ConnectOptions {
    /// Blocking connect under `Retry`, no URL override, default timings.
    fn default() -> (r: Self)
        ensures
            r.block_async_connect,
            r.strategy == ConnectStrategy::Retry,
            r.url is None,
            r.connect_timeout_millis is None,
            r.retry_interval_millis is None,
    {
        ConnectOptions {
            block_async_connect: true,
            strategy: ConnectStrategy::Retry,
            url: None,
            connect_timeout_millis: None,
            retry_interval_millis: None,
        }
    }
}

impl ConnectOptions {
    /// Blocking connect that gives up after the first failed dial.
    pub fn fallback() -> (r: Self)
        ensures
            r.block_async_connect,
            r.strategy == ConnectStrategy::Fallback,
            r.url is None,
            r.connect_timeout_millis is None,
            r.retry_interval_millis is None,
    {
        ConnectOptions {
            block_async_connect: true,
            strategy: ConnectStrategy::Fallback,
            url: None,
            connect_timeout_millis: None,
            retry_interval_millis: None,
        }
    }

    /// Blocking connect that keeps retrying; the defaults used by reconnect
    /// helpers.
    pub fn reconnect_defaults() -> (r: Self)
        ensures
            r.block_async_connect,
            r.strategy == ConnectStrategy::Retry,
            r.url is None,
            r.connect_timeout_millis is None,
            r.retry_interval_millis is None,
    {
        ConnectOptions {
            block_async_connect: true,
            strategy: ConnectStrategy::Retry,
            url: None,
            connect_timeout_millis: None,
            retry_interval_millis: None,
        }
    }

    /// The effective per-attempt dial deadline, in milliseconds.
    pub fn connect_timeout(&self) -> (r: u64)
        ensures
            r == match self.connect_timeout_millis {
                Some(ms) => ms,
                None => DEFAULT_CONNECT_TIMEOUT_MILLIS,
            },
    {
        match self.connect_timeout_millis {
            Some(ms) => ms,
            None => DEFAULT_CONNECT_TIMEOUT_MILLIS,
        }
    }

    /// The effective sleep between failed attempts, in milliseconds.
    pub fn retry_interval(&self) -> (r: u64)
        ensures
            r == match self.retry_interval_millis {
                Some(ms) => ms,
                None => DEFAULT_RETRY_INTERVAL_MILLIS,
            },
    {
        match self.retry_interval_millis {
            Some(ms) => ms,
            None => DEFAULT_RETRY_INTERVAL_MILLIS,
        }
    }
}

/// The shapes a loosely-typed host value can take when the browser hands the
/// client its connect options: an object with the recognized keys, a bare
/// boolean, or anything else.
#[derive(Clone, Debug, PartialEq, Eq)]
pub enum HostValue {
    /// An object; each recognized key is present or absent.
    Object {
        /// The `url` key, a string if present.
        url: Option<String>,
        /// The `block` key, a boolean if present.
        block: Option<bool>,
        /// The `retry` key, a boolean if present.
        retry: Option<bool>,
    },
    /// A bare boolean, interpreted as the retry flag.
    Bool(bool),
    /// Any other shape.
    Other,
}

impl ConnectOptions {
    /// Builds connect options from a loosely-typed host value. An object
    /// yields its `url`, `block` (default `true`) and `retry` (default
    /// `true`, choosing `Retry` over `Fallback`) keys; a bare boolean is the
    /// retry flag; any other shape yields the defaults.
    pub fn from_host_value(args: HostValue) -> (r: ConnectOptions)
        ensures
            r.connect_timeout_millis is None,
            r.retry_interval_millis is None,
            match args {
                HostValue::Object { url, block, retry } => {
                    &&& r.url == url
                    &&& r.block_async_connect == (block matches Some(b) ==> b)
                    &&& r.strategy == (if (retry matches Some(b) ==> b) {
                        ConnectStrategy::Retry
                    } else {
                        ConnectStrategy::Fallback
                    })
                },
                HostValue::Bool(retry) => {
                    &&& r.url is None
                    &&& r.block_async_connect
                    &&& r.strategy == (if retry {
                        ConnectStrategy::Retry
                    } else {
                        ConnectStrategy::Fallback
                    })
                },
                HostValue::Other => {
                    &&& r.url is None
                    &&& r.block_async_connect
                    &&& r.strategy == ConnectStrategy::Retry
                },
            },
    {
        match args {
            HostValue::Object { url, block, retry } => {
                let block_async_connect = match block {
                    Some(b) => b,
                    None => true,
                };
                let strategy = ConnectStrategy::new(match retry {
                    Some(b) => b,
                    None => true,
                });
                ConnectOptions {
                    block_async_connect,
                    strategy,
                    url,
                    connect_timeout_millis: None,
                    retry_interval_millis: None,
                }
            },
            HostValue::Bool(retry) => ConnectOptions {
                block_async_connect: true,
                strategy: ConnectStrategy::new(retry),
                url: None,
                connect_timeout_millis: None,
                retry_interval_millis: None,
            },
            HostValue::Other => ConnectOptions::default(),
        }
    }
}

/// Transport-level configuration, copied field for field into the transport
/// library's own configuration record at the I/O edge.
#[derive(Clone, Copy, Debug, PartialEq, Eq)]
pub struct WebSocketConfig {
    /// The target size of the write buffer, in bytes.
    pub write_buffer_size: usize,
    /// The hard ceiling of the write buffer, in bytes.
    pub max_write_buffer_size: usize,
    /// The largest accepted message, in bytes; `None` is unlimited.
    pub max_message_size: Option<usize>,
    /// The largest accepted frame, in bytes; `None` is unlimited.
    pub max_frame_size: Option<usize>,
    /// Whether unmasked frames from the peer are accepted.
    pub accept_unmasked_frames: bool,
}

} // verus!
