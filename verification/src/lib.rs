//! Debug bridge core: a verified correlation bridge between a controller and
//! an opaque sandboxed execution environment that offers only a one-way
//! "inject code" primitive plus an out-of-band callback channel.
//!
//! The crate provides the bridge's pure core: call-id generation and hex
//! rendering, the correlation registry that matches callbacks to waiters,
//! the injection framer that wraps user code so it reports its outcome
//! exactly once, a broadcast relay that fans console and event streams out
//! to independent subscribers, the accessibility snapshot walker, and the
//! auth gate. Transport plumbing (HTTP routes, WebSockets, the host
//! application runtime) lives outside this crate and hands plain values in.
#![verifier::loop_isolation(false)]

use vstd::prelude::*;

pub mod auth;
pub mod backend;
pub mod bridge;
pub mod connect;
pub mod events;
pub mod framer;
pub mod hex;
pub mod output;
pub mod registry;
pub mod relay;
pub mod snapshot;
pub mod strutil;
pub mod webview;

verus! {

/// Plugin configuration. `port` overrides the default bridge port.
#[derive(Debug)]
pub struct Config {
    /// Port for the bridge server. `None` means the default, 9229.
    pub port: Option<u16>,
}

/// The default port the bridge server listens on.
pub const DEFAULT_PORT: u16 = 9229;

impl Config {
    /// The port this configuration selects.
    pub fn effective_port(&self) -> (p: u16)
        ensures
            p == match self.port {
                Some(q) => q,
                None => DEFAULT_PORT,
            },
    {
        match self.port {
            Some(q) => q,
            None => DEFAULT_PORT,
        }
    }
}

impl Default for Config {
    /// The default configuration selects the default port.
    fn default() -> (c: Config)
        ensures
            c.port is None,
    {
        Config { port: None }
    }
}

/// Outcome of one bridged call, as reported by the sandbox: on success the
/// evaluated value (its JSON text), on failure the stringified error.
#[derive(Debug, Clone)]
pub struct EvalResult {
    /// Whether the injected code ran to completion without throwing.
    pub success: bool,
    /// JSON text of the produced value; meaningful only when `success`.
    pub value: Option<String>,
    /// Stringified failure; meaningful only when `!success`.
    pub error: Option<String>,
}

impl EvalResult {
    /// Exactly one of `value` / `error` is meaningful, decided by `success`.
    pub open spec fn consistent(self) -> bool {
        &&& self.success ==> self.error is None
        &&& !self.success ==> self.value is None
    }

    /// A successful outcome carrying the value's JSON text.
    pub fn ok(value: Option<String>) -> (r: EvalResult)
        ensures
            r.success,
            r.value == value,
            r.error is None,
            r.consistent(),
    {
        EvalResult { success: true, value, error: None }
    }

    /// A sandbox-reported failure carrying the stringified error.
    pub fn failed(error: String) -> (r: EvalResult)
        ensures
            !r.success,
            r.value is None,
            r.error == Some(error),
            r.consistent(),
    {
        EvalResult { success: false, value: None, error: Some(error) }
    }
}

/// Errors of the bridge itself. A failure of the injected code is not among
/// them: it travels as a normal `EvalResult` with `success == false`.
#[derive(Debug, Clone)]
pub enum BridgeError {
    /// The injection target window does not exist.
    WindowNotFound(String),
    /// The one-way injection primitive itself rejected the call.
    InjectionFailed(String),
    /// An internal invariant failed (collision of call ids, malformed
    /// sandbox reply).
    Internal(String),
    /// No callback arrived within the deadline; the registration was evicted.
    Timeout(String),
    /// The request did not carry the expected auth token.
    Unauthorized,
    /// A caller-supplied structured payload failed to parse.
    MalformedInput(String),
    /// The operation is not available on this host.
    NotImplemented(String),
}

impl BridgeError {
    /// The stable HTTP-style status category of this error.
    pub fn status_code(&self) -> (c: u16)
        ensures
            c == match self {
                BridgeError::WindowNotFound(_) => 404u16,
                BridgeError::InjectionFailed(_) => 500u16,
                BridgeError::Internal(_) => 500u16,
                BridgeError::Timeout(_) => 504u16,
                BridgeError::Unauthorized => 401u16,
                BridgeError::MalformedInput(_) => 400u16,
                BridgeError::NotImplemented(_) => 501u16,
            },
    {
        match self {
            BridgeError::WindowNotFound(_) => 404,
            BridgeError::InjectionFailed(_) => 500,
            BridgeError::Internal(_) => 500,
            BridgeError::Timeout(_) => 504,
            BridgeError::Unauthorized => 401,
            BridgeError::MalformedInput(_) => 400,
            BridgeError::NotImplemented(_) => 501,
        }
    }

    /// The human-readable detail string of this error.
    pub fn detail(&self) -> (d: String)
        ensures
            d@ == match self {
                BridgeError::WindowNotFound(s) => s@,
                BridgeError::InjectionFailed(s) => s@,
                BridgeError::Internal(s) => s@,
                BridgeError::Timeout(s) => s@,
                BridgeError::Unauthorized => "unauthorized"@,
                BridgeError::MalformedInput(s) => s@,
                BridgeError::NotImplemented(s) => s@,
            },
    {
        match self {
            BridgeError::WindowNotFound(s) => s.clone(),
            BridgeError::InjectionFailed(s) => s.clone(),
            BridgeError::Internal(s) => s.clone(),
            BridgeError::Timeout(s) => s.clone(),
            BridgeError::Unauthorized => String::from_str("unauthorized"),
            BridgeError::MalformedInput(s) => s.clone(),
            BridgeError::NotImplemented(s) => s.clone(),
        }
    }
}

} // verus!
