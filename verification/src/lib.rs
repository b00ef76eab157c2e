//! A safe control-plane layer for TLS sessions driven by an external TLS
//! engine.
//!
//! The crate models the full lifecycle of a TLS session: configuration
//! accumulation through fail-fast builders, client and server context
//! creation, the non-blocking handshake/read/write/close protocol with its
//! retry sentinel, and certificate introspection. The engine itself (the
//! component that speaks the wire protocol) is a collaborator: every
//! operation that consults it takes the engine's return value as an
//! argument, and this crate decides, with verified contracts, what that
//! return value means in the current session state and which state comes
//! next.

use vstd::prelude::*;

pub mod config;
pub mod ctx;
pub mod err;
pub mod laws;
pub mod names;
pub mod net;
pub mod stream;

pub use config::TlsConfig;
pub use ctx::{PeerInfo, Role, SessionState, TlsContext};
pub use err::{ErrorKind, TlsError, TlsResult};
pub use stream::{new_client, new_server, ClientBuilder, ServerBuilder, TlsServer, TlsStream};

verus! {

/// Interprets the outcome of the engine's process-wide initialization
/// call: the engine reports zero on success.
pub fn init_outcome(rv: i32) -> (ok: bool)
    ensures
        ok == (rv == 0),
{
    rv == 0
}

/// Per-platform network-stack setup to run before the engine's own
/// initialization; nothing is needed on this platform.
pub fn other_init() {
}

} // verus!
