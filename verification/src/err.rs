//! The error taxonomy of the library, and the verified mapping from the
//! engine's raw return values onto it.
//!
//! The engine reports every operation's outcome as a signed integer: a
//! non-negative value is success (for reads and writes, the byte count),
//! `WANT_POLLIN` and `WANT_POLLOUT` are the retry sentinels ("repeat the
//! identical call once the transport is ready"), and any other negative
//! value is a fatal failure accompanied by a diagnostic message.

use vstd::prelude::*;

verus! {

/// The engine's "would block reading" sentinel return value.
pub const WANT_POLLIN: i64 = -2;

/// The engine's "would block writing" sentinel return value.
pub const WANT_POLLOUT: i64 = -3;

/// Classification of a failed TLS operation.
#[derive(Clone, Copy, Debug, PartialEq, Eq, Structural)]
pub enum ErrorKind {
    /// An invalid configuration option, or a required option is missing.
    Configuration,
    /// The connect or accept target was rejected.
    Connect,
    /// The operation would block reading; repeat the identical call once
    /// the transport is readable. Not a failure.
    WouldBlockRead,
    /// The operation would block writing; repeat the identical call once
    /// the transport is writable. Not a failure.
    WouldBlockWrite,
    /// A fatal, engine-reported protocol failure.
    Protocol,
    /// The operation is not valid in the session's current state.
    Usage,
}

/// An error returned by a TLS operation, carrying its classification and
/// the engine's diagnostic message (empty for the retry sentinels).
#[derive(Debug)]
pub struct TlsError {
    pub kind: ErrorKind,
    pub msg: String,
}

/// Result type for TLS operations.
pub type TlsResult<T> = Result<T, TlsError>;

/// True of the two retry-sentinel classifications and of nothing else.
pub open spec fn is_retry_kind(k: ErrorKind) -> bool {
    k == ErrorKind::WouldBlockRead || k == ErrorKind::WouldBlockWrite
}

/// True when `rv` is one of the engine's two retry sentinels.
pub open spec fn is_retry_rv(rv: i64) -> bool {
    rv == WANT_POLLIN || rv == WANT_POLLOUT
}

/// The classification carried by the retry sentinel `rv`.
pub open spec fn retry_kind(rv: i64) -> ErrorKind {
    if rv == WANT_POLLIN {
        ErrorKind::WouldBlockRead
    } else {
        ErrorKind::WouldBlockWrite
    }
}

impl TlsError {
    /// The operation failed because it would block reading.
    pub fn want_pollin(&self) -> (r: bool)
        ensures
            r == (self.kind == ErrorKind::WouldBlockRead),
    {
        self.kind == ErrorKind::WouldBlockRead
    }

    /// The operation failed because it would block writing.
    pub fn want_pollout(&self) -> (r: bool)
        ensures
            r == (self.kind == ErrorKind::WouldBlockWrite),
    {
        self.kind == ErrorKind::WouldBlockWrite
    }

    /// The operation would block in either direction: it is not a failure,
    /// and repeating the identical call once the transport is ready is
    /// expected to make progress.
    pub fn wants_more(&self) -> (r: bool)
        ensures
            r == is_retry_kind(self.kind),
    {
        self.want_pollin() || self.want_pollout()
    }

    /// A generic fatal error carrying the given message.
    pub fn new(msg: &str) -> (e: TlsError)
        ensures
            e.kind == ErrorKind::Protocol,
            e.msg@ == msg@,
    {
        TlsError { kind: ErrorKind::Protocol, msg: msg.to_owned() }
    }

    /// The classification of this error.
    pub fn kind(&self) -> (k: ErrorKind)
        ensures
            k == self.kind,
    {
        self.kind
    }

    /// The engine's diagnostic message for this error.
    pub fn message(&self) -> (m: &str)
        ensures
            m@ == self.msg@,
    {
        self.msg.as_str()
    }
}

} // verus!
