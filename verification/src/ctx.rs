//! The session context: one native engine handle, its lifecycle state,
//! and the verified decisions around every engine operation.
//!
//! The engine performs the wire protocol; this module decides what each of
//! its return values means. Every method that consults the engine takes
//! the engine's return value `rv` (and, for fatal failures, the engine's
//! diagnostic message) as arguments, checks that the operation is valid in
//! the current lifecycle state, and moves the session to its next state.
//! The meaning of each operation is written down as a postcondition
//! predicate (`handshake_post` and friends) that relates the state before
//! the call, the engine's answer, the state after the call and the
//! returned result; the library's laws are proved over those predicates.

use vstd::prelude::*;
use vstd::string::*;

use crate::config::TlsConfig;
use crate::err::{
    is_retry_rv, retry_kind, ErrorKind, TlsError, TlsResult, WANT_POLLIN, WANT_POLLOUT,
};
use crate::names::{contains_matching_name, some_name_matches};

verus! {

/// Whether a context was created to connect or to accept.
#[derive(Clone, Copy, Debug, PartialEq, Eq, Structural)]
pub enum Role {
    Client,
    Server,
}

/// The lifecycle state of a session context.
#[derive(Clone, Copy, Debug, PartialEq, Eq, Structural)]
pub enum SessionState {
    /// Freshly created; no configuration applied yet.
    Created,
    /// A configuration was applied; ready to connect or accept.
    Configured,
    /// A client context bound to a connection target or transport.
    Connecting,
    /// A server-origin context produced for an accepted transport.
    Accepting,
    /// A handshake was started and must be repeated to complete.
    Handshaking,
    /// The handshake completed; application data may flow.
    Established,
    /// A close was started and must be repeated to complete.
    Closing,
    /// The session was closed.
    Closed,
}

/// What the engine reports about the peer once the handshake is complete:
/// the negotiated version and cipher, the peer certificate's issuer,
/// subject and hash, whether a certificate was presented at all, its
/// validity window as epoch seconds (`-1` when unavailable), and the names
/// it carries.
#[derive(Debug)]
pub struct PeerInfo {
    pub version: String,
    pub cipher: String,
    pub issuer: String,
    pub subject: String,
    pub hash: String,
    pub provided: bool,
    pub notbefore: i64,
    pub notafter: i64,
    pub alt_names: Vec<String>,
}

impl PeerInfo {
    /// Connection facts for a peer about which nothing is known.
    pub fn empty() -> (r: PeerInfo)
        ensures
            r.version@ == Seq::<char>::empty(),
            r.cipher@ == Seq::<char>::empty(),
            r.issuer@ == Seq::<char>::empty(),
            r.subject@ == Seq::<char>::empty(),
            r.hash@ == Seq::<char>::empty(),
            !r.provided,
            r.notbefore == -1,
            r.notafter == -1,
            r.alt_names@.len() == 0,
    {
        PeerInfo {
            version: String::new(),
            cipher: String::new(),
            issuer: String::new(),
            subject: String::new(),
            hash: String::new(),
            provided: false,
            notbefore: -1,
            notafter: -1,
            alt_names: Vec::new(),
        }
    }
}

/// States from which a configuration may be applied, and from which a
/// connect or accept may start.
pub open spec fn configure_allowed(s: SessionState) -> bool {
    s == SessionState::Created || s == SessionState::Configured
}

/// States in which an explicit handshake call consults the engine.
pub open spec fn handshake_allowed(s: SessionState) -> bool {
    s == SessionState::Connecting || s == SessionState::Accepting || s
        == SessionState::Handshaking
}

/// States in which a read or write consults the engine (completing the
/// handshake implicitly if it has not finished).
pub open spec fn io_allowed(s: SessionState) -> bool {
    handshake_allowed(s) || s == SessionState::Established
}

/// States in which a close consults the engine. A close before any
/// handshake, or after a completed close, is a usage error.
pub open spec fn close_allowed(s: SessionState) -> bool {
    s == SessionState::Handshaking || s == SessionState::Established || s
        == SessionState::Closing
}

/// An error that reports an operation invalid in the current state.
pub open spec fn is_usage_err<T>(r: Result<T, TlsError>) -> bool {
    r is Err && r->Err_0.kind == ErrorKind::Usage
}

/// The last position of `:` strictly below `i` in `s`, or `-1`.
pub open spec fn last_colon_from(s: Seq<char>, i: int) -> int
    decreases i,
{
    if i <= 0 {
        -1
    } else if s[i - 1] == ':' {
        i - 1
    } else {
        last_colon_from(s, i - 1)
    }
}

/// The last position of `:` in `s`, or `-1` when `s` has none.
pub open spec fn last_colon(s: Seq<char>) -> int {
    last_colon_from(s, s.len() as int)
}

pub proof fn lemma_last_colon_from(s: Seq<char>, i: int)
    requires
        0 <= i <= s.len(),
    ensures
        ({
            let k = last_colon_from(s, i);
            &&& -1 <= k < i
            &&& k >= 0 ==> s[k] == ':'
            &&& forall|j: int| k < j < i ==> s[j] != ':'
        }),
    decreases i,
{
    if i > 0 && s[i - 1] != ':' {
        lemma_last_colon_from(s, i - 1);
    }
}

/// The connection target denoted by a host and port pair: an explicit
/// port is taken as given, while with an empty port the host is read as
/// `host:port`, split at its last colon. `None` when no port can be
/// found.
pub open spec fn split_hostport(host: Seq<char>, port: Seq<char>) -> Option<(Seq<char>, Seq<char>)> {
    if port.len() > 0 {
        Some((host, port))
    } else {
        let k = last_colon(host);
        if k >= 0 {
            Some((host.take(k), host.skip(k + 1)))
        } else {
            None
        }
    }
}

/// Splits a connection target into host and port: an explicit port is
/// taken as given; with an empty port the host is read as `host:port` and
/// split at its last colon. `None` when no port can be found.
pub fn split_host_port(host: &str, port: &str) -> (r: Option<(String, String)>)
    ensures
        match split_hostport(host@, port@) {
            Some(hp) => r is Some && (r->0).0@ == hp.0 && (r->0).1@ == hp.1,
            None => r is None,
        },
{
    if !port.is_empty() {
        return Some((host.to_owned(), port.to_owned()));
    }
    let len = host.unicode_len();
    let mut i: usize = len;
    while i > 0
        invariant
            port@.len() == 0,
            len == host@.len(),
            i <= len,
            last_colon(host@) == last_colon_from(host@, i as int),
        decreases i,
    {
        if host.get_char(i - 1) == ':' {
            let h = host.substring_char(0, i - 1);
            let p = host.substring_char(i, len);
            proof {
                assert(last_colon_from(host@, i as int) == i as int - 1);
                assert(h@ =~= host@.take(i as int - 1));
                assert(p@ =~= host@.skip(i as int));
            }
            return Some((h.to_owned(), p.to_owned()));
        }
        i = i - 1;
    }
    None
}

/// A session context: one native engine handle, created as a client or a
/// server, its lifecycle state, the configuration it owns once one was
/// applied, what is known about the peer once the handshake completed,
/// the transport handle it was bound to, and the connection target.
#[derive(Debug)]
pub struct TlsContext {
    pub role: Role,
    pub state: SessionState,
    pub cfg: Option<TlsConfig>,
    pub peer: Option<PeerInfo>,
    pub fd: Option<i32>,
    pub target_host: String,
    pub target_port: String,
    pub servername: String,
}

/// A freshly created, unconfigured and unconnected context.
pub open spec fn is_fresh(c: TlsContext, role: Role) -> bool {
    &&& c.role == role
    &&& c.state == SessionState::Created
    &&& c.cfg is None
    &&& c.peer is None
    &&& c.fd is None
    &&& c.target_host@ == Seq::<char>::empty()
    &&& c.target_port@ == Seq::<char>::empty()
    &&& c.servername@ == Seq::<char>::empty()
}

/// A context that has had `cfg` applied and is not yet bound to a
/// transport or target.
pub open spec fn is_configured(c: TlsContext, role: Role, cfg: TlsConfig) -> bool {
    &&& c.role == role
    &&& c.state == SessionState::Configured
    &&& c.cfg == Some(cfg)
    &&& c.peer is None
    &&& c.fd is None
    &&& c.target_host@ == Seq::<char>::empty()
    &&& c.target_port@ == Seq::<char>::empty()
    &&& c.servername@ == Seq::<char>::empty()
}

/// The name used for certificate verification: the server name when one
/// was given, the connection host otherwise.
pub open spec fn effective_sni(host: Seq<char>, sni: Seq<char>) -> Seq<char> {
    if sni.len() == 0 {
        host
    } else {
        sni
    }
}

/// A client context that owns `cfg` and was connected by name to the
/// given host and port, verifying the certificate against `sni`.
pub open spec fn connected_client(
    c: TlsContext,
    cfg: TlsConfig,
    host: Seq<char>,
    port: Seq<char>,
    sni: Seq<char>,
) -> bool {
    &&& c.role == Role::Client
    &&& c.state == SessionState::Connecting
    &&& c.cfg == Some(cfg)
    &&& c.peer is None
    &&& c.fd is None
    &&& c.target_host@ == host
    &&& c.target_port@ == port
    &&& c.servername@ == sni
}

/// A client context that owns `cfg` and was bound to the transport
/// handle `fd`, verifying the certificate against `sni`.
pub open spec fn connected_client_socket(c: TlsContext, cfg: TlsConfig, fd: i32, sni: Seq<char>) -> bool {
    &&& c.role == Role::Client
    &&& c.state == SessionState::Connecting
    &&& c.cfg == Some(cfg)
    &&& c.peer is None
    &&& c.fd == Some(fd)
    &&& c.target_host@ == Seq::<char>::empty()
    &&& c.target_port@ == Seq::<char>::empty()
    &&& c.servername@ == sni
}

/// A client context as `connected_client` describes it, whose handshake
/// has completed.
pub open spec fn established_client(
    c: TlsContext,
    cfg: TlsConfig,
    host: Seq<char>,
    port: Seq<char>,
    sni: Seq<char>,
) -> bool {
    &&& c.role == Role::Client
    &&& c.state == SessionState::Established
    &&& c.cfg == Some(cfg)
    &&& c.peer is None
    &&& c.fd is None
    &&& c.target_host@ == host
    &&& c.target_port@ == port
    &&& c.servername@ == sni
}

/// A server-origin context for an accepted transport whose handshake has
/// completed.
pub open spec fn accepted_established(c: TlsContext, fd: i32) -> bool {
    &&& c.role == Role::Server
    &&& c.state == SessionState::Established
    &&& c.cfg is None
    &&& c.peer is None
    &&& c.fd == Some(fd)
    &&& c.target_host@ == Seq::<char>::empty()
    &&& c.target_port@ == Seq::<char>::empty()
    &&& c.servername@ == Seq::<char>::empty()
}

/// A brand-new server-origin context for an accepted transport.
pub open spec fn accepted_ctx(c: TlsContext, fd: i32) -> bool {
    &&& c.role == Role::Server
    &&& c.state == SessionState::Accepting
    &&& c.cfg is None
    &&& c.peer is None
    &&& c.fd == Some(fd)
    &&& c.target_host@ == Seq::<char>::empty()
    &&& c.target_port@ == Seq::<char>::empty()
    &&& c.servername@ == Seq::<char>::empty()
}

/// What a close with its one internal retry means: the first engine
/// verdict decides as in `close_post`; exactly when it is a retry
/// sentinel, the close is repeated once with the second verdict, whose
/// outcome (even another retry sentinel) is final.
pub open spec fn shutdown_post(
    pre: TlsContext,
    rv1: i64,
    rv2: i64,
    msg: Seq<char>,
    post: TlsContext,
    r: Result<(), TlsError>,
) -> bool {
    if !close_allowed(pre.state) {
        is_usage_err(r) && post == pre
    } else if rv1 >= 0 {
        r is Ok && post == (TlsContext { state: SessionState::Closed, ..pre })
    } else if is_retry_rv(rv1) {
        if rv2 >= 0 {
            r is Ok && post == (TlsContext { state: SessionState::Closed, ..pre })
        } else if is_retry_rv(rv2) {
            &&& r is Err
            &&& r->Err_0.kind == retry_kind(rv2)
            &&& r->Err_0.msg@ == Seq::<char>::empty()
            &&& post == (TlsContext { state: SessionState::Closing, ..pre })
        } else {
            &&& r is Err
            &&& r->Err_0.kind == ErrorKind::Protocol
            &&& r->Err_0.msg@ == msg
            &&& post == (TlsContext { state: SessionState::Closing, ..pre })
        }
    } else {
        &&& r is Err
        &&& r->Err_0.kind == ErrorKind::Protocol
        &&& r->Err_0.msg@ == msg
        &&& post == pre
    }
}

/// What applying a configuration means: valid only before the context is
/// bound to a transport or target; the context keeps the configuration
/// either way (the engine retains pointers into it), and the engine's
/// verdict decides between `Configured` and a configuration error.
pub open spec fn configure_post(
    pre: TlsContext,
    cfg: TlsConfig,
    rv: i64,
    msg: Seq<char>,
    post: TlsContext,
    r: Result<(), TlsError>,
) -> bool {
    if !configure_allowed(pre.state) {
        is_usage_err(r) && post == pre
    } else if rv == 0 {
        r is Ok && post == (TlsContext {
            state: SessionState::Configured,
            cfg: Some(cfg),
            ..pre
        })
    } else {
        &&& r is Err
        &&& r->Err_0.kind == ErrorKind::Configuration
        &&& r->Err_0.msg@ == msg
        &&& post == (TlsContext { cfg: Some(cfg), ..pre })
    }
}

/// What connecting by name means: only a client context that is not yet
/// bound may connect; the target must resolve to a non-empty host and
/// port (with an empty port the host is read as `host:port`); the engine's
/// verdict then decides. On success the context records the target and
/// the name used for certificate verification: the server name when one
/// was given, the connection host otherwise.
pub open spec fn connect_servername_post(
    pre: TlsContext,
    hostname: Seq<char>,
    port: Seq<char>,
    servername: Seq<char>,
    rv: i64,
    msg: Seq<char>,
    post: TlsContext,
    r: Result<(), TlsError>,
) -> bool {
    if !(pre.role == Role::Client && configure_allowed(pre.state)) {
        is_usage_err(r) && post == pre
    } else {
        match split_hostport(hostname, port) {
            None => {
                &&& r is Err
                &&& r->Err_0.kind == ErrorKind::Connect
                &&& r->Err_0.msg@ == "no port provided"@
                &&& post == pre
            },
            Some(hp) => {
                if hp.0.len() == 0 {
                    &&& r is Err
                    &&& r->Err_0.kind == ErrorKind::Connect
                    &&& r->Err_0.msg@ == "no host provided"@
                    &&& post == pre
                } else if rv == 0 {
                    &&& r is Ok
                    &&& post == (TlsContext {
                        state: SessionState::Connecting,
                        target_host: post.target_host,
                        target_port: post.target_port,
                        servername: post.servername,
                        ..pre
                    })
                    &&& post.target_host@ == hp.0
                    &&& post.target_port@ == hp.1
                    &&& post.servername@ == if servername.len() == 0 {
                        hp.0
                    } else {
                        servername
                    }
                } else {
                    &&& r is Err
                    &&& r->Err_0.kind == ErrorKind::Connect
                    &&& r->Err_0.msg@ == msg
                    &&& post == pre
                }
            },
        }
    }
}

/// What binding a client context to an open transport means.
pub open spec fn connect_socket_post(
    pre: TlsContext,
    fd: i32,
    servername: Seq<char>,
    rv: i64,
    msg: Seq<char>,
    post: TlsContext,
    r: Result<(), TlsError>,
) -> bool {
    if !(pre.role == Role::Client && configure_allowed(pre.state)) {
        is_usage_err(r) && post == pre
    } else if rv == 0 {
        &&& r is Ok
        &&& post == (TlsContext {
            state: SessionState::Connecting,
            fd: Some(fd),
            servername: post.servername,
            ..pre
        })
        &&& post.servername@ == servername
    } else {
        &&& r is Err
        &&& r->Err_0.kind == ErrorKind::Connect
        &&& r->Err_0.msg@ == msg
        &&& post == pre
    }
}

/// What accepting on a server context means: the listening context is
/// left as it was (it stays reusable for further accepts), and on success
/// a brand-new context for the accepted transport is handed out.
pub open spec fn accept_socket_post(
    pre: TlsContext,
    fd: i32,
    rv: i64,
    msg: Seq<char>,
    post: TlsContext,
    r: Result<TlsContext, TlsError>,
) -> bool {
    &&& post == pre
    &&& if !(pre.role == Role::Server && configure_allowed(pre.state)) {
        is_usage_err(r)
    } else if rv == 0 {
        &&& r is Ok
        &&& r->Ok_0.role == Role::Server
        &&& r->Ok_0.state == SessionState::Accepting
        &&& r->Ok_0.cfg is None
        &&& r->Ok_0.peer is None
        &&& r->Ok_0.fd == Some(fd)
        &&& r->Ok_0.target_host@ == Seq::<char>::empty()
        &&& r->Ok_0.target_port@ == Seq::<char>::empty()
        &&& r->Ok_0.servername@ == Seq::<char>::empty()
    } else {
        &&& r is Err
        &&& r->Err_0.kind == ErrorKind::Connect
        &&& r->Err_0.msg@ == msg
    }
}

/// What one handshake step means: a second handshake on an established
/// session is a usage error; otherwise the engine's verdict decides
/// between completion, a retry sentinel (the identical call must be
/// repeated once the transport is ready) and a fatal protocol error.
pub open spec fn handshake_post(
    pre: TlsContext,
    rv: i64,
    msg: Seq<char>,
    post: TlsContext,
    r: Result<(), TlsError>,
) -> bool {
    if !handshake_allowed(pre.state) {
        is_usage_err(r) && post == pre
    } else if rv >= 0 {
        r is Ok && post == (TlsContext { state: SessionState::Established, ..pre })
    } else if is_retry_rv(rv) {
        &&& r is Err
        &&& r->Err_0.kind == retry_kind(rv)
        &&& r->Err_0.msg@ == Seq::<char>::empty()
        &&& post == (TlsContext { state: SessionState::Handshaking, ..pre })
    } else {
        &&& r is Err
        &&& r->Err_0.kind == ErrorKind::Protocol
        &&& r->Err_0.msg@ == msg
        &&& post == pre
    }
}

/// What one read or write step means: valid once the context is bound;
/// a non-negative engine verdict is the byte count (and means any pending
/// handshake completed implicitly), the retry sentinels carry no message,
/// and other negative verdicts are fatal.
pub open spec fn io_post(
    pre: TlsContext,
    rv: i64,
    msg: Seq<char>,
    post: TlsContext,
    r: Result<usize, TlsError>,
) -> bool {
    if !io_allowed(pre.state) {
        is_usage_err(r) && post == pre
    } else if rv >= 0 {
        r is Ok && r->Ok_0 as int == rv as int && post == (TlsContext {
            state: SessionState::Established,
            ..pre
        })
    } else if is_retry_rv(rv) {
        &&& r is Err
        &&& r->Err_0.kind == retry_kind(rv)
        &&& r->Err_0.msg@ == Seq::<char>::empty()
        &&& post == (TlsContext {
            state: if pre.state == SessionState::Established {
                SessionState::Established
            } else {
                SessionState::Handshaking
            },
            ..pre
        })
    } else {
        &&& r is Err
        &&& r->Err_0.kind == ErrorKind::Protocol
        &&& r->Err_0.msg@ == msg
        &&& post == pre
    }
}

/// What one close step means: a close before any handshake, or after a
/// completed close, is a usage error; otherwise the engine's verdict
/// decides between completion, a retry sentinel (one more round is needed
/// for the closing notification) and a fatal protocol error.
pub open spec fn close_post(
    pre: TlsContext,
    rv: i64,
    msg: Seq<char>,
    post: TlsContext,
    r: Result<(), TlsError>,
) -> bool {
    if !close_allowed(pre.state) {
        is_usage_err(r) && post == pre
    } else if rv >= 0 {
        r is Ok && post == (TlsContext { state: SessionState::Closed, ..pre })
    } else if is_retry_rv(rv) {
        &&& r is Err
        &&& r->Err_0.kind == retry_kind(rv)
        &&& r->Err_0.msg@ == Seq::<char>::empty()
        &&& post == (TlsContext { state: SessionState::Closing, ..pre })
    } else {
        &&& r is Err
        &&& r->Err_0.kind == ErrorKind::Protocol
        &&& r->Err_0.msg@ == msg
        &&& post == pre
    }
}

impl TlsContext {
    /// Creates a new client context.
    pub fn new_client() -> (r: TlsResult<TlsContext>)
        ensures
            r is Ok,
            is_fresh(r->Ok_0, Role::Client),
    {
        Ok(TlsContext {
            role: Role::Client,
            state: SessionState::Created,
            cfg: None,
            peer: None,
            fd: None,
            target_host: String::new(),
            target_port: String::new(),
            servername: String::new(),
        })
    }

    /// Creates a new server (listening) context.
    pub fn new_server() -> (r: TlsResult<TlsContext>)
        ensures
            r is Ok,
            is_fresh(r->Ok_0, Role::Server),
    {
        Ok(TlsContext {
            role: Role::Server,
            state: SessionState::Created,
            cfg: None,
            peer: None,
            fd: None,
            target_host: String::new(),
            target_port: String::new(),
            servername: String::new(),
        })
    }

    /// Maps the engine's verdict for configure, connect and accept calls:
    /// zero is success, anything else carries the engine's message under
    /// the given classification.
    pub fn rv_to_result(rv: i64, kind: ErrorKind, msg: &str) -> (r: TlsResult<()>)
        ensures
            rv == 0 ==> r is Ok,
            rv != 0 ==> r is Err && r->Err_0.kind == kind && r->Err_0.msg@ == msg@,
    {
        if rv == 0 {
            Ok(())
        } else {
            Err(TlsError { kind, msg: msg.to_owned() })
        }
    }

    /// Maps the engine's verdict for handshake, read, write and close
    /// calls: the retry sentinels become the matching would-block errors
    /// with no message, other negative verdicts are fatal and carry the
    /// engine's message, and a non-negative verdict is the byte count.
    pub fn rv_to_result_io(rv: i64, msg: &str) -> (r: TlsResult<usize>)
        requires
            rv as int <= usize::MAX as int,
        ensures
            is_retry_rv(rv) ==> r is Err && r->Err_0.kind == retry_kind(rv) && r->Err_0.msg@
                == Seq::<char>::empty(),
            rv < 0 && !is_retry_rv(rv) ==> r is Err && r->Err_0.kind == ErrorKind::Protocol
                && r->Err_0.msg@ == msg@,
            rv >= 0 ==> r is Ok && r->Ok_0 as int == rv as int,
    {
        if rv == WANT_POLLIN {
            Err(TlsError { kind: ErrorKind::WouldBlockRead, msg: String::new() })
        } else if rv == WANT_POLLOUT {
            Err(TlsError { kind: ErrorKind::WouldBlockWrite, msg: String::new() })
        } else if rv < 0 {
            Err(TlsError { kind: ErrorKind::Protocol, msg: msg.to_owned() })
        } else {
            Ok(rv as usize)
        }
    }

    /// Applies a configuration to the context, which keeps it from then
    /// on. `rv` is the engine's verdict on the configuration and `msg`
    /// its message when it rejected it.
    pub fn configure(&mut self, cfg: TlsConfig, rv: i64, msg: &str) -> (r: TlsResult<()>)
        ensures
            configure_post(*old(self), cfg, rv, msg@, *final(self), r),
    {
        if !(matches!(self.state, SessionState::Created) || matches!(
            self.state,
            SessionState::Configured,
        )) {
            return Err(TlsError {
                kind: ErrorKind::Usage,
                msg: String::from_str("context is already connected"),
            });
        }
        self.cfg = Some(cfg);
        let r = Self::rv_to_result(rv, ErrorKind::Configuration, msg);
        if r.is_ok() {
            self.state = SessionState::Configured;
        }
        r
    }

    /// Connects a client context to `hostname`/`port`. With an empty
    /// `port` the host is read as `host:port`; a non-empty `servername`
    /// overrides the name used for certificate verification. `rv` is the
    /// engine's verdict on the connection attempt.
    pub fn connect_servername(
        &mut self,
        hostname: &str,
        port: &str,
        servername: &str,
        rv: i64,
        msg: &str,
    ) -> (r: TlsResult<()>)
        ensures
            connect_servername_post(
                *old(self),
                hostname@,
                port@,
                servername@,
                rv,
                msg@,
                *final(self),
                r,
            ),
    {
        if !(matches!(self.role, Role::Client) && (matches!(self.state, SessionState::Created)
            || matches!(self.state, SessionState::Configured))) {
            return Err(TlsError {
                kind: ErrorKind::Usage,
                msg: String::from_str("context cannot connect"),
            });
        }
        let split = split_host_port(hostname, port);
        match split {
            None => Err(TlsError {
                kind: ErrorKind::Connect,
                msg: String::from_str("no port provided"),
            }),
            Some((host, prt)) => {
                if host.as_str().is_empty() {
                    return Err(TlsError {
                        kind: ErrorKind::Connect,
                        msg: String::from_str("no host provided"),
                    });
                }
                if rv != 0 {
                    return Err(TlsError { kind: ErrorKind::Connect, msg: msg.to_owned() });
                }
                self.servername = if servername.is_empty() {
                    host.clone()
                } else {
                    servername.to_owned()
                };
                self.target_host = host;
                self.target_port = prt;
                self.state = SessionState::Connecting;
                Ok(())
            },
        }
    }

    /// Binds a client context to an already-open transport handle; no
    /// handshake is performed. `rv` is the engine's verdict.
    pub fn connect_socket(&mut self, fd: i32, servername: &str, rv: i64, msg: &str) -> (r:
        TlsResult<()>)
        ensures
            connect_socket_post(*old(self), fd, servername@, rv, msg@, *final(self), r),
    {
        if !(matches!(self.role, Role::Client) && (matches!(self.state, SessionState::Created)
            || matches!(self.state, SessionState::Configured))) {
            return Err(TlsError {
                kind: ErrorKind::Usage,
                msg: String::from_str("context cannot connect"),
            });
        }
        if rv != 0 {
            return Err(TlsError { kind: ErrorKind::Connect, msg: msg.to_owned() });
        }
        self.fd = Some(fd);
        self.servername = servername.to_owned();
        self.state = SessionState::Connecting;
        Ok(())
    }

    /// Accepts a connection on a listening server context: the listener
    /// is left reusable, and on success a brand-new context for the
    /// accepted transport is returned. `rv` is the engine's verdict.
    pub fn accept_socket(&mut self, fd: i32, rv: i64, msg: &str) -> (r: TlsResult<TlsContext>)
        ensures
            accept_socket_post(*old(self), fd, rv, msg@, *final(self), r),
    {
        if !(matches!(self.role, Role::Server) && (matches!(self.state, SessionState::Created)
            || matches!(self.state, SessionState::Configured))) {
            return Err(TlsError {
                kind: ErrorKind::Usage,
                msg: String::from_str("context cannot accept"),
            });
        }
        if rv != 0 {
            return Err(TlsError { kind: ErrorKind::Connect, msg: msg.to_owned() });
        }
        Ok(TlsContext {
            role: Role::Server,
            state: SessionState::Accepting,
            cfg: None,
            peer: None,
            fd: Some(fd),
            target_host: String::new(),
            target_port: String::new(),
            servername: String::new(),
        })
    }

    /// One handshake step, on the engine's verdict `rv`. A retry sentinel
    /// means the identical call must be repeated once the transport is
    /// ready; on an established session a further handshake is a usage
    /// error.
    pub fn handshake(&mut self, rv: i64, msg: &str) -> (r: TlsResult<()>)
        ensures
            handshake_post(*old(self), rv, msg@, *final(self), r),
    {
        if !(matches!(self.state, SessionState::Connecting) || matches!(
            self.state,
            SessionState::Accepting,
        ) || matches!(self.state, SessionState::Handshaking)) {
            return Err(TlsError {
                kind: ErrorKind::Usage,
                msg: String::from_str("no handshake is pending"),
            });
        }
        if rv >= 0 {
            self.state = SessionState::Established;
            Ok(())
        } else if rv == WANT_POLLIN {
            self.state = SessionState::Handshaking;
            Err(TlsError { kind: ErrorKind::WouldBlockRead, msg: String::new() })
        } else if rv == WANT_POLLOUT {
            self.state = SessionState::Handshaking;
            Err(TlsError { kind: ErrorKind::WouldBlockWrite, msg: String::new() })
        } else {
            Err(TlsError { kind: ErrorKind::Protocol, msg: msg.to_owned() })
        }
    }

    /// One read step, on the engine's verdict `rv`: the byte count on
    /// success (zero denotes a clean peer-initiated close), a retry
    /// sentinel, or a fatal error. A successful read implies any pending
    /// handshake completed.
    pub fn read(&mut self, rv: i64, msg: &str) -> (r: TlsResult<usize>)
        requires
            rv as int <= usize::MAX as int,
        ensures
            io_post(*old(self), rv, msg@, *final(self), r),
    {
        self.io_step(rv, msg)
    }

    /// One write step, on the engine's verdict `rv`: the byte count on
    /// success, a retry sentinel, or a fatal error. A successful write
    /// implies any pending handshake completed.
    pub fn write(&mut self, rv: i64, msg: &str) -> (r: TlsResult<usize>)
        requires
            rv as int <= usize::MAX as int,
        ensures
            io_post(*old(self), rv, msg@, *final(self), r),
    {
        self.io_step(rv, msg)
    }

    /// The shared read/write decision.
    fn io_step(&mut self, rv: i64, msg: &str) -> (r: TlsResult<usize>)
        requires
            rv as int <= usize::MAX as int,
        ensures
            io_post(*old(self), rv, msg@, *final(self), r),
    {
        if !(matches!(self.state, SessionState::Connecting) || matches!(
            self.state,
            SessionState::Accepting,
        ) || matches!(self.state, SessionState::Handshaking) || matches!(
            self.state,
            SessionState::Established,
        )) {
            return Err(TlsError {
                kind: ErrorKind::Usage,
                msg: String::from_str("context is not connected"),
            });
        }
        let r = Self::rv_to_result_io(rv, msg);
        if rv >= 0 {
            self.state = SessionState::Established;
        } else if (rv == WANT_POLLIN || rv == WANT_POLLOUT) && !matches!(
            self.state,
            SessionState::Established,
        ) {
            self.state = SessionState::Handshaking;
        }
        r
    }

    /// One close step, on the engine's verdict `rv`. The engine may need
    /// one more round for the closing notification, which it reports as a
    /// retry sentinel. Closing before any handshake, or again after a
    /// completed close, is a usage error.
    pub fn close(&mut self, rv: i64, msg: &str) -> (r: TlsResult<()>)
        ensures
            close_post(*old(self), rv, msg@, *final(self), r),
    {
        if !(matches!(self.state, SessionState::Handshaking) || matches!(
            self.state,
            SessionState::Established,
        ) || matches!(self.state, SessionState::Closing)) {
            return Err(TlsError {
                kind: ErrorKind::Usage,
                msg: String::from_str("no open session to close"),
            });
        }
        if rv >= 0 {
            self.state = SessionState::Closed;
            Ok(())
        } else if rv == WANT_POLLIN {
            self.state = SessionState::Closing;
            Err(TlsError { kind: ErrorKind::WouldBlockRead, msg: String::new() })
        } else if rv == WANT_POLLOUT {
            self.state = SessionState::Closing;
            Err(TlsError { kind: ErrorKind::WouldBlockWrite, msg: String::new() })
        } else {
            Err(TlsError { kind: ErrorKind::Protocol, msg: msg.to_owned() })
        }
    }

    /// Records what the engine reported about the peer; valid only once
    /// the handshake has completed.
    pub fn attach_peer_info(&mut self, info: PeerInfo) -> (r: TlsResult<()>)
        ensures
            old(self).state == SessionState::Established ==> r is Ok && *final(self)
                == (TlsContext { peer: Some(info), ..*old(self) }),
            old(self).state != SessionState::Established ==> is_usage_err(r) && *final(self)
                == *old(self),
    {
        if matches!(self.state, SessionState::Established) {
            self.peer = Some(info);
            Ok(())
        } else {
            Err(TlsError {
                kind: ErrorKind::Usage,
                msg: String::from_str("handshake has not completed"),
            })
        }
    }

    /// The negotiated protocol version; the empty string before the
    /// handshake is complete.
    pub fn conn_version(&self) -> (r: String)
        ensures
            self.peer is Some ==> r@ == self.peer->0.version@,
            self.peer is None ==> r@ == Seq::<char>::empty(),
    {
        match &self.peer {
            Some(p) => p.version.clone(),
            None => String::new(),
        }
    }

    /// The negotiated cipher; the empty string before the handshake is
    /// complete.
    pub fn conn_cipher(&self) -> (r: String)
        ensures
            self.peer is Some ==> r@ == self.peer->0.cipher@,
            self.peer is None ==> r@ == Seq::<char>::empty(),
    {
        match &self.peer {
            Some(p) => p.cipher.clone(),
            None => String::new(),
        }
    }

    /// The peer certificate's issuer; the empty string before the
    /// handshake is complete.
    pub fn peer_cert_issuer(&self) -> (r: String)
        ensures
            self.peer is Some ==> r@ == self.peer->0.issuer@,
            self.peer is None ==> r@ == Seq::<char>::empty(),
    {
        match &self.peer {
            Some(p) => p.issuer.clone(),
            None => String::new(),
        }
    }

    /// The peer certificate's subject; the empty string before the
    /// handshake is complete.
    pub fn peer_cert_subject(&self) -> (r: String)
        ensures
            self.peer is Some ==> r@ == self.peer->0.subject@,
            self.peer is None ==> r@ == Seq::<char>::empty(),
    {
        match &self.peer {
            Some(p) => p.subject.clone(),
            None => String::new(),
        }
    }

    /// The peer certificate's hash; the empty string before the handshake
    /// is complete.
    pub fn peer_cert_hash(&self) -> (r: String)
        ensures
            self.peer is Some ==> r@ == self.peer->0.hash@,
            self.peer is None ==> r@ == Seq::<char>::empty(),
    {
        match &self.peer {
            Some(p) => p.hash.clone(),
            None => String::new(),
        }
    }

    /// Whether the peer presented a certificate; `false` before the
    /// handshake is complete.
    pub fn peer_cert_provided(&self) -> (r: bool)
        ensures
            r == (self.peer is Some && self.peer->0.provided),
    {
        match &self.peer {
            Some(p) => p.provided,
            None => false,
        }
    }

    /// The start of the peer certificate's validity window, as epoch
    /// seconds; an error before the handshake is complete or when the
    /// engine had no certificate date.
    pub fn peer_cert_notbefore(&self) -> (r: TlsResult<i64>)
        ensures
            self.peer is Some && self.peer->0.notbefore != -1 ==> r is Ok && r->Ok_0
                == self.peer->0.notbefore,
            !(self.peer is Some && self.peer->0.notbefore != -1) ==> r is Err && r->Err_0.kind
                == ErrorKind::Protocol,
    {
        match &self.peer {
            Some(p) => {
                if p.notbefore != -1 {
                    Ok(p.notbefore)
                } else {
                    Err(TlsError::new("unable to get certificate information"))
                }
            },
            None => Err(TlsError::new("unable to get certificate information")),
        }
    }

    /// The end of the peer certificate's validity window, as epoch
    /// seconds; an error before the handshake is complete or when the
    /// engine had no certificate date.
    pub fn peer_cert_notafter(&self) -> (r: TlsResult<i64>)
        ensures
            self.peer is Some && self.peer->0.notafter != -1 ==> r is Ok && r->Ok_0
                == self.peer->0.notafter,
            !(self.peer is Some && self.peer->0.notafter != -1) ==> r is Err && r->Err_0.kind
                == ErrorKind::Protocol,
    {
        match &self.peer {
            Some(p) => {
                if p.notafter != -1 {
                    Ok(p.notafter)
                } else {
                    Err(TlsError::new("unable to get certificate information"))
                }
            },
            None => Err(TlsError::new("unable to get certificate information")),
        }
    }

    /// Whether the peer certificate carries a name matching `name`
    /// (case-insensitive, wildcard-aware); `false` before the handshake
    /// is complete.
    pub fn peer_cert_contains_name(&self, name: &str) -> (r: bool)
        ensures
            r == (self.peer is Some && some_name_matches(self.peer->0.alt_names.deep_view(), name@)),
    {
        match &self.peer {
            Some(p) => contains_matching_name(&p.alt_names, name),
            None => false,
        }
    }
}

} // verus!
