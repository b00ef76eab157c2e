//! The user-facing client and server API: fail-fast builders that
//! accumulate a configuration, the `TlsStream` session they produce, and
//! the listening `TlsServer`.
//!
//! Builder mutators latch the first error and are no-ops from then on;
//! the latched error surfaces when the builder is consumed. A
//! `TlsStream` couples a session context with the object holding the
//! underlying transport: entry points that consume the holder give a
//! stream that owns it, while the socket entry points leave ownership
//! with the caller, who must keep the transport alive for the stream's
//! whole life (only the numeric handle is retained, so a transport closed
//! too early surfaces as an engine error on the next operation, never as
//! memory misuse).

use vstd::prelude::*;
use vstd::string::*;

use crate::config::{is_default_config, protocol_mask, TlsConfig};
use crate::ctx::{
    accepted_ctx, connected_client, connected_client_socket, effective_sni, handshake_post,
    io_post, is_configured, is_usage_err, shutdown_post, split_hostport, PeerInfo, Role,
    SessionState, TlsContext,
};
use crate::err::{ErrorKind, TlsError, TlsResult};
use crate::names::some_name_matches;

verus! {

/// Accumulates the configuration for a client connection, latching the
/// first error.
#[derive(Debug)]
pub struct ClientBuilder {
    pub cfg: TlsConfig,
    pub error: Option<TlsError>,
}

impl ClientBuilder {
    /// Load CA certificates from a PEM file.
    pub fn ca_file(self, path: &str) -> (r: Self)
        ensures
            self.error is Some ==> r.cfg == self.cfg && r.error == self.error,
            self.error is None ==> r.error is None && r.cfg.ca_file is Some
                && r.cfg.ca_file->0@ == path@ && r.cfg == (TlsConfig {
                ca_file: r.cfg.ca_file,
                ..self.cfg
            }),
    {
        let mut b = self;
        if b.error.is_some() {
            return b;
        }
        let _ = b.cfg.set_ca_file(path);
        b
    }

    /// Load CA certificates from a directory.
    pub fn ca_path(self, path: &str) -> (r: Self)
        ensures
            self.error is Some ==> r.cfg == self.cfg && r.error == self.error,
            self.error is None ==> r.error is None && r.cfg.ca_path is Some
                && r.cfg.ca_path->0@ == path@ && r.cfg == (TlsConfig {
                ca_path: r.cfg.ca_path,
                ..self.cfg
            }),
    {
        let mut b = self;
        if b.error.is_some() {
            return b;
        }
        let _ = b.cfg.set_ca_path(path);
        b
    }

    /// Use CA certificates from a PEM string.
    pub fn ca(self, ca: &str) -> (r: Self)
        ensures
            self.error is Some ==> r.cfg == self.cfg && r.error == self.error,
            self.error is None ==> r.error is None && r.cfg.ca_mem is Some
                && r.cfg.ca_mem->0@ == ca@ && r.cfg == (TlsConfig {
                ca_mem: r.cfg.ca_mem,
                ..self.cfg
            }),
    {
        let mut b = self;
        if b.error.is_some() {
            return b;
        }
        let _ = b.cfg.set_ca_mem(ca);
        b
    }

    /// Set the maximum accepted certificate chain length; zero disables
    /// the chain-length check.
    pub fn verify_depth(self, depth: i32) -> (r: Self)
        ensures
            self.error is Some ==> r.cfg == self.cfg && r.error == self.error,
            self.error is None ==> r.error is None && r.cfg == (TlsConfig {
                verify_depth: depth,
                ..self.cfg
            }),
    {
        let mut b = self;
        if b.error.is_some() {
            return b;
        }
        b.cfg.set_verify_depth(depth);
        b
    }

    /// Select the enabled protocol versions from a symbolic token; an
    /// unknown token latches a configuration error.
    pub fn protocols(self, protocols: &str) -> (r: Self)
        ensures
            self.error is Some ==> r.cfg == self.cfg && r.error == self.error,
            self.error is None && protocol_mask(protocols@) is Some ==> r.error is None && r.cfg
                == (TlsConfig { protocols: protocol_mask(protocols@)->0, ..self.cfg }),
            self.error is None && protocol_mask(protocols@) is None ==> r.cfg == self.cfg
                && r.error is Some && r.error->0.kind == ErrorKind::Configuration,
    {
        let mut b = self;
        if b.error.is_some() {
            return b;
        }
        match b.cfg.set_protocols(protocols) {
            Ok(_) => {},
            Err(e) => {
                b.error = Some(e);
            },
        }
        b
    }

    /// Set the cipher specification string; whether it names ciphers the
    /// engine knows is decided when the configuration is applied.
    pub fn ciphers(self, ciphers: &str) -> (r: Self)
        ensures
            self.error is Some ==> r.cfg == self.cfg && r.error == self.error,
            self.error is None ==> r.error is None && r.cfg.ciphers is Some
                && r.cfg.ciphers->0@ == ciphers@ && r.cfg == (TlsConfig {
                ciphers: r.cfg.ciphers,
                ..self.cfg
            }),
    {
        let mut b = self;
        if b.error.is_some() {
            return b;
        }
        let _ = b.cfg.set_ciphers(ciphers);
        b
    }

    /// Disable certificate verification.
    pub fn insecure_noverifycert(self) -> (r: Self)
        ensures
            self.error is Some ==> r.cfg == self.cfg && r.error == self.error,
            self.error is None ==> r.error is None && r.cfg == (TlsConfig {
                noverifycert: true,
                ..self.cfg
            }),
    {
        let mut b = self;
        if b.error.is_some() {
            return b;
        }
        b.cfg.insecure_noverifycert();
        b
    }

    /// Disable hostname verification.
    pub fn insecure_noverifyname(self) -> (r: Self)
        ensures
            self.error is Some ==> r.cfg == self.cfg && r.error == self.error,
            self.error is None ==> r.error is None && r.cfg == (TlsConfig {
                noverifyname: true,
                ..self.cfg
            }),
    {
        let mut b = self;
        if b.error.is_some() {
            return b;
        }
        b.cfg.insecure_noverifyname();
        b
    }

    /// Create a client context from the accumulated settings: the latched
    /// error, if any, surfaces here; otherwise a fresh client context is
    /// created and the configuration applied, with `cfg_rv` the engine's
    /// verdict on it.
    fn new_ctx(self, cfg_rv: i64, cfg_msg: &str) -> (r: TlsResult<TlsContext>)
        ensures
            self.error is Some ==> r is Err && r->Err_0 == self.error->0,
            self.error is None && cfg_rv == 0 ==> r is Ok && is_configured(
                r->Ok_0,
                Role::Client,
                self.cfg,
            ),
            self.error is None && cfg_rv != 0 ==> r is Err && r->Err_0.kind
                == ErrorKind::Configuration && r->Err_0.msg@ == cfg_msg@,
    {
        match self.error {
            Some(e) => Err(e),
            None => {
                let mut ctx = TlsContext::new_client().unwrap();
                match ctx.configure(self.cfg, cfg_rv, cfg_msg) {
                    Ok(_) => Ok(ctx),
                    Err(e) => Err(e),
                }
            },
        }
    }

    /// Connect to `hostname`/`port`; the engine dials and manages the
    /// descriptor itself, so the stream holds no transport. With an empty
    /// `port` the host is read as `host:port`; a non-empty `servername`
    /// overrides the name used for certificate verification. `cfg_rv` and
    /// `conn_rv` are the engine's verdicts on the configuration and on
    /// the connection attempt.
    pub fn connect_servername(
        self,
        hostname: &str,
        port: &str,
        servername: &str,
        cfg_rv: i64,
        cfg_msg: &str,
        conn_rv: i64,
        conn_msg: &str,
    ) -> (r: TlsResult<TlsStream<()>>)
        ensures
            self.error is Some ==> r is Err && r->Err_0 == self.error->0,
            self.error is None && cfg_rv != 0 ==> r is Err && r->Err_0.kind
                == ErrorKind::Configuration && r->Err_0.msg@ == cfg_msg@,
            self.error is None && cfg_rv == 0 ==> match split_hostport(hostname@, port@) {
                None => r is Err && r->Err_0.kind == ErrorKind::Connect && r->Err_0.msg@
                    == "no port provided"@,
                Some(hp) => if hp.0.len() == 0 {
                    r is Err && r->Err_0.kind == ErrorKind::Connect && r->Err_0.msg@
                        == "no host provided"@
                } else if conn_rv == 0 {
                    r is Ok && connected_client(
                        r->Ok_0.ctx,
                        self.cfg,
                        hp.0,
                        hp.1,
                        effective_sni(hp.0, servername@),
                    )
                } else {
                    r is Err && r->Err_0.kind == ErrorKind::Connect && r->Err_0.msg@ == conn_msg@
                },
            },
    {
        match self.new_ctx(cfg_rv, cfg_msg) {
            Err(e) => Err(e),
            Ok(mut ctx) => {
                match ctx.connect_servername(hostname, port, servername, conn_rv, conn_msg) {
                    Ok(_) => Ok(TlsStream { ctx, inner_stream: () }),
                    Err(e) => Err(e),
                }
            },
        }
    }

    /// Establish a TLS connection over an existing transport handle,
    /// without taking ownership of it: the caller must keep the transport
    /// alive for the stream's whole life.
    pub fn connect_socket(
        self,
        fd: i32,
        servername: &str,
        cfg_rv: i64,
        cfg_msg: &str,
        conn_rv: i64,
        conn_msg: &str,
    ) -> (r: TlsResult<TlsStream<()>>)
        ensures
            self.error is Some ==> r is Err && r->Err_0 == self.error->0,
            self.error is None && cfg_rv != 0 ==> r is Err && r->Err_0.kind
                == ErrorKind::Configuration && r->Err_0.msg@ == cfg_msg@,
            self.error is None && cfg_rv == 0 && conn_rv == 0 ==> r is Ok
                && connected_client_socket(r->Ok_0.ctx, self.cfg, fd, servername@),
            self.error is None && cfg_rv == 0 && conn_rv != 0 ==> r is Err && r->Err_0.kind
                == ErrorKind::Connect && r->Err_0.msg@ == conn_msg@,
    {
        match self.new_ctx(cfg_rv, cfg_msg) {
            Err(e) => Err(e),
            Ok(mut ctx) => {
                match ctx.connect_socket(fd, servername, conn_rv, conn_msg) {
                    Ok(_) => Ok(TlsStream { ctx, inner_stream: () }),
                    Err(e) => Err(e),
                }
            },
        }
    }

    /// Establish a TLS connection over the transport held by
    /// `inner_stream` (whose open handle is `fd`), consuming the holder:
    /// the stream keeps it alive and hands it back through `inner`.
    pub fn connect<F>(
        self,
        inner_stream: F,
        fd: i32,
        servername: &str,
        cfg_rv: i64,
        cfg_msg: &str,
        conn_rv: i64,
        conn_msg: &str,
    ) -> (r: TlsResult<TlsStream<F>>)
        ensures
            self.error is Some ==> r is Err && r->Err_0 == self.error->0,
            self.error is None && cfg_rv != 0 ==> r is Err && r->Err_0.kind
                == ErrorKind::Configuration && r->Err_0.msg@ == cfg_msg@,
            self.error is None && cfg_rv == 0 && conn_rv == 0 ==> r is Ok
                && connected_client_socket(r->Ok_0.ctx, self.cfg, fd, servername@)
                && r->Ok_0.inner_stream == inner_stream,
            self.error is None && cfg_rv == 0 && conn_rv != 0 ==> r is Err && r->Err_0.kind
                == ErrorKind::Connect && r->Err_0.msg@ == conn_msg@,
    {
        match self.new_ctx(cfg_rv, cfg_msg) {
            Err(e) => Err(e),
            Ok(mut ctx) => {
                match ctx.connect_socket(fd, servername, conn_rv, conn_msg) {
                    Ok(_) => Ok(TlsStream { ctx, inner_stream }),
                    Err(e) => Err(e),
                }
            },
        }
    }
}

/// Create a new TLS client builder. `init_ok` is the outcome of the
/// process-wide engine initialization (see `init_outcome`): when it
/// failed, the builder starts with the error latched and every later
/// step surfaces it.
pub fn new_client(init_ok: bool) -> (r: ClientBuilder)
    ensures
        init_ok ==> r.error is None && is_default_config(r.cfg),
        !init_ok ==> r.error is Some && r.error->0.kind == ErrorKind::Protocol,
{
    let cfg = TlsConfig::new().unwrap();
    if init_ok {
        ClientBuilder { cfg, error: None }
    } else {
        ClientBuilder { cfg, error: Some(TlsError::new("failed to initialize the TLS engine")) }
    }
}

/// A TLS session: a session context plus the object holding the
/// underlying transport (`()` when the stream does not own one).
#[derive(Debug)]
pub struct TlsStream<T> {
    pub ctx: TlsContext,
    pub inner_stream: T,
}

impl<T> TlsStream<T> {
    /// One handshake step, on the engine's verdict `rv`; see
    /// `TlsContext::handshake`. Reading and writing complete the
    /// handshake implicitly, so this is only needed to force it sooner;
    /// a further handshake on an established session is an error.
    pub fn handshake(&mut self, rv: i64, msg: &str) -> (r: TlsResult<()>)
        ensures
            handshake_post(old(self).ctx, rv, msg@, final(self).ctx, r),
            final(self).inner_stream == old(self).inner_stream,
    {
        self.ctx.handshake(rv, msg)
    }

    /// Close the TLS session; the underlying transport stays open. The
    /// engine may need one extra round for the closing notification
    /// (`rv1` a retry sentinel), in which case the close is repeated
    /// exactly once with verdict `rv2`.
    pub fn shutdown(&mut self, rv1: i64, rv2: i64, msg: &str) -> (r: TlsResult<()>)
        ensures
            shutdown_post(old(self).ctx, rv1, rv2, msg@, final(self).ctx, r),
            final(self).inner_stream == old(self).inner_stream,
    {
        match self.ctx.close(rv1, msg) {
            Ok(_) => Ok(()),
            Err(e) => {
                if e.wants_more() {
                    match self.ctx.close(rv2, msg) {
                        Ok(_) => Ok(()),
                        Err(e2) => Err(e2),
                    }
                } else {
                    Err(e)
                }
            },
        }
    }

    /// One read step, on the engine's verdict `rv`; see
    /// `TlsContext::read`. A count of zero denotes a clean peer-initiated
    /// close.
    pub fn read(&mut self, rv: i64, msg: &str) -> (r: TlsResult<usize>)
        requires
            rv as int <= usize::MAX as int,
        ensures
            io_post(old(self).ctx, rv, msg@, final(self).ctx, r),
            final(self).inner_stream == old(self).inner_stream,
    {
        self.ctx.read(rv, msg)
    }

    /// One write step, on the engine's verdict `rv`; see
    /// `TlsContext::write`.
    pub fn write(&mut self, rv: i64, msg: &str) -> (r: TlsResult<usize>)
        requires
            rv as int <= usize::MAX as int,
        ensures
            io_post(old(self).ctx, rv, msg@, final(self).ctx, r),
            final(self).inner_stream == old(self).inner_stream,
    {
        self.ctx.write(rv, msg)
    }

    /// Records what the engine reported about the peer; valid only once
    /// the handshake has completed.
    pub fn attach_peer_info(&mut self, info: PeerInfo) -> (r: TlsResult<()>)
        ensures
            old(self).ctx.state == SessionState::Established ==> r is Ok && final(self).ctx
                == (TlsContext { peer: Some(info), ..old(self).ctx }),
            old(self).ctx.state != SessionState::Established ==> is_usage_err(r) && final(self).ctx
                == old(self).ctx,
            final(self).inner_stream == old(self).inner_stream,
    {
        self.ctx.attach_peer_info(info)
    }

    /// The peer certificate's issuer; the empty string before the
    /// handshake is complete.
    pub fn certificate_issuer(&self) -> (r: String)
        ensures
            self.ctx.peer is Some ==> r@ == self.ctx.peer->0.issuer@,
            self.ctx.peer is None ==> r@ == Seq::<char>::empty(),
    {
        self.ctx.peer_cert_issuer()
    }

    /// The peer certificate's hash; the empty string before the
    /// handshake is complete.
    pub fn certificate_hash(&self) -> (r: String)
        ensures
            self.ctx.peer is Some ==> r@ == self.ctx.peer->0.hash@,
            self.ctx.peer is None ==> r@ == Seq::<char>::empty(),
    {
        self.ctx.peer_cert_hash()
    }

    /// The peer certificate's subject; the empty string before the
    /// handshake is complete.
    pub fn certificate_subject(&self) -> (r: String)
        ensures
            self.ctx.peer is Some ==> r@ == self.ctx.peer->0.subject@,
            self.ctx.peer is None ==> r@ == Seq::<char>::empty(),
    {
        self.ctx.peer_cert_subject()
    }

    /// Whether the peer presented a certificate; `false` before the
    /// handshake is complete.
    pub fn peer_cert_provided(&self) -> (r: bool)
        ensures
            r == (self.ctx.peer is Some && self.ctx.peer->0.provided),
    {
        self.ctx.peer_cert_provided()
    }

    /// The start of the peer certificate's validity window, as epoch
    /// seconds; an error before the handshake is complete.
    pub fn peer_cert_notbefore(&self) -> (r: TlsResult<i64>)
        ensures
            self.ctx.peer is Some && self.ctx.peer->0.notbefore != -1 ==> r is Ok && r->Ok_0
                == self.ctx.peer->0.notbefore,
            !(self.ctx.peer is Some && self.ctx.peer->0.notbefore != -1) ==> r is Err
                && r->Err_0.kind == ErrorKind::Protocol,
    {
        self.ctx.peer_cert_notbefore()
    }

    /// The end of the peer certificate's validity window, as epoch
    /// seconds; an error before the handshake is complete.
    pub fn peer_cert_notafter(&self) -> (r: TlsResult<i64>)
        ensures
            self.ctx.peer is Some && self.ctx.peer->0.notafter != -1 ==> r is Ok && r->Ok_0
                == self.ctx.peer->0.notafter,
            !(self.ctx.peer is Some && self.ctx.peer->0.notafter != -1) ==> r is Err
                && r->Err_0.kind == ErrorKind::Protocol,
    {
        self.ctx.peer_cert_notafter()
    }

    /// Whether the peer certificate carries a name matching `name`
    /// (case-insensitive, wildcard-aware); `false` before the handshake
    /// is complete.
    pub fn peer_cert_contains_name(&self, name: &str) -> (r: bool)
        ensures
            r == (self.ctx.peer is Some && some_name_matches(
                self.ctx.peer->0.alt_names.deep_view(),
                name@,
            )),
    {
        self.ctx.peer_cert_contains_name(name)
    }

    /// The negotiated protocol version; the empty string before the
    /// handshake is complete.
    pub fn version(&self) -> (r: String)
        ensures
            self.ctx.peer is Some ==> r@ == self.ctx.peer->0.version@,
            self.ctx.peer is None ==> r@ == Seq::<char>::empty(),
    {
        self.ctx.conn_version()
    }

    /// The negotiated cipher; the empty string before the handshake is
    /// complete.
    pub fn cipher(&self) -> (r: String)
        ensures
            self.ctx.peer is Some ==> r@ == self.ctx.peer->0.cipher@,
            self.ctx.peer is None ==> r@ == Seq::<char>::empty(),
    {
        self.ctx.conn_cipher()
    }

    /// A reference to the object holding the underlying transport.
    pub fn inner(&self) -> (r: &T)
        ensures
            r == self.inner_stream,
    {
        &self.inner_stream
    }

    /// A mutable reference to the object holding the underlying
    /// transport.
    pub fn inner_mut(&mut self) -> (r: &mut T)
        ensures
            *r == old(self).inner_stream,
            final(self).inner_stream == *final(r),
            final(self).ctx == old(self).ctx,
    {
        &mut self.inner_stream
    }
}

/// Accumulates the configuration for a TLS server, latching the first
/// error.
#[derive(Debug)]
pub struct ServerBuilder {
    pub cfg: TlsConfig,
    pub error: Option<TlsError>,
}

impl ServerBuilder {
    /// Set the file to load the private key from.
    pub fn key_file(self, path: &str) -> (r: Self)
        ensures
            self.error is Some ==> r.cfg == self.cfg && r.error == self.error,
            self.error is None ==> r.error is None && r.cfg.key_file is Some
                && r.cfg.key_file->0@ == path@ && r.cfg == (TlsConfig {
                key_file: r.cfg.key_file,
                ..self.cfg
            }),
    {
        let mut b = self;
        if b.error.is_some() {
            return b;
        }
        let _ = b.cfg.set_key_file(path);
        b
    }

    /// Set the file to load the certificate from.
    pub fn cert_file(self, path: &str) -> (r: Self)
        ensures
            self.error is Some ==> r.cfg == self.cfg && r.error == self.error,
            self.error is None ==> r.error is None && r.cfg.cert_file is Some
                && r.cfg.cert_file->0@ == path@ && r.cfg == (TlsConfig {
                cert_file: r.cfg.cert_file,
                ..self.cfg
            }),
    {
        let mut b = self;
        if b.error.is_some() {
            return b;
        }
        let _ = b.cfg.set_cert_file(path);
        b
    }

    /// Create a server context from the accumulated settings.
    fn new_ctx(self, cfg_rv: i64, cfg_msg: &str) -> (r: TlsResult<TlsContext>)
        ensures
            self.error is Some ==> r is Err && r->Err_0 == self.error->0,
            self.error is None && cfg_rv == 0 ==> r is Ok && is_configured(
                r->Ok_0,
                Role::Server,
                self.cfg,
            ),
            self.error is None && cfg_rv != 0 ==> r is Err && r->Err_0.kind
                == ErrorKind::Configuration && r->Err_0.msg@ == cfg_msg@,
    {
        match self.error {
            Some(e) => Err(e),
            None => {
                let mut ctx = TlsContext::new_server().unwrap();
                match ctx.configure(self.cfg, cfg_rv, cfg_msg) {
                    Ok(_) => Ok(ctx),
                    Err(e) => Err(e),
                }
            },
        }
    }

    /// Produce the listening server. A key file and a certificate file
    /// are required; their absence surfaces here, as a configuration
    /// error, before the engine is consulted.
    pub fn bind(self, cfg_rv: i64, cfg_msg: &str) -> (r: TlsResult<TlsServer>)
        ensures
            self.error is Some ==> r is Err && r->Err_0 == self.error->0,
            self.error is None && (self.cfg.key_file is None || self.cfg.cert_file is None) ==> r
                is Err && r->Err_0.kind == ErrorKind::Configuration,
            self.error is None && self.cfg.key_file is Some && self.cfg.cert_file is Some && cfg_rv
                == 0 ==> r is Ok && is_configured(r->Ok_0.ctx, Role::Server, self.cfg),
            self.error is None && self.cfg.key_file is Some && self.cfg.cert_file is Some && cfg_rv
                != 0 ==> r is Err && r->Err_0.kind == ErrorKind::Configuration && r->Err_0.msg@
                == cfg_msg@,
    {
        if self.error.is_none() {
            if self.cfg.key_file.is_none() {
                return Err(TlsError {
                    kind: ErrorKind::Configuration,
                    msg: String::from_str("no key file set"),
                });
            }
            if self.cfg.cert_file.is_none() {
                return Err(TlsError {
                    kind: ErrorKind::Configuration,
                    msg: String::from_str("no certificate file set"),
                });
            }
        }
        match self.new_ctx(cfg_rv, cfg_msg) {
            Ok(ctx) => Ok(TlsServer { ctx }),
            Err(e) => Err(e),
        }
    }
}

/// Create a new TLS server builder. `init_ok` is the outcome of the
/// process-wide engine initialization; when it failed, the builder
/// starts with the error latched.
pub fn new_server(init_ok: bool) -> (r: ServerBuilder)
    ensures
        init_ok ==> r.error is None && is_default_config(r.cfg),
        !init_ok ==> r.error is Some && r.error->0.kind == ErrorKind::Protocol,
{
    let cfg = TlsConfig::new().unwrap();
    if init_ok {
        ServerBuilder { cfg, error: None }
    } else {
        ServerBuilder { cfg, error: Some(TlsError::new("failed to initialize the TLS engine")) }
    }
}

/// A listening TLS server: starts TLS sessions over transports that were
/// accepted at the network level by the caller.
#[derive(Debug)]
pub struct TlsServer {
    pub ctx: TlsContext,
}

impl TlsServer {
    /// Start a server-side TLS session over an existing transport handle
    /// without taking ownership of it. The listening context stays
    /// reusable for further accepts. `rv` is the engine's verdict.
    pub fn accept_socket(&mut self, fd: i32, rv: i64, msg: &str) -> (r: TlsResult<TlsStream<()>>)
        ensures
            final(self).ctx == old(self).ctx,
            !(old(self).ctx.role == Role::Server && (old(self).ctx.state == SessionState::Created
                || old(self).ctx.state == SessionState::Configured)) ==> is_usage_err(r),
            old(self).ctx.role == Role::Server && (old(self).ctx.state == SessionState::Created
                || old(self).ctx.state == SessionState::Configured) && rv == 0 ==> r is Ok
                && accepted_ctx(r->Ok_0.ctx, fd),
            old(self).ctx.role == Role::Server && (old(self).ctx.state == SessionState::Created
                || old(self).ctx.state == SessionState::Configured) && rv != 0 ==> r is Err
                && r->Err_0.kind == ErrorKind::Connect && r->Err_0.msg@ == msg@,
    {
        match self.ctx.accept_socket(fd, rv, msg) {
            Ok(ctx) => Ok(TlsStream { ctx, inner_stream: () }),
            Err(e) => Err(e),
        }
    }

    /// Start a server-side TLS session over the transport held by
    /// `inner_stream` (whose open handle is `fd`), consuming the holder:
    /// the stream keeps it alive and hands it back through `inner`.
    pub fn accept<F>(&mut self, inner_stream: F, fd: i32, rv: i64, msg: &str) -> (r: TlsResult<
        TlsStream<F>,
    >)
        ensures
            final(self).ctx == old(self).ctx,
            !(old(self).ctx.role == Role::Server && (old(self).ctx.state == SessionState::Created
                || old(self).ctx.state == SessionState::Configured)) ==> is_usage_err(r),
            old(self).ctx.role == Role::Server && (old(self).ctx.state == SessionState::Created
                || old(self).ctx.state == SessionState::Configured) && rv == 0 ==> r is Ok
                && accepted_ctx(r->Ok_0.ctx, fd) && r->Ok_0.inner_stream == inner_stream,
            old(self).ctx.role == Role::Server && (old(self).ctx.state == SessionState::Created
                || old(self).ctx.state == SessionState::Configured) && rv != 0 ==> r is Err
                && r->Err_0.kind == ErrorKind::Connect && r->Err_0.msg@ == msg@,
    {
        match self.ctx.accept_socket(fd, rv, msg) {
            Ok(ctx) => Ok(TlsStream { ctx, inner_stream }),
            Err(e) => Err(e),
        }
    }
}

} // verus!
