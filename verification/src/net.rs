//! A smaller, connection-oriented API over the same session machinery:
//! `TlsConnection` configures and dials a client session in one step,
//! `TlsListener` accepts server sessions, and both drive the handshake
//! eagerly, absorbing a single retry sentinel.

use vstd::prelude::*;
use vstd::string::*;

use crate::config::{is_default_config, TlsConfig};
use crate::ctx::{
    accepted_established, established_client, io_post, is_usage_err, shutdown_post,
    split_hostport, Role, SessionState, TlsContext,
};
use crate::err::{is_retry_rv, retry_kind, ErrorKind, TlsError, TlsResult};

verus! {

/// Accumulates the configuration for a client connection that is dialed
/// and handshaken in one step.
#[derive(Debug)]
pub struct TlsConnection {
    pub cfg: TlsConfig,
}

impl TlsConnection {
    /// A connection in the making, with a fresh default configuration.
    pub fn new() -> (r: TlsResult<TlsConnection>)
        ensures
            r is Ok,
            is_default_config(r->Ok_0.cfg),
    {
        match TlsConfig::new() {
            Ok(cfg) => Ok(TlsConnection { cfg }),
            Err(e) => Err(e),
        }
    }

    /// Load CA certificates from a PEM file.
    pub fn set_ca_file(&mut self, path: &str) -> (r: TlsResult<()>)
        ensures
            r is Ok,
            final(self).cfg.ca_file is Some && final(self).cfg.ca_file->0@ == path@,
            final(self).cfg == (TlsConfig { ca_file: final(self).cfg.ca_file, ..old(self).cfg }),
    {
        self.cfg.set_ca_file(path)
    }

    /// Load CA certificates from a directory.
    pub fn set_ca_path(&mut self, path: &str) -> (r: TlsResult<()>)
        ensures
            r is Ok,
            final(self).cfg.ca_path is Some && final(self).cfg.ca_path->0@ == path@,
            final(self).cfg == (TlsConfig { ca_path: final(self).cfg.ca_path, ..old(self).cfg }),
    {
        self.cfg.set_ca_path(path)
    }

    /// Use CA certificates from a PEM string.
    pub fn set_ca_mem(&mut self, ca: &str) -> (r: TlsResult<()>)
        ensures
            r is Ok,
            final(self).cfg.ca_mem is Some && final(self).cfg.ca_mem->0@ == ca@,
            final(self).cfg == (TlsConfig { ca_mem: final(self).cfg.ca_mem, ..old(self).cfg }),
    {
        self.cfg.set_ca_mem(ca)
    }

    /// Set the maximum accepted certificate chain length; zero disables
    /// the chain-length check.
    pub fn set_verify_depth(&mut self, depth: i32)
        ensures
            final(self).cfg == (TlsConfig { verify_depth: depth, ..old(self).cfg }),
    {
        self.cfg.set_verify_depth(depth)
    }

    /// Select the enabled protocol versions from a symbolic token.
    pub fn set_protocols(&mut self, protocols: &str) -> (r: TlsResult<()>)
        ensures
            r is Ok <==> crate::config::protocol_mask(protocols@) is Some,
            crate::config::protocol_mask(protocols@) is Some ==> final(self).cfg == (TlsConfig {
                protocols: crate::config::protocol_mask(protocols@)->0,
                ..old(self).cfg
            }),
            crate::config::protocol_mask(protocols@) is None ==> final(self).cfg == old(self).cfg
                && r is Err && r->Err_0.kind == ErrorKind::Configuration,
    {
        self.cfg.set_protocols(protocols)
    }

    /// Set the cipher specification string.
    pub fn set_ciphers(&mut self, ciphers: &str) -> (r: TlsResult<()>)
        ensures
            r is Ok,
            final(self).cfg.ciphers is Some && final(self).cfg.ciphers->0@ == ciphers@,
            final(self).cfg == (TlsConfig { ciphers: final(self).cfg.ciphers, ..old(self).cfg }),
    {
        self.cfg.set_ciphers(ciphers)
    }

    /// Disable certificate verification.
    pub fn insecure_noverifycert(&mut self)
        ensures
            final(self).cfg == (TlsConfig { noverifycert: true, ..old(self).cfg }),
    {
        self.cfg.insecure_noverifycert()
    }

    /// Disable hostname verification.
    pub fn insecure_noverifyname(&mut self)
        ensures
            final(self).cfg == (TlsConfig { noverifyname: true, ..old(self).cfg }),
    {
        self.cfg.insecure_noverifyname()
    }

    /// Connect to `hostname`/`port` and complete the handshake, absorbing
    /// a single retry sentinel. `cfg_rv`, `conn_rv` and `hs_rv1` are the
    /// engine's verdicts on configuring, connecting and the first
    /// handshake round; `hs_rv2` is consulted only when the first round
    /// reported a retry sentinel.
    pub fn connect(
        self,
        hostname: &str,
        port: &str,
        cfg_rv: i64,
        cfg_msg: &str,
        conn_rv: i64,
        conn_msg: &str,
        hs_rv1: i64,
        hs_rv2: i64,
        hs_msg: &str,
    ) -> (r: TlsResult<TlsStream>)
        ensures
            cfg_rv != 0 ==> r is Err && r->Err_0.kind == ErrorKind::Configuration && r->Err_0.msg@
                == cfg_msg@,
            cfg_rv == 0 ==> match split_hostport(hostname@, port@) {
                None => r is Err && r->Err_0.kind == ErrorKind::Connect && r->Err_0.msg@
                    == "no port provided"@,
                Some(hp) => if hp.0.len() == 0 {
                    r is Err && r->Err_0.kind == ErrorKind::Connect && r->Err_0.msg@
                        == "no host provided"@
                } else if conn_rv != 0 {
                    r is Err && r->Err_0.kind == ErrorKind::Connect && r->Err_0.msg@ == conn_msg@
                } else if hs_rv1 >= 0 {
                    r is Ok && established_client(r->Ok_0.ctx, self.cfg, hp.0, hp.1, hp.0)
                } else if is_retry_rv(hs_rv1) {
                    if hs_rv2 >= 0 {
                        r is Ok && established_client(r->Ok_0.ctx, self.cfg, hp.0, hp.1, hp.0)
                    } else if is_retry_rv(hs_rv2) {
                        r is Err && r->Err_0.kind == retry_kind(hs_rv2) && r->Err_0.msg@
                            == Seq::<char>::empty()
                    } else {
                        r is Err && r->Err_0.kind == ErrorKind::Protocol && r->Err_0.msg@
                            == hs_msg@
                    }
                } else {
                    r is Err && r->Err_0.kind == ErrorKind::Protocol && r->Err_0.msg@ == hs_msg@
                },
            },
    {
        proof {
            reveal_strlit("");
        }
        let mut ctx = match TlsStream::new_client() {
            Ok(c) => c,
            Err(e) => {
                return Err(e);
            },
        };
        match ctx.configure(self.cfg, cfg_rv, cfg_msg) {
            Ok(_) => {},
            Err(e) => {
                return Err(e);
            },
        }
        match ctx.connect_servername(hostname, port, "", conn_rv, conn_msg) {
            Ok(_) => {},
            Err(e) => {
                return Err(e);
            },
        }
        match ctx.handshake(hs_rv1, hs_msg) {
            Ok(_) => Ok(TlsStream { ctx }),
            Err(e) => {
                if e.wants_more() {
                    match ctx.handshake(hs_rv2, hs_msg) {
                        Ok(_) => Ok(TlsStream { ctx }),
                        Err(e2) => Err(e2),
                    }
                } else {
                    Err(e)
                }
            },
        }
    }
}

/// An established TLS session produced by `TlsConnection` or
/// `TlsListener`.
#[derive(Debug)]
pub struct TlsStream {
    pub ctx: TlsContext,
}

impl TlsStream {
    /// A fresh client context for `TlsConnection::connect`.
    fn new_client() -> (r: TlsResult<TlsContext>)
        ensures
            r is Ok,
            crate::ctx::is_fresh(r->Ok_0, Role::Client),
    {
        TlsContext::new_client()
    }

    /// Close the TLS session; the underlying transport stays open. The
    /// engine may need one extra round for the closing notification
    /// (`rv1` a retry sentinel), in which case the close is repeated
    /// exactly once with verdict `rv2`.
    pub fn shutdown(&mut self, rv1: i64, rv2: i64, msg: &str) -> (r: TlsResult<()>)
        ensures
            shutdown_post(old(self).ctx, rv1, rv2, msg@, final(self).ctx, r),
    {
        match self.ctx.close(rv1, msg) {
            Ok(_) => Ok(()),
            Err(e) => {
                if e.wants_more() {
                    match self.ctx.close(rv2, msg) {
                        Ok(_) => Ok(()),
                        Err(e2) => Err(e2),
                    }
                } else {
                    Err(e)
                }
            },
        }
    }

    /// The peer certificate's issuer; the empty string before peer facts
    /// were recorded.
    pub fn certificate_issuer(&self) -> (r: String)
        ensures
            self.ctx.peer is Some ==> r@ == self.ctx.peer->0.issuer@,
            self.ctx.peer is None ==> r@ == Seq::<char>::empty(),
    {
        self.ctx.peer_cert_issuer()
    }

    /// The peer certificate's hash; the empty string before peer facts
    /// were recorded.
    pub fn certificate_hash(&self) -> (r: String)
        ensures
            self.ctx.peer is Some ==> r@ == self.ctx.peer->0.hash@,
            self.ctx.peer is None ==> r@ == Seq::<char>::empty(),
    {
        self.ctx.peer_cert_hash()
    }

    /// The peer certificate's subject; the empty string before peer
    /// facts were recorded.
    pub fn certificate_subject(&self) -> (r: String)
        ensures
            self.ctx.peer is Some ==> r@ == self.ctx.peer->0.subject@,
            self.ctx.peer is None ==> r@ == Seq::<char>::empty(),
    {
        self.ctx.peer_cert_subject()
    }

    /// The negotiated protocol version; the empty string before peer
    /// facts were recorded.
    pub fn version(&self) -> (r: String)
        ensures
            self.ctx.peer is Some ==> r@ == self.ctx.peer->0.version@,
            self.ctx.peer is None ==> r@ == Seq::<char>::empty(),
    {
        self.ctx.conn_version()
    }

    /// The negotiated cipher; the empty string before peer facts were
    /// recorded.
    pub fn cipher(&self) -> (r: String)
        ensures
            self.ctx.peer is Some ==> r@ == self.ctx.peer->0.cipher@,
            self.ctx.peer is None ==> r@ == Seq::<char>::empty(),
    {
        self.ctx.conn_cipher()
    }

    /// One read step, on the engine's verdict `rv`; a count of zero
    /// denotes a clean peer-initiated close.
    pub fn read(&mut self, rv: i64, msg: &str) -> (r: TlsResult<usize>)
        requires
            rv as int <= usize::MAX as int,
        ensures
            io_post(old(self).ctx, rv, msg@, final(self).ctx, r),
    {
        self.ctx.read(rv, msg)
    }

    /// One write step, on the engine's verdict `rv`.
    pub fn write(&mut self, rv: i64, msg: &str) -> (r: TlsResult<usize>)
        requires
            rv as int <= usize::MAX as int,
        ensures
            io_post(old(self).ctx, rv, msg@, final(self).ctx, r),
    {
        self.ctx.write(rv, msg)
    }
}

/// Accumulates the configuration for a TLS listener.
#[derive(Debug)]
pub struct TlsListenerBuilder {
    pub cfg: TlsConfig,
}

impl TlsListenerBuilder {
    /// Set the file to load the private key from.
    pub fn set_key_file(&mut self, path: &str) -> (r: TlsResult<()>)
        ensures
            r is Ok,
            final(self).cfg.key_file is Some && final(self).cfg.key_file->0@ == path@,
            final(self).cfg == (TlsConfig { key_file: final(self).cfg.key_file, ..old(self).cfg }),
    {
        self.cfg.set_key_file(path)
    }

    /// Set the file to load the certificate from.
    pub fn set_cert_file(&mut self, path: &str) -> (r: TlsResult<()>)
        ensures
            r is Ok,
            final(self).cfg.cert_file is Some && final(self).cfg.cert_file->0@ == path@,
            final(self).cfg == (TlsConfig {
                cert_file: final(self).cfg.cert_file,
                ..old(self).cfg
            }),
    {
        self.cfg.set_cert_file(path)
    }

    /// Produce the listener. A key file and a certificate file are
    /// required; their absence surfaces here, as a configuration error,
    /// before the engine is consulted. `cfg_rv` is the engine's verdict
    /// on the configuration.
    pub fn bind(self, cfg_rv: i64, cfg_msg: &str) -> (r: TlsResult<TlsListener>)
        ensures
            self.cfg.key_file is None || self.cfg.cert_file is None ==> r is Err && r->Err_0.kind
                == ErrorKind::Configuration,
            self.cfg.key_file is Some && self.cfg.cert_file is Some && cfg_rv == 0 ==> r is Ok
                && crate::ctx::is_configured(r->Ok_0.ctx, Role::Server, self.cfg),
            self.cfg.key_file is Some && self.cfg.cert_file is Some && cfg_rv != 0 ==> r is Err
                && r->Err_0.kind == ErrorKind::Configuration && r->Err_0.msg@ == cfg_msg@,
    {
        if self.cfg.key_file.is_none() {
            return Err(TlsError {
                kind: ErrorKind::Configuration,
                msg: String::from_str("no key file set"),
            });
        }
        if self.cfg.cert_file.is_none() {
            return Err(TlsError {
                kind: ErrorKind::Configuration,
                msg: String::from_str("no certificate file set"),
            });
        }
        let mut srv = match TlsListener::new_server() {
            Ok(c) => c,
            Err(e) => {
                return Err(e);
            },
        };
        match srv.configure(self.cfg, cfg_rv, cfg_msg) {
            Ok(_) => Ok(TlsListener { ctx: srv }),
            Err(e) => Err(e),
        }
    }
}

/// A listening TLS endpoint: starts server sessions over transports that
/// were accepted at the network level by the caller.
#[derive(Debug)]
pub struct TlsListener {
    pub ctx: TlsContext,
}

impl TlsListener {
    /// A fresh server context for `TlsListenerBuilder::bind`.
    fn new_server() -> (r: TlsResult<TlsContext>)
        ensures
            r is Ok,
            crate::ctx::is_fresh(r->Ok_0, Role::Server),
    {
        TlsContext::new_server()
    }

    /// A listener builder with a fresh default configuration.
    pub fn new() -> (r: TlsResult<TlsListenerBuilder>)
        ensures
            r is Ok,
            is_default_config(r->Ok_0.cfg),
    {
        match TlsConfig::new() {
            Ok(cfg) => Ok(TlsListenerBuilder { cfg }),
            Err(e) => Err(e),
        }
    }

    /// Start a server session over an accepted transport handle and
    /// drive the handshake eagerly, absorbing a single retry sentinel.
    /// The listening context stays reusable. `acc_rv` is the engine's
    /// verdict on the accept; `hs_rv1` on the first handshake round;
    /// `hs_rv2` is consulted only when the first round reported a retry
    /// sentinel. On a reactive server the handshake may report success
    /// before the peer has sent a byte; that is the engine's documented
    /// behaviour and is passed through as such.
    pub fn accept(&mut self, fd: i32, acc_rv: i64, acc_msg: &str, hs_rv1: i64, hs_rv2: i64, hs_msg: &str) -> (r:
        TlsResult<TlsStream>)
        ensures
            final(self).ctx == old(self).ctx,
            !(old(self).ctx.role == Role::Server && (old(self).ctx.state == SessionState::Created
                || old(self).ctx.state == SessionState::Configured)) ==> is_usage_err(r),
            old(self).ctx.role == Role::Server && (old(self).ctx.state == SessionState::Created
                || old(self).ctx.state == SessionState::Configured) ==> if acc_rv != 0 {
                r is Err && r->Err_0.kind == ErrorKind::Connect && r->Err_0.msg@ == acc_msg@
            } else if hs_rv1 >= 0 {
                r is Ok && accepted_established(r->Ok_0.ctx, fd)
            } else if is_retry_rv(hs_rv1) {
                if hs_rv2 >= 0 {
                    r is Ok && accepted_established(r->Ok_0.ctx, fd)
                } else if is_retry_rv(hs_rv2) {
                    r is Err && r->Err_0.kind == retry_kind(hs_rv2) && r->Err_0.msg@
                        == Seq::<char>::empty()
                } else {
                    r is Err && r->Err_0.kind == ErrorKind::Protocol && r->Err_0.msg@ == hs_msg@
                }
            } else {
                r is Err && r->Err_0.kind == ErrorKind::Protocol && r->Err_0.msg@ == hs_msg@
            },
    {
        let mut c = match self.ctx.accept_socket(fd, acc_rv, acc_msg) {
            Ok(c) => c,
            Err(e) => {
                return Err(e);
            },
        };
        match c.handshake(hs_rv1, hs_msg) {
            Ok(_) => Ok(TlsStream { ctx: c }),
            Err(e) => {
                if e.wants_more() {
                    match c.handshake(hs_rv2, hs_msg) {
                        Ok(_) => Ok(TlsStream { ctx: c }),
                        Err(e2) => Err(e2),
                    }
                } else {
                    Err(e)
                }
            },
        }
    }
}

} // verus!
