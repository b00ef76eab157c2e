//! TLS configuration options as plain values.
//!
//! A `TlsConfig` is the record of options that a session context is later
//! configured with: the CA source, key and certificate files, the protocol
//! version mask, the cipher specification, the verification depth and the
//! two insecure flags. The engine keeps pointers into the applied
//! configuration, so a context that was configured owns its `TlsConfig`
//! for the rest of its life.

use vstd::prelude::*;
use vstd::string::*;

use crate::err::{ErrorKind, TlsError, TlsResult};

verus! {

/// Protocol mask bit for TLS 1.0.
pub const PROTOCOL_TLSV1_0: u32 = 2;

/// Protocol mask bit for TLS 1.1.
pub const PROTOCOL_TLSV1_1: u32 = 4;

/// Protocol mask bit for TLS 1.2.
pub const PROTOCOL_TLSV1_2: u32 = 8;

/// Protocol mask selecting every TLS 1.x version.
pub const PROTOCOL_TLSV1: u32 = 14;

/// Protocol mask selected by the `all` and `legacy` tokens.
pub const PROTOCOLS_ALL: u32 = 14;

/// Protocol mask selected by the `default` and `secure` tokens, and the
/// mask a fresh configuration starts with.
pub const PROTOCOLS_DEFAULT: u32 = 8;

/// The verification depth a fresh configuration starts with.
pub const DEFAULT_VERIFY_DEPTH: i32 = 6;

/// The protocol mask denoted by a symbolic protocol token, or `None` when
/// the token is not one of the eight the library accepts.
pub open spec fn protocol_mask(s: Seq<char>) -> Option<u32> {
    if s == "all"@ || s == "legacy"@ {
        Some(PROTOCOLS_ALL)
    } else if s == "default"@ || s == "secure"@ {
        Some(PROTOCOLS_DEFAULT)
    } else if s == "tlsv1"@ {
        Some(PROTOCOL_TLSV1)
    } else if s == "tlsv1.0"@ {
        Some(PROTOCOL_TLSV1_0)
    } else if s == "tlsv1.1"@ {
        Some(PROTOCOL_TLSV1_1)
    } else if s == "tlsv1.2"@ {
        Some(PROTOCOL_TLSV1_2)
    } else {
        None
    }
}

/// Compares two string slices character by character.
pub fn str_eq(a: &str, b: &str) -> (r: bool)
    ensures
        r == (a@ == b@),
{
    let alen = a.unicode_len();
    let blen = b.unicode_len();
    if alen != blen {
        return false;
    }
    let mut i: usize = 0;
    while i < alen
        invariant
            alen == a@.len(),
            blen == b@.len(),
            alen == blen,
            i <= alen,
            forall|j: int| 0 <= j < i ==> a@[j] == b@[j],
        decreases alen - i,
    {
        if a.get_char(i) != b.get_char(i) {
            return false;
        }
        i = i + 1;
    }
    proof {
        assert(a@ =~= b@);
    }
    true
}

/// A configuration as `TlsConfig::new` hands it out: no CA, key or
/// certificate source, the default protocol mask and verification depth,
/// verification enabled.
pub open spec fn is_default_config(c: TlsConfig) -> bool {
    &&& c.ca_file is None
    &&& c.ca_path is None
    &&& c.ca_mem is None
    &&& c.key_file is None
    &&& c.cert_file is None
    &&& c.protocols == PROTOCOLS_DEFAULT
    &&& c.ciphers is None
    &&& c.verify_depth == DEFAULT_VERIFY_DEPTH
    &&& !c.noverifycert
    &&& !c.noverifyname
}

/// TLS configuration settings; see `TlsContext::configure` to apply them
/// to a session context.
#[derive(Debug)]
pub struct TlsConfig {
    pub ca_file: Option<String>,
    pub ca_path: Option<String>,
    pub ca_mem: Option<String>,
    pub key_file: Option<String>,
    pub cert_file: Option<String>,
    pub protocols: u32,
    pub ciphers: Option<String>,
    pub verify_depth: i32,
    pub noverifycert: bool,
    pub noverifyname: bool,
}

impl TlsConfig {
    /// A fresh configuration: no CA, key or certificate source, the
    /// default protocol mask and verification depth, verification enabled.
    pub fn new() -> (r: TlsResult<TlsConfig>)
        ensures
            r is Ok,
            is_default_config(r->Ok_0),
    {
        Ok(TlsConfig {
            ca_file: None,
            ca_path: None,
            ca_mem: None,
            key_file: None,
            cert_file: None,
            protocols: PROTOCOLS_DEFAULT,
            ciphers: None,
            verify_depth: DEFAULT_VERIFY_DEPTH,
            noverifycert: false,
            noverifyname: false,
        })
    }

    /// Records the PEM file to load CA certificates from.
    pub fn set_ca_file(&mut self, path: &str) -> (r: TlsResult<()>)
        ensures
            r is Ok,
            final(self).ca_file is Some && final(self).ca_file->0@ == path@,
            *final(self) == (TlsConfig { ca_file: final(self).ca_file, ..*old(self) }),
    {
        self.ca_file = Some(path.to_owned());
        Ok(())
    }

    /// Records the directory to load CA certificates from.
    pub fn set_ca_path(&mut self, path: &str) -> (r: TlsResult<()>)
        ensures
            r is Ok,
            final(self).ca_path is Some && final(self).ca_path->0@ == path@,
            *final(self) == (TlsConfig { ca_path: final(self).ca_path, ..*old(self) }),
    {
        self.ca_path = Some(path.to_owned());
        Ok(())
    }

    /// Records an in-memory PEM string to take CA certificates from.
    pub fn set_ca_mem(&mut self, ca: &str) -> (r: TlsResult<()>)
        ensures
            r is Ok,
            final(self).ca_mem is Some && final(self).ca_mem->0@ == ca@,
            *final(self) == (TlsConfig { ca_mem: final(self).ca_mem, ..*old(self) }),
    {
        self.ca_mem = Some(ca.to_owned());
        Ok(())
    }

    /// Records the file to load the private key from.
    pub fn set_key_file(&mut self, path: &str) -> (r: TlsResult<()>)
        ensures
            r is Ok,
            final(self).key_file is Some && final(self).key_file->0@ == path@,
            *final(self) == (TlsConfig { key_file: final(self).key_file, ..*old(self) }),
    {
        self.key_file = Some(path.to_owned());
        Ok(())
    }

    /// Records the file to load the certificate from.
    pub fn set_cert_file(&mut self, path: &str) -> (r: TlsResult<()>)
        ensures
            r is Ok,
            final(self).cert_file is Some && final(self).cert_file->0@ == path@,
            *final(self) == (TlsConfig { cert_file: final(self).cert_file, ..*old(self) }),
    {
        self.cert_file = Some(path.to_owned());
        Ok(())
    }

    /// Sets the maximum accepted certificate chain length; zero disables
    /// the chain-length check.
    pub fn set_verify_depth(&mut self, depth: i32)
        ensures
            *final(self) == (TlsConfig { verify_depth: depth, ..*old(self) }),
    {
        self.verify_depth = depth;
    }

    /// Disables verification of the server name against the certificate.
    pub fn insecure_noverifyname(&mut self)
        ensures
            *final(self) == (TlsConfig { noverifyname: true, ..*old(self) }),
    {
        self.noverifyname = true;
    }

    /// Disables verification of the peer certificate.
    pub fn insecure_noverifycert(&mut self)
        ensures
            *final(self) == (TlsConfig { noverifycert: true, ..*old(self) }),
    {
        self.noverifycert = true;
    }

    /// Selects the enabled protocol versions from a symbolic token. The
    /// accepted tokens are exactly `all`, `legacy`, `default`, `secure`,
    /// `tlsv1`, `tlsv1.0`, `tlsv1.1` and `tlsv1.2`; any other token is a
    /// configuration error and leaves the configuration unchanged.
    pub fn set_protocols(&mut self, protocols: &str) -> (r: TlsResult<()>)
        ensures
            r is Ok <==> protocol_mask(protocols@) is Some,
            protocol_mask(protocols@) is Some ==> *final(self) == (TlsConfig {
                protocols: protocol_mask(protocols@)->0,
                ..*old(self)
            }),
            protocol_mask(protocols@) is None ==> *final(self) == *old(self) && r
                is Err && r->Err_0.kind == ErrorKind::Configuration,
    {
        let mask: u32 = if str_eq(protocols, "all") || str_eq(protocols, "legacy") {
            PROTOCOLS_ALL
        } else if str_eq(protocols, "default") || str_eq(protocols, "secure") {
            PROTOCOLS_DEFAULT
        } else if str_eq(protocols, "tlsv1") {
            PROTOCOL_TLSV1
        } else if str_eq(protocols, "tlsv1.0") {
            PROTOCOL_TLSV1_0
        } else if str_eq(protocols, "tlsv1.1") {
            PROTOCOL_TLSV1_1
        } else if str_eq(protocols, "tlsv1.2") {
            PROTOCOL_TLSV1_2
        } else {
            return Err(TlsError { kind: ErrorKind::Configuration, msg: String::from_str(
                "invalid protocol specification",
            ) });
        };
        self.protocols = mask;
        Ok(())
    }

    /// Records the cipher specification string. Whether the string names
    /// ciphers the engine knows is decided by the engine when the
    /// configuration is applied.
    pub fn set_ciphers(&mut self, ciphers: &str) -> (r: TlsResult<()>)
        ensures
            r is Ok,
            final(self).ciphers is Some && final(self).ciphers->0@ == ciphers@,
            *final(self) == (TlsConfig { ciphers: final(self).ciphers, ..*old(self) }),
    {
        self.ciphers = Some(ciphers.to_owned());
        Ok(())
    }
}

} // verus!
