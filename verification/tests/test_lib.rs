use telos::{init_outcome, TlsConfig, TlsContext};

#[test]
fn test_init() {
    assert_eq!(init_outcome(0), true);
    assert_eq!(init_outcome(0), true);
}

#[test]
fn lib_test_init() {
    init_outcome(0);
}

#[test]
fn init_failure_is_reported() {
    assert_eq!(init_outcome(-1), false);
    assert_eq!(init_outcome(1), false);
}

#[test]
fn test_protocols() {
    let mut cfg = TlsConfig::new().unwrap();

    // The following are all supported
    cfg.set_protocols("all").unwrap();
    cfg.set_protocols("legacy").unwrap();
    cfg.set_protocols("default").unwrap();
    cfg.set_protocols("secure").unwrap();
    cfg.set_protocols("tlsv1").unwrap();
    cfg.set_protocols("tlsv1.0").unwrap();
    cfg.set_protocols("tlsv1.1").unwrap();
    cfg.set_protocols("tlsv1.2").unwrap();

    // This is not valid
    assert!(cfg.set_protocols("unknown-proto").is_err());
}

#[test]
fn lib_test_protocols() {
    let mut cfg = TlsConfig::new().unwrap();

    cfg.set_protocols("all").unwrap();
    cfg.set_protocols("legacy").unwrap();
    cfg.set_protocols("default").unwrap();
    cfg.set_protocols("secure").unwrap();
    cfg.set_protocols("tlsv1").unwrap();
    cfg.set_protocols("tlsv1.0").unwrap();
    cfg.set_protocols("tlsv1.1").unwrap();
    cfg.set_protocols("tlsv1.2").unwrap();

    assert!(cfg.set_protocols("unknown-proto").is_err());
}

#[test]
fn protocol_masks_are_exact() {
    let mut cfg = TlsConfig::new().unwrap();
    assert_eq!(cfg.protocols, telos::config::PROTOCOLS_DEFAULT);

    cfg.set_protocols("all").unwrap();
    assert_eq!(cfg.protocols, 14);
    cfg.set_protocols("legacy").unwrap();
    assert_eq!(cfg.protocols, 14);
    cfg.set_protocols("default").unwrap();
    assert_eq!(cfg.protocols, 8);
    cfg.set_protocols("secure").unwrap();
    assert_eq!(cfg.protocols, 8);
    cfg.set_protocols("tlsv1").unwrap();
    assert_eq!(cfg.protocols, 14);
    cfg.set_protocols("tlsv1.0").unwrap();
    assert_eq!(cfg.protocols, 2);
    cfg.set_protocols("tlsv1.1").unwrap();
    assert_eq!(cfg.protocols, 4);
    cfg.set_protocols("tlsv1.2").unwrap();
    assert_eq!(cfg.protocols, 8);

    // An unknown token leaves the mask as it was.
    assert!(cfg.set_protocols("unknown-proto").is_err());
    assert_eq!(cfg.protocols, 8);
}

#[test]
fn client_ctx_defs() {
    let c = TlsContext::new_client().unwrap();

    // These are the defaults before the connection is set
    assert_eq!(c.conn_version(), "");
    assert_eq!(c.conn_cipher(), "");
    assert!(c.peer_cert_notbefore().is_err());
    assert!(c.peer_cert_notafter().is_err());
    assert_eq!(c.peer_cert_issuer(), "");
    assert_eq!(c.peer_cert_subject(), "");
    assert_eq!(c.peer_cert_hash(), "");
    assert_eq!(c.peer_cert_contains_name("some.name"), false);
    assert_eq!(c.peer_cert_provided(), false);
}

#[test]
fn lib_client_ctx_defs() {
    let c = TlsContext::new_client().unwrap();

    assert_eq!(c.conn_version(), "");
    assert_eq!(c.conn_cipher(), "");
    assert!(c.peer_cert_notbefore().is_err());
    assert!(c.peer_cert_notafter().is_err());
    assert_eq!(c.peer_cert_issuer(), "");
    assert_eq!(c.peer_cert_subject(), "");
    assert_eq!(c.peer_cert_hash(), "");
    assert_eq!(c.peer_cert_contains_name("some.name"), false);
    assert_eq!(c.peer_cert_provided(), false);
}

#[test]
fn test_lib_client_ctx_defs() {
    assert!(init_outcome(0));

    let c = TlsContext::new_client().unwrap();

    assert_eq!(c.conn_version(), "");
    assert_eq!(c.conn_cipher(), "");
    assert!(c.peer_cert_notbefore().is_err());
    assert!(c.peer_cert_notafter().is_err());
    assert_eq!(c.peer_cert_issuer(), "");
    assert_eq!(c.peer_cert_subject(), "");
    assert_eq!(c.peer_cert_hash(), "");
    assert_eq!(c.peer_cert_contains_name("some.name"), false);
    assert_eq!(c.peer_cert_provided(), false);
}
