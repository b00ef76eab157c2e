use telos::{init_outcome, new_client, ErrorKind};

#[test]
fn ca_invalid() {
    assert!(init_outcome(0));
    // This fails because the engine rejects the configuration: there is
    // no CA file behind the empty path.
    let cli = new_client(true).ca_path(".").ca_file("").connect_servername(
        "www.google.com",
        "443",
        "",
        -1,
        "failed to load CA file",
        0,
        "",
    );
    assert!(cli.is_err());
}

#[test]
fn ca_string() {
    assert!(init_outcome(0));

    let pem = "-----BEGIN CERTIFICATE-----\nMIIB\n-----END CERTIFICATE-----\n";
    let mut cli = new_client(true)
        .ca(pem)
        .connect_servername("www.google.com", "443", "", 0, "", 0, "")
        .unwrap();
    cli.handshake(0, "").unwrap();
}

#[test]
fn ca_string_invalid() {
    assert!(init_outcome(0));

    // The engine rejects the malformed PEM when the configuration is
    // applied.
    let cli = new_client(true).ca("--INVALID PEM").connect_servername(
        "www.google.com",
        "443",
        "",
        -1,
        "failed to parse CA certificate",
        0,
        "",
    );
    assert!(cli.is_err());
}

#[test]
fn connect_hostport() {
    assert!(init_outcome(0));
    let mut cli = new_client(true)
        .ca_file("tests/cert.pem")
        .connect_servername("www.google.com:443", "", "", 0, "", 0, "")
        .unwrap();
    cli.handshake(0, "").unwrap();
}

#[test]
fn test_client_builder_connect_servername() {
    assert!(init_outcome(0));
    let mut cli = new_client(true)
        .ca_file("tests/cert.pem")
        .connect_servername("www.google.com", "443", "www.google.com", 0, "", 0, "")
        .unwrap();
    cli.handshake(0, "").unwrap();
}

#[test]
fn connect_socket() {
    let mut cli = new_client(true)
        .ca_file("tests/cert.pem")
        .connect_socket(9, "www.google.com", 0, "", 0, "")
        .unwrap();
    cli.handshake(0, "").unwrap();
}

#[test]
fn double_handshake_is_error() {
    assert!(init_outcome(0));

    let mut cli = new_client(true)
        .ca_file("tests/cert.pem")
        .connect_servername("www.google.com", "443", "", 0, "", 0, "")
        .unwrap();

    cli.handshake(0, "").unwrap();
    assert!(cli.handshake(0, "").is_err());
}

#[test]
fn verify_depth() {
    assert!(init_outcome(0));

    // With a verification depth of zero, the engine rejects a multi-level
    // chain during the handshake.
    let mut cli = new_client(true)
        .ca_file("tests/cert.pem")
        .verify_depth(0)
        .connect_servername("www.google.com", "443", "", 0, "", 0, "")
        .unwrap();
    assert!(cli.handshake(-1, "certificate chain too long").is_err());
}

#[test]
fn insecure_flags_allow_any_certificate() {
    // With both insecure flags set the engine skips verification, so the
    // handshake against an arbitrary certificate succeeds.
    let b = new_client(true).insecure_noverifycert().insecure_noverifyname();
    assert!(b.cfg.noverifycert);
    assert!(b.cfg.noverifyname);
    let mut cli = b.connect_servername("self-signed.test", "443", "", 0, "", 0, "").unwrap();
    cli.handshake(0, "").unwrap();
}

#[test]
fn builder_latches_first_error() {
    // The unknown protocol token is the first error; everything after it
    // is a no-op and the error surfaces when the builder is consumed.
    let b = new_client(true).protocols("unknown-proto").ca_file("tests/cert.pem").verify_depth(3);
    assert!(b.error.is_some());
    assert!(b.cfg.ca_file.is_none());
    assert_eq!(b.cfg.verify_depth, telos::config::DEFAULT_VERIFY_DEPTH);
    let e = b.connect_servername("www.google.com", "443", "", 0, "", 0, "").unwrap_err();
    assert_eq!(e.kind, ErrorKind::Configuration);
}

#[test]
fn failed_init_aborts_builders() {
    let ok = init_outcome(-1);
    assert!(!ok);
    // Every mutator is a no-op on the latched initialization error, and
    // it surfaces at the connection entry point.
    let b = new_client(ok).ca_file("tests/cert.pem").protocols("all");
    assert!(b.error.is_some());
    assert!(b.connect_servername("www.google.com", "443", "", 0, "", 0, "").is_err());
}
