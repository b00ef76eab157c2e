use telos::err::{WANT_POLLIN, WANT_POLLOUT};
use telos::{init_outcome, ErrorKind, TlsConfig, TlsContext, TlsError};

#[test]
fn raw_connect_servername() {
    assert!(init_outcome(0));
    let mut cfg = TlsConfig::new().unwrap();
    cfg.set_ca_file("tests/cert.pem").unwrap();
    let mut cli = TlsContext::new_client().unwrap();
    cli.configure(cfg, 0, "").unwrap();
    cli.connect_servername("www.google.com", "443", "", 0, "").unwrap();
    cli.handshake(0, "").unwrap();
}

#[test]
fn error_connect_no_host() {
    assert!(init_outcome(0));
    let mut cfg = TlsConfig::new().unwrap();
    cfg.set_ca_file("tests/cert.pem").unwrap();
    let mut cli = TlsContext::new_client().unwrap();
    assert!(cli.connect_servername("", "443", "", 0, "").is_err());
}

#[test]
fn error_connect_no_port() {
    assert!(init_outcome(0));
    let mut cfg = TlsConfig::new().unwrap();
    cfg.set_ca_file("tests/cert.pem").unwrap();
    let mut cli = TlsContext::new_client().unwrap();
    assert!(cli.connect_servername("www.google.com", "", "", 0, "").is_err());
}

#[test]
fn port_folded_into_host() {
    let mut a = TlsContext::new_client().unwrap();
    a.connect_servername("example.com:443", "", "", 0, "").unwrap();
    let mut b = TlsContext::new_client().unwrap();
    b.connect_servername("example.com", "443", "", 0, "").unwrap();
    assert_eq!(a.target_host, b.target_host);
    assert_eq!(a.target_port, b.target_port);
    assert_eq!(a.servername, b.servername);
    assert_eq!(a.target_host, "example.com");
    assert_eq!(a.target_port, "443");
}

#[test]
fn split_host_port_cases() {
    let r = telos::ctx::split_host_port("example.com:443", "").unwrap();
    assert_eq!(r.0, "example.com");
    assert_eq!(r.1, "443");

    let r = telos::ctx::split_host_port("example.com", "443").unwrap();
    assert_eq!(r.0, "example.com");
    assert_eq!(r.1, "443");

    // The split happens at the last colon.
    let r = telos::ctx::split_host_port("fe80::1:443", "").unwrap();
    assert_eq!(r.0, "fe80::1");
    assert_eq!(r.1, "443");

    // No port anywhere.
    assert!(telos::ctx::split_host_port("example.com", "").is_none());
}

#[test]
fn servername_overrides_host() {
    let mut c = TlsContext::new_client().unwrap();
    c.connect_servername("example.com", "443", "other.name", 0, "").unwrap();
    assert_eq!(c.servername, "other.name");

    let mut d = TlsContext::new_client().unwrap();
    d.connect_servername("example.com", "443", "", 0, "").unwrap();
    assert_eq!(d.servername, "example.com");
}

#[test]
fn rv_mapping_for_io_verdicts() {
    let e = TlsContext::rv_to_result_io(WANT_POLLIN, "").unwrap_err();
    assert_eq!(e.kind, ErrorKind::WouldBlockRead);
    assert!(e.wants_more());
    assert!(e.want_pollin());
    assert!(!e.want_pollout());

    let e = TlsContext::rv_to_result_io(WANT_POLLOUT, "").unwrap_err();
    assert_eq!(e.kind, ErrorKind::WouldBlockWrite);
    assert!(e.wants_more());
    assert!(e.want_pollout());
    assert!(!e.want_pollin());

    let e = TlsContext::rv_to_result_io(-1, "fatal").unwrap_err();
    assert_eq!(e.kind, ErrorKind::Protocol);
    assert_eq!(e.msg, "fatal");
    assert!(!e.wants_more());

    assert_eq!(TlsContext::rv_to_result_io(0, "").unwrap(), 0);
    assert_eq!(TlsContext::rv_to_result_io(17, "").unwrap(), 17);
}

#[test]
fn rv_mapping_for_control_verdicts() {
    assert!(TlsContext::rv_to_result(0, ErrorKind::Connect, "").is_ok());
    let e = TlsContext::rv_to_result(-1, ErrorKind::Connect, "refused").unwrap_err();
    assert_eq!(e.kind, ErrorKind::Connect);
    assert_eq!(e.msg, "refused");
}

#[test]
fn error_accessors() {
    let e = TlsError::new("boom");
    assert_eq!(e.kind(), ErrorKind::Protocol);
    assert_eq!(e.message(), "boom");
}

#[test]
fn handshake_retries_then_completes() {
    let mut cli = TlsContext::new_client().unwrap();
    cli.connect_servername("example.com", "443", "", 0, "").unwrap();

    let e = cli.handshake(WANT_POLLIN, "").unwrap_err();
    assert!(e.wants_more());
    let e = cli.handshake(WANT_POLLOUT, "").unwrap_err();
    assert!(e.wants_more());
    cli.handshake(0, "").unwrap();

    // The session is established: one more handshake is refused.
    let e = cli.handshake(0, "").unwrap_err();
    assert_eq!(e.kind, ErrorKind::Usage);
}

#[test]
fn read_write_verdicts() {
    let mut cli = TlsContext::new_client().unwrap();

    // Not connected yet: reads and writes are refused outright.
    let e = cli.read(0, "").unwrap_err();
    assert_eq!(e.kind, ErrorKind::Usage);

    cli.connect_servername("example.com", "443", "", 0, "").unwrap();
    cli.handshake(0, "").unwrap();

    assert_eq!(cli.write(5, "").unwrap(), 5);
    assert_eq!(cli.read(3, "").unwrap(), 3);
    // Zero bytes read is a clean peer-initiated close, not an error.
    assert_eq!(cli.read(0, "").unwrap(), 0);

    let e = cli.read(WANT_POLLIN, "").unwrap_err();
    assert!(e.wants_more());
    let e = cli.write(WANT_POLLOUT, "").unwrap_err();
    assert!(e.wants_more());

    let e = cli.read(-1, "connection reset").unwrap_err();
    assert_eq!(e.kind, ErrorKind::Protocol);
    assert_eq!(e.msg, "connection reset");
}

#[test]
fn read_completes_handshake_implicitly() {
    let mut cli = TlsContext::new_client().unwrap();
    cli.connect_servername("example.com", "443", "", 0, "").unwrap();

    // A successful read implies the engine finished the handshake.
    assert_eq!(cli.read(4, "").unwrap(), 4);
    let e = cli.handshake(0, "").unwrap_err();
    assert_eq!(e.kind, ErrorKind::Usage);
}

#[test]
fn close_lifecycle() {
    let mut cli = TlsContext::new_client().unwrap();

    // Close before any handshake is a usage error.
    let e = cli.close(0, "").unwrap_err();
    assert_eq!(e.kind, ErrorKind::Usage);

    cli.connect_servername("example.com", "443", "", 0, "").unwrap();
    let e = cli.close(0, "").unwrap_err();
    assert_eq!(e.kind, ErrorKind::Usage);

    cli.handshake(0, "").unwrap();

    // The engine may ask for one more round to exchange the closing
    // notification.
    let e = cli.close(WANT_POLLIN, "").unwrap_err();
    assert!(e.wants_more());
    cli.close(0, "").unwrap();

    // A second close after a successful one is a usage error.
    let e = cli.close(0, "").unwrap_err();
    assert_eq!(e.kind, ErrorKind::Usage);
}

#[test]
fn accept_gives_fresh_context() {
    let mut srv = TlsContext::new_server().unwrap();
    let mut cfg = TlsConfig::new().unwrap();
    cfg.set_key_file("tests/private_key.key").unwrap();
    cfg.set_cert_file("tests/certificate.crt").unwrap();
    srv.configure(cfg, 0, "").unwrap();

    let conn = srv.accept_socket(7, 0, "").unwrap();
    assert_eq!(conn.fd, Some(7));
    assert_eq!(conn.conn_version(), "");

    // The listening context stays reusable.
    let conn2 = srv.accept_socket(8, 0, "").unwrap();
    assert_eq!(conn2.fd, Some(8));
}

#[test]
fn client_cannot_accept_server_cannot_connect() {
    let mut cli = TlsContext::new_client().unwrap();
    let e = cli.accept_socket(3, 0, "").unwrap_err();
    assert_eq!(e.kind, ErrorKind::Usage);

    let mut srv = TlsContext::new_server().unwrap();
    let e = srv.connect_servername("example.com", "443", "", 0, "").unwrap_err();
    assert_eq!(e.kind, ErrorKind::Usage);
    let e = srv.connect_socket(3, "", 0, "").unwrap_err();
    assert_eq!(e.kind, ErrorKind::Usage);
}

#[test]
fn peer_info_is_reported_once_attached() {
    let mut cli = TlsContext::new_client().unwrap();
    cli.connect_servername("example.com", "443", "", 0, "").unwrap();

    // Before the handshake completes, peer facts cannot be recorded.
    let info = telos::PeerInfo::empty();
    assert!(cli.attach_peer_info(info).is_err());

    cli.handshake(0, "").unwrap();
    let info = telos::PeerInfo {
        version: "TLSv1.2".to_owned(),
        cipher: "ECDHE-RSA-AES256-GCM-SHA384".to_owned(),
        issuer: "/CN=Example CA".to_owned(),
        subject: "/CN=example.com".to_owned(),
        hash: "SHA256:0f".to_owned(),
        provided: true,
        notbefore: 1400000000,
        notafter: 1700000000,
        alt_names: vec!["example.com".to_owned(), "*.example.org".to_owned()],
    };
    cli.attach_peer_info(info).unwrap();

    assert_eq!(cli.conn_version(), "TLSv1.2");
    assert_eq!(cli.conn_cipher(), "ECDHE-RSA-AES256-GCM-SHA384");
    assert_eq!(cli.peer_cert_issuer(), "/CN=Example CA");
    assert_eq!(cli.peer_cert_subject(), "/CN=example.com");
    assert_eq!(cli.peer_cert_hash(), "SHA256:0f");
    assert!(cli.peer_cert_provided());
    assert_eq!(cli.peer_cert_notbefore().unwrap(), 1400000000);
    assert_eq!(cli.peer_cert_notafter().unwrap(), 1700000000);

    assert!(cli.peer_cert_contains_name("example.com"));
    assert!(cli.peer_cert_contains_name("EXAMPLE.com"));
    assert!(cli.peer_cert_contains_name("www.example.org"));
    assert!(!cli.peer_cert_contains_name("example.org"));
    assert!(!cli.peer_cert_contains_name("a.b.example.org"));
    assert!(!cli.peer_cert_contains_name("example.net"));
}

#[test]
fn absent_certificate_dates_are_errors() {
    let mut cli = TlsContext::new_client().unwrap();
    cli.connect_servername("example.com", "443", "", 0, "").unwrap();
    cli.handshake(0, "").unwrap();
    cli.attach_peer_info(telos::PeerInfo::empty()).unwrap();
    assert!(cli.peer_cert_notbefore().is_err());
    assert!(cli.peer_cert_notafter().is_err());
}
