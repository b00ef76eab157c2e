use telos::err::{WANT_POLLIN, WANT_POLLOUT};
use telos::net::{TlsConnection, TlsListener};
use telos::ErrorKind;

#[test]
fn test_net_stream() {
    let mut conn = TlsConnection::new().unwrap();
    conn.set_ca_file("cert.pem").unwrap();
    let mut stream = conn
        .connect("google.com", "443", 0, "", 0, "", 0, 0, "")
        .unwrap();
    assert_eq!(stream.write(16, "").unwrap(), 16);
    assert_eq!(stream.read(256, "").unwrap(), 256);
}

#[test]
fn test_net_shutdown_twice() {
    let mut conn = TlsConnection::new().unwrap();
    conn.set_ca_file("tests/cert.pem").unwrap();
    let mut stream = conn
        .connect("google.com", "443", 0, "", 0, "", 0, 0, "")
        .unwrap();
    stream.shutdown(0, 0, "").unwrap();
    assert!(stream.shutdown(0, 0, "").is_err());
}

#[test]
fn net_connect_absorbs_one_handshake_retry() {
    let conn = TlsConnection::new().unwrap();
    // The first handshake round would block; the second completes.
    let stream = conn
        .connect("google.com", "443", 0, "", 0, "", WANT_POLLIN, 0, "")
        .unwrap();
    assert_eq!(stream.version(), "");
}

#[test]
fn net_connect_hands_back_second_retry() {
    let conn = TlsConnection::new().unwrap();
    let e = conn
        .connect("google.com", "443", 0, "", 0, "", WANT_POLLIN, WANT_POLLOUT, "")
        .unwrap_err();
    assert_eq!(e.kind, ErrorKind::WouldBlockWrite);
}

#[test]
fn net_connect_reports_target_errors() {
    let conn = TlsConnection::new().unwrap();
    let e = conn.connect("google.com", "", 0, "", 0, "", 0, 0, "").unwrap_err();
    assert_eq!(e.kind, ErrorKind::Connect);

    let conn = TlsConnection::new().unwrap();
    let e = conn
        .connect("google.com", "443", 0, "", -1, "refused", 0, 0, "")
        .unwrap_err();
    assert_eq!(e.kind, ErrorKind::Connect);
    assert_eq!(e.message(), "refused");
}

#[test]
fn net_settings_accumulate() {
    let mut conn = TlsConnection::new().unwrap();
    conn.set_ca_path("/etc/ssl").unwrap();
    conn.set_ca_mem("-----BEGIN CERTIFICATE-----").unwrap();
    conn.set_verify_depth(0);
    conn.set_protocols("tlsv1.2").unwrap();
    conn.set_ciphers("HIGH").unwrap();
    conn.insecure_noverifycert();
    conn.insecure_noverifyname();
    assert_eq!(conn.cfg.verify_depth, 0);
    assert_eq!(conn.cfg.protocols, 8);
    assert!(conn.cfg.noverifycert);
    assert!(conn.cfg.noverifyname);
    assert!(conn.set_protocols("sslv3").is_err());
}

#[test]
fn test_net_listener() {
    let mut builder = TlsListener::new().unwrap();
    builder.set_key_file("tests/private_key.key").unwrap();
    builder.set_cert_file("tests/certificate.crt").unwrap();
    let mut listener = builder.bind(0, "").unwrap();

    let mut stream = listener.accept(21, 0, "", 0, 0, "").unwrap();
    assert_eq!(stream.read(5, "").unwrap(), 5);

    // The listener accepts further connections, absorbing one handshake
    // retry round.
    let stream2 = listener.accept(22, 0, "", WANT_POLLOUT, 0, "").unwrap();
    assert_eq!(stream2.cipher(), "");
}

#[test]
fn net_listener_bind_requires_key_and_cert() {
    let builder = TlsListener::new().unwrap();
    let e = builder.bind(0, "").unwrap_err();
    assert_eq!(e.kind, ErrorKind::Configuration);

    let mut builder = TlsListener::new().unwrap();
    builder.set_key_file("tests/private_key.key").unwrap();
    let e = builder.bind(0, "").unwrap_err();
    assert_eq!(e.kind, ErrorKind::Configuration);
}
