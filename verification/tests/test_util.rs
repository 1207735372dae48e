use tonic_h3::gm_quic_server::H3GmQuicAcceptor;
use tonic_h3::test_util::{
    cert_files_plan, cert_thumbprint, hello_message, make_test_cert, CertFilesPlan, make_danger_rustls_client_config, make_test_quinn_client_endpoint,
    retry_listener_bind, HelloWorldService, LISTENER_BIND_RETRIES,
};

#[test]
fn greeting_message() {
    let _svc = HelloWorldService::default();
    assert_eq!(hello_message("Tonic"), "hello Tonic");
    assert_eq!(hello_message(""), "hello ");
}

#[test]
fn danger_client_config_offers_h3_and_early_data() {
    let cfg = make_danger_rustls_client_config().unwrap();
    assert_eq!(cfg.alpn_protocols, vec![b"h3".to_vec()]);
    assert!(cfg.enable_early_data);
}

#[test]
fn quinn_client_endpoint_binds() {
    let rt = tokio::runtime::Builder::new_current_thread().enable_all().build().unwrap();
    let _guard = rt.enter();
    let ep = make_test_quinn_client_endpoint().unwrap();
    assert!(ep.local_addr().is_ok());
}

#[test]
fn gm_quic_acceptor_shares_its_listeners() {
    // The type is exercised through its constructor signature; building live
    // listeners needs certificates and sockets.
    let _f: fn(std::sync::Arc<gm_quic::QuicListeners>) -> H3GmQuicAcceptor = H3GmQuicAcceptor::new;
}

#[test]
fn thumbprint_drops_the_line_end() {
    assert_eq!(cert_thumbprint("A1B2C3\r\n").as_deref(), Some("A1B2C3"));
    assert_eq!(cert_thumbprint("A1B2C3\n").as_deref(), Some("A1B2C3"));
    assert_eq!(cert_thumbprint("A1B2C3").as_deref(), Some("A1B2C3"));
    assert_eq!(cert_thumbprint("A1B2C3\r").as_deref(), Some("A1B2C3\r"));
    assert_eq!(cert_thumbprint("\r\n"), None);
    assert_eq!(cert_thumbprint("\n"), None);
    assert_eq!(cert_thumbprint(""), None);
}

#[test]
fn listener_bind_is_retried_only_while_the_address_is_in_use() {
    assert_eq!(LISTENER_BIND_RETRIES, 30);
    assert!(retry_listener_bind(0, true));
    assert!(retry_listener_bind(29, true));
    assert!(!retry_listener_bind(30, true));
    assert!(!retry_listener_bind(0, false));
}

#[test]
fn test_certificate_is_self_signed_pem() {
    let (cert, key) = make_test_cert(vec!["localhost".to_string(), "127.0.0.1".to_string()]).unwrap();
    assert!(cert.pem().starts_with("-----BEGIN CERTIFICATE-----"));
    assert!(key.serialize_pem().contains("PRIVATE KEY"));
    assert!(make_test_cert(vec!["h\u{e9}te".to_string()]).is_err());
}

#[test]
fn certificate_files_are_kept_generated_or_regenerated() {
    assert_eq!(cert_files_plan(true, true, true), CertFilesPlan::RemoveAndRegenerate);
    assert_eq!(cert_files_plan(false, true, true), CertFilesPlan::Keep);
    assert_eq!(cert_files_plan(false, false, true), CertFilesPlan::Generate);
    assert_eq!(cert_files_plan(false, true, false), CertFilesPlan::Generate);
}

#[test]
fn danger_config_and_endpoint_use_h3() {
    let cfg = make_danger_rustls_client_config().unwrap();
    assert!(cfg.enable_early_data);
    assert_eq!(cfg.alpn_protocols, vec![b"h3".to_vec()]);
    let rt = tokio::runtime::Builder::new_current_thread().enable_all().build().unwrap();
    let _guard = rt.enter();
    let ep = make_test_quinn_client_endpoint().unwrap();
    let addr = ep.local_addr().unwrap();
    assert!(addr.is_ipv6() && addr.ip().is_unspecified());
    assert_ne!(addr.port(), 0);
}
