use open_xiaoai::tls::{build_rustls, connector_from_pem, TlsClientConfig, TlsConfig, TlsConfigError};
use open_xiaoai::tls_native;
use open_xiaoai::tls_native::{pick_identity, ClientIdentity};

#[test]
fn acceptor_plain_when_tls_off() {
    assert!(matches!(build_rustls(&TlsConfig::default()), Ok(None)));
}

#[test]
fn acceptor_needs_cert_and_key() {
    let mut cfg = TlsConfig::default();
    cfg.enable_tls = true;
    assert!(matches!(build_rustls(&cfg), Err(TlsConfigError::MissingCertOrKey)));
    cfg.cert_chain_pem = Some(b"no pem here".to_vec());
    cfg.priv_key_pem = Some(b"no key either".to_vec());
    assert!(matches!(build_rustls(&cfg), Err(TlsConfigError::MissingCertOrKey)));
}

#[test]
fn connector_off_and_on() {
    let cfg = TlsClientConfig::default();
    assert!(!cfg.enable_tls);
    assert!(matches!(connector_from_pem(&cfg, None, None), Ok(None)));
    let mut on = cfg.clone();
    on.enable_tls = true;
    assert!(matches!(connector_from_pem(&on, None, None), Ok(Some(_))));
}

#[test]
fn connector_identity_without_key_is_refused() {
    let mut cfg = TlsClientConfig::default();
    cfg.enable_tls = true;
    let r = connector_from_pem(&cfg, None, Some((b"".as_slice(), b"not a key".as_slice())));
    assert!(matches!(r, Err(TlsConfigError::NoPrivateKey)));
}

#[test]
fn connector_with_unreadable_ca_is_a_pem_error() {
    let mut cfg = TlsClientConfig::default();
    cfg.enable_tls = true;
    let bad = b"-----BEGIN CERTIFICATE-----\n!!!!\n-----END CERTIFICATE-----\n";
    let r = connector_from_pem(&cfg, Some(bad.as_slice()), None);
    assert!(matches!(r, Err(TlsConfigError::Pem(_))));
}

#[test]
fn identity_choice() {
    assert_eq!(pick_identity(None, None), ClientIdentity::Anonymous);
    assert_eq!(pick_identity(Some(true), None), ClientIdentity::Pem);
    assert_eq!(pick_identity(Some(true), Some(false)), ClientIdentity::Pem);
    assert_eq!(pick_identity(Some(true), Some(true)), ClientIdentity::Pkcs12);
    assert_eq!(pick_identity(Some(false), Some(false)), ClientIdentity::Anonymous);
}

#[test]
fn native_connector_is_relaxed() {
    let cfg = tls_native::TlsClientConfig::default();
    match tls_native::native_connector(&cfg, Some((b"x".as_slice(), b"y".as_slice())), None) {
        Ok(Some((_, s))) => {
            assert!(s.accept_invalid_certs && s.accept_invalid_hostnames && s.min_tls12);
            assert_eq!(s.identity, tls_native::ClientIdentity::Anonymous);
        }
        Ok(None) => panic!("TLS is on"),
        Err(_) => {}
    }
}

#[test]
fn native_default_is_on() {
    let cfg = tls_native::TlsClientConfig::default();
    assert!(cfg.enable_tls);
    let mut off = cfg.clone();
    off.enable_tls = false;
    assert!(matches!(tls_native::native_connector(&off, None, None), Ok(None)));
}
