//! The connecting side over the platform TLS library, for devices whose
//! TLS stack is old. This path is meant for targets where native-tls runs
//! on OpenSSL: on macOS and iOS, native-tls itself may panic while loading
//! a client identity, which no precondition here can rule out.
//!
//! Certificate and host-name checks are switched off on this path for
//! compatibility with such devices. This is a deliberate, documented
//! weakness that integrators must know of; the settings handed to the TLS
//! library are returned with the connector so that callers can see them.

use native_tls::{Identity, Protocol, TlsConnector, TlsConnectorBuilder};
use vstd::prelude::*;

verus! {

#[verifier::external_type_specification]
#[verifier::external_body]
pub struct ExTlsConnector(TlsConnector);

#[verifier::external_type_specification]
#[verifier::external_body]
pub struct ExTlsConnectorBuilder(TlsConnectorBuilder);

#[verifier::external_type_specification]
#[verifier::external_body]
pub struct ExIdentity(Identity);

#[verifier::external_type_specification]
#[verifier::external_body]
pub struct ExNativeTlsError(native_tls::Error);

/// Relies on `native_tls::Identity::from_pkcs8`: an identity from a PEM
/// certificate chain and a PEM PKCS#8 key, or the platform library's error.
/// Which inputs are accepted depends on the platform library.
#[verifier::external_body]
fn identity_from_pkcs8(cert: &[u8], key: &[u8]) -> (r: Result<Identity, native_tls::Error>) {
    Identity::from_pkcs8(cert, key)
}

/// Relies on `native_tls::Identity::from_pkcs12`: an identity from a DER
/// PKCS#12 archive and its password, or the platform library's error.
#[verifier::external_body]
fn identity_from_pkcs12(der: &[u8], password: &str) -> (r: Result<Identity, native_tls::Error>) {
    Identity::from_pkcs12(der, password)
}

/// Relies on `native_tls::TlsConnector::builder`: default settings.
#[verifier::external_body]
fn connector_builder() -> (r: TlsConnectorBuilder) {
    TlsConnector::builder()
}

/// Relies on `TlsConnectorBuilder::identity`: the identity presented to
/// servers that ask for one, replacing any set before.
#[verifier::external_body]
fn set_identity(builder: &mut TlsConnectorBuilder, identity: Identity) {
    builder.identity(identity);
}

/// Relies on `TlsConnectorBuilder::danger_accept_invalid_certs`: whether the
/// server's certificate goes unchecked.
#[verifier::external_body]
fn set_accept_invalid_certs(builder: &mut TlsConnectorBuilder, accept: bool) {
    builder.danger_accept_invalid_certs(accept);
}

/// Relies on `TlsConnectorBuilder::danger_accept_invalid_hostnames`: whether
/// the server's name goes unchecked against its certificate.
#[verifier::external_body]
fn set_accept_invalid_hostnames(builder: &mut TlsConnectorBuilder, accept: bool) {
    builder.danger_accept_invalid_hostnames(accept);
}

/// Relies on `TlsConnectorBuilder::min_protocol_version`: TLS 1.2 at least
/// when `tls12` is set, else the library's default minimum.
#[verifier::external_body]
fn set_min_tls12(builder: &mut TlsConnectorBuilder, tls12: bool) {
    builder.min_protocol_version(tls12.then_some(Protocol::Tlsv12));
}

/// Relies on `TlsConnectorBuilder::build`: the connector, or the platform
/// library's error.
#[verifier::external_body]
fn build_connector(builder: &TlsConnectorBuilder) -> (r: Result<TlsConnector, native_tls::Error>) {
    builder.build()
}

/// Which client identity a connector presents.
#[derive(PartialEq, Eq, Structural, Clone, Copy, Debug)]
pub enum ClientIdentity {
    Anonymous,
    Pem,
    Pkcs12,
}

/// The identity presented given what became of the PEM pair and of the
/// PKCS#12 archive (`None`: not supplied; `Some(accepted)`): an accepted
/// archive wins over an accepted PEM pair, which wins over none. A refused
/// one is passed over.
pub open spec fn chosen_identity(pem_ok: Option<bool>, pkcs12_ok: Option<bool>) -> ClientIdentity {
    if pkcs12_ok == Some(true) {
        ClientIdentity::Pkcs12
    } else if pem_ok == Some(true) {
        ClientIdentity::Pem
    } else {
        ClientIdentity::Anonymous
    }
}

/// Picks the identity to present, as `chosen_identity` says.
pub fn pick_identity(pem_ok: Option<bool>, pkcs12_ok: Option<bool>) -> (r: ClientIdentity)
    ensures
        r == chosen_identity(pem_ok, pkcs12_ok),
{
    if pkcs12_ok == Some(true) {
        ClientIdentity::Pkcs12
    } else if pem_ok == Some(true) {
        ClientIdentity::Pem
    } else {
        ClientIdentity::Anonymous
    }
}

/// What a connector of this path is built with.
#[derive(PartialEq, Eq, Structural, Clone, Copy, Debug)]
pub struct NativeSettings {
    /// The server's certificate goes unchecked.
    pub accept_invalid_certs: bool,
    /// The server's name goes unchecked.
    pub accept_invalid_hostnames: bool,
    /// TLS 1.2 is the lowest version offered.
    pub min_tls12: bool,
    /// The identity presented.
    pub identity: ClientIdentity,
}

/// The settings of this path: both checks off, TLS 1.2 at least, and the
/// given identity.
pub open spec fn relaxed_settings(identity: ClientIdentity) -> NativeSettings {
    NativeSettings {
        accept_invalid_certs: true,
        accept_invalid_hostnames: true,
        min_tls12: true,
        identity,
    }
}

/// What became of an identity: not supplied, or whether it was accepted.
pub open spec fn identity_outcome(o: Option<Option<Identity>>) -> Option<bool> {
    match o {
        None => None,
        Some(i) => Some(i is Some),
    }
}

/// Settings of the connecting side: whether to use TLS, and where to read
/// the client certificate, its key and the CA certificate.
#[derive(Clone, Debug)]
pub struct TlsClientConfig {
    pub enable_tls: bool,
    pub client_cert_path: Option<String>,
    pub client_key_path: Option<String>,
    pub ca_cert_path: Option<String>,
    pub server_name: Option<String>,
}

/// TLS on (with the relaxed checks of this path), nothing else configured.
impl Default for TlsClientConfig {
    fn default() -> (r: Self)
        ensures
            r.enable_tls,
            r.client_cert_path.is_none(),
            r.client_key_path.is_none(),
            r.ca_cert_path.is_none(),
            r.server_name.is_none(),
    {
        TlsClientConfig {
            enable_tls: true,
            client_cert_path: None,
            client_key_path: None,
            ca_cert_path: None,
            server_name: None,
        }
    }
}

/// Builds the connector once the identities are loaded: `pem` and `pkcs12`
/// are `None` when not supplied, `Some(None)` when the TLS library refused
/// them. A refused identity is passed over, not an error: the only failure
/// is the TLS library refusing to build the connector. The PEM identity is
/// installed first and an accepted PKCS#12 identity replaces it. The
/// connector comes with the settings it was built with.
pub fn connector_with(
    config: &TlsClientConfig,
    pem: Option<Option<Identity>>,
    pkcs12: Option<Option<Identity>>,
) -> (r: Result<Option<(TlsConnector, NativeSettings)>, native_tls::Error>)
    ensures
        !config.enable_tls ==> (r matches Ok(c) && c.is_none()),
        config.enable_tls ==> !(r matches Ok(None)),
        r matches Ok(Some((_, s))) ==> s == relaxed_settings(
            chosen_identity(identity_outcome(pem), identity_outcome(pkcs12)),
        ),
{
    if !config.enable_tls {
        return Ok(None);
    }
    let identity = pick_identity(
        match &pem {
            None => None,
            Some(i) => Some(i.is_some()),
        },
        match &pkcs12 {
            None => None,
            Some(i) => Some(i.is_some()),
        },
    );
    let settings = NativeSettings {
        accept_invalid_certs: true,
        accept_invalid_hostnames: true,
        min_tls12: true,
        identity,
    };
    let mut builder = connector_builder();
    if let Some(Some(id)) = pem {
        set_identity(&mut builder, id);
    }
    if let Some(Some(id)) = pkcs12 {
        set_identity(&mut builder, id);
    }
    set_accept_invalid_certs(&mut builder, settings.accept_invalid_certs);
    set_accept_invalid_hostnames(&mut builder, settings.accept_invalid_hostnames);
    set_min_tls12(&mut builder, settings.min_tls12);
    match build_connector(&builder) {
        Ok(c) => Ok(Some((c, settings))),
        Err(e) => Err(e),
    }
}

/// The connector for this path: `None` when TLS is off. Otherwise the
/// identity is loaded from the PEM pair `pem` (certificate, PKCS#8 key) and
/// from the PKCS#12 archive `pkcs12` (bytes, password), and the connector
/// is built as `connector_with` says; a refused identity is passed over.
pub fn native_connector(
    config: &TlsClientConfig,
    pem: Option<(&[u8], &[u8])>,
    pkcs12: Option<(&[u8], &str)>,
) -> (r: Result<Option<(TlsConnector, NativeSettings)>, native_tls::Error>)
    ensures
        !config.enable_tls ==> (r matches Ok(c) && c.is_none()),
        config.enable_tls ==> !(r matches Ok(None)),
        r matches Ok(Some((_, s))) ==> {
            &&& s.accept_invalid_certs && s.accept_invalid_hostnames && s.min_tls12
            &&& s.identity == ClientIdentity::Pkcs12 ==> pkcs12.is_some()
            &&& s.identity == ClientIdentity::Pem ==> pem.is_some()
            &&& pem.is_none() && pkcs12.is_none() ==> s.identity == ClientIdentity::Anonymous
        },
{
    if !config.enable_tls {
        return Ok(None);
    }
    let pem_identity: Option<Option<Identity>> = match pem {
        Some((cert, key)) => match identity_from_pkcs8(cert, key) {
            Ok(i) => Some(Some(i)),
            Err(_) => Some(None),
        },
        None => None,
    };
    let p12_identity: Option<Option<Identity>> = match pkcs12 {
        Some((der, password)) => match identity_from_pkcs12(der, password) {
            Ok(i) => Some(Some(i)),
            Err(_) => Some(None),
        },
        None => None,
    };
    connector_with(config, pem_identity, p12_identity)
}

} // verus!
