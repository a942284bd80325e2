//! TLS configuration for both roles over rustls: the acceptor (optionally
//! asking clients for certificates) and the connector (optionally
//! presenting a client certificate). Certificates and keys travel through
//! the library as DER bytes; the connector trusts exactly the anchors it was
//! given and no system roots.

use std::sync::Arc;

use rustls::pki_types::{CertificateDer, PrivateKeyDer};
use rustls::server::VerifierBuilderError;
use rustls::{ClientConfig, RootCertStore, ServerConfig};
use vstd::prelude::*;

verus! {

#[verifier::external_type_specification]
#[verifier::external_body]
pub struct ExRootCertStore(RootCertStore);

#[verifier::external_type_specification]
#[verifier::external_body]
pub struct ExClientConfig(ClientConfig);

#[verifier::external_type_specification]
#[verifier::external_body]
pub struct ExServerConfig(ServerConfig);

#[verifier::external_type_specification]
#[verifier::external_body]
pub struct ExRustlsError(rustls::Error);

#[verifier::external_type_specification]
#[verifier::external_body]
pub struct ExVerifierBuilderError(VerifierBuilderError);

#[verifier::external_type_specification]
#[verifier::external_body]
pub struct ExIoError(std::io::Error);

/// Why TLS could not be set up for a connection.
#[derive(Debug)]
pub enum TlsConfigError {
    /// TLS is on but no certificate chain or no usable private key was given.
    MissingCertOrKey,
    /// A client identity was given without a PKCS#8 or PKCS#1 private key.
    NoPrivateKey,
    /// PEM text could not be read.
    Pem(std::io::Error),
    /// rustls refused a certificate, the key, or the pair.
    Rustls(rustls::Error),
    /// The client-certificate verifier could not be built: no trust anchor.
    Verifier(VerifierBuilderError),
}

/// A private key in DER form, tagged with its encoding.
#[derive(Debug)]
pub enum KeyDer {
    Pkcs8(Vec<u8>),
    Pkcs1(Vec<u8>),
}

impl KeyDer {
    /// Whether the key is PKCS#8, and its bytes.
    pub open spec fn parts(self) -> (bool, Seq<u8>) {
        match self {
            KeyDer::Pkcs8(d) => (true, d@),
            KeyDer::Pkcs1(d) => (false, d@),
        }
    }
}

/// The byte sequences held by `v`.
pub open spec fn ders_of(v: Seq<Vec<u8>>) -> Seq<Seq<u8>> {
    Seq::new(v.len(), |i: int| v[i]@)
}

/// The DER certificates that `rustls_pemfile::certs` reads from `pem`, in
/// order, or `None` where it reports an error.
pub uninterp spec fn pem_cert_ders(pem: Seq<u8>) -> Option<Seq<Seq<u8>>>;

/// The DER keys that `rustls_pemfile::pkcs8_private_keys` reads from `pem`,
/// in order, or `None` where it reports an error.
pub uninterp spec fn pem_pkcs8_ders(pem: Seq<u8>) -> Option<Seq<Seq<u8>>>;

/// The DER keys that `rustls_pemfile::rsa_private_keys` reads from `pem`,
/// in order, or `None` where it reports an error.
pub uninterp spec fn pem_pkcs1_ders(pem: Seq<u8>) -> Option<Seq<Seq<u8>>>;

/// Whether `RootCertStore::add` takes this DER certificate as an anchor.
pub uninterp spec fn root_accepted(der: Seq<u8>) -> bool;

/// Whether `with_client_auth_cert` (ring provider) accepts this chain and
/// key (PKCS#8 when the flag is set, else PKCS#1).
pub uninterp spec fn client_identity_accepted(certs: Seq<Seq<u8>>, pkcs8: bool, key: Seq<u8>) -> bool;

/// Whether `with_single_cert` (ring provider) accepts this chain and key
/// (PKCS#8 when the flag is set, else PKCS#1).
pub uninterp spec fn server_identity_accepted(certs: Seq<Seq<u8>>, pkcs8: bool, key: Seq<u8>) -> bool;

/// Relies on `rustls_pemfile::certs`: the certificates of the PEM text, in
/// order, other sections skipped, as DER bytes; an error where a section
/// cannot be read. The outcome depends on the bytes alone.
#[verifier::external_body]
fn pem_certs(pem: &[u8]) -> (r: Result<Vec<Vec<u8>>, std::io::Error>)
    ensures
        match pem_cert_ders(pem@) {
            Some(s) => (r matches Ok(v) && ders_of(v@) == s),
            None => r is Err,
        },
{
    let mut rd = pem;
    rustls_pemfile::certs(&mut rd).map(|c| c.map(|c| c.to_vec())).collect()
}

/// Relies on `rustls_pemfile::pkcs8_private_keys`: the PKCS#8 keys of the
/// PEM text, in order, as DER bytes; an error where a section cannot be
/// read.
#[verifier::external_body]
fn pem_pkcs8_keys(pem: &[u8]) -> (r: Result<Vec<Vec<u8>>, std::io::Error>)
    ensures
        match pem_pkcs8_ders(pem@) {
            Some(s) => (r matches Ok(v) && ders_of(v@) == s),
            None => r is Err,
        },
{
    let mut rd = pem;
    rustls_pemfile::pkcs8_private_keys(&mut rd).map(|k| k.map(|k| k.secret_pkcs8_der().to_vec())).collect()
}

/// Relies on `rustls_pemfile::rsa_private_keys`: the PKCS#1 (RSA) keys of
/// the PEM text, in order, as DER bytes; an error where a section cannot be
/// read.
#[verifier::external_body]
fn pem_rsa_keys(pem: &[u8]) -> (r: Result<Vec<Vec<u8>>, std::io::Error>)
    ensures
        match pem_pkcs1_ders(pem@) {
            Some(s) => (r matches Ok(v) && ders_of(v@) == s),
            None => r is Err,
        },
{
    let mut rd = pem;
    rustls_pemfile::rsa_private_keys(&mut rd).map(|k| k.map(|k| k.secret_pkcs1_der().to_vec())).collect()
}

/// The number of trust anchors a `RootCertStore` holds: the length of its
/// `roots` list.
pub uninterp spec fn root_count(store: RootCertStore) -> nat;

/// Relies on `rustls::RootCertStore::empty`: a store with no trust anchor.
#[verifier::external_body]
fn empty_store() -> (r: RootCertStore)
    ensures
        root_count(r) == 0,
{
    RootCertStore::empty()
}

/// Relies on `rustls::RootCertStore::add`: parses one DER certificate and,
/// on success, pushes it onto the store's anchors; on failure the store is
/// left as it was. The outcome depends on the bytes alone.
#[verifier::external_body]
fn add_root(store: &mut RootCertStore, der: Vec<u8>) -> (r: Result<(), rustls::Error>)
    ensures
        r is Ok == root_accepted(der@),
        r is Ok ==> root_count(*final(store)) == root_count(*old(store)) + 1,
        r is Err ==> root_count(*final(store)) == root_count(*old(store)),
{
    store.add(CertificateDer::from(der))
}

/// Relies on `ClientConfig::builder_with_provider` with the ring provider,
/// `with_safe_default_protocol_versions` (which cannot fail for ring, whose
/// suites cover both versions), `with_root_certificates` and
/// `with_no_client_auth`: a client configuration that trusts exactly
/// `roots` and presents no certificate.
#[verifier::external_body]
fn client_config_anonymous(roots: RootCertStore) -> (r: Result<Arc<ClientConfig>, rustls::Error>)
    ensures
        r is Ok,
{
    let provider = Arc::new(rustls::crypto::ring::default_provider());
    let builder = ClientConfig::builder_with_provider(provider).with_safe_default_protocol_versions()?;
    Ok(Arc::new(builder.with_root_certificates(roots).with_no_client_auth()))
}

/// Relies on `ClientConfig::builder_with_provider` with the ring provider,
/// `with_safe_default_protocol_versions`, `with_root_certificates` and
/// `with_client_auth_cert`: a client configuration that trusts exactly
/// `roots` and presents `certs` with `key`; it fails where the key is
/// invalid or does not match the chain.
#[verifier::external_body]
fn client_config_with_identity(roots: RootCertStore, certs: Vec<Vec<u8>>, key: KeyDer) -> (r: Result<
    Arc<ClientConfig>,
    rustls::Error,
>)
    ensures
        r is Ok == client_identity_accepted(ders_of(certs@), key.parts().0, key.parts().1),
{
    let certs: Vec<CertificateDer<'static>> = certs.into_iter().map(CertificateDer::from).collect();
    let key = match key {
        KeyDer::Pkcs8(d) => PrivateKeyDer::Pkcs8(d.into()),
        KeyDer::Pkcs1(d) => PrivateKeyDer::Pkcs1(d.into()),
    };
    let provider = Arc::new(rustls::crypto::ring::default_provider());
    let builder = ClientConfig::builder_with_provider(provider).with_safe_default_protocol_versions()?;
    Ok(Arc::new(builder.with_root_certificates(roots).with_client_auth_cert(certs, key)?))
}

/// Relies on `ServerConfig::builder_with_provider` with the ring provider,
/// `with_safe_default_protocol_versions`, `with_no_client_auth` and
/// `with_single_cert`: a server configuration that asks no client for a
/// certificate; it fails where the key is invalid or does not match.
#[verifier::external_body]
fn server_config_anonymous(certs: Vec<Vec<u8>>, key: KeyDer) -> (r: Result<Arc<ServerConfig>, rustls::Error>)
    ensures
        r is Ok == server_identity_accepted(ders_of(certs@), key.parts().0, key.parts().1),
{
    let certs: Vec<CertificateDer<'static>> = certs.into_iter().map(CertificateDer::from).collect();
    let key = match key {
        KeyDer::Pkcs8(d) => PrivateKeyDer::Pkcs8(d.into()),
        KeyDer::Pkcs1(d) => PrivateKeyDer::Pkcs1(d.into()),
    };
    let provider = Arc::new(rustls::crypto::ring::default_provider());
    let builder = ServerConfig::builder_with_provider(provider).with_safe_default_protocol_versions()?;
    Ok(Arc::new(builder.with_no_client_auth().with_single_cert(certs, key)?))
}

/// Relies on `WebPkiClientVerifier::builder_with_provider(..).build()`,
/// which fails exactly when the store has no anchor (no revocation lists
/// are given), then on `ServerConfig::builder_with_provider` with the ring
/// provider, `with_client_cert_verifier` and `with_single_cert`: a server
/// configuration that requires client certificates issued under `roots`.
#[verifier::external_body]
fn server_config_client_auth(roots: RootCertStore, certs: Vec<Vec<u8>>, key: KeyDer) -> (r: Result<
    Arc<ServerConfig>,
    TlsConfigError,
>)
    ensures
        (r matches Err(TlsConfigError::Verifier(_))) == (root_count(roots) == 0),
        root_count(roots) > 0 ==> (r is Ok == server_identity_accepted(ders_of(certs@), key.parts().0, key.parts().1)),
        r matches Err(e) ==> (e matches TlsConfigError::Verifier(_) || e matches TlsConfigError::Rustls(_)),
{
    let certs: Vec<CertificateDer<'static>> = certs.into_iter().map(CertificateDer::from).collect();
    let key = match key {
        KeyDer::Pkcs8(d) => PrivateKeyDer::Pkcs8(d.into()),
        KeyDer::Pkcs1(d) => PrivateKeyDer::Pkcs1(d.into()),
    };
    let provider = Arc::new(rustls::crypto::ring::default_provider());
    let verifier = rustls::server::WebPkiClientVerifier::builder_with_provider(Arc::new(roots), provider.clone())
        .build().map_err(TlsConfigError::Verifier)?;
    let builder = ServerConfig::builder_with_provider(provider).with_safe_default_protocol_versions()
        .map_err(TlsConfigError::Rustls)?;
    Ok(Arc::new(builder.with_client_cert_verifier(verifier).with_single_cert(certs, key).map_err(TlsConfigError::Rustls)?))
}

/// A store of trust anchors, with the DER certificates added to it.
pub struct Roots {
    store: RootCertStore,
    anchors: Ghost<Seq<Seq<u8>>>,
}

impl Roots {
    /// The certificates added as anchors, in order.
    pub closed spec fn anchors(&self) -> Seq<Seq<u8>> {
        self.anchors@
    }

    /// The store holds one anchor for each certificate recorded.
    pub closed spec fn wf(&self) -> bool {
        root_count(self.store) == self.anchors@.len()
    }

    /// No anchor.
    pub fn new() -> (r: Self)
        ensures
            r.wf(),
            r.anchors() == Seq::<Seq<u8>>::empty(),
    {
        Roots { store: empty_store(), anchors: Ghost(Seq::empty()) }
    }

    /// Adds `der` as an anchor if rustls takes it.
    pub fn add(&mut self, der: Vec<u8>) -> (r: Result<(), rustls::Error>)
        requires
            old(self).wf(),
        ensures
            final(self).wf(),
            r is Ok == root_accepted(der@),
            r is Ok ==> final(self).anchors() == old(self).anchors().push(der@),
            r is Err ==> final(self).anchors() == old(self).anchors(),
    {
        let ghost d = der@;
        let r = add_root(&mut self.store, der);
        if r.is_ok() {
            self.anchors = Ghost(self.anchors@.push(d));
        }
        r
    }
}

/// Those of `ders` that rustls takes as anchors, in order.
pub open spec fn accepted_roots(ders: Seq<Seq<u8>>) -> Seq<Seq<u8>>
    decreases ders.len(),
{
    if ders.len() == 0 {
        ders
    } else if root_accepted(ders.last()) {
        accepted_roots(ders.drop_last()).push(ders.last())
    } else {
        accepted_roots(ders.drop_last())
    }
}

/// Whether rustls takes each of `ders` as an anchor.
pub open spec fn all_roots_accepted(ders: Seq<Seq<u8>>) -> bool {
    forall|i: int| 0 <= i < ders.len() ==> root_accepted(#[trigger] ders[i])
}

/// The key taken from `pem`: its last PKCS#8 key, or failing that its last
/// PKCS#1 key; `None` where it has neither or cannot be read.
pub open spec fn chosen_key(pem: Seq<u8>) -> Option<(bool, Seq<u8>)> {
    match pem_pkcs8_ders(pem) {
        Some(s8) => if s8.len() > 0 {
            Some((true, s8.last()))
        } else {
            match pem_pkcs1_ders(pem) {
                Some(s1) => if s1.len() > 0 {
                    Some((false, s1.last()))
                } else {
                    None
                },
                None => None,
            }
        },
        None => None,
    }
}

/// Whether reading the keys of `pem` fails before a key is found.
pub open spec fn key_read_fails(pem: Seq<u8>) -> bool {
    match pem_pkcs8_ders(pem) {
        None => true,
        Some(s8) => s8.len() == 0 && pem_pkcs1_ders(pem) is None,
    }
}

/// The parts of an optional key.
pub open spec fn key_parts_of(k: Option<KeyDer>) -> Option<(bool, Seq<u8>)> {
    match k {
        Some(k) => Some(k.parts()),
        None => None,
    }
}

/// The private key of `pem`, as `chosen_key` describes it.
fn last_key(pem: &[u8]) -> (r: Result<Option<KeyDer>, std::io::Error>)
    ensures
        r is Err == key_read_fails(pem@),
        r matches Ok(k) ==> key_parts_of(k) == chosen_key(pem@),
{
    let mut pkcs8 = match pem_pkcs8_keys(pem) {
        Ok(v) => v,
        Err(e) => return Err(e),
    };
    if let Some(k) = pkcs8.pop() {
        return Ok(Some(KeyDer::Pkcs8(k)));
    }
    let mut rsa = match pem_rsa_keys(pem) {
        Ok(v) => v,
        Err(e) => return Err(e),
    };
    match rsa.pop() {
        Some(k) => Ok(Some(KeyDer::Pkcs1(k))),
        None => Ok(None),
    }
}

/// Adds each certificate of `certs` that rustls takes as an anchor,
/// passing over the others.
fn add_roots_lenient(roots: &mut Roots, certs: Vec<Vec<u8>>)
    requires
        old(roots).wf(),
    ensures
        final(roots).wf(),
        final(roots).anchors() == old(roots).anchors() + accepted_roots(ders_of(certs@)),
{
    let ghost all = certs@;
    let n = certs.len();
    let mut pool = certs;
    let mut i: usize = 0;
    assert(ders_of(all).take(0) =~= Seq::<Seq<u8>>::empty());
    assert(old(roots).anchors() + Seq::<Seq<u8>>::empty() =~= old(roots).anchors());
    while i < n
        invariant
            n == all.len(),
            i <= n,
            pool@ =~= all.skip(i as int),
            certs@ == all,
            roots.wf(),
            roots.anchors() == old(roots).anchors() + accepted_roots(ders_of(all).take(i as int)),
        decreases n - i,
    {
        let der = pool.remove(0);
        proof {
            assert(der@ == ders_of(all)[i as int]);
            assert(ders_of(all).take(i + 1).drop_last() =~= ders_of(all).take(i as int));
            assert(ders_of(all).take(i + 1).last() == der@);
        }
        let ghost before = roots.anchors();
        let _ = roots.add(der);
        proof {
            if root_accepted(ders_of(all)[i as int]) {
                assert(roots.anchors() =~= old(roots).anchors() + accepted_roots(ders_of(all).take(i + 1)));
            }
        }
        i += 1;
    }
    assert(ders_of(all).take(n as int) =~= ders_of(all));
}

/// Settings of the accepting side.
pub struct TlsConfig {
    pub enable_tls: bool,
    pub require_client_auth: bool,
    /// PEM certificate chain.
    pub cert_chain_pem: Option<Vec<u8>>,
    /// PEM private key, PKCS#8 or PKCS#1.
    pub priv_key_pem: Option<Vec<u8>>,
    /// PEM certificates of the authorities that issue client certificates.
    pub client_ca_pem: Option<Vec<u8>>,
}

/// Plain text, TLS off, no material.
impl Default for TlsConfig {
    fn default() -> (r: Self)
        ensures
            !r.enable_tls,
            !r.require_client_auth,
            r.cert_chain_pem.is_none(),
            r.priv_key_pem.is_none(),
            r.client_ca_pem.is_none(),
    {
        TlsConfig {
            enable_tls: false,
            require_client_auth: false,
            cert_chain_pem: None,
            priv_key_pem: None,
            client_ca_pem: None,
        }
    }
}

/// How building the acceptor's settings ends, TLS being on.
pub enum AcceptorOutcome {
    /// No certificate chain or no private key.
    Missing,
    /// Client authentication is required but the client CA yields no anchor.
    NoClientAnchor,
    /// rustls refuses the chain and key.
    Refused,
    /// A server configuration is built.
    Ready,
}

/// The certificates of the acceptor's chain; none where it is missing or
/// unreadable.
pub open spec fn acceptor_certs(cfg: TlsConfig) -> Seq<Seq<u8>> {
    match cfg.cert_chain_pem {
        Some(p) => match pem_cert_ders(p@) {
            Some(s) => s,
            None => Seq::empty(),
        },
        None => Seq::empty(),
    }
}

/// The acceptor's key; none where it is missing or unreadable.
pub open spec fn acceptor_key(cfg: TlsConfig) -> Option<(bool, Seq<u8>)> {
    match cfg.priv_key_pem {
        Some(p) => chosen_key(p@),
        None => None,
    }
}

/// The anchors for client certificates: the client CA's certificates that
/// rustls takes, the others (or an unreadable PEM) passed over.
pub open spec fn client_anchors(cfg: TlsConfig) -> Seq<Seq<u8>> {
    match cfg.client_ca_pem {
        Some(p) => match pem_cert_ders(p@) {
            Some(s) => accepted_roots(s),
            None => Seq::empty(),
        },
        None => Seq::empty(),
    }
}

impl TlsConfig {
    /// Whether the certificate material suffices to serve TLS: a chain of at
    /// least one certificate and a private key.
    pub open spec fn has_identity(&self) -> bool {
        acceptor_certs(*self).len() > 0 && acceptor_key(*self) is Some
    }

    /// How building the settings ends when TLS is on.
    pub open spec fn outcome(&self) -> AcceptorOutcome {
        if !self.has_identity() {
            AcceptorOutcome::Missing
        } else if self.require_client_auth && client_anchors(*self).len() == 0 {
            AcceptorOutcome::NoClientAnchor
        } else if server_identity_accepted(
            acceptor_certs(*self),
            acceptor_key(*self).unwrap().0,
            acceptor_key(*self).unwrap().1,
        ) {
            AcceptorOutcome::Ready
        } else {
            AcceptorOutcome::Refused
        }
    }
}

/// The acceptor's TLS settings: `None` for plain text when TLS is off;
/// otherwise a server configuration from the certificate chain and key,
/// which must both be present, and, if client authentication is required,
/// a verifier of client certificates whose anchors are the client CA's
/// certificates that rustls takes.
pub fn build_rustls(cfg: &TlsConfig) -> (r: Result<Option<Arc<ServerConfig>>, TlsConfigError>)
    ensures
        !cfg.enable_tls ==> (r matches Ok(c) && c.is_none()),
        cfg.enable_tls ==> match cfg.outcome() {
            AcceptorOutcome::Missing => (r matches Err(TlsConfigError::MissingCertOrKey)),
            AcceptorOutcome::NoClientAnchor => (r matches Err(TlsConfigError::Verifier(_))),
            AcceptorOutcome::Refused => (r matches Err(TlsConfigError::Rustls(_))),
            AcceptorOutcome::Ready => (r matches Ok(Some(_))),
        },
{
    if !cfg.enable_tls {
        return Ok(None);
    }
    let certs: Vec<Vec<u8>> = match &cfg.cert_chain_pem {
        Some(pem) => match pem_certs(pem.as_slice()) {
            Ok(v) => v,
            Err(_) => Vec::new(),
        },
        None => Vec::new(),
    };
    assert(ders_of(certs@) == acceptor_certs(*cfg));
    let key: Option<KeyDer> = match &cfg.priv_key_pem {
        Some(pem) => match last_key(pem.as_slice()) {
            Ok(k) => k,
            Err(_) => None,
        },
        None => None,
    };
    assert(key_parts_of(key) == acceptor_key(*cfg));
    let key = match key {
        Some(k) => k,
        None => return Err(TlsConfigError::MissingCertOrKey),
    };
    if certs.len() == 0 {
        return Err(TlsConfigError::MissingCertOrKey);
    }
    if cfg.require_client_auth {
        let mut roots = Roots::new();
        if let Some(pem) = &cfg.client_ca_pem {
            if let Ok(cas) = pem_certs(pem.as_slice()) {
                add_roots_lenient(&mut roots, cas);
            }
        }
        assert(roots.anchors() =~= client_anchors(*cfg));
        match server_config_client_auth(roots.store, certs, key) {
            Ok(c) => Ok(Some(c)),
            Err(e) => Err(e),
        }
    } else {
        match server_config_anonymous(certs, key) {
            Ok(c) => Ok(Some(c)),
            Err(e) => Err(TlsConfigError::Rustls(e)),
        }
    }
}

/// Settings of the connecting side: whether to use TLS, and where to read
/// the client certificate, its key and the CA certificate.
#[derive(Clone, Debug)]
pub struct TlsClientConfig {
    pub enable_tls: bool,
    pub client_cert_path: Option<String>,
    pub client_key_path: Option<String>,
    pub ca_cert_path: Option<String>,
    pub server_name: Option<String>,
}

/// TLS off, nothing configured.
impl Default for TlsClientConfig {
    fn default() -> (r: Self)
        ensures
            !r.enable_tls,
            r.client_cert_path.is_none(),
            r.client_key_path.is_none(),
            r.ca_cert_path.is_none(),
            r.server_name.is_none(),
    {
        TlsClientConfig {
            enable_tls: false,
            client_cert_path: None,
            client_key_path: None,
            ca_cert_path: None,
            server_name: None,
        }
    }
}

/// A client configuration with what it was built from: the anchors it
/// trusts (exactly these, no system roots) and the identity it presents.
pub struct ClientTls {
    pub config: Arc<ClientConfig>,
    anchors: Ghost<Seq<Seq<u8>>>,
    identity: Ghost<Option<(Seq<Seq<u8>>, (bool, Seq<u8>))>>,
}

impl ClientTls {
    /// The DER certificates trusted as anchors, in the order added.
    pub closed spec fn trusted(&self) -> Seq<Seq<u8>> {
        self.anchors@
    }

    /// The chain and key presented to servers that ask, if any.
    pub closed spec fn presented(&self) -> Option<(Seq<Seq<u8>>, (bool, Seq<u8>))> {
        self.identity@
    }
}

/// How building the connector's settings ends, TLS being on.
pub enum ConnectorOutcome {
    /// Some PEM text cannot be read.
    PemUnreadable,
    /// rustls refuses a CA certificate, or the identity's chain and key.
    Refused,
    /// The identity's key PEM holds neither a PKCS#8 nor a PKCS#1 key.
    NoKey,
    /// A configuration trusting these anchors and presenting this identity.
    Ready(Seq<Seq<u8>>, Option<(Seq<Seq<u8>>, (bool, Seq<u8>))>),
}

/// How `connector_from_pem` ends with TLS on, given the CA PEM and the
/// identity's certificate and key PEM. The CA is read first, then the
/// identity's certificates, then its key.
pub open spec fn connector_outcome(
    ca: Option<Seq<u8>>,
    identity: Option<(Seq<u8>, Seq<u8>)>,
) -> ConnectorOutcome {
    let cas = match ca {
        None => Some(Seq::<Seq<u8>>::empty()),
        Some(p) => pem_cert_ders(p),
    };
    match cas {
        None => ConnectorOutcome::PemUnreadable,
        Some(cas) => if !all_roots_accepted(cas) {
            ConnectorOutcome::Refused
        } else {
            match identity {
                None => ConnectorOutcome::Ready(cas, None),
                Some((cp, kp)) => match pem_cert_ders(cp) {
                    None => ConnectorOutcome::PemUnreadable,
                    Some(certs) => if key_read_fails(kp) {
                        ConnectorOutcome::PemUnreadable
                    } else {
                        match chosen_key(kp) {
                            None => ConnectorOutcome::NoKey,
                            Some(key) => if client_identity_accepted(certs, key.0, key.1) {
                                ConnectorOutcome::Ready(cas, Some((certs, key)))
                            } else {
                                ConnectorOutcome::Refused
                            },
                        }
                    },
                },
            }
        },
    }
}

/// Whether `r` is what the outcome `o` describes.
pub open spec fn connector_result_is(o: ConnectorOutcome, r: Result<Option<ClientTls>, TlsConfigError>) -> bool {
    match o {
        ConnectorOutcome::PemUnreadable => r matches Err(TlsConfigError::Pem(_)),
        ConnectorOutcome::Refused => r matches Err(TlsConfigError::Rustls(_)),
        ConnectorOutcome::NoKey => r matches Err(TlsConfigError::NoPrivateKey),
        ConnectorOutcome::Ready(anchors, identity) => (r matches Ok(Some(c)) && c.trusted() == anchors
            && c.presented() == identity),
    }
}

/// The optional byte slice as a sequence.
pub open spec fn opt_bytes(b: Option<&[u8]>) -> Option<Seq<u8>> {
    match b {
        Some(b) => Some(b@),
        None => None,
    }
}

/// The optional pair of byte slices as sequences.
pub open spec fn opt_pair(p: Option<(&[u8], &[u8])>) -> Option<(Seq<u8>, Seq<u8>)> {
    match p {
        Some((a, b)) => Some((a@, b@)),
        None => None,
    }
}

/// Adds every certificate of `certs` as an anchor, stopping at the first
/// that rustls refuses.
fn add_roots_strict(roots: &mut Roots, certs: Vec<Vec<u8>>) -> (r: Result<(), rustls::Error>)
    requires
        old(roots).wf(),
        old(roots).anchors() == Seq::<Seq<u8>>::empty(),
    ensures
        final(roots).wf(),
        r is Ok == all_roots_accepted(ders_of(certs@)),
        r is Ok ==> final(roots).anchors() == ders_of(certs@),
{
    let ghost all = certs@;
    let n = certs.len();
    let mut pool = certs;
    let mut i: usize = 0;
    while i < n
        invariant
            n == all.len(),
            i <= n,
            pool@ =~= all.skip(i as int),
            certs@ == all,
            roots.wf(),
            roots.anchors() =~= ders_of(all).take(i as int),
            all_roots_accepted(ders_of(all).take(i as int)),
        decreases n - i,
    {
        let der = pool.remove(0);
        assert(der@ == ders_of(all)[i as int]);
        match roots.add(der) {
            Ok(()) => {},
            Err(e) => {
                assert(!all_roots_accepted(ders_of(all)));
                return Err(e);
            },
        }
        assert(ders_of(all).take(i + 1) =~= ders_of(all).take(i as int).push(ders_of(all)[i as int]));
        i += 1;
    }
    assert(ders_of(all).take(n as int) =~= ders_of(all));
    Ok(())
}

/// The connector's TLS settings from the contents of the configured files:
/// `ca_pem` the CA certificates, `identity` the client certificate chain and
/// key (given when both are configured). `None` when TLS is off. Otherwise
/// the result is the one `connector_outcome` describes: the configuration
/// trusts exactly the CA's certificates (none without a CA) and presents
/// the chain in file order with the last PKCS#8 key, else the last PKCS#1
/// key.
pub fn connector_from_pem(
    config: &TlsClientConfig,
    ca_pem: Option<&[u8]>,
    identity: Option<(&[u8], &[u8])>,
) -> (r: Result<Option<ClientTls>, TlsConfigError>)
    ensures
        !config.enable_tls ==> (r matches Ok(c) && c.is_none()),
        config.enable_tls ==> connector_result_is(
            connector_outcome(opt_bytes(ca_pem), opt_pair(identity)),
            r,
        ),
{
    if !config.enable_tls {
        return Ok(None);
    }
    let mut roots = Roots::new();
    if let Some(ca) = ca_pem {
        let certs = match pem_certs(ca) {
            Ok(v) => v,
            Err(e) => return Err(TlsConfigError::Pem(e)),
        };
        if let Err(e) = add_roots_strict(&mut roots, certs) {
            return Err(TlsConfigError::Rustls(e));
        }
    } else {
        assert(all_roots_accepted(Seq::<Seq<u8>>::empty()));
    }
    let ghost anchors = roots.anchors();
    match identity {
        Some((cert_pem, key_pem)) => {
            let certs = match pem_certs(cert_pem) {
                Ok(v) => v,
                Err(e) => return Err(TlsConfigError::Pem(e)),
            };
            let key = match last_key(key_pem) {
                Ok(Some(k)) => k,
                Ok(None) => return Err(TlsConfigError::NoPrivateKey),
                Err(e) => return Err(TlsConfigError::Pem(e)),
            };
            let ghost presented = (ders_of(certs@), key.parts());
            match client_config_with_identity(roots.store, certs, key) {
                Ok(c) => Ok(Some(ClientTls { config: c, anchors: Ghost(anchors), identity: Ghost(Some(presented)) })),
                Err(e) => Err(TlsConfigError::Rustls(e)),
            }
        },
        None => match client_config_anonymous(roots.store) {
            Ok(c) => Ok(Some(ClientTls { config: c, anchors: Ghost(anchors), identity: Ghost(None) })),
            Err(e) => Err(TlsConfigError::Rustls(e)),
        },
    }
}

} // verus!
