//! Client and server set-up used by the integration tests of the library:
//! the certificate verifier that accepts any server certificate, the quinn
//! and gm-quic clients built on it, the greeting of the test service, the
//! self-signed test certificates, and the decisions of the msquic test
//! server's set-up.
use gm_quic::QuicClient;
use quinn::crypto::rustls::{NoInitialCipherSuite, QuicClientConfig};
use rustls::client::danger::{HandshakeSignatureValid, ServerCertVerified, ServerCertVerifier};
use rustls::crypto::CryptoProvider;
use rustls::pki_types::{CertificateDer, ServerName, UnixTime};
use rustls::{ClientConfig, DigitallySignedStruct};
use std::sync::Arc;
use vstd::prelude::*;

verus! {

#[verifier::external_type_specification]
#[verifier::external_body]
pub struct ExCryptoProvider(CryptoProvider);

#[verifier::external_type_specification]
#[verifier::external_body]
pub struct ExCertificateDer<'a>(CertificateDer<'a>);

#[verifier::external_type_specification]
#[verifier::external_body]
pub struct ExServerName<'a>(ServerName<'a>);

#[verifier::external_type_specification]
#[verifier::external_body]
pub struct ExUnixTime(UnixTime);

#[verifier::external_type_specification]
#[verifier::external_body]
pub struct ExDigitallySignedStruct(DigitallySignedStruct);

#[verifier::external_type_specification]
#[verifier::external_body]
pub struct ExServerCertVerified(ServerCertVerified);

#[verifier::external_type_specification]
#[verifier::external_body]
pub struct ExHandshakeSignatureValid(HandshakeSignatureValid);

#[verifier::external_type_specification]
#[verifier::external_body]
pub struct ExRustlsError(rustls::Error);

#[verifier::external_type_specification]
#[verifier::external_body]
pub struct ExSignatureScheme(rustls::SignatureScheme);

#[verifier::external_type_specification]
#[verifier::external_body]
pub struct ExClientConfig(ClientConfig);

#[verifier::external_type_specification]
#[verifier::external_body]
pub struct ExQuicClientConfig(QuicClientConfig);

#[verifier::external_type_specification]
#[verifier::external_body]
pub struct ExNoInitialCipherSuite(NoInitialCipherSuite);

#[verifier::external_type_specification]
#[verifier::external_body]
pub struct ExQuinnClientConfig(quinn::ClientConfig);

#[verifier::external_type_specification]
#[verifier::external_body]
pub struct ExQuinnEndpoint(quinn::Endpoint);

#[verifier::external_type_specification]
#[verifier::external_body]
pub struct ExIoError(std::io::Error);

#[verifier::external_type_specification]
#[verifier::external_body]
pub struct ExQuicClient(QuicClient);

// ---------------------------------------------------------------------------
// The greeting service
// ---------------------------------------------------------------------------

/// The greeter service of the tests.
#[derive(Default)]
pub struct HelloWorldService {}

/// The reply that the greeter gives to `name`.
pub open spec fn spec_hello(name: Seq<char>) -> Seq<char> {
    "hello "@ + name
}

/// The message of the greeter's reply to `name`.
pub fn hello_message(name: &str) -> (r: String)
    ensures
        r@ == spec_hello(name@),
{
    let mut m = "hello ".to_owned();
    m.append(name);
    m
}

// ---------------------------------------------------------------------------
// A verifier that accepts any server certificate
// ---------------------------------------------------------------------------

/// A server certificate verifier that accepts every certificate, and checks
/// handshake signatures with the algorithms of a crypto provider.
#[derive(Debug)]
pub struct NoCertificateVerification(CryptoProvider);

impl NoCertificateVerification {
    /// The crypto provider whose algorithms check handshake signatures.
    pub closed spec fn spec_provider(&self) -> CryptoProvider {
        self.0
    }

    /// A verifier that checks handshake signatures with `provider`.
    pub fn new(provider: CryptoProvider) -> (r: Self)
        ensures
            r.spec_provider() == provider,
    {
        Self(provider)
    }
}

impl ServerCertVerifier for NoCertificateVerification {
    /// Returns `rustls::client::danger::ServerCertVerified::assertion()`:
    /// every server certificate is accepted.
    #[verifier::external_body]
    fn verify_server_cert(
        &self,
        _end_entity: &CertificateDer<'_>,
        _intermediates: &[CertificateDer<'_>],
        _server_name: &ServerName<'_>,
        _ocsp: &[u8],
        _now: UnixTime,
    ) -> Result<ServerCertVerified, rustls::Error> {
        Ok(ServerCertVerified::assertion())
    }

    /// Calls `rustls::crypto::verify_tls12_signature` with the provider's
    /// signature verification algorithms.
    #[verifier::external_body]
    fn verify_tls12_signature(
        &self,
        message: &[u8],
        cert: &CertificateDer<'_>,
        dss: &DigitallySignedStruct,
    ) -> Result<HandshakeSignatureValid, rustls::Error> {
        rustls::crypto::verify_tls12_signature(
            message,
            cert,
            dss,
            &self.0.signature_verification_algorithms,
        )
    }

    /// Calls `rustls::crypto::verify_tls13_signature` with the provider's
    /// signature verification algorithms.
    #[verifier::external_body]
    fn verify_tls13_signature(
        &self,
        message: &[u8],
        cert: &CertificateDer<'_>,
        dss: &DigitallySignedStruct,
    ) -> Result<HandshakeSignatureValid, rustls::Error> {
        rustls::crypto::verify_tls13_signature(
            message,
            cert,
            dss,
            &self.0.signature_verification_algorithms,
        )
    }

    /// Calls `WebPkiSupportedAlgorithms::supported_schemes` on the
    /// provider's signature verification algorithms.
    #[verifier::external_body]
    fn supported_verify_schemes(&self) -> Vec<rustls::SignatureScheme> {
        self.0.signature_verification_algorithms.supported_schemes()
    }
}

/// Why a test client could not be set up.
#[derive(Debug)]
pub enum SetupError {
    /// The TLS configuration was refused by rustls.
    Tls(rustls::Error),
    /// The TLS configuration offers no TLS 1.3 cipher suite usable by QUIC.
    NoInitialCipherSuite(NoInitialCipherSuite),
    /// The client socket could not be bound.
    Bind(std::io::Error),
}

/// Whether a crypto provider is rustls's default provider over ring, which
/// offers TLS 1.3 and TLS 1.2 cipher suites (`TLS13_AES_128_GCM_SHA256`
/// among them) and key-exchange groups.
pub uninterp spec fn provider_is_ring_default(p: CryptoProvider) -> bool;

/// Whether a rustls client configuration was built over rustls's default
/// provider over ring.
pub uninterp spec fn tls_over_ring_default(cfg: ClientConfig) -> bool;

/// Calls `rustls::crypto::ring::default_provider`.
#[verifier::external_body]
fn ring_default_provider() -> (r: CryptoProvider)
    ensures
        provider_is_ring_default(r),
{
    rustls::crypto::ring::default_provider()
}

/// Builds a rustls client configuration with the given crypto provider and
/// its safe default protocol versions (`ClientConfig::builder_with_provider`,
/// `with_safe_default_protocol_versions`), the given server certificate
/// verifier (`dangerous().with_custom_certificate_verifier`), and no client
/// certificate (`with_no_client_auth`). The protocol-version step is the one
/// that can fail, when the provider has no cipher suite or no key-exchange
/// group for those versions; the ring provider has both, so over it the
/// call succeeds. The chain stands in one wrapper because the intermediate
/// `ConfigBuilder` type, bounded by a sealed rustls trait, cannot be declared
/// to the verifier. A configuration it returns verifies server certificates
/// with `verifier`, which accepts every one; its ALPN list is empty and
/// early data is off (the rustls defaults).
#[verifier::external_body]
fn client_config_with_verifier(
    provider: CryptoProvider,
    verifier: NoCertificateVerification,
) -> (r: Result<ClientConfig, rustls::Error>)
    ensures
        r matches Ok(c) ==> tls_accepts_any_server_cert(c) && !tls_early_data(c)
            && tls_alpn_protocols(c) =~= Seq::<Seq<u8>>::empty() && tls_over_ring_default(c)
            == provider_is_ring_default(provider),
        provider_is_ring_default(provider) ==> r is Ok,
{
    let builder = ClientConfig::builder_with_provider(Arc::new(provider))
        .with_safe_default_protocol_versions()?;
    Ok(builder.dangerous().with_custom_certificate_verifier(Arc::new(verifier)).with_no_client_auth())
}

/// Whether a rustls client configuration accepts every server certificate
/// (its verifier is a [`NoCertificateVerification`]).
pub uninterp spec fn tls_accepts_any_server_cert(cfg: ClientConfig) -> bool;

/// The `enable_early_data` field of a rustls client configuration.
pub uninterp spec fn tls_early_data(cfg: ClientConfig) -> bool;

/// The `alpn_protocols` field of a rustls client configuration.
pub uninterp spec fn tls_alpn_protocols(cfg: ClientConfig) -> Seq<Seq<u8>>;

/// Sets the `enable_early_data` field of a rustls client configuration,
/// leaving the other fields as they are.
#[verifier::external_body]
fn set_enable_early_data(cfg: &mut ClientConfig, on: bool)
    ensures
        tls_early_data(*final(cfg)) == on,
        tls_alpn_protocols(*final(cfg)) == tls_alpn_protocols(*old(cfg)),
        tls_accepts_any_server_cert(*final(cfg)) == tls_accepts_any_server_cert(*old(cfg)),
        tls_over_ring_default(*final(cfg)) == tls_over_ring_default(*old(cfg)),
{
    cfg.enable_early_data = on;
}

/// Sets the `alpn_protocols` field of a rustls client configuration,
/// leaving the other fields as they are.
#[verifier::external_body]
fn set_alpn_protocols(cfg: &mut ClientConfig, protocols: Vec<Vec<u8>>)
    ensures
        tls_alpn_protocols(*final(cfg)) == protocols@.map_values(|p: Vec<u8>| p@),
        tls_early_data(*final(cfg)) == tls_early_data(*old(cfg)),
        tls_accepts_any_server_cert(*final(cfg)) == tls_accepts_any_server_cert(*old(cfg)),
        tls_over_ring_default(*final(cfg)) == tls_over_ring_default(*old(cfg)),
{
    cfg.alpn_protocols = protocols;
}

/// A client configuration over the ring provider that accepts every server
/// certificate, enables early data and offers exactly the ALPN protocol `h3`.
pub open spec fn danger_h3_config(c: ClientConfig) -> bool {
    &&& tls_over_ring_default(c)
    &&& tls_accepts_any_server_cert(c)
    &&& tls_early_data(c)
    &&& tls_alpn_protocols(c) == seq![seq![0x68u8, 0x33u8]]
}

/// A rustls client configuration over the ring provider that accepts any
/// server certificate, enables early data and offers the `h3` ALPN. It always
/// succeeds: the only step that could fail, the choice of protocol versions
/// by rustls, succeeds over the ring provider.
pub fn make_danger_rustls_client_config() -> (r: Result<ClientConfig, SetupError>)
    ensures
        r matches Ok(c) && danger_h3_config(c),
{
    let verifier = NoCertificateVerification::new(ring_default_provider());
    let mut tls_config = match client_config_with_verifier(ring_default_provider(), verifier) {
        Ok(c) => c,
        Err(_) => vstd::pervasive::unreached(),
    };
    set_enable_early_data(&mut tls_config, true);
    let protocols = vec![vec![0x68u8, 0x33u8]];
    proof {
        assert(protocols@.map_values(|p: Vec<u8>| p@) =~= seq![seq![0x68u8, 0x33u8]]);
    }
    set_alpn_protocols(&mut tls_config, protocols);
    Ok(tls_config)
}

/// The QUIC crypto configuration that quinn makes of a rustls client
/// configuration (`QuicClientConfig::try_from`).
pub uninterp spec fn quic_crypto_of(tls: ClientConfig) -> QuicClientConfig;

/// The quinn client configuration made over a QUIC crypto configuration
/// (`quinn::ClientConfig::new`).
pub uninterp spec fn quinn_config_of(crypto: QuicClientConfig) -> quinn::ClientConfig;

/// The default client configuration of a quinn endpoint, if it has one.
pub uninterp spec fn endpoint_default_config(ep: quinn::Endpoint) -> Option<quinn::ClientConfig>;

/// The IPv6 address (as its eight 16-bit groups) that a quinn endpoint is
/// bound to.
pub uninterp spec fn endpoint_local_ip(ep: quinn::Endpoint) -> Seq<u16>;

/// Calls `QuicClientConfig::try_from` on a rustls client configuration; it
/// fails only when the configuration's provider has no
/// `TLS13_AES_128_GCM_SHA256` suite for the initial packets, which the ring
/// provider has.
#[verifier::external_body]
fn quic_client_config(tls: ClientConfig) -> (r: Result<QuicClientConfig, NoInitialCipherSuite>)
    ensures
        r matches Ok(c) ==> c == quic_crypto_of(tls),
        tls_over_ring_default(tls) ==> r is Ok,
{
    QuicClientConfig::try_from(tls)
}

/// Calls `quinn::ClientConfig::new`.
#[verifier::external_body]
fn quinn_client_config(crypto: QuicClientConfig) -> (r: quinn::ClientConfig)
    ensures
        r == quinn_config_of(crypto),
{
    quinn::ClientConfig::new(Arc::new(crypto))
}

/// Calls `quinn::Endpoint::client` on the IPv6 address `ip` and `port` (0
/// asks for an ephemeral port). An endpoint it returns is bound to `ip` and
/// has no default client configuration yet.
#[verifier::external_body]
fn bind_quinn_client_endpoint(ip: [u16; 8], port: u16) -> (r: Result<quinn::Endpoint, std::io::Error>)
    ensures
        r matches Ok(ep) ==> endpoint_local_ip(ep) == ip@ && endpoint_default_config(ep) is None,
{
    quinn::Endpoint::client((ip, port).into())
}

/// Calls `quinn::Endpoint::set_default_client_config`, which replaces the
/// endpoint's default client configuration and leaves its address.
#[verifier::external_body]
fn set_default_client_config(ep: &mut quinn::Endpoint, cfg: quinn::ClientConfig)
    ensures
        endpoint_default_config(*final(ep)) == Some(cfg),
        endpoint_local_ip(*final(ep)) == endpoint_local_ip(*old(ep)),
{
    ep.set_default_client_config(cfg)
}

/// The IPv6 wildcard address `::`, as eight 16-bit groups.
pub open spec fn ipv6_unspecified() -> Seq<u16> {
    seq![0u16, 0u16, 0u16, 0u16, 0u16, 0u16, 0u16, 0u16]
}

/// A quinn client endpoint on the wildcard address whose default client
/// configuration accepts any server certificate, enables early data and
/// offers the `h3` ALPN. Only binding the socket can fail.
pub fn make_test_quinn_client_endpoint() -> (r: Result<quinn::Endpoint, SetupError>)
    ensures
        r matches Err(e) ==> e is Bind,
        r matches Ok(ep) ==> endpoint_local_ip(ep) == ipv6_unspecified() && exists|tls: ClientConfig|
            danger_h3_config(tls) && endpoint_default_config(ep) == Some(
                quinn_config_of(#[trigger] quic_crypto_of(tls)),
            ),
{
    let tls_config = make_danger_rustls_client_config()?;
    let ghost tls = tls_config;
    let crypto = match quic_client_config(tls_config) {
        Ok(c) => c,
        Err(e) => {
            return Err(SetupError::NoInitialCipherSuite(e));
        },
    };
    let ip: [u16; 8] = [0u16, 0u16, 0u16, 0u16, 0u16, 0u16, 0u16, 0u16];
    let mut client_endpoint = match bind_quinn_client_endpoint(ip, 0u16) {
        Ok(ep) => ep,
        Err(e) => {
            return Err(SetupError::Bind(e));
        },
    };
    proof {
        assert(ip@ =~= ipv6_unspecified());
    }
    set_default_client_config(&mut client_endpoint, quinn_client_config(crypto));
    assert(endpoint_default_config(client_endpoint) == Some(quinn_config_of(quic_crypto_of(tls))));
    Ok(client_endpoint)
}

// ---------------------------------------------------------------------------
// Test certificates
// ---------------------------------------------------------------------------

#[verifier::external_type_specification]
#[verifier::external_body]
pub struct ExRcgenCertificate(rcgen::Certificate);

#[verifier::external_type_specification]
#[verifier::external_body]
pub struct ExRcgenKeyPair(rcgen::KeyPair);

#[verifier::external_type_specification]
#[verifier::external_body]
pub struct ExRcgenError(rcgen::Error);

/// The subject alternative names that a certificate was made for, as they
/// were written.
pub uninterp spec fn cert_subject_alt_names(c: rcgen::Certificate) -> Seq<Seq<char>>;

/// Calls `rcgen::generate_simple_self_signed`, which makes a fresh key pair
/// and a self-signed certificate for the given subject alternative names (a
/// name that reads as an IP address becomes an IP address name, any other a
/// DNS name); it fails on a name that is not ASCII, or when the key cannot
/// be made. The certificate and its key are handed back as a pair.
#[verifier::external_body]
fn self_signed(subject_alt_names: Vec<String>) -> (r: Result<(rcgen::Certificate, rcgen::KeyPair), rcgen::Error>)
    ensures
        r matches Ok(ck) ==> cert_subject_alt_names(ck.0) == subject_alt_names@.map_values(
            |n: String| n@,
        ),
{
    match rcgen::generate_simple_self_signed(subject_alt_names) {
        Ok(ck) => Ok((ck.cert, ck.signing_key)),
        Err(e) => Err(e),
    }
}

/// A self-signed test certificate for `subject_alt_names`, with its key.
pub fn make_test_cert(subject_alt_names: Vec<String>) -> (r: Result<(rcgen::Certificate, rcgen::KeyPair), rcgen::Error>)
    ensures
        r matches Ok(ck) ==> cert_subject_alt_names(ck.0) == subject_alt_names@.map_values(
            |n: String| n@,
        ),
{
    self_signed(subject_alt_names)
}

/// What to do with the test certificate files of a test.
#[derive(Clone, Copy, Debug, PartialEq, Eq, Structural)]
pub enum CertFilesPlan {
    /// Remove the test's directory, create it anew, and write new files.
    RemoveAndRegenerate,
    /// Both files are there: use them.
    Keep,
    /// A file is missing: write new files.
    Generate,
}

/// The plan for the certificate files: regenerate when asked to; else keep
/// the key and certificate files when both exist, and write new ones when
/// either is missing.
pub fn cert_files_plan(regen: bool, key_exists: bool, cert_exists: bool) -> (r: CertFilesPlan)
    ensures
        r == (if regen {
            CertFilesPlan::RemoveAndRegenerate
        } else if key_exists && cert_exists {
            CertFilesPlan::Keep
        } else {
            CertFilesPlan::Generate
        }),
{
    if regen {
        CertFilesPlan::RemoveAndRegenerate
    } else if key_exists && cert_exists {
        CertFilesPlan::Keep
    } else {
        CertFilesPlan::Generate
    }
}

// ---------------------------------------------------------------------------
// msquic test server set-up
// ---------------------------------------------------------------------------

/// The certificate thumbprint that the certificate-store query printed: one
/// trailing line feed is dropped, and with it a carriage return before it;
/// nothing left means that no test certificate exists yet.
pub open spec fn spec_thumbprint(out: Seq<char>) -> Option<Seq<char>> {
    let t = if out.len() > 0 && out.last() == '\n' {
        let u = out.drop_last();
        if u.len() > 0 && u.last() == '\r' {
            u.drop_last()
        } else {
            u
        }
    } else {
        out
    };
    if t.len() == 0 {
        None
    } else {
        Some(t)
    }
}

/// Reads the certificate thumbprint from the output of the certificate-store
/// query (see [`spec_thumbprint`]).
pub fn cert_thumbprint(out: &str) -> (r: Option<String>)
    ensures
        match r {
            Some(s) => spec_thumbprint(out@) == Some(s@),
            None => spec_thumbprint(out@) is None,
        },
{
    let n = out.unicode_len();
    let mut end: usize = n;
    if end > 0 && out.get_char(end - 1) == '\n' {
        end = end - 1;
        if end > 0 && out.get_char(end - 1) == '\r' {
            end = end - 1;
        }
    }
    if end == 0 {
        None
    } else {
        let t = out.substring_char(0, end);
        proof {
            assert(t@ =~= spec_thumbprint(out@)->Some_0);
        }
        Some(t.to_owned())
    }
}

/// How many times opening the msquic test listener is retried while its
/// address is still in use by an earlier run.
pub const LISTENER_BIND_RETRIES: u32 = 30;

/// Whether failed attempt number `attempt` (counted from 0) to open the test
/// listener is retried: only while the address is in use, and only for the
/// first [`LISTENER_BIND_RETRIES`] attempts; otherwise the set-up fails.
pub fn retry_listener_bind(attempt: u32, address_in_use: bool) -> (r: bool)
    ensures
        r == (attempt < LISTENER_BIND_RETRIES && address_in_use),
{
    attempt < LISTENER_BIND_RETRIES && address_in_use
}

// ---------------------------------------------------------------------------
// gm-quic client
// ---------------------------------------------------------------------------

/// Builds a gm-quic client (`QuicClient::builder`) that does not verify
/// server certificates (`without_verifier`), presents no client certificate
/// (`without_cert`), offers the single ALPN protocol id `alpn`
/// (`with_alpns`), and is otherwise default (`build`). The chain stands in one
/// wrapper because the type-state builder of gm-quic cannot be declared to
/// the verifier.
#[verifier::external_body]
fn gm_client_without_verification(alpn: &str) -> (r: QuicClient)
    ensures
        gm_client_alpns(r) == seq![alpn@],
        gm_client_accepts_any_server_cert(r),
        !gm_client_presents_cert(r),
{
    QuicClient::builder().without_verifier().without_cert().with_alpns([alpn]).build()
}

/// The ALPN protocol ids that a gm-quic client offers.
pub uninterp spec fn gm_client_alpns(c: QuicClient) -> Seq<Seq<char>>;

/// Whether a gm-quic client accepts every server certificate (its verifier
/// is the one `without_verifier` installs).
pub uninterp spec fn gm_client_accepts_any_server_cert(c: QuicClient) -> bool;

/// Whether a gm-quic client presents a client certificate.
pub uninterp spec fn gm_client_presents_cert(c: QuicClient) -> bool;

/// A gm-quic client that does not verify server certificates, presents no
/// client certificate, and offers the `h3` ALPN.
pub fn make_test_gm_quic_client() -> (r: QuicClient)
    ensures
        gm_client_alpns(r) == seq!["h3"@],
        gm_client_accepts_any_server_cert(r),
        !gm_client_presents_cert(r),
{
    gm_client_without_verification("h3")
}

} // verus!
