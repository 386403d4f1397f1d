//! The profile data model: an immutable description of one impersonation
//! target's TLS handshake shape.

use vstd::prelude::*;

verus! {

/// Preference between HTTP/1.1 and HTTP/2, used to derive the ALPN and
/// application-settings payloads.
#[derive(Clone, Copy, Debug, PartialEq, Eq, Structural)]
pub enum HttpVersionPref {
    Http1Only,
    Http2Only,
    Http1AndHttp2,
}

/// A TLS protocol version, carried as the wire ordinal of the version
/// (`0x0301` for 1.0 through `0x0304` for 1.3).  The ordinal order of the
/// codes is the protocol order, so version bounds compare by `code`.
#[derive(Clone, Copy, Debug, PartialEq, Eq, Structural)]
pub struct TlsVersion {
    pub code: u16,
}

impl TlsVersion {
    /// The four versions the handshake engine can negotiate.
    pub open spec fn is_valid(self) -> bool {
        self.code == 0x0301 || self.code == 0x0302 || self.code == 0x0303
            || self.code == 0x0304
    }

    /// A version with an arbitrary wire code; `is_valid` tells whether the
    /// engine accepts it.
    pub fn new(code: u16) -> (v: TlsVersion)
        ensures
            v.code == code,
    {
        TlsVersion { code }
    }

    /// Whether the engine can negotiate this version.
    pub fn valid(&self) -> (b: bool)
        ensures
            b == self.is_valid(),
    {
        self.code == 0x0301 || self.code == 0x0302 || self.code == 0x0303 || self.code == 0x0304
    }

    /// Version 1.0 of the TLS protocol.
    pub fn tls_1_0() -> (v: TlsVersion)
        ensures
            v.code == 0x0301 && v.is_valid(),
    {
        TlsVersion { code: 0x0301 }
    }

    /// Version 1.1 of the TLS protocol.
    pub fn tls_1_1() -> (v: TlsVersion)
        ensures
            v.code == 0x0302 && v.is_valid(),
    {
        TlsVersion { code: 0x0302 }
    }

    /// Version 1.2 of the TLS protocol.
    pub fn tls_1_2() -> (v: TlsVersion)
        ensures
            v.code == 0x0303 && v.is_valid(),
    {
        TlsVersion { code: 0x0303 }
    }

    /// Version 1.3 of the TLS protocol.
    pub fn tls_1_3() -> (v: TlsVersion)
        ensures
            v.code == 0x0304 && v.is_valid(),
    {
        TlsVersion { code: 0x0304 }
    }
}

/// A certificate-compression algorithm the client may advertise.
#[derive(Clone, Copy, Debug, PartialEq, Eq, Structural)]
pub enum CertCompressionAlg {
    Zlib,
    Brotli,
    Zstd,
}

/// Which trust anchors the compiled connector installs.  `EngineDefault`
/// leaves the base builder's store untouched; the managed policies install
/// a store explicitly after every other step.
#[derive(Clone, Copy, Debug, PartialEq, Eq, Structural)]
pub enum RootCertsStore {
    EngineDefault,
    Native,
    Webpki,
}

/// One impersonation target's TLS handshake shape.  Immutable once
/// compiled: every connector derived from it behaves as a pure function of
/// these fields.
#[derive(Debug)]
pub struct TlsSettings {
    /// Whether the peer's certificate chain and hostname are validated.
    pub cert_verification: bool,
    /// Lower protocol version bound, if any.
    pub min_version: Option<TlsVersion>,
    /// Upper protocol version bound, if any.
    pub max_version: Option<TlsVersion>,
    /// HTTP version preference that the ALPN payloads are derived from.
    pub alpn_protos: HttpVersionPref,
    /// Request OCSP stapling.
    pub enable_ocsp_stapling: bool,
    /// Request the signed-certificate-timestamp extension.
    pub enable_signed_cert_timestamps: bool,
    /// `Some(false)` disables session-ticket issuance at the option level.
    pub session_ticket: Option<bool>,
    /// GREASE placeholder values in the handshake, if set.
    pub grease_enabled: Option<bool>,
    /// Randomized extension permutation, if set; an explicit
    /// `extension_permutation` list always wins over this.
    pub permute_extensions: Option<bool>,
    /// Explicit extension order; an empty list is the identity permutation.
    pub extension_permutation: Option<Vec<u16>>,
    /// Position remap composed with the named permutation; its length may
    /// not exceed the named permutation's.
    pub extension_permutation_indices: Option<Vec<u8>>,
    /// Supported groups, applied verbatim in this order.
    pub curves: Option<Vec<String>>,
    /// Signature algorithms, applied verbatim in this order.
    pub sigalgs_list: Option<Vec<String>>,
    /// Delegated-credential algorithms, applied verbatim in this order.
    pub delegated_credentials: Option<Vec<String>>,
    /// Cipher identifiers, applied verbatim in this order.
    pub cipher_list: Option<Vec<String>>,
    /// Certificate-compression algorithms, advertised in this order.
    pub cert_compression_algorithms: Option<Vec<CertCompressionAlg>>,
    /// Record-size-limit extension value, if advertised.
    pub record_size_limit: Option<u16>,
    /// Bound on the number of key shares offered, if any.
    pub key_shares_length_limit: Option<u8>,
    /// Whether this profile participates in the shared session cache.
    pub pre_shared_key: bool,
    /// Skip the session ticket when resuming through a pre-shared key.
    pub psk_skip_session_ticket: bool,
    /// Attach the ALPS (application settings) payload per connection.
    pub application_settings: bool,
    /// Verify that the peer's certificate matches the hostname.
    pub tls_sni: bool,
    /// Grease-pad the Encrypted-Client-Hello extension per connection.
    pub enable_ech_grease: bool,
    /// Trust-anchor policy resolved at compilation.
    pub root_certs_store: RootCertsStore,
}

impl TlsSettings {
    /// The engine-default profile: verify certificates, offer both HTTP
    /// versions, leave every optional knob unset.
    pub fn new() -> (s: TlsSettings)
        ensures
            s.cert_verification == true,
            s.min_version is None,
            s.max_version is None,
            s.alpn_protos == HttpVersionPref::Http1AndHttp2,
            s.enable_ocsp_stapling == false,
            s.enable_signed_cert_timestamps == false,
            s.session_ticket is None,
            s.grease_enabled is None,
            s.permute_extensions is None,
            s.extension_permutation is None,
            s.extension_permutation_indices is None,
            s.curves is None,
            s.sigalgs_list is None,
            s.delegated_credentials is None,
            s.cipher_list is None,
            s.cert_compression_algorithms is None,
            s.record_size_limit is None,
            s.key_shares_length_limit is None,
            s.pre_shared_key == false,
            s.psk_skip_session_ticket == false,
            s.application_settings == false,
            s.tls_sni == true,
            s.enable_ech_grease == false,
            s.root_certs_store == RootCertsStore::EngineDefault,
    {
        TlsSettings {
            cert_verification: true,
            min_version: None,
            max_version: None,
            alpn_protos: HttpVersionPref::Http1AndHttp2,
            enable_ocsp_stapling: false,
            enable_signed_cert_timestamps: false,
            session_ticket: None,
            grease_enabled: None,
            permute_extensions: None,
            extension_permutation: None,
            extension_permutation_indices: None,
            curves: None,
            sigalgs_list: None,
            delegated_credentials: None,
            cipher_list: None,
            cert_compression_algorithms: None,
            record_size_limit: None,
            key_shares_length_limit: None,
            pre_shared_key: false,
            psk_skip_session_ticket: false,
            application_settings: false,
            tls_sni: true,
            enable_ech_grease: false,
            root_certs_store: RootCertsStore::EngineDefault,
        }
    }
}

} // verus!
