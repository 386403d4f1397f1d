use tls_fingerprint::compiler::connect_layer;
use tls_fingerprint::compiler::BaseBuilder;
use tls_fingerprint::compiler::StepTag;
use tls_fingerprint::compiler::TlsConfigError;
use tls_fingerprint::settings::CertCompressionAlg;
use tls_fingerprint::settings::HttpVersionPref;
use tls_fingerprint::settings::RootCertsStore;
use tls_fingerprint::settings::TlsSettings;
use tls_fingerprint::settings::TlsVersion;

#[test]
fn default_profile_compiles_to_fixed_prefix() {
    let layer = connect_layer(TlsSettings::new()).unwrap();
    assert_eq!(
        layer.steps,
        vec![
            StepTag::SelectBase(BaseBuilder::EngineDefault),
            StepTag::SetCertVerification(true),
            StepTag::SetAlpnProtos(HttpVersionPref::Http1AndHttp2),
        ]
    );
}

fn chrome_like() -> TlsSettings {
    let mut s = TlsSettings::new();
    s.min_version = Some(TlsVersion::tls_1_2());
    s.max_version = Some(TlsVersion::tls_1_3());
    s.enable_ocsp_stapling = true;
    s.enable_signed_cert_timestamps = true;
    s.session_ticket = Some(false);
    s.grease_enabled = Some(true);
    s.permute_extensions = Some(true);
    s.extension_permutation = Some(vec![0, 10, 16, 5]);
    s.curves = Some(vec!["X25519".to_string(), "P-256".to_string()]);
    s.sigalgs_list = Some(vec!["ecdsa_secp256r1_sha256".to_string()]);
    s.cipher_list = Some(vec!["TLS_AES_128_GCM_SHA256".to_string()]);
    s.cert_compression_algorithms = Some(vec![CertCompressionAlg::Brotli, CertCompressionAlg::Zlib]);
    s.record_size_limit = Some(0x4001);
    s.key_shares_length_limit = Some(2);
    s.pre_shared_key = true;
    s.application_settings = true;
    s.root_certs_store = RootCertsStore::Webpki;
    s
}

#[test]
fn full_profile_steps_come_in_the_documented_order() {
    let layer = connect_layer(chrome_like()).unwrap();
    assert_eq!(
        layer.steps,
        vec![
            StepTag::SelectBase(BaseBuilder::NoDefaultVerify),
            StepTag::SetCertVerification(true),
            StepTag::SetAlpnProtos(HttpVersionPref::Http1AndHttp2),
            StepTag::SetMinVersion(0x0303),
            StepTag::SetMaxVersion(0x0304),
            StepTag::EnableOcspStapling,
            StepTag::EnableSignedCertTimestamps,
            StepTag::DisableSessionTicket,
            StepTag::SetGrease(true),
            StepTag::SetExtensionPermutation,
            StepTag::SetCurves,
            StepTag::SetSigalgsList,
            StepTag::SetCipherList,
            StepTag::AddCertCompression(CertCompressionAlg::Brotli),
            StepTag::AddCertCompression(CertCompressionAlg::Zlib),
            StepTag::SetRecordSizeLimit(0x4001),
            StepTag::SetKeySharesLengthLimit(2),
            StepTag::InstallVerifyCertStore(RootCertsStore::Webpki),
        ]
    );
}

#[test]
fn compiling_twice_yields_identical_extension_order() {
    let a = connect_layer(chrome_like()).unwrap();
    let b = connect_layer(chrome_like()).unwrap();
    assert_eq!(a.steps, b.steps);
    assert_eq!(a.settings.extension_permutation, Some(vec![0, 10, 16, 5]));
    assert_eq!(a.settings.extension_permutation, b.settings.extension_permutation);
}

#[test]
fn explicit_permutation_wins_over_randomized_toggle() {
    let layer = connect_layer(chrome_like()).unwrap();
    assert!(layer.steps.contains(&StepTag::SetExtensionPermutation));
    assert!(!layer.steps.contains(&StepTag::SetPermuteExtensions(true)));
    assert!(!layer.steps.contains(&StepTag::SetPermuteExtensions(false)));

    let mut random_only = TlsSettings::new();
    random_only.permute_extensions = Some(true);
    let layer = connect_layer(random_only).unwrap();
    assert!(layer.steps.contains(&StepTag::SetPermuteExtensions(true)));
    assert!(!layer.steps.contains(&StepTag::SetExtensionPermutation));
}

#[test]
fn empty_explicit_permutation_is_identity_but_still_explicit() {
    let mut s = TlsSettings::new();
    s.extension_permutation = Some(vec![]);
    s.permute_extensions = Some(true);
    let layer = connect_layer(s).unwrap();
    assert!(layer.steps.contains(&StepTag::SetExtensionPermutation));
    assert!(!layer.steps.contains(&StepTag::SetPermuteExtensions(true)));
}

#[test]
fn pinned_valid_version_compiles_and_bounds_both_sides() {
    let mut s = TlsSettings::new();
    s.min_version = Some(TlsVersion::tls_1_2());
    s.max_version = Some(TlsVersion::tls_1_2());
    let layer = connect_layer(s).unwrap();
    assert!(layer.steps.contains(&StepTag::SetMinVersion(0x0303)));
    assert!(layer.steps.contains(&StepTag::SetMaxVersion(0x0303)));
}

#[test]
fn pinned_unknown_version_fails() {
    let mut s = TlsSettings::new();
    s.min_version = Some(TlsVersion::new(0x9999));
    s.max_version = Some(TlsVersion::new(0x9999));
    match connect_layer(s) {
        Err(e) => assert_eq!(e, TlsConfigError::EngineRejected(StepTag::SetMinVersion(0x9999))),
        Ok(_) => panic!("expected a rejected version code"),
    }
}

#[test]
fn inverted_version_range_fails() {
    let mut s = TlsSettings::new();
    s.min_version = Some(TlsVersion::tls_1_3());
    s.max_version = Some(TlsVersion::tls_1_2());
    match connect_layer(s) {
        Err(e) => assert_eq!(e, TlsConfigError::VersionRange),
        Ok(_) => panic!("expected an inverted-range failure"),
    }
}

#[test]
fn index_remap_longer_than_permutation_fails() {
    let mut s = TlsSettings::new();
    s.extension_permutation = Some(vec![0, 1]);
    s.extension_permutation_indices = Some(vec![1, 0, 2]);
    match connect_layer(s) {
        Err(e) => assert_eq!(e, TlsConfigError::ExtensionPermutationRange),
        Ok(_) => panic!("expected an out-of-range remap failure"),
    }
}

#[test]
fn index_remap_without_permutation_fails() {
    let mut s = TlsSettings::new();
    s.extension_permutation_indices = Some(vec![0]);
    match connect_layer(s) {
        Err(e) => assert_eq!(e, TlsConfigError::ExtensionPermutationRange),
        Ok(_) => panic!("expected an out-of-range remap failure"),
    }
}

#[test]
fn index_remap_within_permutation_is_applied_after_it() {
    let mut s = TlsSettings::new();
    s.extension_permutation = Some(vec![0, 1, 2]);
    s.extension_permutation_indices = Some(vec![2, 0, 1]);
    let layer = connect_layer(s).unwrap();
    let perm = layer
        .steps
        .iter()
        .position(|t| *t == StepTag::SetExtensionPermutation)
        .unwrap();
    let remap = layer
        .steps
        .iter()
        .position(|t| *t == StepTag::SetExtensionPermutationIndices)
        .unwrap();
    assert!(perm < remap);
}

#[test]
fn profile_lists_are_sealed_verbatim() {
    let layer = connect_layer(chrome_like()).unwrap();
    assert_eq!(
        layer.settings.curves,
        Some(vec!["X25519".to_string(), "P-256".to_string()])
    );
    assert_eq!(layer.settings.cipher_list, Some(vec!["TLS_AES_128_GCM_SHA256".to_string()]));
    assert_eq!(
        layer.settings.cert_compression_algorithms,
        Some(vec![CertCompressionAlg::Brotli, CertCompressionAlg::Zlib])
    );
}

#[test]
fn compiled_cache_is_empty_and_respects_profile() {
    let mut layer = connect_layer(chrome_like()).unwrap();
    let d = tls_fingerprint::cache::Destination::new(vec![1], 443);
    assert!(layer.cache.lookup(&d).is_none());
    layer.cache.store(tls_fingerprint::cache::Destination::new(vec![1], 443), vec![7]);
    assert_eq!(layer.cache.lookup(&d), Some(vec![7]));

    let mut plain = TlsSettings::new();
    plain.pre_shared_key = false;
    let mut layer = connect_layer(plain).unwrap();
    layer.cache.store(tls_fingerprint::cache::Destination::new(vec![1], 443), vec![7]);
    assert!(layer.cache.lookup(&d).is_none());
}
