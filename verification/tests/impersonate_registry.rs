use tls_fingerprint::compiler::connect_layer;
use tls_fingerprint::compiler::StepTag;
use tls_fingerprint::impersonate::tls_settings;
use tls_fingerprint::impersonate::Impersonate;

#[test]
fn chrome_profile_compiles_with_its_declared_extension_order() {
    let layer = connect_layer(tls_settings(Impersonate::Chrome)).unwrap();
    assert!(layer.steps.contains(&StepTag::SetExtensionPermutation));
    assert_eq!(
        layer.settings.extension_permutation,
        Some(vec![51, 43, 0, 23, 13, 10])
    );

    let again = connect_layer(tls_settings(Impersonate::Chrome)).unwrap();
    assert_eq!(layer.steps, again.steps);
    assert_eq!(
        layer.settings.extension_permutation,
        again.settings.extension_permutation
    );
}

#[test]
fn chrome_and_firefox_orders_differ_but_each_is_deterministic() {
    let chrome = connect_layer(tls_settings(Impersonate::Chrome)).unwrap();
    let firefox = connect_layer(tls_settings(Impersonate::Firefox)).unwrap();
    assert_ne!(
        chrome.settings.extension_permutation,
        firefox.settings.extension_permutation
    );
    let firefox_again = connect_layer(tls_settings(Impersonate::Firefox)).unwrap();
    assert_eq!(firefox.steps, firefox_again.steps);
    assert_eq!(
        firefox.settings.extension_permutation,
        firefox_again.settings.extension_permutation
    );
}

#[test]
fn every_target_compiles_and_joins_the_session_cache() {
    for target in [
        Impersonate::Chrome,
        Impersonate::Firefox,
        Impersonate::Safari,
        Impersonate::OkHttp,
    ] {
        let s = tls_settings(target);
        assert_eq!(s.grease_enabled, Some(true));
        assert!(s.pre_shared_key);
        assert!(s.extension_permutation_indices.is_none());
        assert!(s.permute_extensions.is_none());
        let layer = connect_layer(s).unwrap();
        assert!(layer.steps.contains(&StepTag::SetExtensionPermutation));
    }
}
