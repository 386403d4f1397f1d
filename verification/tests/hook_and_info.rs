use tls_fingerprint::hook::encode_alpn;
use tls_fingerprint::hook::AlpnProtocol;
use tls_fingerprint::settings::HttpVersionPref;
use tls_fingerprint::settings::TlsSettings;
use tls_fingerprint::BoringTlsConnector;
use tls_fingerprint::TlsInfo;

fn connector(pref: HttpVersionPref, application_settings: bool) -> BoringTlsConnector {
    let mut s = TlsSettings::new();
    s.alpn_protos = pref;
    s.application_settings = application_settings;
    s.enable_ech_grease = true;
    s.tls_sni = false;
    BoringTlsConnector::new(s).unwrap()
}

#[test]
fn upgrade_attempt_advertises_only_http1() {
    for pref in [
        HttpVersionPref::Http1Only,
        HttpVersionPref::Http2Only,
        HttpVersionPref::Http1AndHttp2,
    ] {
        let hook = connector(pref, false).per_connection_config(true);
        assert_eq!(hook.alpn, vec![AlpnProtocol::Http1]);
        assert_eq!(encode_alpn(&hook.alpn), b"\x08http/1.1".to_vec());
    }
}

#[test]
fn plain_attempt_advertises_the_profile_preference() {
    let hook = connector(HttpVersionPref::Http1AndHttp2, false).per_connection_config(false);
    assert_eq!(hook.alpn, vec![AlpnProtocol::Http2, AlpnProtocol::Http1]);
    assert_eq!(encode_alpn(&hook.alpn), b"\x02h2\x08http/1.1".to_vec());

    let hook = connector(HttpVersionPref::Http2Only, false).per_connection_config(false);
    assert_eq!(hook.alpn, vec![AlpnProtocol::Http2]);
    assert_eq!(encode_alpn(&hook.alpn), b"\x02h2".to_vec());

    let hook = connector(HttpVersionPref::Http1Only, false).per_connection_config(false);
    assert_eq!(hook.alpn, vec![AlpnProtocol::Http1]);
    assert_eq!(encode_alpn(&hook.alpn), b"\x08http/1.1".to_vec());
}

#[test]
fn application_settings_follow_the_preference() {
    let hook = connector(HttpVersionPref::Http2Only, true).per_connection_config(false);
    assert_eq!(hook.application_settings, Some(vec![AlpnProtocol::Http2]));

    let hook = connector(HttpVersionPref::Http1AndHttp2, true).per_connection_config(true);
    // The upgrade override changes the ALPN list, not the ALPS payload.
    assert_eq!(
        hook.application_settings,
        Some(vec![AlpnProtocol::Http2, AlpnProtocol::Http1])
    );
    assert_eq!(hook.alpn, vec![AlpnProtocol::Http1]);

    let hook = connector(HttpVersionPref::Http2Only, false).per_connection_config(false);
    assert_eq!(hook.application_settings, None);
}

#[test]
fn hook_copies_the_per_attempt_toggles() {
    let hook = connector(HttpVersionPref::Http2Only, false).per_connection_config(false);
    assert!(hook.enable_ech_grease);
    assert!(!hook.verify_hostname);
}

#[test]
fn connector_keeps_the_profile_toggles() {
    let c = connector(HttpVersionPref::Http2Only, true);
    assert!(!c.tls_sni);
    assert!(c.enable_ech_grease);
    assert!(c.application_settings);
    assert_eq!(c.alpn_protos, HttpVersionPref::Http2Only);
}

#[test]
fn connector_mediates_the_shared_session_cache() {
    let mut s = TlsSettings::new();
    s.pre_shared_key = true;
    let mut c = BoringTlsConnector::new(s).unwrap();
    let d = tls_fingerprint::cache::Destination::new(b"example".to_vec(), 443);
    assert!(c.session_lookup(&d).is_none());
    c.session_store(tls_fingerprint::cache::Destination::new(b"example".to_vec(), 443), vec![9, 9]);
    assert_eq!(c.session_lookup(&d), Some(vec![9, 9]));
}

#[test]
fn peer_certificate_present() {
    let info = TlsInfo::new(Some(vec![0x30, 0x82, 0x01]));
    assert_eq!(info.peer_certificate(), Some(&[0x30u8, 0x82, 0x01][..]));
}

#[test]
fn peer_certificate_absent() {
    let info = TlsInfo::new(None);
    assert!(info.peer_certificate().is_none());
}
