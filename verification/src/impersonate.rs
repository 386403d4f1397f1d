//! The profile registry: one concrete profile per named impersonation
//! target.
//!
//! The target set is closed; each target fixes an explicit extension
//! permutation (so its fingerprint is deterministic), its GREASE and
//! resumption behaviour, and its identifier lists.  Two different targets
//! configure different extension orders.

use crate::compiler::compile_failure;
use crate::settings::CertCompressionAlg;
use crate::settings::HttpVersionPref;
use crate::settings::TlsSettings;
use crate::settings::TlsVersion;
use vstd::prelude::*;

verus! {

/// A named impersonation target.
#[derive(Clone, Copy, Debug, PartialEq, Eq, Structural)]
pub enum Impersonate {
    Chrome,
    Firefox,
    Safari,
    OkHttp,
}

/// The extension order a target advertises, as extension identifiers.
pub open spec fn target_extension_order(target: Impersonate) -> Seq<u16> {
    match target {
        Impersonate::Chrome => seq![51u16, 43u16, 0u16, 23u16, 13u16, 10u16],
        Impersonate::Firefox => seq![0u16, 23u16, 65281u16, 10u16, 13u16, 51u16],
        Impersonate::Safari => seq![0u16, 10u16, 13u16, 43u16, 51u16],
        Impersonate::OkHttp => seq![0u16, 10u16, 13u16, 16u16],
    }
}

/// Build the target's extension permutation as a vector.
fn target_extension_vec(target: Impersonate) -> (v: Vec<u16>)
    ensures
        v@ == target_extension_order(target),
{
    let mut v: Vec<u16> = Vec::new();
    match target {
        Impersonate::Chrome => {
            v.push(51);
            v.push(43);
            v.push(0);
            v.push(23);
            v.push(13);
            v.push(10);
        },
        Impersonate::Firefox => {
            v.push(0);
            v.push(23);
            v.push(65281);
            v.push(10);
            v.push(13);
            v.push(51);
        },
        Impersonate::Safari => {
            v.push(0);
            v.push(10);
            v.push(13);
            v.push(43);
            v.push(51);
        },
        Impersonate::OkHttp => {
            v.push(0);
            v.push(10);
            v.push(13);
            v.push(16);
        },
    }
    proof {
        assert(v@ =~= target_extension_order(target));
    }
    v
}

/// The profile of a named target.
///
/// Every target pins its extension order explicitly (no randomized
/// permutation, no index remap), keeps GREASE on, participates in session
/// resumption, offers both HTTP versions, and stays within the negotiable
/// version range, so the profile always compiles.
pub fn tls_settings(target: Impersonate) -> (s: TlsSettings)
    ensures
        s.extension_permutation is Some,
        s.extension_permutation->Some_0@ == target_extension_order(target),
        s.extension_permutation_indices is None,
        s.permute_extensions is None,
        s.grease_enabled == Some(true),
        s.pre_shared_key == true,
        s.alpn_protos == HttpVersionPref::Http1AndHttp2,
        s.cert_verification == true,
        compile_failure(s) is None,
{
    let mut s = TlsSettings::new();
    s.min_version = Some(TlsVersion::tls_1_2());
    s.max_version = Some(TlsVersion::tls_1_3());
    s.grease_enabled = Some(true);
    s.pre_shared_key = true;
    s.application_settings = true;
    s.extension_permutation = Some(target_extension_vec(target));
    match target {
        Impersonate::Chrome => {
            s.cert_compression_algorithms = Some(brotli_only());
        },
        Impersonate::Firefox => {
            s.delegated_credentials = Some(ecdsa_delegated());
            s.application_settings = false;
        },
        Impersonate::Safari => {
            s.cert_compression_algorithms = Some(zlib_only());
            s.application_settings = false;
        },
        Impersonate::OkHttp => {
            s.grease_enabled = Some(true);
            s.application_settings = false;
        },
    }
    s
}

/// Law: the chrome and firefox targets configure different extension
/// orders, each fixed by its explicit list, so the two fingerprints are
/// distinct and individually deterministic.
pub proof fn lemma_distinct_browser_orders()
    ensures
        target_extension_order(Impersonate::Chrome) != target_extension_order(
            Impersonate::Firefox,
        ),
{
    let c = target_extension_order(Impersonate::Chrome);
    let f = target_extension_order(Impersonate::Firefox);
    assert(c[0] == 51u16 && f[0] == 0u16);
}

fn brotli_only() -> (v: Vec<CertCompressionAlg>)
    ensures
        v@ == seq![CertCompressionAlg::Brotli],
{
    let mut v: Vec<CertCompressionAlg> = Vec::new();
    v.push(CertCompressionAlg::Brotli);
    proof {
        assert(v@ =~= seq![CertCompressionAlg::Brotli]);
    }
    v
}

fn zlib_only() -> (v: Vec<CertCompressionAlg>)
    ensures
        v@ == seq![CertCompressionAlg::Zlib],
{
    let mut v: Vec<CertCompressionAlg> = Vec::new();
    v.push(CertCompressionAlg::Zlib);
    proof {
        assert(v@ =~= seq![CertCompressionAlg::Zlib]);
    }
    v
}

fn ecdsa_delegated() -> (v: Vec<String>)
    ensures
        v@.len() == 1,
{
    let mut v: Vec<String> = Vec::new();
    v.push("ecdsa_secp256r1_sha256".to_string());
    v
}

} // verus!
