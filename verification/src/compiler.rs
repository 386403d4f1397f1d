//! The connector compiler.
//!
//! Compilation turns an immutable profile into the explicit, ordered list
//! of builder steps that shape the emitted ClientHello.  The order of the
//! list is the fingerprint contract: for any "append extension" style
//! setting, the byte order of the emitted handshake is the order of the
//! steps, so the same profile always compiles to the same list.  The
//! compiled layer also carries a fresh bounded session cache tied to the
//! profile's resumption choices.
//!
//! Compilation validates what it can decide without the engine: version
//! codes the engine cannot negotiate, a lower version bound above the
//! upper one, and an extension-index remap longer than the named
//! permutation it composes with.  Any such profile is rejected whole; no
//! partially-compiled layer is ever returned.

use crate::cache::SessionCache;
use crate::settings::CertCompressionAlg;
use crate::settings::HttpVersionPref;
use crate::settings::RootCertsStore;
use crate::settings::TlsSettings;
use crate::settings::TlsVersion;
use vstd::prelude::*;

verus! {

/// The base builder a compilation starts from.  A managed trust policy
/// starts from a builder that skips automatic trust-store population,
/// because the store is installed explicitly as the last step.
#[derive(Clone, Copy, Debug, PartialEq, Eq, Structural)]
pub enum BaseBuilder {
    EngineDefault,
    NoDefaultVerify,
}

/// One builder step.  A compiled connector is the sequence of these, in
/// application order; list-valued settings (curves, ciphers, signature
/// algorithms, delegated credentials, the extension permutation) are
/// carried verbatim by the sealed profile the steps belong to.
#[derive(Clone, Copy, Debug, PartialEq, Eq, Structural)]
pub enum StepTag {
    SelectBase(BaseBuilder),
    SetCertVerification(bool),
    SetAlpnProtos(HttpVersionPref),
    SetMinVersion(u16),
    SetMaxVersion(u16),
    EnableOcspStapling,
    EnableSignedCertTimestamps,
    DisableSessionTicket,
    SetGrease(bool),
    SetExtensionPermutation,
    SetPermuteExtensions(bool),
    SetCurves,
    SetSigalgsList,
    SetDelegatedCredentials,
    SetCipherList,
    AddCertCompression(CertCompressionAlg),
    SetRecordSizeLimit(u16),
    SetKeySharesLengthLimit(u8),
    SetExtensionPermutationIndices,
    InstallVerifyCertStore(RootCertsStore),
}

/// Why a profile cannot be compiled.
#[derive(Clone, Copy, Debug, PartialEq, Eq, Structural)]
pub enum TlsConfigError {
    /// The lower version bound lies above the upper one.
    VersionRange,
    /// The extension-index remap is longer than the named permutation.
    ExtensionPermutationRange,
    /// The engine rejects the value the named step would apply.
    EngineRejected(StepTag),
}

/// The base builder a profile starts from.
pub open spec fn base_of(s: TlsSettings) -> BaseBuilder {
    match s.root_certs_store {
        RootCertsStore::EngineDefault => BaseBuilder::EngineDefault,
        RootCertsStore::Native => BaseBuilder::NoDefaultVerify,
        RootCertsStore::Webpki => BaseBuilder::NoDefaultVerify,
    }
}

/// The version-bound error of a profile, if any: a bound the engine cannot
/// negotiate is rejected first (lower bound before upper), then an
/// inverted range.
pub open spec fn version_error(s: TlsSettings) -> Option<TlsConfigError> {
    if s.min_version is Some && !s.min_version->Some_0.is_valid() {
        Some(TlsConfigError::EngineRejected(StepTag::SetMinVersion(s.min_version->Some_0.code)))
    } else if s.max_version is Some && !s.max_version->Some_0.is_valid() {
        Some(TlsConfigError::EngineRejected(StepTag::SetMaxVersion(s.max_version->Some_0.code)))
    } else if s.min_version is Some && s.max_version is Some && s.min_version->Some_0.code
        > s.max_version->Some_0.code {
        Some(TlsConfigError::VersionRange)
    } else {
        None
    }
}

/// How many extension positions the named permutation configures; an
/// absent list configures none.
pub open spec fn permutation_slots(s: TlsSettings) -> nat {
    match s.extension_permutation {
        Some(l) => l@.len(),
        None => 0,
    }
}

/// The index-remap error of a profile, if any: the remap composes with
/// the named permutation, so it may not name more positions than the
/// permutation has.
pub open spec fn indices_error(s: TlsSettings) -> Option<TlsConfigError> {
    match s.extension_permutation_indices {
        Some(idx) => if idx@.len() > permutation_slots(s) {
            Some(TlsConfigError::ExtensionPermutationRange)
        } else {
            None
        },
        None => None,
    }
}

/// The error compilation of `s` reports, if any; version bounds are
/// checked before the index remap.
pub open spec fn compile_failure(s: TlsSettings) -> Option<TlsConfigError> {
    if version_error(s) is Some {
        version_error(s)
    } else {
        indices_error(s)
    }
}

/// Steps bounding the negotiable protocol versions.
pub open spec fn version_steps(s: TlsSettings) -> Seq<StepTag> {
    (match s.min_version {
        Some(v) => seq![StepTag::SetMinVersion(v.code)],
        None => Seq::<StepTag>::empty(),
    }) + (match s.max_version {
        Some(v) => seq![StepTag::SetMaxVersion(v.code)],
        None => Seq::<StepTag>::empty(),
    })
}

/// Steps requesting OCSP stapling and signed certificate timestamps.
pub open spec fn stapling_steps(s: TlsSettings) -> Seq<StepTag> {
    (if s.enable_ocsp_stapling {
        seq![StepTag::EnableOcspStapling]
    } else {
        Seq::<StepTag>::empty()
    }) + (if s.enable_signed_cert_timestamps {
        seq![StepTag::EnableSignedCertTimestamps]
    } else {
        Seq::<StepTag>::empty()
    })
}

/// Step disabling session-ticket issuance when the profile asks for that.
pub open spec fn ticket_steps(s: TlsSettings) -> Seq<StepTag> {
    if s.session_ticket == Some(false) {
        seq![StepTag::DisableSessionTicket]
    } else {
        Seq::<StepTag>::empty()
    }
}

/// Step applying the GREASE toggle, if set.
pub open spec fn grease_steps(s: TlsSettings) -> Seq<StepTag> {
    match s.grease_enabled {
        Some(b) => seq![StepTag::SetGrease(b)],
        None => Seq::<StepTag>::empty(),
    }
}

/// Step ordering the extensions: an explicit permutation always wins over
/// the randomized toggle, and an explicit empty list is the identity
/// permutation, still applied explicitly.
pub open spec fn permutation_steps(s: TlsSettings) -> Seq<StepTag> {
    if s.extension_permutation is Some {
        seq![StepTag::SetExtensionPermutation]
    } else {
        match s.permute_extensions {
            Some(b) => seq![StepTag::SetPermuteExtensions(b)],
            None => Seq::<StepTag>::empty(),
        }
    }
}

/// Steps applying the identifier lists, each verbatim and in profile
/// order: curves, then signature algorithms, then delegated credentials,
/// then ciphers.
pub open spec fn list_steps(s: TlsSettings) -> Seq<StepTag> {
    (if s.curves is Some {
        seq![StepTag::SetCurves]
    } else {
        Seq::<StepTag>::empty()
    }) + (if s.sigalgs_list is Some {
        seq![StepTag::SetSigalgsList]
    } else {
        Seq::<StepTag>::empty()
    }) + (if s.delegated_credentials is Some {
        seq![StepTag::SetDelegatedCredentials]
    } else {
        Seq::<StepTag>::empty()
    }) + (if s.cipher_list is Some {
        seq![StepTag::SetCipherList]
    } else {
        Seq::<StepTag>::empty()
    })
}

/// One step per certificate-compression algorithm, appended in list order
/// because the order is the advertised preference.
pub open spec fn compression_steps(s: TlsSettings) -> Seq<StepTag> {
    match s.cert_compression_algorithms {
        Some(l) => l@.map_values(|a: CertCompressionAlg| StepTag::AddCertCompression(a)),
        None => Seq::<StepTag>::empty(),
    }
}

/// Steps applying the record-size and key-share length limits.
pub open spec fn limit_steps(s: TlsSettings) -> Seq<StepTag> {
    (match s.record_size_limit {
        Some(v) => seq![StepTag::SetRecordSizeLimit(v)],
        None => Seq::<StepTag>::empty(),
    }) + (match s.key_shares_length_limit {
        Some(v) => seq![StepTag::SetKeySharesLengthLimit(v)],
        None => Seq::<StepTag>::empty(),
    })
}

/// Step applying the extension-index remap, after the named permutation
/// it composes with.
pub open spec fn indices_steps(s: TlsSettings) -> Seq<StepTag> {
    if s.extension_permutation_indices is Some {
        seq![StepTag::SetExtensionPermutationIndices]
    } else {
        Seq::<StepTag>::empty()
    }
}

/// Step resolving trust anchors last: a managed policy installs its store
/// explicitly; the engine default is left untouched.
pub open spec fn store_steps(s: TlsSettings) -> Seq<StepTag> {
    match s.root_certs_store {
        RootCertsStore::EngineDefault => Seq::<StepTag>::empty(),
        RootCertsStore::Native => seq![StepTag::InstallVerifyCertStore(RootCertsStore::Native)],
        RootCertsStore::Webpki => seq![StepTag::InstallVerifyCertStore(RootCertsStore::Webpki)],
    }
}

/// The full application order of a profile's steps.  This sequence is the
/// ordering contract: compilation emits exactly these steps, in exactly
/// this order.
pub open spec fn steps_spec(s: TlsSettings) -> Seq<StepTag> {
    seq![
        StepTag::SelectBase(base_of(s)),
        StepTag::SetCertVerification(s.cert_verification),
        StepTag::SetAlpnProtos(s.alpn_protos),
    ] + version_steps(s) + stapling_steps(s) + ticket_steps(s) + grease_steps(s)
        + permutation_steps(s) + list_steps(s) + compression_steps(s) + limit_steps(s)
        + indices_steps(s) + store_steps(s)
}

/// A sealed connector template: the ordered steps, the profile they were
/// compiled from, and the session cache every connection of this template
/// shares.
pub struct HttpsLayer {
    /// The builder steps, in application order.
    pub steps: Vec<StepTag>,
    /// The profile the steps apply; carried verbatim so each list-valued
    /// step reads its payload from here.
    pub settings: TlsSettings,
    /// The shared session-resumption store, fresh and empty.
    pub cache: SessionCache,
}

/// What a successful compilation of `s` guarantees of its layer.
pub open spec fn layer_from(layer: HttpsLayer, s: TlsSettings) -> bool {
    &&& layer.steps@ == steps_spec(s)
    &&& layer.settings == s
    &&& layer.cache@ == Seq::<((Seq<u8>, u16), Seq<u8>)>::empty()
    &&& layer.cache.wf()
    &&& layer.cache.resumption_enabled() == s.pre_shared_key
    &&& layer.cache.skips_ticket() == s.psk_skip_session_ticket
}

/// Compile a profile into a sealed connector template.
///
/// Fails exactly when the profile itself is unusable — a version bound the
/// engine cannot negotiate, an inverted version range, or an extension
/// remap longer than the permutation it composes with — and otherwise
/// returns a layer carrying exactly the profile's step sequence, the
/// profile verbatim, and an empty session cache of capacity
/// [`crate::cache::SESSION_CACHE_CAPACITY`].
pub fn connect_layer(settings: TlsSettings) -> (r: Result<HttpsLayer, TlsConfigError>)
    ensures
        match r {
            Ok(layer) => compile_failure(settings) is None && layer_from(layer, settings),
            Err(e) => compile_failure(settings) == Some(e),
        },
{
    if let Some(v) = settings.min_version {
        if !v.valid() {
            return Err(TlsConfigError::EngineRejected(StepTag::SetMinVersion(v.code)));
        }
    }
    if let Some(v) = settings.max_version {
        if !v.valid() {
            return Err(TlsConfigError::EngineRejected(StepTag::SetMaxVersion(v.code)));
        }
    }
    if let Some(lo) = settings.min_version {
        if let Some(hi) = settings.max_version {
            if lo.code > hi.code {
                return Err(TlsConfigError::VersionRange);
            }
        }
    }
    match &settings.extension_permutation_indices {
        Some(idx) => {
            let slots: usize = match &settings.extension_permutation {
                Some(l) => l.len(),
                None => 0,
            };
            if idx.len() > slots {
                return Err(TlsConfigError::ExtensionPermutationRange);
            }
        },
        None => {},
    }
    assert(compile_failure(settings) is None);

    let mut steps: Vec<StepTag> = Vec::new();
    let base = match settings.root_certs_store {
        RootCertsStore::EngineDefault => BaseBuilder::EngineDefault,
        RootCertsStore::Native => BaseBuilder::NoDefaultVerify,
        RootCertsStore::Webpki => BaseBuilder::NoDefaultVerify,
    };
    steps.push(StepTag::SelectBase(base));
    steps.push(StepTag::SetCertVerification(settings.cert_verification));
    steps.push(StepTag::SetAlpnProtos(settings.alpn_protos));
    proof {
        assert(steps@ =~= seq![
            StepTag::SelectBase(base_of(settings)),
            StepTag::SetCertVerification(settings.cert_verification),
            StepTag::SetAlpnProtos(settings.alpn_protos),
        ]);
    }
    let mut group = version_steps_vec(&settings);
    steps.append(&mut group);
    let mut group = stapling_steps_vec(&settings);
    steps.append(&mut group);
    let mut group = ticket_steps_vec(&settings);
    steps.append(&mut group);
    let mut group = grease_steps_vec(&settings);
    steps.append(&mut group);
    let mut group = permutation_steps_vec(&settings);
    steps.append(&mut group);
    let mut group = list_steps_vec(&settings);
    steps.append(&mut group);
    let mut group = compression_steps_vec(&settings);
    steps.append(&mut group);
    let mut group = limit_steps_vec(&settings);
    steps.append(&mut group);
    let mut group = indices_steps_vec(&settings);
    steps.append(&mut group);
    let mut group = store_steps_vec(&settings);
    steps.append(&mut group);
    assert(steps@ == steps_spec(settings));

    let cache = SessionCache::new(settings.pre_shared_key, settings.psk_skip_session_ticket);
    Ok(HttpsLayer { steps, settings, cache })
}

/// The version-bound steps of `s`, as a vector.
fn version_steps_vec(s: &TlsSettings) -> (v: Vec<StepTag>)
    ensures
        v@ == version_steps(*s),
{
    let mut v: Vec<StepTag> = Vec::new();
    if let Some(x) = s.min_version {
        v.push(StepTag::SetMinVersion(x.code));
    }
    if let Some(x) = s.max_version {
        v.push(StepTag::SetMaxVersion(x.code));
    }
    proof {
        assert(v@ =~= version_steps(*s));
    }
    v
}

/// The stapling and timestamp steps of `s`, as a vector.
fn stapling_steps_vec(s: &TlsSettings) -> (v: Vec<StepTag>)
    ensures
        v@ == stapling_steps(*s),
{
    let mut v: Vec<StepTag> = Vec::new();
    if s.enable_ocsp_stapling {
        v.push(StepTag::EnableOcspStapling);
    }
    if s.enable_signed_cert_timestamps {
        v.push(StepTag::EnableSignedCertTimestamps);
    }
    proof {
        assert(v@ =~= stapling_steps(*s));
    }
    v
}

/// The session-ticket step of `s`, as a vector.
fn ticket_steps_vec(s: &TlsSettings) -> (v: Vec<StepTag>)
    ensures
        v@ == ticket_steps(*s),
{
    let mut v: Vec<StepTag> = Vec::new();
    if let Some(false) = s.session_ticket {
        v.push(StepTag::DisableSessionTicket);
    }
    proof {
        assert(v@ =~= ticket_steps(*s));
    }
    v
}

/// The GREASE step of `s`, as a vector.
fn grease_steps_vec(s: &TlsSettings) -> (v: Vec<StepTag>)
    ensures
        v@ == grease_steps(*s),
{
    let mut v: Vec<StepTag> = Vec::new();
    if let Some(b) = s.grease_enabled {
        v.push(StepTag::SetGrease(b));
    }
    proof {
        assert(v@ =~= grease_steps(*s));
    }
    v
}

/// The extension-ordering step of `s`, as a vector; the explicit
/// permutation wins over the randomized toggle.
fn permutation_steps_vec(s: &TlsSettings) -> (v: Vec<StepTag>)
    ensures
        v@ == permutation_steps(*s),
{
    let mut v: Vec<StepTag> = Vec::new();
    if s.extension_permutation.is_some() {
        v.push(StepTag::SetExtensionPermutation);
    } else if let Some(b) = s.permute_extensions {
        v.push(StepTag::SetPermuteExtensions(b));
    }
    proof {
        assert(v@ =~= permutation_steps(*s));
    }
    v
}

/// The identifier-list steps of `s`, as a vector.
fn list_steps_vec(s: &TlsSettings) -> (v: Vec<StepTag>)
    ensures
        v@ == list_steps(*s),
{
    let mut v: Vec<StepTag> = Vec::new();
    if s.curves.is_some() {
        v.push(StepTag::SetCurves);
    }
    if s.sigalgs_list.is_some() {
        v.push(StepTag::SetSigalgsList);
    }
    if s.delegated_credentials.is_some() {
        v.push(StepTag::SetDelegatedCredentials);
    }
    if s.cipher_list.is_some() {
        v.push(StepTag::SetCipherList);
    }
    proof {
        assert(v@ =~= list_steps(*s));
    }
    v
}

/// The certificate-compression steps of `s`, one per algorithm in list
/// order, as a vector.
fn compression_steps_vec(s: &TlsSettings) -> (v: Vec<StepTag>)
    ensures
        v@ == compression_steps(*s),
{
    let mut v: Vec<StepTag> = Vec::new();
    match &s.cert_compression_algorithms {
        Some(algs) => {
            let n = algs.len();
            let mut i: usize = 0;
            while i < n
                invariant
                    n == algs@.len(),
                    i <= n,
                    v@ =~= algs@.subrange(0, i as int).map_values(
                        |a: CertCompressionAlg| StepTag::AddCertCompression(a),
                    ),
                decreases n - i,
            {
                v.push(StepTag::AddCertCompression(algs[i]));
                proof {
                    assert(algs@.subrange(0, i + 1).map_values(
                        |a: CertCompressionAlg| StepTag::AddCertCompression(a),
                    ) =~= algs@.subrange(0, i as int).map_values(
                        |a: CertCompressionAlg| StepTag::AddCertCompression(a),
                    ).push(StepTag::AddCertCompression(algs@[i as int])));
                }
                i += 1;
            }
            proof {
                assert(algs@.subrange(0, n as int) =~= algs@);
                assert(v@ =~= compression_steps(*s));
            }
        },
        None => {
            proof {
                assert(v@ =~= compression_steps(*s));
            }
        },
    }
    v
}

/// The record-size and key-share limit steps of `s`, as a vector.
fn limit_steps_vec(s: &TlsSettings) -> (v: Vec<StepTag>)
    ensures
        v@ == limit_steps(*s),
{
    let mut v: Vec<StepTag> = Vec::new();
    if let Some(x) = s.record_size_limit {
        v.push(StepTag::SetRecordSizeLimit(x));
    }
    if let Some(x) = s.key_shares_length_limit {
        v.push(StepTag::SetKeySharesLengthLimit(x));
    }
    proof {
        assert(v@ =~= limit_steps(*s));
    }
    v
}

/// The extension-index-remap step of `s`, as a vector.
fn indices_steps_vec(s: &TlsSettings) -> (v: Vec<StepTag>)
    ensures
        v@ == indices_steps(*s),
{
    let mut v: Vec<StepTag> = Vec::new();
    if s.extension_permutation_indices.is_some() {
        v.push(StepTag::SetExtensionPermutationIndices);
    }
    proof {
        assert(v@ =~= indices_steps(*s));
    }
    v
}

/// The trust-anchor step of `s`, as a vector.
fn store_steps_vec(s: &TlsSettings) -> (v: Vec<StepTag>)
    ensures
        v@ == store_steps(*s),
{
    let mut v: Vec<StepTag> = Vec::new();
    match s.root_certs_store {
        RootCertsStore::EngineDefault => {},
        RootCertsStore::Native => {
            v.push(StepTag::InstallVerifyCertStore(RootCertsStore::Native));
        },
        RootCertsStore::Webpki => {
            v.push(StepTag::InstallVerifyCertStore(RootCertsStore::Webpki));
        },
    }
    proof {
        assert(v@ =~= store_steps(*s));
    }
    v
}

/// The extension order a compiled layer configures: the named
/// permutation it applies, or none when the profile gave none.
pub open spec fn configured_extension_order(layer: HttpsLayer) -> Seq<u16> {
    match layer.settings.extension_permutation {
        Some(l) => l@,
        None => Seq::<u16>::empty(),
    }
}

/// Law: with an explicit extension permutation and no index remap, two
/// compilations of one profile emit the same step sequence, the
/// permutation step is the explicit one (the randomized toggle never
/// wins), and the configured extension order is exactly the profile's
/// list — both times.
pub proof fn lemma_extension_order_deterministic(s: TlsSettings, a: HttpsLayer, b: HttpsLayer)
    requires
        s.extension_permutation is Some,
        s.extension_permutation_indices is None,
        layer_from(a, s),
        layer_from(b, s),
    ensures
        a.steps@ == b.steps@,
        permutation_steps(s) == seq![StepTag::SetExtensionPermutation],
        configured_extension_order(a) == s.extension_permutation->Some_0@,
        configured_extension_order(b) == s.extension_permutation->Some_0@,
{
    assert(permutation_steps(s) =~= seq![StepTag::SetExtensionPermutation]);
}

/// Law: for a profile that pins the lower and upper version bounds to one
/// version `x` (and whose index remap, if any, is in range), compilation
/// fails exactly when `x` is not one of the four TLS versions; when it
/// succeeds, the step sequence bounds both sides of the negotiable range
/// to `x`, so the compiled connector can only negotiate `x`.
pub proof fn lemma_pinned_version(s: TlsSettings, x: TlsVersion)
    requires
        s.min_version == Some(x),
        s.max_version == Some(x),
        indices_error(s) is None,
    ensures
        compile_failure(s) is None <==> x.is_valid(),
        x.is_valid() ==> steps_spec(s).contains(StepTag::SetMinVersion(x.code)),
        x.is_valid() ==> steps_spec(s).contains(StepTag::SetMaxVersion(x.code)),
{
    if x.is_valid() {
        let all = steps_spec(s);
        assert(version_steps(s) =~= seq![
            StepTag::SetMinVersion(x.code),
            StepTag::SetMaxVersion(x.code),
        ]);
        assert(all[3] == StepTag::SetMinVersion(x.code));
        assert(all[4] == StepTag::SetMaxVersion(x.code));
        assert(0 <= 3 < all.len());
    }
}

} // verus!
