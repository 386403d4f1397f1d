//! A verified core for building TLS client fingerprint profiles.
//!
//! A profile describes how a client shapes its TLS handshake (protocol
//! version bounds, ALPN preference, cipher and extension ordering, GREASE,
//! certificate compression, session resumption).  The compiler turns a
//! profile into an explicit, ordered list of builder steps whose order is
//! the fingerprint contract, paired with a bounded least-recently-used
//! session cache shared by every connection the compiled connector makes.

pub mod cache;
pub mod compiler;
pub mod hook;
pub mod impersonate;
pub mod settings;

use crate::cache::dest_index;
use crate::cache::has_dest;
use crate::cache::lookup_model;
use crate::cache::store_model;
use crate::cache::touch_model;
use crate::cache::Destination;
use crate::compiler::compile_failure;
use crate::compiler::connect_layer;
use crate::compiler::layer_from;
use crate::compiler::HttpsLayer;
use crate::compiler::TlsConfigError;
use crate::hook::alpn_list;
use crate::hook::alpn_of_pref;
use crate::hook::attempt_alpn;
use crate::hook::AlpnProtocol;
use crate::hook::HookConfig;
use crate::settings::HttpVersionPref;
use crate::settings::TlsSettings;
use vstd::prelude::*;

verus! {

/// A compiled TLS connector: a profile sealed into an immutable template.
///
/// Construction applies the profile once, in the fixed order the
/// fingerprint depends on; afterwards the connector only hands out
/// per-attempt configurations and mediates access to the shared session
/// cache, so every connection it produces behaves as a pure function of
/// the profile it was built from.
pub struct BoringTlsConnector {
    /// Verify that the peer certificate matches the hostname.
    pub tls_sni: bool,
    /// Grease-pad the Encrypted-Client-Hello extension per attempt.
    pub enable_ech_grease: bool,
    /// Attach the application-settings payload per attempt.
    pub application_settings: bool,
    /// The HTTP version preference the ALPN payloads derive from.
    pub alpn_protos: HttpVersionPref,
    /// The sealed template: ordered steps, sealed profile, shared cache.
    pub connect_layer: HttpsLayer,
}

impl BoringTlsConnector {
    /// Compile the given profile into a connector.
    ///
    /// Fails exactly when the profile itself cannot be compiled (see
    /// [`crate::compiler::compile_failure`]); on success the connector
    /// carries the profile's step sequence, the profile verbatim, and a
    /// fresh session cache tied to the profile's resumption choices.
    pub fn new(settings: TlsSettings) -> (r: Result<BoringTlsConnector, TlsConfigError>)
        ensures
            match r {
                Ok(c) => {
                    &&& compile_failure(settings) is None
                    &&& c.tls_sni == settings.tls_sni
                    &&& c.enable_ech_grease == settings.enable_ech_grease
                    &&& c.application_settings == settings.application_settings
                    &&& c.alpn_protos == settings.alpn_protos
                    &&& layer_from(c.connect_layer, settings)
                },
                Err(e) => compile_failure(settings) == Some(e),
            },
    {
        let tls_sni = settings.tls_sni;
        let enable_ech_grease = settings.enable_ech_grease;
        let application_settings = settings.application_settings;
        let alpn_protos = settings.alpn_protos;
        match connect_layer(settings) {
            Ok(layer) => Ok(
                BoringTlsConnector {
                    tls_sni,
                    enable_ech_grease,
                    application_settings,
                    alpn_protos,
                    connect_layer: layer,
                },
            ),
            Err(e) => Err(e),
        }
    }

    /// The per-connection hook: the attempt-specific configuration for one
    /// cloned handshake context.  A pure function of the connector and the
    /// upgrade flag; the shared template is never touched.
    pub fn per_connection_config(&self, is_upgrade: bool) -> (c: HookConfig)
        ensures
            c.enable_ech_grease == self.enable_ech_grease,
            c.verify_hostname == self.tls_sni,
            match c.application_settings {
                Some(l) => self.application_settings && l@ == alpn_of_pref(self.alpn_protos),
                None => !self.application_settings,
            },
            c.alpn@ == attempt_alpn(self.alpn_protos, is_upgrade),
    {
        let application_settings = if self.application_settings {
            Some(alpn_list(self.alpn_protos))
        } else {
            None
        };
        let alpn = if is_upgrade {
            let mut v: Vec<AlpnProtocol> = Vec::new();
            v.push(AlpnProtocol::Http1);
            proof {
                assert(v@ =~= seq![AlpnProtocol::Http1]);
            }
            v
        } else {
            alpn_list(self.alpn_protos)
        };
        HookConfig {
            enable_ech_grease: self.enable_ech_grease,
            verify_hostname: self.tls_sni,
            application_settings,
            alpn,
        }
    }

    /// Consult the shared session cache before an attempt to `d`,
    /// refreshing the entry's recency on a hit.  Nothing else of the
    /// connector changes.
    pub fn session_lookup(&mut self, d: &Destination) -> (r: Option<Vec<u8>>)
        requires
            old(self).connect_layer.cache.wf(),
        ensures
            final(self).connect_layer.cache.wf(),
            final(self).tls_sni == old(self).tls_sni,
            final(self).enable_ech_grease == old(self).enable_ech_grease,
            final(self).application_settings == old(self).application_settings,
            final(self).alpn_protos == old(self).alpn_protos,
            final(self).connect_layer.steps == old(self).connect_layer.steps,
            final(self).connect_layer.settings == old(self).connect_layer.settings,
            final(self).connect_layer.cache.resumption_enabled()
                == old(self).connect_layer.cache.resumption_enabled(),
            final(self).connect_layer.cache.skips_ticket()
                == old(self).connect_layer.cache.skips_ticket(),
            match r {
                Some(t) => {
                    &&& has_dest(old(self).connect_layer.cache@, d@)
                    &&& lookup_model(old(self).connect_layer.cache@, d@) == Some(t@)
                    &&& final(self).connect_layer.cache@ == touch_model(
                        old(self).connect_layer.cache@,
                        dest_index(old(self).connect_layer.cache@, d@),
                    )
                },
                None => !has_dest(old(self).connect_layer.cache@, d@)
                    && final(self).connect_layer.cache@ == old(self).connect_layer.cache@,
            },
    {
        self.connect_layer.cache.lookup(d)
    }

    /// Remember the resumption ticket a successful full handshake to
    /// `dest` produced.  A profile outside the resumption scheme stores
    /// nothing; nothing else of the connector changes.
    pub fn session_store(&mut self, dest: Destination, ticket: Vec<u8>)
        requires
            old(self).connect_layer.cache.wf(),
        ensures
            final(self).connect_layer.cache.wf(),
            final(self).tls_sni == old(self).tls_sni,
            final(self).enable_ech_grease == old(self).enable_ech_grease,
            final(self).application_settings == old(self).application_settings,
            final(self).alpn_protos == old(self).alpn_protos,
            final(self).connect_layer.steps == old(self).connect_layer.steps,
            final(self).connect_layer.settings == old(self).connect_layer.settings,
            final(self).connect_layer.cache.resumption_enabled()
                == old(self).connect_layer.cache.resumption_enabled(),
            final(self).connect_layer.cache.skips_ticket()
                == old(self).connect_layer.cache.skips_ticket(),
            !old(self).connect_layer.cache.resumption_enabled()
                ==> final(self).connect_layer.cache@ == old(self).connect_layer.cache@,
            old(self).connect_layer.cache.resumption_enabled()
                ==> final(self).connect_layer.cache@
                == store_model(old(self).connect_layer.cache@, dest@, ticket@),
    {
        self.connect_layer.cache.store(dest, ticket)
    }
}

/// Read-only TLS metadata attached to a completed connection.
pub struct TlsInfo {
    /// DER-encoded leaf certificate of the peer, when one was presented.
    pub peer_certificate: Option<Vec<u8>>,
}

impl TlsInfo {
    /// Wrap the peer's DER-encoded leaf certificate, if any.
    pub fn new(peer_certificate: Option<Vec<u8>>) -> (info: TlsInfo)
        ensures
            info.peer_certificate == peer_certificate,
    {
        TlsInfo { peer_certificate }
    }

    /// The DER-encoded leaf certificate of the peer, if one was presented.
    pub fn peer_certificate(&self) -> (r: Option<&[u8]>)
        ensures
            match r {
                Some(der) => self.peer_certificate is Some
                    && der@ == self.peer_certificate->Some_0@,
                None => self.peer_certificate is None,
            },
    {
        match &self.peer_certificate {
            Some(der) => Some(der.as_slice()),
            None => None,
        }
    }
}

} // verus!
