//! The per-connection hook.
//!
//! After the compiled template is cloned for one connection attempt, the
//! hook decides the attempt-specific values: the ECH-grease toggle, the
//! hostname-verification toggle, the application-settings payload, and the
//! ALPN list.  A protocol-upgrade attempt (a websocket, say) advertises
//! exactly `http/1.1`, whatever the profile prefers.  The hook is a pure
//! function of the compiled profile and the attempt flag, so it never
//! touches the shared template.

use crate::settings::HttpVersionPref;
use vstd::prelude::*;

verus! {

/// A protocol identifier the client can advertise in its ALPN extension.
#[derive(Clone, Copy, Debug, PartialEq, Eq, Structural)]
pub enum AlpnProtocol {
    Http1,
    Http2,
}

/// The ASCII bytes of a protocol identifier as they appear on the wire.
pub open spec fn proto_bytes(p: AlpnProtocol) -> Seq<u8> {
    match p {
        AlpnProtocol::Http1 => seq![104u8, 116u8, 116u8, 112u8, 47u8, 49u8, 46u8, 49u8],
        AlpnProtocol::Http2 => seq![104u8, 50u8],
    }
}

/// The wire form of an ALPN list: each identifier length-prefixed, in
/// list order.
pub open spec fn alpn_wire(ps: Seq<AlpnProtocol>) -> Seq<u8>
    decreases ps.len(),
{
    if ps.len() == 0 {
        Seq::<u8>::empty()
    } else {
        seq![proto_bytes(ps[0]).len() as u8] + proto_bytes(ps[0]) + alpn_wire(ps.drop_first())
    }
}

/// The ALPN preference list a profile advertises, in preference order.
pub open spec fn alpn_of_pref(p: HttpVersionPref) -> Seq<AlpnProtocol> {
    match p {
        HttpVersionPref::Http1Only => seq![AlpnProtocol::Http1],
        HttpVersionPref::Http2Only => seq![AlpnProtocol::Http2],
        HttpVersionPref::Http1AndHttp2 => seq![AlpnProtocol::Http2, AlpnProtocol::Http1],
    }
}

/// The ALPN list one attempt emits: an upgrade attempt advertises only
/// `http/1.1`; any other attempt advertises the profile's preference.
pub open spec fn attempt_alpn(p: HttpVersionPref, is_upgrade: bool) -> Seq<AlpnProtocol> {
    if is_upgrade {
        seq![AlpnProtocol::Http1]
    } else {
        alpn_of_pref(p)
    }
}

/// Law: for an upgrade-flagged attempt the emitted ALPN list is exactly
/// `http/1.1`, regardless of the profile's configured preference, and its
/// wire form is the nine bytes `\x08http/1.1`.
pub proof fn lemma_upgrade_alpn(p: HttpVersionPref)
    ensures
        attempt_alpn(p, true) == seq![AlpnProtocol::Http1],
        alpn_wire(attempt_alpn(p, true)) == seq![
            8u8,
            104u8,
            116u8,
            116u8,
            112u8,
            47u8,
            49u8,
            46u8,
            49u8,
        ],
{
    let ps = attempt_alpn(p, true);
    assert(alpn_wire(ps.drop_first()) =~= Seq::<u8>::empty());
    assert(alpn_wire(ps) =~= seq![8u8, 104u8, 116u8, 116u8, 112u8, 47u8, 49u8, 46u8, 49u8]);
}

/// Appending one protocol extends the wire form by its length-prefixed
/// bytes.
proof fn lemma_alpn_wire_push(ps: Seq<AlpnProtocol>, p: AlpnProtocol)
    ensures
        alpn_wire(ps.push(p)) == alpn_wire(ps) + seq![proto_bytes(p).len() as u8] + proto_bytes(p),
    decreases ps.len(),
{
    if ps.len() == 0 {
        assert(ps.push(p).drop_first() =~= ps);
        assert(alpn_wire(ps.push(p)) =~= alpn_wire(ps) + seq![proto_bytes(p).len() as u8]
            + proto_bytes(p));
    } else {
        assert(ps.push(p).drop_first() =~= ps.drop_first().push(p));
        lemma_alpn_wire_push(ps.drop_first(), p);
        assert(alpn_wire(ps.push(p)) =~= alpn_wire(ps) + seq![proto_bytes(p).len() as u8]
            + proto_bytes(p));
    }
}

impl AlpnProtocol {
    /// The identifier's ASCII bytes.
    pub fn wire_bytes(self) -> (r: Vec<u8>)
        ensures
            r@ == proto_bytes(self),
            1 <= r@.len() <= 255,
    {
        let mut v: Vec<u8> = Vec::new();
        match self {
            AlpnProtocol::Http1 => {
                v.push(104);
                v.push(116);
                v.push(116);
                v.push(112);
                v.push(47);
                v.push(49);
                v.push(46);
                v.push(49);
            },
            AlpnProtocol::Http2 => {
                v.push(104);
                v.push(50);
            },
        }
        proof {
            assert(v@ =~= proto_bytes(self));
        }
        v
    }
}

/// Encode an ALPN list in its wire form: each identifier preceded by its
/// length, in list order.
pub fn encode_alpn(ps: &Vec<AlpnProtocol>) -> (r: Vec<u8>)
    ensures
        r@ == alpn_wire(ps@),
{
    let mut out: Vec<u8> = Vec::new();
    proof {
        assert(ps@.subrange(0, 0) =~= Seq::<AlpnProtocol>::empty());
        assert(alpn_wire(ps@.subrange(0, 0)) =~= Seq::<u8>::empty());
    }
    let n = ps.len();
    let mut i: usize = 0;
    while i < n
        invariant
            n == ps@.len(),
            i <= n,
            out@ == alpn_wire(ps@.subrange(0, i as int)),
        decreases n - i,
    {
        let mut bytes = ps[i].wire_bytes();
        let len = bytes.len();
        out.push(len as u8);
        out.append(&mut bytes);
        proof {
            let prefix = ps@.subrange(0, i as int);
            lemma_alpn_wire_push(prefix, ps@[i as int]);
            assert(prefix.push(ps@[i as int]) =~= ps@.subrange(0, i as int + 1));
            assert(out@ =~= alpn_wire(ps@.subrange(0, i as int + 1)));
        }
        i += 1;
    }
    proof {
        assert(ps@.subrange(0, n as int) =~= ps@);
    }
    out
}

/// Build the profile's ALPN preference list as a vector.
pub fn alpn_list(p: HttpVersionPref) -> (r: Vec<AlpnProtocol>)
    ensures
        r@ == alpn_of_pref(p),
{
    let mut v: Vec<AlpnProtocol> = Vec::new();
    match p {
        HttpVersionPref::Http1Only => {
            v.push(AlpnProtocol::Http1);
        },
        HttpVersionPref::Http2Only => {
            v.push(AlpnProtocol::Http2);
        },
        HttpVersionPref::Http1AndHttp2 => {
            v.push(AlpnProtocol::Http2);
            v.push(AlpnProtocol::Http1);
        },
    }
    proof {
        assert(v@ =~= alpn_of_pref(p));
    }
    v
}

/// What one connection attempt configures on its cloned handshake
/// context, fully determined by the profile and the attempt flag.
pub struct HookConfig {
    /// Grease-pad the Encrypted-Client-Hello extension.
    pub enable_ech_grease: bool,
    /// Verify that the peer certificate matches the hostname.
    pub verify_hostname: bool,
    /// The application-settings payload, present iff the profile enables
    /// application settings.
    pub application_settings: Option<Vec<AlpnProtocol>>,
    /// The ALPN list this attempt advertises.
    pub alpn: Vec<AlpnProtocol>,
}

} // verus!
