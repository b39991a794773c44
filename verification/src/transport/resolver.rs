//! Which addresses a transport endpoint may be reached at. The name lookup
//! runs outside; its addresses come in as octets (4 for IPv4, 16 for IPv6)
//! with their text, and the checks here decide whether they may be used.
use crate::error::{HostError, HostErrorCode};
use crate::text::{decimal, decimal_text};
use crate::transport::PrivateResolutionPolicy;
use vstd::prelude::*;

verus! {

/// Whether an IPv4 address is public: none of the unspecified, private,
/// loopback, shared, link-local, protocol, documentation, benchmarking,
/// multicast or reserved blocks.
pub open spec fn is_public_v4(a: u8, b: u8, c: u8) -> bool {
    !(a == 0 || a == 10 || a == 127 || a >= 224 || (a == 100 && 64 <= b <= 127) || (a == 169 && b
        == 254) || (a == 172 && 16 <= b <= 31) || (a == 192 && b == 0 && (c == 0 || c == 2)) || (a
        == 192 && b == 168) || (a == 198 && (b == 18 || b == 19)) || (a == 198 && b == 51 && c
        == 100) || (a == 203 && b == 0 && c == 113))
}

/// Octets `from..to` of `o` are all zero.
pub open spec fn zeros(o: Seq<u8>, from: int, to: int) -> bool {
    forall|i: int| from <= i < to ==> #[trigger] o[i] == 0
}

/// Whether an IPv6 address is public: not unspecified or loopback, not
/// unique-local, link-local, multicast, documentation or discard-only; an
/// IPv4-mapped address is public when its IPv4 address is.
pub open spec fn is_public_v6(o: Seq<u8>) -> bool {
    if zeros(o, 0, 10) && o[10] == 0xff && o[11] == 0xff {
        is_public_v4(o[12], o[13], o[14])
    } else {
        !((zeros(o, 0, 15) && o[15] <= 1) || o[0] == 0xfc || o[0] == 0xfd || (o[0] == 0xfe && 0x80
            <= o[1] <= 0xbf) || o[0] == 0xff || (o[0] == 0x20 && o[1] == 0x01 && o[2] == 0x0d && o[3]
            == 0xb8) || (o[0] == 0x01 && zeros(o, 1, 8)))
    }
}

/// Whether the address with octets `o` is public.
pub open spec fn is_public_octets(o: Seq<u8>) -> bool {
    if o.len() == 4 {
        is_public_v4(o[0], o[1], o[2])
    } else if o.len() == 16 {
        is_public_v6(o)
    } else {
        false
    }
}

/// The address is IPv4 and lies in a private (10.0.0.0/8, 172.16.0.0/12,
/// 192.168.0.0/16), loopback (127.0.0.0/8) or link-local (169.254.0.0/16)
/// block.
pub open spec fn in_private_v4_block(o: Seq<u8>) -> bool {
    &&& o.len() == 4
    &&& {
        ||| o[0] == 10
        ||| (o[0] == 172 && 16 <= o[1] && o[1] <= 31)
        ||| (o[0] == 192 && o[1] == 168)
        ||| o[0] == 127
        ||| (o[0] == 169 && o[1] == 254)
    }
}

/// No address in a private, loopback or link-local IPv4 block is public,
/// and so none is allowed where only public addresses are.
pub proof fn lemma_private_blocks_not_public(o: Seq<u8>, literal: Option<Seq<u8>>)
    requires
        in_private_v4_block(o),
    ensures
        !is_public_octets(o),
        !address_allowed(PrivateResolutionPolicy::PublicOnly, literal, o),
{
}

/// Every address of 172.16.0.0/12 is private.
pub proof fn lemma_rfc1918_middle_block(b: u8, c: u8, d: u8)
    requires
        16 <= b <= 31,
    ensures
        !is_public_octets(seq![172u8, b, c, d]),
        !is_public_octets(seq![10u8, b, c, d]),
        !is_public_octets(seq![192u8, 168u8, c, d]),
{
    lemma_private_blocks_not_public(seq![172u8, b, c, d], None);
    lemma_private_blocks_not_public(seq![10u8, b, c, d], None);
    lemma_private_blocks_not_public(seq![192u8, 168u8, c, d], None);
}

fn all_zero(o: &Vec<u8>, from: usize, to: usize) -> (zero: bool)
    requires
        from <= to <= o@.len(),
    ensures
        zero == zeros(o@, from as int, to as int),
{
    let mut i = from;
    while i < to
        invariant
            from <= i <= to <= o@.len(),
            zeros(o@, from as int, i as int),
        decreases to - i,
    {
        if o[i] != 0 {
            return false;
        }
        i = i + 1;
    }
    true
}

fn public_v4(a: u8, b: u8, c: u8) -> (public: bool)
    ensures
        public == is_public_v4(a, b, c),
{
    !(a == 0 || a == 10 || a == 127 || a >= 224 || (a == 100 && 64 <= b && b <= 127) || (a == 169
        && b == 254) || (a == 172 && 16 <= b && b <= 31) || (a == 192 && b == 0 && (c == 0 || c
        == 2)) || (a == 192 && b == 168) || (a == 198 && (b == 18 || b == 19)) || (a == 198 && b
        == 51 && c == 100) || (a == 203 && b == 0 && c == 113))
}

/// Whether an address, given by its octets, is public.
pub fn is_public_address(octets: &Vec<u8>) -> (public: bool)
    ensures
        public == is_public_octets(octets@),
        octets@.len() == 4 && (octets@[0] == 10 || (octets@[0] == 172 && 16 <= octets@[1] <= 31)
            || (octets@[0] == 192 && octets@[1] == 168) || octets@[0] == 127 || (octets@[0] == 169
            && octets@[1] == 254)) ==> !public,
        octets@.len() != 4 && octets@.len() != 16 ==> !public,
{
    if octets.len() == 4 {
        return public_v4(octets[0], octets[1], octets[2]);
    }
    if octets.len() != 16 {
        return false;
    }
    if all_zero(octets, 0, 10) && octets[10] == 0xff && octets[11] == 0xff {
        return public_v4(octets[12], octets[13], octets[14]);
    }
    let o0 = octets[0];
    let o1 = octets[1];
    !((all_zero(octets, 0, 15) && octets[15] <= 1) || o0 == 0xfc || o0 == 0xfd || (o0 == 0xfe && 0x80
        <= o1 && o1 <= 0xbf) || o0 == 0xff || (o0 == 0x20 && o1 == 0x01 && octets[2] == 0x0d
        && octets[3] == 0xb8) || (o0 == 0x01 && all_zero(octets, 1, 8)))
}

/// A character of a number written in decimal, octal or hexadecimal.
pub open spec fn is_numeric_char(c: char) -> bool {
    ('0' <= c <= '9') || c == '.' || c == 'x' || c == 'X' || ('a' <= c <= 'f') || ('A' <= c <= 'F')
}

/// A host that reads as an IPv4 address in some other notation (octal or
/// hexadecimal parts, fewer than four parts, one large number): it starts
/// with a digit and holds only digits, dots, hexadecimal letters and `x`.
pub open spec fn resembles_numeric_address(host: Seq<char>) -> bool {
    &&& host.len() > 0
    &&& '0' <= host[0] <= '9'
    &&& forall|i: int| 0 <= i < host.len() ==> is_numeric_char(#[trigger] host[i])
}

pub fn resembles_noncanonical_ip_literal(host: &str) -> (resembles: bool)
    ensures
        resembles == resembles_numeric_address(host@),
{
    let n = host.unicode_len();
    if n == 0 {
        return false;
    }
    let first = host.get_char(0);
    if !('0' <= first && first <= '9') {
        return false;
    }
    let mut i: usize = 0;
    while i < n
        invariant
            n == host@.len(),
            i <= n,
            forall|j: int| 0 <= j < i ==> is_numeric_char(#[trigger] host@[j]),
        decreases n - i,
    {
        let c = host.get_char(i);
        if !(('0' <= c && c <= '9') || c == '.' || c == 'x' || c == 'X' || ('a' <= c && c <= 'f') || (
        'A' <= c && c <= 'F')) {
            return false;
        }
        i = i + 1;
    }
    true
}

/// The details that name an endpoint in a refusal.
pub open spec fn names_endpoint(e: HostError, scheme: Seq<char>, host: Seq<char>, port: u16) -> bool {
    &&& e.details@.len() >= 3
    &&& e.details@[0].0@ == "scheme"@ && e.details@[0].1@ == scheme
    &&& e.details@[1].0@ == "host"@ && e.details@[1].1@ == host
    &&& e.details@[2].0@ == "port"@ && e.details@[2].1@ == decimal(port as nat)
}

fn endpoint_error(code: HostErrorCode, message: &str, scheme: &str, host: &str, port: u16) -> (error: HostError)
    ensures
        error.code == code,
        error.message@ == message@,
        error.details@.len() == 3,
        names_endpoint(error, scheme@, host@, port),
{
    HostError::new(code, message).with_detail("scheme", scheme.to_owned()).with_detail(
        "host",
        host.to_owned(),
    ).with_detail("port", decimal_text(port as u64))
}

/// Before any lookup: a host that is no IP literal (`literal` is `None`)
/// but reads as an address in another notation is refused.
pub fn check_endpoint_host(scheme: &str, host: &str, port: u16, literal: &Option<Vec<u8>>) -> (checked: Result<(), HostError>)
    ensures
        match checked {
            Ok(()) => !(literal is None && resembles_numeric_address(host@)),
            Err(e) => literal is None && resembles_numeric_address(host@) && e.code
                == HostErrorCode::AuthorityDenied && e.message@
                == "non-canonical IP address encoding is not permitted"@ && e.details@.len() == 3
                && names_endpoint(e, scheme@, host@, port),
        },
{
    if literal.is_none() && resembles_noncanonical_ip_literal(host) {
        return Err(
            endpoint_error(
                HostErrorCode::AuthorityDenied,
                "non-canonical IP address encoding is not permitted",
                scheme,
                host,
                port,
            ),
        );
    }
    Ok(())
}

/// One address a lookup returned: its octets and its text.
pub struct ResolvedAddress {
    pub octets: Vec<u8>,
    pub text: String,
}

/// An address may be used: it is the literal the host names, if it names
/// one, and public when only public addresses are allowed.
pub open spec fn address_allowed(policy: PrivateResolutionPolicy, literal: Option<Seq<u8>>, octets: Seq<u8>) -> bool {
    &&& (literal matches Some(l) ==> l == octets)
    &&& (policy == PrivateResolutionPolicy::PublicOnly ==> is_public_octets(octets))
}

pub open spec fn opt_octets(o: Option<Vec<u8>>) -> Option<Seq<u8>> {
    match o {
        Some(v) => Some(v@),
        None => None,
    }
}

/// The error that refuses an address, naming the endpoint and the address.
pub open spec fn is_address_denied(e: HostError, scheme: Seq<char>, host: Seq<char>, port: u16, address: Seq<char>) -> bool {
    &&& e.code == HostErrorCode::AuthorityDenied
    &&& e.message@ == "transport endpoint resolved to a disallowed address"@
    &&& e.details@.len() == 4
    &&& names_endpoint(e, scheme, host, port)
    &&& e.details@[3].0@ == "address"@
    &&& e.details@[3].1@ == address
}

/// After the lookup: there must be an address, and every address must be
/// allowed; the first that is not is named in the refusal.
pub fn check_resolved_addresses(scheme: &str, host: &str, port: u16, policy: PrivateResolutionPolicy, literal: &Option<Vec<u8>>, addresses: &Vec<ResolvedAddress>) -> (checked: Result<(), HostError>)
    ensures
        match checked {
            Ok(()) => addresses@.len() > 0 && (policy == PrivateResolutionPolicy::PublicOnly ==> forall|
                i: int|
                0 <= i < addresses@.len() ==> !in_private_v4_block(#[trigger] addresses@[i].octets@))
                && forall|i: int|
                0 <= i < addresses@.len() ==> address_allowed(
                    policy,
                    opt_octets(*literal),
                    #[trigger] addresses@[i].octets@,
                ),
            Err(e) => if addresses@.len() == 0 {
                e.code == HostErrorCode::ProviderUnavailable && e.message@
                    == "transport endpoint resolved to no addresses"@ && e.details@.len() == 0
            } else {
                exists|i: int|
                    0 <= i < addresses@.len() && !address_allowed(
                        policy,
                        opt_octets(*literal),
                        #[trigger] addresses@[i].octets@,
                    ) && (forall|j: int|
                        0 <= j < i ==> address_allowed(
                            policy,
                            opt_octets(*literal),
                            #[trigger] addresses@[j].octets@,
                        )) && is_address_denied(e, scheme@, host@, port, addresses@[i].text@)
            },
        },
{
    if addresses.len() == 0 {
        return Err(
            HostError::new(
                HostErrorCode::ProviderUnavailable,
                "transport endpoint resolved to no addresses",
            ),
        );
    }
    let mut i: usize = 0;
    while i < addresses.len()
        invariant
            i <= addresses@.len(),
            forall|j: int|
                0 <= j < i ==> address_allowed(
                    policy,
                    opt_octets(*literal),
                    #[trigger] addresses@[j].octets@,
                ),
        decreases addresses@.len() - i,
    {
        let address = &addresses[i];
        let matches_literal = match literal {
            Some(l) => crate::text::bytes_equal(l.as_slice(), address.octets.as_slice()),
            None => true,
        };
        let public_enough = match policy {
            PrivateResolutionPolicy::PublicOnly => is_public_address(&address.octets),
            PrivateResolutionPolicy::AllowPrivate => true,
        };
        if !matches_literal || !public_enough {
            let error = endpoint_error(
                HostErrorCode::AuthorityDenied,
                "transport endpoint resolved to a disallowed address",
                scheme,
                host,
                port,
            ).with_detail("address", address.text.clone());
            assert(!address_allowed(policy, opt_octets(*literal), addresses@[i as int].octets@));
            return Err(error);
        }
        i = i + 1;
    }
    Ok(())
}

} // verus!
