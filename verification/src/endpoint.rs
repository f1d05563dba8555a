//! Telling internal endpoints from external ones by the text of their address.

use vstd::prelude::*;

verus! {

/// The addresses that count as internal, as a pattern over the address text:
/// IPv4 loopback `127/8`, the private ranges `10/8`, `172.16/12` and
/// `192.168/16`, IPv6 loopback `::1`, and the IPv6 unique-local prefixes that
/// start with `fc` or `fd`.
pub const INTERNAL_IP_PATTERN: &'static str =
    "(^127\\.)|(^192\\.168\\.)|(^10\\.)|(^172\\.1[6-9]\\.)|(^172\\.2[0-9]\\.)|(^172\\.3[0-1]\\.)|(^::1$)|(^[fF][cCdD])";

/// What the `regex` crate answers for `pattern` on `text`: `None` where it does
/// not accept the pattern, else whether the pattern matches anywhere in the
/// text.
pub uninterp spec fn pattern_match(pattern: Seq<char>, text: Seq<u8>) -> Option<bool>;

/// Whether an address, taken as literal text, is internal. No name is resolved:
/// a host name that is not an address literal is external.
pub open spec fn internal_address(address: Seq<u8>) -> bool {
    pattern_match(INTERNAL_IP_PATTERN@, address) == Some(true)
}

/// Compiles `pattern` with `regex::bytes::Regex::new` and asks
/// `regex::bytes::Regex::is_match` of the compiled pattern about `text`.
///
/// Trusted: the answer is a function of the pattern and the text alone.
/// Nothing is claimed about which texts a pattern matches.
#[verifier::external_body]
fn match_pattern(pattern: &str, text: &[u8]) -> (outcome: Option<bool>)
    ensures
        outcome == pattern_match(pattern@, text@),
{
    match regex::bytes::Regex::new(pattern) {
        Ok(compiled) => Some(compiled.is_match(text)),
        Err(_) => None,
    }
}

/// Whether the outcome of a pattern match says internal: only where the
/// pattern was accepted and matched.
pub fn internal_of_match(outcome: Option<bool>) -> (internal: bool)
    ensures
        internal == (outcome == Some(true)),
{
    match outcome {
        Some(matched) => matched,
        None => false,
    }
}

/// Whether the address in `ip` belongs to an internal range.
pub fn is_internal_ip(ip: &[u8]) -> (internal: bool)
    ensures
        internal == internal_address(ip@),
{
    internal_of_match(match_pattern(INTERNAL_IP_PATTERN, ip))
}

} // verus!
