//! Bearer parsing, token hashing, constant-time comparison and the
//! client-address rules used for the ping feature.
use vstd::prelude::*;
use vstd::string::*;
use vstd::utf8::*;
use crate::text::{
    has_prefix, has_prefix_ignore_case, starts_with, starts_with_ignore_case, str_equals, trim,
    trim_str,
};
use subtle::ConstantTimeEq;
use sha2::Digest;

verus! {

/// The SHA-256 digest of a byte string.
pub uninterp spec fn sha256_of(b: Seq<u8>) -> Seq<u8>;

/// Lower-case hexadecimal digit for a value below 16.
pub open spec fn hex_digit(n: u8) -> char {
    seq!['0', '1', '2', '3', '4', '5', '6', '7', '8', '9', 'a', 'b', 'c', 'd', 'e', 'f'][n as int]
}

/// Lower-case hexadecimal text of a byte string, two digits per byte, high nibble first.
pub open spec fn hex_lower(b: Seq<u8>) -> Seq<char> {
    Seq::new(
        2 * b.len(),
        |i: int|
            if i % 2 == 0 {
                hex_digit(b[i / 2] / 16)
            } else {
                hex_digit(b[i / 2] % 16)
            },
    )
}

/// The token hash stored for a server: hex of SHA-256 over the token's UTF-8 bytes.
pub open spec fn token_hash_of(token: Seq<char>) -> Seq<char> {
    hex_lower(sha256_of(encode_utf8(token)))
}

/// Relies on sha2::Sha256::digest: the 32-byte digest of the input.
#[verifier::external_body]
fn sha256_digest(b: &[u8]) -> (r: Vec<u8>)
    ensures
        r@ == sha256_of(b@),
        r@.len() == 32,
{
    sha2::Sha256::digest(b).to_vec()
}

/// Relies on hex::encode: two lower-case digits per byte, high nibble first.
#[verifier::external_body]
fn hex_encode(b: &[u8]) -> (r: String)
    ensures
        r@ == hex_lower(b@),
{
    hex::encode(b)
}

/// Relies on subtle's `ConstantTimeEq` for byte slices: true iff the slices are equal.
#[verifier::external_body]
fn ct_eq_bytes(a: &[u8], b: &[u8]) -> (r: bool)
    ensures
        r == (a@ == b@),
{
    a.ct_eq(b).into()
}

/// Lower-case hex of SHA-256 over the UTF-8 bytes of `input`.
pub fn sha256_hex(input: &str) -> (r: String)
    ensures
        r@ == token_hash_of(input@),
        r@.len() == 64,
{
    let digest = sha256_digest(input.as_bytes());
    hex_encode(digest.as_slice())
}

/// Equality of two strings whose running time does not depend on how long a
/// common prefix they share. On a length mismatch a comparison of the same
/// length as `b` is still made.
pub fn constant_time_eq(a: &str, b: &str) -> (r: bool)
    ensures
        r == (a@ == b@),
{
    let a_bytes = a.as_bytes();
    let b_bytes = b.as_bytes();
    proof {
        encode_utf8_decode_utf8(a@);
        encode_utf8_decode_utf8(b@);
    }
    if a_bytes.len() == b_bytes.len() {
        ct_eq_bytes(a_bytes, b_bytes)
    } else {
        let dummy: Vec<u8> = vec![0u8; b_bytes.len()];
        let _ = ct_eq_bytes(dummy.as_slice(), b_bytes);
        proof {
            if a@ == b@ {
                assert(a.spec_bytes() == b.spec_bytes());
            }
        }
        false
    }
}

/// Compares a provided token hash with the stored one in constant time.
pub fn validate_token_hash(provided_hash: &str, stored_hash: &str) -> (r: bool)
    ensures
        r == (provided_hash@ == stored_hash@),
{
    constant_time_eq(provided_hash, stored_hash)
}

pub open spec fn bearer_prefix() -> Seq<char> {
    seq!['b', 'e', 'a', 'r', 'e', 'r', ' ']
}

/// The token carried by an `Authorization` header value, if it is a bearer header.
pub open spec fn bearer_token(header: Seq<char>) -> Option<Seq<char>> {
    let a = trim(header);
    if a.len() > 7 && has_prefix_ignore_case(a, bearer_prefix()) {
        Some(trim(a.subrange(7, a.len() as int)))
    } else {
        None
    }
}

/// Parses `Bearer <token>` (prefix case-insensitive, surrounding whitespace
/// ignored). A missing header is passed as the empty string.
pub fn parse_bearer_token(authorization: &str) -> (r: Option<String>)
    ensures
        r matches Some(t) ==> bearer_token(authorization@) == Some(t@),
        r is None ==> bearer_token(authorization@) is None,
{
    let auth = trim_str(authorization);
    let n = auth.unicode_len();
    if n <= 7 {
        return None;
    }
    proof {
        reveal_strlit("bearer ");
        assert("bearer "@ =~= bearer_prefix());
    }
    if !starts_with_ignore_case(auth, "bearer ") {
        return None;
    }
    let rest = auth.substring_char(7, n);
    Some(String::from_str(trim_str(rest)))
}

/// Loopback and private addresses, by textual prefix.
pub open spec fn is_local_address(ip: Seq<char>) -> bool {
    ip == "127.0.0.1"@ || ip == "::1"@ || ip == "localhost"@ || has_prefix(ip, "10."@)
        || has_prefix(ip, "192.168."@) || has_prefix(ip, "172.16."@) || has_prefix(ip, "172.17."@)
        || has_prefix(ip, "172.18."@) || has_prefix(ip, "172.19."@) || has_prefix(ip, "172.2"@)
        || has_prefix(ip, "172.30."@) || has_prefix(ip, "172.31."@)
}

/// Whether `ip` names a local or private address. Every address that
/// starts with `172.2` counts, which covers 172.20. to 172.29. too.
pub fn is_local_ip(ip: &str) -> (r: bool)
    ensures
        r == is_local_address(ip@),
{
    str_equals(ip, "127.0.0.1") || str_equals(ip, "::1") || str_equals(ip, "localhost")
        || starts_with(ip, "10.") || starts_with(ip, "192.168.") || starts_with(ip, "172.16.")
        || starts_with(ip, "172.17.") || starts_with(ip, "172.18.") || starts_with(ip, "172.19.")
        || starts_with(ip, "172.2") || starts_with(ip, "172.30.") || starts_with(ip, "172.31.")
}

/// Index at which the first `c` at or after `k` stands, or the length.
pub open spec fn field_end_from(s: Seq<char>, c: char, k: int) -> int
    decreases s.len() - k,
{
    if k < 0 || k >= s.len() || s[k] == c {
        k
    } else {
        field_end_from(s, c, k + 1)
    }
}

/// The text before the first `c` in `s` (all of `s` where there is none).
pub open spec fn first_field(s: Seq<char>, c: char) -> Seq<char> {
    s.subrange(0, field_end_from(s, c, 0))
}

/// The text of `s` before its first `c`.
pub fn first_field_str(s: &str, c: char) -> (r: &str)
    ensures
        r@ == first_field(s@, c),
{
    let n = s.unicode_len();
    let mut i: usize = 0;
    while i < n && s.get_char(i) != c
        invariant
            n == s@.len(),
            i <= n,
            field_end_from(s@, c, 0) == field_end_from(s@, c, i as int),
        decreases n - i,
    {
        i = i + 1;
    }
    s.substring_char(0, i)
}

/// The default game port appended to an address that has none.
pub open spec fn with_default_port(ip: Seq<char>) -> Seq<char> {
    ip + ":25565"@
}

/// The server address for the ping feature, from the explicit address
/// header, else the first entry of the forwarded-for header, else the
/// real-ip header; local or private forwarded addresses are passed over.
pub open spec fn server_address(
    explicit: Option<Seq<char>>,
    forwarded_for: Option<Seq<char>>,
    real_ip: Option<Seq<char>>,
) -> Option<Seq<char>> {
    if explicit is Some && trim(explicit->0).len() > 0 {
        Some(trim(explicit->0))
    } else if forwarded_for is Some && trim(first_field(forwarded_for->0, ',')).len() > 0
        && !is_local_address(trim(first_field(forwarded_for->0, ','))) {
        Some(with_default_port(trim(first_field(forwarded_for->0, ','))))
    } else if real_ip is Some && trim(real_ip->0).len() > 0 && !is_local_address(
        trim(real_ip->0),
    ) {
        Some(with_default_port(trim(real_ip->0)))
    } else {
        None
    }
}

/// Picks the address under which a game server can be pinged; each argument
/// is the value of the corresponding header, if present.
pub fn extract_server_address(
    explicit: Option<&str>,
    forwarded_for: Option<&str>,
    real_ip: Option<&str>,
) -> (r: Option<String>)
    ensures
        r matches Some(a) ==> server_address(opt_view(explicit), opt_view(forwarded_for), opt_view(real_ip)) == Some(a@),
        r is None ==> server_address(opt_view(explicit), opt_view(forwarded_for), opt_view(real_ip)) is None,
{
    if let Some(e) = explicit {
        let t = trim_str(e);
        if t.unicode_len() > 0 {
            return Some(String::from_str(t));
        }
    }
    if let Some(f) = forwarded_for {
        let first = trim_str(first_field_str(f, ','));
        if first.unicode_len() > 0 && !is_local_ip(first) {
            proof { reveal_strlit(":25565"); }
            return Some(String::from_str(first).concat(":25565"));
        }
    }
    if let Some(ip) = real_ip {
        let t = trim_str(ip);
        if t.unicode_len() > 0 && !is_local_ip(t) {
            return Some(String::from_str(t).concat(":25565"));
        }
    }
    None
}

/// A request made with a shared secret is authorized iff the secret is set
/// and the header is exactly `Bearer <secret>`.
pub open spec fn secret_authorizes(authorization: Seq<char>, secret: Seq<char>) -> bool {
    secret.len() > 0 && authorization == "Bearer "@ + secret
}

/// Checks a module-callback or module-management request against the
/// service's shared secret, comparing in constant time.
pub fn shared_secret_authorized(authorization: &str, secret: &str) -> (r: bool)
    ensures
        r == secret_authorizes(authorization@, secret@),
{
    if secret.unicode_len() == 0 {
        return false;
    }
    let expected = String::from_str("Bearer ").concat(secret);
    constant_time_eq(authorization, expected.as_str())
}

/// The token of a dashboard request: the header must begin with `bearer `
/// (any case); what follows, trimmed, is the token.
pub open spec fn dashboard_token_of(authorization: Seq<char>) -> Option<Seq<char>> {
    if authorization.len() > 7 && has_prefix_ignore_case(authorization, bearer_prefix()) {
        Some(trim(authorization.subrange(7, authorization.len() as int)))
    } else {
        None
    }
}

/// Dashboard access: open when no dashboard token is configured, otherwise
/// only with a bearer equal to it.
pub open spec fn dashboard_allows(authorization: Seq<char>, expected: Option<Seq<char>>) -> bool {
    match expected {
        None => true,
        Some(e) => dashboard_token_of(authorization) == Some(e),
    }
}

/// Whether a dashboard request may proceed.
pub fn dashboard_authorized(authorization: &str, expected: Option<&str>) -> (r: bool)
    ensures
        r == dashboard_allows(authorization@, opt_view(expected)),
{
    let e = match expected {
        None => return true,
        Some(e) => e,
    };
    let n = authorization.unicode_len();
    proof {
        reveal_strlit("bearer ");
        assert("bearer "@ =~= bearer_prefix());
    }
    if n <= 7 || !starts_with_ignore_case(authorization, "bearer ") {
        return false;
    }
    let provided = trim_str(authorization.substring_char(7, n));
    constant_time_eq(provided, e)
}

pub open spec fn opt_view(o: Option<&str>) -> Option<Seq<char>> {
    match o {
        Some(s) => Some(s@),
        None => None,
    }
}

} // verus!
