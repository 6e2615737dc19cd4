//! Reading the host and port that the dashboard pings from a stored
//! server address.
use vstd::prelude::*;
use vstd::string::*;
use crate::auth::{field_end_from, first_field, first_field_str};
use crate::builtin_modules::{decimal, decimal_text};
use crate::numbers::{parse_unsigned, unsigned_of};
use crate::players::{parse_uuid, uuid_parse_of};
use crate::text::{has_prefix, starts_with, str_equals, trim, trim_str};

verus! {

/// The game's default port.
pub const DEFAULT_GAME_PORT: u16 = 25565;

/// A port number in decimal, with an optional leading `+`, as Rust's
/// integer parsing reads it.
pub open spec fn port_of(s: Seq<char>) -> Option<u16> {
    match unsigned_of(s, 65535) {
        Some(v) => Some(v as u16),
        None => None,
    }
}

/// Parses a decimal port number.
pub fn parse_port(s: &str) -> (r: Option<u16>)
    ensures
        r == port_of(s@),
{
    match parse_unsigned(s, 65535) {
        Some(v) => Some(v as u16),
        None => None,
    }
}

/// `s` without a leading `http://` or `https://`.
pub open spec fn without_scheme(s: Seq<char>) -> Seq<char> {
    if has_prefix(s, "http://"@) {
        s.subrange(7, s.len() as int)
    } else if has_prefix(s, "https://"@) {
        s.subrange(8, s.len() as int)
    } else {
        s
    }
}

/// The host and port that an address names: the scheme and any path are
/// dropped; a bracketed IPv6 host keeps what stands inside the brackets; a
/// port that is missing or does not parse is the default game port.
pub open spec fn host_port_of(raw: Seq<char>) -> Option<(Seq<char>, u16)> {
    let t = trim(raw);
    let authority = trim(first_field(without_scheme(t), '/'));
    let rest = authority.drop_first();
    let end = field_end_from(rest, ']', 0);
    if t.len() == 0 || authority.len() == 0 {
        None
    } else if authority[0] == '[' && end < rest.len() {
        let host = trim(rest.subrange(0, end));
        let after = trim(rest.subrange(end + 1, rest.len() as int));
        if host.len() == 0 {
            None
        } else {
            let port = if after.len() > 0 && after[0] == ':' {
                port_of(after.drop_first())
            } else {
                None
            };
            Some((host, or_default_port(port)))
        }
    } else {
        let host = trim(first_field(authority, ':'));
        let colon = field_end_from(authority, ':', 0);
        if host.len() == 0 {
            None
        } else {
            let port = if colon < authority.len() {
                port_of(trim(first_field(authority.subrange(colon + 1, authority.len() as int), ':')))
            } else {
                None
            };
            Some((host, or_default_port(port)))
        }
    }
}

pub open spec fn or_default_port(p: Option<u16>) -> u16 {
    match p {
        Some(v) => v,
        None => 25565,
    }
}

fn strip_scheme(s: &str) -> (r: &str)
    ensures
        r@ == without_scheme(s@),
{
    let n = s.unicode_len();
    if starts_with(s, "http://") {
        proof { reveal_strlit("http://"); }
        s.substring_char(7, n)
    } else if starts_with(s, "https://") {
        proof { reveal_strlit("https://"); }
        s.substring_char(8, n)
    } else {
        s
    }
}

fn field_end(s: &str, c: char) -> (r: usize)
    ensures
        r as int == field_end_from(s@, c, 0),
        r <= s@.len(),
{
    let n = s.unicode_len();
    let mut i: usize = 0;
    while i < n && s.get_char(i) != c
        invariant
            n == s@.len(),
            i <= n,
            field_end_from(s@, c, 0) == field_end_from(s@, c, i as int),
        decreases n - i,
    {
        i = i + 1;
    }
    i
}

/// Splits a stored server address into host and port for the dashboard ping.
pub fn extract_host_port(raw: &str) -> (r: Option<(String, u16)>)
    ensures
        match r {
            Some((h, p)) => host_port_of(raw@) == Some((h@, p)),
            None => host_port_of(raw@) is None,
        },
{
    let t = trim_str(raw);
    if t.unicode_len() == 0 {
        return None;
    }
    let authority = trim_str(first_field_str(strip_scheme(t), '/'));
    let m = authority.unicode_len();
    if m == 0 {
        return None;
    }
    if authority.get_char(0) == '[' {
        let rest = authority.substring_char(1, m);
        assert(rest@ =~= authority@.drop_first());
        let rn = rest.unicode_len();
        let end = field_end(rest, ']');
        if end < rn {
            let host = trim_str(rest.substring_char(0, end));
            if host.unicode_len() == 0 {
                return None;
            }
            let after = trim_str(rest.substring_char(end + 1, rn));
            let an = after.unicode_len();
            let port = if an > 0 && after.get_char(0) == ':' {
                let digits = after.substring_char(1, an);
                assert(digits@ =~= after@.drop_first());
                parse_port(digits)
            } else {
                None
            };
            let p = match port {
                Some(v) => v,
                None => DEFAULT_GAME_PORT,
            };
            return Some((String::from_str(host), p));
        }
    }
    let host = trim_str(first_field_str(authority, ':'));
    if host.unicode_len() == 0 {
        return None;
    }
    let colon = field_end(authority, ':');
    let port = if colon < m {
        parse_port(trim_str(first_field_str(authority.substring_char(colon + 1, m), ':')))
    } else {
        None
    };
    let p = match port {
        Some(v) => v,
        None => DEFAULT_GAME_PORT,
    };
    Some((String::from_str(host), p))
}

/// How long a plugin may stay silent and still count as online.
pub const ONLINE_WINDOW_MS: i64 = 30000;

/// A server's connection state as the dashboard shows it.
pub struct ConnectionStatus {
    /// Milliseconds since the plugin last sent anything, -1 for an unknown server.
    pub plugin_last_seen_ms: i64,
    pub plugin_online: bool,
    pub server_ping_ms: Option<i64>,
    pub server_reachable: bool,
    /// The `host:port` that was pinged.
    pub server_address: Option<String>,
}

/// The status endpoint's answer.
pub struct StatusResponse {
    pub ok: bool,
    pub status: ConnectionStatus,
}

/// A plugin counts as online when it was seen within the last 30 seconds.
pub fn plugin_online(ms_since_seen: i64) -> (r: bool)
    ensures
        r == (ms_since_seen < 30000),
{
    ms_since_seen < ONLINE_WINDOW_MS
}

/// The status of a server that was never seen.
pub fn unknown_server_status() -> (r: ConnectionStatus)
    ensures
        r.plugin_last_seen_ms == -1,
        !r.plugin_online,
        r.server_ping_ms is None,
        !r.server_reachable,
        r.server_address is None,
{
    ConnectionStatus {
        plugin_last_seen_ms: -1,
        plugin_online: false,
        server_ping_ms: None,
        server_reachable: false,
        server_address: None,
    }
}

/// What to ping for a server: its stored address, else its id unless the id
/// is a UUID; loopback hosts are never pinged.
pub open spec fn ping_target_of(callback_url: Option<Seq<char>>, server_id: Seq<char>) -> Option<(Seq<char>, u16)> {
    let source = match callback_url {
        Some(u) => Some(u),
        None => if uuid_parse_of(server_id) is Some {
            None
        } else {
            Some(server_id)
        },
    };
    match source {
        Some(src) => match host_port_of(src) {
            Some(hp) => if hp.0 == "127.0.0.1"@ || hp.0 == "localhost"@ {
                None
            } else {
                Some(hp)
            },
            None => None,
        },
        None => None,
    }
}

/// The host and port that the status endpoint pings, if any.
pub fn ping_target(callback_url: Option<&str>, server_id: &str) -> (r: Option<(String, u16)>)
    ensures
        match r {
            Some((h, p)) => ping_target_of(crate::auth::opt_view(callback_url), server_id@) == Some((h@, p)),
            None => ping_target_of(crate::auth::opt_view(callback_url), server_id@) is None,
        },
{
    let source: Option<&str> = match callback_url {
        Some(u) => Some(u),
        None => if parse_uuid(server_id).is_some() {
            None
        } else {
            Some(server_id)
        },
    };
    match source {
        Some(src) => match extract_host_port(src) {
            Some((h, p)) => {
                if str_equals(h.as_str(), "127.0.0.1") || str_equals(h.as_str(), "localhost") {
                    None
                } else {
                    Some((h, p))
                }
            },
            None => None,
        },
        None => None,
    }
}

/// `host:port`.
pub fn address_text(host: &str, port: u16) -> (r: String)
    ensures
        r@ == host@ + ":"@ + decimal(port as nat),
{
    String::from_str(host).concat(":").concat(decimal_text(port as u64).as_str())
}

} // verus!
