//! Service settings and the rules that read them from text.
use vstd::prelude::*;
use vstd::string::*;
use crate::findings::{clone_opt, opt_str};
use crate::numbers::{i64_of, parse_i64, parse_unsigned, unsigned_of};
use crate::text::{eq_ignore_case, trim, trim_str};

verus! {

/// The service's settings.
pub struct Config {
    pub host: String,
    pub port: u16,
    pub database_url: String,
    pub ingest_token: String,
    pub module_callback_token: String,
    pub dashboard_token: Option<String>,
    pub module_healthcheck_interval_seconds: u64,
    pub max_body_bytes: usize,
    pub object_store_cleanup_enabled: bool,
    pub object_store_cleanup_dry_run: bool,
    pub object_store_cleanup_interval_seconds: u64,
    pub object_store_ttl_days: i64,
    pub object_store_ttl_seconds_override: Option<i64>,
    pub batch_index_ttl_days: i64,
    pub batch_index_ttl_seconds_override: Option<i64>,
    pub s3_bucket: String,
    pub s3_region: String,
    pub s3_endpoint: Option<String>,
    pub s3_access_key: Option<String>,
    pub s3_secret_key: Option<String>,
    pub local_store_dir: String,
    pub cors_allow_origins: Vec<String>,
    pub cors_permissive_dev: bool,
}

pub open spec fn is_true_word(s: Seq<char>) -> bool {
    eq_ignore_case(s, "1"@) || eq_ignore_case(s, "true"@) || eq_ignore_case(s, "yes"@)
        || eq_ignore_case(s, "y"@) || eq_ignore_case(s, "on"@)
}

pub open spec fn is_false_word(s: Seq<char>) -> bool {
    eq_ignore_case(s, "0"@) || eq_ignore_case(s, "false"@) || eq_ignore_case(s, "no"@)
        || eq_ignore_case(s, "n"@) || eq_ignore_case(s, "off"@)
}

/// The boolean that a setting's text names, or `default` when it is unset
/// or names none.
pub open spec fn bool_setting(value: Option<Seq<char>>, default: bool) -> bool {
    match value {
        Some(v) => if is_true_word(trim(v)) {
            true
        } else if is_false_word(trim(v)) {
            false
        } else {
            default
        },
        None => default,
    }
}

fn eq_ignore_case_str(a: &str, b: &str) -> (r: bool)
    ensures
        r == eq_ignore_case(a@, b@),
{
    if a.unicode_len() != b.unicode_len() {
        return false;
    }
    let r = crate::text::starts_with_ignore_case(a, b);
    assert(a@.subrange(0, b@.len() as int) =~= a@);
    r
}

/// Reads `1/true/yes/y/on` as true and `0/false/no/n/off` as false, case
/// and surrounding whitespace ignored; anything else, or no value, gives
/// `default`.
pub fn parse_bool_setting(value: Option<&str>, default: bool) -> (r: bool)
    ensures
        r == bool_setting(crate::auth::opt_view(value), default),
{
    match value {
        None => default,
        Some(v) => {
            let t = trim_str(v);
            if eq_ignore_case_str(t, "1") || eq_ignore_case_str(t, "true") || eq_ignore_case_str(
                t,
                "yes",
            ) || eq_ignore_case_str(t, "y") || eq_ignore_case_str(t, "on") {
                true
            } else if eq_ignore_case_str(t, "0") || eq_ignore_case_str(t, "false")
                || eq_ignore_case_str(t, "no") || eq_ignore_case_str(t, "n") || eq_ignore_case_str(
                t,
                "off",
            ) {
                false
            } else {
                default
            }
        },
    }
}

/// The non-blank entries of a comma-separated list, trimmed, scanning from
/// position `k` with the current entry starting at `start`.
pub open spec fn list_from(s: Seq<char>, k: int, start: int) -> Seq<Seq<char>>
    decreases s.len() - k,
{
    if k >= s.len() {
        let entry = trim(s.subrange(start, s.len() as int));
        if entry.len() > 0 {
            seq![entry]
        } else {
            Seq::empty()
        }
    } else if s[k] == ',' {
        let entry = trim(s.subrange(start, k));
        let rest = list_from(s, k + 1, k + 1);
        if entry.len() > 0 {
            seq![entry] + rest
        } else {
            rest
        }
    } else {
        list_from(s, k + 1, start)
    }
}

/// The non-blank entries of a comma-separated list, trimmed.
pub open spec fn comma_list(s: Seq<char>) -> Seq<Seq<char>> {
    list_from(s, 0, 0)
}

/// Splits a comma-separated list, trimming entries and dropping blank ones.
pub fn parse_list(s: &str) -> (r: Vec<String>)
    ensures
        r@.map_values(|e: String| e@) == comma_list(s@),
{
    let n = s.unicode_len();
    let mut out: Vec<String> = Vec::new();
    let mut start: usize = 0;
    let mut i: usize = 0;
    while i < n
        invariant
            n == s@.len(),
            start <= i <= n,
            out@.map_values(|e: String| e@) + list_from(s@, i as int, start as int) == comma_list(s@),
        decreases n - i,
    {
        if s.get_char(i) == ',' {
            let entry = trim_str(s.substring_char(start, i));
            let ghost before = out@.map_values(|e: String| e@);
            let ghost rest = list_from(s@, i + 1, i + 1);
            if entry.unicode_len() > 0 {
                out.push(String::from_str(entry));
                assert(out@.map_values(|e: String| e@) =~= before.push(entry@));
                assert(before + (seq![entry@] + rest) =~= before.push(entry@) + rest);
            }
            start = i + 1;
        }
        i = i + 1;
    }
    let entry = trim_str(s.substring_char(start, n));
    let ghost before = out@.map_values(|e: String| e@);
    if entry.unicode_len() > 0 {
        out.push(String::from_str(entry));
        assert(out@.map_values(|e: String| e@) =~= before + seq![entry@]);
    } else {
        assert(before + Seq::<Seq<char>>::empty() =~= before);
    }
    out
}

/// The raw text of each setting, `None` where it is unset.
pub struct SettingValues {
    pub host: Option<String>,
    pub port: Option<String>,
    pub database_url: Option<String>,
    pub ingest_token: Option<String>,
    pub module_callback_token: Option<String>,
    pub dashboard_token: Option<String>,
    pub module_healthcheck_interval_seconds: Option<String>,
    pub max_body_bytes: Option<String>,
    pub object_store_cleanup_enabled: Option<String>,
    pub object_store_cleanup_dry_run: Option<String>,
    pub object_store_cleanup_interval_seconds: Option<String>,
    pub object_store_ttl_days: Option<String>,
    pub object_store_ttl_seconds: Option<String>,
    pub batch_index_ttl_days: Option<String>,
    pub batch_index_ttl_seconds: Option<String>,
    pub s3_bucket: Option<String>,
    pub s3_region: Option<String>,
    pub s3_endpoint: Option<String>,
    pub s3_access_key: Option<String>,
    pub s3_secret_key: Option<String>,
    pub local_store_dir: Option<String>,
    pub cors_allow_origins: Option<String>,
    pub cors_permissive_dev: Option<String>,
}

/// An unsigned setting: its value when the text reads as one within `max`, else `default`.
pub open spec fn unsigned_setting(v: Option<String>, max: int, default: int) -> int {
    match v {
        Some(t) => match unsigned_of(t@, max) {
            Some(n) => n,
            None => default,
        },
        None => default,
    }
}

/// A signed setting, `None` when unset or unreadable.
pub open spec fn i64_setting(v: Option<String>) -> Option<int> {
    match v {
        Some(t) => i64_of(t@),
        None => None,
    }
}

/// A text setting, or its default.
pub open spec fn text_setting(v: Option<String>, default: Seq<char>) -> Seq<char> {
    match v {
        Some(t) => t@,
        None => default,
    }
}

/// A TTL in days: the setting, else `default`, and at least one.
pub open spec fn days_setting(v: Option<String>, default: int) -> int {
    let d = match i64_setting(v) {
        Some(n) => n,
        None => default,
    };
    if d < 1 {
        1
    } else {
        d
    }
}

/// A TTL override in seconds: only a readable positive value counts.
pub open spec fn override_setting(v: Option<String>) -> Option<int> {
    match i64_setting(v) {
        Some(n) => if n > 0 {
            Some(n)
        } else {
            None
        },
        None => None,
    }
}

fn text_or(v: &Option<String>, default: &str) -> (r: String)
    ensures
        r@ == text_setting(*v, default@),
{
    match v {
        Some(t) => t.clone(),
        None => String::from_str(default),
    }
}

fn unsigned_or(v: &Option<String>, max: u64, default: u64) -> (r: u64)
    requires
        default <= max,
    ensures
        r as int == unsigned_setting(*v, max as int, default as int),
        r <= max,
{
    match v {
        Some(t) => match parse_unsigned(t.as_str(), max) {
            Some(n) => n,
            None => default,
        },
        None => default,
    }
}

fn i64_or_none(v: &Option<String>) -> (r: Option<i64>)
    ensures
        opt_i64(r) == i64_setting(*v),
{
    match v {
        Some(t) => parse_i64(t.as_str()),
        None => None,
    }
}

pub open spec fn opt_i64(o: Option<i64>) -> Option<int> {
    match o {
        Some(v) => Some(v as int),
        None => None,
    }
}

fn bool_or(v: &Option<String>, default: bool) -> (r: bool)
    ensures
        r == bool_setting(opt_str(*v), default),
{
    match v {
        Some(t) => parse_bool_setting(Some(t.as_str()), default),
        None => default,
    }
}

impl Config {
    /// Builds the settings from their raw texts, with the service's defaults:
    /// host `0.0.0.0`, port 3002, health checks every 10 s, bodies up to
    /// 10 MiB, cleanup off and dry-run on, hourly sweeps, 7-day TTLs (the
    /// index TTL defaulting to the object TTL, both at least one day),
    /// overrides only when positive, region `us-east-1`, local store
    /// `./data/object_store`, a blank dashboard token meaning none.
    pub fn from_values(v: &SettingValues) -> (r: Config)
        ensures
            r.host@ == text_setting(v.host, "0.0.0.0"@),
            r.port as int == unsigned_setting(v.port, 65535, 3002),
            r.database_url@ == text_setting(v.database_url, ""@),
            r.ingest_token@ == text_setting(v.ingest_token, ""@),
            r.module_callback_token@ == text_setting(v.module_callback_token, ""@),
            opt_str(r.dashboard_token) == (match v.dashboard_token {
                Some(t) => if trim(t@).len() > 0 {
                    Some(t@)
                } else {
                    None
                },
                None => None,
            }),
            r.module_healthcheck_interval_seconds as int == unsigned_setting(
                v.module_healthcheck_interval_seconds,
                u64::MAX as int,
                10,
            ),
            r.max_body_bytes as int == unsigned_setting(v.max_body_bytes, usize::MAX as int, 10485760),
            r.object_store_cleanup_enabled == bool_setting(opt_str(v.object_store_cleanup_enabled), false),
            r.object_store_cleanup_dry_run == bool_setting(opt_str(v.object_store_cleanup_dry_run), true),
            r.object_store_cleanup_interval_seconds as int == unsigned_setting(
                v.object_store_cleanup_interval_seconds,
                u64::MAX as int,
                3600,
            ),
            r.object_store_ttl_days as int == days_setting(v.object_store_ttl_days, 7),
            opt_i64(r.object_store_ttl_seconds_override) == override_setting(v.object_store_ttl_seconds),
            r.batch_index_ttl_days as int == days_setting(
                v.batch_index_ttl_days,
                days_setting(v.object_store_ttl_days, 7),
            ),
            opt_i64(r.batch_index_ttl_seconds_override) == override_setting(v.batch_index_ttl_seconds),
            r.s3_bucket@ == text_setting(v.s3_bucket, ""@),
            r.s3_region@ == text_setting(v.s3_region, "us-east-1"@),
            opt_str(r.s3_endpoint) == opt_str(v.s3_endpoint),
            opt_str(r.s3_access_key) == opt_str(v.s3_access_key),
            opt_str(r.s3_secret_key) == opt_str(v.s3_secret_key),
            r.local_store_dir@ == text_setting(v.local_store_dir, "./data/object_store"@),
            r.cors_allow_origins@.map_values(|e: String| e@) == (match v.cors_allow_origins {
                Some(t) => comma_list(t@),
                None => Seq::empty(),
            }),
            r.cors_permissive_dev == bool_setting(opt_str(v.cors_permissive_dev), false),
    {
        let dashboard_token = match &v.dashboard_token {
            Some(t) => if trim_str(t.as_str()).unicode_len() > 0 {
                Some(t.clone())
            } else {
                None
            },
            None => None,
        };
        let object_days: i64 = match i64_or_none(&v.object_store_ttl_days) {
            Some(d) => if d < 1 {
                1
            } else {
                d
            },
            None => 7,
        };
        let batch_days: i64 = match i64_or_none(&v.batch_index_ttl_days) {
            Some(d) => if d < 1 {
                1
            } else {
                d
            },
            None => object_days,
        };
        let object_override = match i64_or_none(&v.object_store_ttl_seconds) {
            Some(n) => if n > 0 {
                Some(n)
            } else {
                None
            },
            None => None,
        };
        let batch_override = match i64_or_none(&v.batch_index_ttl_seconds) {
            Some(n) => if n > 0 {
                Some(n)
            } else {
                None
            },
            None => None,
        };
        let origins: Vec<String> = match &v.cors_allow_origins {
            Some(t) => parse_list(t.as_str()),
            None => Vec::new(),
        };
        proof {
            if v.cors_allow_origins is None {
                assert(origins@.map_values(|e: String| e@) =~= Seq::<Seq<char>>::empty());
            }
        }
        Config {
            host: text_or(&v.host, "0.0.0.0"),
            port: unsigned_or(&v.port, 65535, 3002) as u16,
            database_url: text_or(&v.database_url, ""),
            ingest_token: text_or(&v.ingest_token, ""),
            module_callback_token: text_or(&v.module_callback_token, ""),
            dashboard_token,
            module_healthcheck_interval_seconds: unsigned_or(
                &v.module_healthcheck_interval_seconds,
                u64::MAX,
                10,
            ),
            max_body_bytes: unsigned_or(&v.max_body_bytes, usize::MAX as u64, 10485760) as usize,
            object_store_cleanup_enabled: bool_or(&v.object_store_cleanup_enabled, false),
            object_store_cleanup_dry_run: bool_or(&v.object_store_cleanup_dry_run, true),
            object_store_cleanup_interval_seconds: unsigned_or(
                &v.object_store_cleanup_interval_seconds,
                u64::MAX,
                3600,
            ),
            object_store_ttl_days: object_days,
            object_store_ttl_seconds_override: object_override,
            batch_index_ttl_days: batch_days,
            batch_index_ttl_seconds_override: batch_override,
            s3_bucket: text_or(&v.s3_bucket, ""),
            s3_region: text_or(&v.s3_region, "us-east-1"),
            s3_endpoint: clone_opt(&v.s3_endpoint),
            s3_access_key: clone_opt(&v.s3_access_key),
            s3_secret_key: clone_opt(&v.s3_secret_key),
            local_store_dir: text_or(&v.local_store_dir, "./data/object_store"),
            cors_allow_origins: origins,
            cors_permissive_dev: bool_or(&v.cors_permissive_dev, false),
        }
    }
}

} // verus!
