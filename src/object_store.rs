//! Where raw batches are kept: the choice of backend and the key under
//! which a batch is stored, derived before any I/O.
use vstd::prelude::*;
use vstd::string::*;
use crate::config::Config;
use crate::text::{trim, trim_str};
use chrono::Datelike;

verus! {

/// The civil UTC date `(year, month, day)` of a Unix timestamp.
pub uninterp spec fn civil_date_of(secs: int) -> (int, int, int);

/// Whether a Unix timestamp lies within chrono's representable range.
pub uninterp spec fn in_chrono_range(secs: int) -> bool;

/// The hyphenated lower-case text of a UUID given as a 128-bit number.
pub uninterp spec fn uuid_text(v: u128) -> Seq<char>;

/// A calendar date in UTC.
#[derive(Clone, Copy, PartialEq, Eq, Debug, Structural)]
pub struct UtcDate {
    pub year: i32,
    pub month: u32,
    pub day: u32,
}

impl UtcDate {
    /// A date that fits the four-digit key layout.
    pub open spec fn wf(&self) -> bool {
        0 <= self.year <= 9999 && 1 <= self.month <= 12 && 1 <= self.day <= 31
    }
}

/// Relies on chrono's `DateTime::from_timestamp` and `Datelike`: the UTC
/// date of a timestamp, `None` exactly when the timestamp is out of
/// chrono's range; months run from 1 to 12 and days from 1 to 31.
#[verifier::external_body]
fn chrono_utc_date(secs: i64) -> (r: Option<(i32, u32, u32)>)
    ensures
        r is Some <==> in_chrono_range(secs as int),
        r matches Some(d) ==> (d.0 as int, d.1 as int, d.2 as int) == civil_date_of(secs as int)
            && 1 <= d.1 <= 12 && 1 <= d.2 <= 31,
{
    chrono::DateTime::from_timestamp(secs, 0).map(|t| (t.year(), t.month(), t.day()))
}

/// Relies on uuid's `Uuid::from_u128` and its hyphenated `Display`.
#[verifier::external_body]
pub(crate) fn uuid_hyphenated(v: u128) -> (r: String)
    ensures
        r@ == uuid_text(v),
{
    uuid::Uuid::from_u128(v).hyphenated().to_string()
}

impl UtcDate {
    /// The UTC date of a Unix timestamp, where its year has four digits.
    pub fn from_unix_seconds(secs: i64) -> (r: Option<UtcDate>)
        ensures
            r is Some <==> (in_chrono_range(secs as int) && 0 <= civil_date_of(secs as int).0 <= 9999),
            r matches Some(d) ==> d.wf() && (d.year as int, d.month as int, d.day as int)
                == civil_date_of(secs as int),
    {
        match chrono_utc_date(secs) {
            Some((y, m, d)) => {
                if 0 <= y && y <= 9999 {
                    Some(UtcDate { year: y, month: m, day: d })
                } else {
                    None
                }
            },
            None => None,
        }
    }
}

pub open spec fn digit_char(d: int) -> char {
    "0123456789"@[d]
}

/// `n` in decimal, zero-padded (or cut) to `width` digits.
pub open spec fn padded_decimal(n: nat, width: nat) -> Seq<char>
    decreases width,
{
    if width == 0 {
        Seq::empty()
    } else {
        padded_decimal(n / 10, (width - 1) as nat).push(digit_char((n % 10) as int))
    }
}

/// `YYYY-MM-DD`.
pub open spec fn date_text(d: UtcDate) -> Seq<char> {
    padded_decimal(d.year as nat, 4) + "-"@ + padded_decimal(d.month as nat, 2) + "-"@
        + padded_decimal(d.day as nat, 2)
}

fn push_padded(out: String, n: u32, width: u32) -> (r: String)
    requires
        width <= 10,
    ensures
        r@ == out@ + padded_decimal(n as nat, width as nat),
    decreases width,
{
    if width == 0 {
        assert(out@ + padded_decimal(n as nat, 0) =~= out@);
        out
    } else {
        let head = push_padded(out, n / 10, width - 1);
        let d = (n % 10) as usize;
        proof { reveal_strlit("0123456789"); }
        let r = head.concat("0123456789".substring_char(d, d + 1));
        assert("0123456789"@.subrange(d as int, d + 1) =~= seq![digit_char(d as int)]);
        assert(r@ =~= out@ + padded_decimal(n as nat, width as nat));
        r
    }
}

/// The date as `YYYY-MM-DD`.
pub fn format_date(d: &UtcDate) -> (r: String)
    requires
        d.wf(),
    ensures
        r@ == date_text(*d),
{
    let s = push_padded(String::new(), d.year as u32, 4);
    let s = s.concat("-");
    let s = push_padded(s, d.month, 2);
    let s = s.concat("-");
    let s = push_padded(s, d.day, 2);
    proof {
        reveal_strlit("-");
        assert(s@ =~= date_text(*d));
    }
    s
}

pub open spec fn is_separator(c: char) -> bool {
    c == '/' || c == '\\'
}

/// `s` without path separators.
pub open spec fn without_separators(s: Seq<char>) -> Seq<char>
    decreases s.len(),
{
    if s.len() == 0 {
        s
    } else if is_separator(s.last()) {
        without_separators(s.drop_last())
    } else {
        without_separators(s.drop_last()).push(s.last())
    }
}

/// `s` without leading dots.
pub open spec fn without_leading_dots(s: Seq<char>) -> Seq<char>
    decreases s.len(),
{
    if s.len() > 0 && s[0] == '.' {
        without_leading_dots(s.drop_first())
    } else {
        s
    }
}

/// A key component with its path separators and leading dots removed.
pub open spec fn sanitized(s: Seq<char>) -> Seq<char> {
    without_leading_dots(without_separators(s))
}

/// Removes path separators, then leading dots, so that a component cannot
/// climb out of its directory.
pub fn sanitize_component(s: &str) -> (r: String)
    ensures
        r@ == sanitized(s@),
{
    let n = s.unicode_len();
    let mut kept = String::new();
    let mut i: usize = 0;
    while i < n
        invariant
            n == s@.len(),
            i <= n,
            kept@ == without_separators(s@.subrange(0, i as int)),
        decreases n - i,
    {
        let c = s.get_char(i);
        assert(s@.subrange(0, i + 1).drop_last() =~= s@.subrange(0, i as int));
        if c != '/' && c != '\\' {
            let piece = s.substring_char(i, i + 1);
            assert(piece@ =~= seq![c]);
            kept = kept.concat(piece);
            assert(kept@ =~= without_separators(s@.subrange(0, i as int)).push(c));
        }
        i = i + 1;
    }
    assert(s@.subrange(0, n as int) =~= s@);
    let k = kept.as_str();
    let m = k.unicode_len();
    let mut j: usize = 0;
    assert(k@.subrange(0, m as int) =~= k@);
    while j < m && k.get_char(j) == '.'
        invariant
            m == k@.len(),
            j <= m,
            without_leading_dots(k@) == without_leading_dots(k@.subrange(j as int, m as int)),
        decreases m - j,
    {
        assert(k@.subrange(j as int, m as int).drop_first() =~= k@.subrange(j + 1, m as int));
        j = j + 1;
    }
    String::from_str(k.substring_char(j, m))
}

/// `events/{server}/{YYYY-MM-DD}/{session}/{batch}.ndjson.gz`, with both
/// components sanitized; `None` when either sanitizes to nothing.
pub open spec fn batch_key_of(server_id: Seq<char>, session_id: Seq<char>, batch_id: u128, date: UtcDate) -> Option<Seq<char>> {
    if sanitized(server_id).len() == 0 || sanitized(session_id).len() == 0 {
        None
    } else {
        Some(
            "events/"@ + sanitized(server_id) + "/"@ + date_text(date) + "/"@ + sanitized(session_id)
                + "/"@ + uuid_text(batch_id) + ".ndjson.gz"@,
        )
    }
}

/// Which backend holds the raw batches.
pub enum ObjectStore {
    /// An S3-compatible bucket; path-style addressing only for a custom endpoint.
    S3 { bucket: String, region: String, endpoint: Option<String>, path_style: bool },
    /// A directory on the local filesystem.
    Local { root: String },
}

impl ObjectStore {
    /// The local backend when the bucket name is blank, else the bucket,
    /// path-style exactly when a custom endpoint is configured.
    pub fn from_config(cfg: &Config) -> (r: ObjectStore)
        ensures
            trim(cfg.s3_bucket@).len() == 0 ==> (r matches ObjectStore::Local { root } && root@
                == cfg.local_store_dir@),
            trim(cfg.s3_bucket@).len() > 0 ==> (r matches ObjectStore::S3 {
                bucket,
                region,
                endpoint,
                path_style,
            } && bucket@ == cfg.s3_bucket@ && region@ == cfg.s3_region@ && path_style == (
            cfg.s3_endpoint is Some) && crate::findings::opt_str(endpoint)
                == crate::findings::opt_str(cfg.s3_endpoint)),
    {
        if trim_str(cfg.s3_bucket.as_str()).unicode_len() == 0 {
            return ObjectStore::Local { root: cfg.local_store_dir.clone() };
        }
        ObjectStore::S3 {
            bucket: cfg.s3_bucket.clone(),
            region: cfg.s3_region.clone(),
            endpoint: crate::findings::clone_opt(&cfg.s3_endpoint),
            path_style: cfg.s3_endpoint.is_some(),
        }
    }

    /// The key of a batch: deterministic in its arguments, `None` when the
    /// server or session id sanitizes to nothing.
    pub fn batch_key(server_id: &str, session_id: &str, batch_id: u128, date: &UtcDate) -> (r: Option<String>)
        requires
            date.wf(),
        ensures
            r matches Some(k) ==> batch_key_of(server_id@, session_id@, batch_id, *date) == Some(k@),
            r is None ==> batch_key_of(server_id@, session_id@, batch_id, *date) is None,
    {
        let server = sanitize_component(server_id);
        let session = sanitize_component(session_id);
        if server.as_str().unicode_len() == 0 || session.as_str().unicode_len() == 0 {
            return None;
        }
        let date_s = format_date(date);
        let id = uuid_hyphenated(batch_id);
        let key = String::from_str("events/").concat(server.as_str()).concat("/").concat(
            date_s.as_str(),
        ).concat("/").concat(session.as_str()).concat("/").concat(id.as_str()).concat(
            ".ndjson.gz",
        );
        Some(key)
    }
}

/// The key is a function of its arguments: equal arguments give equal keys.
pub proof fn lemma_batch_key_deterministic(
    server_id: Seq<char>,
    session_id: Seq<char>,
    batch_id: u128,
    date: UtcDate,
    server_id2: Seq<char>,
    session_id2: Seq<char>,
    batch_id2: u128,
    date2: UtcDate,
)
    requires
        server_id == server_id2,
        session_id == session_id2,
        batch_id == batch_id2,
        date == date2,
    ensures
        batch_key_of(server_id, session_id, batch_id, date) == batch_key_of(
            server_id2,
            session_id2,
            batch_id2,
            date2,
        ),
{
}

/// A component that sanitizes to nothing gives no key.
pub proof fn lemma_batch_key_rejects_empty(server_id: Seq<char>, session_id: Seq<char>, batch_id: u128, date: UtcDate)
    requires
        sanitized(server_id).len() == 0 || sanitized(session_id).len() == 0,
    ensures
        batch_key_of(server_id, session_id, batch_id, date) is None,
{
}

} // verus!
