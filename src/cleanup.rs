//! Retention: how old a blob or an index row may get, and which files a
//! sweep of the local store deletes.
use vstd::prelude::*;

verus! {

/// What one sweep did.
pub struct CleanupStats {
    pub files_examined: u64,
    pub files_deleted: u64,
    pub bytes_deleted: u64,
    pub dirs_removed: u64,
    pub db_rows_deleted: u64,
}

pub const SECONDS_PER_DAY: i64 = 86400;

/// The retention period in seconds: an override of at least 60 seconds, or
/// else at least one day, held within `i64`.
pub open spec fn retention_of(override_seconds: Option<i64>, ttl_days: i64) -> int {
    match override_seconds {
        Some(s) => if s < 60 {
            60
        } else {
            s as int
        },
        None => {
            let days = if ttl_days < 1 {
                1
            } else {
                ttl_days as int
            };
            if days * 86400 > i64::MAX {
                i64::MAX as int
            } else {
                days * 86400
            }
        },
    }
}

/// The retention period that a pair of TTL settings gives.
pub fn retention_seconds(override_seconds: Option<i64>, ttl_days: i64) -> (r: i64)
    ensures
        r == retention_of(override_seconds, ttl_days),
        r >= 60,
{
    match override_seconds {
        Some(s) => if s < 60 {
            60
        } else {
            s
        },
        None => {
            let days: i64 = if ttl_days < 1 {
                1
            } else {
                ttl_days
            };
            if days > i64::MAX / SECONDS_PER_DAY {
                assert(days * 86400 > i64::MAX) by (nonlinear_arith)
                    requires days > i64::MAX / 86400;
                i64::MAX
            } else {
                assert(days * 86400 <= i64::MAX) by (nonlinear_arith)
                    requires days <= i64::MAX / 86400, days >= 1;
                days * SECONDS_PER_DAY
            }
        },
    }
}

/// The instant before which data is expired: `now` minus the retention
/// period, held within `i64`.
pub fn retention_cutoff(now: i64, retention: i64) -> (r: i64)
    requires
        retention >= 0,
    ensures
        r == (if now - retention < i64::MIN {
            i64::MIN as int
        } else {
            now - retention
        }),
{
    if now < i64::MIN + retention {
        i64::MIN
    } else {
        now - retention
    }
}

/// A file is deleted when its modification time is known and before the
/// cutoff; a file whose time cannot be read is kept.
pub fn file_expired(modified_at: Option<i64>, cutoff: i64) -> (r: bool)
    ensures
        r == (modified_at matches Some(t) && t < cutoff),
{
    match modified_at {
        Some(t) => t < cutoff,
        None => false,
    }
}

/// A periodic interval: the configured seconds, at least one.
pub fn tick_interval_seconds(configured: u64) -> (r: u64)
    ensures
        r == (if configured < 1 {
            1
        } else {
            configured
        }),
{
    if configured < 1 {
        1
    } else {
        configured
    }
}

} // verus!
