//! Minute-bucketed aggregation of module findings, and the upsert rule that
//! merges a bucket into the row stored under the same key.
use vstd::prelude::*;
use vstd::string::*;
use crate::text::{str_equals, trim, trim_str};

verus! {

/// Rank of a severity: info (and anything unknown) < low < medium < high < critical.
pub open spec fn severity_rank(s: Seq<char>) -> int {
    if s == "critical"@ {
        4
    } else if s == "high"@ {
        3
    } else if s == "medium"@ {
        2
    } else if s == "low"@ {
        1
    } else {
        0
    }
}

/// The rank of a severity name.
pub fn sev_rank(s: &str) -> (r: i32)
    ensures
        r == severity_rank(s@),
{
    if str_equals(s, "critical") {
        4
    } else if str_equals(s, "high") {
        3
    } else if str_equals(s, "medium") {
        2
    } else if str_equals(s, "low") {
        1
    } else {
        0
    }
}

pub open spec fn opt_str(o: Option<String>) -> Option<Seq<char>> {
    match o {
        Some(s) => Some(s@),
        None => None,
    }
}

pub fn clone_opt(o: &Option<String>) -> (r: Option<String>)
    ensures
        opt_str(r) == opt_str(*o),
{
    match o {
        Some(s) => Some(s.clone()),
        None => None,
    }
}

/// One finding as a module submits it. `evidence_json` holds JSON text.
pub struct FindingIn {
    pub player_uuid: Option<u128>,
    pub detector_name: String,
    pub detector_version: Option<String>,
    pub severity: Option<String>,
    pub title: String,
    pub description: Option<String>,
    pub evidence_s3_key: Option<String>,
    pub evidence_json: Option<String>,
}

/// A finding takes part in aggregation when it names a player and has a
/// non-blank detector name and title.
pub open spec fn is_aggregated(f: FindingIn) -> bool {
    f.player_uuid is Some && trim(f.detector_name@).len() > 0 && trim(f.title@).len() > 0
}

/// The severity of a finding, `info` where none is given.
pub open spec fn severity_of(f: FindingIn) -> Seq<char> {
    match f.severity {
        Some(s) => s@,
        None => "info"@,
    }
}

/// What a bucket holds, as plain values.
pub struct GroupView {
    pub player_uuid: u128,
    pub detector_name: Seq<char>,
    pub count: nat,
    pub detector_version: Option<Seq<char>>,
    pub severity: Seq<char>,
    pub title: Seq<char>,
    pub description: Option<Seq<char>>,
    pub evidence_s3_key: Option<Seq<char>>,
    pub evidence_json: Option<Seq<char>>,
}

/// The findings of one `(player_uuid, detector_name)` pair in one request.
pub struct FindingGroup {
    pub player_uuid: u128,
    pub detector_name: String,
    pub count: u64,
    pub detector_version: Option<String>,
    pub severity: String,
    pub title: String,
    pub description: Option<String>,
    pub evidence_s3_key: Option<String>,
    pub evidence_json: Option<String>,
}

impl View for FindingGroup {
    type V = GroupView;

    open spec fn view(&self) -> GroupView {
        GroupView {
            player_uuid: self.player_uuid,
            detector_name: self.detector_name@,
            count: self.count as nat,
            detector_version: opt_str(self.detector_version),
            severity: self.severity@,
            title: self.title@,
            description: opt_str(self.description),
            evidence_s3_key: opt_str(self.evidence_s3_key),
            evidence_json: opt_str(self.evidence_json),
        }
    }
}

/// Index of the group for `(u, d)` at or after `k`, or the length where there is none.
pub open spec fn group_index_from(gs: Seq<GroupView>, u: u128, d: Seq<char>, k: int) -> int
    decreases gs.len() - k,
{
    if k < 0 || k >= gs.len() || (gs[k].player_uuid == u && gs[k].detector_name == d) {
        k
    } else {
        group_index_from(gs, u, d, k + 1)
    }
}

/// The bucket that a first finding of its pair opens.
pub open spec fn new_group(f: FindingIn) -> GroupView {
    GroupView {
        player_uuid: f.player_uuid->0,
        detector_name: trim(f.detector_name@),
        count: 1,
        detector_version: opt_str(f.detector_version),
        severity: severity_of(f),
        title: trim(f.title@),
        description: opt_str(f.description),
        evidence_s3_key: opt_str(f.evidence_s3_key),
        evidence_json: opt_str(f.evidence_json),
    }
}

/// A bucket after one more finding: the count grows, a given version
/// replaces the kept one, and a finding of at least the kept rank supplies
/// severity, title, description and evidence.
pub open spec fn add_to_group(g: GroupView, f: FindingIn) -> GroupView {
    let version = match opt_str(f.detector_version) {
        Some(v) => Some(v),
        None => g.detector_version,
    };
    if severity_rank(severity_of(f)) >= severity_rank(g.severity) {
        GroupView {
            count: g.count + 1,
            detector_version: version,
            severity: severity_of(f),
            title: trim(f.title@),
            description: opt_str(f.description),
            evidence_s3_key: opt_str(f.evidence_s3_key),
            evidence_json: opt_str(f.evidence_json),
            ..g
        }
    } else {
        GroupView { count: g.count + 1, detector_version: version, ..g }
    }
}

/// The buckets after one more finding.
pub open spec fn aggregate_step(gs: Seq<GroupView>, f: FindingIn) -> Seq<GroupView> {
    if !is_aggregated(f) {
        gs
    } else {
        let i = group_index_from(gs, f.player_uuid->0, trim(f.detector_name@), 0);
        if i >= gs.len() {
            gs.push(new_group(f))
        } else {
            gs.update(i, add_to_group(gs[i], f))
        }
    }
}

/// The buckets of a request's findings, in order of first appearance.
pub open spec fn aggregate(fs: Seq<FindingIn>) -> Seq<GroupView>
    decreases fs.len(),
{
    if fs.len() == 0 {
        Seq::empty()
    } else {
        aggregate_step(aggregate(fs.drop_last()), fs.last())
    }
}

proof fn lemma_group_index_bounds(gs: Seq<GroupView>, u: u128, d: Seq<char>, k: int)
    requires
        0 <= k <= gs.len(),
    ensures
        k <= group_index_from(gs, u, d, k) <= gs.len(),
        group_index_from(gs, u, d, k) < gs.len() ==> gs[group_index_from(gs, u, d, k)].player_uuid
            == u && gs[group_index_from(gs, u, d, k)].detector_name == d,
    decreases gs.len() - k,
{
    if k < gs.len() && !(gs[k].player_uuid == u && gs[k].detector_name == d) {
        lemma_group_index_bounds(gs, u, d, k + 1);
    }
}

proof fn lemma_aggregate_counts(fs: Seq<FindingIn>)
    ensures
        forall|j: int| 0 <= j < aggregate(fs).len() ==> #[trigger] aggregate(fs)[j].count <= fs.len(),
        aggregate(fs).len() <= fs.len(),
    decreases fs.len(),
{
    if fs.len() > 0 {
        lemma_aggregate_counts(fs.drop_last());
        let gs = aggregate(fs.drop_last());
        let f = fs.last();
        if is_aggregated(f) {
            lemma_group_index_bounds(gs, f.player_uuid->0, trim(f.detector_name@), 0);
        }
    }
}

fn find_group(groups: &Vec<FindingGroup>, u: u128, d: &str) -> (r: usize)
    ensures
        r == group_index_from(groups@.map_values(|g: FindingGroup| g@), u, d@, 0),
{
    let ghost gs = groups@.map_values(|g: FindingGroup| g@);
    let mut j: usize = 0;
    while j < groups.len()
        invariant
            gs == groups@.map_values(|g: FindingGroup| g@),
            j <= groups.len(),
            group_index_from(gs, u, d@, 0) == group_index_from(gs, u, d@, j as int),
        decreases groups.len() - j,
    {
        if groups[j].player_uuid == u && str_equals(groups[j].detector_name.as_str(), d) {
            return j;
        }
        j = j + 1;
    }
    j
}

/// Groups the findings of one request by `(player_uuid, detector_name)`,
/// dropping those without a player or with a blank detector name or title.
/// Each bucket counts its findings and keeps the severity, title,
/// description and evidence of its highest-ranked finding (the later one on
/// a tie) and the latest detector version given.
pub fn aggregate_findings(findings: &Vec<FindingIn>) -> (r: Vec<FindingGroup>)
    ensures
        r@.map_values(|g: FindingGroup| g@) == aggregate(findings@),
{
    let mut groups: Vec<FindingGroup> = Vec::new();
    let mut i: usize = 0;
    while i < findings.len()
        invariant
            i <= findings.len(),
            groups@.map_values(|g: FindingGroup| g@) == aggregate(findings@.subrange(0, i as int)),
        decreases findings.len() - i,
    {
        let ghost before = groups@.map_values(|g: FindingGroup| g@);
        proof {
            assert(findings@.subrange(0, i + 1).drop_last() =~= findings@.subrange(0, i as int));
            lemma_aggregate_counts(findings@.subrange(0, i as int));
        }
        let f = &findings[i];
        let detector = trim_str(f.detector_name.as_str());
        let title = trim_str(f.title.as_str());
        if let Some(u) = f.player_uuid {
            if detector.unicode_len() > 0 && title.unicode_len() > 0 {
                let sev: String = match &f.severity {
                    Some(s) => s.clone(),
                    None => String::from_str("info"),
                };
                proof { reveal_strlit("info"); }
                let j = find_group(&groups, u, detector);
                proof { lemma_group_index_bounds(before, u, detector@, 0); }
                if j == groups.len() {
                    groups.push(
                        FindingGroup {
                            player_uuid: u,
                            detector_name: String::from_str(detector),
                            count: 1,
                            detector_version: clone_opt(&f.detector_version),
                            severity: sev,
                            title: String::from_str(title),
                            description: clone_opt(&f.description),
                            evidence_s3_key: clone_opt(&f.evidence_s3_key),
                            evidence_json: clone_opt(&f.evidence_json),
                        },
                    );
                    assert(groups@.map_values(|g: FindingGroup| g@) =~= before.push(new_group(*f)));
                } else {
                    let old = &groups[j];
                    let version = match &f.detector_version {
                        Some(v) => Some(v.clone()),
                        None => clone_opt(&old.detector_version),
                    };
                    assert(old.count <= i);
                    let g = if sev_rank(sev.as_str()) >= sev_rank(old.severity.as_str()) {
                        FindingGroup {
                            player_uuid: old.player_uuid,
                            detector_name: old.detector_name.clone(),
                            count: old.count + 1,
                            detector_version: version,
                            severity: sev,
                            title: String::from_str(title),
                            description: clone_opt(&f.description),
                            evidence_s3_key: clone_opt(&f.evidence_s3_key),
                            evidence_json: clone_opt(&f.evidence_json),
                        }
                    } else {
                        FindingGroup {
                            player_uuid: old.player_uuid,
                            detector_name: old.detector_name.clone(),
                            count: old.count + 1,
                            detector_version: version,
                            severity: old.severity.clone(),
                            title: old.title.clone(),
                            description: clone_opt(&old.description),
                            evidence_s3_key: clone_opt(&old.evidence_s3_key),
                            evidence_json: clone_opt(&old.evidence_json),
                        }
                    };
                    assert(g@ == add_to_group(before[j as int], *f));
                    groups.set(j, g);
                    assert(groups@.map_values(|g: FindingGroup| g@) =~= before.update(
                        j as int,
                        add_to_group(before[j as int], *f),
                    ));
                }
            }
        }
        i = i + 1;
    }
    assert(findings@.subrange(0, i as int) =~= findings@);
    groups
}

/// A stored aggregate row, as plain values.
pub struct RowView {
    pub server_id: Seq<char>,
    pub player_uuid: u128,
    pub detector_name: Seq<char>,
    pub window_start_at: int,
    pub detector_version: Option<Seq<char>>,
    pub severity: Seq<char>,
    pub title: Seq<char>,
    pub description: Option<Seq<char>>,
    pub evidence_s3_key: Option<Seq<char>>,
    pub evidence_json: Option<Seq<char>>,
    pub occurrences: nat,
    pub first_seen_at: int,
    pub last_seen_at: int,
}

/// An aggregate row of the findings table, keyed by
/// `(server_id, player_uuid, detector_name, window_start_at)`.
pub struct FindingRow {
    pub server_id: String,
    pub player_uuid: u128,
    pub detector_name: String,
    pub window_start_at: i64,
    pub detector_version: Option<String>,
    pub severity: String,
    pub title: String,
    pub description: Option<String>,
    pub evidence_s3_key: Option<String>,
    pub evidence_json: Option<String>,
    pub occurrences: u64,
    pub first_seen_at: i64,
    pub last_seen_at: i64,
}

impl View for FindingRow {
    type V = RowView;

    open spec fn view(&self) -> RowView {
        RowView {
            server_id: self.server_id@,
            player_uuid: self.player_uuid,
            detector_name: self.detector_name@,
            window_start_at: self.window_start_at as int,
            detector_version: opt_str(self.detector_version),
            severity: self.severity@,
            title: self.title@,
            description: opt_str(self.description),
            evidence_s3_key: opt_str(self.evidence_s3_key),
            evidence_json: opt_str(self.evidence_json),
            occurrences: self.occurrences as nat,
            first_seen_at: self.first_seen_at as int,
            last_seen_at: self.last_seen_at as int,
        }
    }
}

/// The row under a bucket's key after upserting the bucket at time `now`:
/// a new row starts with the bucket's count and `now` as first and last
/// seen; an existing row adds the count, moves last seen to `now`, prefers
/// the new detector version when given, keeps the higher severity, and takes
/// title, description and evidence from the bucket.
pub open spec fn upserted(old: Option<RowView>, server_id: Seq<char>, g: GroupView, window: int, now: int) -> RowView {
    match old {
        None => RowView {
            server_id,
            player_uuid: g.player_uuid,
            detector_name: g.detector_name,
            window_start_at: window,
            detector_version: g.detector_version,
            severity: g.severity,
            title: g.title,
            description: g.description,
            evidence_s3_key: g.evidence_s3_key,
            evidence_json: g.evidence_json,
            occurrences: g.count,
            first_seen_at: now,
            last_seen_at: now,
        },
        Some(o) => RowView {
            occurrences: o.occurrences + g.count,
            last_seen_at: now,
            detector_version: match g.detector_version {
                Some(v) => Some(v),
                None => o.detector_version,
            },
            severity: if severity_rank(g.severity) >= severity_rank(o.severity) {
                g.severity
            } else {
                o.severity
            },
            title: g.title,
            description: g.description,
            evidence_s3_key: g.evidence_s3_key,
            evidence_json: g.evidence_json,
            ..o
        },
    }
}

/// Upserts a bucket into the row stored under its key, if any, at time `now`.
pub fn upsert_finding(
    existing: Option<&FindingRow>,
    server_id: &str,
    group: &FindingGroup,
    window_start_at: i64,
    now: i64,
) -> (r: FindingRow)
    requires
        existing matches Some(o) ==> o.occurrences + group.count <= u64::MAX,
    ensures
        r@ == upserted(
            match existing {
                Some(o) => Some(o@),
                None => None,
            },
            server_id@,
            group@,
            window_start_at as int,
            now as int,
        ),
{
    match existing {
        None => FindingRow {
            server_id: String::from_str(server_id),
            player_uuid: group.player_uuid,
            detector_name: group.detector_name.clone(),
            window_start_at,
            detector_version: clone_opt(&group.detector_version),
            severity: group.severity.clone(),
            title: group.title.clone(),
            description: clone_opt(&group.description),
            evidence_s3_key: clone_opt(&group.evidence_s3_key),
            evidence_json: clone_opt(&group.evidence_json),
            occurrences: group.count,
            first_seen_at: now,
            last_seen_at: now,
        },
        Some(o) => {
            let version = match &group.detector_version {
                Some(v) => Some(v.clone()),
                None => clone_opt(&o.detector_version),
            };
            let severity = if sev_rank(group.severity.as_str()) >= sev_rank(o.severity.as_str()) {
                group.severity.clone()
            } else {
                o.severity.clone()
            };
            FindingRow {
                server_id: o.server_id.clone(),
                player_uuid: o.player_uuid,
                detector_name: o.detector_name.clone(),
                window_start_at: o.window_start_at,
                detector_version: version,
                severity,
                title: group.title.clone(),
                description: clone_opt(&group.description),
                evidence_s3_key: clone_opt(&group.evidence_s3_key),
                evidence_json: clone_opt(&group.evidence_json),
                occurrences: o.occurrences + group.count,
                first_seen_at: o.first_seen_at,
                last_seen_at: now,
            }
        },
    }
}

/// Upserting into a stored row never lowers its severity rank and never
/// lowers its occurrence count.
pub proof fn lemma_upsert_monotone(old: RowView, server_id: Seq<char>, g: GroupView, window: int, now: int)
    ensures
        severity_rank(upserted(Some(old), server_id, g, window, now).severity) >= severity_rank(old.severity),
        upserted(Some(old), server_id, g, window, now).occurrences >= old.occurrences,
{
}

/// A stored row after a sequence of buckets is upserted into it, in order,
/// all at time `now`.
pub open spec fn upserted_all(row: RowView, server_id: Seq<char>, gs: Seq<GroupView>, window: int, now: int) -> RowView
    decreases gs.len(),
{
    if gs.len() == 0 {
        row
    } else {
        upserted(Some(upserted_all(row, server_id, gs.drop_last(), window, now)), server_id, gs.last(), window, now)
    }
}

/// Across any number of upserts to the same row, its severity rank and its
/// occurrence count never decrease.
pub proof fn lemma_upserts_monotone(row: RowView, server_id: Seq<char>, gs: Seq<GroupView>, window: int, now: int)
    ensures
        severity_rank(upserted_all(row, server_id, gs, window, now).severity) >= severity_rank(row.severity),
        upserted_all(row, server_id, gs, window, now).occurrences >= row.occurrences,
    decreases gs.len(),
{
    if gs.len() > 0 {
        lemma_upserts_monotone(row, server_id, gs.drop_last(), window, now);
        lemma_upsert_monotone(upserted_all(row, server_id, gs.drop_last(), window, now), server_id, gs.last(), window, now);
    }
}

/// Start of the UTC minute that holds the instant `secs` (Unix seconds).
pub open spec fn minute_floor(secs: int) -> int {
    secs - secs % 60
}

/// The aggregation window of an instant: its minute, seconds dropped.
pub fn window_start(now_unix_secs: i64) -> (r: i64)
    requires
        now_unix_secs >= i64::MIN + 60,
    ensures
        r == minute_floor(now_unix_secs as int),
        r <= now_unix_secs < r + 60,
        r % 60 == 0,
{
    if now_unix_secs >= 0 {
        now_unix_secs - now_unix_secs % 60
    } else {
        let p: i64 = -(now_unix_secs + 1);
        let q: i64 = p / 60;
        assert(0 <= p - q * 60 < 60) by (nonlinear_arith)
            requires q == p / 60, p >= 0;
        let r = -(q * 60) - 60;
        assert(now_unix_secs - r >= 0 && now_unix_secs - r < 60);
        assert(r % 60 == 0) by (nonlinear_arith)
            requires r == -(q * 60) - 60;
        r
    }
}

/// The distinct players that the findings name, in order of first appearance.
pub fn distinct_players(findings: &Vec<FindingIn>) -> (r: Vec<u128>)
    ensures
        r@.no_duplicates(),
        forall|u: u128| r@.contains(u) <==> exists|k: int| 0 <= k < findings@.len() && findings@[k].player_uuid == Some(u),
{
    let mut out: Vec<u128> = Vec::new();
    let mut i: usize = 0;
    while i < findings.len()
        invariant
            i <= findings.len(),
            out@.no_duplicates(),
            forall|u: u128| out@.contains(u) <==> exists|k: int| 0 <= k < i && findings@[k].player_uuid == Some(u),
        decreases findings.len() - i,
    {
        if let Some(u) = findings[i].player_uuid {
            let mut seen = false;
            let mut j: usize = 0;
            while j < out.len()
                invariant
                    j <= out.len(),
                    seen == exists|t: int| 0 <= t < j && out@[t] == u,
                decreases out.len() - j,
            {
                if out[j] == u {
                    seen = true;
                }
                j = j + 1;
            }
            let ghost prev = out@;
            if !seen {
                out.push(u);
            }
            assert forall|v: u128| out@.contains(v) <==> exists|k: int| 0 <= k < i + 1 && findings@[k].player_uuid == Some(v) by {
                if out@.contains(v) {
                    if prev.contains(v) {
                        let k = choose|k: int| 0 <= k < i && findings@[k].player_uuid == Some(v);
                        assert(0 <= k < i + 1 && findings@[k].player_uuid == Some(v));
                    } else {
                        assert(v == u);
                        assert(findings@[i as int].player_uuid == Some(v));
                    }
                }
                if exists|k: int| 0 <= k < i + 1 && findings@[k].player_uuid == Some(v) {
                    let k = choose|k: int| 0 <= k < i + 1 && findings@[k].player_uuid == Some(v);
                    if k == i {
                        assert(v == u);
                        if seen {
                            let t = choose|t: int| 0 <= t < prev.len() && prev[t] == u;
                            assert(out@[t] == v);
                        } else {
                            assert(out@[out@.len() - 1] == v);
                        }
                    } else {
                        assert(prev.contains(v));
                        let t = choose|t: int| 0 <= t < prev.len() && prev[t] == v;
                        assert(out@[t] == v);
                    }
                }
            }
        } else {
            assert forall|v: u128| out@.contains(v) <==> exists|k: int| 0 <= k < i + 1 && findings@[k].player_uuid == Some(v) by {
                if exists|k: int| 0 <= k < i + 1 && findings@[k].player_uuid == Some(v) {
                    let k = choose|k: int| 0 <= k < i + 1 && findings@[k].player_uuid == Some(v);
                    assert(k < i);
                }
            }
        }
        i = i + 1;
    }
    out
}

} // verus!
