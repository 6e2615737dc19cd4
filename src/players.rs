//! Which players a batch shows: the `(uuid, name)` pairs that its packet
//! lines carry.
use vstd::prelude::*;
use vstd::string::*;
use crate::text::str_equals;

verus! {

/// The UUID that a text denotes, in any form the uuid crate reads, as a
/// 128-bit number.
pub uninterp spec fn uuid_parse_of(s: Seq<char>) -> Option<u128>;

/// Relies on uuid's `Uuid::parse_str`: the UUID that the text denotes, if any.
#[verifier::external_body]
pub(crate) fn parse_uuid(s: &str) -> (r: Option<u128>)
    ensures
        r == uuid_parse_of(s@),
{
    uuid::Uuid::parse_str(s).ok().map(|u| u.as_u128())
}

/// The identity fields of a packet line that parsed as JSON.
pub struct PacketIdentity {
    pub uuid: Option<String>,
    pub name: Option<String>,
}

/// Lines read from a batch, the metadata line included.
pub const MAX_SCANNED_LINES: usize = 2000;

/// The player a line names: it parsed, has a UUID that parses and a
/// non-empty name.
pub open spec fn player_of(line: Option<PacketIdentity>) -> Option<(u128, Seq<char>)> {
    match line {
        Some(p) => match (p.uuid, p.name) {
            (Some(u), Some(n)) => if n@.len() > 0 && uuid_parse_of(u@) is Some {
                Some((uuid_parse_of(u@)->0, n@))
            } else {
                None
            },
            _ => None,
        },
        None => None,
    }
}

pub open spec fn pair_view(p: (u128, String)) -> (u128, Seq<char>) {
    (p.0, p.1@)
}

/// Whether some line in `1..end` names `p`.
pub open spec fn named_in(lines: Seq<Option<PacketIdentity>>, end: int, p: (u128, Seq<char>)) -> bool {
    exists|k: int| 1 <= k < end && k < lines.len() && player_of(#[trigger] lines[k]) == Some(p)
}

fn player_from(line: &Option<PacketIdentity>) -> (r: Option<(u128, String)>)
    ensures
        match r {
            Some(p) => player_of(*line) == Some(pair_view(p)),
            None => player_of(*line) is None,
        },
{
    match line {
        Some(p) => match (&p.uuid, &p.name) {
            (Some(u), Some(n)) => {
                if n.as_str().unicode_len() == 0 {
                    return None;
                }
                match parse_uuid(u.as_str()) {
                    Some(id) => Some((id, n.clone())),
                    None => None,
                }
            },
            _ => None,
        },
        None => None,
    }
}

/// The distinct players that a batch's lines name. The first line is the
/// metadata line and is passed over, and only the first 2,000 lines are read;
/// a line that did not parse is `None`.
pub fn batch_players(lines: &Vec<Option<PacketIdentity>>) -> (r: Vec<(u128, String)>)
    ensures
        r@.map_values(|p: (u128, String)| pair_view(p)).no_duplicates(),
        forall|p: (u128, Seq<char>)|
            r@.map_values(|q: (u128, String)| pair_view(q)).contains(p) <==> named_in(
                lines@,
                MAX_SCANNED_LINES as int,
                p,
            ),
{
    let mut out: Vec<(u128, String)> = Vec::new();
    let end: usize = if lines.len() < MAX_SCANNED_LINES {
        lines.len()
    } else {
        MAX_SCANNED_LINES
    };
    let mut i: usize = 1;
    while i < end
        invariant
            end <= lines@.len(),
            end <= MAX_SCANNED_LINES,
            1 <= i,
            i <= end || end == 0,
            out@.map_values(|p: (u128, String)| pair_view(p)).no_duplicates(),
            forall|p: (u128, Seq<char>)|
                out@.map_values(|q: (u128, String)| pair_view(q)).contains(p) <==> named_in(
                    lines@,
                    i as int,
                    p,
                ),
        decreases end - i,
    {
        let ghost prev = out@.map_values(|q: (u128, String)| pair_view(q));
        match player_from(&lines[i]) {
            Some(p) => {
                let mut seen = false;
                let mut j: usize = 0;
                while j < out.len()
                    invariant
                        j <= out@.len(),
                        prev == out@.map_values(|q: (u128, String)| pair_view(q)),
                        seen == exists|t: int| 0 <= t < j && prev[t] == pair_view(p),
                    decreases out@.len() - j,
                {
                    assert(prev[j as int] == pair_view(out@[j as int]));
                    if out[j].0 == p.0 && str_equals(out[j].1.as_str(), p.1.as_str()) {
                        seen = true;
                    }
                    j = j + 1;
                }
                let ghost pv = pair_view(p);
                if !seen {
                    out.push(p);
                }
                let ghost now = out@.map_values(|q: (u128, String)| pair_view(q));
                assert(seen ==> now == prev);
                assert(!seen ==> now =~= prev.push(pv));
                assert forall|q: (u128, Seq<char>)| now.contains(q) <==> named_in(lines@, i + 1, q) by {
                    if named_in(lines@, i + 1, q) {
                        let k = choose|k: int| 1 <= k < i + 1 && k < lines@.len() && player_of(#[trigger] lines@[k]) == Some(q);
                        if k == i {
                            assert(q == pv);
                            if seen {
                                let t = choose|t: int| 0 <= t < j && prev[t] == pv;
                                assert(now[t] == q);
                            } else {
                                assert(now[now.len() - 1] == q);
                            }
                        } else {
                            assert(named_in(lines@, i as int, q));
                            assert(prev.contains(q));
                            let t = choose|t: int| 0 <= t < prev.len() && prev[t] == q;
                            assert(now[t] == q);
                        }
                    }
                    if now.contains(q) {
                        if prev.contains(q) {
                            assert(named_in(lines@, i as int, q));
                            let k = choose|k: int| 1 <= k < i && k < lines@.len() && player_of(#[trigger] lines@[k]) == Some(q);
                            assert(1 <= k < i + 1 && k < lines@.len() && player_of(lines@[k]) == Some(q));
                        } else {
                            assert(q == pv);
                            assert(player_of(lines@[i as int]) == Some(q));
                        }
                    }
                }
            },
            None => {
                assert(player_of(lines@[i as int]) is None);
                assert forall|q: (u128, Seq<char>)| #[trigger] prev.contains(q) <==> named_in(lines@, i + 1, q) by {
                    if named_in(lines@, i + 1, q) {
                        let k = choose|k: int| 1 <= k < i + 1 && k < lines@.len() && player_of(#[trigger] lines@[k]) == Some(q);
                        assert(k != i);
                        assert(named_in(lines@, i as int, q));
                    }
                    if named_in(lines@, i as int, q) {
                        let k = choose|k: int| 1 <= k < i && k < lines@.len() && player_of(#[trigger] lines@[k]) == Some(q);
                        assert(1 <= k < i + 1);
                    }
                }
            },
        }
        i = i + 1;
    }
    assert forall|q: (u128, Seq<char>)| named_in(lines@, i as int, q) <==> named_in(lines@, MAX_SCANNED_LINES as int, q) by {
        if named_in(lines@, MAX_SCANNED_LINES as int, q) {
            let k = choose|k: int| 1 <= k < MAX_SCANNED_LINES && k < lines@.len() && player_of(#[trigger] lines@[k]) == Some(q);
            assert(k < end);
        }
        if named_in(lines@, i as int, q) {
            let k = choose|k: int| 1 <= k < i && k < lines@.len() && player_of(#[trigger] lines@[k]) == Some(q);
            assert(k < MAX_SCANNED_LINES);
        }
    }
    out
}

} // verus!
