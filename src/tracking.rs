//! Within-batch state of the transforms: last-known values per player and
//! per entity, and the steps that read and update them. Coordinates are an
//! opaque `T`, so the arithmetic on them stays with the caller.
use vstd::prelude::*;
use std::collections::HashMap;
use crate::transform::{attack_delta, movement_interval, next_pose, AttackDelta, LastAttack, Pose};

verus! {

broadcast use vstd::std_specs::hash::group_hash_axioms;

/// Values kept per player (keyed by the player's UUID as a number).
pub struct PlayerTable<V> {
    table: HashMap<u128, V>,
}

impl<V: Copy> PlayerTable<V> {
    pub closed spec fn view(&self) -> Map<u128, V> {
        self.table@
    }

    /// An empty table.
    pub fn new() -> (r: PlayerTable<V>)
        ensures
            r.view() == Map::<u128, V>::empty(),
    {
        PlayerTable { table: HashMap::new() }
    }

    /// The value kept for `k`, if any.
    pub fn get(&self, k: u128) -> (r: Option<V>)
        ensures
            r == (if self.view().contains_key(k) {
                Some(self.view()[k])
            } else {
                None
            }),
    {
        match self.table.get(&k) {
            Some(v) => Some(*v),
            None => None,
        }
    }

    /// Keeps `v` for `k`.
    pub fn set(&mut self, k: u128, v: V)
        ensures
            final(self).view() == old(self).view().insert(k, v),
    {
        self.table.insert(k, v);
    }
}

/// Values kept per entity id.
pub struct EntityTable<V> {
    table: HashMap<i64, V>,
}

impl<V: Copy> EntityTable<V> {
    pub closed spec fn view(&self) -> Map<i64, V> {
        self.table@
    }

    /// An empty table.
    pub fn new() -> (r: EntityTable<V>)
        ensures
            r.view() == Map::<i64, V>::empty(),
    {
        EntityTable { table: HashMap::new() }
    }

    /// The value kept for `k`, if any.
    pub fn get(&self, k: i64) -> (r: Option<V>)
        ensures
            r == (if self.view().contains_key(k) {
                Some(self.view()[k])
            } else {
                None
            }),
    {
        match self.table.get(&k) {
            Some(v) => Some(*v),
            None => None,
        }
    }

    /// Keeps `v` for `k`.
    pub fn set(&mut self, k: i64, v: V)
        ensures
            final(self).view() == old(self).view().insert(k, v),
    {
        self.table.insert(k, v);
    }

    /// Forgets `k`.
    pub fn forget(&mut self, k: i64)
        ensures
            final(self).view() == old(self).view().remove(k),
    {
        self.table.remove(&k);
    }
}

/// A player's last position: when, and where.
#[derive(Clone, Copy, PartialEq, Eq, Debug)]
pub struct LastPosition<T> {
    pub ts: u64,
    pub x: T,
    pub y: T,
    pub z: T,
}

/// The previous position a movement event is measured against.
#[derive(Clone, Copy, PartialEq, Eq, Debug)]
pub struct MovementDelta<T> {
    pub dt_ms: u64,
    pub prev: LastPosition<T>,
}

/// Records a player's position at `ts` and returns the previous one with
/// the interval to it, when that one is strictly earlier.
pub fn movement_step<T: Copy>(
    last: &mut PlayerTable<LastPosition<T>>,
    player: u128,
    ts: u64,
    x: T,
    y: T,
    z: T,
) -> (r: Option<MovementDelta<T>>)
    ensures
        final(last).view() == old(last).view().insert(player, LastPosition { ts, x, y, z }),
        r matches Some(d) ==> old(last).view().contains_key(player) && d.prev == old(
            last,
        ).view()[player] && d.prev.ts < ts && d.dt_ms == ts - d.prev.ts,
        r is None ==> (old(last).view().contains_key(player) ==> ts <= old(last).view()[player].ts),
{
    let prev = last.get(player);
    last.set(player, LastPosition { ts, x, y, z });
    let prev_ts = match prev {
        Some(p) => Some(p.ts),
        None => None,
    };
    match (prev, movement_interval(prev_ts, ts)) {
        (Some(p), Some(dt)) => Some(MovementDelta { dt_ms: dt, prev: p }),
        _ => None,
    }
}

/// What is kept about a player's last attack: when, on whom, and the yaw then.
#[derive(Clone, Copy, PartialEq, Eq, Debug)]
pub struct AttackRecord<T> {
    pub attack: LastAttack,
    pub yaw: Option<T>,
}

/// What an attack event learns from the previous attack.
#[derive(Clone, Copy, PartialEq, Eq, Debug)]
pub struct AttackHistory<T> {
    pub delta: AttackDelta,
    /// The yaw at the previous attack, if the pose was known then.
    pub prev_yaw: Option<T>,
}

/// Records an attack and returns the delta to the player's previous attack.
pub fn attack_step<T: Copy>(
    attacks: &mut PlayerTable<AttackRecord<T>>,
    player: u128,
    ts: u64,
    entity_id: i64,
    yaw: Option<T>,
) -> (r: Option<AttackHistory<T>>)
    ensures
        final(attacks).view() == old(attacks).view().insert(
            player,
            AttackRecord { attack: LastAttack { ts, target_entity_id: entity_id }, yaw },
        ),
        r is None <==> !old(attacks).view().contains_key(player),
        r matches Some(h) ==> {
            let p = old(attacks).view()[player];
            &&& h.prev_yaw == p.yaw
            &&& h.delta.dt_ms == (if ts > p.attack.ts {
                ts - p.attack.ts
            } else {
                0
            })
            &&& h.delta.target_switched == (entity_id != p.attack.target_entity_id)
        },
{
    let prev = attacks.get(player);
    attacks.set(player, AttackRecord { attack: LastAttack { ts, target_entity_id: entity_id }, yaw });
    match prev {
        Some(p) => match attack_delta(Some(p.attack), ts, entity_id) {
            Some(delta) => Some(AttackHistory { delta, prev_yaw: p.yaw }),
            None => None,
        },
        None => None,
    }
}

/// Applies a movement packet to a player's pose (see `next_pose`).
pub fn pose_step<T: Copy>(
    poses: &mut PlayerTable<Pose<T>>,
    player: u128,
    x: Option<T>,
    y: Option<T>,
    z: Option<T>,
    yaw: Option<T>,
    pitch: Option<T>,
    zero: T,
)
    ensures
        ({
            let prev = if old(poses).view().contains_key(player) {
                Some(old(poses).view()[player])
            } else {
                None
            };
            match next_pose(prev, x, y, z, yaw, pitch, zero) {
                Some(p) => final(poses).view() == old(poses).view().insert(player, p),
                None => final(poses).view() == old(poses).view(),
            }
        }),
{
    let prev = poses.get(player);
    if let Some(p) = crate::transform::update_pose(prev, x, y, z, yaw, pitch, zero) {
        poses.set(player, p);
    }
}

/// Forgets every listed entity.
pub fn forget_entities<P: Copy>(entities: &mut EntityTable<P>, ids: &Vec<i64>)
    ensures
        forall|k: i64| #[trigger] final(entities).view().contains_key(k) <==> (old(entities).view().contains_key(k)
            && !ids@.contains(k)),
        forall|k: i64| #[trigger] final(entities).view().contains_key(k) ==> final(entities).view()[k] == old(
            entities,
        ).view()[k],
{
    let mut i: usize = 0;
    while i < ids.len()
        invariant
            i <= ids@.len(),
            forall|k: i64| #[trigger] entities.view().contains_key(k) <==> (old(entities).view().contains_key(k)
                && !ids@.subrange(0, i as int).contains(k)),
            forall|k: i64| #[trigger] entities.view().contains_key(k) ==> entities.view()[k] == old(
                entities,
            ).view()[k],
        decreases ids@.len() - i,
    {
        let ghost before = entities.view();
        entities.forget(ids[i]);
        assert forall|k: i64| ids@.subrange(0, i + 1).contains(k) <==> (ids@.subrange(0, i as int).contains(k) || k == ids@[i as int]) by {
            if ids@.subrange(0, i + 1).contains(k) {
                let t = choose|t: int| 0 <= t < i + 1 && #[trigger] ids@.subrange(0, i + 1)[t] == k;
                if t < i {
                    assert(ids@.subrange(0, i as int)[t] == k);
                }
            }
            if ids@.subrange(0, i as int).contains(k) {
                let t = choose|t: int| 0 <= t < i && #[trigger] ids@.subrange(0, i as int)[t] == k;
                assert(ids@.subrange(0, i + 1)[t] == k);
            }
            if k == ids@[i as int] {
                assert(ids@.subrange(0, i + 1)[i as int] == k);
            }
        }
        i = i + 1;
    }
    assert(ids@.subrange(0, i as int) =~= ids@);
}

} // verus!
