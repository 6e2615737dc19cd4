//! Transforms: which one a module's tag names, how a packet line is
//! classified, and the per-player bookkeeping that decides which derived
//! fields an output event carries. Coordinates are carried as an opaque `T`.
use vstd::prelude::*;
use vstd::string::*;
use crate::text::{contains_str, eq_ignore_case, has_infix, str_equals, trim, trim_str};

verus! {

/// The transforms a module can subscribe to.
#[derive(Clone, Copy, PartialEq, Eq, Debug, Structural)]
pub enum TransformKind {
    /// `raw_ndjson_gz`: the batch as received.
    RawNdjsonGz,
    /// `movement_events_v1_ndjson_gz`.
    MovementEventsV1,
    /// `combat_events_v1_ndjson_gz`.
    CombatEventsV1,
    /// `ncp_fight_v1_ndjson_gz`.
    NcpFightV1,
}

/// The tag of a module names no known transform.
pub struct UnsupportedTransform {
    pub tag: String,
}

impl UnsupportedTransform {
    /// `unsupported transform: <tag>`.
    pub fn message(&self) -> (r: String)
        ensures
            r@ == "unsupported transform: "@ + self.tag@,
    {
        String::from_str("unsupported transform: ").concat(self.tag.as_str())
    }
}

/// The transform a tag names: blank or `raw_ndjson_gz` is the identity;
/// tags are compared ignoring ASCII case and surrounding whitespace.
pub open spec fn transform_of(tag: Seq<char>) -> Option<TransformKind> {
    let t = trim(tag);
    if t.len() == 0 || eq_ignore_case(t, "raw_ndjson_gz"@) {
        Some(TransformKind::RawNdjsonGz)
    } else if eq_ignore_case(t, "movement_events_v1_ndjson_gz"@) {
        Some(TransformKind::MovementEventsV1)
    } else if eq_ignore_case(t, "combat_events_v1_ndjson_gz"@) {
        Some(TransformKind::CombatEventsV1)
    } else if eq_ignore_case(t, "ncp_fight_v1_ndjson_gz"@) {
        Some(TransformKind::NcpFightV1)
    } else {
        None
    }
}

fn same_ignoring_case(a: &str, b: &str) -> (r: bool)
    ensures
        r == eq_ignore_case(a@, b@),
{
    if a.unicode_len() != b.unicode_len() {
        return false;
    }
    let r = crate::text::starts_with_ignore_case(a, b);
    assert(a@.subrange(0, b@.len() as int) =~= a@);
    r
}

/// Resolves a module's transform tag; an unknown tag is an error that
/// carries the tag as given.
pub fn parse_transform(tag: &str) -> (r: Result<TransformKind, UnsupportedTransform>)
    ensures
        r matches Ok(k) ==> transform_of(tag@) == Some(k),
        r matches Err(e) ==> transform_of(tag@) is None && e.tag@ == tag@,
{
    let t = trim_str(tag);
    if t.unicode_len() == 0 || same_ignoring_case(t, "raw_ndjson_gz") {
        Ok(TransformKind::RawNdjsonGz)
    } else if same_ignoring_case(t, "movement_events_v1_ndjson_gz") {
        Ok(TransformKind::MovementEventsV1)
    } else if same_ignoring_case(t, "combat_events_v1_ndjson_gz") {
        Ok(TransformKind::CombatEventsV1)
    } else if same_ignoring_case(t, "ncp_fight_v1_ndjson_gz") {
        Ok(TransformKind::NcpFightV1)
    } else {
        Err(UnsupportedTransform { tag: String::from_str(tag) })
    }
}

/// The value of the `transform` field added to the metadata line; the
/// identity transform adds none.
pub open spec fn envelope_name(k: TransformKind) -> Option<Seq<char>> {
    match k {
        TransformKind::RawNdjsonGz => None,
        TransformKind::MovementEventsV1 => Some("movement_events_v1"@),
        TransformKind::CombatEventsV1 => Some("combat_events_v1"@),
        TransformKind::NcpFightV1 => Some("ncp_fight_v1"@),
    }
}

impl TransformKind {
    /// The name written into the metadata line of the output.
    pub fn envelope_name(&self) -> (r: Option<&'static str>)
        ensures
            r matches Some(s) ==> envelope_name(*self) == Some(s@),
            r is None ==> envelope_name(*self) is None,
    {
        match self {
            TransformKind::RawNdjsonGz => None,
            TransformKind::MovementEventsV1 => Some("movement_events_v1"),
            TransformKind::CombatEventsV1 => Some("combat_events_v1"),
            TransformKind::NcpFightV1 => Some("ncp_fight_v1"),
        }
    }
}

/// What a transform does with one input line.
#[derive(Clone, Copy, PartialEq, Eq, Debug, Structural)]
pub enum LineRole {
    /// Blank: dropped.
    Skip,
    /// The metadata line: passed on with the `transform` field added.
    Metadata,
    /// A packet line.
    Packet,
}

/// Role of the line numbered `line_no` (from 1, blank lines counted).
pub open spec fn line_role_of(line_no: nat, blank: bool) -> LineRole {
    if blank {
        LineRole::Skip
    } else if line_no == 1 {
        LineRole::Metadata
    } else {
        LineRole::Packet
    }
}

/// Only the first line can be the metadata line; blank lines are dropped.
pub fn line_role(line_no: usize, blank: bool) -> (r: LineRole)
    ensures
        r == line_role_of(line_no as nat, blank),
{
    if blank {
        LineRole::Skip
    } else if line_no == 1 {
        LineRole::Metadata
    } else {
        LineRole::Packet
    }
}

/// No line but the first is ever the metadata line, so nothing is placed
/// ahead of it.
pub proof fn lemma_single_envelope(line_no: nat, blank: bool)
    requires
        line_no != 1,
    ensures
        line_role_of(line_no, blank) != LineRole::Metadata,
{
}

/// How the combat transform reads a packet.
#[derive(Clone, Copy, PartialEq, Eq, Debug, Structural)]
pub enum CombatPacket {
    /// Position or rotation: updates the pose.
    Pose,
    /// An interaction: an attack event when its action is `ATTACK`.
    Interaction,
    Other,
}

pub open spec fn combat_packet_of(pkt: Seq<char>) -> CombatPacket {
    if has_infix(pkt, "POSITION"@) || has_infix(pkt, "ROTATION"@) {
        CombatPacket::Pose
    } else if has_infix(pkt, "INTERACT"@) || has_infix(pkt, "USE_ENTITY"@) {
        CombatPacket::Interaction
    } else {
        CombatPacket::Other
    }
}

/// Classifies a packet name for the combat transform (substring match).
pub fn classify_combat_packet(pkt: &str) -> (r: CombatPacket)
    ensures
        r == combat_packet_of(pkt@),
{
    if contains_str(pkt, "POSITION") || contains_str(pkt, "ROTATION") {
        CombatPacket::Pose
    } else if contains_str(pkt, "INTERACT") || contains_str(pkt, "USE_ENTITY") {
        CombatPacket::Interaction
    } else {
        CombatPacket::Other
    }
}

/// How the fight-geometry transform reads a packet.
#[derive(Clone, Copy, PartialEq, Eq, Debug, Structural)]
pub enum FightPacket {
    /// Clientbound spawn or teleport: an absolute entity position.
    EntityAbsolute,
    /// Clientbound relative move: an offset to a known entity position.
    EntityRelative,
    /// Clientbound destroy: the listed entities are forgotten.
    EntityDestroy,
    /// Serverbound movement: updates the player's pose.
    PlayerPose,
    /// Serverbound interaction: an attack event when its action is `ATTACK`.
    Interaction,
    Other,
}

pub open spec fn fight_packet_of(dir: Seq<char>, pkt: Seq<char>) -> FightPacket {
    if dir == "clientbound"@ && (has_infix(pkt, "SPAWN"@) || has_infix(pkt, "ENTITY_TELEPORT"@)) {
        FightPacket::EntityAbsolute
    } else if dir == "clientbound"@ && has_infix(pkt, "ENTITY_RELATIVE_MOVE"@) {
        FightPacket::EntityRelative
    } else if dir == "clientbound"@ && has_infix(pkt, "DESTROY_ENTITIES"@) {
        FightPacket::EntityDestroy
    } else if dir == "serverbound"@ && (has_infix(pkt, "POSITION"@) || has_infix(pkt, "ROTATION"@)
        || has_infix(pkt, "FLYING"@)) {
        FightPacket::PlayerPose
    } else if dir == "serverbound"@ && (has_infix(pkt, "INTERACT_ENTITY"@) || has_infix(
        pkt,
        "USE_ENTITY"@,
    )) {
        FightPacket::Interaction
    } else {
        FightPacket::Other
    }
}

/// Classifies a packet for the fight-geometry transform by direction and
/// name (substring match), in the order the transform tests them.
pub fn classify_fight_packet(dir: &str, pkt: &str) -> (r: FightPacket)
    ensures
        r == fight_packet_of(dir@, pkt@),
{
    let client = str_equals(dir, "clientbound");
    let server = str_equals(dir, "serverbound");
    if client && (contains_str(pkt, "SPAWN") || contains_str(pkt, "ENTITY_TELEPORT")) {
        FightPacket::EntityAbsolute
    } else if client && contains_str(pkt, "ENTITY_RELATIVE_MOVE") {
        FightPacket::EntityRelative
    } else if client && contains_str(pkt, "DESTROY_ENTITIES") {
        FightPacket::EntityDestroy
    } else if server && (contains_str(pkt, "POSITION") || contains_str(pkt, "ROTATION")
        || contains_str(pkt, "FLYING")) {
        FightPacket::PlayerPose
    } else if server && (contains_str(pkt, "INTERACT_ENTITY") || contains_str(pkt, "USE_ENTITY")) {
        FightPacket::Interaction
    } else {
        FightPacket::Other
    }
}

/// Whether an interaction's action makes it an attack.
pub fn is_attack_action(action: &str) -> (r: bool)
    ensures
        r == (action@ == "ATTACK"@),
{
    str_equals(action, "ATTACK")
}

/// The interval a movement event carries: the time since the player's last
/// position when that is strictly earlier, else none.
pub fn movement_interval(prev_ts: Option<u64>, ts: u64) -> (r: Option<u64>)
    ensures
        r matches Some(dt) ==> prev_ts matches Some(p) && p < ts && dt == ts - p,
        r is None ==> (prev_ts matches Some(p) ==> ts <= p),
{
    match prev_ts {
        Some(p) => if ts > p {
            Some(ts - p)
        } else {
            None
        },
        None => None,
    }
}

/// The last attack of a player: when, and on which entity.
#[derive(Clone, Copy, PartialEq, Eq, Debug, Structural)]
pub struct LastAttack {
    pub ts: u64,
    pub target_entity_id: i64,
}

/// What an attack event carries about the player's previous attack.
#[derive(Clone, Copy, PartialEq, Eq, Debug, Structural)]
pub struct AttackDelta {
    /// Milliseconds since the previous attack, zero if the clock went back.
    pub dt_ms: u64,
    /// Whether the target differs from the previous attack's.
    pub target_switched: bool,
}

/// The delta to the previous attack, where there was one.
pub fn attack_delta(prev: Option<LastAttack>, ts: u64, entity_id: i64) -> (r: Option<AttackDelta>)
    ensures
        prev is None ==> r is None,
        prev matches Some(p) ==> (r matches Some(d) && d.dt_ms == (if ts > p.ts {
            ts - p.ts
        } else {
            0
        }) && d.target_switched == (entity_id != p.target_entity_id)),
{
    match prev {
        None => None,
        Some(p) => Some(
            AttackDelta {
                dt_ms: ts.saturating_sub(p.ts),
                target_switched: entity_id != p.target_entity_id,
            },
        ),
    }
}

/// A player's last known position and view angles.
#[derive(Clone, Copy, PartialEq, Eq, Debug)]
pub struct Pose<T> {
    pub x: T,
    pub y: T,
    pub z: T,
    pub yaw: T,
    pub pitch: T,
}

pub open spec fn or_else<T>(v: Option<T>, d: T) -> T {
    match v {
        Some(a) => a,
        None => d,
    }
}

/// The pose after a movement packet with the given fields: a known pose
/// takes each given field and keeps the others; an unknown pose is started
/// only from a full position (angles default to `zero`), never from angles
/// alone.
pub open spec fn next_pose<T>(
    prev: Option<Pose<T>>,
    x: Option<T>,
    y: Option<T>,
    z: Option<T>,
    yaw: Option<T>,
    pitch: Option<T>,
    zero: T,
) -> Option<Pose<T>> {
    match prev {
        Some(p) => Some(
            Pose {
                x: or_else(x, p.x),
                y: or_else(y, p.y),
                z: or_else(z, p.z),
                yaw: or_else(yaw, p.yaw),
                pitch: or_else(pitch, p.pitch),
            },
        ),
        None => if x is Some && y is Some && z is Some {
            Some(
                Pose {
                    x: x->0,
                    y: y->0,
                    z: z->0,
                    yaw: or_else(yaw, zero),
                    pitch: or_else(pitch, zero),
                },
            )
        } else {
            None
        },
    }
}

fn pick<T: Copy>(v: Option<T>, d: T) -> (r: T)
    ensures
        r == or_else(v, d),
{
    match v {
        Some(a) => a,
        None => d,
    }
}

/// Updates a player's pose from a movement packet.
pub fn update_pose<T: Copy>(
    prev: Option<Pose<T>>,
    x: Option<T>,
    y: Option<T>,
    z: Option<T>,
    yaw: Option<T>,
    pitch: Option<T>,
    zero: T,
) -> (r: Option<Pose<T>>)
    ensures
        r == next_pose(prev, x, y, z, yaw, pitch, zero),
{
    match prev {
        Some(p) => Some(
            Pose {
                x: pick(x, p.x),
                y: pick(y, p.y),
                z: pick(z, p.z),
                yaw: pick(yaw, p.yaw),
                pitch: pick(pitch, p.pitch),
            },
        ),
        None => match (x, y, z) {
            (Some(a), Some(b), Some(c)) => Some(
                Pose { x: a, y: b, z: c, yaw: pick(yaw, zero), pitch: pick(pitch, zero) },
            ),
            _ => None,
        },
    }
}

/// Angles alone never start a pose.
pub proof fn lemma_no_pose_from_angles<T>(yaw: Option<T>, pitch: Option<T>, zero: T)
    ensures
        next_pose(None, None, None, None, yaw, pitch, zero) is None,
{
}

} // verus!
