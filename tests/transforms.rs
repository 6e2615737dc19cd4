use async_anticheat_api::transform::{
    attack_delta, classify_combat_packet, classify_fight_packet, is_attack_action, line_role,
    movement_interval, parse_transform, update_pose, AttackDelta, CombatPacket, FightPacket,
    LastAttack, LineRole, Pose, TransformKind,
};

#[test]
fn transform_tags() {
    assert!(matches!(parse_transform(""), Ok(TransformKind::RawNdjsonGz)));
    assert!(matches!(parse_transform(" RAW_NDJSON_GZ "), Ok(TransformKind::RawNdjsonGz)));
    assert!(matches!(
        parse_transform("movement_events_v1_ndjson_gz"),
        Ok(TransformKind::MovementEventsV1)
    ));
    assert!(matches!(parse_transform("Combat_Events_V1_ndjson_gz"), Ok(TransformKind::CombatEventsV1)));
    assert!(matches!(parse_transform("ncp_fight_v1_ndjson_gz"), Ok(TransformKind::NcpFightV1)));
    match parse_transform("bogus") {
        Err(e) => assert_eq!(e.message(), "unsupported transform: bogus"),
        Ok(_) => panic!("accepted an unknown tag"),
    }
    assert_eq!(TransformKind::MovementEventsV1.envelope_name(), Some("movement_events_v1"));
    assert_eq!(TransformKind::RawNdjsonGz.envelope_name(), None);
}

#[test]
fn only_first_line_is_metadata() {
    assert_eq!(line_role(1, false), LineRole::Metadata);
    assert_eq!(line_role(2, false), LineRole::Packet);
    assert_eq!(line_role(1, true), LineRole::Skip);
    assert_eq!(line_role(3, true), LineRole::Skip);
}

#[test]
fn movement_intervals() {
    // Consecutive positions at 1000 and 1050 ms: the second event carries dt_ms = 50.
    assert_eq!(movement_interval(None, 1000), None);
    assert_eq!(movement_interval(Some(1000), 1050), Some(50));
    assert_eq!(movement_interval(Some(1050), 1050), None);
    assert_eq!(movement_interval(Some(1100), 1050), None);
}

#[test]
fn attack_deltas() {
    assert_eq!(attack_delta(None, 10, 1), None);
    let prev = LastAttack { ts: 1000, target_entity_id: 5 };
    assert_eq!(
        attack_delta(Some(prev), 1250, 6),
        Some(AttackDelta { dt_ms: 250, target_switched: true })
    );
    assert_eq!(
        attack_delta(Some(prev), 900, 5),
        Some(AttackDelta { dt_ms: 0, target_switched: false })
    );
    assert!(is_attack_action("ATTACK"));
    assert!(!is_attack_action("attack"));
}

#[test]
fn packet_classification() {
    assert_eq!(classify_combat_packet("PLAYER_POSITION_AND_ROTATION"), CombatPacket::Pose);
    assert_eq!(classify_combat_packet("INTERACT_ENTITY"), CombatPacket::Interaction);
    assert_eq!(classify_combat_packet("CHAT"), CombatPacket::Other);
    assert_eq!(classify_fight_packet("clientbound", "SPAWN_LIVING_ENTITY"), FightPacket::EntityAbsolute);
    assert_eq!(classify_fight_packet("clientbound", "ENTITY_TELEPORT"), FightPacket::EntityAbsolute);
    assert_eq!(classify_fight_packet("clientbound", "ENTITY_RELATIVE_MOVE"), FightPacket::EntityRelative);
    assert_eq!(classify_fight_packet("clientbound", "DESTROY_ENTITIES"), FightPacket::EntityDestroy);
    assert_eq!(classify_fight_packet("serverbound", "PLAYER_FLYING"), FightPacket::PlayerPose);
    assert_eq!(classify_fight_packet("serverbound", "USE_ENTITY"), FightPacket::Interaction);
    assert_eq!(classify_fight_packet("clientbound", "USE_ENTITY"), FightPacket::Other);
    assert_eq!(classify_fight_packet("serverbound", "SPAWN"), FightPacket::Other);
}

#[test]
fn poses_start_only_from_positions() {
    assert_eq!(update_pose::<i32>(None, None, None, None, Some(90), Some(10), 0), None);
    let p = update_pose(None, Some(1), Some(64), Some(2), None, None, 0).unwrap();
    assert_eq!(p, Pose { x: 1, y: 64, z: 2, yaw: 0, pitch: 0 });
    let q = update_pose(Some(p), None, None, None, Some(90), None, 0).unwrap();
    assert_eq!(q, Pose { x: 1, y: 64, z: 2, yaw: 90, pitch: 0 });
    let f = update_pose(None, Some(0.5f64), Some(64.0), Some(-1.0), Some(45.0), Some(-10.0), 0.0).unwrap();
    assert_eq!(f.yaw, 45.0);
}
