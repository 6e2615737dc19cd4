use async_anticheat_api::tracking::{
    attack_step, forget_entities, movement_step, pose_step, AttackRecord, EntityTable,
    LastPosition, PlayerTable,
};
use async_anticheat_api::transform::Pose;

#[test]
fn movement_steps_measure_against_earlier_positions() {
    let mut last: PlayerTable<LastPosition<f64>> = PlayerTable::new();
    let p = 1u128;
    assert!(movement_step(&mut last, p, 1000, 0.0, 64.0, 0.0).is_none());
    let d = movement_step(&mut last, p, 1050, 1.0, 64.0, 0.0).unwrap();
    assert_eq!(d.dt_ms, 50);
    assert_eq!(d.prev, LastPosition { ts: 1000, x: 0.0, y: 64.0, z: 0.0 });
    let dx = 1.0 - d.prev.x;
    assert_eq!(dx / (d.dt_ms as f64 / 1000.0), 20.0);
    // Same timestamp again: no deltas, but the position is still recorded.
    assert!(movement_step(&mut last, p, 1050, 2.0, 64.0, 0.0).is_none());
    assert_eq!(last.get(p), Some(LastPosition { ts: 1050, x: 2.0, y: 64.0, z: 0.0 }));
    // Another player has its own history.
    assert!(movement_step(&mut last, 2, 2000, 0.0, 0.0, 0.0).is_none());
}

#[test]
fn attack_steps_track_previous_attack() {
    let mut attacks: PlayerTable<AttackRecord<f64>> = PlayerTable::new();
    assert!(attack_step(&mut attacks, 7, 1000, 11, Some(90.0)).is_none());
    let h = attack_step(&mut attacks, 7, 1100, 12, Some(100.0)).unwrap();
    assert_eq!(h.delta.dt_ms, 100);
    assert!(h.delta.target_switched);
    assert_eq!(h.prev_yaw, Some(90.0));
    let h = attack_step(&mut attacks, 7, 1100, 12, None).unwrap();
    assert_eq!(h.delta.dt_ms, 0);
    assert!(!h.delta.target_switched);
    assert_eq!(h.prev_yaw, Some(100.0));
}

#[test]
fn pose_steps_need_a_position_first() {
    let mut poses: PlayerTable<Pose<f64>> = PlayerTable::new();
    pose_step(&mut poses, 3, None, None, None, Some(45.0), Some(5.0), 0.0);
    assert_eq!(poses.get(3), None);
    pose_step(&mut poses, 3, Some(1.0), Some(2.0), Some(3.0), None, None, 0.0);
    assert_eq!(poses.get(3), Some(Pose { x: 1.0, y: 2.0, z: 3.0, yaw: 0.0, pitch: 0.0 }));
    pose_step(&mut poses, 3, None, None, None, Some(45.0), None, 0.0);
    assert_eq!(poses.get(3).map(|p| p.yaw), Some(45.0));
}

#[test]
fn entities_can_be_forgotten() {
    let mut e: EntityTable<(i32, i32, i32)> = EntityTable::new();
    e.set(1, (0, 0, 0));
    e.set(2, (1, 1, 1));
    e.set(3, (2, 2, 2));
    forget_entities(&mut e, &vec![1, 3, 99]);
    assert_eq!(e.get(1), None);
    assert_eq!(e.get(2), Some((1, 1, 1)));
    assert_eq!(e.get(3), None);
}
