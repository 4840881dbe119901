use scene_core::catalog::{Catalog, GroupConfig, GroupItem, LevelGroup, MapEntrance, Npc};
use scene_core::handlers::{
    on_get_basic_info_cs_req, on_get_cur_scene_info_cs_req, on_player_heart_beat_cs_req, DOWNLOAD_DATA_BLOB,
};
use scene_core::motion::{MotionInfo, Position, Vector};
use scene_core::player::{PlayerState, SceneLoc};
use scene_core::session::{on_scene_entity_move_cs_req, EntityMotion, SessionState};

fn player() -> PlayerState {
    PlayerState {
        scene: SceneLoc { plane_id: 10, floor_id: 2, entry_id: 5 },
        position: Position { x: 100, y: 200, z: 300, rot_y: 400 },
        lineups: vec![(0, 1001)],
        avatars: Vec::new(),
    }
}

fn self_motion(x: i32, y: i32, z: i32, rot_y: i32) -> EntityMotion {
    EntityMotion {
        entity_id: 0,
        motion: Some(MotionInfo {
            pos: Vector { x, y, z },
            rot: Vector { x: 0, y: rot_y, z: 0 },
        }),
    }
}

#[test]
fn move_throttle_debounces_within_five_seconds() {
    let mut session = SessionState::new();
    let mut p = player();

    // Fresh session at T: the batch persists.
    let first = on_scene_entity_move_cs_req(&mut session, &mut p, 10_000, &vec![self_motion(1, 2, 3, 4)]);
    assert!(first.1);
    assert_eq!(session.next_save_ms, 15_000);
    assert_eq!(p.position, Position { x: 1, y: 2, z: 3, rot_y: 4 });

    // One second later: inside the window, a no-op acknowledgment.
    let second = on_scene_entity_move_cs_req(&mut session, &mut p, 11_000, &vec![self_motion(9, 9, 9, 9)]);
    assert!(!second.1);
    assert_eq!(session.next_save_ms, 15_000);
    assert_eq!(p.position, Position { x: 1, y: 2, z: 3, rot_y: 4 });

    // Six seconds after the first: past the deadline, persists again.
    let third = on_scene_entity_move_cs_req(&mut session, &mut p, 16_000, &vec![self_motion(7, 8, 9, 10)]);
    assert!(third.1);
    assert_eq!(session.next_save_ms, 21_000);
    assert_eq!(p.position, Position { x: 7, y: 8, z: 9, rot_y: 10 });
}

#[test]
fn move_ignores_other_entities_and_empty_motions() {
    let mut session = SessionState::new();
    let mut p = player();
    let batch = vec![
        EntityMotion { entity_id: 20001, motion: Some(MotionInfo {
            pos: Vector { x: 5, y: 5, z: 5 },
            rot: Vector { x: 0, y: 5, z: 0 },
        }) },
        EntityMotion { entity_id: 0, motion: None },
    ];
    let r = on_scene_entity_move_cs_req(&mut session, &mut p, 1_000, &batch);
    assert!(r.1);
    // Nothing addressed the player's own entity with a motion.
    assert_eq!(p.position, Position { x: 100, y: 200, z: 300, rot_y: 400 });
}

#[test]
fn move_applies_last_matching_record() {
    let mut session = SessionState::new();
    let mut p = player();
    let batch = vec![self_motion(1, 1, 1, 1), self_motion(2, 2, 2, 2)];
    let r = on_scene_entity_move_cs_req(&mut session, &mut p, 1_000, &batch);
    assert!(r.1);
    assert_eq!(p.position, Position { x: 2, y: 2, z: 2, rot_y: 2 });
}

#[test]
fn basic_info_reports_static_fields() {
    let r = on_get_basic_info_cs_req();
    assert_eq!(r.retcode, 0);
    assert_eq!(r.cur_day, 1);
    assert_eq!(r.exchange_times, 0);
    assert_eq!(r.next_recover_time, 2281337);
    assert_eq!(r.week_cocoon_finished_count, 0);
}

#[test]
fn heart_beat_echoes_times_and_attaches_payload() {
    let r = on_player_heart_beat_cs_req(123_456, 789_000);
    assert_eq!(r.retcode, 0);
    assert_eq!(r.client_time_ms, 123_456);
    assert_eq!(r.server_time_ms, 789_000);
    let d = r.download_data.expect("the fixed payload is valid base64");
    assert_eq!(d.version, 51);
    assert_eq!(d.time, 789_000);
    // The payload is the decoded form of the configured base64 blob, not
    // the blob itself.
    let expected = rbase64::decode(DOWNLOAD_DATA_BLOB).unwrap();
    assert_eq!(d.data, expected);
    assert_ne!(d.data, DOWNLOAD_DATA_BLOB.as_bytes());
    assert!(d.data.starts_with(b"CS.UnityEngine.GameObject.Find"));
}

#[test]
fn scene_handler_degrades_to_stub_on_missing_entrance() {
    let p = player();
    let empty = Catalog { map_entrance: Vec::new(), maze_plane: Vec::new(), level_group: Vec::new() };
    let r = on_get_cur_scene_info_cs_req(&p, &empty);
    assert_eq!(r.retcode, 0);
    let scene = r.scene.expect("the handler always carries a scene");
    assert_eq!(scene.plane_id, 10);
    assert_eq!(scene.floor_id, 2);
    assert_eq!(scene.entry_id, 5);
    assert_eq!(scene.game_mode_type, 1);
    assert!(scene.scene_group_list.is_empty());
}

#[test]
fn scene_handler_returns_composed_scene_when_lookups_resolve() {
    let p = player();
    let c = Catalog {
        map_entrance: vec![MapEntrance { entry_id: 5, plane_id: 10, floor_id: 2 }],
        maze_plane: vec![10],
        level_group: vec![LevelGroup {
            plane_id: 10,
            floor_id: 2,
            config: GroupConfig {
                group_items: vec![GroupItem {
                    group_id: 7,
                    props: Vec::new(),
                    npcs: vec![Npc {
                        id: 21,
                        group_id: 7,
                        npc_id: 77,
                        pos: Position { x: 0, y: 0, z: 0, rot_y: 0 },
                    }],
                    monsters: Vec::new(),
                    anchors: Vec::new(),
                }],
                teleports: Vec::new(),
            },
        }],
    };
    let r = on_get_cur_scene_info_cs_req(&p, &c);
    assert_eq!(r.retcode, 0);
    let scene = r.scene.expect("the handler always carries a scene");
    // One catalog group and the party group: not the stub.
    assert_eq!(scene.scene_group_list.len(), 2);
    assert_eq!(scene.scene_group_list[0].entity_list.len(), 2);
}
