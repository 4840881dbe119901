use scene_core::catalog::{
    Anchor, Catalog, GroupConfig, GroupItem, LevelGroup, MapEntrance, Monster, Npc, Prop, Teleport,
};
use scene_core::compose::{compose, ResourceNotFound};
use scene_core::motion::Position;
use scene_core::player::{PlayerState, SceneLoc};
use scene_core::scene::EntityDetail;

fn pos(x: i32, y: i32, z: i32, rot_y: i32) -> Position {
    Position { x, y, z, rot_y }
}

fn prop(id: u32, group_id: u32, prop_id: u32, p: Position, state: u32, states: Vec<u32>) -> Prop {
    Prop { id, group_id, prop_id, pos: p, state, state_list: states }
}

fn npc(id: u32, group_id: u32, npc_id: u32, p: Position) -> Npc {
    Npc { id, group_id, npc_id, pos: p }
}

fn group(group_id: u32, props: Vec<Prop>, npcs: Vec<Npc>, monsters: Vec<Monster>) -> GroupItem {
    GroupItem { group_id, props, npcs, monsters, anchors: Vec::new() }
}

fn player_at(entry_id: u32, p: Position, lineups: Vec<(u32, u32)>, avatars: Vec<u32>) -> PlayerState {
    PlayerState {
        scene: SceneLoc { plane_id: 10, floor_id: 2, entry_id },
        position: p,
        lineups,
        avatars,
    }
}

fn catalog_with(groups: Vec<GroupItem>) -> Catalog {
    Catalog {
        map_entrance: vec![MapEntrance { entry_id: 5, plane_id: 10, floor_id: 2 }],
        maze_plane: vec![10],
        level_group: vec![LevelGroup {
            plane_id: 10,
            floor_id: 2,
            config: GroupConfig { group_items: groups, teleports: Vec::new() },
        }],
    }
}

#[test]
fn scenario_two_props_one_npc() {
    let p = player_at(5, pos(100, 200, 300, 400), vec![(0, 1001), (1, 1002)], Vec::new());
    let c = catalog_with(vec![group(
        7,
        vec![
            prop(11, 7, 501, pos(1500, 0, -2500, 90000), 2, vec![0, 2]),
            prop(12, 7, 502, pos(0, 0, 0, 0), 1, vec![1]),
        ],
        vec![npc(21, 7, 77, pos(4000, 0, 4000, 0))],
        Vec::new(),
    )]);

    let scene = compose(&p, &c, None).unwrap();
    assert_eq!(scene.plane_id, 10);
    assert_eq!(scene.floor_id, 2);
    assert_eq!(scene.entry_id, 5);
    assert_eq!(scene.game_mode_type, 1);
    // One catalog group plus the party group.
    assert_eq!(scene.scene_group_list.len(), 2);

    let g = &scene.scene_group_list[0];
    assert_eq!(g.group_id, 7);
    assert_eq!(g.state, 1);
    // Two props, the appended checkpoint marker, and one NPC.
    assert_eq!(g.entity_list.len(), 4);
    assert_eq!(g.entity_list[0].entity_id, 1001);
    assert_eq!(g.entity_list[1].entity_id, 1002);
    assert_eq!(g.entity_list[2].entity_id, 1337);
    assert_eq!(g.entity_list[3].entity_id, 20001);
    match &g.entity_list[3].detail {
        EntityDetail::Npc(ni) => assert_eq!(ni.npc_id, 77),
        other => panic!("expected an NPC entity, got {:?}", other),
    }

    // Checkpoint marker: fixed ids, player position offset by (+6, 0, +6).
    let cp = &g.entity_list[2];
    assert_eq!(cp.group_id, 186);
    assert_eq!(cp.inst_id, 300001);
    assert_eq!(cp.motion.pos.x, 106);
    assert_eq!(cp.motion.pos.y, 200);
    assert_eq!(cp.motion.pos.z, 306);
    match &cp.detail {
        EntityDetail::Prop(pi) => {
            assert_eq!(pi.prop_id, 808);
            assert_eq!(pi.prop_state, 1);
        },
        other => panic!("expected a prop entity, got {:?}", other),
    }

    // Party group: both members share entity id 0 and the player's position.
    let party = &scene.scene_group_list[1];
    assert_eq!(party.group_id, 0);
    assert_eq!(party.entity_list.len(), 2);
    for e in &party.entity_list {
        assert_eq!(e.entity_id, 0);
        assert_eq!(e.motion.pos.x, 100);
        assert_eq!(e.motion.pos.y, 200);
        assert_eq!(e.motion.pos.z, 300);
    }
    match (&party.entity_list[0].detail, &party.entity_list[1].detail) {
        (EntityDetail::Actor(a0), EntityDetail::Actor(a1)) => {
            assert_eq!(a0.base_avatar_id, 1001);
            assert_eq!(a1.base_avatar_id, 1002);
            assert_eq!(a0.avatar_type, 1);
            assert_eq!(a0.map_layer, 2);
            assert_eq!(a0.uid, 1337);
        },
        other => panic!("expected actor entities, got {:?}", other),
    }
}

#[test]
fn positions_pass_through_in_fixed_point_units() {
    // 1.5 catalog units become 1500 fixed-point units at load time; the
    // composer passes them through unchanged, yaw into the rotation's y.
    let p = player_at(5, pos(0, 0, 0, 0), Vec::new(), Vec::new());
    let c = catalog_with(vec![group(
        7,
        vec![prop(11, 7, 501, pos(1500, -2500, 3999, 90500), 1, vec![1])],
        Vec::new(),
        Vec::new(),
    )]);
    let scene = compose(&p, &c, None).unwrap();
    let e = &scene.scene_group_list[0].entity_list[0];
    assert_eq!(e.motion.pos.x, 1500);
    assert_eq!(e.motion.pos.y, -2500);
    assert_eq!(e.motion.pos.z, 3999);
    assert_eq!(e.motion.rot.x, 0);
    assert_eq!(e.motion.rot.y, 90500);
    assert_eq!(e.motion.rot.z, 0);
}

#[test]
fn checkpoint_enabled_state_overrides_stored_state() {
    let p = player_at(5, pos(0, 0, 0, 0), Vec::new(), Vec::new());
    let c = catalog_with(vec![group(
        7,
        vec![
            prop(11, 7, 501, pos(0, 0, 0, 0), 3, vec![0, 3, 8]),
            prop(12, 7, 502, pos(0, 0, 0, 0), 3, vec![0, 3]),
        ],
        Vec::new(),
        Vec::new(),
    )]);
    let scene = compose(&p, &c, None).unwrap();
    let g = &scene.scene_group_list[0];
    match (&g.entity_list[0].detail, &g.entity_list[1].detail) {
        (EntityDetail::Prop(with_marker), EntityDetail::Prop(without_marker)) => {
            assert_eq!(with_marker.prop_state, 8);
            assert_eq!(without_marker.prop_state, 3);
        },
        other => panic!("expected prop entities, got {:?}", other),
    }
}

#[test]
fn owned_avatar_suppresses_npc() {
    let p = player_at(5, pos(0, 0, 0, 0), Vec::new(), vec![88]);
    let c = catalog_with(vec![group(
        7,
        Vec::new(),
        vec![npc(21, 7, 88, pos(0, 0, 0, 0)), npc(22, 7, 99, pos(0, 0, 0, 0))],
        Vec::new(),
    )]);
    let scene = compose(&p, &c, None).unwrap();
    let g = &scene.scene_group_list[0];
    // Checkpoint marker plus the one NPC that survives.
    assert_eq!(g.entity_list.len(), 2);
    match &g.entity_list[1].detail {
        EntityDetail::Npc(ni) => {
            assert_eq!(ni.npc_id, 99);
            assert_eq!(g.entity_list[1].entity_id, 20001);
        },
        other => panic!("expected an NPC entity, got {:?}", other),
    }
}

#[test]
fn npc_seen_in_earlier_group_is_not_repeated() {
    let p = player_at(5, pos(0, 0, 0, 0), Vec::new(), Vec::new());
    let c = catalog_with(vec![
        group(7, Vec::new(), vec![npc(21, 7, 77, pos(0, 0, 0, 0))], Vec::new()),
        group(8, Vec::new(), vec![npc(31, 8, 77, pos(0, 0, 0, 0)), npc(32, 8, 78, pos(0, 0, 0, 0))],
            Vec::new()),
    ]);
    let scene = compose(&p, &c, None).unwrap();
    let g1 = &scene.scene_group_list[0];
    let g2 = &scene.scene_group_list[1];
    assert_eq!(g1.entity_list.len(), 2); // checkpoint + npc 77
    assert_eq!(g2.entity_list.len(), 2); // checkpoint + npc 78
    match &g2.entity_list[1].detail {
        EntityDetail::Npc(ni) => {
            assert_eq!(ni.npc_id, 78);
            assert_eq!(g2.entity_list[1].entity_id, 20002);
        },
        other => panic!("expected an NPC entity, got {:?}", other),
    }
}

#[test]
fn monsters_are_never_deduplicated() {
    let p = player_at(5, pos(0, 0, 0, 0), Vec::new(), Vec::new());
    let m1 = Monster { id: 41, group_id: 7, monster_id: 600, event_id: 9, pos: pos(1, 2, 3, 4) };
    let m2 = Monster { id: 42, group_id: 7, monster_id: 600, event_id: 9, pos: pos(5, 6, 7, 8) };
    let c = catalog_with(vec![group(7, Vec::new(), Vec::new(), vec![m1, m2])]);
    let scene = compose(&p, &c, None).unwrap();
    let g = &scene.scene_group_list[0];
    assert_eq!(g.entity_list.len(), 3); // checkpoint + two monsters
    assert_eq!(g.entity_list[1].entity_id, 30001);
    assert_eq!(g.entity_list[2].entity_id, 30002);
    match &g.entity_list[1].detail {
        EntityDetail::NpcMonster(mi) => {
            assert_eq!(mi.monster_id, 600);
            assert_eq!(mi.event_id, 9);
            assert_eq!(mi.world_level, 6);
        },
        other => panic!("expected a monster entity, got {:?}", other),
    }
}

#[test]
fn compose_is_deterministic() {
    let p = player_at(5, pos(100, 200, 300, 400), vec![(0, 1001)], vec![88]);
    let c = catalog_with(vec![group(
        7,
        vec![prop(11, 7, 501, pos(1500, 0, -2500, 90000), 2, vec![0, 2])],
        vec![npc(21, 7, 77, pos(4000, 0, 4000, 0))],
        vec![Monster { id: 41, group_id: 7, monster_id: 600, event_id: 9, pos: pos(1, 2, 3, 4) }],
    )]);
    let first = compose(&p, &c, None).unwrap();
    let second = compose(&p, &c, None).unwrap();
    assert_eq!(first, second);
}

#[test]
fn missing_entrance_fails_composition() {
    let p = player_at(999, pos(0, 0, 0, 0), Vec::new(), Vec::new());
    let c = catalog_with(Vec::new());
    assert_eq!(compose(&p, &c, None), Err(ResourceNotFound::Entrance));
}

#[test]
fn missing_plane_fails_composition() {
    let p = player_at(5, pos(0, 0, 0, 0), Vec::new(), Vec::new());
    let mut c = catalog_with(Vec::new());
    c.maze_plane = Vec::new();
    assert_eq!(compose(&p, &c, None), Err(ResourceNotFound::Plane));
}

#[test]
fn missing_group_config_fails_composition() {
    let p = player_at(5, pos(0, 0, 0, 0), Vec::new(), Vec::new());
    let mut c = catalog_with(Vec::new());
    c.level_group = Vec::new();
    assert_eq!(compose(&p, &c, None), Err(ResourceNotFound::GroupConfig));
}

#[test]
fn resolved_teleport_overrides_position() {
    let p = player_at(5, pos(100, 200, 300, 400), vec![(0, 1001)], Vec::new());
    let mut c = catalog_with(vec![GroupItem {
        group_id: 7,
        props: Vec::new(),
        npcs: Vec::new(),
        monsters: Vec::new(),
        anchors: vec![Anchor { id: 3, pos: pos(7000, 8000, 9000, 1000) }],
    }]);
    c.level_group[0].config.teleports = vec![Teleport {
        id: 42,
        anchor_group_id: Some(7),
        anchor_id: Some(3),
    }];

    let scene = compose(&p, &c, Some(42)).unwrap();
    // The party stands at the anchor, and the checkpoint marker beside it.
    let party = &scene.scene_group_list[1];
    assert_eq!(party.entity_list[0].motion.pos.x, 7000);
    assert_eq!(party.entity_list[0].motion.pos.y, 8000);
    assert_eq!(party.entity_list[0].motion.pos.z, 9000);
    let cp = &scene.scene_group_list[0].entity_list[0];
    assert_eq!(cp.motion.pos.x, 7006);
    assert_eq!(cp.motion.pos.z, 9006);

    // An unresolved teleport keeps the persisted position.
    let scene2 = compose(&p, &c, Some(43)).unwrap();
    let party2 = &scene2.scene_group_list[1];
    assert_eq!(party2.entity_list[0].motion.pos.x, 100);
}
