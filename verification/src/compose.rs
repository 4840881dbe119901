use vstd::prelude::*;
use crate::catalog::{
    find_anchor, find_entrance, find_group_item, find_level_group, find_teleport, plane_exists,
    Catalog, GroupConfig, GroupItem, Monster, Npc, Prop,
};
use crate::motion::{MotionInfo, Position, Vector};
use crate::player::PlayerState;
use crate::scene::{
    EntityDetail, SceneActorInfo, SceneEntityInfo, SceneGroupInfo, SceneGroupModel, SceneInfo,
    SceneModel, SceneNpcInfo, SceneNpcMonsterInfo, ScenePropInfo, ACTOR_MAP_LAYER, ACTOR_UID,
    AVATAR_FORMAL_TYPE, CHECKPOINT_ENTITY_ID, CHECKPOINT_GROUP_ID, CHECKPOINT_INST_ID,
    CHECKPOINT_PROP_ID, MONSTER_ENTITY_ID_BASE, MONSTER_WORLD_LEVEL, NPC_ENTITY_ID_BASE,
    PLAYER_ENTITY_ID, PROP_ENTITY_ID_BASE, PROP_STATE_CHECKPOINT_ENABLE,
};

verus! {

/// A required resource-catalog lookup missed during composition.
#[derive(Clone, Copy, PartialEq, Eq, Debug)]
pub enum ResourceNotFound {
    /// No entrance is stored under the player's entry id.
    Entrance,
    /// No plane is stored under the entrance's plane id.
    Plane,
    /// No spawn-group configuration is stored under the entrance's
    /// plane and floor.
    GroupConfig,
}

/// Running state of one composition: the next synthetic id of each
/// category and the NPC identifiers already instantiated.
pub ghost struct ComposeState {
    pub prop_next: int,
    pub npc_next: int,
    pub monster_next: int,
    pub loaded_npc: Seq<u32>,
}

/// The state every composition starts from.
pub open spec fn initial_state() -> ComposeState {
    ComposeState {
        prop_next: PROP_ENTITY_ID_BASE as int,
        npc_next: NPC_ENTITY_ID_BASE as int,
        monster_next: MONSTER_ENTITY_ID_BASE as int,
        loaded_npc: Seq::empty(),
    }
}

/// Display state a prop reports in the scene: the checkpoint-enabled
/// state where the prop's allowed-state list contains it, else the
/// stored state.
pub open spec fn effective_prop_state(p: Prop) -> u32 {
    if p.state_list@.contains(PROP_STATE_CHECKPOINT_ENABLE) {
        PROP_STATE_CHECKPOINT_ENABLE
    } else {
        p.state
    }
}

/// The scene entity emitted for one prop definition.
pub open spec fn prop_entity(p: Prop, eid: u32) -> SceneEntityInfo {
    SceneEntityInfo {
        entity_id: eid,
        group_id: p.group_id,
        inst_id: p.id,
        motion: p.pos.to_motion_spec(),
        detail: EntityDetail::Prop(ScenePropInfo {
            prop_id: p.prop_id,
            prop_state: effective_prop_state(p),
        }),
    }
}

/// Entities emitted for a run of prop definitions, ids assigned
/// consecutively above `next`.
pub open spec fn props_entities(props: Seq<Prop>, next: int) -> Seq<SceneEntityInfo>
    decreases props.len(),
{
    if props.len() == 0 {
        Seq::empty()
    } else {
        seq![prop_entity(props[0], (next + 1) as u32)]
            + props_entities(props.drop_first(), next + 1)
    }
}

/// The checkpoint marker appended to every group: world-instance
/// scaffolding placed beside the player.
pub open spec fn checkpoint_entity(pos: Position) -> SceneEntityInfo {
    SceneEntityInfo {
        entity_id: CHECKPOINT_ENTITY_ID,
        group_id: CHECKPOINT_GROUP_ID,
        inst_id: CHECKPOINT_INST_ID,
        motion: MotionInfo {
            pos: Vector { x: (pos.x + 6) as i32, y: pos.y, z: (pos.z + 6) as i32 },
            rot: Vector { x: 0, y: 0, z: 0 },
        },
        detail: EntityDetail::Prop(ScenePropInfo { prop_id: CHECKPOINT_PROP_ID, prop_state: 1 }),
    }
}

/// Whether an NPC definition is suppressed: its identifier was already
/// instantiated earlier in this composition, or the player owns the
/// character it would impersonate.
pub open spec fn npc_skipped(n: Npc, loaded: Seq<u32>, avatars: Seq<u32>) -> bool {
    loaded.contains(n.npc_id) || avatars.contains(n.npc_id)
}

/// The scene entity emitted for one NPC definition.
pub open spec fn npc_entity(n: Npc, eid: u32) -> SceneEntityInfo {
    SceneEntityInfo {
        entity_id: eid,
        group_id: n.group_id,
        inst_id: n.id,
        motion: n.pos.to_motion_spec(),
        detail: EntityDetail::Npc(SceneNpcInfo { npc_id: n.npc_id }),
    }
}

/// Entities emitted for a run of NPC definitions: suppressed ones are
/// dropped, the others get consecutive ids above `next`.
pub open spec fn npcs_entities(npcs: Seq<Npc>, next: int, loaded: Seq<u32>, avatars: Seq<u32>)
    -> Seq<SceneEntityInfo>
    decreases npcs.len(),
{
    if npcs.len() == 0 {
        Seq::empty()
    } else if npc_skipped(npcs[0], loaded, avatars) {
        npcs_entities(npcs.drop_first(), next, loaded, avatars)
    } else {
        seq![npc_entity(npcs[0], (next + 1) as u32)]
            + npcs_entities(npcs.drop_first(), next + 1, loaded.push(npcs[0].npc_id), avatars)
    }
}

/// The NPC id counter after a run of NPC definitions.
pub open spec fn npcs_next(npcs: Seq<Npc>, next: int, loaded: Seq<u32>, avatars: Seq<u32>) -> int
    decreases npcs.len(),
{
    if npcs.len() == 0 {
        next
    } else if npc_skipped(npcs[0], loaded, avatars) {
        npcs_next(npcs.drop_first(), next, loaded, avatars)
    } else {
        npcs_next(npcs.drop_first(), next + 1, loaded.push(npcs[0].npc_id), avatars)
    }
}

/// The instantiated-NPC list after a run of NPC definitions.
pub open spec fn npcs_loaded(npcs: Seq<Npc>, loaded: Seq<u32>, avatars: Seq<u32>) -> Seq<u32>
    decreases npcs.len(),
{
    if npcs.len() == 0 {
        loaded
    } else if npc_skipped(npcs[0], loaded, avatars) {
        npcs_loaded(npcs.drop_first(), loaded, avatars)
    } else {
        npcs_loaded(npcs.drop_first(), loaded.push(npcs[0].npc_id), avatars)
    }
}

/// The scene entity emitted for one monster definition.
pub open spec fn monster_entity(m: Monster, eid: u32) -> SceneEntityInfo {
    SceneEntityInfo {
        entity_id: eid,
        group_id: m.group_id,
        inst_id: m.id,
        motion: m.pos.to_motion_spec(),
        detail: EntityDetail::NpcMonster(SceneNpcMonsterInfo {
            monster_id: m.monster_id,
            event_id: m.event_id,
            world_level: MONSTER_WORLD_LEVEL,
        }),
    }
}

/// Entities emitted for a run of monster definitions, ids assigned
/// consecutively above `next`; monsters are never suppressed.
pub open spec fn monsters_entities(monsters: Seq<Monster>, next: int) -> Seq<SceneEntityInfo>
    decreases monsters.len(),
{
    if monsters.len() == 0 {
        Seq::empty()
    } else {
        seq![monster_entity(monsters[0], (next + 1) as u32)]
            + monsters_entities(monsters.drop_first(), next + 1)
    }
}

/// The scene group built for one spawn group: its props, the appended
/// checkpoint marker, its surviving NPCs and its monsters, in order.
pub open spec fn group_model(g: GroupItem, pos: Position, avatars: Seq<u32>, st: ComposeState)
    -> SceneGroupModel
{
    SceneGroupModel {
        state: 1,
        group_id: g.group_id,
        entities: props_entities(g.props@, st.prop_next)
            + seq![checkpoint_entity(pos)]
            + npcs_entities(g.npcs@, st.npc_next, st.loaded_npc, avatars)
            + monsters_entities(g.monsters@, st.monster_next),
    }
}

/// Composition state after one spawn group.
pub open spec fn group_next_state(g: GroupItem, avatars: Seq<u32>, st: ComposeState)
    -> ComposeState
{
    ComposeState {
        prop_next: st.prop_next + g.props@.len(),
        npc_next: npcs_next(g.npcs@, st.npc_next, st.loaded_npc, avatars),
        monster_next: st.monster_next + g.monsters@.len(),
        loaded_npc: npcs_loaded(g.npcs@, st.loaded_npc, avatars),
    }
}

/// Scene groups built for a run of spawn groups, threading the
/// composition state through in catalog order.
pub open spec fn groups_models(
    items: Seq<GroupItem>,
    pos: Position,
    avatars: Seq<u32>,
    st: ComposeState,
) -> Seq<SceneGroupModel>
    decreases items.len(),
{
    if items.len() == 0 {
        Seq::empty()
    } else {
        seq![group_model(items[0], pos, avatars, st)]
            + groups_models(items.drop_first(), pos, avatars, group_next_state(items[0], avatars, st))
    }
}

/// The entity standing for one party member: the reserved shared id,
/// the player's position, and the member's avatar.
pub open spec fn actor_entity(avatar_id: u32, pos: Position) -> SceneEntityInfo {
    SceneEntityInfo {
        entity_id: PLAYER_ENTITY_ID,
        group_id: 0,
        inst_id: 0,
        motion: MotionInfo {
            pos: Vector { x: pos.x, y: pos.y, z: pos.z },
            rot: Vector { x: 0, y: 0, z: 0 },
        },
        detail: EntityDetail::Actor(SceneActorInfo {
            avatar_type: AVATAR_FORMAL_TYPE,
            base_avatar_id: avatar_id,
            map_layer: ACTOR_MAP_LAYER,
            uid: ACTOR_UID,
        }),
    }
}

/// The synthetic group holding the player's party, appended after all
/// catalog groups.
pub open spec fn player_group_model(lineups: Seq<(u32, u32)>, pos: Position) -> SceneGroupModel {
    SceneGroupModel {
        state: 1,
        group_id: 0,
        entities: lineups.map_values(|su: (u32, u32)| actor_entity(su.1, pos)),
    }
}

/// A teleport reference field: absent means id 0.
pub open spec fn or_zero(o: Option<u32>) -> u32 {
    match o {
        Some(v) => v,
        None => 0,
    }
}

/// The position a composition starts from: the player's persisted
/// position, overridden by the referenced teleport anchor where one is
/// specified and resolves; an unresolved anchor is not an error.
pub open spec fn effective_position(p: PlayerState, cfg: GroupConfig, teleport_id: Option<u32>)
    -> Position
{
    match teleport_id {
        None => p.position,
        Some(tid) => match find_teleport(cfg.teleports@, tid) {
            None => p.position,
            Some(tp) => match find_group_item(cfg.group_items@, or_zero(tp.anchor_group_id)) {
                None => p.position,
                Some(gi) => match find_anchor(
                    cfg.group_items@[gi].anchors@,
                    or_zero(tp.anchor_id),
                ) {
                    None => p.position,
                    Some(a) => a.pos,
                },
            },
        },
    }
}

/// The scene composed for one player against one spawn-group
/// configuration.
pub open spec fn scene_model(p: PlayerState, cfg: GroupConfig, teleport_id: Option<u32>)
    -> SceneModel
{
    let pos = effective_position(p, cfg, teleport_id);
    SceneModel {
        plane_id: p.scene.plane_id,
        floor_id: p.scene.floor_id,
        entry_id: p.scene.entry_id,
        game_mode_type: 1,
        groups: groups_models(cfg.group_items@, pos, p.avatars@, initial_state())
            .push(player_group_model(p.lineups@, pos)),
    }
}

/// What composition returns: the composed scene, or the first
/// catalog lookup that missed.
pub open spec fn compose_spec(p: PlayerState, c: Catalog, teleport_id: Option<u32>)
    -> Result<SceneModel, ResourceNotFound>
{
    match find_entrance(c.map_entrance@, p.scene.entry_id) {
        None => Err(ResourceNotFound::Entrance),
        Some(ent) => if !plane_exists(c.maze_plane@, ent.plane_id) {
            Err(ResourceNotFound::Plane)
        } else {
            match find_level_group(c.level_group@, ent.plane_id, ent.floor_id) {
                None => Err(ResourceNotFound::GroupConfig),
                Some(i) => Ok(scene_model(p, c.level_group@[i].config, teleport_id)),
            }
        },
    }
}

/// Props over a run of spawn groups.
pub open spec fn total_props(items: Seq<GroupItem>) -> int
    decreases items.len(),
{
    if items.len() == 0 {
        0
    } else {
        items[0].props@.len() + total_props(items.drop_first())
    }
}

/// NPC definitions over a run of spawn groups.
pub open spec fn total_npcs(items: Seq<GroupItem>) -> int
    decreases items.len(),
{
    if items.len() == 0 {
        0
    } else {
        items[0].npcs@.len() + total_npcs(items.drop_first())
    }
}

/// Monsters over a run of spawn groups.
pub open spec fn total_monsters(items: Seq<GroupItem>) -> int
    decreases items.len(),
{
    if items.len() == 0 {
        0
    } else {
        items[0].monsters@.len() + total_monsters(items.drop_first())
    }
}

pub proof fn lemma_total_props_nonneg(items: Seq<GroupItem>)
    ensures
        total_props(items) >= 0,
    decreases items.len(),
{
    if items.len() > 0 {
        lemma_total_props_nonneg(items.drop_first());
    }
}

pub proof fn lemma_total_npcs_nonneg(items: Seq<GroupItem>)
    ensures
        total_npcs(items) >= 0,
    decreases items.len(),
{
    if items.len() > 0 {
        lemma_total_npcs_nonneg(items.drop_first());
    }
}

pub proof fn lemma_total_monsters_nonneg(items: Seq<GroupItem>)
    ensures
        total_monsters(items) >= 0,
    decreases items.len(),
{
    if items.len() > 0 {
        lemma_total_monsters_nonneg(items.drop_first());
    }
}

/// The NPC id counter moves forward by at most one per definition.
pub proof fn lemma_npcs_next_bounds(npcs: Seq<Npc>, next: int, loaded: Seq<u32>, avatars: Seq<u32>)
    ensures
        next <= npcs_next(npcs, next, loaded, avatars) <= next + npcs.len(),
    decreases npcs.len(),
{
    if npcs.len() > 0 {
        if npc_skipped(npcs[0], loaded, avatars) {
            lemma_npcs_next_bounds(npcs.drop_first(), next, loaded, avatars);
        } else {
            lemma_npcs_next_bounds(
                npcs.drop_first(),
                next + 1,
                loaded.push(npcs[0].npc_id),
                avatars,
            );
        }
    }
}

/// Machine bounds under which composition cannot overflow: the
/// synthetic id counters stay within `u32` and the checkpoint offset
/// stays within `i32`.
pub open spec fn compose_fits(p: PlayerState, c: Catalog, teleport_id: Option<u32>) -> bool {
    match find_entrance(c.map_entrance@, p.scene.entry_id) {
        None => true,
        Some(ent) => if !plane_exists(c.maze_plane@, ent.plane_id) {
            true
        } else {
            match find_level_group(c.level_group@, ent.plane_id, ent.floor_id) {
                None => true,
                Some(i) => {
                    let cfg = c.level_group@[i].config;
                    let pos = effective_position(p, cfg, teleport_id);
                    &&& PROP_ENTITY_ID_BASE + total_props(cfg.group_items@) <= u32::MAX
                    &&& NPC_ENTITY_ID_BASE + total_npcs(cfg.group_items@) <= u32::MAX
                    &&& MONSTER_ENTITY_ID_BASE + total_monsters(cfg.group_items@) <= u32::MAX
                    &&& pos.x + 6 <= i32::MAX
                    &&& pos.z + 6 <= i32::MAX
                },
            }
        },
    }
}

/// Whether a `u32` vector holds a value.
fn vec_contains_u32(v: &Vec<u32>, x: u32) -> (r: bool)
    ensures
        r == v@.contains(x),
{
    let n = v.len();
    let mut i: usize = 0;
    while i < n
        invariant
            i <= n,
            n == v@.len(),
            forall|k: int| 0 <= k < i ==> v@[k] != x,
        decreases n - i,
    {
        if v[i] == x {
            return true;
        }
        i = i + 1;
    }
    false
}

/// Builds the scene group of one spawn group and advances the
/// composition counters and the instantiated-NPC list.
fn compose_group(
    g: &GroupItem,
    pos: Position,
    avatars: &Vec<u32>,
    prop_ctr: &mut u32,
    npc_ctr: &mut u32,
    mon_ctr: &mut u32,
    loaded_npc: &mut Vec<u32>,
) -> (gi: SceneGroupInfo)
    requires
        *old(prop_ctr) + g.props@.len() <= u32::MAX,
        *old(npc_ctr) + g.npcs@.len() <= u32::MAX,
        *old(mon_ctr) + g.monsters@.len() <= u32::MAX,
        pos.x + 6 <= i32::MAX,
        pos.z + 6 <= i32::MAX,
    ensures
        gi@ == group_model(*g, pos, avatars@, (ComposeState {
            prop_next: *old(prop_ctr) as int,
            npc_next: *old(npc_ctr) as int,
            monster_next: *old(mon_ctr) as int,
            loaded_npc: old(loaded_npc)@,
        })),
        *final(prop_ctr) == *old(prop_ctr) + g.props@.len(),
        *final(npc_ctr) as int == npcs_next(g.npcs@, *old(npc_ctr) as int, old(loaded_npc)@, avatars@),
        *final(mon_ctr) == *old(mon_ctr) + g.monsters@.len(),
        final(loaded_npc)@ == npcs_loaded(g.npcs@, old(loaded_npc)@, avatars@),
{
    let ghost prop0 = *prop_ctr as int;
    let ghost npc0 = *npc_ctr as int;
    let ghost mon0 = *mon_ctr as int;
    let ghost loaded0 = loaded_npc@;

    let mut entity_list: Vec<SceneEntityInfo> = Vec::new();

    // Props: consecutive synthetic ids, checkpoint-enabled state forced
    // where the allowed-state list contains it.
    proof {
        assert(g.props@.skip(0) =~= g.props@);
        assert(entity_list@ + props_entities(g.props@, prop0) =~= props_entities(g.props@, prop0));
    }
    let mut pi: usize = 0;
    while pi < g.props.len()
        invariant
            pi <= g.props@.len(),
            prop0 + g.props@.len() <= u32::MAX,
            *prop_ctr as int == prop0 + pi,
            props_entities(g.props@, prop0)
                == entity_list@ + props_entities(g.props@.skip(pi as int), prop0 + pi),
        decreases g.props@.len() - pi,
    {
        let prop = &g.props[pi];
        let prop_state: u32 = if vec_contains_u32(&prop.state_list, PROP_STATE_CHECKPOINT_ENABLE) {
            PROP_STATE_CHECKPOINT_ENABLE
        } else {
            prop.state
        };
        *prop_ctr = *prop_ctr + 1;
        let e = SceneEntityInfo {
            entity_id: *prop_ctr,
            group_id: prop.group_id,
            inst_id: prop.id,
            motion: prop.pos.to_motion(),
            detail: EntityDetail::Prop(ScenePropInfo { prop_id: prop.prop_id, prop_state }),
        };
        proof {
            assert(e == prop_entity(g.props@[pi as int], (prop0 + pi + 1) as u32));
            assert(g.props@.skip(pi as int).drop_first() =~= g.props@.skip(pi as int + 1));
            assert(g.props@.skip(pi as int)[0] == g.props@[pi as int]);
        }
        let ghost pre = entity_list@;
        entity_list.push(e);
        proof {
            assert(entity_list@ =~= pre + seq![e]);
            assert(entity_list@ + props_entities(g.props@.skip(pi as int + 1), prop0 + pi + 1)
                =~= pre + props_entities(g.props@.skip(pi as int), prop0 + pi));
        }
        pi = pi + 1;
    }
    proof {
        assert(g.props@.skip(g.props@.len() as int) =~= Seq::<Prop>::empty());
        assert(entity_list@ =~= props_entities(g.props@, prop0));
    }

    // The fixed checkpoint marker appended to every group.
    let cp = SceneEntityInfo {
        entity_id: CHECKPOINT_ENTITY_ID,
        group_id: CHECKPOINT_GROUP_ID,
        inst_id: CHECKPOINT_INST_ID,
        motion: MotionInfo {
            pos: Vector { x: pos.x + 6, y: pos.y, z: pos.z + 6 },
            rot: Vector { x: 0, y: 0, z: 0 },
        },
        detail: EntityDetail::Prop(ScenePropInfo { prop_id: CHECKPOINT_PROP_ID, prop_state: 1 }),
    };
    entity_list.push(cp);
    let ghost base = entity_list@;
    proof {
        assert(base =~= props_entities(g.props@, prop0) + seq![checkpoint_entity(pos)]);
    }

    // NPCs: suppressed where already instantiated or owned as an
    // avatar; the others get consecutive synthetic ids.
    proof {
        assert(g.npcs@.skip(0) =~= g.npcs@);
        assert(entity_list@.skip(base.len() as int) =~= Seq::<SceneEntityInfo>::empty());
        assert(entity_list@.skip(base.len() as int)
                + npcs_entities(g.npcs@, npc0, loaded0, avatars@)
            =~= npcs_entities(g.npcs@, npc0, loaded0, avatars@));
    }
    let mut ni: usize = 0;
    while ni < g.npcs.len()
        invariant
            ni <= g.npcs@.len(),
            *npc_ctr as int + (g.npcs@.len() - ni) <= u32::MAX,
            entity_list@.len() >= base.len(),
            entity_list@.take(base.len() as int) == base,
            npcs_entities(g.npcs@, npc0, loaded0, avatars@)
                == entity_list@.skip(base.len() as int)
                    + npcs_entities(g.npcs@.skip(ni as int), *npc_ctr as int, loaded_npc@, avatars@),
            npcs_next(g.npcs@, npc0, loaded0, avatars@)
                == npcs_next(g.npcs@.skip(ni as int), *npc_ctr as int, loaded_npc@, avatars@),
            npcs_loaded(g.npcs@, loaded0, avatars@)
                == npcs_loaded(g.npcs@.skip(ni as int), loaded_npc@, avatars@),
        decreases g.npcs@.len() - ni,
    {
        let npc = &g.npcs[ni];
        let ghost cur = *npc_ctr as int;
        let ghost pre_loaded = loaded_npc@;
        proof {
            assert(g.npcs@.skip(ni as int).drop_first() =~= g.npcs@.skip(ni as int + 1));
            assert(g.npcs@.skip(ni as int)[0] == g.npcs@[ni as int]);
        }
        let suppressed =
            vec_contains_u32(loaded_npc, npc.npc_id) || vec_contains_u32(avatars, npc.npc_id);
        if !suppressed {
            proof {
                assert(!npc_skipped(g.npcs@[ni as int], pre_loaded, avatars@));
                assert(npcs_entities(g.npcs@.skip(ni as int), cur, pre_loaded, avatars@)
                    == seq![npc_entity(g.npcs@[ni as int], (cur + 1) as u32)]
                        + npcs_entities(g.npcs@.skip(ni as int + 1), cur + 1,
                            pre_loaded.push(g.npcs@[ni as int].npc_id), avatars@));
                assert(npcs_next(g.npcs@.skip(ni as int), cur, pre_loaded, avatars@)
                    == npcs_next(g.npcs@.skip(ni as int + 1), cur + 1,
                        pre_loaded.push(g.npcs@[ni as int].npc_id), avatars@));
                assert(npcs_loaded(g.npcs@.skip(ni as int), pre_loaded, avatars@)
                    == npcs_loaded(g.npcs@.skip(ni as int + 1),
                        pre_loaded.push(g.npcs@[ni as int].npc_id), avatars@));
            }
            *npc_ctr = *npc_ctr + 1;
            loaded_npc.push(npc.npc_id);
            let e = SceneEntityInfo {
                entity_id: *npc_ctr,
                group_id: npc.group_id,
                inst_id: npc.id,
                motion: npc.pos.to_motion(),
                detail: EntityDetail::Npc(SceneNpcInfo { npc_id: npc.npc_id }),
            };
            proof {
                assert(loaded_npc@ == pre_loaded.push(g.npcs@[ni as int].npc_id));
                assert(e == npc_entity(g.npcs@[ni as int], (cur + 1) as u32));
            }
            let ghost pre = entity_list@;
            entity_list.push(e);
            proof {
                assert(entity_list@ =~= pre + seq![e]);
                assert(entity_list@.take(base.len() as int) =~= pre.take(base.len() as int));
                assert(entity_list@.skip(base.len() as int)
                    =~= pre.skip(base.len() as int) + seq![e]);
                assert(entity_list@.skip(base.len() as int)
                        + npcs_entities(g.npcs@.skip(ni as int + 1), *npc_ctr as int, loaded_npc@, avatars@)
                    =~= pre.skip(base.len() as int)
                        + npcs_entities(g.npcs@.skip(ni as int), cur, pre_loaded, avatars@));
            }
        } else {
            proof {
                assert(npc_skipped(g.npcs@[ni as int], pre_loaded, avatars@));
                assert(npcs_entities(g.npcs@.skip(ni as int), cur, pre_loaded, avatars@)
                    == npcs_entities(g.npcs@.skip(ni as int + 1), cur, pre_loaded, avatars@));
                assert(npcs_next(g.npcs@.skip(ni as int), cur, pre_loaded, avatars@)
                    == npcs_next(g.npcs@.skip(ni as int + 1), cur, pre_loaded, avatars@));
                assert(npcs_loaded(g.npcs@.skip(ni as int), pre_loaded, avatars@)
                    == npcs_loaded(g.npcs@.skip(ni as int + 1), pre_loaded, avatars@));
            }
        }
        ni = ni + 1;
    }
    proof {
        assert(g.npcs@.skip(g.npcs@.len() as int) =~= Seq::<Npc>::empty());
        assert(entity_list@.skip(base.len() as int)
            =~= npcs_entities(g.npcs@, npc0, loaded0, avatars@));
        assert(entity_list@ =~= entity_list@.take(base.len() as int)
            + entity_list@.skip(base.len() as int));
    }
    let ghost base2 = entity_list@;

    // Monsters: consecutive synthetic ids, never suppressed.
    proof {
        assert(g.monsters@.skip(0) =~= g.monsters@);
        assert(entity_list@.skip(base2.len() as int) =~= Seq::<SceneEntityInfo>::empty());
        assert(entity_list@.skip(base2.len() as int) + monsters_entities(g.monsters@, mon0)
            =~= monsters_entities(g.monsters@, mon0));
    }
    let mut mi: usize = 0;
    while mi < g.monsters.len()
        invariant
            mi <= g.monsters@.len(),
            mon0 + g.monsters@.len() <= u32::MAX,
            *mon_ctr as int == mon0 + mi,
            entity_list@.len() >= base2.len(),
            entity_list@.take(base2.len() as int) == base2,
            monsters_entities(g.monsters@, mon0)
                == entity_list@.skip(base2.len() as int)
                    + monsters_entities(g.monsters@.skip(mi as int), mon0 + mi),
        decreases g.monsters@.len() - mi,
    {
        let monster = &g.monsters[mi];
        *mon_ctr = *mon_ctr + 1;
        let e = SceneEntityInfo {
            entity_id: *mon_ctr,
            group_id: monster.group_id,
            inst_id: monster.id,
            motion: monster.pos.to_motion(),
            detail: EntityDetail::NpcMonster(SceneNpcMonsterInfo {
                monster_id: monster.monster_id,
                event_id: monster.event_id,
                world_level: MONSTER_WORLD_LEVEL,
            }),
        };
        proof {
            assert(e == monster_entity(g.monsters@[mi as int], (mon0 + mi + 1) as u32));
            assert(g.monsters@.skip(mi as int).drop_first() =~= g.monsters@.skip(mi as int + 1));
            assert(g.monsters@.skip(mi as int)[0] == g.monsters@[mi as int]);
        }
        let ghost pre = entity_list@;
        entity_list.push(e);
        proof {
            assert(entity_list@ =~= pre + seq![e]);
            assert(entity_list@.take(base2.len() as int) =~= pre.take(base2.len() as int));
            assert(entity_list@.skip(base2.len() as int)
                =~= pre.skip(base2.len() as int) + seq![e]);
            assert(entity_list@.skip(base2.len() as int)
                    + monsters_entities(g.monsters@.skip(mi as int + 1), mon0 + mi + 1)
                =~= pre.skip(base2.len() as int)
                    + monsters_entities(g.monsters@.skip(mi as int), mon0 + mi));
        }
        mi = mi + 1;
    }
    proof {
        assert(g.monsters@.skip(g.monsters@.len() as int) =~= Seq::<Monster>::empty());
        assert(entity_list@.skip(base2.len() as int) =~= monsters_entities(g.monsters@, mon0));
        assert(entity_list@ =~= entity_list@.take(base2.len() as int)
            + entity_list@.skip(base2.len() as int));
        assert(entity_list@ =~= props_entities(g.props@, prop0)
            + seq![checkpoint_entity(pos)]
            + npcs_entities(g.npcs@, npc0, loaded0, avatars@)
            + monsters_entities(g.monsters@, mon0));
    }

    SceneGroupInfo { state: 1, group_id: g.group_id, entity_list }
}

/// Scene composition: a pure function of the player's persisted state
/// and the resource catalog.
///
/// Resolves the entrance, the plane and the spawn-group configuration,
/// starts from the player's position (overridden by a resolved teleport
/// anchor where `teleport_id` is given), instantiates every spawn group
/// in catalog order and appends the player's party group. Fails with
/// the first catalog lookup that misses.
pub fn compose(player: &PlayerState, catalog: &Catalog, teleport_id: Option<u32>)
    -> (r: Result<SceneInfo, ResourceNotFound>)
    requires
        compose_fits(*player, *catalog, teleport_id),
    ensures
        r matches Ok(s) ==> compose_spec(*player, *catalog, teleport_id)
            == Ok::<SceneModel, ResourceNotFound>(s@),
        r matches Err(e) ==> compose_spec(*player, *catalog, teleport_id)
            == Err::<SceneModel, ResourceNotFound>(e),
{
    let ent = match catalog.get_entrance(player.scene.entry_id) {
        Some(e) => e,
        None => {
            return Err(ResourceNotFound::Entrance);
        },
    };

    if !catalog.has_plane(ent.plane_id) {
        return Err(ResourceNotFound::Plane);
    }

    let lg_idx = match catalog.get_level_group(ent.plane_id, ent.floor_id) {
        Some(i) => i,
        None => {
            return Err(ResourceNotFound::GroupConfig);
        },
    };
    let config = &catalog.level_group[lg_idx].config;

    // The position composition starts from: the persisted one, unless a
    // specified teleport resolves to an anchor.
    let mut pos = player.position;
    if let Some(tid) = teleport_id {
        if let Some(tp) = config.get_teleport(tid) {
            let anchor_group_id = match tp.anchor_group_id {
                Some(v) => v,
                None => 0,
            };
            let anchor_id = match tp.anchor_id {
                Some(v) => v,
                None => 0,
            };
            if let Some(g_idx) = config.get_group_item(anchor_group_id) {
                if let Some(anchor) = config.group_items[g_idx].get_anchor(anchor_id) {
                    pos = anchor.pos;
                }
            }
        }
    }
    proof {
        assert(pos == effective_position(*player, *config, teleport_id));
    }

    let ghost items = config.group_items@;
    let mut groups: Vec<SceneGroupInfo> = Vec::new();
    let mut prop_ctr: u32 = PROP_ENTITY_ID_BASE;
    let mut npc_ctr: u32 = NPC_ENTITY_ID_BASE;
    let mut mon_ctr: u32 = MONSTER_ENTITY_ID_BASE;
    let mut loaded_npc: Vec<u32> = Vec::new();

    proof {
        assert(items.skip(0) =~= items);
        assert(groups@.map_values(|gr: SceneGroupInfo| gr@)
                + groups_models(items, pos, player.avatars@, initial_state())
            =~= groups_models(items, pos, player.avatars@, initial_state()));
    }
    let mut gi: usize = 0;
    while gi < config.group_items.len()
        invariant
            gi <= items.len(),
            items == config.group_items@,
            config == &catalog.level_group@[lg_idx as int].config,
            lg_idx < catalog.level_group@.len(),
            prop_ctr as int + total_props(items.skip(gi as int)) <= u32::MAX,
            npc_ctr as int + total_npcs(items.skip(gi as int)) <= u32::MAX,
            mon_ctr as int + total_monsters(items.skip(gi as int)) <= u32::MAX,
            pos.x + 6 <= i32::MAX,
            pos.z + 6 <= i32::MAX,
            groups_models(items, pos, player.avatars@, initial_state())
                == groups@.map_values(|gr: SceneGroupInfo| gr@)
                    + groups_models(items.skip(gi as int), pos, player.avatars@, (ComposeState {
                        prop_next: prop_ctr as int,
                        npc_next: npc_ctr as int,
                        monster_next: mon_ctr as int,
                        loaded_npc: loaded_npc@,
                    })),
        decreases items.len() - gi,
    {
        proof {
            assert(items.skip(gi as int).drop_first() =~= items.skip(gi as int + 1));
            assert(items.skip(gi as int)[0] == items[gi as int]);
            lemma_total_props_nonneg(items.skip(gi as int + 1));
            lemma_total_npcs_nonneg(items.skip(gi as int + 1));
            lemma_total_monsters_nonneg(items.skip(gi as int + 1));
        }
        let ghost st = ComposeState {
            prop_next: prop_ctr as int,
            npc_next: npc_ctr as int,
            monster_next: mon_ctr as int,
            loaded_npc: loaded_npc@,
        };
        let group_info = compose_group(
            &config.group_items[gi],
            pos,
            &player.avatars,
            &mut prop_ctr,
            &mut npc_ctr,
            &mut mon_ctr,
            &mut loaded_npc,
        );
        proof {
            lemma_npcs_next_bounds(items[gi as int].npcs@, st.npc_next, st.loaded_npc,
                player.avatars@);
        }
        let ghost pre = groups@;
        groups.push(group_info);
        proof {
            assert(groups@ =~= pre.push(group_info));
            assert(groups@.map_values(|gr: SceneGroupInfo| gr@)
                =~= pre.map_values(|gr: SceneGroupInfo| gr@).push(group_info@));
            assert(group_info@ == group_model(items[gi as int], pos, player.avatars@, st));
            assert(groups@.map_values(|gr: SceneGroupInfo| gr@)
                    + groups_models(items.skip(gi as int + 1), pos, player.avatars@,
                        group_next_state(items[gi as int], player.avatars@, st))
                =~= pre.map_values(|gr: SceneGroupInfo| gr@)
                    + groups_models(items.skip(gi as int), pos, player.avatars@, st));
        }
        gi = gi + 1;
    }
    proof {
        assert(items.skip(items.len() as int) =~= Seq::<GroupItem>::empty());
        assert(groups@.map_values(|gr: SceneGroupInfo| gr@)
            =~= groups_models(items, pos, player.avatars@, initial_state()));
    }

    // The synthetic group holding the player's party.
    let mut party_list: Vec<SceneEntityInfo> = Vec::new();
    proof {
        assert(party_list@ =~= player.lineups@.take(0)
            .map_values(|su: (u32, u32)| actor_entity(su.1, pos)));
    }
    let mut li: usize = 0;
    while li < player.lineups.len()
        invariant
            li <= player.lineups@.len(),
            party_list@ == player.lineups@.take(li as int)
                .map_values(|su: (u32, u32)| actor_entity(su.1, pos)),
        decreases player.lineups@.len() - li,
    {
        let avatar_id = player.lineups[li].1;
        let e = SceneEntityInfo {
            entity_id: PLAYER_ENTITY_ID,
            group_id: 0,
            inst_id: 0,
            motion: MotionInfo {
                pos: Vector { x: pos.x, y: pos.y, z: pos.z },
                rot: Vector { x: 0, y: 0, z: 0 },
            },
            detail: EntityDetail::Actor(SceneActorInfo {
                avatar_type: AVATAR_FORMAL_TYPE,
                base_avatar_id: avatar_id,
                map_layer: ACTOR_MAP_LAYER,
                uid: ACTOR_UID,
            }),
        };
        party_list.push(e);
        proof {
            assert(e == actor_entity(player.lineups@[li as int].1, pos));
            assert(party_list@ =~= player.lineups@.take(li as int + 1)
                .map_values(|su: (u32, u32)| actor_entity(su.1, pos)));
        }
        li = li + 1;
    }
    proof {
        assert(player.lineups@.take(player.lineups@.len() as int) =~= player.lineups@);
    }
    let party = SceneGroupInfo { state: 1, group_id: 0, entity_list: party_list };

    let ghost pre_party = groups@;
    groups.push(party);

    let scene = SceneInfo {
        plane_id: player.scene.plane_id,
        floor_id: player.scene.floor_id,
        entry_id: player.scene.entry_id,
        game_mode_type: 1,
        scene_group_list: groups,
    };
    proof {
        assert(party@ == player_group_model(player.lineups@, pos));
        assert(scene.scene_group_list@.map_values(|gr: SceneGroupInfo| gr@)
            =~= pre_party.map_values(|gr: SceneGroupInfo| gr@).push(party@));
        assert(scene@ == scene_model(*player, *config, teleport_id));
    }
    Ok(scene)
}

} // verus!
