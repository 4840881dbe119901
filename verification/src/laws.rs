use vstd::prelude::*;
use crate::catalog::{find_entrance, Catalog, GroupConfig, GroupItem, Monster, Npc, Prop};
use crate::compose::{
    actor_entity, checkpoint_entity, compose_spec, group_model, group_next_state, groups_models,
    initial_state, lemma_npcs_next_bounds, lemma_total_monsters_nonneg, lemma_total_npcs_nonneg,
    lemma_total_props_nonneg, monster_entity, monsters_entities, npc_entity, npc_skipped,
    npcs_entities, npcs_next, player_group_model, prop_entity, props_entities,
    scene_model, total_monsters, total_npcs, total_props, ComposeState, ResourceNotFound,
};
use crate::motion::Position;
use crate::player::PlayerState;
use crate::scene::{
    EntityDetail, SceneModel, CHECKPOINT_ENTITY_ID, MONSTER_ENTITY_ID_BASE, NPC_ENTITY_ID_BASE,
    PLAYER_ENTITY_ID, PROP_ENTITY_ID_BASE, PROP_STATE_CHECKPOINT_ENABLE,
};

verus! {

/// Determinism law: composition is a function of the player state, the
/// catalog and the teleport choice alone, so two compositions of the
/// same inputs agree exactly.
pub proof fn lemma_compose_deterministic(
    p: PlayerState,
    c: Catalog,
    teleport_id: Option<u32>,
    r1: Result<SceneModel, ResourceNotFound>,
    r2: Result<SceneModel, ResourceNotFound>,
)
    requires
        r1 == compose_spec(p, c, teleport_id),
        r2 == compose_spec(p, c, teleport_id),
    ensures
        r1 == r2,
{
}

/// Fallback law: a player state whose entry id resolves to no catalog
/// entrance composes to the entrance-not-found error.
pub proof fn lemma_missing_entrance_fails(p: PlayerState, c: Catalog, teleport_id: Option<u32>)
    requires
        find_entrance(c.map_entrance@, p.scene.entry_id) is None,
    ensures
        compose_spec(p, c, teleport_id)
            == Err::<SceneModel, ResourceNotFound>(ResourceNotFound::Entrance),
{
}

/// What a successful composition returns: where the entrance, the
/// plane and the spawn-group configuration all resolve, the composed
/// scene is exactly the scene model of the resolved configuration, so
/// every law stated of `scene_model` holds of it.
pub proof fn lemma_compose_ok_is_scene_model(
    p: PlayerState,
    c: Catalog,
    teleport_id: Option<u32>,
    i: int,
)
    requires
        find_entrance(c.map_entrance@, p.scene.entry_id) matches Some(ent)
            && crate::catalog::plane_exists(c.maze_plane@, ent.plane_id)
            && crate::catalog::find_level_group(c.level_group@, ent.plane_id, ent.floor_id)
                == Some(i),
    ensures
        compose_spec(p, c, teleport_id)
            == Ok::<SceneModel, ResourceNotFound>(scene_model(p, c.level_group@[i].config, teleport_id)),
{
}

/// Prop entities stand at the front of a group in definition order,
/// with consecutive ids above `next`.
pub proof fn lemma_props_entities_index(props: Seq<Prop>, next: int)
    ensures
        props_entities(props, next).len() == props.len(),
        forall|k: int| 0 <= k < props.len() ==> #[trigger] props_entities(props, next)[k]
            == prop_entity(props[k], (next + 1 + k) as u32),
    decreases props.len(),
{
    if props.len() > 0 {
        lemma_props_entities_index(props.drop_first(), next + 1);
        assert forall|k: int| 0 <= k < props.len() implies #[trigger] props_entities(props, next)[k]
            == prop_entity(props[k], (next + 1 + k) as u32) by {
            if k > 0 {
                assert(props.drop_first()[k - 1] == props[k]);
                assert(props_entities(props, next)[k]
                    == props_entities(props.drop_first(), next + 1)[k - 1]);
            }
        }
    }
}

/// Monster entities stand at the back of a group in definition order,
/// with consecutive ids above `next`.
pub proof fn lemma_monsters_entities_index(monsters: Seq<Monster>, next: int)
    ensures
        monsters_entities(monsters, next).len() == monsters.len(),
        forall|k: int| 0 <= k < monsters.len() ==> #[trigger] monsters_entities(monsters, next)[k]
            == monster_entity(monsters[k], (next + 1 + k) as u32),
    decreases monsters.len(),
{
    if monsters.len() > 0 {
        lemma_monsters_entities_index(monsters.drop_first(), next + 1);
        assert forall|k: int| 0 <= k < monsters.len() implies
            #[trigger] monsters_entities(monsters, next)[k]
                == monster_entity(monsters[k], (next + 1 + k) as u32) by {
            if k > 0 {
                assert(monsters.drop_first()[k - 1] == monsters[k]);
                assert(monsters_entities(monsters, next)[k]
                    == monsters_entities(monsters.drop_first(), next + 1)[k - 1]);
            }
        }
    }
}

/// Surviving NPC entities carry consecutive ids above `next`, are NPC
/// entities, and never impersonate an owned character.
pub proof fn lemma_npcs_entities_index(npcs: Seq<Npc>, next: int, loaded: Seq<u32>, avatars: Seq<u32>)
    requires
        0 <= next,
        next + npcs.len() <= u32::MAX,
    ensures
        npcs_entities(npcs, next, loaded, avatars).len() <= npcs.len(),
        npcs_next(npcs, next, loaded, avatars)
            == next + npcs_entities(npcs, next, loaded, avatars).len(),
        forall|k: int| 0 <= k < npcs_entities(npcs, next, loaded, avatars).len() ==> {
            let e = #[trigger] npcs_entities(npcs, next, loaded, avatars)[k];
            &&& e.entity_id == next + 1 + k
            &&& e.detail is Npc
            &&& (e.detail matches EntityDetail::Npc(ni) ==> !avatars.contains(ni.npc_id))
        },
    decreases npcs.len(),
{
    if npcs.len() > 0 {
        if npc_skipped(npcs[0], loaded, avatars) {
            lemma_npcs_entities_index(npcs.drop_first(), next, loaded, avatars);
        } else {
            lemma_npcs_entities_index(
                npcs.drop_first(),
                next + 1,
                loaded.push(npcs[0].npc_id),
                avatars,
            );
            let out = npcs_entities(npcs, next, loaded, avatars);
            let rest = npcs_entities(npcs.drop_first(), next + 1, loaded.push(npcs[0].npc_id), avatars);
            assert forall|k: int| 0 <= k < out.len() implies {
                let e = #[trigger] out[k];
                &&& e.entity_id == next + 1 + k
                &&& e.detail is Npc
                &&& (e.detail matches EntityDetail::Npc(ni) ==> !avatars.contains(ni.npc_id))
            } by {
                if k == 0 {
                    assert(out[0] == npc_entity(npcs[0], (next + 1) as u32));
                } else {
                    assert(out[k] == rest[k - 1]);
                }
            }
        }
    }
}

/// Composition state before group `gi` of a run of spawn groups.
pub open spec fn state_at(items: Seq<GroupItem>, avatars: Seq<u32>, st: ComposeState, gi: int)
    -> ComposeState
    decreases gi,
{
    if gi <= 0 {
        st
    } else {
        state_at(items.drop_first(), avatars, group_next_state(items[0], avatars, st), gi - 1)
    }
}

/// Stepping the composition state: the state before group `gi + 1` is
/// the state before group `gi` advanced over group `gi`.
pub proof fn lemma_state_at_step(items: Seq<GroupItem>, avatars: Seq<u32>, st: ComposeState, gi: int)
    requires
        0 <= gi < items.len(),
    ensures
        state_at(items, avatars, st, gi + 1)
            == group_next_state(items[gi], avatars, state_at(items, avatars, st, gi)),
    decreases gi,
{
    if gi == 0 {
        assert(state_at(items, avatars, st, 1)
            == state_at(items.drop_first(), avatars, group_next_state(items[0], avatars, st), 0));
    } else {
        assert(items.drop_first()[gi - 1] == items[gi]);
        assert(state_at(items, avatars, st, gi + 1)
            == state_at(items.drop_first(), avatars, group_next_state(items[0], avatars, st), gi));
        assert(state_at(items, avatars, st, gi)
            == state_at(items.drop_first(), avatars, group_next_state(items[0], avatars, st),
                gi - 1));
        lemma_state_at_step(
            items.drop_first(),
            avatars,
            group_next_state(items[0], avatars, st),
            gi - 1,
        );
    }
}

/// Each composed group of a run is the model of its spawn group under
/// the state reached before it.
pub proof fn lemma_groups_models_index(
    items: Seq<GroupItem>,
    pos: Position,
    avatars: Seq<u32>,
    st: ComposeState,
)
    ensures
        groups_models(items, pos, avatars, st).len() == items.len(),
        forall|gi: int| 0 <= gi < items.len() ==> #[trigger] groups_models(items, pos, avatars, st)[gi]
            == group_model(items[gi], pos, avatars, state_at(items, avatars, st, gi)),
    decreases items.len(),
{
    if items.len() > 0 {
        lemma_groups_models_index(
            items.drop_first(),
            pos,
            avatars,
            group_next_state(items[0], avatars, st),
        );
        assert forall|gi: int| 0 <= gi < items.len() implies
            #[trigger] groups_models(items, pos, avatars, st)[gi]
                == group_model(items[gi], pos, avatars, state_at(items, avatars, st, gi)) by {
            if gi > 0 {
                assert(items.drop_first()[gi - 1] == items[gi]);
                assert(groups_models(items, pos, avatars, st)[gi]
                    == groups_models(items.drop_first(), pos, avatars,
                        group_next_state(items[0], avatars, st))[gi - 1]);
            }
        }
    }
}

/// The id counters never move backwards from one group to a later one.
pub proof fn lemma_state_at_mono(
    items: Seq<GroupItem>,
    avatars: Seq<u32>,
    st: ComposeState,
    a: int,
    b: int,
)
    requires
        0 <= a <= b <= items.len(),
    ensures
        state_at(items, avatars, st, a).prop_next <= state_at(items, avatars, st, b).prop_next,
        state_at(items, avatars, st, a).npc_next <= state_at(items, avatars, st, b).npc_next,
        state_at(items, avatars, st, a).monster_next
            <= state_at(items, avatars, st, b).monster_next,
    decreases b - a,
{
    if a < b {
        let sa = state_at(items, avatars, st, a);
        lemma_state_at_step(items, avatars, st, a);
        lemma_total_props_nonneg(items);
        lemma_npcs_next_bounds(items[a].npcs@, sa.npc_next, sa.loaded_npc, avatars);
        lemma_state_at_mono(items, avatars, st, a + 1, b);
    }
}

/// Where the id counters stand before group `gi`, relative to the
/// totals of the whole run: each counter has moved by what the groups
/// before `gi` contributed and has the rest still ahead of it.
pub proof fn lemma_state_at_range(items: Seq<GroupItem>, avatars: Seq<u32>, st: ComposeState, gi: int)
    requires
        0 <= gi <= items.len(),
    ensures
        state_at(items, avatars, st, gi).prop_next + total_props(items.skip(gi))
            == st.prop_next + total_props(items),
        state_at(items, avatars, st, gi).npc_next + total_npcs(items.skip(gi))
            <= st.npc_next + total_npcs(items),
        state_at(items, avatars, st, gi).monster_next + total_monsters(items.skip(gi))
            == st.monster_next + total_monsters(items),
        st.prop_next <= state_at(items, avatars, st, gi).prop_next,
        st.npc_next <= state_at(items, avatars, st, gi).npc_next,
        st.monster_next <= state_at(items, avatars, st, gi).monster_next,
    decreases gi,
{
    if gi == 0 {
        assert(items.skip(0) =~= items);
    } else {
        lemma_state_at_range(items, avatars, st, gi - 1);
        lemma_state_at_step(items, avatars, st, gi - 1);
        let sp = state_at(items, avatars, st, gi - 1);
        assert(items.skip(gi - 1).drop_first() =~= items.skip(gi));
        assert(items.skip(gi - 1)[0] == items[gi - 1]);
        assert(total_props(items.skip(gi - 1))
            == items[gi - 1].props@.len() + total_props(items.skip(gi)));
        assert(total_npcs(items.skip(gi - 1))
            == items[gi - 1].npcs@.len() + total_npcs(items.skip(gi)));
        assert(total_monsters(items.skip(gi - 1))
            == items[gi - 1].monsters@.len() + total_monsters(items.skip(gi)));
        lemma_npcs_next_bounds(items[gi - 1].npcs@, sp.npc_next, sp.loaded_npc, avatars);
    }
}

/// Placement of the entity at index `e` of composed group `gi`: which
/// segment it falls in, its exact value or id, and how its id relates
/// to the counters before and after the group. `st` and `stn` are the
/// states before groups `gi` and `gi + 1`.
pub proof fn lemma_group_entity_info(
    items: Seq<GroupItem>,
    pos: Position,
    avatars: Seq<u32>,
    gi: int,
    e: int,
)
    requires
        0 <= gi < items.len(),
        PROP_ENTITY_ID_BASE + total_props(items) <= u32::MAX,
        NPC_ENTITY_ID_BASE + total_npcs(items) <= u32::MAX,
        MONSTER_ENTITY_ID_BASE + total_monsters(items) <= u32::MAX,
        0 <= e < group_model(
            items[gi],
            pos,
            avatars,
            state_at(items, avatars, initial_state(), gi),
        ).entities.len(),
    ensures
        ({
            let st = state_at(items, avatars, initial_state(), gi);
            let stn = state_at(items, avatars, initial_state(), gi + 1);
            let gm = group_model(items[gi], pos, avatars, st);
            let p_len = items[gi].props@.len() as int;
            let n_len = npcs_entities(items[gi].npcs@, st.npc_next, st.loaded_npc, avatars).len()
                as int;
            let ent = gm.entities[e];
            &&& gm.entities.len() == p_len + 1 + n_len + items[gi].monsters@.len()
            &&& (e < p_len ==> ent == prop_entity(
                items[gi].props@[e],
                (st.prop_next + 1 + e) as u32,
            ) && ent.entity_id == st.prop_next + 1 + e
                && st.prop_next + 1 + e <= stn.prop_next)
            &&& (e == p_len ==> ent == checkpoint_entity(pos))
            &&& (p_len < e <= p_len + n_len ==> ent.entity_id == st.npc_next + (e - p_len)
                && ent.detail is Npc && stn.npc_next == st.npc_next + n_len
                && (ent.detail matches EntityDetail::Npc(ni) ==> !avatars.contains(ni.npc_id)))
            &&& (e > p_len + n_len ==> ent == monster_entity(
                items[gi].monsters@[e - p_len - 1 - n_len],
                (st.monster_next + (e - p_len - n_len)) as u32,
            ) && ent.entity_id == st.monster_next + (e - p_len - n_len)
                && st.monster_next + (e - p_len - n_len) <= stn.monster_next)
        }),
{
    let st = state_at(items, avatars, initial_state(), gi);
    let stn = state_at(items, avatars, initial_state(), gi + 1);
    let gm = group_model(items[gi], pos, avatars, st);
    let props_seq = props_entities(items[gi].props@, st.prop_next);
    let npcs_seq = npcs_entities(items[gi].npcs@, st.npc_next, st.loaded_npc, avatars);
    let monsters_seq = monsters_entities(items[gi].monsters@, st.monster_next);
    let p_len = items[gi].props@.len() as int;
    let n_len = npcs_seq.len() as int;

    lemma_state_at_step(items, avatars, initial_state(), gi);
    lemma_state_at_range(items, avatars, initial_state(), gi);
    assert(items.skip(gi).drop_first() =~= items.skip(gi + 1));
    assert(items.skip(gi)[0] == items[gi]);
    lemma_total_props_nonneg(items.skip(gi + 1));
    lemma_total_npcs_nonneg(items.skip(gi + 1));
    lemma_total_monsters_nonneg(items.skip(gi + 1));
    assert(total_props(items.skip(gi))
        == items[gi].props@.len() + total_props(items.skip(gi + 1)));
    assert(total_npcs(items.skip(gi))
        == items[gi].npcs@.len() + total_npcs(items.skip(gi + 1)));
    assert(total_monsters(items.skip(gi))
        == items[gi].monsters@.len() + total_monsters(items.skip(gi + 1)));
    lemma_total_props_nonneg(items);
    lemma_total_npcs_nonneg(items);
    lemma_total_monsters_nonneg(items);
    assert(st.prop_next + items[gi].props@.len() <= PROP_ENTITY_ID_BASE + total_props(items));
    assert(st.npc_next + items[gi].npcs@.len() <= NPC_ENTITY_ID_BASE + total_npcs(items));
    assert(st.monster_next + items[gi].monsters@.len()
        <= MONSTER_ENTITY_ID_BASE + total_monsters(items));

    lemma_props_entities_index(items[gi].props@, st.prop_next);
    lemma_npcs_entities_index(items[gi].npcs@, st.npc_next, st.loaded_npc, avatars);
    lemma_monsters_entities_index(items[gi].monsters@, st.monster_next);

    assert(gm.entities == props_seq + seq![checkpoint_entity(pos)] + npcs_seq + monsters_seq);
    if e < p_len {
        assert(gm.entities[e] == props_seq[e]);
        assert(0 <= st.prop_next + 1 + e <= u32::MAX);
        assert(prop_entity(items[gi].props@[e], (st.prop_next + 1 + e) as u32).entity_id
            == st.prop_next + 1 + e);
    } else if e == p_len {
        assert(gm.entities[e] == checkpoint_entity(pos));
    } else if e <= p_len + n_len {
        assert(gm.entities[e] == npcs_seq[e - p_len - 1]);
    } else {
        let k = e - p_len - 1 - n_len;
        assert(gm.entities[e] == monsters_seq[k]);
        assert(0 <= st.monster_next + 1 + k <= u32::MAX);
        assert(monster_entity(items[gi].monsters@[k], (st.monster_next + 1 + k) as u32).entity_id
            == st.monster_next + 1 + k);
    }
}

/// Every entity of the party group carries the reserved shared id and
/// an actor payload.
pub proof fn lemma_party_entities(lineups: Seq<(u32, u32)>, pos: Position, e: int)
    requires
        0 <= e < player_group_model(lineups, pos).entities.len(),
    ensures
        player_group_model(lineups, pos).entities[e]
            == actor_entity(lineups[e].1, pos),
        player_group_model(lineups, pos).entities[e].entity_id == PLAYER_ENTITY_ID,
{
    assert(player_group_model(lineups, pos).entities[e] == actor_entity(lineups[e].1, pos));
}

/// Uniqueness law: within one composed scene, any two entities whose
/// ids are neither the reserved party id (shared by the player's own
/// party) nor the fixed checkpoint-marker id (repeated once per group)
/// carry distinct ids. The count bounds keep the prop, NPC and monster
/// id ranges from running into one another.
pub proof fn lemma_scene_entity_ids_unique(
    p: PlayerState,
    cfg: GroupConfig,
    teleport_id: Option<u32>,
    g1: int,
    e1: int,
    g2: int,
    e2: int,
)
    requires
        total_props(cfg.group_items@) <= 19000,
        total_npcs(cfg.group_items@) <= 10000,
        MONSTER_ENTITY_ID_BASE + total_monsters(cfg.group_items@) <= u32::MAX,
        0 <= g1 < scene_model(p, cfg, teleport_id).groups.len(),
        0 <= e1 < scene_model(p, cfg, teleport_id).groups[g1].entities.len(),
        0 <= g2 < scene_model(p, cfg, teleport_id).groups.len(),
        0 <= e2 < scene_model(p, cfg, teleport_id).groups[g2].entities.len(),
        g1 != g2 || e1 != e2,
        scene_model(p, cfg, teleport_id).groups[g1].entities[e1].entity_id != PLAYER_ENTITY_ID,
        scene_model(p, cfg, teleport_id).groups[g1].entities[e1].entity_id != CHECKPOINT_ENTITY_ID,
        scene_model(p, cfg, teleport_id).groups[g2].entities[e2].entity_id != PLAYER_ENTITY_ID,
        scene_model(p, cfg, teleport_id).groups[g2].entities[e2].entity_id != CHECKPOINT_ENTITY_ID,
    ensures
        scene_model(p, cfg, teleport_id).groups[g1].entities[e1].entity_id
            != scene_model(p, cfg, teleport_id).groups[g2].entities[e2].entity_id,
{
    let m = scene_model(p, cfg, teleport_id);
    let items = cfg.group_items@;
    let pos = crate::compose::effective_position(p, cfg, teleport_id);
    let av = p.avatars@;
    lemma_groups_models_index(items, pos, av, initial_state());
    lemma_total_props_nonneg(items);
    lemma_total_npcs_nonneg(items);
    lemma_total_monsters_nonneg(items);
    assert(m.groups.len() == items.len() + 1);

    if g1 == items.len() {
        lemma_party_entities(p.lineups@, pos, e1);
        assert(false);
    }
    if g2 == items.len() {
        lemma_party_entities(p.lineups@, pos, e2);
        assert(false);
    }

    lemma_entity_id_in_category(items, pos, av, g1, e1);
    lemma_entity_id_in_category(items, pos, av, g2, e2);

    let id1 = m.groups[g1].entities[e1].entity_id as int;
    let id2 = m.groups[g2].entities[e2].entity_id as int;

    if g1 == g2 && e1 != e2 {
        lemma_same_group_distinct(items, pos, av, g1, e1, e2);
    } else if g1 != g2 {
        if g1 < g2 {
            lemma_cross_group_distinct(items, pos, av, g1, e1, g2, e2);
        } else {
            lemma_cross_group_distinct(items, pos, av, g2, e2, g1, e1);
        }
    }
}

/// The id of a non-marker entity lies in its category's range: props
/// above the prop base up to the prop total, NPCs and monsters alike.
proof fn lemma_entity_id_in_category(
    items: Seq<GroupItem>,
    pos: Position,
    avatars: Seq<u32>,
    g: int,
    e: int,
)
    requires
        total_props(items) <= 19000,
        total_npcs(items) <= 10000,
        MONSTER_ENTITY_ID_BASE + total_monsters(items) <= u32::MAX,
        0 <= g < items.len(),
        0 <= e < group_model(items[g], pos, avatars, state_at(items, avatars, initial_state(), g))
            .entities.len(),
    ensures
        ({
            let gm = group_model(items[g], pos, avatars, state_at(items, avatars, initial_state(), g));
            let id = gm.entities[e].entity_id as int;
            id != PLAYER_ENTITY_ID && id != CHECKPOINT_ENTITY_ID ==> {
                ||| (gm.entities[e].detail is Prop
                    && PROP_ENTITY_ID_BASE < id <= PROP_ENTITY_ID_BASE + total_props(items))
                ||| (gm.entities[e].detail is Npc
                    && NPC_ENTITY_ID_BASE < id <= NPC_ENTITY_ID_BASE + total_npcs(items))
                ||| (gm.entities[e].detail is NpcMonster
                    && MONSTER_ENTITY_ID_BASE < id
                        <= MONSTER_ENTITY_ID_BASE + total_monsters(items))
            }
        }),
{
    lemma_group_entity_info(items, pos, avatars, g, e);
    lemma_state_at_range(items, avatars, initial_state(), g);
    lemma_state_at_range(items, avatars, initial_state(), g + 1);
    lemma_total_props_nonneg(items.skip(g));
    lemma_total_npcs_nonneg(items.skip(g));
    lemma_total_monsters_nonneg(items.skip(g));
    lemma_total_props_nonneg(items.skip(g + 1));
    lemma_total_npcs_nonneg(items.skip(g + 1));
    lemma_total_monsters_nonneg(items.skip(g + 1));
    lemma_state_at_mono(items, avatars, initial_state(), g, g + 1);
}

/// Two distinct non-marker entities of the same composed group have
/// distinct ids.
proof fn lemma_same_group_distinct(
    items: Seq<GroupItem>,
    pos: Position,
    avatars: Seq<u32>,
    g: int,
    e1: int,
    e2: int,
)
    requires
        total_props(items) <= 19000,
        total_npcs(items) <= 10000,
        MONSTER_ENTITY_ID_BASE + total_monsters(items) <= u32::MAX,
        0 <= g < items.len(),
        0 <= e1 < group_model(items[g], pos, avatars, state_at(items, avatars, initial_state(), g))
            .entities.len(),
        0 <= e2 < group_model(items[g], pos, avatars, state_at(items, avatars, initial_state(), g))
            .entities.len(),
        e1 != e2,
        group_model(items[g], pos, avatars, state_at(items, avatars, initial_state(), g))
            .entities[e1].entity_id != PLAYER_ENTITY_ID,
        group_model(items[g], pos, avatars, state_at(items, avatars, initial_state(), g))
            .entities[e1].entity_id != CHECKPOINT_ENTITY_ID,
        group_model(items[g], pos, avatars, state_at(items, avatars, initial_state(), g))
            .entities[e2].entity_id != PLAYER_ENTITY_ID,
        group_model(items[g], pos, avatars, state_at(items, avatars, initial_state(), g))
            .entities[e2].entity_id != CHECKPOINT_ENTITY_ID,
    ensures
        group_model(items[g], pos, avatars, state_at(items, avatars, initial_state(), g))
            .entities[e1].entity_id
            != group_model(items[g], pos, avatars, state_at(items, avatars, initial_state(), g))
                .entities[e2].entity_id,
{
    lemma_group_entity_info(items, pos, avatars, g, e1);
    lemma_group_entity_info(items, pos, avatars, g, e2);
    lemma_entity_id_in_category(items, pos, avatars, g, e1);
    lemma_entity_id_in_category(items, pos, avatars, g, e2);
    lemma_state_at_range(items, avatars, initial_state(), g);
    lemma_total_props_nonneg(items.skip(g));
    lemma_total_npcs_nonneg(items.skip(g));
    lemma_total_monsters_nonneg(items.skip(g));
}

/// Two non-marker entities of different composed groups have distinct
/// ids: within one category the counter only moves forward, and the
/// categories' ranges are disjoint.
proof fn lemma_cross_group_distinct(
    items: Seq<GroupItem>,
    pos: Position,
    avatars: Seq<u32>,
    g1: int,
    e1: int,
    g2: int,
    e2: int,
)
    requires
        total_props(items) <= 19000,
        total_npcs(items) <= 10000,
        MONSTER_ENTITY_ID_BASE + total_monsters(items) <= u32::MAX,
        0 <= g1 < g2 < items.len(),
        0 <= e1 < group_model(items[g1], pos, avatars, state_at(items, avatars, initial_state(), g1))
            .entities.len(),
        0 <= e2 < group_model(items[g2], pos, avatars, state_at(items, avatars, initial_state(), g2))
            .entities.len(),
        group_model(items[g1], pos, avatars, state_at(items, avatars, initial_state(), g1))
            .entities[e1].entity_id != PLAYER_ENTITY_ID,
        group_model(items[g1], pos, avatars, state_at(items, avatars, initial_state(), g1))
            .entities[e1].entity_id != CHECKPOINT_ENTITY_ID,
        group_model(items[g2], pos, avatars, state_at(items, avatars, initial_state(), g2))
            .entities[e2].entity_id != PLAYER_ENTITY_ID,
        group_model(items[g2], pos, avatars, state_at(items, avatars, initial_state(), g2))
            .entities[e2].entity_id != CHECKPOINT_ENTITY_ID,
    ensures
        group_model(items[g1], pos, avatars, state_at(items, avatars, initial_state(), g1))
            .entities[e1].entity_id
            != group_model(items[g2], pos, avatars, state_at(items, avatars, initial_state(), g2))
                .entities[e2].entity_id,
{
    lemma_group_entity_info(items, pos, avatars, g1, e1);
    lemma_group_entity_info(items, pos, avatars, g2, e2);
    lemma_entity_id_in_category(items, pos, avatars, g1, e1);
    lemma_entity_id_in_category(items, pos, avatars, g2, e2);
    lemma_state_at_mono(items, avatars, initial_state(), g1 + 1, g2);
    lemma_state_at_range(items, avatars, initial_state(), g1);
    lemma_state_at_range(items, avatars, initial_state(), g2);
    lemma_total_props_nonneg(items.skip(g1));
    lemma_total_npcs_nonneg(items.skip(g1));
    lemma_total_monsters_nonneg(items.skip(g1));
    lemma_total_props_nonneg(items.skip(g2));
    lemma_total_npcs_nonneg(items.skip(g2));
    lemma_total_monsters_nonneg(items.skip(g2));
}

/// Dedup law: no NPC entity of a composed scene carries a catalog
/// identifier from the player's owned-avatars set.
pub proof fn lemma_owned_avatar_never_npc(
    p: PlayerState,
    cfg: GroupConfig,
    teleport_id: Option<u32>,
    g: int,
    e: int,
)
    requires
        PROP_ENTITY_ID_BASE + total_props(cfg.group_items@) <= u32::MAX,
        NPC_ENTITY_ID_BASE + total_npcs(cfg.group_items@) <= u32::MAX,
        MONSTER_ENTITY_ID_BASE + total_monsters(cfg.group_items@) <= u32::MAX,
        0 <= g < scene_model(p, cfg, teleport_id).groups.len(),
        0 <= e < scene_model(p, cfg, teleport_id).groups[g].entities.len(),
    ensures
        scene_model(p, cfg, teleport_id).groups[g].entities[e].detail
            matches EntityDetail::Npc(ni) ==> !p.avatars@.contains(ni.npc_id),
{
    let items = cfg.group_items@;
    let pos = crate::compose::effective_position(p, cfg, teleport_id);
    let av = p.avatars@;
    lemma_groups_models_index(items, pos, av, initial_state());
    if g < items.len() {
        lemma_group_entity_info(items, pos, av, g, e);
    } else {
        lemma_party_entities(p.lineups@, pos, e);
    }
}

/// Checkpoint-override law: a prop whose allowed-state list contains
/// the checkpoint-enabled marker always reports that state in the
/// composed scene, whatever its stored state; and every prop position
/// passes into the scene unchanged.
pub proof fn lemma_checkpoint_override(
    p: PlayerState,
    cfg: GroupConfig,
    teleport_id: Option<u32>,
    g: int,
    e: int,
)
    requires
        PROP_ENTITY_ID_BASE + total_props(cfg.group_items@) <= u32::MAX,
        NPC_ENTITY_ID_BASE + total_npcs(cfg.group_items@) <= u32::MAX,
        MONSTER_ENTITY_ID_BASE + total_monsters(cfg.group_items@) <= u32::MAX,
        0 <= g < cfg.group_items@.len(),
        0 <= e < cfg.group_items@[g].props@.len(),
    ensures
        ({
            let ent = scene_model(p, cfg, teleport_id).groups[g].entities[e];
            let prop = cfg.group_items@[g].props@[e];
            &&& ent.detail matches EntityDetail::Prop(pi) && pi.prop_id == prop.prop_id
                && pi.prop_state == (if prop.state_list@.contains(PROP_STATE_CHECKPOINT_ENABLE) {
                    PROP_STATE_CHECKPOINT_ENABLE
                } else {
                    prop.state
                })
            &&& ent.motion == prop.pos.to_motion_spec()
        }),
{
    let items = cfg.group_items@;
    let pos = crate::compose::effective_position(p, cfg, teleport_id);
    let av = p.avatars@;
    lemma_groups_models_index(items, pos, av, initial_state());
    let st = state_at(items, av, initial_state(), g);
    lemma_props_entities_index(items[g].props@, st.prop_next);
    assert(group_model(items[g], pos, av, st).entities.len() >= items[g].props@.len());
    lemma_group_entity_info(items, pos, av, g, e);
}

} // verus!
