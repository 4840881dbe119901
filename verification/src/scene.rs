use vstd::prelude::*;
use crate::motion::MotionInfo;

verus! {

/// Synthetic prop entity ids are assigned above this base.
pub const PROP_ENTITY_ID_BASE: u32 = 1000;
/// Synthetic NPC entity ids are assigned above this base.
pub const NPC_ENTITY_ID_BASE: u32 = 20000;
/// Synthetic monster entity ids are assigned above this base.
pub const MONSTER_ENTITY_ID_BASE: u32 = 30000;
/// Reserved entity id shared by every member of the player's own party.
pub const PLAYER_ENTITY_ID: u32 = 0;

/// Fixed entity id of the checkpoint marker appended to every group.
pub const CHECKPOINT_ENTITY_ID: u32 = 1337;
/// Reserved catalog group id carried by the checkpoint marker.
pub const CHECKPOINT_GROUP_ID: u32 = 186;
/// Instance id carried by the checkpoint marker.
pub const CHECKPOINT_INST_ID: u32 = 300001;
/// Prop id carried by the checkpoint marker.
pub const CHECKPOINT_PROP_ID: u32 = 808;

/// Catalog state code that marks a prop as a checkpoint-enabled prop.
pub const PROP_STATE_CHECKPOINT_ENABLE: u32 = 8;
/// Fixed world level carried by every monster entity.
pub const MONSTER_WORLD_LEVEL: u32 = 6;
/// Avatar type code of a formally owned party member.
pub const AVATAR_FORMAL_TYPE: u32 = 1;
/// Map layer carried by every party member entity.
pub const ACTOR_MAP_LAYER: u32 = 2;
/// Fixed uid carried by every party member entity.
pub const ACTOR_UID: u32 = 1337;

/// Prop payload of a scene entity.
#[derive(Clone, Copy, PartialEq, Eq, Debug)]
pub struct ScenePropInfo {
    pub prop_id: u32,
    pub prop_state: u32,
}

/// NPC payload of a scene entity.
#[derive(Clone, Copy, PartialEq, Eq, Debug)]
pub struct SceneNpcInfo {
    pub npc_id: u32,
}

/// Monster payload of a scene entity.
#[derive(Clone, Copy, PartialEq, Eq, Debug)]
pub struct SceneNpcMonsterInfo {
    pub monster_id: u32,
    pub event_id: u32,
    pub world_level: u32,
}

/// Party member payload of a scene entity.
#[derive(Clone, Copy, PartialEq, Eq, Debug)]
pub struct SceneActorInfo {
    pub avatar_type: u32,
    pub base_avatar_id: u32,
    pub map_layer: u32,
    pub uid: u32,
}

/// The kind-specific payload of a scene entity: exactly one kind is
/// present by construction.
#[derive(Clone, Copy, PartialEq, Eq, Debug)]
pub enum EntityDetail {
    Prop(ScenePropInfo),
    Npc(SceneNpcInfo),
    NpcMonster(SceneNpcMonsterInfo),
    Actor(SceneActorInfo),
}

/// One placeable object of a composed scene.
#[derive(Clone, Copy, PartialEq, Eq, Debug)]
pub struct SceneEntityInfo {
    /// Synthetic id assigned during composition.
    pub entity_id: u32,
    /// Group id recorded in the catalog for this entity.
    pub group_id: u32,
    /// Source identifier from the resource catalog.
    pub inst_id: u32,
    pub motion: MotionInfo,
    pub detail: EntityDetail,
}

/// One instantiated group of a composed scene.
#[derive(Clone, PartialEq, Eq, Debug)]
pub struct SceneGroupInfo {
    pub state: u32,
    pub group_id: u32,
    pub entity_list: Vec<SceneEntityInfo>,
}

/// Mathematical model of a scene group.
pub ghost struct SceneGroupModel {
    pub state: u32,
    pub group_id: u32,
    pub entities: Seq<SceneEntityInfo>,
}

impl View for SceneGroupInfo {
    type V = SceneGroupModel;

    open spec fn view(&self) -> SceneGroupModel {
        SceneGroupModel { state: self.state, group_id: self.group_id, entities: self.entity_list@ }
    }
}

/// The full scene a client must render at its current location.
#[derive(Clone, PartialEq, Eq, Debug)]
pub struct SceneInfo {
    pub plane_id: u32,
    pub floor_id: u32,
    pub entry_id: u32,
    pub game_mode_type: u32,
    pub scene_group_list: Vec<SceneGroupInfo>,
}

/// Mathematical model of a composed scene.
pub ghost struct SceneModel {
    pub plane_id: u32,
    pub floor_id: u32,
    pub entry_id: u32,
    pub game_mode_type: u32,
    pub groups: Seq<SceneGroupModel>,
}

impl View for SceneInfo {
    type V = SceneModel;

    open spec fn view(&self) -> SceneModel {
        SceneModel {
            plane_id: self.plane_id,
            floor_id: self.floor_id,
            entry_id: self.entry_id,
            game_mode_type: self.game_mode_type,
            groups: self.scene_group_list@.map_values(|g: SceneGroupInfo| g@),
        }
    }
}

} // verus!
