use vstd::prelude::*;
use crate::motion::Position;

verus! {

/// One prop definition of a spawn group.
#[derive(Clone, PartialEq, Eq, Debug)]
pub struct Prop {
    /// Source identifier inside the catalog.
    pub id: u32,
    pub group_id: u32,
    pub prop_id: u32,
    pub pos: Position,
    /// Stored display state.
    pub state: u32,
    /// States this prop is allowed to take.
    pub state_list: Vec<u32>,
}

/// One NPC definition of a spawn group.
#[derive(Clone, Copy, PartialEq, Eq, Debug)]
pub struct Npc {
    pub id: u32,
    pub group_id: u32,
    pub npc_id: u32,
    pub pos: Position,
}

/// One monster definition of a spawn group.
#[derive(Clone, Copy, PartialEq, Eq, Debug)]
pub struct Monster {
    pub id: u32,
    pub group_id: u32,
    pub monster_id: u32,
    pub event_id: u32,
    pub pos: Position,
}

/// A named fixed point in space used as a teleport destination.
#[derive(Clone, Copy, PartialEq, Eq, Debug)]
pub struct Anchor {
    pub id: u32,
    pub pos: Position,
}

/// A teleport definition referencing an anchor inside some group.
#[derive(Clone, Copy, PartialEq, Eq, Debug)]
pub struct Teleport {
    pub id: u32,
    pub anchor_group_id: Option<u32>,
    pub anchor_id: Option<u32>,
}

/// One spawn group: a cluster of props, NPCs, monsters and anchors that
/// is instantiated together.
#[derive(Clone, PartialEq, Eq, Debug)]
pub struct GroupItem {
    pub group_id: u32,
    pub props: Vec<Prop>,
    pub npcs: Vec<Npc>,
    pub monsters: Vec<Monster>,
    pub anchors: Vec<Anchor>,
}

/// The spawn-group configuration of one plane and floor, in the
/// catalog's stored order.
#[derive(Clone, PartialEq, Eq, Debug)]
pub struct GroupConfig {
    pub group_items: Vec<GroupItem>,
    pub teleports: Vec<Teleport>,
}

/// A map entrance: resolves an entry point to its plane and floor.
#[derive(Clone, Copy, PartialEq, Eq, Debug)]
pub struct MapEntrance {
    pub entry_id: u32,
    pub plane_id: u32,
    pub floor_id: u32,
}

/// The spawn-group configuration of one plane and floor.
#[derive(Clone, PartialEq, Eq, Debug)]
pub struct LevelGroup {
    pub plane_id: u32,
    pub floor_id: u32,
    pub config: GroupConfig,
}

/// The static resource catalog: read-only tables loaded once at
/// process start and shared by every session.
#[derive(Clone, PartialEq, Eq, Debug)]
pub struct Catalog {
    pub map_entrance: Vec<MapEntrance>,
    /// Plane ids that exist; composition only checks membership.
    pub maze_plane: Vec<u32>,
    pub level_group: Vec<LevelGroup>,
}

/// First entrance stored under this entry id, if any.
pub open spec fn find_entrance(s: Seq<MapEntrance>, entry_id: u32) -> Option<MapEntrance>
    decreases s.len(),
{
    if s.len() == 0 {
        None
    } else if s[0].entry_id == entry_id {
        Some(s[0])
    } else {
        find_entrance(s.drop_first(), entry_id)
    }
}

/// Whether the plane table holds this plane id.
pub open spec fn plane_exists(s: Seq<u32>, plane_id: u32) -> bool {
    s.contains(plane_id)
}

/// Index of the first level-group entry stored under this plane and
/// floor, if any.
pub open spec fn find_level_group(s: Seq<LevelGroup>, plane_id: u32, floor_id: u32) -> Option<int>
    decreases s.len(),
{
    if s.len() == 0 {
        None
    } else if s[0].plane_id == plane_id && s[0].floor_id == floor_id {
        Some(0)
    } else {
        match find_level_group(s.drop_first(), plane_id, floor_id) {
            Some(i) => Some(i + 1),
            None => None,
        }
    }
}

/// First teleport stored under this teleport id, if any.
pub open spec fn find_teleport(s: Seq<Teleport>, teleport_id: u32) -> Option<Teleport>
    decreases s.len(),
{
    if s.len() == 0 {
        None
    } else if s[0].id == teleport_id {
        Some(s[0])
    } else {
        find_teleport(s.drop_first(), teleport_id)
    }
}

/// Index of the first group stored under this group id, if any.
pub open spec fn find_group_item(s: Seq<GroupItem>, group_id: u32) -> Option<int>
    decreases s.len(),
{
    if s.len() == 0 {
        None
    } else if s[0].group_id == group_id {
        Some(0)
    } else {
        match find_group_item(s.drop_first(), group_id) {
            Some(i) => Some(i + 1),
            None => None,
        }
    }
}

/// First anchor stored under this anchor id, if any.
pub open spec fn find_anchor(s: Seq<Anchor>, anchor_id: u32) -> Option<Anchor>
    decreases s.len(),
{
    if s.len() == 0 {
        None
    } else if s[0].id == anchor_id {
        Some(s[0])
    } else {
        find_anchor(s.drop_first(), anchor_id)
    }
}

impl Catalog {
    /// Entrance lookup of the catalog interface.
    pub fn get_entrance(&self, entry_id: u32) -> (r: Option<MapEntrance>)
        ensures
            r == find_entrance(self.map_entrance@, entry_id),
    {
        let n = self.map_entrance.len();
        proof {
            assert(self.map_entrance@.skip(0) =~= self.map_entrance@);
        }
        let mut i: usize = 0;
        while i < n
            invariant
                i <= n,
                n == self.map_entrance@.len(),
                find_entrance(self.map_entrance@, entry_id)
                    == find_entrance(self.map_entrance@.skip(i as int), entry_id),
            decreases n - i,
        {
            proof {
                assert(self.map_entrance@.skip(i as int).drop_first()
                    =~= self.map_entrance@.skip(i as int + 1));
            }
            if self.map_entrance[i].entry_id == entry_id {
                return Some(self.map_entrance[i]);
            }
            i = i + 1;
        }
        None
    }

    /// Plane existence check of the catalog interface.
    pub fn has_plane(&self, plane_id: u32) -> (r: bool)
        ensures
            r == plane_exists(self.maze_plane@, plane_id),
    {
        let n = self.maze_plane.len();
        let mut i: usize = 0;
        while i < n
            invariant
                i <= n,
                n == self.maze_plane@.len(),
                forall|k: int| 0 <= k < i ==> self.maze_plane@[k] != plane_id,
            decreases n - i,
        {
            if self.maze_plane[i] == plane_id {
                return true;
            }
            i = i + 1;
        }
        false
    }

    /// Group-configuration lookup of the catalog interface: the index of
    /// the level-group entry for this plane and floor.
    pub fn get_level_group(&self, plane_id: u32, floor_id: u32) -> (r: Option<usize>)
        ensures
            match r {
                Some(i) => find_level_group(self.level_group@, plane_id, floor_id) == Some(i as int)
                    && i < self.level_group@.len(),
                None => find_level_group(self.level_group@, plane_id, floor_id) is None,
            },
    {
        let n = self.level_group.len();
        proof {
            assert(self.level_group@.skip(0) =~= self.level_group@);
        }
        let mut i: usize = 0;
        while i < n
            invariant
                i <= n,
                n == self.level_group@.len(),
                find_level_group(self.level_group@, plane_id, floor_id)
                    == match find_level_group(self.level_group@.skip(i as int), plane_id, floor_id) {
                        Some(j) => Some(i + j),
                        None => None,
                    },
            decreases n - i,
        {
            proof {
                assert(self.level_group@.skip(i as int).drop_first()
                    =~= self.level_group@.skip(i as int + 1));
            }
            let lg = &self.level_group[i];
            if lg.plane_id == plane_id && lg.floor_id == floor_id {
                return Some(i);
            }
            i = i + 1;
        }
        None
    }
}

impl GroupConfig {
    /// First teleport stored under this teleport id.
    pub fn get_teleport(&self, teleport_id: u32) -> (r: Option<Teleport>)
        ensures
            r == find_teleport(self.teleports@, teleport_id),
    {
        let n = self.teleports.len();
        proof {
            assert(self.teleports@.skip(0) =~= self.teleports@);
        }
        let mut i: usize = 0;
        while i < n
            invariant
                i <= n,
                n == self.teleports@.len(),
                find_teleport(self.teleports@, teleport_id)
                    == find_teleport(self.teleports@.skip(i as int), teleport_id),
            decreases n - i,
        {
            proof {
                assert(self.teleports@.skip(i as int).drop_first()
                    =~= self.teleports@.skip(i as int + 1));
            }
            if self.teleports[i].id == teleport_id {
                return Some(self.teleports[i]);
            }
            i = i + 1;
        }
        None
    }

    /// Index of the first group stored under this group id.
    pub fn get_group_item(&self, group_id: u32) -> (r: Option<usize>)
        ensures
            match r {
                Some(i) => find_group_item(self.group_items@, group_id) == Some(i as int)
                    && i < self.group_items@.len(),
                None => find_group_item(self.group_items@, group_id) is None,
            },
    {
        let n = self.group_items.len();
        proof {
            assert(self.group_items@.skip(0) =~= self.group_items@);
        }
        let mut i: usize = 0;
        while i < n
            invariant
                i <= n,
                n == self.group_items@.len(),
                find_group_item(self.group_items@, group_id)
                    == match find_group_item(self.group_items@.skip(i as int), group_id) {
                        Some(j) => Some(i + j),
                        None => None,
                    },
            decreases n - i,
        {
            proof {
                assert(self.group_items@.skip(i as int).drop_first()
                    =~= self.group_items@.skip(i as int + 1));
            }
            if self.group_items[i].group_id == group_id {
                return Some(i);
            }
            i = i + 1;
        }
        None
    }
}

impl GroupItem {
    /// First anchor stored under this anchor id.
    pub fn get_anchor(&self, anchor_id: u32) -> (r: Option<Anchor>)
        ensures
            r == find_anchor(self.anchors@, anchor_id),
    {
        let n = self.anchors.len();
        proof {
            assert(self.anchors@.skip(0) =~= self.anchors@);
        }
        let mut i: usize = 0;
        while i < n
            invariant
                i <= n,
                n == self.anchors@.len(),
                find_anchor(self.anchors@, anchor_id)
                    == find_anchor(self.anchors@.skip(i as int), anchor_id),
            decreases n - i,
        {
            proof {
                assert(self.anchors@.skip(i as int).drop_first()
                    =~= self.anchors@.skip(i as int + 1));
            }
            if self.anchors[i].id == anchor_id {
                return Some(self.anchors[i]);
            }
            i = i + 1;
        }
        None
    }
}

} // verus!
