use vstd::prelude::*;
use crate::motion::Position;

verus! {

/// The player's current map location: plane, floor and entry point.
#[derive(Clone, Copy, PartialEq, Eq, Debug)]
pub struct SceneLoc {
    pub plane_id: u32,
    pub floor_id: u32,
    pub entry_id: u32,
}

/// A player's persisted record, loaded per request by the handlers and
/// written back only by the movement handler.
#[derive(Clone, PartialEq, Eq, Debug)]
pub struct PlayerState {
    pub scene: SceneLoc,
    pub position: Position,
    /// Active party in order: one (slot, avatar id) pair per member.
    pub lineups: Vec<(u32, u32)>,
    /// Identifiers of the characters the player owns.
    pub avatars: Vec<u32>,
}

} // verus!
