use vstd::prelude::*;
use crate::motion::{MotionInfo, Position};
use crate::player::PlayerState;
use crate::scene::PLAYER_ENTITY_ID;

verus! {

/// Milliseconds that must pass between two persisted movement updates.
pub const SAVE_INTERVAL_MS: u64 = 5000;

/// Empty acknowledgment sent in response to a movement batch.
#[derive(Clone, Copy, PartialEq, Eq, Default, Debug)]
pub struct Dummy {}

/// Ephemeral per-session state: the deadline before which movement
/// updates are acknowledged without being persisted.
#[derive(Clone, Copy, PartialEq, Eq, Debug)]
pub struct SessionState {
    pub next_save_ms: u64,
}

impl SessionState {
    /// A fresh session: the first movement batch is always persisted.
    pub fn new() -> (s: SessionState)
        ensures
            s.next_save_ms == 0,
    {
        SessionState { next_save_ms: 0 }
    }
}

/// One record of a movement batch: the addressed entity and, where the
/// client sent one, its new placement.
#[derive(Clone, Copy, PartialEq, Eq, Debug)]
pub struct EntityMotion {
    pub entity_id: u32,
    pub motion: Option<MotionInfo>,
}

/// The position encoded in a motion payload: coordinates from the
/// position vector, yaw from the y component of the rotation vector.
pub open spec fn motion_position(m: MotionInfo) -> Position {
    Position { x: m.pos.x, y: m.pos.y, z: m.pos.z, rot_y: m.rot.y }
}

/// The position after applying a batch of movement records in order:
/// every record addressed to the player's own entity that carries a
/// motion overwrites the position, so the last such record wins.
pub open spec fn moved_position(p: Position, batch: Seq<EntityMotion>) -> Position
    decreases batch.len(),
{
    if batch.len() == 0 {
        p
    } else {
        let prev = moved_position(p, batch.drop_last());
        match batch.last().motion {
            Some(m) => if batch.last().entity_id == PLAYER_ENTITY_ID {
                motion_position(m)
            } else {
                prev
            },
            None => prev,
        }
    }
}

/// Movement handler: throttled persistence of the player's position.
///
/// While the current time has not passed the session's deadline, the
/// batch is acknowledged without touching any state. Otherwise the
/// deadline advances by the save interval from now, the records
/// addressed to the player's own entity are applied to the player's
/// position, and the caller must persist the returned player state;
/// the second component of the result says whether it must.
pub fn on_scene_entity_move_cs_req(
    session: &mut SessionState,
    player: &mut PlayerState,
    now_ms: u64,
    batch: &Vec<EntityMotion>,
) -> (r: (Dummy, bool))
    requires
        now_ms + SAVE_INTERVAL_MS <= u64::MAX,
    ensures
        now_ms <= old(session).next_save_ms ==> {
            &&& *final(session) == *old(session)
            &&& *final(player) == *old(player)
            &&& r.1 == false
        },
        now_ms > old(session).next_save_ms ==> {
            &&& final(session).next_save_ms == now_ms + SAVE_INTERVAL_MS
            &&& final(player).scene == old(player).scene
            &&& final(player).lineups == old(player).lineups
            &&& final(player).avatars == old(player).avatars
            &&& final(player).position == moved_position(old(player).position, batch@)
            &&& r.1 == true
        },
{
    if now_ms <= session.next_save_ms {
        return (Dummy {}, false);
    }

    session.next_save_ms = now_ms + SAVE_INTERVAL_MS;

    let ghost start_position = player.position;
    let mut i: usize = 0;
    while i < batch.len()
        invariant
            i <= batch.len(),
            player.position == moved_position(start_position, batch@.take(i as int)),
            player.scene == old(player).scene,
            player.lineups == old(player).lineups,
            player.avatars == old(player).avatars,
        decreases batch.len() - i,
    {
        let entity = &batch[i];
        proof {
            assert(batch@.take(i as int + 1).drop_last() =~= batch@.take(i as int));
            assert(batch@.take(i as int + 1).last() == batch@[i as int]);
        }
        if entity.entity_id == PLAYER_ENTITY_ID {
            if let Some(m) = entity.motion {
                player.position = Position { x: m.pos.x, y: m.pos.y, z: m.pos.z, rot_y: m.rot.y };
            }
        }
        i = i + 1;
    }
    proof {
        assert(batch@.take(batch@.len() as int) =~= batch@);
    }

    (Dummy {}, true)
}

} // verus!
