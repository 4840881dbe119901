use vstd::prelude::*;
use crate::catalog::Catalog;
use crate::compose::{compose, compose_fits, compose_spec};
use crate::player::PlayerState;
use crate::scene::{SceneInfo, SceneModel};

verus! {

/// Fixed day counter reported by the basic-info response.
pub const BASIC_INFO_CUR_DAY: u32 = 1;
/// Fixed recovery timer reported by the basic-info response.
pub const BASIC_INFO_NEXT_RECOVER_TIME: u64 = 2281337;
/// Version number of the out-of-band payload attached to heartbeats.
pub const DOWNLOAD_DATA_VERSION: u32 = 51;

/// Base64 text of the operator-controlled out-of-band payload attached
/// to heartbeat responses; opaque to this core.
pub const DOWNLOAD_DATA_BLOB: &'static str = "Q1MuVW5pdHlFbmdpbmUuR2FtZU9iamVjdC5GaW5kKCJVSVJvb3QvQWJvdmVEaWFsb2cvQmV0YUhpbnREaWFsb2coQ2xvbmUpIik6R2V0Q29tcG9uZW50SW5DaGlsZHJlbih0eXBlb2YoQ1MuUlBHLkNsaWVudC5Mb2NhbGl6ZWRUZXh0KSkudGV4dCA9ICI8Y29sb3I9IzAwRkZGRj48Yj4/Pz88L2I+PC9jb2xvcj4iCkNTLlVuaXR5RW5naW5lLkdhbWVPYmplY3QuRmluZCgiVmVyc2lvblRleHQiKTpHZXRDb21wb25lbnRJbkNoaWxkcmVuKHR5cGVvZihDUy5SUEcuQ2xpZW50LkxvY2FsaXplZFRleHQpKS50ZXh0ID0gIjxjb2xvcj0jRkYxNDkzPkNOQkVUQVdpbjIuNC41WDwvY29sb3I+Ig==";

/// Response to a current-scene request: always success, always a scene.
#[derive(Clone, PartialEq, Eq, Debug)]
pub struct GetCurSceneInfoScRsp {
    pub retcode: u32,
    pub scene: Option<SceneInfo>,
}

/// Response to a basic-info request: static status fields.
#[derive(Clone, Copy, PartialEq, Eq, Debug)]
pub struct GetBasicInfoScRsp {
    pub retcode: u32,
    pub cur_day: u32,
    pub exchange_times: u32,
    pub next_recover_time: u64,
    pub week_cocoon_finished_count: u32,
}

/// Out-of-band payload attached to a heartbeat response.
#[derive(Clone, PartialEq, Eq, Debug)]
pub struct ClientDownloadData {
    pub version: u32,
    pub time: i64,
    pub data: Vec<u8>,
}

/// Response to a heartbeat: echoes the client time, reports the server
/// time, and optionally carries the out-of-band payload.
#[derive(Clone, PartialEq, Eq, Debug)]
pub struct PlayerHeartBeatScRsp {
    pub retcode: u32,
    pub client_time_ms: u64,
    pub server_time_ms: u64,
    pub download_data: Option<ClientDownloadData>,
}

/// The degraded scene sent when composition fails: the player's raw
/// location and an empty group list.
pub open spec fn stub_scene_model(p: PlayerState) -> SceneModel {
    SceneModel {
        plane_id: p.scene.plane_id,
        floor_id: p.scene.floor_id,
        entry_id: p.scene.entry_id,
        game_mode_type: 1,
        groups: Seq::empty(),
    }
}

/// Current-scene handler: composes the scene for the player's location;
/// where a catalog lookup misses, degrades to the stub scene instead of
/// failing the request. The response always carries a scene and a
/// success retcode.
pub fn on_get_cur_scene_info_cs_req(player: &PlayerState, catalog: &Catalog)
    -> (r: GetCurSceneInfoScRsp)
    requires
        compose_fits(*player, *catalog, None::<u32>),
    ensures
        r.retcode == 0,
        match compose_spec(*player, *catalog, None::<u32>) {
            Ok(m) => r.scene matches Some(s) && s@ == m,
            Err(_) => r.scene matches Some(s) && s@ == stub_scene_model(*player),
        },
{
    let scene = match compose(player, catalog, None) {
        Ok(s) => s,
        Err(_) => {
            let stub = SceneInfo {
                plane_id: player.scene.plane_id,
                floor_id: player.scene.floor_id,
                entry_id: player.scene.entry_id,
                game_mode_type: 1,
                scene_group_list: Vec::new(),
            };
            proof {
                assert(stub.scene_group_list@.map_values(|g: crate::scene::SceneGroupInfo| g@)
                    =~= Seq::<crate::scene::SceneGroupModel>::empty());
            }
            return GetCurSceneInfoScRsp { retcode: 0, scene: Some(stub) };
        },
    };
    GetCurSceneInfoScRsp { retcode: 0, scene: Some(scene) }
}

/// Basic-info handler: a fixed status snapshot.
pub fn on_get_basic_info_cs_req() -> (r: GetBasicInfoScRsp)
    ensures
        r.retcode == 0,
        r.cur_day == BASIC_INFO_CUR_DAY,
        r.exchange_times == 0,
        r.next_recover_time == BASIC_INFO_NEXT_RECOVER_TIME,
        r.week_cocoon_finished_count == 0,
{
    GetBasicInfoScRsp {
        retcode: 0,
        cur_day: BASIC_INFO_CUR_DAY,
        exchange_times: 0,
        next_recover_time: BASIC_INFO_NEXT_RECOVER_TIME,
        week_cocoon_finished_count: 0,
    }
}

/// Bytes that decoding a base64 text yields, where it decodes at all.
pub uninterp spec fn base64_decoded(s: Seq<char>) -> Seq<u8>;

/// Relies on rbase64::decode: the decoded bytes depend on the input
/// characters alone; an input that is not valid base64 is rejected.
#[verifier::external_body]
fn decode_base64(s: &str) -> (r: Option<Vec<u8>>)
    ensures
        r matches Some(v) ==> v@ == base64_decoded(s@),
{
    match rbase64::decode(s) {
        Ok(v) => Some(v),
        Err(_) => None,
    }
}

/// Assembles a heartbeat response from the times and an already decoded
/// payload: the payload is attached exactly where one is given.
pub fn heart_beat_rsp_with(client_time_ms: u64, server_time_ms: u64, decoded: Option<Vec<u8>>)
    -> (r: PlayerHeartBeatScRsp)
    requires
        server_time_ms <= i64::MAX,
    ensures
        r.retcode == 0,
        r.client_time_ms == client_time_ms,
        r.server_time_ms == server_time_ms,
        match decoded {
            Some(v) => r.download_data matches Some(d)
                && d.version == DOWNLOAD_DATA_VERSION
                && d.time == server_time_ms as i64
                && d.data == v,
            None => r.download_data is None,
        },
{
    match decoded {
        Some(v) => PlayerHeartBeatScRsp {
            retcode: 0,
            client_time_ms,
            server_time_ms,
            download_data: Some(ClientDownloadData {
                version: DOWNLOAD_DATA_VERSION,
                time: server_time_ms as i64,
                data: v,
            }),
        },
        None => PlayerHeartBeatScRsp {
            retcode: 0,
            client_time_ms,
            server_time_ms,
            download_data: None,
        },
    }
}

/// Heartbeat handler: echoes the client time, reports the server time
/// and attaches the decoded out-of-band payload where it decodes.
pub fn on_player_heart_beat_cs_req(client_time_ms: u64, server_time_ms: u64)
    -> (r: PlayerHeartBeatScRsp)
    requires
        server_time_ms <= i64::MAX,
    ensures
        r.retcode == 0,
        r.client_time_ms == client_time_ms,
        r.server_time_ms == server_time_ms,
        r.download_data matches Some(d) ==> {
            &&& d.version == DOWNLOAD_DATA_VERSION
            &&& d.time == server_time_ms as i64
            &&& d.data@ == base64_decoded(DOWNLOAD_DATA_BLOB@)
        },
{
    let decoded = decode_base64(DOWNLOAD_DATA_BLOB);
    heart_beat_rsp_with(client_time_ms, server_time_ms, decoded)
}

} // verus!
