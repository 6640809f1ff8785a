//! What a game server reports about one player: the kills the player made
//! and the shots the player fired.
use vstd::prelude::*;

verus! {

/// A player's report for one reporting period.
pub struct PlayerUpdate {
    pub steam_id: i64,
    pub kills: Vec<InGameKill>,
    pub shots: Vec<ShotFired>,
}

/// One shot, and whether it hit.
pub struct ShotFired {
    pub timestamp: i64,
    pub hit: bool,
}

/// One kill made by the reporting player.
pub struct InGameKill {
    pub timestamp: i64,
    pub victim_id: i64,
    pub map: String,
    pub pos_x: i32,
    pub pos_y: i32,
    pub pos_z: i32,
    pub weapon: i16,
    pub headshot: bool,
}

/// A kill, as plain values.
pub struct KillModel {
    pub timestamp: i64,
    pub victim_id: i64,
    pub map: Seq<char>,
    pub pos_x: i32,
    pub pos_y: i32,
    pub pos_z: i32,
    pub weapon: i16,
    pub headshot: bool,
}

/// A player update, as plain values; a shot is its timestamp and whether
/// it hit.
pub struct PlayerUpdateModel {
    pub steam_id: i64,
    pub kills: Seq<KillModel>,
    pub shots: Seq<(i64, bool)>,
}

impl View for InGameKill {
    type V = KillModel;

    open spec fn view(&self) -> KillModel {
        KillModel {
            timestamp: self.timestamp,
            victim_id: self.victim_id,
            map: self.map@,
            pos_x: self.pos_x,
            pos_y: self.pos_y,
            pos_z: self.pos_z,
            weapon: self.weapon,
            headshot: self.headshot,
        }
    }
}

impl View for PlayerUpdate {
    type V = PlayerUpdateModel;

    open spec fn view(&self) -> PlayerUpdateModel {
        PlayerUpdateModel {
            steam_id: self.steam_id,
            kills: self.kills@.map_values(|k: InGameKill| k@),
            shots: self.shots@.map_values(|s: ShotFired| (s.timestamp, s.hit)),
        }
    }
}

} // verus!
