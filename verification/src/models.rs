//! The rows the daemon reads from and writes to the database.
use vstd::prelude::*;

verus! {

/// A player known to the database.
pub struct Player {
    pub player_id: i64,
    pub steam_id: i64,
}

/// A game server registered with the service.
pub struct Server {
    pub server_id: i64,
    pub server_name: String,
    pub server_address: String,
    pub server_website: Option<String>,
}

/// A key that a game server seals its messages with.
pub struct ServerKey {
    pub key_id: i64,
    pub key_data: Vec<u8>,
    pub server_id: i64,
}

/// A kill to be recorded.  `timestamp` counts milliseconds since the Unix
/// epoch; the database stores it as a UTC timestamp.
pub struct Kill {
    pub timestamp: i64,
    pub map: String,
    pub server_id: i64,
    pub killer_id: i64,
    pub victim_id: i64,
    pub headshot: bool,
    pub pos_x: i32,
    pub pos_y: i32,
    pub pos_z: i32,
    pub weapon: i16,
}

} // verus!
