pub mod buffer;
pub mod codec;
pub mod crypto;
pub mod listener;
pub mod message;
pub mod models;
pub mod packet;
pub mod player_update;
pub mod stream;
pub mod wire;
pub mod worker;
