//! Session, routing and track-control logic for voice connections that are
//! multiplexed over a small number of upstream gateway shards.

pub mod error;
pub mod ids;
pub mod shards;
pub mod manager;
pub mod call;
pub mod player;
pub mod track_handle;
pub mod input;
