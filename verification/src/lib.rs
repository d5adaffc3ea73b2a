//! Verified core of a relay that forwards bilibili live-room events to
//! websocket clients and databases.

pub mod decimal;
pub mod route;
pub mod config;
pub mod channels;
pub mod guard;
pub mod timestamp;
pub mod model;
pub mod store;
pub mod frames;
pub mod rooms;
