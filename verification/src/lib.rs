//! Verified core of a daemon that manages Samsung Galaxy Buds earbuds over
//! a Bluetooth RFCOMM serial channel: the binary protocol codec, the
//! per-device state record, the wear-state automation and touchpad-gesture
//! policy engines, the connection table, and the JSON control-plane protocol.

pub mod buds_config;
pub mod buds_info;
pub mod codec;
pub mod connection;
pub mod crc;
pub mod executor;
pub mod gesture;
pub mod json;
pub mod messages;
pub mod model;
pub mod policy;
pub mod properties;
pub mod response;
pub mod rpc;
pub mod session;
pub mod utils;
