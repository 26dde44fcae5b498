//! Open Drone ID over Bluetooth LE: the advertisement that carries it, and
//! what is done with each advertisement heard.

pub mod config;
pub mod entity;
pub mod repo;
pub mod task;

pub use config::BluetoothConfig;
pub use entity::BluetoothAdvertisementFrame;
pub use repo::parse_bluetooth_advertisement_frame;
pub use task::{bluetooth_store_action, handle_bluetooth_event, MessageType};
