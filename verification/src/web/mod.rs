//! What leaves the station: the published form of a drone's record.

pub mod config;
pub mod drone_dto;

pub use config::{default_port, WebConfig};
pub use drone_dto::{DroneDto, DroneUpdate, MutationKind};
