//! One record per drone, and the registry that holds the records.

pub mod entity;
pub mod registry;

pub use entity::{Drone, DroneError};
pub use registry::{DroneRegistry, RegistryEntry, StoreAction};
