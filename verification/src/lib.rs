//! Ground-station side of Open Drone ID: decoding Remote-ID broadcasts heard
//! over Bluetooth LE and Wi-Fi, and gathering them into one record per drone.
//!
//! The modules are listed from the wire upwards.

pub mod wire;
pub mod text;
pub mod odid;
pub mod drone;
pub mod web;
pub mod wifi;
pub mod bluetooth;
pub mod config;
pub mod determinism;
pub mod miner;
