//! The Open Drone ID message family: its types and its parsers.

pub mod entity;
pub mod repo;

pub use entity::{
    Authentication, BasicId, Location, OdidMessage, Operator, OperatorLocationType,
    RemoteIdMessage, SystemMessage, UaType, UasIdType,
};
pub use repo::{
    parse_authentication, parse_basic_id, parse_location, parse_message, parse_message_header,
    parse_message_type, parse_operator_id, parse_system_message, MessageHeader,
};
