//! The messages that a drone broadcasts, as values.

use vstd::prelude::*;
use vstd::std_specs::convert::FromSpecImpl;

verus! {

/// What kind of identifier a BasicId message carries.
#[derive(Debug, Clone, Copy, PartialEq, Eq, Structural)]
pub enum UasIdType {
    SerialNumber,
    CaaRegistration,
    UtmId,
    Other(u8),
}

impl From<u8> for UasIdType {
    fn from(value: u8) -> (r: Self) {
        if value == 0 {
            UasIdType::SerialNumber
        } else if value == 1 {
            UasIdType::CaaRegistration
        } else if value == 2 {
            UasIdType::UtmId
        } else {
            UasIdType::Other(value)
        }
    }
}

impl FromSpecImpl<u8> for UasIdType {
    open spec fn obeys_from_spec() -> bool {
        true
    }

    open spec fn from_spec(value: u8) -> Self {
        if value == 0 {
            UasIdType::SerialNumber
        } else if value == 1 {
            UasIdType::CaaRegistration
        } else if value == 2 {
            UasIdType::UtmId
        } else {
            UasIdType::Other(value)
        }
    }
}

/// The category of the aircraft.
#[derive(Debug, Clone, Copy, PartialEq, Eq, Structural)]
pub enum UaType {
    Undeclared,
    Aeroplane,
    HelicopterOrDrone,
    Gyroplane,
    HybridLift,
    Ornithopter,
    Glider,
    Kite,
    FreeBalloon,
    CaptiveBalloon,
    Airship,
    FreeFallParachute,
    Rocket,
    TetheredAircraft,
    GroundObstacle,
    Other(u8),
}

impl From<u8> for UaType {
    fn from(value: u8) -> (r: Self) {
        if value == 0 {
            UaType::Undeclared
        } else if value == 1 {
            UaType::Aeroplane
        } else if value == 2 {
            UaType::HelicopterOrDrone
        } else if value == 3 {
            UaType::Gyroplane
        } else if value == 4 {
            UaType::HybridLift
        } else if value == 5 {
            UaType::Ornithopter
        } else if value == 6 {
            UaType::Glider
        } else if value == 7 {
            UaType::Kite
        } else if value == 8 {
            UaType::FreeBalloon
        } else if value == 9 {
            UaType::CaptiveBalloon
        } else if value == 10 {
            UaType::Airship
        } else if value == 11 {
            UaType::FreeFallParachute
        } else if value == 12 {
            UaType::Rocket
        } else if value == 13 {
            UaType::TetheredAircraft
        } else if value == 14 {
            UaType::GroundObstacle
        } else {
            UaType::Other(value)
        }
    }
}

impl FromSpecImpl<u8> for UaType {
    open spec fn obeys_from_spec() -> bool {
        true
    }

    open spec fn from_spec(value: u8) -> Self {
        if value == 0 {
            UaType::Undeclared
        } else if value == 1 {
            UaType::Aeroplane
        } else if value == 2 {
            UaType::HelicopterOrDrone
        } else if value == 3 {
            UaType::Gyroplane
        } else if value == 4 {
            UaType::HybridLift
        } else if value == 5 {
            UaType::Ornithopter
        } else if value == 6 {
            UaType::Glider
        } else if value == 7 {
            UaType::Kite
        } else if value == 8 {
            UaType::FreeBalloon
        } else if value == 9 {
            UaType::CaptiveBalloon
        } else if value == 10 {
            UaType::Airship
        } else if value == 11 {
            UaType::FreeFallParachute
        } else if value == 12 {
            UaType::Rocket
        } else if value == 13 {
            UaType::TetheredAircraft
        } else if value == 14 {
            UaType::GroundObstacle
        } else {
            UaType::Other(value)
        }
    }
}

/// The BasicId message: who the aircraft is.
#[derive(Debug)]
pub struct BasicId {
    pub uas_id_type: UasIdType,
    pub ua_type: UaType,
    pub uas_id: String,
}

/// A `BasicId` with its identifier as a sequence of characters.
pub struct BasicIdView {
    pub uas_id_type: UasIdType,
    pub ua_type: UaType,
    pub uas_id: Seq<char>,
}

impl View for BasicId {
    type V = BasicIdView;

    open spec fn view(&self) -> BasicIdView {
        BasicIdView { uas_id_type: self.uas_id_type, ua_type: self.ua_type, uas_id: self.uas_id@ }
    }
}

impl Clone for BasicId {
    fn clone(&self) -> (r: Self)
        ensures
            r@ == self@,
    {
        BasicId {
            uas_id_type: self.uas_id_type,
            ua_type: self.ua_type,
            uas_id: self.uas_id.clone(),
        }
    }
}

/// The Location message: where the aircraft is and how it moves. The integer
/// fields hold the raw wire values; `height_type`, `ew_direction` and
/// `speed_multiplier` are single bits, each 0 or 1.
#[derive(Debug, Clone, Copy, PartialEq, Eq, Structural)]
pub struct Location {
    pub status: u8,
    pub ew_direction: u8,
    pub height_type: u8,
    pub tracking_direction: u8,
    pub speed_multiplier: u8,
    pub speed: u8,
    pub vertical_speed: u8,
    pub latitude_int: i32,
    pub longitude_int: i32,
    pub altitude_pressure: u16,
    pub altitude_geodetic: u16,
    pub height: i16,
    pub horizontal_accuracy: u8,
    pub vertical_accuracy: u8,
    pub barometric_altitude_accuracy: u8,
    pub speed_accuracy: u8,
    pub timestamp: u16,
}

/// The head of an Authentication message and the bytes behind it, undecoded.
#[derive(Debug)]
pub struct Authentication {
    pub auth_type: u8,
    pub page: u8,
    pub length: u8,
    pub timestamp: u32,
    pub auth_data: Vec<u8>,
}

/// An `Authentication` with its data as a sequence of bytes.
pub struct AuthenticationView {
    pub auth_type: u8,
    pub page: u8,
    pub length: u8,
    pub timestamp: u32,
    pub auth_data: Seq<u8>,
}

impl View for Authentication {
    type V = AuthenticationView;

    open spec fn view(&self) -> AuthenticationView {
        AuthenticationView {
            auth_type: self.auth_type,
            page: self.page,
            length: self.length,
            timestamp: self.timestamp,
            auth_data: self.auth_data@,
        }
    }
}

/// How the operator's position was obtained.
#[derive(Debug, Clone, Copy, PartialEq, Eq, Structural)]
pub enum OperatorLocationType {
    TakeOff,
    LiveGNSS,
    FixedLocation,
    Other(u8),
}

impl From<u8> for OperatorLocationType {
    fn from(value: u8) -> (r: Self) {
        if value == 0 {
            OperatorLocationType::TakeOff
        } else if value == 1 {
            OperatorLocationType::LiveGNSS
        } else if value == 2 {
            OperatorLocationType::FixedLocation
        } else {
            OperatorLocationType::Other(value)
        }
    }
}

impl FromSpecImpl<u8> for OperatorLocationType {
    open spec fn obeys_from_spec() -> bool {
        true
    }

    open spec fn from_spec(value: u8) -> Self {
        if value == 0 {
            OperatorLocationType::TakeOff
        } else if value == 1 {
            OperatorLocationType::LiveGNSS
        } else if value == 2 {
            OperatorLocationType::FixedLocation
        } else {
            OperatorLocationType::Other(value)
        }
    }
}

/// The System message: where the operator is, and the operating area.
#[derive(Debug, Clone, Copy, PartialEq, Eq, Structural)]
pub struct SystemMessage {
    pub operator_location_type: OperatorLocationType,
    pub operator_latitude_int: i32,
    pub operator_longitude_int: i32,
    pub area_count: i16,
    pub area_radius: u8,
    pub area_ceiling: u16,
    pub area_floor: u16,
}

/// The OperatorId message: who flies the aircraft.
#[derive(Debug)]
pub struct Operator {
    pub operator_id_type: u8,
    pub operator_id: String,
}

/// An `Operator` with its identifier as a sequence of characters.
pub struct OperatorView {
    pub operator_id_type: u8,
    pub operator_id: Seq<char>,
}

impl View for Operator {
    type V = OperatorView;

    open spec fn view(&self) -> OperatorView {
        OperatorView { operator_id_type: self.operator_id_type, operator_id: self.operator_id@ }
    }
}

impl Clone for Operator {
    fn clone(&self) -> (r: Self)
        ensures
            r@ == self@,
    {
        Operator { operator_id_type: self.operator_id_type, operator_id: self.operator_id.clone() }
    }
}

/// The kind of a message, as its header announces it.
#[derive(Debug, Clone, Copy, PartialEq, Eq, Structural)]
pub enum RemoteIdMessage {
    BasicId,
    Location,
    Authentication,
    SelfId,
    SystemMessage,
    OperatorId,
    MessagePack,
    Unknown,
}

impl From<u8> for RemoteIdMessage {
    fn from(value: u8) -> (r: Self) {
        if value == 0 {
            RemoteIdMessage::BasicId
        } else if value == 1 {
            RemoteIdMessage::Location
        } else if value == 2 {
            RemoteIdMessage::Authentication
        } else if value == 3 {
            RemoteIdMessage::SelfId
        } else if value == 4 {
            RemoteIdMessage::SystemMessage
        } else if value == 5 {
            RemoteIdMessage::OperatorId
        } else if value == 15 {
            RemoteIdMessage::MessagePack
        } else {
            RemoteIdMessage::Unknown
        }
    }
}

impl FromSpecImpl<u8> for RemoteIdMessage {
    open spec fn obeys_from_spec() -> bool {
        true
    }

    open spec fn from_spec(value: u8) -> Self {
        if value == 0 {
            RemoteIdMessage::BasicId
        } else if value == 1 {
            RemoteIdMessage::Location
        } else if value == 2 {
            RemoteIdMessage::Authentication
        } else if value == 3 {
            RemoteIdMessage::SelfId
        } else if value == 4 {
            RemoteIdMessage::SystemMessage
        } else if value == 5 {
            RemoteIdMessage::OperatorId
        } else if value == 15 {
            RemoteIdMessage::MessagePack
        } else {
            RemoteIdMessage::Unknown
        }
    }
}

/// One decoded message with what it carries. Authentication and SelfId
/// messages are kept as the bytes that followed their header.
#[derive(Debug)]
pub enum OdidMessage {
    BasicId(BasicId),
    Location(Location),
    Authentication(Vec<u8>),
    SelfId(Vec<u8>),
    System(SystemMessage),
    OperatorId(Operator),
    MessagePack,
    Unknown,
}

/// An `OdidMessage` over the views of what it carries.
pub enum OdidMessageView {
    BasicId(BasicIdView),
    Location(Location),
    Authentication(Seq<u8>),
    SelfId(Seq<u8>),
    System(SystemMessage),
    OperatorId(OperatorView),
    MessagePack,
    Unknown,
}

impl View for OdidMessage {
    type V = OdidMessageView;

    open spec fn view(&self) -> OdidMessageView {
        match self {
            OdidMessage::BasicId(b) => OdidMessageView::BasicId(b@),
            OdidMessage::Location(l) => OdidMessageView::Location(*l),
            OdidMessage::Authentication(a) => OdidMessageView::Authentication(a@),
            OdidMessage::SelfId(s) => OdidMessageView::SelfId(s@),
            OdidMessage::System(s) => OdidMessageView::System(*s),
            OdidMessage::OperatorId(o) => OdidMessageView::OperatorId(o@),
            OdidMessage::MessagePack => OdidMessageView::MessagePack,
            OdidMessage::Unknown => OdidMessageView::Unknown,
        }
    }
}

} // verus!
