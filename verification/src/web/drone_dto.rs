//! The published form of a complete record, in whole numbers: every value
//! keeps the unit of the wire, scaled so that no fraction is lost.

use crate::drone::entity::{Drone, DroneView};
use crate::odid::entity::Location;
use vstd::prelude::*;

verus! {

/// What happened to a record in the store.
#[derive(Debug, Clone, Copy, PartialEq, Eq, Structural)]
pub enum MutationKind {
    Create,
    Update,
}

/// A complete record as the store and the subscribers get it.
///
/// Positions are in degrees times 10^7. `altitude` is in tenths of a metre,
/// `yaw` in degrees, `x_speed` (horizontal) in hundredths of a metre per
/// second, `y_speed` (vertical) in tenths of a metre per second.
#[derive(Debug)]
pub struct DroneDto {
    pub id: i64,
    pub serial_number: String,
    pub latitude: i32,
    pub longitude: i32,
    pub altitude: i32,
    pub x_speed: u16,
    pub y_speed: u16,
    pub yaw: u16,
    pub pilot_latitude: i32,
    pub pilot_longitude: i32,
    pub home_latitude: i32,
    pub home_longitude: i32,
}

/// A `DroneDto` with its serial number as a sequence of characters.
pub struct DroneDtoView {
    pub id: i64,
    pub serial_number: Seq<char>,
    pub latitude: i32,
    pub longitude: i32,
    pub altitude: i32,
    pub x_speed: u16,
    pub y_speed: u16,
    pub yaw: u16,
    pub pilot_latitude: i32,
    pub pilot_longitude: i32,
    pub home_latitude: i32,
    pub home_longitude: i32,
}

impl View for DroneDto {
    type V = DroneDtoView;

    open spec fn view(&self) -> DroneDtoView {
        DroneDtoView {
            id: self.id,
            serial_number: self.serial_number@,
            latitude: self.latitude,
            longitude: self.longitude,
            altitude: self.altitude,
            x_speed: self.x_speed,
            y_speed: self.y_speed,
            yaw: self.yaw,
            pilot_latitude: self.pilot_latitude,
            pilot_longitude: self.pilot_longitude,
            home_latitude: self.home_latitude,
            home_longitude: self.home_longitude,
        }
    }
}

impl Clone for DroneDto {
    fn clone(&self) -> (r: Self)
        ensures
            r@ == self@,
    {
        DroneDto {
            id: self.id,
            serial_number: self.serial_number.clone(),
            latitude: self.latitude,
            longitude: self.longitude,
            altitude: self.altitude,
            x_speed: self.x_speed,
            y_speed: self.y_speed,
            yaw: self.yaw,
            pilot_latitude: self.pilot_latitude,
            pilot_longitude: self.pilot_longitude,
            home_latitude: self.home_latitude,
            home_longitude: self.home_longitude,
        }
    }
}

/// The altitude in tenths of a metre: half a metre for each unit of the
/// wire's height, less 1000 m.
pub open spec fn altitude_of(height: i16) -> int {
    height * 5 - 10000
}

/// The heading in degrees: the tracking direction, and 180 more where the
/// east/west direction is 1.
pub open spec fn yaw_of(tracking_direction: u8, ew_direction: u8) -> int {
    tracking_direction + (if ew_direction == 1 {
        180int
    } else {
        0int
    })
}

/// The horizontal speed in hundredths of a metre per second. With the speed
/// multiplier at 1 a unit of the wire is 0.25 m/s. Else a speed above 0 is
/// 0.75 m/s for each unit and 63.75 m/s more, and a speed of 0 is 0.
pub open spec fn horizontal_speed_of(speed: u8, speed_multiplier: u8) -> int {
    if speed_multiplier == 1 {
        speed * 25
    } else if speed > 0 {
        speed * 75 + 6375
    } else {
        0
    }
}

/// The vertical speed in tenths of a metre per second: 0.5 m/s for each unit
/// of the wire.
pub open spec fn vertical_speed_of(vertical_speed: u8) -> int {
    vertical_speed * 5
}

impl DroneView {
    /// Whether the record can be published: it is complete, and its history
    /// holds the location it was first seen at.
    pub open spec fn publishable(self) -> bool {
        self.payload_ready() && self.location_history.len() > 0
    }

    /// The published form of a record that can be published.
    pub open spec fn published(self) -> DroneDtoView
        recommends
            self.publishable(),
    {
        let location = self.last_location->0;
        let system = self.system_message->0;
        let home = self.location_history[0];
        DroneDtoView {
            id: if self.in_store {
                self.store_id
            } else {
                0
            },
            serial_number: self.basic_id->0.uas_id,
            latitude: location.latitude_int,
            longitude: location.longitude_int,
            altitude: altitude_of(location.height) as i32,
            x_speed: horizontal_speed_of(location.speed, location.speed_multiplier) as u16,
            y_speed: vertical_speed_of(location.vertical_speed) as u16,
            yaw: yaw_of(location.tracking_direction, location.ew_direction) as u16,
            pilot_latitude: system.operator_latitude_int,
            pilot_longitude: system.operator_longitude_int,
            home_latitude: home.latitude_int,
            home_longitude: home.longitude_int,
        }
    }
}

/// Computes the altitude in tenths of a metre.
pub fn altitude(height: i16) -> (r: i32)
    ensures
        r == altitude_of(height),
{
    (height as i32) * 5 - 10000
}

/// Computes the heading in degrees.
pub fn yaw(tracking_direction: u8, ew_direction: u8) -> (r: u16)
    ensures
        r == yaw_of(tracking_direction, ew_direction),
{
    if ew_direction == 1 {
        tracking_direction as u16 + 180
    } else {
        tracking_direction as u16
    }
}

/// Computes the horizontal speed in hundredths of a metre per second.
pub fn horizontal_speed(speed: u8, speed_multiplier: u8) -> (r: u16)
    ensures
        r == horizontal_speed_of(speed, speed_multiplier),
{
    if speed_multiplier == 1 {
        speed as u16 * 25
    } else if speed > 0 {
        speed as u16 * 75 + 6375
    } else {
        0
    }
}

/// Computes the vertical speed in tenths of a metre per second.
pub fn vertical_speed(raw: u8) -> (r: u16)
    ensures
        r == vertical_speed_of(raw),
{
    raw as u16 * 5
}

impl DroneDto {
    /// The published form of `drone`, if the record can be published: it must
    /// hold all four messages, and a first location in its history.
    pub fn from_drone(drone: &Drone) -> (r: Option<DroneDto>)
        ensures
            r is Some <==> drone@.publishable(),
            r matches Some(dto) ==> dto@ == drone@.published(),
    {
        let basic_id = match &drone.basic_id {
            Some(b) => b,
            None => {
                return None;
            },
        };
        let location: Location = match drone.last_location {
            Some(l) => l,
            None => {
                return None;
            },
        };
        let system = match drone.system_message {
            Some(s) => s,
            None => {
                return None;
            },
        };
        if drone.operator.is_none() || drone.location_history.len() == 0 {
            return None;
        }
        let home = drone.location_history[0];
        Some(
            DroneDto {
                id: if drone.in_store {
                    drone.store_id
                } else {
                    0
                },
                serial_number: basic_id.uas_id.clone(),
                latitude: location.latitude_int,
                longitude: location.longitude_int,
                altitude: altitude(location.height),
                x_speed: horizontal_speed(location.speed, location.speed_multiplier),
                y_speed: vertical_speed(location.vertical_speed),
                yaw: yaw(location.tracking_direction, location.ew_direction),
                pilot_latitude: system.operator_latitude_int,
                pilot_longitude: system.operator_longitude_int,
                home_latitude: home.latitude_int,
                home_longitude: home.longitude_int,
            },
        )
    }
}

/// The event that tells subscribers of a write to the store.
#[derive(Debug)]
pub struct DroneUpdate {
    pub mutation_kind: MutationKind,
    pub drone: DroneDto,
    pub id: i64,
}

/// A `DroneUpdate` over the view of its record.
pub struct DroneUpdateView {
    pub mutation_kind: MutationKind,
    pub drone: DroneDtoView,
    pub id: i64,
}

impl View for DroneUpdate {
    type V = DroneUpdateView;

    open spec fn view(&self) -> DroneUpdateView {
        DroneUpdateView { mutation_kind: self.mutation_kind, drone: self.drone@, id: self.id }
    }
}

impl DroneUpdate {
    /// The event for a record that the store has just taken in under `id`.
    /// The record in the event carries that id.
    pub fn created(drone: DroneDto, id: i64) -> (r: DroneUpdate)
        ensures
            r@ == (DroneUpdateView {
                mutation_kind: MutationKind::Create,
                drone: DroneDtoView { id, ..drone@ },
                id,
            }),
    {
        let mut drone = drone;
        drone.id = id;
        DroneUpdate { mutation_kind: MutationKind::Create, drone, id }
    }

    /// The event for a record that the store has just written anew. Its id is
    /// the one the record has.
    pub fn updated(drone: DroneDto) -> (r: DroneUpdate)
        ensures
            r@ == (DroneUpdateView {
                mutation_kind: MutationKind::Update,
                drone: drone@,
                id: drone@.id,
            }),
    {
        let id = drone.id;
        DroneUpdate { mutation_kind: MutationKind::Update, drone, id }
    }
}

} // verus!
