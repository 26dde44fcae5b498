//! Parsing is a function of the bytes: whatever a parser may return on an
//! input, it may return nothing else on it. Each law below takes two results
//! that the contract of a parser allows on one input, and shows that they
//! agree: in the value, in the bytes left over, or in the error.

use crate::bluetooth::entity::BluetoothAdvertisementFrame;
use crate::bluetooth::repo::parse_bluetooth_advertisement_frame;
use crate::odid::entity::{
    Authentication, BasicId, Location, OdidMessage, Operator, RemoteIdMessage, SystemMessage,
};
use crate::odid::repo::{
    parse_authentication, parse_basic_id, parse_location, parse_message, parse_message_header,
    parse_message_type, parse_operator_id, parse_system_message, MessageHeader,
};
use crate::wifi::entity::{
    WifiActionFrame, WifiBeaconFrame, WifiOpenDroneIDMessagePack, WifiServiceDescriptorAttribute,
};
use crate::wifi::repo::{
    parse_action_frame, parse_beacon_frame, parse_open_drone_id_message_pack,
    parse_service_descriptor_attribute,
};
use crate::wire::ParseError;
use vstd::prelude::*;

verus! {

/// Two results of a parser agree: both hold the same value and leave the same
/// bytes over, or both hold the same error.
pub open spec fn agree<T>(
    first: Result<(&[u8], T), ParseError>,
    second: Result<(&[u8], T), ParseError>,
) -> bool {
    match (first, second) {
        (Ok((rest1, value1)), Ok((rest2, value2))) => rest1@ == rest2@ && value1 == value2,
        (Err(e1), Err(e2)) => e1 == e2,
        _ => false,
    }
}

/// Two results of a parser agree, their values being compared by their views.
pub open spec fn agree_in_view<T: View>(
    first: Result<(&[u8], T), ParseError>,
    second: Result<(&[u8], T), ParseError>,
) -> bool {
    match (first, second) {
        (Ok((rest1, value1)), Ok((rest2, value2))) => rest1@ == rest2@ && value1@ == value2@,
        (Err(e1), Err(e2)) => e1 == e2,
        _ => false,
    }
}

/// Two results without left-over bytes agree, their values being compared by
/// their views.
pub open spec fn agree_on_value<T: View>(
    first: Result<T, ParseError>,
    second: Result<T, ParseError>,
) -> bool {
    match (first, second) {
        (Ok(value1), Ok(value2)) => value1@ == value2@,
        (Err(e1), Err(e2)) => e1 == e2,
        _ => false,
    }
}

/// `parse_message_header` has one result for each input.
pub proof fn parse_message_header_is_deterministic(
    input: &[u8],
    first: Result<(&[u8], MessageHeader), ParseError>,
    second: Result<(&[u8], MessageHeader), ParseError>,
)
    requires
        call_ensures(parse_message_header, (input,), first),
        call_ensures(parse_message_header, (input,), second),
    ensures
        agree(first, second),
{
}

/// `parse_message_type` has one result for each input.
pub proof fn parse_message_type_is_deterministic(
    input: &[u8],
    first: Result<(&[u8], RemoteIdMessage), ParseError>,
    second: Result<(&[u8], RemoteIdMessage), ParseError>,
)
    requires
        call_ensures(parse_message_type, (input,), first),
        call_ensures(parse_message_type, (input,), second),
    ensures
        agree(first, second),
{
}

/// `parse_basic_id` has one result for each input.
pub proof fn parse_basic_id_is_deterministic(
    input: &[u8],
    first: Result<(&[u8], BasicId), ParseError>,
    second: Result<(&[u8], BasicId), ParseError>,
)
    requires
        call_ensures(parse_basic_id, (input,), first),
        call_ensures(parse_basic_id, (input,), second),
    ensures
        agree_in_view(first, second),
{
}

/// `parse_location` has one result for each input.
pub proof fn parse_location_is_deterministic(
    input: &[u8],
    first: Result<(&[u8], Location), ParseError>,
    second: Result<(&[u8], Location), ParseError>,
)
    requires
        call_ensures(parse_location, (input,), first),
        call_ensures(parse_location, (input,), second),
    ensures
        agree(first, second),
{
}

/// `parse_system_message` has one result for each input.
pub proof fn parse_system_message_is_deterministic(
    input: &[u8],
    first: Result<(&[u8], SystemMessage), ParseError>,
    second: Result<(&[u8], SystemMessage), ParseError>,
)
    requires
        call_ensures(parse_system_message, (input,), first),
        call_ensures(parse_system_message, (input,), second),
    ensures
        agree(first, second),
{
}

/// `parse_operator_id` has one result for each input.
pub proof fn parse_operator_id_is_deterministic(
    input: &[u8],
    first: Result<(&[u8], Operator), ParseError>,
    second: Result<(&[u8], Operator), ParseError>,
)
    requires
        call_ensures(parse_operator_id, (input,), first),
        call_ensures(parse_operator_id, (input,), second),
    ensures
        agree_in_view(first, second),
{
}

/// `parse_authentication` has one result for each input.
pub proof fn parse_authentication_is_deterministic(
    input: &[u8],
    first: Result<Authentication, ParseError>,
    second: Result<Authentication, ParseError>,
)
    requires
        call_ensures(parse_authentication, (input,), first),
        call_ensures(parse_authentication, (input,), second),
    ensures
        agree_on_value(first, second),
{
}

/// `parse_message` has one result for each kind and body.
pub proof fn parse_message_is_deterministic(
    message_type: u8,
    body: &[u8],
    first: Result<OdidMessage, ParseError>,
    second: Result<OdidMessage, ParseError>,
)
    requires
        call_ensures(parse_message, (message_type, body), first),
        call_ensures(parse_message, (message_type, body), second),
    ensures
        agree_on_value(first, second),
{
}

/// `parse_open_drone_id_message_pack` has one result for each input.
pub proof fn parse_open_drone_id_message_pack_is_deterministic(
    input: &[u8],
    first: Result<(&[u8], WifiOpenDroneIDMessagePack), ParseError>,
    second: Result<(&[u8], WifiOpenDroneIDMessagePack), ParseError>,
)
    requires
        call_ensures(parse_open_drone_id_message_pack, (input,), first),
        call_ensures(parse_open_drone_id_message_pack, (input,), second),
    ensures
        agree_in_view(first, second),
{
}

/// `parse_service_descriptor_attribute` has one result for each input.
pub proof fn parse_service_descriptor_attribute_is_deterministic<'a>(
    input: &'a [u8],
    first: Result<(&'a [u8], WifiServiceDescriptorAttribute<'a>), ParseError>,
    second: Result<(&'a [u8], WifiServiceDescriptorAttribute<'a>), ParseError>,
)
    requires
        call_ensures(parse_service_descriptor_attribute, (input,), first),
        call_ensures(parse_service_descriptor_attribute, (input,), second),
    ensures
        agree_in_view(first, second),
{
}

/// `parse_action_frame` has one result for each input.
pub proof fn parse_action_frame_is_deterministic<'a>(
    input: &'a [u8],
    first: Result<(&'a [u8], WifiActionFrame<'a>), ParseError>,
    second: Result<(&'a [u8], WifiActionFrame<'a>), ParseError>,
)
    requires
        call_ensures(parse_action_frame, (input,), first),
        call_ensures(parse_action_frame, (input,), second),
    ensures
        agree_in_view(first, second),
{
}

/// `parse_beacon_frame` has one result for each input.
pub proof fn parse_beacon_frame_is_deterministic<'a>(
    input: &'a [u8],
    first: Result<(&'a [u8], WifiBeaconFrame<'a>), ParseError>,
    second: Result<(&'a [u8], WifiBeaconFrame<'a>), ParseError>,
)
    requires
        call_ensures(parse_beacon_frame, (input,), first),
        call_ensures(parse_beacon_frame, (input,), second),
    ensures
        agree_in_view(first, second),
{
}

/// `parse_bluetooth_advertisement_frame` has one result for each input.
pub proof fn parse_bluetooth_advertisement_frame_is_deterministic(
    input: &[u8],
    first: Result<(&[u8], BluetoothAdvertisementFrame), ParseError>,
    second: Result<(&[u8], BluetoothAdvertisementFrame), ParseError>,
)
    requires
        call_ensures(parse_bluetooth_advertisement_frame, (input,), first),
        call_ensures(parse_bluetooth_advertisement_frame, (input,), second),
    ensures
        agree_in_view(first, second),
{
}

} // verus!
