//! Parsers for the Open Drone ID messages. Each takes the bytes of one message
//! body and returns the value with the bytes it did not use, or the reason why
//! the body could not be read. Integers wider than a byte are little-endian.

use super::entity::{
    Authentication, AuthenticationView, BasicId, BasicIdView, Location, OdidMessage,
    OdidMessageView, Operator, OperatorLocationType, OperatorView, RemoteIdMessage,
    SystemMessage, UaType, UasIdType,
};
use crate::text::{field_text, find_run_end, run_end, text_of_field, Keep};
use crate::wire::{
    bit0, bit1, bit2, bit_at, high_nibble, le_i16, le_i32, le_u16, le_u24, low_nibble,
    read_i16_le, read_i32_le, read_u16_le, read_u24_le, read_u8, rest_from, split_nibbles,
    truncated, yields, yields_view, ParseError, Parsed,
};
use vstd::prelude::*;
use vstd::slice::slice_to_vec;
use vstd::std_specs::convert::FromSpec;

verus! {

/// The longest identifier that a BasicId message holds, in bytes.
pub const UAS_ID_MAX_LEN: usize = 20;

/// The bytes that a Location body needs.
pub const LOCATION_LEN: usize = 22;

/// The bytes that a System body needs.
pub const SYSTEM_MESSAGE_LEN: usize = 16;

/// The bytes that the head of an Authentication body needs.
pub const AUTHENTICATION_HEAD_LEN: usize = 6;

/// The first byte of every message: its kind in the upper four bits, the
/// protocol version in the lower four.
#[derive(Debug, Clone, Copy, PartialEq, Eq, Structural)]
pub struct MessageHeader {
    pub message_type: u8,
    pub protocol_version: u8,
}

/// The header that the byte `b` encodes.
pub open spec fn header_of(b: u8) -> MessageHeader {
    MessageHeader { message_type: high_nibble(b), protocol_version: low_nibble(b) }
}

/// What `parse_message_header` returns on `input`.
pub open spec fn spec_parse_message_header(input: Seq<u8>) -> Parsed<MessageHeader> {
    if input.len() < 1 {
        Err(truncated(0))
    } else {
        Ok((input.subrange(1, input.len() as int), header_of(input[0])))
    }
}

/// Reads the header byte of a message and hands back the body behind it.
pub fn parse_message_header(input: &[u8]) -> (r: Result<(&[u8], MessageHeader), ParseError>)
    ensures
        yields(r, spec_parse_message_header(input@)),
{
    let b = read_u8(input, 0)?;
    let (message_type, protocol_version) = split_nibbles(b);
    Ok((rest_from(input, 1), MessageHeader { message_type, protocol_version }))
}

/// What `parse_message_type` returns on `input`.
pub open spec fn spec_parse_message_type(input: Seq<u8>) -> Parsed<RemoteIdMessage> {
    if input.len() < 1 {
        Err(truncated(0))
    } else {
        Ok((input, RemoteIdMessage::from_spec(high_nibble(input[0]))))
    }
}

/// Looks at the kind of the message that `input` starts with, without using
/// up any of it: the whole input is handed back.
pub fn parse_message_type(input: &[u8]) -> (r: Result<(&[u8], RemoteIdMessage), ParseError>)
    ensures
        yields(r, spec_parse_message_type(input@)),
{
    let (message_type, _) = split_nibbles(read_u8(input, 0)?);
    Ok((input, RemoteIdMessage::from(message_type)))
}

/// Where the identifier of a BasicId body ends: at its first NUL byte, after
/// twenty bytes, or with the body.
pub open spec fn uas_id_end(input: Seq<u8>) -> int {
    run_end(input, 1, 1 + UAS_ID_MAX_LEN)
}

/// What `parse_basic_id` returns on `input`.
pub open spec fn spec_parse_basic_id(input: Seq<u8>) -> Parsed<BasicIdView> {
    if input.len() < 1 {
        Err(truncated(0))
    } else {
        Ok(
            (
                input.subrange(uas_id_end(input), input.len() as int),
                BasicIdView {
                    uas_id_type: UasIdType::from_spec(high_nibble(input[0])),
                    ua_type: UaType::from_spec(low_nibble(input[0])),
                    uas_id: field_text(input.subrange(1, uas_id_end(input)), Keep::Alphanumeric),
                },
            ),
        )
    }
}

/// Parses a BasicId body: one byte with the identifier's kind above the
/// aircraft's category, then the identifier, which ends at the first NUL byte
/// or after twenty bytes. Of the identifier only letters and digits are kept.
/// The bytes from the end of the identifier on are handed back.
pub fn parse_basic_id(input: &[u8]) -> (r: Result<(&[u8], BasicId), ParseError>)
    ensures
        yields_view(r, spec_parse_basic_id(input@)),
{
    let b = read_u8(input, 0)?;
    let (id_type, ua_type) = split_nibbles(b);
    let end = find_run_end(input, 1, 1 + UAS_ID_MAX_LEN);
    let field = &input[1..end];
    let uas_id = text_of_field(field, Keep::Alphanumeric);
    Ok(
        (
            rest_from(input, end),
            BasicId {
                uas_id_type: UasIdType::from(id_type),
                ua_type: UaType::from(ua_type),
                uas_id,
            },
        ),
    )
}

/// The start of the first field of a System body that an input of `len` bytes
/// cannot hold.
pub open spec fn system_message_gap(len: int) -> int {
    if len < 1 {
        0
    } else if len < 5 {
        1
    } else if len < 9 {
        5
    } else if len < 11 {
        9
    } else if len < 12 {
        11
    } else if len < 14 {
        12
    } else {
        14
    }
}

/// What `parse_system_message` returns on `input`.
pub open spec fn spec_parse_system_message(input: Seq<u8>) -> Parsed<SystemMessage> {
    if input.len() < SYSTEM_MESSAGE_LEN {
        Err(truncated(system_message_gap(input.len() as int)))
    } else {
        Ok(
            (
                input.subrange(SYSTEM_MESSAGE_LEN as int, input.len() as int),
                SystemMessage {
                    operator_location_type: OperatorLocationType::from_spec(input[0] % 4),
                    operator_latitude_int: le_i32(input, 1),
                    operator_longitude_int: le_i32(input, 5),
                    area_count: le_i16(input, 9),
                    area_radius: input[11],
                    area_ceiling: le_u16(input, 12),
                    area_floor: le_u16(input, 14),
                },
            ),
        )
    }
}

/// Parses a System body: a flag byte whose two lowest bits tell how the
/// operator's position was obtained, the operator's latitude and longitude
/// (`i32`), the area count (`i16`), the area radius (`u8`), the area ceiling
/// and the area floor (`u16`).
pub fn parse_system_message(input: &[u8]) -> (r: Result<(&[u8], SystemMessage), ParseError>)
    ensures
        yields(r, spec_parse_system_message(input@)),
{
    let flags = read_u8(input, 0)?;
    let operator_latitude_int = read_i32_le(input, 1)?;
    let operator_longitude_int = read_i32_le(input, 5)?;
    let area_count = read_i16_le(input, 9)?;
    let area_radius = read_u8(input, 11)?;
    let area_ceiling = read_u16_le(input, 12)?;
    let area_floor = read_u16_le(input, 14)?;
    Ok(
        (
            rest_from(input, SYSTEM_MESSAGE_LEN),
            SystemMessage {
                operator_location_type: OperatorLocationType::from(flags % 4),
                operator_latitude_int,
                operator_longitude_int,
                area_count,
                area_radius,
                area_ceiling,
                area_floor,
            },
        ),
    )
}

/// Where the identifier of an OperatorId body ends: at its first NUL byte or
/// with the body.
pub open spec fn operator_id_end(input: Seq<u8>) -> int {
    run_end(input, 1, input.len() as int)
}

/// What `parse_operator_id` returns on `input`.
pub open spec fn spec_parse_operator_id(input: Seq<u8>) -> Parsed<OperatorView> {
    if input.len() < 1 {
        Err(truncated(0))
    } else {
        Ok(
            (
                input.subrange(operator_id_end(input), input.len() as int),
                OperatorView {
                    operator_id_type: input[0],
                    operator_id: field_text(
                        input.subrange(1, operator_id_end(input)),
                        Keep::Printable,
                    ),
                },
            ),
        )
    }
}

/// Parses an OperatorId body: the identifier's kind, then the identifier up
/// to the first NUL byte, of which the printable ASCII characters are kept.
/// The bytes from the end of the identifier on are handed back.
pub fn parse_operator_id(input: &[u8]) -> (r: Result<(&[u8], Operator), ParseError>)
    ensures
        yields_view(r, spec_parse_operator_id(input@)),
{
    let operator_id_type = read_u8(input, 0)?;
    let end = find_run_end(input, 1, input.len());
    let field = &input[1..end];
    let operator_id = text_of_field(field, Keep::Printable);
    Ok((rest_from(input, end), Operator { operator_id_type, operator_id }))
}

/// The start of the first field of a Location body that an input of `len`
/// bytes cannot hold.
pub open spec fn location_gap(len: int) -> int {
    if len < 1 {
        0
    } else if len < 2 {
        1
    } else if len < 3 {
        2
    } else if len < 4 {
        3
    } else if len < 8 {
        4
    } else if len < 12 {
        8
    } else if len < 14 {
        12
    } else if len < 16 {
        14
    } else if len < 18 {
        16
    } else if len < 19 {
        18
    } else if len < 20 {
        19
    } else {
        20
    }
}

/// What `parse_location` returns on `input`.
pub open spec fn spec_parse_location(input: Seq<u8>) -> Parsed<Location> {
    if input.len() < LOCATION_LEN {
        Err(truncated(location_gap(input.len() as int)))
    } else {
        Ok(
            (
                input.subrange(LOCATION_LEN as int, input.len() as int),
                Location {
                    status: high_nibble(input[0]),
                    height_type: bit_at(input[0], 4),
                    ew_direction: bit_at(input[0], 2),
                    speed_multiplier: bit_at(input[0], 1),
                    tracking_direction: input[1],
                    speed: input[2],
                    vertical_speed: input[3],
                    latitude_int: le_i32(input, 4),
                    longitude_int: le_i32(input, 8),
                    altitude_pressure: le_u16(input, 12),
                    altitude_geodetic: le_u16(input, 14),
                    height: le_i16(input, 16),
                    horizontal_accuracy: high_nibble(input[18]),
                    vertical_accuracy: low_nibble(input[18]),
                    barometric_altitude_accuracy: high_nibble(input[19]),
                    speed_accuracy: low_nibble(input[19]),
                    timestamp: le_u16(input, 20),
                },
            ),
        )
    }
}

/// Parses a Location body. The first byte holds the status in its upper four
/// bits, then a reserved bit, the height type (bit 2), the east/west direction
/// (bit 1) and the speed multiplier (bit 0), each of which is read as 0 or 1.
/// Then: tracking direction, speed,
/// vertical speed (`u8`), latitude, longitude (`i32`), pressure altitude,
/// geodetic altitude (`u16`), height (`i16`), a byte with the horizontal
/// accuracy above the vertical, a byte with the barometric altitude accuracy
/// above the speed accuracy, and the timestamp (`u16`).
pub fn parse_location(input: &[u8]) -> (r: Result<(&[u8], Location), ParseError>)
    ensures
        yields(r, spec_parse_location(input@)),
{
    let first = read_u8(input, 0)?;
    let (status, _) = split_nibbles(first);
    let height_type = bit2(first);
    let ew_direction = bit1(first);
    let speed_multiplier = bit0(first);
    let tracking_direction = read_u8(input, 1)?;
    let speed = read_u8(input, 2)?;
    let vertical_speed = read_u8(input, 3)?;
    let latitude_int = read_i32_le(input, 4)?;
    let longitude_int = read_i32_le(input, 8)?;
    let altitude_pressure = read_u16_le(input, 12)?;
    let altitude_geodetic = read_u16_le(input, 14)?;
    let height = read_i16_le(input, 16)?;
    let accuracy = read_u8(input, 18)?;
    let (horizontal_accuracy, vertical_accuracy) = split_nibbles(accuracy);
    let more_accuracy = read_u8(input, 19)?;
    let (barometric_altitude_accuracy, speed_accuracy) = split_nibbles(more_accuracy);
    let timestamp = read_u16_le(input, 20)?;
    Ok(
        (
            rest_from(input, LOCATION_LEN),
            Location {
                status,
                height_type,
                ew_direction,
                speed_multiplier,
                tracking_direction,
                speed,
                vertical_speed,
                latitude_int,
                longitude_int,
                altitude_pressure,
                altitude_geodetic,
                height,
                horizontal_accuracy,
                vertical_accuracy,
                barometric_altitude_accuracy,
                speed_accuracy,
                timestamp,
            },
        ),
    )
}

/// The start of the first field of an Authentication head that an input of
/// `len` bytes cannot hold.
pub open spec fn authentication_gap(len: int) -> int {
    if len < 1 {
        0
    } else if len < 2 {
        1
    } else if len < 3 {
        2
    } else {
        3
    }
}

/// What `parse_authentication` returns on `input`.
pub open spec fn spec_parse_authentication(input: Seq<u8>) -> Result<
    AuthenticationView,
    ParseError,
> {
    if input.len() < AUTHENTICATION_HEAD_LEN {
        Err(truncated(authentication_gap(input.len() as int)))
    } else {
        Ok(
            AuthenticationView {
                auth_type: input[0],
                page: input[1],
                length: input[2],
                timestamp: le_u24(input, 3),
                auth_data: input.subrange(AUTHENTICATION_HEAD_LEN as int, input.len() as int),
            },
        )
    }
}

/// Reads the head of an Authentication body (type, page, length, and a
/// 24-bit timestamp) and keeps every byte behind it as it is.
pub fn parse_authentication(input: &[u8]) -> (r: Result<Authentication, ParseError>)
    ensures
        match (r, spec_parse_authentication(input@)) {
            (Ok(a), Ok(m)) => a@ == m,
            (Err(e), Err(m_e)) => e == m_e,
            _ => false,
        },
{
    let auth_type = read_u8(input, 0)?;
    let page = read_u8(input, 1)?;
    let length = read_u8(input, 2)?;
    let timestamp = read_u24_le(input, 3)?;
    let auth_data = slice_to_vec(rest_from(input, AUTHENTICATION_HEAD_LEN));
    Ok(Authentication { auth_type, page, length, timestamp, auth_data })
}

/// What `parse_message` returns for a body announced as `message_type`.
pub open spec fn spec_parse_message(message_type: u8, body: Seq<u8>) -> Result<
    OdidMessageView,
    ParseError,
> {
    if message_type == 0 {
        match spec_parse_basic_id(body) {
            Ok((_, b)) => Ok(OdidMessageView::BasicId(b)),
            Err(e) => Err(e),
        }
    } else if message_type == 1 {
        match spec_parse_location(body) {
            Ok((_, l)) => Ok(OdidMessageView::Location(l)),
            Err(e) => Err(e),
        }
    } else if message_type == 2 {
        Ok(OdidMessageView::Authentication(body))
    } else if message_type == 3 {
        Ok(OdidMessageView::SelfId(body))
    } else if message_type == 4 {
        match spec_parse_system_message(body) {
            Ok((_, s)) => Ok(OdidMessageView::System(s)),
            Err(e) => Err(e),
        }
    } else if message_type == 5 {
        match spec_parse_operator_id(body) {
            Ok((_, o)) => Ok(OdidMessageView::OperatorId(o)),
            Err(e) => Err(e),
        }
    } else if message_type == 15 {
        Ok(OdidMessageView::MessagePack)
    } else {
        Ok(OdidMessageView::Unknown)
    }
}

/// Decodes one message body by the kind that its header announced: 0 BasicId,
/// 1 Location, 2 Authentication and 3 SelfId (both kept as bytes), 4 System,
/// 5 OperatorId, 15 a message pack (not opened here). Any other kind is
/// `Unknown`, and no failure.
pub fn parse_message(message_type: u8, body: &[u8]) -> (r: Result<OdidMessage, ParseError>)
    ensures
        match (r, spec_parse_message(message_type, body@)) {
            (Ok(m), Ok(v)) => m@ == v,
            (Err(e), Err(m_e)) => e == m_e,
            _ => false,
        },
{
    match message_type {
        0 => {
            let (_, basic_id) = parse_basic_id(body)?;
            Ok(OdidMessage::BasicId(basic_id))
        },
        1 => {
            let (_, location) = parse_location(body)?;
            Ok(OdidMessage::Location(location))
        },
        2 => Ok(OdidMessage::Authentication(slice_to_vec(body))),
        3 => Ok(OdidMessage::SelfId(slice_to_vec(body))),
        4 => {
            let (_, system_message) = parse_system_message(body)?;
            Ok(OdidMessage::System(system_message))
        },
        5 => {
            let (_, operator) = parse_operator_id(body)?;
            Ok(OdidMessage::OperatorId(operator))
        },
        15 => Ok(OdidMessage::MessagePack),
        _ => Ok(OdidMessage::Unknown),
    }
}

} // verus!
