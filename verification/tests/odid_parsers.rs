use trebuchet::bluetooth::parse_bluetooth_advertisement_frame;
use trebuchet::odid::{
    parse_authentication, parse_basic_id, parse_location, parse_message, parse_message_header,
    parse_message_type, parse_operator_id, parse_system_message, Location, MessageHeader,
    OdidMessage, OperatorLocationType, RemoteIdMessage, SystemMessage, UaType, UasIdType,
};
use trebuchet::wire::{ParseError, ParseErrorKind};

/// A Location message as it is broadcast over Bluetooth: 25 bytes.
fn location_packet() -> Vec<u8> {
    vec![
        0x12, 0x10, 0x00, 0x00, 0, 62, 10, 87, 21, 197, 154, 238, 0xc9, 0x00, 0x00, 0x58, 0x08,
        0xd2, 0x07, 0x4b, 0x02, 0xe5, 0x00, 0x00, 0x00,
    ]
}

/// The service data of an advertisement with that message.
fn bluetooth_location_packet() -> Vec<u8> {
    let mut bytes = vec![0x0d, 33];
    bytes.extend(location_packet());
    bytes
}

/// A System message: 25 bytes.
fn system_packet() -> Vec<u8> {
    vec![
        0x42, 0, 13, 10, 87, 21, 232, 154, 238, 201, 1, 0, 0, 0, 0, 0, 0, 0, 0, 0, 0, 0, 0, 0, 0,
    ]
}

/// A BasicId message body: the identifier of a drone, NUL-padded.
fn basic_id_packet() -> Vec<u8> {
    let mut bytes = vec![0x02];
    bytes.extend("1787F04BM24010011039".bytes());
    bytes.extend([0u8, 0, 0]);
    bytes
}

fn truncated(offset: usize) -> ParseError {
    ParseError { kind: ParseErrorKind::Truncated, offset }
}

#[test]
fn test_parse_bluetooth_advertisement_frame() {
    let input = bluetooth_location_packet();

    let bt_advertisement_frame = match parse_bluetooth_advertisement_frame(&input) {
        Ok((_, frame)) => Some(frame),
        Err(e) => {
            println!("Failed to parse Bluetooth advertisement frame: {:?}", e);
            None
        }
    };

    assert_eq!(bt_advertisement_frame.is_some(), true);

    let bt_advertisement_frame = bt_advertisement_frame.unwrap();

    assert_eq!(bt_advertisement_frame.app_code, 0x0d);
    assert_eq!(bt_advertisement_frame.counter, 33);
    assert_eq!(bt_advertisement_frame.message.len(), 25);

    let location: Option<Location> = match parse_location(&bt_advertisement_frame.message) {
        Ok((_, location)) => Some(location),
        Err(_) => None,
    };

    assert_eq!(location.is_some(), true);

    let location = location.unwrap();

    assert_eq!(location.latitude_int, 1460289024);
    assert_eq!(location.longitude_int, -291846891);
    assert_eq!(location.timestamp, 58626);
    assert_eq!(location.status, 1);
    assert_eq!(location.vertical_accuracy, 7);
}

#[test]
fn test_parse_message_type() {
    let bytes = system_packet();

    let message_type: Option<RemoteIdMessage> = match parse_message_type(&bytes) {
        Ok((_, message_type)) => Some(message_type),
        Err(_) => None,
    };

    assert_eq!(message_type.is_some(), true);

    let message_type = message_type.unwrap();

    assert_eq!(message_type, RemoteIdMessage::SystemMessage);
}

#[test]
fn test_parse_basic_id() {
    let bytes = basic_id_packet();

    let basic_id = match parse_basic_id(&bytes) {
        Ok((_, basic_id)) => Some(basic_id),
        Err(_) => None,
    };

    assert_eq!(basic_id.is_some(), true);

    let basic_id = basic_id.unwrap();

    assert_eq!(basic_id.uas_id_type, UasIdType::SerialNumber);
    assert_eq!(basic_id.ua_type, UaType::HelicopterOrDrone);
    assert_eq!(basic_id.uas_id, "1787F04BM24010011039");
}

#[test]
fn test_parse_location_message() {
    let bytes = location_packet();
    let bytes = &bytes[..];

    let location_message: Option<Location> = match parse_location(&bytes) {
        Ok((_, location_message)) => Some(location_message),
        Err(e) => {
            println!("Failed to parse location message: {:?}", e);
            None
        }
    };

    assert_eq!(location_message.is_some(), true);

    let location_message = location_message.unwrap();

    assert_eq!(location_message.status, 0x1);
    assert_eq!(location_message.height_type, 0x0);
    assert_eq!(location_message.ew_direction, 0x1);
    assert_eq!(location_message.speed_multiplier, 0x0);
    assert_eq!(location_message.tracking_direction, 0x10);
    assert_eq!(location_message.speed, 0x0);
    assert_eq!(location_message.vertical_speed, 0x0);
    assert_eq!(location_message.latitude_int, 1460289024);
    assert_eq!(location_message.longitude_int, -291846891);
    assert_eq!(location_message.altitude_pressure, 0xc9);
    assert_eq!(location_message.altitude_geodetic, 22528);
    assert_eq!(location_message.height, -11768);
    assert_eq!(location_message.horizontal_accuracy, 0x0);
    assert_eq!(location_message.vertical_accuracy, 0x7);
    assert_eq!(location_message.barometric_altitude_accuracy, 0x4);
    assert_eq!(location_message.speed_accuracy, 0x0b);
    assert_eq!(location_message.timestamp, 58626);
}

#[test]
fn test_parse_system_message() {
    let bytes = system_packet();
    let bytes = &bytes[..];

    let system_message: Option<SystemMessage> = match parse_system_message(&bytes) {
        Ok((_, system_message)) => Some(system_message),
        Err(_) => None,
    };

    assert_eq!(system_message.is_some(), true);

    let system_message = system_message.unwrap();

    assert_eq!(
        system_message.operator_location_type,
        OperatorLocationType::FixedLocation
    );
    assert_eq!(system_message.operator_latitude_int, 1460276480);
    assert_eq!(system_message.operator_longitude_int, -291837931);
    assert_eq!(system_message.area_count, 457);
    assert_eq!(system_message.area_radius, 0x0);
    assert_eq!(system_message.area_ceiling, 0x0);
    assert_eq!(system_message.area_floor, 0x0);
}

#[test]
fn location_hands_back_what_it_did_not_use() {
    let bytes = location_packet();
    let (rest, _) = parse_location(&bytes).unwrap();
    assert_eq!(rest, &[0u8, 0, 0][..]);
}

#[test]
fn location_flag_bits_are_zero_or_one() {
    let mut bytes = location_packet();
    bytes[0] = 0xf7;
    let (_, location) = parse_location(&bytes).unwrap();
    assert_eq!(location.status, 0xf);
    assert_eq!(location.height_type, 1);
    assert_eq!(location.ew_direction, 1);
    assert_eq!(location.speed_multiplier, 1);
    bytes[0] = 0x14;
    let (_, location) = parse_location(&bytes).unwrap();
    assert_eq!(location.status, 1);
    assert_eq!(location.height_type, 1);
    assert_eq!(location.ew_direction, 0);
    assert_eq!(location.speed_multiplier, 0);
    bytes[0] = 0x08;
    let (_, location) = parse_location(&bytes).unwrap();
    assert_eq!(location.status, 0);
    assert_eq!(location.height_type, 0);
    assert_eq!(location.ew_direction, 0);
    assert_eq!(location.speed_multiplier, 0);
}

#[test]
fn location_too_short_names_the_missing_field() {
    let bytes = location_packet();
    assert_eq!(parse_location(&bytes[..0]).unwrap_err(), truncated(0));
    assert_eq!(parse_location(&bytes[..3]).unwrap_err(), truncated(3));
    assert_eq!(parse_location(&bytes[..7]).unwrap_err(), truncated(4));
    assert_eq!(parse_location(&bytes[..8]).unwrap_err(), truncated(8));
    assert_eq!(parse_location(&bytes[..13]).unwrap_err(), truncated(12));
    assert_eq!(parse_location(&bytes[..17]).unwrap_err(), truncated(16));
    assert_eq!(parse_location(&bytes[..19]).unwrap_err(), truncated(19));
    assert_eq!(parse_location(&bytes[..21]).unwrap_err(), truncated(20));
    assert!(parse_location(&bytes[..22]).is_ok());
}

#[test]
fn negative_integers_are_twos_complement() {
    let mut bytes = location_packet();
    bytes[4..8].copy_from_slice(&[0xff, 0xff, 0xff, 0xff]);
    bytes[8..12].copy_from_slice(&[0x00, 0x00, 0x00, 0x80]);
    bytes[16..18].copy_from_slice(&[0x00, 0x80]);
    let (_, location) = parse_location(&bytes).unwrap();
    assert_eq!(location.latitude_int, -1);
    assert_eq!(location.longitude_int, i32::MIN);
    assert_eq!(location.height, i16::MIN);
    bytes[4..8].copy_from_slice(&[0xff, 0xff, 0xff, 0x7f]);
    bytes[16..18].copy_from_slice(&[0xff, 0x7f]);
    bytes[20..22].copy_from_slice(&[0xff, 0xff]);
    let (_, location) = parse_location(&bytes).unwrap();
    assert_eq!(location.latitude_int, i32::MAX);
    assert_eq!(location.height, i16::MAX);
    assert_eq!(location.timestamp, u16::MAX);
}

#[test]
fn system_message_too_short_names_the_missing_field() {
    let bytes = system_packet();
    assert_eq!(parse_system_message(&bytes[..0]).unwrap_err(), truncated(0));
    assert_eq!(parse_system_message(&bytes[..4]).unwrap_err(), truncated(1));
    assert_eq!(parse_system_message(&bytes[..8]).unwrap_err(), truncated(5));
    assert_eq!(parse_system_message(&bytes[..10]).unwrap_err(), truncated(9));
    assert_eq!(parse_system_message(&bytes[..11]).unwrap_err(), truncated(11));
    assert_eq!(parse_system_message(&bytes[..13]).unwrap_err(), truncated(12));
    assert_eq!(parse_system_message(&bytes[..15]).unwrap_err(), truncated(14));
    let (rest, _) = parse_system_message(&bytes[..16]).unwrap();
    assert!(rest.is_empty());
}

#[test]
fn system_message_location_type_takes_two_bits() {
    let mut bytes = system_packet();
    bytes[0] = 0xfc;
    assert_eq!(
        parse_system_message(&bytes).unwrap().1.operator_location_type,
        OperatorLocationType::TakeOff
    );
    bytes[0] = 0x01;
    assert_eq!(
        parse_system_message(&bytes).unwrap().1.operator_location_type,
        OperatorLocationType::LiveGNSS
    );
    bytes[0] = 0x03;
    assert_eq!(
        parse_system_message(&bytes).unwrap().1.operator_location_type,
        OperatorLocationType::Other(3)
    );
}

#[test]
fn basic_id_keeps_letters_and_digits_only() {
    let bytes = [0x10, b'A', b'-', b'1', b'/', b'z', 0x12, b' ', 0xc3, b'9', 0, b'X'];
    let (rest, basic_id) = parse_basic_id(&bytes).unwrap();
    assert_eq!(basic_id.uas_id, "A1z9");
    assert_eq!(basic_id.uas_id_type, UasIdType::CaaRegistration);
    assert_eq!(basic_id.ua_type, UaType::Undeclared);
    assert_eq!(rest, &[0u8, b'X'][..]);
}

#[test]
fn basic_id_stops_after_twenty_bytes() {
    let mut bytes = vec![0x2f];
    bytes.extend("ABCDEFGHIJKLMNOPQRSTUVWXYZ".bytes());
    let (rest, basic_id) = parse_basic_id(&bytes).unwrap();
    assert_eq!(basic_id.uas_id, "ABCDEFGHIJKLMNOPQRST");
    assert_eq!(basic_id.uas_id_type, UasIdType::UtmId);
    assert_eq!(basic_id.ua_type, UaType::Other(15));
    assert_eq!(rest, "UVWXYZ".as_bytes());
}

#[test]
fn basic_id_of_one_byte_has_no_identifier() {
    let (rest, basic_id) = parse_basic_id(&[0x3e]).unwrap();
    assert_eq!(basic_id.uas_id, "");
    assert_eq!(basic_id.uas_id_type, UasIdType::Other(3));
    assert_eq!(basic_id.ua_type, UaType::GroundObstacle);
    assert!(rest.is_empty());
    assert_eq!(parse_basic_id(&[]).unwrap_err(), truncated(0));
}

#[test]
fn every_aircraft_category_has_its_code() {
    let expected = [
        UaType::Undeclared,
        UaType::Aeroplane,
        UaType::HelicopterOrDrone,
        UaType::Gyroplane,
        UaType::HybridLift,
        UaType::Ornithopter,
        UaType::Glider,
        UaType::Kite,
        UaType::FreeBalloon,
        UaType::CaptiveBalloon,
        UaType::Airship,
        UaType::FreeFallParachute,
        UaType::Rocket,
        UaType::TetheredAircraft,
        UaType::GroundObstacle,
        UaType::Other(15),
    ];
    for code in 0u8..16 {
        assert_eq!(UaType::from(code), expected[code as usize]);
    }
    assert_eq!(UasIdType::from(0), UasIdType::SerialNumber);
    assert_eq!(UasIdType::from(1), UasIdType::CaaRegistration);
    assert_eq!(UasIdType::from(2), UasIdType::UtmId);
    assert_eq!(UasIdType::from(9), UasIdType::Other(9));
}

#[test]
fn every_message_kind_has_its_code() {
    assert_eq!(RemoteIdMessage::from(0), RemoteIdMessage::BasicId);
    assert_eq!(RemoteIdMessage::from(1), RemoteIdMessage::Location);
    assert_eq!(RemoteIdMessage::from(2), RemoteIdMessage::Authentication);
    assert_eq!(RemoteIdMessage::from(3), RemoteIdMessage::SelfId);
    assert_eq!(RemoteIdMessage::from(4), RemoteIdMessage::SystemMessage);
    assert_eq!(RemoteIdMessage::from(5), RemoteIdMessage::OperatorId);
    assert_eq!(RemoteIdMessage::from(0xf), RemoteIdMessage::MessagePack);
    for code in 6u8..15 {
        assert_eq!(RemoteIdMessage::from(code), RemoteIdMessage::Unknown);
    }
}

#[test]
fn operator_id_keeps_printable_characters() {
    let bytes = [7, b'F', b'I', b'N', b'-', b'8', b'7', 0x07, b' ', b'x', 0x7f, 0, 1, 2];
    let (rest, operator) = parse_operator_id(&bytes).unwrap();
    assert_eq!(operator.operator_id_type, 7);
    assert_eq!(operator.operator_id, "FIN-87 x");
    assert_eq!(rest, &[0u8, 1, 2][..]);
    assert_eq!(parse_operator_id(&[]).unwrap_err(), truncated(0));
}

#[test]
fn operator_id_runs_to_the_end_without_a_nul() {
    let mut bytes = vec![0];
    bytes.extend("OPERATOR-0123456789-0123456789".bytes());
    let (rest, operator) = parse_operator_id(&bytes).unwrap();
    assert_eq!(operator.operator_id, "OPERATOR-0123456789-0123456789");
    assert!(rest.is_empty());
}

#[test]
fn authentication_keeps_its_bytes() {
    let bytes = [1, 2, 3, 0x01, 0x02, 0x03, 9, 8, 7];
    let authentication = parse_authentication(&bytes).unwrap();
    assert_eq!(authentication.auth_type, 1);
    assert_eq!(authentication.page, 2);
    assert_eq!(authentication.length, 3);
    assert_eq!(authentication.timestamp, 0x030201);
    assert_eq!(authentication.auth_data, vec![9, 8, 7]);
    assert_eq!(parse_authentication(&bytes[..2]).unwrap_err(), truncated(2));
    assert_eq!(parse_authentication(&bytes[..5]).unwrap_err(), truncated(3));
}

#[test]
fn message_header_splits_kind_and_version() {
    let (rest, header) = parse_message_header(&[0xf2, 1, 2]).unwrap();
    assert_eq!(header, MessageHeader { message_type: 0xf, protocol_version: 2 });
    assert_eq!(rest, &[1u8, 2][..]);
    assert_eq!(parse_message_header(&[]).unwrap_err(), truncated(0));
}

#[test]
fn message_type_needs_one_byte_and_uses_none() {
    assert_eq!(parse_message_type(&[]).unwrap_err(), truncated(0));
    let bytes = [0x10, 0, 0, 0];
    let (rest, kind) = parse_message_type(&bytes).unwrap();
    assert_eq!(kind, RemoteIdMessage::Location);
    assert_eq!(rest, &bytes[..]);
    let (rest, kind) = parse_message_type(&bytes[..1]).unwrap();
    assert_eq!(kind, RemoteIdMessage::Location);
    assert_eq!(rest, &bytes[..1]);
    let (rest, kind) = parse_message_type(&[0x52, 7]).unwrap();
    assert_eq!(kind, RemoteIdMessage::OperatorId);
    assert_eq!(rest, &[0x52u8, 7][..]);
}

#[test]
fn message_is_parsed_as_its_kind() {
    let location = location_packet();
    assert!(matches!(parse_message(1, &location), Ok(OdidMessage::Location(_))));
    assert!(matches!(parse_message(0, &basic_id_packet()), Ok(OdidMessage::BasicId(_))));
    assert!(matches!(parse_message(4, &system_packet()), Ok(OdidMessage::System(_))));
    assert!(matches!(parse_message(5, &[1, b'a']), Ok(OdidMessage::OperatorId(_))));
    match parse_message(2, &[1, 2, 3]) {
        Ok(OdidMessage::Authentication(bytes)) => assert_eq!(bytes, vec![1, 2, 3]),
        other => panic!("not an authentication message: {:?}", other),
    }
    match parse_message(3, &[4, 5]) {
        Ok(OdidMessage::SelfId(bytes)) => assert_eq!(bytes, vec![4, 5]),
        other => panic!("not a self id message: {:?}", other),
    }
    assert!(matches!(parse_message(0xf, &[]), Ok(OdidMessage::MessagePack)));
    assert!(matches!(parse_message(9, &[]), Ok(OdidMessage::Unknown)));
    assert_eq!(parse_message(1, &location[..10]).unwrap_err(), truncated(8));
    assert_eq!(parse_message(4, &[]).unwrap_err(), truncated(0));
}

#[test]
fn parsing_twice_gives_the_same() {
    let bytes = location_packet();
    assert_eq!(parse_location(&bytes).unwrap(), parse_location(&bytes).unwrap());
    let bytes = system_packet();
    assert_eq!(parse_system_message(&bytes).unwrap(), parse_system_message(&bytes).unwrap());
    let bytes = basic_id_packet();
    let (first_rest, first) = parse_basic_id(&bytes).unwrap();
    let (second_rest, second) = parse_basic_id(&bytes).unwrap();
    assert_eq!(first_rest, second_rest);
    assert_eq!(first.uas_id, second.uas_id);
    assert_eq!(first.uas_id_type, second.uas_id_type);
    assert_eq!(first.ua_type, second.ua_type);
    assert_eq!(parse_location(&bytes[..5]), parse_location(&bytes[..5]));
}

#[test]
fn bluetooth_frame_needs_its_application_code() {
    let mut bytes = bluetooth_location_packet();
    bytes[0] = 0x0c;
    assert_eq!(
        parse_bluetooth_advertisement_frame(&bytes).unwrap_err(),
        ParseError { kind: ParseErrorKind::WrongSentinel, offset: 0 }
    );
}

#[test]
fn bluetooth_frame_too_short_is_truncated() {
    let bytes = bluetooth_location_packet();
    assert_eq!(parse_bluetooth_advertisement_frame(&[]).unwrap_err(), truncated(0));
    assert_eq!(parse_bluetooth_advertisement_frame(&bytes[..1]).unwrap_err(), truncated(1));
    assert_eq!(parse_bluetooth_advertisement_frame(&bytes[..26]).unwrap_err(), truncated(2));
    let mut longer = bytes.clone();
    longer.push(0xaa);
    let (rest, frame) = parse_bluetooth_advertisement_frame(&longer).unwrap();
    assert_eq!(rest, &[0xaau8][..]);
    assert_eq!(&frame.message[..], &bytes[2..]);
}
