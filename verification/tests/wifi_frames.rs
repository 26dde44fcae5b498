use trebuchet::drone::{DroneRegistry, StoreAction};
use trebuchet::wifi::{
    classify_frame, decode_frame, decode_messages, is_action_frame, is_beacon_frame,
    parse_action_frame, parse_beacon_frame, parse_open_drone_id_message_pack,
    parse_service_descriptor_attribute, process_frame, process_wifi_frame,
    remove_radiotap_header, strip_radiotap_header, FrameKind, ASDSTAN_OUI, NAN_SERVICE_ID,
    WIFI_ALLIANCE_OUI,
};
use trebuchet::odid::OdidMessage;
use trebuchet::wire::{ParseError, ParseErrorKind};

fn truncated(offset: usize) -> ParseError {
    ParseError { kind: ParseErrorKind::Truncated, offset }
}

/// One record of a pack: a header byte and 24 bytes of body.
fn record(header: u8, body: &[u8]) -> Vec<u8> {
    let mut bytes = vec![header];
    bytes.extend(body);
    bytes.resize(25, 0);
    bytes
}

fn basic_id_record() -> Vec<u8> {
    let mut body = vec![0x02];
    body.extend("1787F04BM24010011039".bytes());
    record(0x02, &body)
}

fn location_record() -> Vec<u8> {
    record(
        0x12,
        &[
            0x10, 90, 100, 4, 0, 62, 10, 87, 21, 197, 154, 238, 0xc9, 0x00, 0x00, 0x58, 0x08,
            0xd2, 0x07, 0x4b, 0x02, 0xe5,
        ],
    )
}

fn system_record() -> Vec<u8> {
    record(0x42, &[0x02, 0, 13, 10, 87, 21, 232, 154, 238, 201, 1, 0, 0, 0, 0, 0])
}

fn operator_record() -> Vec<u8> {
    let mut body = vec![0x00];
    body.extend("FIN87astrdge12k8".bytes());
    record(0x52, &body)
}

fn self_id_record() -> Vec<u8> {
    let mut body = vec![0x00];
    body.extend("Survey flight".bytes());
    record(0x32, &body)
}

/// A message pack of four records of 25 bytes.
fn pack_of(records: &[Vec<u8>]) -> Vec<u8> {
    let mut bytes = vec![0xf2, 0x19, records.len() as u8];
    for r in records {
        bytes.extend(r);
    }
    bytes
}

fn observed_pack() -> Vec<u8> {
    pack_of(&[basic_id_record(), system_record(), location_record(), self_id_record()])
}

fn complete_pack() -> Vec<u8> {
    pack_of(&[basic_id_record(), location_record(), system_record(), operator_record()])
}

/// A Service Descriptor Attribute around a pack.
fn service_descriptor(pack: &[u8]) -> Vec<u8> {
    let mut bytes = vec![0x03];
    let length = (pack.len() + 11) as u16;
    bytes.extend(length.to_le_bytes());
    bytes.extend(NAN_SERVICE_ID);
    bytes.extend([0x01, 0x00, 0x10, (pack.len() + 1) as u8, 0x2a]);
    bytes.extend(pack);
    bytes
}

/// The 802.11 header up to the sequence control.
fn mac_header(first: u8) -> Vec<u8> {
    let mut bytes = vec![first, 0x00, 0x00, 0x00];
    bytes.extend([0xff; 6]);
    bytes.extend([0x60, 0x60, 0x1f, 0x11, 0x22, 0x33]);
    bytes.extend([0x60, 0x60, 0x1f, 0x11, 0x22, 0x33]);
    bytes.extend([0x50, 0x1c]);
    bytes
}

/// A NAN action frame around a pack.
fn action_frame(pack: &[u8]) -> Vec<u8> {
    let mut bytes = mac_header(0xd0);
    bytes.extend([0x04, 0x09]);
    bytes.extend(WIFI_ALLIANCE_OUI);
    bytes.push(0x13);
    bytes.extend(service_descriptor(pack));
    bytes
}

/// A beacon frame whose vendor tag holds a pack.
fn beacon_frame(pack: &[u8]) -> Vec<u8> {
    let mut bytes = mac_header(0x80);
    bytes.extend([0; 12]);
    bytes.extend([0x00, 0x04, b'D', b'r', b'n', b'e']);
    bytes.extend([0x01, 0x01, 0x82]);
    bytes.extend([0xdd, 0x05, 0x00, 0x50, 0xf2, 0x02, 0x01]);
    bytes.extend([0xdd, (pack.len() + 4) as u8]);
    bytes.extend(ASDSTAN_OUI);
    bytes.extend([0x0d, 0x07]);
    bytes.extend(pack);
    bytes
}

/// A radiotap header of eight bytes: version 0, no fields.
fn captured(frame: &[u8]) -> Vec<u8> {
    let mut bytes = vec![0x00, 0x00, 0x08, 0x00, 0x00, 0x00, 0x00, 0x00];
    bytes.extend(frame);
    bytes
}

#[test]
fn nan_action_frame_carries_a_pack_of_four() {
    let data = captured(&action_frame(&observed_pack()));
    let payload = remove_radiotap_header(&data);

    let (rest, frame) = parse_action_frame(payload).unwrap();
    assert!(rest.is_empty());
    assert_eq!(frame.frame_control, 0xd0);
    assert_eq!(frame.frame_control_version, 0x0);
    assert_eq!(frame.frame_control_type, 0x0);
    assert_eq!(frame.frame_control_subtype, 0xd);
    assert_eq!(frame.oui, WIFI_ALLIANCE_OUI);
    assert_eq!(frame.oui, [0x50, 0x6f, 0x9a]);
    assert_eq!(frame.oui_type, 0x13);
    assert_eq!(frame.category, 0x04);
    assert_eq!(frame.action, 0x09);
    assert_eq!(frame.address1, &[0xffu8; 6][..]);
    assert_eq!(frame.address2, &[0x60u8, 0x60, 0x1f, 0x11, 0x22, 0x33][..]);
    assert_eq!(frame.sequence_control, 0x1c50);

    let (rest, attribute) = parse_service_descriptor_attribute(frame.body).unwrap();
    assert!(rest.is_empty());
    assert_eq!(attribute.attribute_id, 0x3);
    assert_eq!(attribute.service_id, NAN_SERVICE_ID);
    assert_eq!(attribute.service_id, &[0x88u8, 0x69, 0x19, 0x9d, 0x92, 0x09][..]);
    assert_eq!(attribute.instance_id, 0x1);
    assert_eq!(attribute.requestor_id, 0x0);
    assert_eq!(attribute.service_control, 0x10);
    assert_eq!(attribute.service_info_length, 104);
    assert_eq!(attribute.message_counter, 0x2a);
    assert_eq!(attribute.attribute_length, 114);

    let (rest, pack) = parse_open_drone_id_message_pack(attribute.service_info).unwrap();
    assert!(rest.is_empty());
    assert_eq!(pack.message_type, 0xf);
    assert_eq!(pack.version, 0x2);
    assert_eq!(pack.single_msg_size, 0x19);
    assert_eq!(pack.num_messages, 4);
    assert_eq!(pack.messages.len(), 4);
    assert_eq!(pack.messages[0].message_type, 0x0);
    assert_eq!(pack.messages[1].message_type, 0x4);
    assert_eq!(pack.messages[2].message_type, 0x1);
    assert_eq!(pack.messages[3].message_type, 0x3);
    assert_eq!(pack.messages[2].version, 0x2);
    assert_eq!(pack.messages[2].message_body.len(), 24);
    assert_eq!(pack.messages[2].message_body[..], location_record()[1..]);
}

#[test]
fn radiotap_header_is_stripped_by_its_length() {
    let frame = action_frame(&observed_pack());
    let data = captured(&frame);
    assert_eq!(remove_radiotap_header(&data), &frame[..]);

    // A header of 12 bytes with one field, the rate.
    let mut longer = vec![0x00, 0x00, 0x0c, 0x00, 0x04, 0x00, 0x00, 0x00, 0x02, 0x00, 0x00, 0x00];
    longer.extend(&frame);
    assert_eq!(remove_radiotap_header(&longer), &frame[..]);
}

#[test]
fn frame_without_radiotap_header_comes_back_untouched() {
    // Another version than 0.
    let mut data = captured(&[0xd0, 1, 2, 3]);
    data[0] = 1;
    assert_eq!(remove_radiotap_header(&data), &data[..]);
    // A length beyond the end of the capture.
    let mut data = captured(&[0xd0, 1, 2, 3]);
    data[2] = 200;
    assert_eq!(remove_radiotap_header(&data), &data[..]);
    // Too short for a header.
    assert_eq!(remove_radiotap_header(&[0, 0, 8]), &[0u8, 0, 8][..]);
    assert_eq!(remove_radiotap_header(&[]), &[0u8; 0][..]);
    // A header that is cut short in its "present" bitmap.
    let data = [0x00, 0x00, 0x06, 0x00, 0x01, 0x00];
    assert_eq!(remove_radiotap_header(&data), &data[..]);
}

#[test]
fn radiotap_header_is_stripped_whatever_its_fields_hold() {
    // The header announces a field of eight bytes that the capture does not
    // hold: the header itself is sound, and is stripped.
    let data = [0x00, 0x00, 0x08, 0x00, 0x01, 0x00, 0x00, 0x00, 0xd0, 0x00];
    assert_eq!(remove_radiotap_header(&data), &[0xd0u8, 0x00][..]);
    // A capture with a vendor namespace and four "present" words, 39 bytes
    // long by its header.
    let mut data = vec![
        0, 0, 39, 0, 46, 72, 0, 192, 0, 0, 0, 128, 0, 0, 0, 160, 4, 0, 0, 0, 16, 2, 158, 9, 160,
        0, 227, 5, 0, 0, 255, 255, 255, 255, 2, 0, 222, 173, 4,
    ];
    assert_eq!(remove_radiotap_header(&data), &[0u8; 0][..]);
    data.extend([0xd0, 0x01, 0x02]);
    assert_eq!(remove_radiotap_header(&data), &[0xd0u8, 0x01, 0x02][..]);
}

#[test]
fn vendor_namespace_does_not_keep_the_header_from_being_stripped() {
    // Bit 30 of the first "present" word announces a vendor namespace, whose
    // skip length points far beyond the end of the capture.
    let data = [
        0x00, 0x00, 0x0e, 0x00, 0x00, 0x00, 0x00, 0x40, 0x00, 0x11, 0x22, 0x00, 0xff, 0xff, 0xd0,
        0x00,
    ];
    assert_eq!(remove_radiotap_header(&data), &[0xd0u8, 0x00][..]);
}

#[test]
fn long_present_bitmap_is_not_handed_to_the_radiotap_parser() {
    let mut data = vec![0x00, 0x00, 0x28, 0x00];
    for _ in 0..8 {
        data.extend([0x00, 0x00, 0x00, 0x80]);
    }
    data.extend([0x01, 0x00, 0x00, 0x00]);
    data.extend([0xd0, 0x00]);
    assert_eq!(remove_radiotap_header(&data), &data[..]);
}

#[test]
fn stripping_follows_the_length_given() {
    let data = [1u8, 2, 3, 4, 5];
    assert_eq!(strip_radiotap_header(&data, Some(2)), &[3u8, 4, 5][..]);
    assert_eq!(strip_radiotap_header(&data, Some(5)), &[0u8; 0][..]);
    assert_eq!(strip_radiotap_header(&data, Some(0)), &data[..]);
    assert_eq!(strip_radiotap_header(&data, Some(6)), &data[..]);
    assert_eq!(strip_radiotap_header(&data, None), &data[..]);
}

#[test]
fn frames_are_told_apart_by_their_first_byte() {
    assert_eq!(classify_frame(&[0x80, 0], 0), FrameKind::Beacon);
    assert_eq!(classify_frame(&[0xd0, 0], 0), FrameKind::Action);
    assert_eq!(classify_frame(&[0x40, 0], 0), FrameKind::Other);
    assert_eq!(classify_frame(&[], 0), FrameKind::Other);
    assert_eq!(classify_frame(&[0, 0, 0x80], 2), FrameKind::Beacon);
    assert_eq!(classify_frame(&[0, 0, 0x80], 3), FrameKind::Other);
    assert!(is_beacon_frame(&[0x80], 0));
    assert!(!is_beacon_frame(&[0xd0], 0));
    assert!(!is_beacon_frame(&[], 0));
    assert!(is_action_frame(&[0xd0], 0));
    assert!(!is_action_frame(&[0x80], 0));
    assert!(!is_action_frame(&[0xd0], 1));
}

#[test]
fn action_frame_of_another_vendor_is_refused() {
    let mut frame = action_frame(&observed_pack());
    frame[26] = 0x00;
    assert_eq!(
        parse_action_frame(&frame).unwrap_err(),
        ParseError { kind: ParseErrorKind::WrongSentinel, offset: 26 }
    );
    frame[26..29].copy_from_slice(&ASDSTAN_OUI);
    assert_eq!(parse_action_frame(&frame).unwrap().1.oui, [0xfa, 0x0b, 0xbc]);
}

#[test]
fn action_frame_too_short_names_the_missing_field() {
    let frame = action_frame(&observed_pack());
    assert_eq!(parse_action_frame(&frame[..1]).unwrap_err(), truncated(0));
    assert_eq!(parse_action_frame(&frame[..3]).unwrap_err(), truncated(2));
    assert_eq!(parse_action_frame(&frame[..9]).unwrap_err(), truncated(4));
    assert_eq!(parse_action_frame(&frame[..15]).unwrap_err(), truncated(10));
    assert_eq!(parse_action_frame(&frame[..21]).unwrap_err(), truncated(16));
    assert_eq!(parse_action_frame(&frame[..23]).unwrap_err(), truncated(22));
    assert_eq!(parse_action_frame(&frame[..24]).unwrap_err(), truncated(24));
    assert_eq!(parse_action_frame(&frame[..25]).unwrap_err(), truncated(25));
    assert_eq!(parse_action_frame(&frame[..28]).unwrap_err(), truncated(26));
    assert_eq!(parse_action_frame(&frame[..29]).unwrap_err(), truncated(29));
    let (_, shortest) = parse_action_frame(&frame[..30]).unwrap();
    assert!(shortest.body.is_empty());
}

#[test]
fn service_descriptor_of_another_service_is_refused() {
    let mut attribute = service_descriptor(&observed_pack());
    attribute[8] = 0x00;
    assert_eq!(
        parse_service_descriptor_attribute(&attribute).unwrap_err(),
        ParseError { kind: ParseErrorKind::WrongSentinel, offset: 3 }
    );
}

#[test]
fn service_info_of_length_zero_or_one_is_empty() {
    let mut attribute = service_descriptor(&[]);
    assert_eq!(attribute[12], 1);
    let (rest, parsed) = parse_service_descriptor_attribute(&attribute).unwrap();
    assert!(parsed.service_info.is_empty());
    assert!(rest.is_empty());
    attribute[12] = 0;
    attribute.extend([7, 7]);
    let (rest, parsed) = parse_service_descriptor_attribute(&attribute).unwrap();
    assert!(parsed.service_info.is_empty());
    assert_eq!(parsed.service_info_length, 0);
    assert_eq!(rest, &[7u8, 7][..]);
}

#[test]
fn service_descriptor_too_short_names_the_missing_field() {
    let attribute = service_descriptor(&observed_pack());
    assert_eq!(parse_service_descriptor_attribute(&[]).unwrap_err(), truncated(0));
    assert_eq!(parse_service_descriptor_attribute(&attribute[..2]).unwrap_err(), truncated(1));
    assert_eq!(parse_service_descriptor_attribute(&attribute[..8]).unwrap_err(), truncated(3));
    assert_eq!(parse_service_descriptor_attribute(&attribute[..9]).unwrap_err(), truncated(9));
    assert_eq!(parse_service_descriptor_attribute(&attribute[..12]).unwrap_err(), truncated(12));
    assert_eq!(parse_service_descriptor_attribute(&attribute[..13]).unwrap_err(), truncated(13));
    assert_eq!(parse_service_descriptor_attribute(&attribute[..50]).unwrap_err(), truncated(14));
    let (rest, parsed) = parse_service_descriptor_attribute(&attribute).unwrap();
    assert_eq!(parsed.service_info, &observed_pack()[..]);
    assert!(rest.is_empty());
}

#[test]
fn pack_honours_the_record_size_it_reads() {
    let bytes = [0xf1, 3, 2, 0x12, 0xaa, 0xbb, 0x45, 0xcc, 0xdd, 0xee];
    let (rest, pack) = parse_open_drone_id_message_pack(&bytes).unwrap();
    assert_eq!(pack.version, 1);
    assert_eq!(pack.single_msg_size, 3);
    assert_eq!(pack.num_messages, 2);
    assert_eq!(pack.messages[0].message_type, 1);
    assert_eq!(pack.messages[0].version, 2);
    assert_eq!(pack.messages[0].message_body, vec![0xaa, 0xbb]);
    assert_eq!(pack.messages[1].message_type, 4);
    assert_eq!(pack.messages[1].version, 5);
    assert_eq!(pack.messages[1].message_body, vec![0xcc, 0xdd]);
    assert_eq!(rest, &[0xeeu8][..]);

    let bytes = [0xf1, 1, 3, 0x10, 0x20, 0x30];
    let (rest, pack) = parse_open_drone_id_message_pack(&bytes).unwrap();
    assert_eq!(pack.messages.len(), 3);
    assert!(pack.messages[2].message_body.is_empty());
    assert_eq!(pack.messages[2].message_type, 3);
    assert!(rest.is_empty());
}

#[test]
fn pack_with_records_of_no_size_is_refused() {
    assert_eq!(
        parse_open_drone_id_message_pack(&[0xf2, 0, 1, 0x12]).unwrap_err(),
        ParseError { kind: ParseErrorKind::LengthMismatch, offset: 1 }
    );
    assert_eq!(
        parse_open_drone_id_message_pack(&[0xf2, 0, 0]).unwrap_err(),
        ParseError { kind: ParseErrorKind::LengthMismatch, offset: 1 }
    );
}

#[test]
fn pack_too_short_names_the_missing_record() {
    assert_eq!(parse_open_drone_id_message_pack(&[]).unwrap_err(), truncated(0));
    assert_eq!(parse_open_drone_id_message_pack(&[0xf2]).unwrap_err(), truncated(1));
    assert_eq!(parse_open_drone_id_message_pack(&[0xf2, 25]).unwrap_err(), truncated(2));
    let pack = observed_pack();
    assert_eq!(parse_open_drone_id_message_pack(&pack[..3]).unwrap_err(), truncated(3));
    assert_eq!(parse_open_drone_id_message_pack(&pack[..4]).unwrap_err(), truncated(4));
    assert_eq!(parse_open_drone_id_message_pack(&pack[..28]).unwrap_err(), truncated(28));
    assert_eq!(parse_open_drone_id_message_pack(&pack[..60]).unwrap_err(), truncated(54));
    assert_eq!(parse_open_drone_id_message_pack(&pack[..102]).unwrap_err(), truncated(79));
    let (_, empty) = parse_open_drone_id_message_pack(&[0xf2, 25, 0, 9]).unwrap();
    assert!(empty.messages.is_empty());
}

#[test]
fn beacon_frame_carries_a_pack_in_its_vendor_tag() {
    let pack = observed_pack();
    let frame = beacon_frame(&pack);
    let (rest, beacon) = parse_beacon_frame(&frame).unwrap();
    assert_eq!(beacon.frame_control, 0x80);
    assert_eq!(beacon.duration, 0);
    assert_eq!(beacon.destination_address, [0xff; 6]);
    assert_eq!(beacon.source_address, [0x60, 0x60, 0x1f, 0x11, 0x22, 0x33]);
    assert_eq!(beacon.bssid, [0x60, 0x60, 0x1f, 0x11, 0x22, 0x33]);
    assert_eq!(beacon.sequence_control, 0x1c50);
    assert_eq!(beacon.vendor_specific_data, &pack[..]);
    assert_eq!(rest, &pack[..]);
    let (_, parsed) = parse_open_drone_id_message_pack(beacon.vendor_specific_data).unwrap();
    assert_eq!(parsed.num_messages, 4);
    assert_eq!(parsed.messages[2].message_type, 1);
}

#[test]
fn beacon_frame_without_the_tag_has_no_payload() {
    let mut frame = mac_header(0x80);
    frame.extend([0; 12]);
    frame.extend([0x00, 0x02, b'a', b'b']);
    frame.extend([0xdd, 0x04, 0x00, 0x50, 0xf2, 0x02]);
    let (rest, beacon) = parse_beacon_frame(&frame).unwrap();
    assert!(beacon.vendor_specific_data.is_empty());
    assert!(rest.is_empty());
    let (rest, beacon) = parse_beacon_frame(&frame[..36]).unwrap();
    assert!(beacon.vendor_specific_data.is_empty());
    assert!(rest.is_empty());
}

#[test]
fn beacon_tags_are_stepped_over_by_their_length() {
    // The first tag holds the bytes of a vendor tag in its data: they are
    // data, and the real tag behind them is the one that counts.
    let mut frame = mac_header(0x80);
    frame.extend([0; 12]);
    frame.extend([0x00, 0x08, 0xdd, 0x05, 0xfa, 0x0b, 0xbc, 0x0d, 0x01, 0x99]);
    frame.extend([0xdd, 0x06, 0x50, 0x6f, 0x9a, 0x0d, 0x02, 0x41, 0x42, 0x43]);
    let (rest, beacon) = parse_beacon_frame(&frame).unwrap();
    assert_eq!(beacon.vendor_specific_data, &[0x41u8, 0x42][..]);
    assert_eq!(rest, &[0x41u8, 0x42, 0x43][..]);
}

#[test]
fn beacon_frame_with_a_broken_tag_is_refused() {
    let mut head = mac_header(0x80);
    head.extend([0; 12]);
    assert_eq!(parse_beacon_frame(&head[..9]).unwrap_err(), truncated(4));
    assert_eq!(parse_beacon_frame(&head[..10]).unwrap_err(), truncated(10));
    assert_eq!(parse_beacon_frame(&head[..30]).unwrap_err(), truncated(24));

    let mut frame = head.clone();
    frame.push(0x00);
    assert_eq!(parse_beacon_frame(&frame).unwrap_err(), truncated(37));

    let mut frame = head.clone();
    frame.extend([0x00, 0x05, 1, 2]);
    assert_eq!(parse_beacon_frame(&frame).unwrap_err(), truncated(38));

    let mut frame = head.clone();
    frame.extend([0xdd, 0x03, 0xfa, 0x0b, 0xbc]);
    assert_eq!(
        parse_beacon_frame(&frame).unwrap_err(),
        ParseError { kind: ParseErrorKind::LengthMismatch, offset: 37 }
    );

    let mut frame = head.clone();
    frame.extend([0xdd, 0x09, 0xfa, 0x0b]);
    assert_eq!(parse_beacon_frame(&frame).unwrap_err(), truncated(38));

    let mut frame = head.clone();
    frame.extend([0xdd, 0x09, 0xfa, 0x0b, 0xbc]);
    assert_eq!(parse_beacon_frame(&frame).unwrap_err(), truncated(41));

    let mut frame = head.clone();
    frame.extend([0xdd, 0x09, 0xfa, 0x0b, 0xbc, 0x0d]);
    assert_eq!(parse_beacon_frame(&frame).unwrap_err(), truncated(42));

    let mut frame = head.clone();
    frame.extend([0xdd, 0x09, 0xfa, 0x0b, 0xbc, 0x0d, 0x01, 1, 2, 3, 4]);
    assert_eq!(parse_beacon_frame(&frame).unwrap_err(), truncated(43));
}

#[test]
fn frames_are_decoded_to_their_pack() {
    let pack = decode_frame(&action_frame(&observed_pack())).unwrap();
    assert_eq!(pack.num_messages, 4);
    let pack = decode_frame(&beacon_frame(&complete_pack())).unwrap();
    assert_eq!(pack.messages[3].message_type, 5);
    let mut other = action_frame(&observed_pack());
    other[0] = 0x40;
    assert!(decode_frame(&other).is_none());
    assert!(decode_frame(&[]).is_none());
    assert!(decode_frame(&action_frame(&[0xf2, 25, 2])).is_none());
}

#[test]
fn records_are_decoded_in_their_order() {
    let (_, pack) = parse_open_drone_id_message_pack(&observed_pack()).unwrap();
    let messages = decode_messages(&pack);
    assert_eq!(messages.len(), 4);
    match &messages[0] {
        OdidMessage::BasicId(basic_id) => assert_eq!(basic_id.uas_id, "1787F04BM24010011039"),
        other => panic!("not a basic id: {:?}", other),
    }
    match &messages[1] {
        OdidMessage::System(system) => assert_eq!(system.area_count, 457),
        other => panic!("not a system message: {:?}", other),
    }
    match &messages[2] {
        OdidMessage::Location(location) => {
            assert_eq!(location.latitude_int, 1460289024);
            assert_eq!(location.status, 1);
        }
        other => panic!("not a location: {:?}", other),
    }
    assert!(matches!(&messages[3], OdidMessage::SelfId(_)));
}

#[test]
fn records_that_do_not_parse_are_left_out() {
    // Records of four bytes: too short for a location, long enough for a
    // basic id and an operator id.
    let bytes = [0xf2, 4, 3, 0x02, 0x02, b'A', b'B', 0x12, 1, 2, 3, 0x52, 0, b'o', b'p'];
    let (_, pack) = parse_open_drone_id_message_pack(&bytes).unwrap();
    let messages = decode_messages(&pack);
    assert_eq!(messages.len(), 2);
    assert!(matches!(&messages[0], OdidMessage::BasicId(_)));
    assert!(matches!(&messages[1], OdidMessage::OperatorId(_)));
}

#[test]
fn complete_pack_is_inserted_once_and_then_updated() {
    let mut drones = DroneRegistry::new();
    let data = captured(&action_frame(&complete_pack()));

    let outcome = process_wifi_frame(&mut drones, &data);
    assert!(outcome.pack_received);
    assert_eq!(outcome.key.as_deref(), Some("1787F04BM24010011039"));
    let snapshot = match outcome.action {
        StoreAction::Insert(snapshot) => snapshot,
        other => panic!("not an insert: {:?}", other),
    };
    assert_eq!(snapshot.id, 0);
    assert_eq!(snapshot.serial_number, "1787F04BM24010011039");
    assert_eq!(drones.len(), 1);

    assert_eq!(drones.mark_stored("1787F04BM24010011039", 17), Some(Ok(())));
    let drone = drones.get("1787F04BM24010011039").unwrap();
    assert!(drone.in_store);
    assert_eq!(drone.store_id, 17);
    assert_eq!(drone.location_history.len(), 1);

    let outcome = process_wifi_frame(&mut drones, &data);
    let snapshot = match outcome.action {
        StoreAction::Update(snapshot) => snapshot,
        other => panic!("not an update: {:?}", other),
    };
    assert_eq!(snapshot.id, 17);
    assert_eq!(drones.len(), 1);
    assert_eq!(drones.get("1787F04BM24010011039").unwrap().location_history.len(), 2);
}

#[test]
fn incomplete_pack_is_filed_and_not_stored() {
    let mut drones = DroneRegistry::new();
    let outcome = process_frame(&mut drones, &beacon_frame(&observed_pack()));
    assert!(outcome.pack_received);
    assert_eq!(outcome.key.as_deref(), Some("1787F04BM24010011039"));
    assert!(matches!(outcome.action, StoreAction::Nothing));
    let drone = drones.get("1787F04BM24010011039").unwrap();
    assert!(!drone.payload_ready());
    assert!(drone.operator.is_none());
    assert!(drone.system_message.is_some());

    // The operator arrives in a later pack, with the identifier.
    let later = pack_of(&[operator_record(), basic_id_record()]);
    let outcome = process_frame(&mut drones, &action_frame(&later));
    assert!(matches!(outcome.action, StoreAction::Insert(_)));
    assert_eq!(drones.len(), 1);
}

#[test]
fn pack_without_identifier_changes_nothing() {
    let mut drones = DroneRegistry::new();
    let pack = pack_of(&[location_record(), system_record(), operator_record()]);
    let outcome = process_frame(&mut drones, &action_frame(&pack));
    assert!(outcome.pack_received);
    assert!(outcome.key.is_none());
    assert!(matches!(outcome.action, StoreAction::Nothing));
    assert_eq!(drones.len(), 0);
}

#[test]
fn frame_without_pack_changes_nothing() {
    let mut drones = DroneRegistry::new();
    let outcome = process_wifi_frame(&mut drones, &captured(&[0x40, 0, 0, 0]));
    assert!(!outcome.pack_received);
    assert!(outcome.key.is_none());
    assert!(matches!(outcome.action, StoreAction::Nothing));
    let outcome = process_frame(&mut drones, &action_frame(&[0xf2, 25, 0]));
    assert!(!outcome.pack_received);
    assert_eq!(drones.len(), 0);
    // Without its radiotap header stripped, the frame is of no kind.
    let outcome = process_frame(&mut drones, &captured(&action_frame(&complete_pack())));
    assert!(!outcome.pack_received);
}

#[test]
fn last_identifier_of_a_pack_is_its_key() {
    let mut other = vec![0x02];
    other.extend("SECOND".bytes());
    let pack = pack_of(&[basic_id_record(), record(0x02, &other)]);
    let mut drones = DroneRegistry::new();
    let outcome = process_frame(&mut drones, &action_frame(&pack));
    assert_eq!(outcome.key.as_deref(), Some("SECOND"));
    assert!(drones.contains_key("SECOND"));
    assert!(!drones.contains_key("1787F04BM24010011039"));
}
