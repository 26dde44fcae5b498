//! Parsers for the Wi-Fi envelopes of Open Drone ID: the NAN action frame and
//! its Service Descriptor Attribute, the beacon frame and its vendor-specific
//! tag, and the message pack that both carry.

use super::entity::{
    is_nan_service_id, is_odid_oui, WifiActionFrame, WifiActionFrameView, WifiBeaconFrame,
    WifiBeaconFrameView, WifiOpenDroneIDMessage, WifiOpenDroneIDMessagePack,
    WifiOpenDroneIDMessagePackView, WifiOpenDroneIDMessageView, WifiServiceDescriptorAttribute,
    WifiServiceDescriptorAttributeView, records_view,
};
use crate::wire::{
    high_nibble, le_u16, length_mismatch, low_nibble, read_array3, read_array6, read_u16_le,
    read_u8, rest_from, split_nibbles, take, truncated, wrong_sentinel, yields_view, ParseError,
    ParseErrorKind, Parsed,
};
use vstd::prelude::*;
use vstd::slice::slice_to_vec;

verus! {

/// The bytes of an action frame before its body.
pub const ACTION_FRAME_HEAD_LEN: usize = 30;

/// Where the OUI of an action frame stands.
pub const ACTION_FRAME_OUI_AT: usize = 26;

/// The bytes of a Service Descriptor Attribute before its service info.
pub const SERVICE_DESCRIPTOR_HEAD_LEN: usize = 14;

/// The bytes of a beacon frame before its tagged parameters: the 802.11
/// header (frame control, duration, three addresses, sequence control) and
/// twelve bytes of fixed parameters.
pub const BEACON_FRAME_HEAD_LEN: usize = 36;

/// The id of a vendor-specific tag.
pub const VENDOR_SPECIFIC_TAG: u8 = 0xdd;

/// The bytes of a message pack before its records.
pub const MESSAGE_PACK_HEAD_LEN: usize = 3;

/// Tells whether the three bytes are one of the two Open Drone ID OUIs.
pub fn oui_is_odid(oui: &[u8; 3]) -> (r: bool)
    ensures
        r == is_odid_oui(oui@),
{
    (oui[0] == 0x50 && oui[1] == 0x6f && oui[2] == 0x9a) || (oui[0] == 0xfa && oui[1] == 0x0b
        && oui[2] == 0xbc)
}

/// The record of a message pack that starts at `at` and is `size` bytes long.
pub open spec fn record_at(input: Seq<u8>, at: int, size: int) -> WifiOpenDroneIDMessageView {
    WifiOpenDroneIDMessageView {
        message_type: high_nibble(input[at]),
        version: low_nibble(input[at]),
        message_body: input.subrange(at + 1, at + size),
    }
}

/// The `count` records of `size` bytes each that start at `at`, with the
/// position behind the last of them; or the error for the first record that
/// the input is too short for: at its header byte, or at its body.
pub open spec fn spec_records(input: Seq<u8>, at: int, size: int, count: nat) -> Result<
    (Seq<WifiOpenDroneIDMessageView>, int),
    ParseError,
>
    decreases count,
{
    if count == 0 {
        Ok((Seq::empty(), at))
    } else if at >= input.len() {
        Err(truncated(at))
    } else if at + size > input.len() {
        Err(truncated(at + 1))
    } else {
        match spec_records(input, at + size, size, (count - 1) as nat) {
            Ok((later, end)) => Ok((seq![record_at(input, at, size)] + later, end)),
            Err(e) => Err(e),
        }
    }
}

/// What `parse_open_drone_id_message_pack` returns on `input`.
pub open spec fn spec_parse_open_drone_id_message_pack(input: Seq<u8>) -> Parsed<
    WifiOpenDroneIDMessagePackView,
> {
    if input.len() < MESSAGE_PACK_HEAD_LEN {
        Err(truncated(input.len() as int))
    } else if input[1] == 0 {
        Err(length_mismatch(1))
    } else {
        match spec_records(input, MESSAGE_PACK_HEAD_LEN as int, input[1] as int, input[2] as nat) {
            Ok((messages, end)) => Ok(
                (
                    input.subrange(end, input.len() as int),
                    WifiOpenDroneIDMessagePackView {
                        message_type: high_nibble(input[0]),
                        version: low_nibble(input[0]),
                        single_msg_size: input[1],
                        num_messages: input[2],
                        messages,
                    },
                ),
            ),
            Err(e) => Err(e),
        }
    }
}

/// The records from `at` on are the records from a later position on, with
/// the records in between put in front.
proof fn lemma_records_step(input: Seq<u8>, at: int, size: int, count: nat)
    requires
        count > 0,
        0 <= at < input.len(),
        at + size <= input.len(),
    ensures
        spec_records(input, at, size, count) == match spec_records(
            input,
            at + size,
            size,
            (count - 1) as nat,
        ) {
            Ok((later, end)) => Ok::<(Seq<WifiOpenDroneIDMessageView>, int), ParseError>(
                (seq![record_at(input, at, size)] + later, end),
            ),
            Err(e) => Err(e),
        },
{
}

/// Parses a message pack: a header byte (kind above version), the size of
/// one record, the number of records, and then that many records, each a
/// header byte followed by a body of the size less one. A record size of 0
/// cannot hold the header byte and is refused.
pub fn parse_open_drone_id_message_pack(input: &[u8]) -> (r: Result<
    (&[u8], WifiOpenDroneIDMessagePack),
    ParseError,
>)
    ensures
        yields_view(r, spec_parse_open_drone_id_message_pack(input@)),
{
    let head = read_u8(input, 0)?;
    let (message_type, version) = split_nibbles(head);
    let single_msg_size = read_u8(input, 1)?;
    let num_messages = read_u8(input, 2)?;
    if single_msg_size == 0 {
        return Err(ParseError { kind: ParseErrorKind::LengthMismatch, offset: 1 });
    }
    let size = single_msg_size as usize;
    let len = input.len();
    let mut messages: Vec<WifiOpenDroneIDMessage> = Vec::new();
    let mut at: usize = MESSAGE_PACK_HEAD_LEN;
    let mut done: u8 = 0;
    let ghost whole = spec_records(input@, 3, size as int, num_messages as nat);
    proof {
        assert(records_view(messages@) =~= Seq::empty());
        assert(whole == match spec_records(input@, at as int, size as int, (num_messages - done) as nat) {
            Ok((later, end)) => Ok::<(Seq<WifiOpenDroneIDMessageView>, int), ParseError>(
                (records_view(messages@) + later, end),
            ),
            Err(e) => Err(e),
        }) by {
            match spec_records(input@, at as int, size as int, (num_messages - done) as nat) {
                Ok((later, end)) => {
                    assert(records_view(messages@) + later =~= later);
                },
                Err(e) => {},
            }
        }
    }
    while done < num_messages
        invariant
            done <= num_messages,
            len == input@.len(),
            3 <= at <= len,
            1 <= size <= 255,
            size == input@[1],
            num_messages == input@[2],
            whole == spec_records(input@, 3, size as int, num_messages as nat),
            whole == match spec_records(
                input@,
                at as int,
                size as int,
                (num_messages - done) as nat,
            ) {
                Ok((later, end)) => Ok::<(Seq<WifiOpenDroneIDMessageView>, int), ParseError>(
                    (records_view(messages@) + later, end),
                ),
                Err(e) => Err(e),
            },
        decreases num_messages - done,
    {
        if at >= len {
            return Err(ParseError { kind: ParseErrorKind::Truncated, offset: at });
        }
        if size > len - at {
            return Err(ParseError { kind: ParseErrorKind::Truncated, offset: at + 1 });
        }
        let (record_type, record_version) = split_nibbles(input[at]);
        let body = slice_to_vec(&input[at + 1..at + size]);
        let ghost before = records_view(messages@);
        let ghost old_at = at as int;
        proof {
            lemma_records_step(input@, at as int, size as int, (num_messages - done) as nat);
        }
        messages.push(
            WifiOpenDroneIDMessage {
                message_type: record_type,
                version: record_version,
                message_body: body,
            },
        );
        at = at + size;
        done = done + 1;
        proof {
            assert(records_view(messages@) =~= before.push(record_at(input@, old_at, size as int)));
            match spec_records(input@, at as int, size as int, (num_messages - done) as nat) {
                Ok((later, end)) => {
                    assert(before + (seq![record_at(input@, old_at, size as int)] + later)
                        =~= records_view(messages@) + later);
                },
                Err(e) => {},
            }
        }
    }
    proof {
        assert(records_view(messages@) + Seq::<WifiOpenDroneIDMessageView>::empty()
            =~= records_view(messages@));
    }
    Ok(
        (
            rest_from(input, at),
            WifiOpenDroneIDMessagePack {
                message_type,
                version,
                single_msg_size,
                num_messages,
                messages,
            },
        ),
    )
}

/// The start of the first field of a Service Descriptor Attribute's head
/// that an input of `len` bytes cannot hold.
pub open spec fn service_descriptor_gap(len: int) -> int {
    if len < 1 {
        0
    } else if len < 3 {
        1
    } else if len < 9 {
        3
    } else if len < 13 {
        len
    } else {
        13
    }
}

/// How many bytes of service info follow the head of an attribute whose
/// length byte is `service_info_length`: one less, the message counter being
/// counted in; none for a length of 0.
pub open spec fn service_info_len(service_info_length: u8) -> int {
    if service_info_length <= 1 {
        0
    } else {
        service_info_length - 1
    }
}

/// What `parse_service_descriptor_attribute` returns on `input`.
pub open spec fn spec_parse_service_descriptor_attribute(input: Seq<u8>) -> Parsed<
    WifiServiceDescriptorAttributeView,
> {
    let len = input.len() as int;
    if len < 9 {
        Err(truncated(service_descriptor_gap(len)))
    } else if !is_nan_service_id(input.subrange(3, 9)) {
        Err(wrong_sentinel(3))
    } else if len < SERVICE_DESCRIPTOR_HEAD_LEN {
        Err(truncated(service_descriptor_gap(len)))
    } else if len < SERVICE_DESCRIPTOR_HEAD_LEN + service_info_len(input[12]) {
        Err(truncated(SERVICE_DESCRIPTOR_HEAD_LEN as int))
    } else {
        let end = SERVICE_DESCRIPTOR_HEAD_LEN + service_info_len(input[12]);
        Ok(
            (
                input.subrange(end, len),
                WifiServiceDescriptorAttributeView {
                    attribute_id: input[0],
                    attribute_length: le_u16(input, 1),
                    service_id: input.subrange(3, 9),
                    instance_id: input[9],
                    requestor_id: input[10],
                    service_control: input[11],
                    service_info_length: input[12],
                    message_counter: input[13],
                    service_info: input.subrange(SERVICE_DESCRIPTOR_HEAD_LEN as int, end),
                },
            ),
        )
    }
}

/// Parses the Service Descriptor Attribute of a NAN action frame: attribute
/// id, attribute length (`u16`), the six bytes of the service id, which must
/// be that of Open Drone ID, instance id, requestor id, service control, the
/// length of the service info, the message counter, and the service info,
/// which is one byte shorter than its length says. A length of 0 or 1 gives
/// an empty service info.
pub fn parse_service_descriptor_attribute(input: &[u8]) -> (r: Result<
    (&[u8], WifiServiceDescriptorAttribute<'_>),
    ParseError,
>)
    ensures
        yields_view(r, spec_parse_service_descriptor_attribute(input@)),
{
    let attribute_id = read_u8(input, 0)?;
    let attribute_length = read_u16_le(input, 1)?;
    let service_id = take(input, 3, 6)?;
    if !(service_id[0] == 0x88 && service_id[1] == 0x69 && service_id[2] == 0x19 && service_id[3]
        == 0x9d && service_id[4] == 0x92 && service_id[5] == 0x09) {
        return Err(ParseError { kind: ParseErrorKind::WrongSentinel, offset: 3 });
    }
    let instance_id = read_u8(input, 9)?;
    let requestor_id = read_u8(input, 10)?;
    let service_control = read_u8(input, 11)?;
    let service_info_length = read_u8(input, 12)?;
    let message_counter = read_u8(input, 13)?;
    let info_len: usize = if service_info_length <= 1 {
        0
    } else {
        (service_info_length - 1) as usize
    };
    let service_info = take(input, SERVICE_DESCRIPTOR_HEAD_LEN, info_len)?;
    Ok(
        (
            rest_from(input, SERVICE_DESCRIPTOR_HEAD_LEN + info_len),
            WifiServiceDescriptorAttribute {
                attribute_id,
                attribute_length,
                service_id,
                instance_id,
                requestor_id,
                service_control,
                service_info_length,
                service_info,
                message_counter,
            },
        ),
    )
}

/// The start of the first field of an 802.11 header, up to the sequence
/// control, that an input of `len` bytes cannot hold.
pub open spec fn mac_header_gap(len: int) -> int {
    if len < 2 {
        0
    } else if len < 4 {
        2
    } else if len < 10 {
        4
    } else if len < 16 {
        10
    } else if len < 22 {
        16
    } else {
        22
    }
}

/// The start of the first field of an action frame's head that an input of
/// `len` bytes cannot hold.
pub open spec fn action_frame_gap(len: int) -> int {
    if len < 24 {
        mac_header_gap(len)
    } else if len < 26 {
        len
    } else if len < 29 {
        26
    } else {
        29
    }
}

/// The protocol version in a frame control word: its two lowest bits.
pub open spec fn frame_control_version(frame_control: u16) -> u8 {
    (frame_control % 4) as u8
}

/// The frame type in a frame control word: bits 2 and 3.
pub open spec fn frame_control_type(frame_control: u16) -> u8 {
    ((frame_control / 4) % 4) as u8
}

/// The frame subtype in a frame control word: bits 4 to 7.
pub open spec fn frame_control_subtype(frame_control: u16) -> u8 {
    ((frame_control / 16) % 16) as u8
}

/// What `parse_action_frame` returns on `input`.
pub open spec fn spec_parse_action_frame(input: Seq<u8>) -> Parsed<WifiActionFrameView> {
    let len = input.len() as int;
    if len < 29 {
        Err(truncated(action_frame_gap(len)))
    } else if !is_odid_oui(input.subrange(26, 29)) {
        Err(wrong_sentinel(26))
    } else if len < ACTION_FRAME_HEAD_LEN {
        Err(truncated(29))
    } else {
        Ok(
            (
                Seq::empty(),
                WifiActionFrameView {
                    frame_control: le_u16(input, 0),
                    frame_control_version: frame_control_version(le_u16(input, 0)),
                    frame_control_type: frame_control_type(le_u16(input, 0)),
                    frame_control_subtype: frame_control_subtype(le_u16(input, 0)),
                    duration_id: le_u16(input, 2),
                    address1: input.subrange(4, 10),
                    address2: input.subrange(10, 16),
                    address3: input.subrange(16, 22),
                    sequence_control: le_u16(input, 22),
                    category: input[24],
                    action: input[25],
                    oui: input.subrange(26, 29),
                    oui_type: input[29],
                    body: input.subrange(ACTION_FRAME_HEAD_LEN as int, len),
                },
            ),
        )
    }
}

/// Parses an 802.11 action frame with a vendor-specific body: frame control
/// and duration (`u16`), three addresses of six bytes, sequence control
/// (`u16`), category, action, the three bytes of the OUI, which must be that
/// of the Wi-Fi Alliance or of ASD-STAN, and the OUI type. All that follows
/// is the body, so nothing is left over.
pub fn parse_action_frame(input: &[u8]) -> (r: Result<(&[u8], WifiActionFrame<'_>), ParseError>)
    ensures
        yields_view(r, spec_parse_action_frame(input@)),
{
    let frame_control = read_u16_le(input, 0)?;
    let duration_id = read_u16_le(input, 2)?;
    let address1 = take(input, 4, 6)?;
    let address2 = take(input, 10, 6)?;
    let address3 = take(input, 16, 6)?;
    let sequence_control = read_u16_le(input, 22)?;
    let category = read_u8(input, 24)?;
    let action = read_u8(input, 25)?;
    let oui = read_array3(input, ACTION_FRAME_OUI_AT)?;
    if !oui_is_odid(&oui) {
        return Err(ParseError { kind: ParseErrorKind::WrongSentinel, offset: ACTION_FRAME_OUI_AT });
    }
    let oui_type = read_u8(input, 29)?;
    let body = rest_from(input, ACTION_FRAME_HEAD_LEN);
    let len = input.len();
    let nothing = rest_from(input, len);
    assert(nothing@ =~= Seq::<u8>::empty());
    Ok(
        (
            nothing,
            WifiActionFrame {
                frame_control,
                frame_control_version: (frame_control % 4) as u8,
                frame_control_type: ((frame_control / 4) % 4) as u8,
                frame_control_subtype: ((frame_control / 16) % 16) as u8,
                duration_id,
                address1,
                address2,
                address3,
                sequence_control,
                category,
                action,
                oui,
                oui_type,
                body,
            },
        ),
    )
}

/// Where the Open Drone ID payload of a beacon's tagged parameters starts,
/// looking from the tag at `at` on. Tags are stepped over by their length
/// until a vendor-specific tag with an Open Drone ID OUI is met; behind its
/// OUI stand the OUI type and the message counter, and then the payload.
/// Where no such tag is met, the result is the end of the input.
pub open spec fn spec_vendor_payload_at(input: Seq<u8>, at: int) -> Result<int, ParseError>
    decreases input.len() - at,
{
    let len = input.len() as int;
    if at < 0 || at >= len {
        Ok(len)
    } else if at + 1 >= len {
        Err(truncated(at + 1))
    } else {
        let tag_length = input[at + 1] as int;
        if input[at] == VENDOR_SPECIFIC_TAG && tag_length >= 3 && at + 5 > len {
            Err(truncated(at + 2))
        } else if input[at] == VENDOR_SPECIFIC_TAG && tag_length >= 3 && is_odid_oui(
            input.subrange(at + 2, at + 5),
        ) {
            if tag_length < 4 {
                Err(length_mismatch(at + 1))
            } else if at + 5 >= len {
                Err(truncated(at + 5))
            } else if at + 6 >= len {
                Err(truncated(at + 6))
            } else if at + 7 + (tag_length - 4) > len {
                Err(truncated(at + 7))
            } else {
                Ok(at + 7)
            }
        } else if at + 2 + tag_length > len {
            Err(truncated(at + 2))
        } else {
            spec_vendor_payload_at(input, at + 2 + tag_length)
        }
    }
}

/// How long the payload that starts at `payload_at` is: four bytes less than
/// the length of its tag; nothing where no tag was found.
pub open spec fn vendor_payload_len(input: Seq<u8>, payload_at: int) -> int {
    if payload_at >= input.len() {
        0
    } else {
        input[payload_at - 6] - 4
    }
}

/// The start of the first field of a beacon frame's head that an input of
/// `len` bytes cannot hold.
pub open spec fn beacon_frame_gap(len: int) -> int {
    if len < 24 {
        mac_header_gap(len)
    } else {
        24
    }
}

/// What `parse_beacon_frame` returns on `input`.
pub open spec fn spec_parse_beacon_frame(input: Seq<u8>) -> Parsed<WifiBeaconFrameView> {
    let len = input.len() as int;
    if len < BEACON_FRAME_HEAD_LEN {
        Err(truncated(beacon_frame_gap(len)))
    } else {
        match spec_vendor_payload_at(input, BEACON_FRAME_HEAD_LEN as int) {
            Ok(payload_at) => Ok(
                (
                    input.subrange(payload_at, len),
                    WifiBeaconFrameView {
                        frame_control: le_u16(input, 0),
                        duration: le_u16(input, 2),
                        destination_address: input.subrange(4, 10),
                        source_address: input.subrange(10, 16),
                        bssid: input.subrange(16, 22),
                        sequence_control: le_u16(input, 22),
                        vendor_specific_data: input.subrange(
                            payload_at,
                            payload_at + vendor_payload_len(input, payload_at),
                        ),
                    },
                ),
            ),
            Err(e) => Err(e),
        }
    }
}

/// Parses an 802.11 beacon frame: frame control and duration (`u16`),
/// destination, source and BSSID of six bytes each, sequence control (`u16`),
/// twelve bytes of fixed parameters, and the tagged parameters. These are
/// stepped over tag by tag until a vendor-specific tag (`0xDD`) with the OUI
/// of the Wi-Fi Alliance or of ASD-STAN is met. Behind that OUI the OUI type
/// and the message counter are skipped; the next bytes, four fewer than the
/// tag's length, are the Open Drone ID payload, and the input from the
/// payload on is handed back. A beacon without such a tag has an empty
/// payload and nothing left over.
pub fn parse_beacon_frame(input: &[u8]) -> (r: Result<(&[u8], WifiBeaconFrame<'_>), ParseError>)
    ensures
        yields_view(r, spec_parse_beacon_frame(input@)),
{
    let frame_control = read_u16_le(input, 0)?;
    let duration = read_u16_le(input, 2)?;
    let destination_address = read_array6(input, 4)?;
    let source_address = read_array6(input, 10)?;
    let bssid = read_array6(input, 16)?;
    let sequence_control = read_u16_le(input, 22)?;
    let _fixed_parameters = take(input, 24, 12)?;
    let len = input.len();
    let mut at: usize = BEACON_FRAME_HEAD_LEN;
    let mut payload_at: usize = len;
    let mut payload_len: usize = 0;
    while at < len
        invariant_except_break
            BEACON_FRAME_HEAD_LEN <= at <= len,
            len == input@.len(),
            spec_vendor_payload_at(input@, BEACON_FRAME_HEAD_LEN as int) == spec_vendor_payload_at(
                input@,
                at as int,
            ),
            payload_at == len,
            payload_len == 0,
        ensures
            BEACON_FRAME_HEAD_LEN <= payload_at <= len,
            spec_vendor_payload_at(input@, BEACON_FRAME_HEAD_LEN as int) == Ok::<int, ParseError>(
                payload_at as int,
            ),
            payload_len == vendor_payload_len(input@, payload_at as int),
            payload_at + payload_len <= len,
        decreases len - at,
    {
        let tag_number = input[at];
        if len - at < 2 {
            return Err(ParseError { kind: ParseErrorKind::Truncated, offset: at + 1 });
        }
        let tag_length = input[at + 1] as usize;
        if tag_number == VENDOR_SPECIFIC_TAG && tag_length >= 3 {
            if len - at < 5 {
                return Err(ParseError { kind: ParseErrorKind::Truncated, offset: at + 2 });
            }
            let tag_oui: [u8; 3] = [input[at + 2], input[at + 3], input[at + 4]];
            assert(tag_oui@ =~= input@.subrange(at + 2, at + 5));
            if oui_is_odid(&tag_oui) {
                if tag_length < 4 {
                    return Err(
                        ParseError { kind: ParseErrorKind::LengthMismatch, offset: at + 1 },
                    );
                }
                if len - at < 6 {
                    return Err(ParseError { kind: ParseErrorKind::Truncated, offset: at + 5 });
                }
                if len - at < 7 {
                    return Err(ParseError { kind: ParseErrorKind::Truncated, offset: at + 6 });
                }
                if len - at - 7 < tag_length - 4 {
                    return Err(ParseError { kind: ParseErrorKind::Truncated, offset: at + 7 });
                }
                payload_at = at + 7;
                payload_len = tag_length - 4;
                break ;
            }
        }
        if len - at - 2 < tag_length {
            return Err(ParseError { kind: ParseErrorKind::Truncated, offset: at + 2 });
        }
        at = at + 2 + tag_length;
    }
    let vendor_specific_data = &input[payload_at..payload_at + payload_len];
    Ok(
        (
            rest_from(input, payload_at),
            WifiBeaconFrame {
                frame_control,
                duration,
                destination_address,
                source_address,
                bssid,
                sequence_control,
                vendor_specific_data,
            },
        ),
    )
}

/// How many words of the radiotap "present" bitmap this library accepts.
pub const MAX_PRESENT_WORDS: usize = 8;

/// Whether the "present" bitmap of a radiotap header, from its word number
/// `word` on, has at most eight words. The words stand at byte 4 and every
/// fourth byte behind it, and each word but the last has bit 31 set. A bitmap
/// that the input cuts short counts as ended there.
pub open spec fn present_words_are_few(input: Seq<u8>, word: nat) -> bool
    decreases MAX_PRESENT_WORDS - word,
{
    if word >= MAX_PRESENT_WORDS {
        false
    } else if input.len() < 8 + 4 * word {
        true
    } else {
        input[7 + 4 * (word as int)] < 128 || present_words_are_few(input, word + 1)
    }
}

/// Tells whether the "present" bitmap of the radiotap header that `input`
/// starts with has at most eight words.
pub fn has_few_present_words(input: &[u8]) -> (r: bool)
    ensures
        r == present_words_are_few(input@, 0),
{
    let len = input.len();
    let mut word: usize = 0;
    while word < MAX_PRESENT_WORDS
        invariant
            word <= MAX_PRESENT_WORDS,
            len == input@.len(),
            present_words_are_few(input@, 0) == present_words_are_few(input@, word as nat),
        decreases MAX_PRESENT_WORDS - word,
    {
        if len < 8 + 4 * word {
            return true;
        }
        if input[7 + 4 * word] < 128 {
            return true;
        }
        word = word + 1;
    }
    false
}

/// The length of the radiotap capture that `input` starts with, as the
/// radiotap header parser finds it; `None` where the parser refuses the
/// header.
pub uninterp spec fn radiotap_capture_length(input: Seq<u8>) -> Option<usize>;

/// Parses the radiotap header alone, with `radiotap::field::from_bytes` for
/// `radiotap::field::Header`, and keeps of it the `length`. The parser reads
/// the version from byte 0 and refuses any but 0, reads the length from bytes
/// 2 and 3 (`u16`, little-endian) and refuses an input shorter than that, and
/// reads at least one "present" word of four bytes; so where it succeeds the
/// input starts with a 0, holds eight bytes at least, and is no shorter than
/// the length, which is what bytes 2 and 3 say. Whether it succeeds depends
/// on the whole "present" bitmap. The parser counts the words of a namespace
/// in a `u8` and multiplies the count by 32, which overflows from the ninth
/// word on: a bitmap of more than eight words is not handed to it.
#[verifier::external_body]
fn radiotap_header_length(input: &[u8]) -> (length: Option<usize>)
    requires
        present_words_are_few(input@, 0),
    ensures
        length == radiotap_capture_length(input@),
        length matches Some(n) ==> n <= input@.len() && 8 <= input@.len() && input@[0] == 0 && n
            == le_u16(input@, 2),
{
    match radiotap::field::from_bytes::<radiotap::field::Header>(input) {
        Ok(header) => Some(header.length),
        Err(_) => None,
    }
}

/// The input without its first `length` bytes; the input itself where there
/// is no length, or one beyond the end of the input.
pub open spec fn without_header(input: Seq<u8>, length: Option<usize>) -> Seq<u8> {
    match length {
        Some(n) => if n <= input.len() {
            input.subrange(n as int, input.len() as int)
        } else {
            input
        },
        None => input,
    }
}

/// Strips a header of `length` bytes from the front of `input`. With no
/// length, or one that the input is too short for, the input is handed back
/// untouched.
pub fn strip_radiotap_header(input: &[u8], length: Option<usize>) -> (rest: &[u8])
    ensures
        rest@ == without_header(input@, length),
{
    match length {
        Some(n) => {
            if n <= input.len() {
                rest_from(input, n)
            } else {
                input
            }
        },
        None => input,
    }
}

/// The length of the radiotap header that this library strips from `input`:
/// the one that the radiotap header parser finds, where the header's
/// "present" bitmap has at most eight words.
pub open spec fn strippable_length(input: Seq<u8>) -> Option<usize> {
    if present_words_are_few(input, 0) {
        radiotap_capture_length(input)
    } else {
        None
    }
}

/// Strips the radiotap header that a captured frame starts with, and hands
/// back the 802.11 frame behind it. The header's length stands in its bytes
/// 2 and 3. A frame whose header cannot be decoded, or whose "present" bitmap
/// has more than eight words, comes back untouched.
pub fn remove_radiotap_header(input: &[u8]) -> (rest: &[u8])
    ensures
        rest@ == without_header(input@, strippable_length(input@)),
        rest@ == input@ || (8 <= input@.len() && input@[0] == 0 && le_u16(input@, 2)
            <= input@.len() && rest@ == input@.subrange(
            le_u16(input@, 2) as int,
            input@.len() as int,
        )),
{
    if has_few_present_words(input) {
        let length = radiotap_header_length(input);
        strip_radiotap_header(input, length)
    } else {
        input
    }
}

} // verus!
