//! What is done with the service data of one Bluetooth device event: from
//! the bytes to the record in the registry and the question to the store.

use super::entity::ODID_APP_CODE;
use crate::drone::entity::DroneView;
use crate::drone::registry::{
    messages_view, record_or_empty, store_action_at, DroneRegistry, StoreAction,
};
use crate::odid::entity::{OdidMessage, OdidMessageView};
use crate::odid::repo::{parse_message, parse_message_header, spec_parse_message};
use crate::text::{contains, text_contains};
use crate::wifi::repo::{parse_open_drone_id_message_pack, spec_parse_open_drone_id_message_pack};
use crate::wifi::task::{decode_messages, spec_decode_records};
use crate::wire::{high_nibble, rest_from};
use vstd::prelude::*;

verus! {

/// The kind of a message, as the upper four bits of its header say it.
pub type MessageType = u8;

/// What `handle_bluetooth_event` answers for service data that it passed
/// over. No message has this kind: a kind is below 16.
pub const IGNORED: MessageType = 69;

/// The shortest service data that is looked at.
pub const MIN_SERVICE_DATA_LEN: usize = 20;

/// Where the header byte of the message stands in the service data.
pub const HEADER_AT: usize = 2;

/// The kind of an Authentication message.
pub const AUTHENTICATION: MessageType = 2;

/// The kind of a System message.
pub const SYSTEM: MessageType = 4;

/// The kind of a message pack.
pub const MESSAGE_PACK: MessageType = 15;

/// Whether service data of a device is looked at: the device's identifier
/// holds the configured name, the data is twenty bytes long at least, and it
/// starts with the Open Drone ID application code.
pub open spec fn is_listened_to(
    device_name: Seq<char>,
    device_id: Seq<char>,
    service_data: Seq<u8>,
) -> bool {
    text_contains(device_id, device_name) && service_data.len() >= MIN_SERVICE_DATA_LEN
        && service_data[0] == ODID_APP_CODE
}

/// The kind of the message in service data that is looked at.
pub open spec fn spec_message_type(service_data: Seq<u8>) -> MessageType {
    high_nibble(service_data[HEADER_AT as int])
}

/// The body of the message in service data that is looked at: all that
/// follows the header byte.
pub open spec fn spec_message_body(service_data: Seq<u8>) -> Seq<u8> {
    service_data.subrange(HEADER_AT + 1, service_data.len() as int)
}

/// The message in service data that is looked at, with its header byte.
pub open spec fn spec_message(service_data: Seq<u8>) -> Seq<u8> {
    service_data.subrange(HEADER_AT as int, service_data.len() as int)
}

/// The messages that service data decodes to. A message pack gives the
/// messages of its records, in their order and without those that do not
/// parse; any other kind gives the one message that its body parses to.
/// There are none where the pack, or the one message, does not parse.
pub open spec fn spec_decoded_messages(service_data: Seq<u8>) -> Option<Seq<OdidMessageView>> {
    if spec_message_type(service_data) == MESSAGE_PACK {
        match spec_parse_open_drone_id_message_pack(spec_message(service_data)) {
            Ok((_, pack)) => Some(spec_decode_records(pack.messages)),
            Err(_) => None,
        }
    } else {
        match spec_parse_message(spec_message_type(service_data), spec_message_body(service_data)) {
            Ok(message) => Some(seq![message]),
            Err(_) => None,
        }
    }
}

/// The messages that the service data of a device event adds to the record
/// of the device, if it adds any: the data is looked at, and it decodes.
pub open spec fn spec_merged_messages(
    device_name: Seq<char>,
    device_id: Seq<char>,
    service_data: Seq<u8>,
) -> Option<Seq<OdidMessageView>> {
    if is_listened_to(device_name, device_id, service_data) {
        spec_decoded_messages(service_data)
    } else {
        None
    }
}

/// The registry after the service data of one device event.
pub open spec fn spec_records_after_event(
    records: Map<Seq<char>, DroneView>,
    device_name: Seq<char>,
    device_id: Seq<char>,
    service_data: Seq<u8>,
) -> Map<Seq<char>, DroneView> {
    match spec_merged_messages(device_name, device_id, service_data) {
        Some(messages) => records.insert(
            device_id,
            record_or_empty(records, device_id).with_messages(messages),
        ),
        None => records,
    }
}

/// Handles the service data of one device event. Data of a device whose
/// identifier does not hold `device_name`, data shorter than twenty bytes and
/// data that does not start with the application code `0x0D` are passed over.
/// Else the third byte is the header of a message and the bytes behind it are
/// its body. A message pack is opened and its records are decoded; any other
/// message is parsed as the kind that the header announces. What was decoded
/// is merged, in its order, into the record filed under the device's
/// identifier, an empty record being filed first where there is none. The
/// answer is the kind that the header announced, or `IGNORED` where the data
/// was passed over or did not parse; then the registry is as it was.
pub fn handle_bluetooth_event(
    drones: &mut DroneRegistry,
    device_name: &str,
    device_id: &str,
    service_data: &[u8],
) -> (message_type: MessageType)
    requires
        old(drones).wf(),
    ensures
        final(drones).wf(),
        final(drones)@ == spec_records_after_event(
            old(drones)@,
            device_name@,
            device_id@,
            service_data@,
        ),
        message_type == (if spec_merged_messages(device_name@, device_id@, service_data@) is Some {
            spec_message_type(service_data@)
        } else {
            IGNORED
        }),
{
    if !contains(device_id, device_name) {
        return IGNORED;
    }
    if service_data.len() < MIN_SERVICE_DATA_LEN {
        return IGNORED;
    }
    if service_data[0] != ODID_APP_CODE {
        return IGNORED;
    }
    let message = rest_from(service_data, HEADER_AT);
    let (body, header) = match parse_message_header(message) {
        Ok(parsed) => parsed,
        Err(_) => {
            return IGNORED;
        },
    };
    assert(body@ =~= spec_message_body(service_data@));
    let messages = if header.message_type == MESSAGE_PACK {
        match parse_open_drone_id_message_pack(message) {
            Ok((_, pack)) => decode_messages(&pack),
            Err(_) => {
                return IGNORED;
            },
        }
    } else {
        match parse_message(header.message_type, body) {
            Ok(one) => {
                let mut messages: Vec<OdidMessage> = Vec::new();
                messages.push(one);
                assert(messages_view(messages@) =~= seq![one@]);
                messages
            },
            Err(_) => {
                return IGNORED;
            },
        }
    };
    drones.apply_all(device_id, &messages);
    header.message_type
}

/// Whether a message of kind `message_type` makes a stored record be written
/// anew: only System and Authentication messages do, which are sent at a low
/// rate.
pub open spec fn triggers_update(message_type: MessageType) -> bool {
    message_type == AUTHENTICATION || message_type == SYSTEM
}

/// Decides what the store is to be asked after a device event that was
/// answered with `message_type`. A complete record that is not in the store
/// is inserted, whatever the message was. A complete record that is in the
/// store is written anew only after a System or an Authentication message.
pub fn bluetooth_store_action(
    drones: &DroneRegistry,
    device_id: &str,
    message_type: MessageType,
) -> (action: StoreAction)
    requires
        drones.wf(),
    ensures
        action@ == store_action_at(drones@, device_id@, triggers_update(message_type)),
{
    drones.store_action(device_id, message_type == AUTHENTICATION || message_type == SYSTEM)
}

} // verus!
