//! What is done with one captured Wi-Fi frame: from the bytes of the capture
//! to the record in the registry and the question to the store.

use super::entity::{
    WifiOpenDroneIDMessagePack, WifiOpenDroneIDMessagePackView, WifiOpenDroneIDMessageView,
    records_view,
};
use super::frame::{classify_frame, frame_kind, FrameKind};
use super::repo::{
    parse_action_frame, parse_beacon_frame, parse_open_drone_id_message_pack,
    parse_service_descriptor_attribute, remove_radiotap_header, spec_parse_action_frame,
    spec_parse_beacon_frame, spec_parse_open_drone_id_message_pack,
    spec_parse_service_descriptor_attribute, strippable_length, without_header,
};
use crate::drone::entity::DroneView;
use crate::drone::registry::{
    messages_view, record_or_empty, store_action_at, DroneRegistry, StoreAction, StoreActionView,
};
use crate::odid::entity::{OdidMessage, OdidMessageView};
use crate::odid::repo::{parse_message, spec_parse_message};
use vstd::prelude::*;

verus! {

/// The message pack that a frame carries, if it carries one: hands the bytes
/// of a pack to the pack parser and keeps the pack.
pub open spec fn spec_pack_in(bytes: Seq<u8>) -> Option<WifiOpenDroneIDMessagePackView> {
    match spec_parse_open_drone_id_message_pack(bytes) {
        Ok((_, pack)) => Some(pack),
        Err(_) => None,
    }
}

/// The message pack that the 802.11 frame `payload` carries. An action frame
/// carries it in the service info of its Service Descriptor Attribute, a
/// beacon frame in its vendor-specific tag. Any other frame, and any frame
/// that one of the parsers refuses, carries none.
pub open spec fn spec_decode_frame(payload: Seq<u8>) -> Option<WifiOpenDroneIDMessagePackView> {
    match frame_kind(payload, 0) {
        FrameKind::Action => match spec_parse_action_frame(payload) {
            Ok((_, frame)) => match spec_parse_service_descriptor_attribute(frame.body) {
                Ok((_, attribute)) => spec_pack_in(attribute.service_info),
                Err(_) => None,
            },
            Err(_) => None,
        },
        FrameKind::Beacon => match spec_parse_beacon_frame(payload) {
            Ok((_, frame)) => spec_pack_in(frame.vendor_specific_data),
            Err(_) => None,
        },
        FrameKind::Other => None,
    }
}

/// Finds the message pack in an 802.11 frame, the radiotap header being
/// stripped already. Frames that are neither action nor beacon frames, and
/// frames that do not parse, are dropped.
pub fn decode_frame(payload: &[u8]) -> (r: Option<WifiOpenDroneIDMessagePack>)
    ensures
        match (r, spec_decode_frame(payload@)) {
            (Some(pack), Some(view)) => pack@ == view,
            (None, None) => true,
            _ => false,
        },
{
    match classify_frame(payload, 0) {
        FrameKind::Action => {
            let frame = match parse_action_frame(payload) {
                Ok((_, frame)) => frame,
                Err(_) => {
                    return None;
                },
            };
            let attribute = match parse_service_descriptor_attribute(frame.body) {
                Ok((_, attribute)) => attribute,
                Err(_) => {
                    return None;
                },
            };
            match parse_open_drone_id_message_pack(attribute.service_info) {
                Ok((_, pack)) => Some(pack),
                Err(_) => None,
            }
        },
        FrameKind::Beacon => {
            let frame = match parse_beacon_frame(payload) {
                Ok((_, frame)) => frame,
                Err(_) => {
                    return None;
                },
            };
            match parse_open_drone_id_message_pack(frame.vendor_specific_data) {
                Ok((_, pack)) => Some(pack),
                Err(_) => None,
            }
        },
        FrameKind::Other => None,
    }
}

/// The messages that the records of a pack decode to, in the order of the
/// records. A record whose body does not parse is left out.
pub open spec fn spec_decode_records(records: Seq<WifiOpenDroneIDMessageView>) -> Seq<
    OdidMessageView,
>
    decreases records.len(),
{
    if records.len() == 0 {
        Seq::empty()
    } else {
        let earlier = spec_decode_records(records.drop_last());
        match spec_parse_message(records.last().message_type, records.last().message_body) {
            Ok(message) => earlier.push(message),
            Err(_) => earlier,
        }
    }
}

/// Decodes each record of a pack by the kind that its header announces.
/// Records that do not parse are dropped; the others keep their order.
pub fn decode_messages(pack: &WifiOpenDroneIDMessagePack) -> (messages: Vec<OdidMessage>)
    ensures
        messages_view(messages@) == spec_decode_records(pack@.messages),
{
    let mut messages: Vec<OdidMessage> = Vec::new();
    let mut i: usize = 0;
    let ghost records = records_view(pack.messages@);
    proof {
        assert(records.subrange(0, 0) =~= Seq::empty());
        assert(messages_view(messages@) =~= Seq::empty());
    }
    while i < pack.messages.len()
        invariant
            i <= pack.messages@.len(),
            records == records_view(pack.messages@),
            messages_view(messages@) == spec_decode_records(records.subrange(0, i as int)),
        decreases pack.messages@.len() - i,
    {
        let record = &pack.messages[i];
        let ghost before = messages_view(messages@);
        proof {
            let longer = records.subrange(0, i + 1);
            assert(longer.drop_last() =~= records.subrange(0, i as int));
            assert(longer.last() == record@);
        }
        match parse_message(record.message_type, record.message_body.as_slice()) {
            Ok(message) => {
                messages.push(message);
                proof {
                    assert(messages_view(messages@) =~= before.push(messages@.last()@));
                }
            },
            Err(_) => {},
        }
        i = i + 1;
    }
    proof {
        assert(records.subrange(0, i as int) =~= records);
    }
    messages
}

/// The key under which the messages of one pack are filed: the identifier of
/// the BasicId message, the last one where there are several; that is the
/// identifier that a fresh record holds once all the messages are merged into
/// it. Without a BasicId message there is no key.
pub open spec fn spec_pack_key(messages: Seq<OdidMessageView>) -> Option<Seq<char>> {
    match DroneView::empty().with_messages(messages).basic_id {
        Some(basic_id) => Some(basic_id.uas_id),
        None => None,
    }
}

/// Finds the key under which the messages of one pack are filed.
pub fn pack_key(messages: &Vec<OdidMessage>) -> (key: Option<String>)
    ensures
        match (key, spec_pack_key(messages_view(messages@))) {
            (Some(k), Some(v)) => k@ == v,
            (None, None) => true,
            _ => false,
        },
{
    let mut key: Option<String> = None;
    let mut i: usize = 0;
    let ghost all = messages_view(messages@);
    proof {
        assert(all.subrange(0, 0) =~= Seq::empty());
    }
    while i < messages.len()
        invariant
            i <= messages@.len(),
            all == messages_view(messages@),
            match (key, spec_pack_key(all.subrange(0, i as int))) {
                (Some(k), Some(v)) => k@ == v,
                (None, None) => true,
                _ => false,
            },
        decreases messages@.len() - i,
    {
        proof {
            let longer = all.subrange(0, i + 1);
            assert(longer.drop_last() =~= all.subrange(0, i as int));
            assert(longer.last() == messages@[i as int]@);
        }
        match &messages[i] {
            OdidMessage::BasicId(basic_id) => {
                key = Some(basic_id.uas_id.clone());
            },
            _ => {},
        }
        i = i + 1;
    }
    proof {
        assert(all.subrange(0, i as int) =~= all);
    }
    key
}

/// What one frame did, for the loop that captured it.
#[derive(Debug)]
pub struct WifiOutcome {
    /// A message pack with at least one record was decoded: the channel is
    /// worth staying on.
    pub pack_received: bool,
    /// The key of the record that the frame was merged into.
    pub key: Option<String>,
    /// What the store is to be asked.
    pub action: StoreAction,
}

/// A `WifiOutcome` over views.
pub struct WifiOutcomeView {
    pub pack_received: bool,
    pub key: Option<Seq<char>>,
    pub action: StoreActionView,
}

impl View for WifiOutcome {
    type V = WifiOutcomeView;

    open spec fn view(&self) -> WifiOutcomeView {
        WifiOutcomeView {
            pack_received: self.pack_received,
            key: match self.key {
                Some(k) => Some(k@),
                None => None,
            },
            action: self.action@,
        }
    }
}

/// The messages of the pack that the 802.11 frame `payload` carries, if it
/// carries a pack with at least one record.
pub open spec fn spec_frame_messages(payload: Seq<u8>) -> Option<Seq<OdidMessageView>> {
    match spec_decode_frame(payload) {
        Some(pack) => if pack.messages.len() > 0 {
            Some(spec_decode_records(pack.messages))
        } else {
            None
        },
        None => None,
    }
}

/// The key under which the 802.11 frame `payload` is filed, if it is.
pub open spec fn spec_frame_key(payload: Seq<u8>) -> Option<Seq<char>> {
    match spec_frame_messages(payload) {
        Some(messages) => spec_pack_key(messages),
        None => None,
    }
}

/// The registry after the 802.11 frame `payload`: where the frame has a key,
/// its messages are merged, in their order, into the record filed under the
/// key, or into an empty record filed there first. Any other frame leaves the
/// registry as it is.
pub open spec fn spec_records_after_frame(
    records: Map<Seq<char>, DroneView>,
    payload: Seq<u8>,
) -> Map<Seq<char>, DroneView> {
    match spec_frame_key(payload) {
        Some(key) => records.insert(
            key,
            record_or_empty(records, key).with_messages(spec_frame_messages(payload)->0),
        ),
        None => records,
    }
}

/// What the loop is told of the 802.11 frame `payload`: whether a pack was
/// received, the key, and the question to the store. A complete record that
/// is not stored is inserted; one that is stored is written anew after every
/// pack.
pub open spec fn spec_frame_outcome(
    records: Map<Seq<char>, DroneView>,
    payload: Seq<u8>,
) -> WifiOutcomeView {
    WifiOutcomeView {
        pack_received: spec_frame_messages(payload) is Some,
        key: spec_frame_key(payload),
        action: match spec_frame_key(payload) {
            Some(key) => store_action_at(spec_records_after_frame(records, payload), key, true),
            None => StoreActionView::Nothing,
        },
    }
}

/// Handles one 802.11 frame, the radiotap header being stripped already:
/// finds its message pack, decodes the records, merges them into the record
/// of the drone that the pack names, and decides what the store is to be
/// asked. A frame without a pack, with an empty pack, or whose pack names no
/// drone changes nothing.
pub fn process_frame(drones: &mut DroneRegistry, payload: &[u8]) -> (outcome: WifiOutcome)
    requires
        old(drones).wf(),
    ensures
        final(drones).wf(),
        final(drones)@ == spec_records_after_frame(old(drones)@, payload@),
        outcome@ == spec_frame_outcome(old(drones)@, payload@),
{
    let pack = match decode_frame(payload) {
        Some(pack) => pack,
        None => {
            return WifiOutcome { pack_received: false, key: None, action: StoreAction::Nothing };
        },
    };
    if pack.messages.len() == 0 {
        return WifiOutcome { pack_received: false, key: None, action: StoreAction::Nothing };
    }
    let messages = decode_messages(&pack);
    let key = match pack_key(&messages) {
        Some(key) => key,
        None => {
            return WifiOutcome { pack_received: true, key: None, action: StoreAction::Nothing };
        },
    };
    drones.apply_all(key.as_str(), &messages);
    let action = drones.store_action(key.as_str(), true);
    WifiOutcome { pack_received: true, key: Some(key), action }
}

/// Handles one captured frame: strips its radiotap header and handles the
/// 802.11 frame behind it, as `process_frame` does.
pub fn process_wifi_frame(drones: &mut DroneRegistry, data: &[u8]) -> (outcome: WifiOutcome)
    requires
        old(drones).wf(),
    ensures
        final(drones).wf(),
        final(drones)@ == spec_records_after_frame(
            old(drones)@,
            without_header(data@, strippable_length(data@)),
        ),
        outcome@ == spec_frame_outcome(
            old(drones)@,
            without_header(data@, strippable_length(data@)),
        ),
{
    let payload = remove_radiotap_header(data);
    process_frame(drones, payload)
}

} // verus!
