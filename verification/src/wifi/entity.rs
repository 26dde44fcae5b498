//! The Wi-Fi frames and attributes that carry Open Drone ID, as values.

use vstd::prelude::*;

verus! {

/// The OUI of the Wi-Fi Alliance.
pub const WIFI_ALLIANCE_OUI: [u8; 3] = [0x50, 0x6f, 0x9a];

/// The OUI of ASD-STAN.
pub const ASDSTAN_OUI: [u8; 3] = [0xfa, 0x0b, 0xbc];

/// The service id under which Open Drone ID is announced over NAN.
pub const NAN_SERVICE_ID: [u8; 6] = [0x88, 0x69, 0x19, 0x9d, 0x92, 0x09];

/// Whether `oui` is one of the two OUIs under which Open Drone ID is sent:
/// `50 6F 9A` (Wi-Fi Alliance) or `FA 0B BC` (ASD-STAN).
pub open spec fn is_odid_oui(oui: Seq<u8>) -> bool {
    oui.len() == 3 && ((oui[0] == 0x50 && oui[1] == 0x6f && oui[2] == 0x9a) || (oui[0] == 0xfa
        && oui[1] == 0x0b && oui[2] == 0xbc))
}

/// Whether `id` is the NAN service id of Open Drone ID, `88 69 19 9D 92 09`.
pub open spec fn is_nan_service_id(id: Seq<u8>) -> bool {
    id.len() == 6 && id[0] == 0x88 && id[1] == 0x69 && id[2] == 0x19 && id[3] == 0x9d && id[4]
        == 0x92 && id[5] == 0x09
}

/// An 802.11 action frame with a vendor-specific body.
#[derive(Debug)]
pub struct WifiActionFrame<'a> {
    pub frame_control: u16,
    pub frame_control_version: u8,
    pub frame_control_type: u8,
    pub frame_control_subtype: u8,
    pub duration_id: u16,
    pub address1: &'a [u8],
    pub address2: &'a [u8],
    pub address3: &'a [u8],
    pub sequence_control: u16,
    pub category: u8,
    pub action: u8,
    pub oui: [u8; 3],
    pub oui_type: u8,
    pub body: &'a [u8],
}

/// A `WifiActionFrame` over sequences of bytes.
pub struct WifiActionFrameView {
    pub frame_control: u16,
    pub frame_control_version: u8,
    pub frame_control_type: u8,
    pub frame_control_subtype: u8,
    pub duration_id: u16,
    pub address1: Seq<u8>,
    pub address2: Seq<u8>,
    pub address3: Seq<u8>,
    pub sequence_control: u16,
    pub category: u8,
    pub action: u8,
    pub oui: Seq<u8>,
    pub oui_type: u8,
    pub body: Seq<u8>,
}

impl<'a> View for WifiActionFrame<'a> {
    type V = WifiActionFrameView;

    open spec fn view(&self) -> WifiActionFrameView {
        WifiActionFrameView {
            frame_control: self.frame_control,
            frame_control_version: self.frame_control_version,
            frame_control_type: self.frame_control_type,
            frame_control_subtype: self.frame_control_subtype,
            duration_id: self.duration_id,
            address1: self.address1@,
            address2: self.address2@,
            address3: self.address3@,
            sequence_control: self.sequence_control,
            category: self.category,
            action: self.action,
            oui: self.oui@,
            oui_type: self.oui_type,
            body: self.body@,
        }
    }
}

/// An 802.11 beacon frame, with the Open Drone ID payload of its
/// vendor-specific tag.
#[derive(Debug)]
pub struct WifiBeaconFrame<'a> {
    pub frame_control: u16,
    pub duration: u16,
    pub destination_address: [u8; 6],
    pub source_address: [u8; 6],
    pub bssid: [u8; 6],
    pub sequence_control: u16,
    pub vendor_specific_data: &'a [u8],
}

/// A `WifiBeaconFrame` over sequences of bytes.
pub struct WifiBeaconFrameView {
    pub frame_control: u16,
    pub duration: u16,
    pub destination_address: Seq<u8>,
    pub source_address: Seq<u8>,
    pub bssid: Seq<u8>,
    pub sequence_control: u16,
    pub vendor_specific_data: Seq<u8>,
}

impl<'a> View for WifiBeaconFrame<'a> {
    type V = WifiBeaconFrameView;

    open spec fn view(&self) -> WifiBeaconFrameView {
        WifiBeaconFrameView {
            frame_control: self.frame_control,
            duration: self.duration,
            destination_address: self.destination_address@,
            source_address: self.source_address@,
            bssid: self.bssid@,
            sequence_control: self.sequence_control,
            vendor_specific_data: self.vendor_specific_data@,
        }
    }
}

/// The NAN Service Descriptor Attribute of an action frame's body.
#[derive(Debug)]
pub struct WifiServiceDescriptorAttribute<'a> {
    pub attribute_id: u8,
    pub attribute_length: u16,
    pub service_id: &'a [u8],
    pub instance_id: u8,
    pub requestor_id: u8,
    pub service_control: u8,
    pub service_info_length: u8,
    pub service_info: &'a [u8],
    pub message_counter: u8,
}

/// A `WifiServiceDescriptorAttribute` over sequences of bytes.
pub struct WifiServiceDescriptorAttributeView {
    pub attribute_id: u8,
    pub attribute_length: u16,
    pub service_id: Seq<u8>,
    pub instance_id: u8,
    pub requestor_id: u8,
    pub service_control: u8,
    pub service_info_length: u8,
    pub service_info: Seq<u8>,
    pub message_counter: u8,
}

impl<'a> View for WifiServiceDescriptorAttribute<'a> {
    type V = WifiServiceDescriptorAttributeView;

    open spec fn view(&self) -> WifiServiceDescriptorAttributeView {
        WifiServiceDescriptorAttributeView {
            attribute_id: self.attribute_id,
            attribute_length: self.attribute_length,
            service_id: self.service_id@,
            instance_id: self.instance_id,
            requestor_id: self.requestor_id,
            service_control: self.service_control,
            service_info_length: self.service_info_length,
            service_info: self.service_info@,
            message_counter: self.message_counter,
        }
    }
}

/// One record of a message pack: the two halves of its header byte, and its
/// body.
#[derive(Debug)]
pub struct WifiOpenDroneIDMessage {
    pub message_type: u8,
    pub version: u8,
    pub message_body: Vec<u8>,
}

/// A `WifiOpenDroneIDMessage` over a sequence of bytes.
pub struct WifiOpenDroneIDMessageView {
    pub message_type: u8,
    pub version: u8,
    pub message_body: Seq<u8>,
}

impl View for WifiOpenDroneIDMessage {
    type V = WifiOpenDroneIDMessageView;

    open spec fn view(&self) -> WifiOpenDroneIDMessageView {
        WifiOpenDroneIDMessageView {
            message_type: self.message_type,
            version: self.version,
            message_body: self.message_body@,
        }
    }
}

/// A message pack: several messages of one size in one frame.
#[derive(Debug)]
pub struct WifiOpenDroneIDMessagePack {
    pub message_type: u8,
    pub version: u8,
    pub single_msg_size: u8,
    pub num_messages: u8,
    pub messages: Vec<WifiOpenDroneIDMessage>,
}

/// A `WifiOpenDroneIDMessagePack` over the views of its records.
pub struct WifiOpenDroneIDMessagePackView {
    pub message_type: u8,
    pub version: u8,
    pub single_msg_size: u8,
    pub num_messages: u8,
    pub messages: Seq<WifiOpenDroneIDMessageView>,
}

/// The views of the records of a pack, in their order.
pub open spec fn records_view(messages: Seq<WifiOpenDroneIDMessage>) -> Seq<
    WifiOpenDroneIDMessageView,
> {
    Seq::new(messages.len(), |i: int| messages[i]@)
}

impl View for WifiOpenDroneIDMessagePack {
    type V = WifiOpenDroneIDMessagePackView;

    open spec fn view(&self) -> WifiOpenDroneIDMessagePackView {
        WifiOpenDroneIDMessagePackView {
            message_type: self.message_type,
            version: self.version,
            single_msg_size: self.single_msg_size,
            num_messages: self.num_messages,
            messages: records_view(self.messages@),
        }
    }
}

} // verus!
