//! Open Drone ID over Wi-Fi: the frames that carry it, the interface that
//! listens for it, and what is done with each captured frame.

pub mod config;
pub mod entity;
pub mod frame;
pub mod interface;
pub mod repo;
pub mod task;

pub use config::{default_channel_mod_freq_ms, default_channels, WifiConfig};
pub use entity::{
    WifiActionFrame, WifiBeaconFrame, WifiOpenDroneIDMessage, WifiOpenDroneIDMessagePack,
    WifiServiceDescriptorAttribute, ASDSTAN_OUI, NAN_SERVICE_ID, WIFI_ALLIANCE_OUI,
};
pub use frame::{classify_frame, is_action_frame, is_beacon_frame, FrameKind};
pub use interface::WifiInterface;
pub use repo::{
    parse_action_frame, parse_beacon_frame, parse_open_drone_id_message_pack,
    parse_service_descriptor_attribute, remove_radiotap_header, strip_radiotap_header,
};
pub use task::{decode_frame, decode_messages, process_frame, process_wifi_frame, WifiOutcome};
