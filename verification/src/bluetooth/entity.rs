//! The service data of a Bluetooth LE advertisement that carries Open Drone
//! ID, as a value.

use vstd::prelude::*;

verus! {

/// The application code that marks service data as Open Drone ID.
pub const ODID_APP_CODE: u8 = 0x0d;

/// The bytes of the message in one advertisement.
pub const BLUETOOTH_MESSAGE_LEN: usize = 25;

/// The service data of one advertisement.
#[derive(Debug)]
pub struct BluetoothAdvertisementFrame {
    pub app_code: u8,
    pub counter: u8,
    pub message: [u8; 25],
}

/// A `BluetoothAdvertisementFrame` over a sequence of bytes.
pub struct BluetoothAdvertisementFrameView {
    pub app_code: u8,
    pub counter: u8,
    pub message: Seq<u8>,
}

impl View for BluetoothAdvertisementFrame {
    type V = BluetoothAdvertisementFrameView;

    open spec fn view(&self) -> BluetoothAdvertisementFrameView {
        BluetoothAdvertisementFrameView {
            app_code: self.app_code,
            counter: self.counter,
            message: self.message@,
        }
    }
}

} // verus!
