//! Settings of the Bluetooth listener.

use vstd::prelude::*;

verus! {

/// Settings of the Bluetooth listener.
#[derive(Debug)]
pub struct BluetoothConfig {
    /// Only devices whose identifier holds this text are listened to.
    pub device_name: String,
}

impl Default for BluetoothConfig {
    fn default() -> (r: BluetoothConfig)
        ensures
            r.device_name@ == Seq::<char>::empty(),
    {
        BluetoothConfig { device_name: String::new() }
    }
}

impl Clone for BluetoothConfig {
    fn clone(&self) -> (r: Self)
        ensures
            r.device_name@ == self.device_name@,
    {
        BluetoothConfig { device_name: self.device_name.clone() }
    }
}

} // verus!
