//! Settings of the Wi-Fi listener.

use vstd::prelude::*;

verus! {

/// The channels that are listened on where none are configured: the three
/// channels of the 2.4 GHz band that do not overlap.
pub open spec fn spec_default_channels() -> Seq<u64> {
    seq![1u64, 6u64, 11u64]
}

/// The channels that are listened on where none are configured.
pub fn default_channels() -> (channels: Vec<u64>)
    ensures
        channels@ == spec_default_channels(),
{
    let mut channels: Vec<u64> = Vec::new();
    channels.push(1);
    channels.push(6);
    channels.push(11);
    assert(channels@ =~= spec_default_channels());
    channels
}

/// How often, in milliseconds, the channel is reconsidered where nothing is
/// configured.
pub fn default_channel_mod_freq_ms() -> (ms: u64)
    ensures
        ms == 300,
{
    300
}

/// Settings of the Wi-Fi listener.
#[derive(Debug)]
pub struct WifiConfig {
    /// The interface to capture on.
    pub device_name: String,
    /// The channels to hop over, in their order.
    pub channels: Vec<u64>,
    /// How often the channel is reconsidered, in milliseconds.
    pub channel_mod_freq_ms: u64,
}

impl Default for WifiConfig {
    fn default() -> (r: WifiConfig)
        ensures
            r.device_name@ == Seq::<char>::empty(),
            r.channels@ == spec_default_channels(),
            r.channel_mod_freq_ms == 300,
    {
        WifiConfig {
            device_name: String::new(),
            channels: default_channels(),
            channel_mod_freq_ms: default_channel_mod_freq_ms(),
        }
    }
}

impl Clone for WifiConfig {
    fn clone(&self) -> (r: Self)
        ensures
            r.device_name@ == self.device_name@,
            r.channels@ == self.channels@,
            r.channel_mod_freq_ms == self.channel_mod_freq_ms,
    {
        WifiConfig {
            device_name: self.device_name.clone(),
            channels: self.channels.clone(),
            channel_mod_freq_ms: self.channel_mod_freq_ms,
        }
    }
}

} // verus!
