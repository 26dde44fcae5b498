//! The capturing interface and its channel: when to leave a channel, and
//! which one comes next.

use super::config::{spec_default_channels, WifiConfig};
use vstd::prelude::*;

verus! {

/// How long a channel is kept after Open Drone ID was last heard on it, in
/// seconds.
pub const TIME_TO_CHANGE_CHANNEL: i64 = 30;

/// How long the first channel is kept while nothing has been heard at all,
/// in seconds.
pub const TIME_TO_FIRST_CHANGE: i64 = 5;

/// The capturing interface. Instants are in milliseconds since the start of
/// 1970, UTC.
#[derive(Debug)]
pub struct WifiInterface {
    pub name: String,
    pub channel: u64,
    pub channels: Vec<u64>,
    pub last_odid_received: Option<i64>,
    pub channel_mod_freq_ms: u64,
}

/// A `WifiInterface` as a mathematical value.
pub struct WifiInterfaceView {
    pub name: Seq<char>,
    pub channel: u64,
    pub channels: Seq<u64>,
    pub last_odid_received: Option<i64>,
    pub channel_mod_freq_ms: u64,
}

/// The first place from `from` on at which `channel` stands in `channels`;
/// the length of `channels` where it stands at none.
pub open spec fn first_place(channels: Seq<u64>, channel: u64, from: int) -> int
    decreases channels.len() - from,
{
    if from < 0 || from >= channels.len() || channels[from] == channel {
        from
    } else {
        first_place(channels, channel, from + 1)
    }
}

/// Whether the channel is left at the instant `now`: more than thirty
/// seconds after Open Drone ID was last heard, or, where none was heard yet,
/// more than five seconds after the instant `started` at which listening
/// began.
pub open spec fn hop_is_due(last_odid_received: Option<i64>, now: i64, started: i64) -> bool {
    match last_odid_received {
        Some(heard) => now - heard > TIME_TO_CHANGE_CHANNEL * 1000,
        None => now - started > TIME_TO_FIRST_CHANGE * 1000,
    }
}

impl WifiInterfaceView {
    /// The interface has channels, and the one it is on is among them.
    pub open spec fn wf(self) -> bool {
        self.channels.len() > 0 && self.channels.contains(self.channel)
    }

    /// The channel after the one the interface is on: the next in the list,
    /// and the first after the last.
    pub open spec fn next_channel(self) -> u64
        recommends
            self.wf(),
    {
        let place = first_place(self.channels, self.channel, 0);
        if place + 1 >= self.channels.len() {
            self.channels[0]
        } else {
            self.channels[place + 1]
        }
    }

    /// The interface after a hop: on the next channel, and with nothing heard
    /// on it yet.
    pub open spec fn hopped(self) -> WifiInterfaceView {
        WifiInterfaceView { channel: self.next_channel(), last_odid_received: None, ..self }
    }
}

/// The first place of a channel lies in the list exactly when the list holds
/// the channel, and no earlier place holds it.
pub proof fn lemma_first_place(channels: Seq<u64>, channel: u64, from: int)
    requires
        0 <= from <= channels.len(),
    ensures
        from <= first_place(channels, channel, from) <= channels.len(),
        first_place(channels, channel, from) < channels.len() ==> channels[first_place(
            channels,
            channel,
            from,
        )] == channel,
        forall|i: int| from <= i < first_place(channels, channel, from) ==> channels[i] != channel,
    decreases channels.len() - from,
{
    if from < channels.len() && channels[from] != channel {
        lemma_first_place(channels, channel, from + 1);
    }
}

/// After a hop the interface is still on one of its channels.
pub proof fn lemma_hop_keeps_wf(interface: WifiInterfaceView)
    requires
        interface.wf(),
    ensures
        interface.hopped().wf(),
{
    let place = first_place(interface.channels, interface.channel, 0);
    lemma_first_place(interface.channels, interface.channel, 0);
    if place + 1 >= interface.channels.len() {
        assert(interface.channels[0] == interface.hopped().channel);
    } else {
        assert(interface.channels[place + 1] == interface.hopped().channel);
    }
}

/// Reads the clock with `chrono::Utc::now` and turns the instant into
/// milliseconds since the start of 1970 with `DateTime::timestamp_millis`.
/// Nothing is claimed of the instant. `Utc::now` itself gives up on a system
/// clock that stands before 1970.
#[verifier::external_body]
fn current_time_millis() -> (now: i64) {
    chrono::Utc::now().timestamp_millis()
}

impl View for WifiInterface {
    type V = WifiInterfaceView;

    open spec fn view(&self) -> WifiInterfaceView {
        WifiInterfaceView {
            name: self.name@,
            channel: self.channel,
            channels: self.channels@,
            last_odid_received: self.last_odid_received,
            channel_mod_freq_ms: self.channel_mod_freq_ms,
        }
    }
}

impl Default for WifiInterface {
    fn default() -> (r: WifiInterface)
        ensures
            r@ == (WifiInterfaceView {
                name: "wlan0"@,
                channel: 6,
                channels: spec_default_channels(),
                last_odid_received: None,
                channel_mod_freq_ms: 1000,
            }),
            r@.wf(),
    {
        let channels = super::config::default_channels();
        assert(channels@[1] == 6);
        WifiInterface {
            name: "wlan0".to_owned(),
            channel: 6,
            channels,
            last_odid_received: None,
            channel_mod_freq_ms: 1000,
        }
    }
}

impl Clone for WifiInterface {
    fn clone(&self) -> (r: Self)
        ensures
            r@ == self@,
    {
        WifiInterface {
            name: self.name.clone(),
            channel: self.channel,
            channels: self.channels.clone(),
            last_odid_received: self.last_odid_received,
            channel_mod_freq_ms: self.channel_mod_freq_ms,
        }
    }
}

impl WifiInterface {
    /// Sets the interface up from its settings: on the first of the
    /// configured channels, with nothing heard yet. The settings must name a
    /// channel.
    pub fn init(config: WifiConfig) -> (r: WifiInterface)
        requires
            config.channels@.len() > 0,
        ensures
            r@ == (WifiInterfaceView {
                name: config.device_name@,
                channel: config.channels@[0],
                channels: config.channels@,
                last_odid_received: None,
                channel_mod_freq_ms: config.channel_mod_freq_ms,
            }),
            r@.wf(),
    {
        let channel = config.channels[0];
        WifiInterface {
            name: config.device_name,
            channel,
            channels: config.channels,
            last_odid_received: None,
            channel_mod_freq_ms: config.channel_mod_freq_ms,
        }
    }

    /// Tells whether the interface has channels and is on one of them, which
    /// is what a hop needs.
    pub fn is_well_formed(&self) -> (r: bool)
        ensures
            r == self@.wf(),
    {
        let mut i: usize = 0;
        while i < self.channels.len()
            invariant
                i <= self.channels@.len(),
                forall|k: int| 0 <= k < i ==> self.channels@[k] != self.channel,
            decreases self.channels@.len() - i,
        {
            if self.channels[i] == self.channel {
                return true;
            }
            i = i + 1;
        }
        false
    }

    /// Notes that Open Drone ID was heard at the instant `timestamp`: the
    /// channel is kept for another thirty seconds from then.
    pub fn update_last_odid_received(&mut self, timestamp: i64)
        ensures
            final(self)@ == (WifiInterfaceView {
                last_odid_received: Some(timestamp),
                ..old(self)@
            }),
    {
        self.last_odid_received = Some(timestamp);
    }

    /// Decides whether the channel is left at the instant `now`, listening
    /// having begun at the instant `started`.
    pub fn should_change_channel_at(&self, now: i64, started: i64) -> (r: bool)
        ensures
            r == hop_is_due(self.last_odid_received, now, started),
    {
        match self.last_odid_received {
            Some(heard) => (now as i128) - (heard as i128) > (TIME_TO_CHANGE_CHANNEL as i128)
                * 1000,
            None => (now as i128) - (started as i128) > (TIME_TO_FIRST_CHANGE as i128) * 1000,
        }
    }

    /// Decides whether the channel is left now, by the system's clock,
    /// listening having begun at the instant `started`. The answer is that of
    /// `should_change_channel_at` for the instant that the clock gave.
    pub fn should_change_channel(&self, started: i64) -> (r: bool)
        ensures
            exists|now: i64| r == hop_is_due(self.last_odid_received, now, started),
    {
        let now = current_time_millis();
        let r = self.should_change_channel_at(now, started);
        assert(r == hop_is_due(self.last_odid_received, now, started));
        r
    }

    /// Moves the interface to the next channel of its list, to the first
    /// after the last, and forgets when Open Drone ID was last heard. The
    /// radio itself is set by the caller, to `channel` as it is afterwards.
    pub fn adjust_channel(&mut self)
        requires
            old(self)@.wf(),
        ensures
            final(self)@ == old(self)@.hopped(),
            final(self)@.wf(),
    {
        let mut place: usize = 0;
        while place < self.channels.len() && self.channels[place] != self.channel
            invariant
                place <= self.channels@.len(),
                first_place(self.channels@, self.channel, 0) == first_place(
                    self.channels@,
                    self.channel,
                    place as int,
                ),
            decreases self.channels@.len() - place,
        {
            place = place + 1;
        }
        proof {
            lemma_first_place(self.channels@, self.channel, 0);
            lemma_hop_keeps_wf(self@);
        }
        let next = if place + 1 >= self.channels.len() {
            self.channels[0]
        } else {
            self.channels[place + 1]
        };
        self.channel = next;
        self.last_odid_received = None;
    }

    /// One turn of the channel hopper at the instant `now`: where the channel
    /// is to be left, the interface moves on and the new channel is handed
    /// back, for the caller to set the radio to; else nothing changes.
    pub fn hop_if_due(&mut self, now: i64, started: i64) -> (r: Option<u64>)
        requires
            old(self)@.wf(),
        ensures
            final(self)@.wf(),
            hop_is_due(old(self).last_odid_received, now, started) ==> final(self)@ == old(
                self,
            )@.hopped() && r == Some(old(self)@.next_channel()),
            !hop_is_due(old(self).last_odid_received, now, started) ==> final(self)@ == old(self)@
                && r is None,
    {
        if self.should_change_channel_at(now, started) {
            self.adjust_channel();
            Some(self.channel)
        } else {
            None
        }
    }
}

} // verus!
