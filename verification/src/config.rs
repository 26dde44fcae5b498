//! The settings of the whole station, as they are read from its
//! configuration file and its environment.

use crate::bluetooth::config::BluetoothConfig;
use crate::web::config::WebConfig;
use crate::wifi::config::WifiConfig;
use vstd::prelude::*;

verus! {

/// Settings of the decoy miner.
#[derive(Debug)]
pub struct MinerConfig {
    pub wallet_address: String,
}

impl Default for MinerConfig {
    fn default() -> (r: MinerConfig)
        ensures
            r.wallet_address@ == Seq::<char>::empty(),
    {
        MinerConfig { wallet_address: String::new() }
    }
}

impl Clone for MinerConfig {
    fn clone(&self) -> (r: Self)
        ensures
            r.wallet_address@ == self.wallet_address@,
    {
        MinerConfig { wallet_address: self.wallet_address.clone() }
    }
}

/// Settings of the MQTT uplink. An empty `ca_cert` means no TLS.
#[derive(Debug)]
pub struct MqttClientConfig {
    pub uri: String,
    pub port: u16,
    pub keep_alive: u64,
    pub topic: String,
    pub ca_cert: String,
    pub client_cert: String,
    pub client_key: String,
}

impl Default for MqttClientConfig {
    fn default() -> (r: MqttClientConfig)
        ensures
            r.uri@ == Seq::<char>::empty(),
            r.port == 0,
            r.keep_alive == 0,
            r.topic@ == Seq::<char>::empty(),
            r.ca_cert@ == Seq::<char>::empty(),
            r.client_cert@ == Seq::<char>::empty(),
            r.client_key@ == Seq::<char>::empty(),
    {
        MqttClientConfig {
            uri: String::new(),
            port: 0,
            keep_alive: 0,
            topic: String::new(),
            ca_cert: String::new(),
            client_cert: String::new(),
            client_key: String::new(),
        }
    }
}

/// Settings of the store.
#[derive(Debug)]
pub struct DbConfig {
    /// The connection string of the database.
    pub pg_con: String,
}

impl Default for DbConfig {
    fn default() -> (r: DbConfig)
        ensures
            r.pg_con@ == Seq::<char>::empty(),
    {
        DbConfig { pg_con: String::new() }
    }
}

/// Settings of the listeners and of what they feed.
#[derive(Debug)]
pub struct AppConfig {
    pub bluetooth: BluetoothConfig,
    pub wifi: WifiConfig,
    pub web: WebConfig,
    pub mqtt: MqttClientConfig,
    pub miner: MinerConfig,
}

impl Default for AppConfig {
    fn default() -> (r: AppConfig)
        ensures
            r.bluetooth.device_name@ == Seq::<char>::empty(),
            r.wifi.device_name@ == Seq::<char>::empty(),
            r.wifi.channels@ == crate::wifi::config::spec_default_channels(),
            r.wifi.channel_mod_freq_ms == 300,
            r.web.port == 8080,
            r.web.host@ == Seq::<char>::empty(),
            r.miner.wallet_address@ == Seq::<char>::empty(),
    {
        AppConfig {
            bluetooth: BluetoothConfig::default(),
            wifi: WifiConfig::default(),
            web: WebConfig::default(),
            mqtt: MqttClientConfig::default(),
            miner: MinerConfig::default(),
        }
    }
}

/// What the environment sets over the configuration file.
#[derive(Debug)]
pub struct EnvOverride {
    /// The connection string of the database.
    pub db_con: String,
}

/// All settings of the station.
#[derive(Debug)]
pub struct Config {
    pub db: DbConfig,
    pub app: AppConfig,
}

impl Default for Config {
    fn default() -> (r: Config)
        ensures
            r.db.pg_con@ == Seq::<char>::empty(),
            r.app.wifi.channels@ == crate::wifi::config::spec_default_channels(),
            r.app.wifi.channel_mod_freq_ms == 300,
            r.app.web.port == 8080,
    {
        Config { db: DbConfig::default(), app: AppConfig::default() }
    }
}

impl Config {
    /// The settings with what the environment sets put over them: the
    /// database is the one that the environment names, whatever the
    /// configuration file says. All else stays.
    pub fn with_env_override(self, env: EnvOverride) -> (r: Config)
        ensures
            r.db.pg_con@ == env.db_con@,
            r.app == self.app,
    {
        Config { db: DbConfig { pg_con: env.db_con }, app: self.app }
    }
}

} // verus!
