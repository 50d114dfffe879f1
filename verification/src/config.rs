//! The settings of the gateway and their defaults.

use vstd::prelude::*;
use vstd::string::StringExecFns;

verus! {

/// Where the request surface listens.
#[derive(Debug, Clone, PartialEq, Eq)]
pub struct ServerConfig {
    pub host: String,
    pub port: u16,
}

/// How to reach the message broker.
#[derive(Debug, Clone, PartialEq, Eq)]
pub struct MqttConfig {
    pub broker: String,
    pub port: u16,
    pub client_id: String,
}

/// How often the background tick fires.
#[derive(Debug, Clone, Copy, PartialEq, Eq)]
pub struct PollingConfig {
    pub interval_ms: u64,
}

/// All settings.
#[derive(Debug, Clone, PartialEq, Eq)]
pub struct Config {
    pub server: ServerConfig,
    pub mqtt: MqttConfig,
    pub polling: PollingConfig,
}

impl Default for Config {
    /// The settings used where no configuration is found: the request
    /// surface on `127.0.0.1:3000`, the broker on `localhost:1883` under the
    /// client id `rust-gateway`, and a tick every 500 ms.
    fn default() -> (config: Self)
        ensures
            config.server.host@ == "127.0.0.1"@,
            config.server.port == 3000,
            config.mqtt.broker@ == "localhost"@,
            config.mqtt.port == 1883,
            config.mqtt.client_id@ == "rust-gateway"@,
            config.polling.interval_ms == 500,
    {
        Config {
            server: ServerConfig { host: String::from_str("127.0.0.1"), port: 3000 },
            mqtt: MqttConfig {
                broker: String::from_str("localhost"),
                port: 1883,
                client_id: String::from_str("rust-gateway"),
            },
            polling: PollingConfig { interval_ms: 500 },
        }
    }
}

impl Config {
    /// The settings read from a file where reading succeeded, the defaults
    /// where it did not.
    pub fn or_default(loaded: Option<Config>) -> (config: Config)
        ensures
            loaded matches Some(c) ==> config == c,
            loaded is None ==> {
                &&& config.server.host@ == "127.0.0.1"@
                &&& config.server.port == 3000
                &&& config.mqtt.broker@ == "localhost"@
                &&& config.mqtt.port == 1883
                &&& config.mqtt.client_id@ == "rust-gateway"@
                &&& config.polling.interval_ms == 500
            },
    {
        match loaded {
            Some(config) => config,
            None => Config::default(),
        }
    }
}

} // verus!
