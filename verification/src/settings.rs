//! The configuration of the whole application, checked once at start.

use vstd::prelude::*;
use vstd::std_specs::convert::FromSpecImpl;
use crate::config::{ConfigurationError, CoreConfig};
use crate::state::{ElectricityPrice, Temperature};

verus! {

/// The set point used to recover from a low temperature, in millidegrees.
pub const TURBO_MILLIDEGREES: i32 = 30000;

/// The configuration as it is written down, before any check.
#[derive(Copy, Clone, Debug)]
pub struct TomlConfig {
    pub wifi_ssid: &'static str,
    pub wifi_psk: &'static str,
    /// Seconds between two measurements.
    pub measurement_interval: u64,
    /// Millidegrees Celsius.
    pub set_point_minimum_temperature: i32,
    /// Millidegrees Celsius.
    pub set_point_maximum_temperature: i32,
    /// Millionths of a currency unit per kilowatt-hour.
    pub set_point_maximum_price: i32,
    pub electricity_price_api: &'static str,
    pub metrics_url: &'static str,
    pub ntp_server: &'static str,
}

/// How to join the wireless network.
#[derive(Copy, Clone, Debug)]
pub struct WifiConfig {
    pub ssid: &'static str,
    pub password: &'static str,
}

/// The servers that the application talks to.
#[derive(Copy, Clone, Debug)]
pub struct ServerConfig {
    pub electricity_price_api: &'static str,
    pub metrics_url: &'static str,
    pub ntp_server: &'static str,
}

/// The checked configuration.
#[derive(Copy, Clone, Debug)]
pub struct Config {
    /// Seconds between two measurements.
    pub measurement_interval: u64,
    pub set_points: CoreConfig,
    pub wifi: WifiConfig,
    pub server: ServerConfig,
}

impl WifiConfig {
    /// Whether the network is joined without a password: none is configured.
    pub fn is_open(&self) -> (open: bool)
        ensures
            open == (self.password@.len() == 0),
    {
        self.password.is_empty()
    }
}

impl Default for WifiConfig {
    fn default() -> (c: WifiConfig)
        ensures
            c.ssid@.len() == 0,
            c.password@.len() == 0,
    {
        proof {
            reveal_strlit("");
        }
        WifiConfig { ssid: "", password: "" }
    }
}

impl Default for ServerConfig {
    fn default() -> (c: ServerConfig)
        ensures
            c.electricity_price_api@.len() == 0,
            c.metrics_url@.len() == 0,
            c.ntp_server@.len() == 0,
    {
        proof {
            reveal_strlit("");
        }
        ServerConfig { electricity_price_api: "", metrics_url: "", ntp_server: "" }
    }
}

impl TomlConfig {
    /// The wireless settings written in the configuration.
    pub open spec fn wifi(&self) -> WifiConfig {
        WifiConfig { ssid: self.wifi_ssid, password: self.wifi_psk }
    }

    /// The servers written in the configuration.
    pub open spec fn server(&self) -> ServerConfig {
        ServerConfig {
            electricity_price_api: self.electricity_price_api,
            metrics_url: self.metrics_url,
            ntp_server: self.ntp_server,
        }
    }

    /// The limits written in the configuration; the turbo temperature is
    /// fixed.
    pub open spec fn set_points(&self) -> CoreConfig {
        CoreConfig {
            minimum_temperature: Temperature(self.set_point_minimum_temperature),
            maximum_temperature: Temperature(self.set_point_maximum_temperature),
            turbo_temperature: Temperature(TURBO_MILLIDEGREES),
            maximum_price: ElectricityPrice(self.set_point_maximum_price),
        }
    }

    /// The whole configuration as written, unchecked.
    pub open spec fn config(&self) -> Config {
        Config {
            measurement_interval: self.measurement_interval,
            set_points: self.set_points(),
            wifi: self.wifi(),
            server: self.server(),
        }
    }

    /// The first fault of the configuration as written, if it has one: no
    /// address for the price schedule, then unusable limits.
    pub open spec fn defect(&self) -> Option<ConfigurationError> {
        if self.electricity_price_api@.len() == 0 {
            Some(ConfigurationError::MissingElectricityPriceApi)
        } else {
            self.set_points().defect()
        }
    }
}

impl<'a> From<&'a TomlConfig> for WifiConfig {
    fn from(config: &'a TomlConfig) -> (wifi: WifiConfig) {
        WifiConfig { ssid: config.wifi_ssid, password: config.wifi_psk }
    }
}

impl<'a> FromSpecImpl<&'a TomlConfig> for WifiConfig {
    open spec fn obeys_from_spec() -> bool {
        true
    }

    open spec fn from_spec(config: &'a TomlConfig) -> WifiConfig {
        config.wifi()
    }
}

impl<'a> From<&'a TomlConfig> for ServerConfig {
    fn from(config: &'a TomlConfig) -> (server: ServerConfig) {
        ServerConfig {
            electricity_price_api: config.electricity_price_api,
            metrics_url: config.metrics_url,
            ntp_server: config.ntp_server,
        }
    }
}

impl<'a> FromSpecImpl<&'a TomlConfig> for ServerConfig {
    open spec fn obeys_from_spec() -> bool {
        true
    }

    open spec fn from_spec(config: &'a TomlConfig) -> ServerConfig {
        config.server()
    }
}

impl<'a> From<&'a TomlConfig> for Config {
    fn from(config: &'a TomlConfig) -> (checked: Config) {
        Config {
            measurement_interval: config.measurement_interval,
            set_points: CoreConfig {
                minimum_temperature: Temperature::new(config.set_point_minimum_temperature),
                maximum_temperature: Temperature::new(config.set_point_maximum_temperature),
                turbo_temperature: Temperature::new(TURBO_MILLIDEGREES),
                maximum_price: ElectricityPrice::new(config.set_point_maximum_price),
            },
            wifi: WifiConfig::from(config),
            server: ServerConfig::from(config),
        }
    }
}

impl<'a> FromSpecImpl<&'a TomlConfig> for Config {
    open spec fn obeys_from_spec() -> bool {
        true
    }

    open spec fn from_spec(config: &'a TomlConfig) -> Config {
        config.config()
    }
}

impl Config {
    /// Reads the configuration as written and checks it: the address of the
    /// price schedule must not be empty, and the limits must be usable.
    pub fn read(toml: &TomlConfig) -> (r: Result<Config, ConfigurationError>)
        ensures
            r == match toml.defect() {
                Some(e) => Err::<Config, ConfigurationError>(e),
                None => Ok(toml.config()),
            },
            r.is_ok() ==> r.unwrap().set_points.wf(),
    {
        let config = Config::from(toml);
        if config.server.electricity_price_api.is_empty() {
            return Err(ConfigurationError::MissingElectricityPriceApi);
        }
        match config.set_points.validate() {
            Ok(()) => Ok(config),
            Err(e) => Err(e),
        }
    }
}

impl Default for Config {
    fn default() -> (c: Config)
        ensures
            c.measurement_interval == 1,
            c.set_points == (CoreConfig {
                minimum_temperature: Temperature(15000),
                maximum_temperature: Temperature(22000),
                turbo_temperature: Temperature(TURBO_MILLIDEGREES),
                maximum_price: ElectricityPrice(300000),
            }),
            c.set_points.wf(),
            c.wifi.ssid@.len() == 0,
            c.wifi.password@.len() == 0,
            c.server.electricity_price_api@.len() == 0,
            c.server.metrics_url@.len() == 0,
            c.server.ntp_server@.len() == 0,
    {
        Config {
            measurement_interval: 1,
            set_points: CoreConfig {
                minimum_temperature: Temperature::new(15000),
                maximum_temperature: Temperature::new(22000),
                turbo_temperature: Temperature::new(TURBO_MILLIDEGREES),
                maximum_price: ElectricityPrice::new(300000),
            },
            wifi: WifiConfig::default(),
            server: ServerConfig::default(),
        }
    }
}

} // verus!
