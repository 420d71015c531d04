//! Decides when a heater should run from the measured temperature and the
//! hourly electricity price, and keeps the two-day price schedule current.

pub mod adc;
pub mod config;
pub mod control;
pub mod electricity_price;
pub mod heating;
pub mod http;
pub mod measurement;
pub mod settings;
pub mod state;
pub mod status;

pub use config::{ConfigurationError, CoreConfig};
pub use control::{select_temperature, State};
pub use state::{ElectricityPrice, PowerState, Temperature};
