//! The limits that the heating decision works within.

use vstd::prelude::*;
use crate::state::{ElectricityPrice, Temperature};

verus! {

/// Why a set of limits cannot be used.
#[derive(Debug, PartialEq, Eq, Structural, Clone, Copy)]
pub enum ConfigurationError {
    /// The price at which heating stops is zero, so no price can be scaled
    /// against it.
    ZeroMaximumPrice,
    /// The three temperatures are not in the order minimum, maximum, turbo.
    TemperaturesOutOfOrder,
    /// No address is given from which to fetch the price schedule.
    MissingElectricityPriceApi,
}

/// The set points and the price limit of the heating decision.
#[derive(Copy, Clone, Debug)]
pub struct CoreConfig {
    /// Lowest allowed set point while heating is on.
    pub minimum_temperature: Temperature,
    /// Highest allowed set point under normal conditions.
    pub maximum_temperature: Temperature,
    /// Set point used to recover after the temperature has dropped too far.
    pub turbo_temperature: Temperature,
    /// Electricity price above which heating is turned off.
    pub maximum_price: ElectricityPrice,
}

impl CoreConfig {
    /// The temperatures are ordered minimum, maximum, turbo.
    pub open spec fn temperatures_ordered(&self) -> bool {
        self.minimum_temperature@ <= self.maximum_temperature@ <= self.turbo_temperature@
    }

    /// The limits are usable: the temperatures are ordered and the price limit
    /// is not zero.
    pub open spec fn wf(&self) -> bool {
        &&& self.temperatures_ordered()
        &&& self.maximum_price@ != 0
    }

    /// The error that `validate` reports for these limits, if any. A zero
    /// price limit is reported before misordered temperatures.
    pub open spec fn defect(&self) -> Option<ConfigurationError> {
        if self.maximum_price@ == 0 {
            Some(ConfigurationError::ZeroMaximumPrice)
        } else if !self.temperatures_ordered() {
            Some(ConfigurationError::TemperaturesOutOfOrder)
        } else {
            None
        }
    }

    /// Checks the limits before they are used for any decision.
    pub fn validate(&self) -> (r: Result<(), ConfigurationError>)
        ensures
            r.is_ok() <==> self.wf(),
            r == match self.defect() {
                Some(e) => Err::<(), ConfigurationError>(e),
                None => Ok(()),
            },
    {
        let min = i32::from(self.minimum_temperature);
        let max = i32::from(self.maximum_temperature);
        let turbo = i32::from(self.turbo_temperature);
        if i32::from(self.maximum_price) == 0 {
            Err(ConfigurationError::ZeroMaximumPrice)
        } else if min > max || max > turbo {
            Err(ConfigurationError::TemperaturesOutOfOrder)
        } else {
            Ok(())
        }
    }

    /// Builds the limits, refusing those that `validate` refuses.
    pub fn new(
        minimum_temperature: Temperature,
        maximum_temperature: Temperature,
        turbo_temperature: Temperature,
        maximum_price: ElectricityPrice,
    ) -> (r: Result<CoreConfig, ConfigurationError>)
        ensures
            r == match (CoreConfig {
                minimum_temperature,
                maximum_temperature,
                turbo_temperature,
                maximum_price,
            }).defect() {
                Some(e) => Err::<CoreConfig, ConfigurationError>(e),
                None => Ok(
                    CoreConfig {
                        minimum_temperature,
                        maximum_temperature,
                        turbo_temperature,
                        maximum_price,
                    },
                ),
            },
            r.is_ok() ==> r.unwrap().wf(),
    {
        let config = CoreConfig {
            minimum_temperature,
            maximum_temperature,
            turbo_temperature,
            maximum_price,
        };
        match config.validate() {
            Ok(()) => Ok(config),
            Err(e) => Err(e),
        }
    }
}

} // verus!
