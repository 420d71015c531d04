//! Temperature measurements and what follows from one.

use vstd::prelude::*;
use crate::adc::{AdcConfig, AnalogInput, Gain, Mode};
use crate::config::CoreConfig;
use crate::control::desired_state;
use crate::heating::{get_next_desired_state, HeatingEvent};
use crate::state::{ElectricityPrice, Temperature};

verus! {

/// A reading of the room's temperature.
#[derive(Copy, Clone, Debug)]
pub enum MeasurementEvent {
    Measurement(Temperature),
}

impl MeasurementEvent {
    /// The converter settings for the reference voltage: one conversion of
    /// input 0 against ground.
    pub fn reference_adc_config() -> (config: AdcConfig)
        ensures
            config == (AdcConfig {
                input: AnalogInput::SingleEndedAni0,
                gain: Gain::Full,
                mode: Mode::SingleShot,
                ..AdcConfig::default_spec()
            }),
    {
        AdcConfig {
            input: AnalogInput::SingleEndedAni0,
            gain: Gain::Full,
            mode: Mode::SingleShot,
            ..AdcConfig::default()
        }
    }

    /// The converter settings for the thermistor's voltage: as for the
    /// reference, on input 1.
    pub fn thermistor_adc_config() -> (config: AdcConfig)
        ensures
            config == (AdcConfig {
                input: AnalogInput::SingleEndedAni1,
                gain: Gain::Full,
                mode: Mode::SingleShot,
                ..AdcConfig::default_spec()
            }),
    {
        AdcConfig {
            input: AnalogInput::SingleEndedAni1,
            ..MeasurementEvent::reference_adc_config()
        }
    }

    /// The temperature that was measured.
    pub fn value(self) -> (temperature: Temperature)
        ensures
            self == MeasurementEvent::Measurement(temperature),
    {
        match self {
            MeasurementEvent::Measurement(value) => value,
        }
    }

    /// The heating command that answers this measurement at the given price.
    pub fn handle(self, set_points: &CoreConfig, price: ElectricityPrice) -> (event: Option<
        HeatingEvent,
    >)
        requires
            set_points.maximum_price@ != 0,
        ensures
            event == Some(
                HeatingEvent::command_for(desired_state(*set_points, self->0, price)),
            ),
    {
        Some(get_next_desired_state(set_points, self.value(), price))
    }
}

} // verus!
