//! Commands to the heating output.

use vstd::prelude::*;
use vstd::std_specs::convert::FromSpecImpl;
use crate::config::CoreConfig;
use crate::control::{desired_state, State};
use crate::state::{ElectricityPrice, PowerState, Temperature};

verus! {

/// What the heating output is asked to do.
#[derive(Debug, PartialEq, Eq, Structural, Clone, Copy)]
pub enum HeatingPower {
    TurnOn,
    TurnOff,
}

/// A command to the heating output, with the target temperature it serves.
#[derive(Debug, PartialEq, Eq, Structural, Clone, Copy)]
pub struct HeatingEvent {
    pub power: HeatingPower,
    pub temperature: Temperature,
}

/// What has to be done to the output pin to carry out a command.
#[derive(Debug, PartialEq, Eq, Structural, Clone, Copy)]
pub enum OutputChange {
    /// Drive the pin high.
    SetHigh,
    /// Drive the pin low.
    SetLow,
    /// The pin is already at the level that the command asks for.
    Unchanged,
}

impl HeatingPower {
    /// The command that brings the heater into the given power state.
    pub open spec fn command_for(power: PowerState) -> HeatingPower {
        match power {
            PowerState::On => HeatingPower::TurnOn,
            PowerState::Off => HeatingPower::TurnOff,
        }
    }
}

impl From<PowerState> for HeatingPower {
    fn from(power: PowerState) -> (command: HeatingPower) {
        match power {
            PowerState::On => HeatingPower::TurnOn,
            PowerState::Off => HeatingPower::TurnOff,
        }
    }
}

impl FromSpecImpl<PowerState> for HeatingPower {
    open spec fn obeys_from_spec() -> bool {
        true
    }

    open spec fn from_spec(power: PowerState) -> HeatingPower {
        HeatingPower::command_for(power)
    }
}

impl From<State> for HeatingEvent {
    fn from(state: State) -> (event: HeatingEvent) {
        HeatingEvent { power: HeatingPower::from(state.power), temperature: state.temperature }
    }
}

impl FromSpecImpl<State> for HeatingEvent {
    open spec fn obeys_from_spec() -> bool {
        true
    }

    open spec fn from_spec(state: State) -> HeatingEvent {
        HeatingEvent::command_for(state)
    }
}

impl HeatingEvent {
    /// The command that carries out a set point.
    pub open spec fn command_for(state: State) -> HeatingEvent {
        HeatingEvent {
            power: HeatingPower::command_for(state.power),
            temperature: state.temperature,
        }
    }

    /// The change to the output pin that this command needs, given the pin's
    /// level now.
    pub open spec fn output_change(self, is_set_high: bool) -> OutputChange {
        match (self.power, is_set_high) {
            (HeatingPower::TurnOn, false) => OutputChange::SetHigh,
            (HeatingPower::TurnOff, true) => OutputChange::SetLow,
            _ => OutputChange::Unchanged,
        }
    }

    /// Decides how to switch the heating output, whose pin is high exactly
    /// when `is_set_high`, and reports the power that was asked for. The pin
    /// is touched only when its level differs from the command.
    pub fn switch_heating(self, is_set_high: bool) -> (r: (OutputChange, HeatingPower))
        ensures
            r.0 == self.output_change(is_set_high),
            r.1 == self.power,
    {
        match (self.power, is_set_high) {
            (HeatingPower::TurnOn, false) => (OutputChange::SetHigh, self.power),
            (HeatingPower::TurnOff, true) => (OutputChange::SetLow, self.power),
            _ => (OutputChange::Unchanged, self.power),
        }
    }
}

/// The command that follows from a measurement and the current price.
pub fn get_next_desired_state(
    config: &CoreConfig,
    temperature: Temperature,
    price: ElectricityPrice,
) -> (event: HeatingEvent)
    requires
        config.maximum_price@ != 0,
    ensures
        event == HeatingEvent::command_for(desired_state(*config, temperature, price)),
{
    let next_state = State::from_current_state(config, temperature, price);
    HeatingEvent::from(next_state)
}

} // verus!
