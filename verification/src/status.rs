//! What the status indicator shows.

use vstd::prelude::*;
use vstd::std_specs::convert::FromSpecImpl;
use crate::heating::HeatingPower;
use rgb::{Rgb, RGB8};

verus! {

/// The pixel type `Rgb` of the `rgb` crate: three public channels `r`, `g`
/// and `b` of one component type, and nothing else.
#[verifier::external_type_specification]
#[verifier::reject_recursive_types(T)]
pub struct ExRgb<T>(Rgb<T>);

/// `Rgb::new` builds the pixel whose red, green and blue channels are its
/// three arguments, in that order.
pub assume_specification<T: Copy>[ Rgb::<T>::new ](r: T, g: T, b: T) -> (pixel: Rgb<T>)
    ensures
        pixel.r == r,
        pixel.g == g,
        pixel.b == b,
;

/// The conditions that the status indicator distinguishes.
#[derive(Debug, PartialEq, Eq, Structural, Clone, Copy)]
pub enum StatusEvent {
    Initializing,
    MissingData,
    Ready,
    Measuring,
    HeatingOn,
}

impl StatusEvent {
    /// The red, green and blue levels shown for a status.
    pub open spec fn levels(self) -> (u8, u8, u8) {
        match self {
            StatusEvent::Initializing => (10, 10, 0),
            StatusEvent::MissingData => (10, 0, 10),
            StatusEvent::Ready => (0, 10, 0),
            StatusEvent::Measuring => (0, 0, 10),
            StatusEvent::HeatingOn => (10, 0, 0),
        }
    }

    /// The status shown for a heating command that was carried out.
    pub open spec fn shown_for(power: HeatingPower) -> StatusEvent {
        match power {
            HeatingPower::TurnOn => StatusEvent::HeatingOn,
            HeatingPower::TurnOff => StatusEvent::Ready,
        }
    }

    /// The status to show once the heating has been switched: a complaint of
    /// the price cache comes before the state of the heating.
    pub fn after_switching(cache: Option<StatusEvent>, power: HeatingPower) -> (status:
        StatusEvent)
        ensures
            status == match cache {
                Some(complaint) => complaint,
                None => StatusEvent::shown_for(power),
            },
    {
        match cache {
            Some(complaint) => complaint,
            None => StatusEvent::from(power),
        }
    }
}

impl From<StatusEvent> for RGB8 {
    fn from(status: StatusEvent) -> (colour: RGB8) {
        match status {
            StatusEvent::Initializing => RGB8::new(10, 10, 0),
            StatusEvent::MissingData => RGB8::new(10, 0, 10),
            StatusEvent::Ready => RGB8::new(0, 10, 0),
            StatusEvent::Measuring => RGB8::new(0, 0, 10),
            StatusEvent::HeatingOn => RGB8::new(10, 0, 0),
        }
    }
}

impl FromSpecImpl<StatusEvent> for RGB8 {
    open spec fn obeys_from_spec() -> bool {
        true
    }

    open spec fn from_spec(status: StatusEvent) -> RGB8 {
        Rgb { r: status.levels().0, g: status.levels().1, b: status.levels().2 }
    }
}

impl From<HeatingPower> for StatusEvent {
    fn from(power: HeatingPower) -> (status: StatusEvent) {
        match power {
            HeatingPower::TurnOn => StatusEvent::HeatingOn,
            HeatingPower::TurnOff => StatusEvent::Ready,
        }
    }
}

impl FromSpecImpl<HeatingPower> for StatusEvent {
    open spec fn obeys_from_spec() -> bool {
        true
    }

    open spec fn from_spec(power: HeatingPower) -> StatusEvent {
        StatusEvent::shown_for(power)
    }
}

} // verus!
