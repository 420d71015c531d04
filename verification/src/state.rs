//! Scalar value types: temperatures, electricity prices and the power state.
//!
//! Both scalars are fixed-point numbers, so that every comparison and every
//! interpolation is exact and repeatable.

use vstd::prelude::*;
use vstd::std_specs::cmp::PartialOrdSpecImpl;
use vstd::std_specs::convert::FromSpecImpl;
use core::cmp::Ordering;

verus! {

/// A temperature in thousandths of a degree Celsius.
#[derive(Debug, PartialEq, Eq, Structural, Clone, Copy)]
pub struct Temperature(pub i32);

impl View for Temperature {
    type V = int;

    /// The temperature in thousandths of a degree Celsius.
    open spec fn view(&self) -> int {
        self.0 as int
    }
}

impl Temperature {
    /// A temperature of `millidegrees` thousandths of a degree Celsius.
    pub fn new(millidegrees: i32) -> (t: Temperature)
        ensures
            t == Temperature(millidegrees),
    {
        Temperature(millidegrees)
    }
}

impl PartialOrd for Temperature {
    fn partial_cmp(&self, other: &Temperature) -> (o: Option<Ordering>) {
        if self.0 < other.0 {
            Some(Ordering::Less)
        } else if self.0 > other.0 {
            Some(Ordering::Greater)
        } else {
            Some(Ordering::Equal)
        }
    }
}

impl PartialOrdSpecImpl for Temperature {
    open spec fn obeys_partial_cmp_spec() -> bool {
        true
    }

    open spec fn partial_cmp_spec(&self, other: &Temperature) -> Option<Ordering> {
        if self@ < other@ {
            Some(Ordering::Less)
        } else if self@ > other@ {
            Some(Ordering::Greater)
        } else {
            Some(Ordering::Equal)
        }
    }
}

impl From<Temperature> for i32 {
    fn from(value: Temperature) -> (millidegrees: i32) {
        value.0
    }
}

impl FromSpecImpl<Temperature> for i32 {
    open spec fn obeys_from_spec() -> bool {
        true
    }

    open spec fn from_spec(value: Temperature) -> i32 {
        value.0
    }
}

/// An electricity price in millionths of a currency unit per kilowatt-hour.
/// Prices may be negative.
#[derive(Debug, PartialEq, Eq, Structural, Clone, Copy)]
pub struct ElectricityPrice(pub i32);

impl View for ElectricityPrice {
    type V = int;

    /// The price in millionths of a currency unit per kilowatt-hour.
    open spec fn view(&self) -> int {
        self.0 as int
    }
}

impl ElectricityPrice {
    /// A price of `micros` millionths of a currency unit per kilowatt-hour.
    pub fn new(micros: i32) -> (p: ElectricityPrice)
        ensures
            p == ElectricityPrice(micros),
    {
        ElectricityPrice(micros)
    }
}

impl PartialOrd for ElectricityPrice {
    fn partial_cmp(&self, other: &ElectricityPrice) -> (o: Option<Ordering>) {
        if self.0 < other.0 {
            Some(Ordering::Less)
        } else if self.0 > other.0 {
            Some(Ordering::Greater)
        } else {
            Some(Ordering::Equal)
        }
    }
}

impl PartialOrdSpecImpl for ElectricityPrice {
    open spec fn obeys_partial_cmp_spec() -> bool {
        true
    }

    open spec fn partial_cmp_spec(&self, other: &ElectricityPrice) -> Option<Ordering> {
        if self@ < other@ {
            Some(Ordering::Less)
        } else if self@ > other@ {
            Some(Ordering::Greater)
        } else {
            Some(Ordering::Equal)
        }
    }
}

impl From<ElectricityPrice> for i32 {
    fn from(value: ElectricityPrice) -> (micros: i32) {
        value.0
    }
}

impl FromSpecImpl<ElectricityPrice> for i32 {
    open spec fn obeys_from_spec() -> bool {
        true
    }

    open spec fn from_spec(value: ElectricityPrice) -> i32 {
        value.0
    }
}

/// Whether the heater is powered.
#[derive(Debug, PartialEq, Eq, Structural, Clone, Copy)]
pub enum PowerState {
    On,
    Off,
}

} // verus!
