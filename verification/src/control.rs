//! The heating decision: which set point follows from the measured
//! temperature, the current electricity price and the configured limits.

use vstd::prelude::*;
use vstd::arithmetic::div_mod::{
    lemma_div_is_ordered,
    lemma_div_multiples_vanish,
    lemma_fundamental_div_mod,
    lemma_fundamental_div_mod_converse,
};
use vstd::arithmetic::mul::lemma_mul_inequality;
use crate::config::CoreConfig;
use crate::state::{ElectricityPrice, PowerState, Temperature};

verus! {

/// The quotient of `n` by `d`, rounded toward negative infinity.
pub open spec fn floor_div(n: int, d: int) -> int
    recommends
        d != 0,
{
    if d > 0 {
        n / d
    } else {
        (-n) / (-d)
    }
}

/// `v` held to the range of millidegrees that a `Temperature` can store.
pub open spec fn saturate(v: int) -> int {
    if v < i32::MIN {
        i32::MIN as int
    } else if v > i32::MAX {
        i32::MAX as int
    } else {
        v
    }
}

/// The set point, in millidegrees, on the straight line from the maximum
/// temperature at price zero to the minimum temperature at the maximum price.
/// The line is followed beyond both ends; the fraction of a millidegree is
/// rounded toward negative infinity.
pub open spec fn interpolated_millidegrees(config: CoreConfig, price: ElectricityPrice) -> int
    recommends
        config.maximum_price@ != 0,
{
    config.minimum_temperature@ + floor_div(
        (config.maximum_temperature@ - config.minimum_temperature@) * (config.maximum_price@
            - price@),
        config.maximum_price@,
    )
}

/// The set point that `select_temperature` returns, in millidegrees: the
/// interpolated value, held to what a `Temperature` can store.
pub open spec fn selected_millidegrees(config: CoreConfig, price: ElectricityPrice) -> int
    recommends
        config.maximum_price@ != 0,
{
    saturate(interpolated_millidegrees(config, price))
}

/// The set point that `select_temperature` returns.
pub open spec fn selected_temperature(config: CoreConfig, price: ElectricityPrice) -> Temperature
    recommends
        config.maximum_price@ != 0,
{
    Temperature(selected_millidegrees(config, price) as i32)
}

/// The set point that `State::from_current_state` returns: the first of the
/// four rules that applies decides.
pub open spec fn desired_state(
    config: CoreConfig,
    current_temperature: Temperature,
    current_price: ElectricityPrice,
) -> State
    recommends
        config.maximum_price@ != 0,
{
    if current_temperature@ > config.turbo_temperature@ {
        State { power: PowerState::Off, temperature: config.minimum_temperature }
    } else if current_temperature@ < config.minimum_temperature@ {
        State { power: PowerState::On, temperature: config.turbo_temperature }
    } else if current_price@ > config.maximum_price@ {
        State { power: PowerState::Off, temperature: config.minimum_temperature }
    } else {
        State { power: PowerState::On, temperature: selected_temperature(config, current_price) }
    }
}

/// Divides, rounding toward negative infinity.
fn floor_quotient(n: i128, d: i128) -> (q: i128)
    requires
        d != 0,
        -0x1_0000_0000_0000_0000 <= n <= 0x1_0000_0000_0000_0000,
        -0x1_0000_0000 <= d <= 0x1_0000_0000,
    ensures
        q == floor_div(n as int, d as int),
{
    let (n, d): (i128, i128) = if d < 0 {
        (-n, -d)
    } else {
        (n, d)
    };
    if n >= 0 {
        n / d
    } else {
        let m: i128 = -n;
        let q: i128 = m / d;
        let r: i128 = m % d;
        proof {
            lemma_fundamental_div_mod(m as int, d as int);
        }
        if r == 0 {
            proof {
                assert(n == (-q) * d + 0) by (nonlinear_arith)
                    requires
                        m == d * q + r,
                        r == 0,
                        n == -m,
                ;
                lemma_fundamental_div_mod_converse(n as int, d as int, -q as int, 0);
            }
            -q
        } else {
            proof {
                assert(n == (-q - 1) * d + (d - r)) by (nonlinear_arith)
                    requires
                        m == d * q + r,
                        n == -m,
                ;
                lemma_fundamental_div_mod_converse(
                    n as int,
                    d as int,
                    (-q - 1) as int,
                    (d - r) as int,
                );
            }
            -q - 1
        }
    }
}

/// Chooses the set point for the current price: the maximum temperature when
/// electricity is free, falling in a straight line to the minimum temperature
/// at the maximum price. The line is not cut off at either end, so a price
/// above the maximum or below zero gives a set point outside the configured
/// range; only the limits of `Temperature` itself bound the result.
pub fn select_temperature(config: &CoreConfig, current_price: ElectricityPrice) -> (t:
    Temperature)
    requires
        config.maximum_price@ != 0,
    ensures
        t == selected_temperature(*config, current_price),
        t@ == selected_millidegrees(*config, current_price),
{
    let max_price: i128 = i32::from(config.maximum_price) as i128;
    let price_difference: i128 = max_price - i32::from(current_price) as i128;
    let minimum: i128 = i32::from(config.minimum_temperature) as i128;
    let temperature_range: i128 = i32::from(config.maximum_temperature) as i128 - minimum;
    assert(-0x1_0000_0000_0000_0000 <= temperature_range * price_difference
        <= 0x1_0000_0000_0000_0000) by (nonlinear_arith)
        requires
            -0x1_0000_0000 <= temperature_range <= 0x1_0000_0000,
            -0x1_0000_0000 <= price_difference <= 0x1_0000_0000,
    ;
    let temperature_delta: i128 = floor_quotient(temperature_range * price_difference, max_price);
    assert(-0x1_0000_0000_0000_0000 <= temperature_delta <= 0x1_0000_0000_0000_0000) by {
        lemma_floor_div_bounded(
            temperature_range * price_difference,
            max_price as int,
            0x1_0000_0000_0000_0000,
        );
    }
    let set_temperature: i128 = minimum + temperature_delta;
    if set_temperature < i32::MIN as i128 {
        Temperature::new(i32::MIN)
    } else if set_temperature > i32::MAX as i128 {
        Temperature::new(i32::MAX)
    } else {
        Temperature::new(set_temperature as i32)
    }
}

/// A floor quotient is no further from zero than its numerator's bound.
proof fn lemma_floor_div_bounded(n: int, d: int, bound: int)
    requires
        d != 0,
        0 <= bound,
        -bound <= n <= bound,
    ensures
        -bound <= floor_div(n, d) <= bound,
{
    let (n1, d1) = if d > 0 {
        (n, d)
    } else {
        (-n, -d)
    };
    assert(floor_div(n, d) == n1 / d1);
    lemma_div_is_ordered(n1, bound, d1);
    lemma_div_is_ordered(-bound, n1, d1);
    assert(bound / d1 <= bound) by (nonlinear_arith)
        requires
            d1 >= 1,
            bound >= 0,
    ;
    assert((-bound) / d1 >= -bound) by (nonlinear_arith)
        requires
            d1 >= 1,
            bound >= 0,
    ;
}

/// The commanded power state and target temperature.
#[derive(Debug, PartialEq, Eq, Structural, Clone, Copy)]
pub struct State {
    pub power: PowerState,
    pub temperature: Temperature,
}

impl State {
    /// Decides the set point. Four rules are tried in order, and the first
    /// that applies wins:
    /// hotter than the turbo temperature, heating is off;
    /// colder than the minimum temperature, heating is on at the turbo
    /// temperature, whatever the price;
    /// electricity dearer than the maximum price, heating is off;
    /// otherwise heating is on at the temperature selected for the price.
    pub fn from_current_state(
        config: &CoreConfig,
        current_temperature: Temperature,
        current_price: ElectricityPrice,
    ) -> (s: State)
        requires
            config.maximum_price@ != 0,
        ensures
            s == desired_state(*config, current_temperature, current_price),
            current_temperature@ > config.turbo_temperature@ ==> s == (State {
                power: PowerState::Off,
                temperature: config.minimum_temperature,
            }),
            config.minimum_temperature@ <= config.turbo_temperature@ && current_temperature@
                < config.minimum_temperature@ ==> s == (State {
                power: PowerState::On,
                temperature: config.turbo_temperature,
            }),
            config.minimum_temperature@ <= current_temperature@ <= config.turbo_temperature@
                && current_price@ > config.maximum_price@ ==> s == (State {
                power: PowerState::Off,
                temperature: config.minimum_temperature,
            }),
    {
        if current_temperature > config.turbo_temperature {
            return State { power: PowerState::Off, temperature: config.minimum_temperature };
        }
        if current_temperature < config.minimum_temperature {
            return State { power: PowerState::On, temperature: config.turbo_temperature };
        }
        if current_price > config.maximum_price {
            return State { power: PowerState::Off, temperature: config.minimum_temperature };
        }
        let set_temperature = select_temperature(config, current_price);
        State { power: PowerState::On, temperature: set_temperature }
    }
}

/// With a positive maximum price and the minimum temperature no higher than
/// the maximum temperature, a dearer price never selects a higher temperature.
pub proof fn lemma_select_temperature_monotonic(
    config: CoreConfig,
    cheaper: ElectricityPrice,
    dearer: ElectricityPrice,
)
    requires
        config.minimum_temperature@ <= config.maximum_temperature@,
        config.maximum_price@ > 0,
        cheaper@ <= dearer@,
    ensures
        selected_millidegrees(config, cheaper) >= selected_millidegrees(config, dearer),
        selected_temperature(config, cheaper)@ >= selected_temperature(config, dearer)@,
{
    let range = config.maximum_temperature@ - config.minimum_temperature@;
    let limit = config.maximum_price@;
    lemma_mul_inequality(limit - dearer@, limit - cheaper@, range);
    assert(range * (limit - dearer@) <= range * (limit - cheaper@)) by (nonlinear_arith)
        requires
            (limit - dearer@) * range <= (limit - cheaper@) * range,
    ;
    lemma_div_is_ordered(range * (limit - dearer@), range * (limit - cheaper@), limit);
}

/// Free electricity selects the maximum temperature.
pub proof fn lemma_select_temperature_at_zero_price(config: CoreConfig)
    requires
        config.maximum_price@ != 0,
    ensures
        selected_temperature(config, ElectricityPrice(0)) == config.maximum_temperature,
{
    let range = config.maximum_temperature@ - config.minimum_temperature@;
    let limit = config.maximum_price@;
    if limit > 0 {
        lemma_div_multiples_vanish(range, limit);
        assert(range * limit == limit * range) by (nonlinear_arith);
    } else {
        lemma_div_multiples_vanish(range, -limit);
        assert(-(range * limit) == (-limit) * range) by (nonlinear_arith);
    }
}

/// Electricity at the maximum price selects the minimum temperature.
pub proof fn lemma_select_temperature_at_maximum_price(config: CoreConfig)
    requires
        config.maximum_price@ != 0,
    ensures
        selected_temperature(config, config.maximum_price) == config.minimum_temperature,
{
    let range = config.maximum_temperature@ - config.minimum_temperature@;
    assert(range * (config.maximum_price@ - config.maximum_price@) == 0) by (nonlinear_arith);
}

/// With the minimum temperature no higher than the maximum temperature, a
/// price from zero to the maximum price selects a temperature from the
/// minimum to the maximum: there the result is the interpolated value itself.
pub proof fn lemma_select_temperature_in_range(config: CoreConfig, price: ElectricityPrice)
    requires
        config.minimum_temperature@ <= config.maximum_temperature@,
        config.maximum_price@ != 0,
        0 <= price@ <= config.maximum_price@,
    ensures
        config.minimum_temperature@ <= selected_millidegrees(config, price)
            <= config.maximum_temperature@,
        selected_millidegrees(config, price) == interpolated_millidegrees(config, price),
{
    let range = config.maximum_temperature@ - config.minimum_temperature@;
    let limit = config.maximum_price@;
    let scaled = range * (limit - price@);
    assert(0 <= scaled <= range * limit) by (nonlinear_arith)
        requires
            0 <= range,
            0 <= price@ <= limit,
            scaled == range * (limit - price@),
    ;
    lemma_div_is_ordered(0, scaled, limit);
    lemma_div_is_ordered(scaled, range * limit, limit);
    lemma_div_multiples_vanish(range, limit);
    assert(range * limit == limit * range) by (nonlinear_arith);
}

/// Between the minimum and the turbo temperature, with electricity at a
/// price from zero to the maximum price, heating is on at a set point from
/// the minimum to the maximum temperature.
pub proof fn lemma_desired_state_in_range(
    config: CoreConfig,
    current_temperature: Temperature,
    current_price: ElectricityPrice,
)
    requires
        config.wf(),
        config.minimum_temperature@ <= current_temperature@ <= config.turbo_temperature@,
        0 <= current_price@ <= config.maximum_price@,
    ensures
        desired_state(config, current_temperature, current_price).power == PowerState::On,
        config.minimum_temperature@ <= desired_state(
            config,
            current_temperature,
            current_price,
        ).temperature@ <= config.maximum_temperature@,
{
    lemma_select_temperature_in_range(config, current_price);
}

} // verus!
