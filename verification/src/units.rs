//! Integer conversions and unit normalisation.

use crate::adapter::Adapter;
use vstd::prelude::*;

verus! {

/// `value` brought into the range from `low` to `high`.
pub open spec fn clamped(value: int, low: int, high: int) -> int {
    if value < low {
        low
    } else if value > high {
        high
    } else {
        value
    }
}

/// `value` brought into the range of an `i32`.
pub open spec fn as_clamped_i32(value: int) -> i32 {
    clamped(value, i32::MIN as int, i32::MAX as int) as i32
}

pub open spec fn magnitude(value: int) -> int {
    if value < 0 {
        -value
    } else {
        value
    }
}

pub fn clamp_i64_to_i32(value: i64) -> (r: i32)
    ensures
        r == as_clamped_i32(value as int),
{
    if value < -0x8000_0000 {
        i32::MIN
    } else if value > 0x7fff_ffff {
        i32::MAX
    } else {
        value as i32
    }
}

pub fn clamp_u64_to_i32(value: u64) -> (r: i32)
    ensures
        r == as_clamped_i32(value as int),
{
    if value > 0x7fff_ffff {
        i32::MAX
    } else {
        value as i32
    }
}

pub fn abs_i32_to_i64(value: i32) -> (r: i64)
    ensures
        r == magnitude(value as int),
{
    if value < 0 {
        -(value as i64)
    } else {
        value as i64
    }
}

/// `value` brought into the range from `low` to `high`.
pub fn clamp_i32(value: i32, low: i32, high: i32) -> (r: i32)
    requires
        low <= high,
    ensures
        r == clamped(value as int, low as int, high as int),
{
    if value < low {
        low
    } else if value > high {
        high
    } else {
        value
    }
}

/// A capacity in mAh, from a reading in mAh or in µAh.
pub open spec fn capacity_mah(value: i32) -> i32 {
    if value <= 0 {
        0
    } else if value > 100_000 {
        (value as int / 1000) as i32
    } else {
        value
    }
}

pub fn normalize_capacity_mah(value: i32) -> (r: i32)
    ensures
        r == capacity_mah(value),
{
    if value <= 0 {
        0
    } else if value > 100_000 {
        value / 1000
    } else {
        value
    }
}

/// A state of charge in percent, from a reading in percent or in hundredths of
/// a percent.
pub open spec fn capacity_percent(value: i32) -> i32 {
    clamped(
        if value > 100 {
            value as int / 100
        } else {
            value as int
        },
        0,
        100,
    ) as i32
}

pub fn normalize_battery_capacity(value: i32) -> (r: i32)
    ensures
        r == capacity_percent(value),
        0 <= r <= 100,
{
    let percent: i32 = if value > 100 {
        value / 100
    } else {
        value
    };
    clamp_i32(percent, 0, 100)
}

/// A power in watts, from a reading in W, in mW or in µW.
pub open spec fn watts_from_reading(power: i32) -> i32 {
    if power > 100_000 {
        (power as int / 1_000_000) as i32
    } else if power > 500 {
        (power as int / 1_000) as i32
    } else {
        power
    }
}

/// What a product of voltage and current is divided by to give watts: a reading
/// over 100 000 is in millionths (µV, µA), and one up to that in thousandths (mV,
/// mA).
pub open spec fn watt_divisor(voltage: i32, current: i32) -> int {
    if voltage > 100_000 && current > 100_000 {
        1_000_000_000_000
    } else if voltage > 100_000 || current > 100_000 {
        1_000_000_000
    } else {
        1_000_000
    }
}

/// The power in watts of a voltage and a current.
pub open spec fn watts(voltage: i32, current: i32) -> i32 {
    if voltage <= 0 || current <= 0 {
        0
    } else {
        as_clamped_i32((voltage as int * current as int) / watt_divisor(voltage, current))
    }
}

impl Adapter {
    pub fn normalize_power_value(power: i32) -> (r: i32)
        ensures
            r == watts_from_reading(power),
    {
        if power > 100_000 {
            power / 1_000_000
        } else if power > 500 {
            power / 1_000
        } else {
            power
        }
    }

    pub fn power_watts(voltage: i32, current: i32) -> (r: i32)
        ensures
            r == watts(voltage, current),
            r >= 0,
    {
        if voltage <= 0 || current <= 0 {
            return 0;
        }
        let v: u64 = voltage as u64;
        let c: u64 = current as u64;
        assert(v * c <= 0x7fff_ffff * 0x7fff_ffff) by (nonlinear_arith)
            requires
                v <= 0x7fff_ffff,
                c <= 0x7fff_ffff,
        ;
        assert(v * c >= 0) by (nonlinear_arith);
        let divisor: u64 = if v > 100_000 && c > 100_000 {
            1_000_000_000_000
        } else if v > 100_000 || c > 100_000 {
            1_000_000_000
        } else {
            1_000_000
        };
        clamp_u64_to_i32(v * c / divisor)
    }
}

// ── laws ──

/// The power does not depend on the units that it is spelled in: a voltage and a
/// current in thousandths give the same watts as in millionths, each where the
/// unit can be told from the size of the reading.
pub proof fn units_do_not_change_the_power(millivolts: i32, milliamperes: i32)
    requires
        100 < millivolts <= 100_000,
        100 < milliamperes <= 100_000,
    ensures
        ({
            let microvolts = (millivolts * 1_000) as i32;
            let microamperes = (milliamperes * 1_000) as i32;
            &&& watts(microvolts, milliamperes) == watts(millivolts, milliamperes)
            &&& watts(millivolts, microamperes) == watts(millivolts, milliamperes)
            &&& watts(microvolts, microamperes) == watts(millivolts, milliamperes)
        }),
{
    let product = millivolts as int * milliamperes as int;
    let (v, c) = (millivolts as int, milliamperes as int);
    assert((v * 1_000) * c == product * 1_000) by (nonlinear_arith)
        requires
            product == v * c,
    ;
    assert(v * (c * 1_000) == product * 1_000) by (nonlinear_arith)
        requires
            product == v * c,
    ;
    assert((v * 1_000) * (c * 1_000) == product * 1_000_000) by (nonlinear_arith)
        requires
            product == v * c,
    ;
    assert(product * 1_000 / 1_000_000_000 == product / 1_000_000);
    assert(product * 1_000_000 / 1_000_000_000_000 == product / 1_000_000);
}

/// A value inside the bounds stays, and any other becomes the bound next to it.
pub proof fn clamping_keeps_what_fits(value: int, low: int, high: int)
    requires
        low <= high,
    ensures
        low <= value <= high ==> clamped(value, low, high) == value,
        value < low ==> clamped(value, low, high) == low,
        value > high ==> clamped(value, low, high) == high,
        i32::MIN <= value <= i32::MAX ==> as_clamped_i32(value) == value,
        value < i32::MIN ==> as_clamped_i32(value) == i32::MIN,
        value > i32::MAX ==> as_clamped_i32(value) == i32::MAX,
        magnitude(value) >= 0,
        magnitude(value) == value || magnitude(value) == -value,
{
}

/// A charge over 100 000 is in µAh and is brought to mAh; another is in mAh and
/// stays; a negative one is none.
pub proof fn charges_are_in_mah(value: i32)
    ensures
        value <= 0 ==> capacity_mah(value) == 0,
        0 < value <= 100_000 ==> capacity_mah(value) == value,
        value > 100_000 ==> capacity_mah(value) * 1_000 <= value < (capacity_mah(value) + 1)
            * 1_000,
{
}

/// A charge over 100 000 and its thousandfold mean the same in their units.
pub proof fn charge_unit_does_not_matter(mah: i32)
    requires
        100 < mah <= 100_000,
    ensures
        capacity_mah((mah * 1_000) as i32) == capacity_mah(mah),
{
}

/// A state of charge in percent stays, one in hundredths is brought to percent
/// and rounded down, and every other is brought into the range.
pub proof fn capacities_are_in_percent(value: i32)
    ensures
        value < 0 ==> capacity_percent(value) == 0,
        0 <= value <= 100 ==> capacity_percent(value) == value,
        100 < value <= 10_000 ==> capacity_percent(value) * 100 <= value < (capacity_percent(value)
            + 1) * 100,
        value > 10_000 ==> capacity_percent(value) == 100,
{
}

/// A power up to 500 is in watts, one up to 100 000 in mW, and one over that in
/// µW; it is rounded down.
pub proof fn powers_are_in_watts(power: i32)
    ensures
        power <= 500 ==> watts_from_reading(power) == power,
        500 < power <= 100_000 ==> watts_from_reading(power) * 1_000 <= power < (watts_from_reading(
            power,
        ) + 1) * 1_000,
        power > 100_000 ==> watts_from_reading(power) * 1_000_000 <= power < (watts_from_reading(
            power,
        ) + 1) * 1_000_000,
{
}

/// The power is voltage times current, in watts and rounded down, whichever of
/// the two stands first; there is none without both.
pub proof fn power_is_voltage_times_current(voltage: i32, current: i32)
    ensures
        voltage <= 0 || current <= 0 ==> watts(voltage, current) == 0,
        watts(voltage, current) == watts(current, voltage),
        ({
            let product = voltage * current;
            let w = watts(voltage, current) as int;
            let unit: int = if voltage > 100_000 && current > 100_000 {
                1_000_000_000_000
            } else if voltage > 100_000 || current > 100_000 {
                1_000_000_000
            } else {
                1_000_000
            };
            voltage > 0 && current > 0 ==> w * unit <= product < (w + 1) * unit
        }),
{
    let product = voltage as int * current as int;
    assert(voltage as int * current as int == current as int * voltage as int)
        by (nonlinear_arith);
    if voltage > 0 && current > 0 {
        assert(0 <= product <= 0x7fff_ffff * 0x7fff_ffff) by (nonlinear_arith)
            requires
                0 < voltage <= 0x7fff_ffff,
                0 < current <= 0x7fff_ffff,
                product == voltage as int * current as int,
        ;
        if voltage <= 100_000 {
            assert(product <= 100_000 * 0x7fff_ffff) by (nonlinear_arith)
                requires
                    0 < voltage <= 100_000,
                    0 < current <= 0x7fff_ffff,
                    product == voltage as int * current as int,
            ;
        }
        if current <= 100_000 {
            assert(product <= 0x7fff_ffff * 100_000) by (nonlinear_arith)
                requires
                    0 < voltage <= 0x7fff_ffff,
                    0 < current <= 100_000,
                    product == voltage as int * current as int,
            ;
        }
        if voltage <= 100_000 && current <= 100_000 {
            assert(product <= 100_000 * 100_000) by (nonlinear_arith)
                requires
                    0 < voltage <= 100_000,
                    0 < current <= 100_000,
                    product == voltage as int * current as int,
            ;
        }
    }
}

} // verus!
