//! Output-voltage arithmetic: from a speed multiplier to the six-bit voltage
//! code of the Control register.
//!
//! Voltages are whole microvolts and speed multipliers are whole thousandths
//! of full scale, so every step is exact integer arithmetic. One scaling is
//! used throughout: a multiplier of zero asks for `MIN_VOLTAGE`, full scale
//! asks for `MAX_VOLTAGE`, and the voltage code counts steps of
//! `VOLTAGE_STEP`, rounding down.

use vstd::prelude::*;

verus! {

/// Lowest output voltage the chip is asked for, in microvolts (0.8 V).
pub const MIN_VOLTAGE: u32 = 800_000;

/// Highest output voltage the chip is asked for, in microvolts (5.06 V).
pub const MAX_VOLTAGE: u32 = 5_060_000;

/// Output-voltage change per step of the voltage code, in microvolts: four
/// times the chip's internal reference voltage over sixty-four, taken as
/// 80.3 mV.
pub const VOLTAGE_STEP: u32 = 80_300;

/// The speed multiplier that stands for full scale (1.0).
pub const FULL_SPEED: i32 = 1000;

/// `value` limited to the range `low ..= high`.
pub open spec fn clamp(value: int, low: int, high: int) -> int {
    if value < low {
        low
    } else if value > high {
        high
    } else {
        value
    }
}

/// The voltage, in microvolts, that a speed multiplier asks for: the
/// multiplier is limited to `0 ..= FULL_SPEED` and then scales linearly
/// from `MIN_VOLTAGE` to `MAX_VOLTAGE`.
pub open spec fn spec_target_voltage(speed_mult: int) -> int {
    let fraction = clamp(speed_mult, 0, FULL_SPEED as int);
    MIN_VOLTAGE + (MAX_VOLTAGE - MIN_VOLTAGE) * fraction / (FULL_SPEED as int)
}

/// The voltage code for a requested voltage in microvolts: the voltage is
/// limited to `MIN_VOLTAGE ..= MAX_VOLTAGE` and divided by `VOLTAGE_STEP`,
/// rounding down.
pub open spec fn spec_voltage_code(microvolts: int) -> int {
    clamp(microvolts, MIN_VOLTAGE as int, MAX_VOLTAGE as int) / (VOLTAGE_STEP as int)
}

/// Computes the voltage that a speed multiplier asks for, in microvolts.
/// A multiplier outside `0 ..= FULL_SPEED` is limited to that range, never
/// refused.
pub fn target_voltage(speed_mult: i32) -> (microvolts: u32)
    ensures
        microvolts == spec_target_voltage(speed_mult as int),
        MIN_VOLTAGE <= microvolts <= MAX_VOLTAGE,
{
    let fraction: u32 = if speed_mult < 0 {
        0
    } else if speed_mult > FULL_SPEED {
        FULL_SPEED as u32
    } else {
        speed_mult as u32
    };
    let per_unit: u32 = (MAX_VOLTAGE - MIN_VOLTAGE) / (FULL_SPEED as u32);
    assert(per_unit == 4260);
    MIN_VOLTAGE + per_unit * fraction
}

/// Computes the voltage code for a requested voltage in microvolts. A
/// voltage outside `MIN_VOLTAGE ..= MAX_VOLTAGE` is limited to that range,
/// never refused, so the code always fits in six bits.
pub fn voltage_code(microvolts: u32) -> (code: u8)
    ensures
        code == spec_voltage_code(microvolts as int),
        code < 64,
{
    let limited: u32 = if microvolts < MIN_VOLTAGE {
        MIN_VOLTAGE
    } else if microvolts > MAX_VOLTAGE {
        MAX_VOLTAGE
    } else {
        microvolts
    };
    (limited / VOLTAGE_STEP) as u8
}

/// A speed multiplier at or below zero asks for the same voltage as zero,
/// and one at or above full scale asks for the same voltage as full scale.
pub proof fn lemma_target_voltage_saturates(speed_mult: int)
    ensures
        speed_mult <= 0 ==> spec_target_voltage(speed_mult) == spec_target_voltage(0),
        speed_mult >= FULL_SPEED ==> spec_target_voltage(speed_mult) == spec_target_voltage(
            FULL_SPEED as int,
        ),
        spec_target_voltage(0) == MIN_VOLTAGE,
        spec_target_voltage(FULL_SPEED as int) == MAX_VOLTAGE,
{
}

/// A voltage at or above `MAX_VOLTAGE` has the same code as `MAX_VOLTAGE`,
/// and one at or below `MIN_VOLTAGE` has the same code as `MIN_VOLTAGE`.
pub proof fn lemma_voltage_code_saturates(microvolts: int)
    ensures
        microvolts >= MAX_VOLTAGE ==> spec_voltage_code(microvolts) == spec_voltage_code(
            MAX_VOLTAGE as int,
        ),
        microvolts <= MIN_VOLTAGE ==> spec_voltage_code(microvolts) == spec_voltage_code(
            MIN_VOLTAGE as int,
        ),
        spec_voltage_code(MIN_VOLTAGE as int) == 9,
        spec_voltage_code(MAX_VOLTAGE as int) == 63,
{
}

/// Every voltage code lies between the codes of the two limits, and a
/// higher request never has a lower code.
pub proof fn lemma_voltage_code_monotonic(lower: int, higher: int)
    requires
        lower <= higher,
    ensures
        9 <= spec_voltage_code(lower) <= spec_voltage_code(higher) <= 63,
{
}

} // verus!
