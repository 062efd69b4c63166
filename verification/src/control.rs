//! The Control register: direction inputs and output voltage in one byte.

use crate::bits::weighted;
use crate::voltage::spec_target_voltage;
use crate::voltage::spec_voltage_code;
use crate::voltage::target_voltage;
use crate::voltage::voltage_code;
use crate::voltage::FULL_SPEED;
use vstd::prelude::*;

verus! {

/// A value for the Control register.
///
/// `in1` and `in2` select the bridge mode: both clear coasts, `in2` alone
/// runs in reverse, `in1` alone runs forward, both set brakes. A value is
/// built by the caller, most often from one of the four presets, and
/// written once.
#[derive(Clone, Copy, Debug, PartialEq, Eq, Structural)]
pub struct Control {
    /// First bridge input.
    pub in1: bool,
    /// Second bridge input.
    pub in2: bool,
    /// Speed as a fraction of full scale, in thousandths: `0` asks for the
    /// lowest output voltage and `FULL_SPEED` for the highest. Values
    /// outside that range are limited to it when the register is encoded.
    pub speed_mult: i32,
}

/// The Control register byte for a voltage code and the two bridge inputs:
/// the code in bits 7 to 2, `in2` in bit 1, `in1` in bit 0.
pub open spec fn control_byte(code: int, in1: bool, in2: bool) -> int {
    4 * code + weighted(in2, 2) + weighted(in1, 1)
}

impl Control {
    /// Address of the Control register on the chip.
    pub const ADDRESS: u8 = 0x00;

    /// The preset for a bridge mode: the given inputs at full speed.
    pub open spec fn preset(in1: bool, in2: bool) -> Control {
        Control { in1, in2, speed_mult: FULL_SPEED }
    }

    /// The register byte for this value: the voltage code of the voltage
    /// that `speed_mult` asks for, above the two direction bits.
    pub open spec fn byte(&self) -> u8 {
        control_byte(
            spec_voltage_code(spec_target_voltage(self.speed_mult as int)),
            self.in1,
            self.in2,
        ) as u8
    }

    /// The coast preset: both inputs clear, at full speed.
    pub fn coast() -> (control: Control)
        ensures
            control == Control::preset(false, false),
    {
        Control { in1: false, in2: false, speed_mult: FULL_SPEED }
    }

    /// The reverse preset: `in2` alone set, at full speed.
    pub fn reverse() -> (control: Control)
        ensures
            control == Control::preset(false, true),
    {
        Control { in1: false, in2: true, speed_mult: FULL_SPEED }
    }

    /// The forward preset: `in1` alone set, at full speed.
    pub fn forward() -> (control: Control)
        ensures
            control == Control::preset(true, false),
    {
        Control { in1: true, in2: false, speed_mult: FULL_SPEED }
    }

    /// The brake preset: both inputs set, at full speed.
    pub fn brake() -> (control: Control)
        ensures
            control == Control::preset(true, true),
    {
        Control { in1: true, in2: true, speed_mult: FULL_SPEED }
    }

    /// Packs this value into the register byte. No speed is refused: one
    /// outside `0 ..= FULL_SPEED` encodes as the nearer limit.
    pub fn encode(&self) -> (raw: u8)
        ensures
            raw == self.byte(),
    {
        let code: u8 = voltage_code(target_voltage(self.speed_mult));
        let in1: u8 = if self.in1 { 1 } else { 0 };
        let in2: u8 = if self.in2 { 1 } else { 0 };
        let raw: u8 = (code << 2) | (in2 << 1) | in1;
        assert(raw == 4 * code + 2 * in2 + in1) by (bit_vector)
            requires
                raw == (code << 2) | (in2 << 1) | in1,
                code < 64,
                in1 <= 1,
                in2 <= 1,
        ;
        raw
    }

    /// The encoded byte splits back into its parts: the low two bits are the
    /// bridge inputs and the upper six are the voltage code, which depends on
    /// the speed alone.
    pub proof fn lemma_byte_layout(control: Control)
        ensures
            control.byte() % 4 == weighted(control.in2, 2) + weighted(control.in1, 1),
            control.byte() / 4 == spec_voltage_code(
                spec_target_voltage(control.speed_mult as int),
            ),
            9 <= control.byte() / 4 <= 63,
    {
    }

    /// A speed at or below zero encodes as zero does, and a speed at or
    /// above full scale encodes as full scale does.
    pub proof fn lemma_speed_saturates(control: Control)
        ensures
            control.speed_mult <= 0 ==> control.byte() == (Control {
                speed_mult: 0,
                ..control
            }).byte(),
            control.speed_mult >= FULL_SPEED ==> control.byte() == (Control {
                speed_mult: FULL_SPEED,
                ..control
            }).byte(),
    {
    }

    /// Two values with the same speed encode to bytes that differ at most in
    /// the two direction bits, and they differ there exactly when their
    /// bridge inputs differ.
    pub proof fn lemma_direction_only_in_low_bits(a: Control, b: Control)
        requires
            a.speed_mult == b.speed_mult,
        ensures
            a.byte() / 4 == b.byte() / 4,
            a.byte() == b.byte() <==> (a.in1 == b.in1 && a.in2 == b.in2),
    {
    }

    /// The four presets share the voltage code of full speed and take the
    /// four values of the direction bits, so no two of them encode alike.
    pub proof fn lemma_presets_distinct()
        ensures
            Control::preset(false, false).byte() == 0xfc,
            Control::preset(true, false).byte() == 0xfd,
            Control::preset(false, true).byte() == 0xfe,
            Control::preset(true, true).byte() == 0xff,
    {
    }
}

impl Default for Control {
    /// Coasting at the lowest speed.
    fn default() -> (control: Control)
        ensures
            control == (Control { in1: false, in2: false, speed_mult: 0 }),
    {
        Control { in1: false, in2: false, speed_mult: 0 }
    }
}

} // verus!
