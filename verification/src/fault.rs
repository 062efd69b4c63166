//! The Fault register: six status flags in one byte.

use crate::bits::bit_set;
use crate::bits::weighted;
use vstd::prelude::*;

verus! {

/// The flags of the Fault register.
///
/// A value is filled in by a read of the register, or built by the caller
/// to be written. Writing the register with `clear` set acknowledges the
/// latched flags and resets them on the chip.
#[derive(Clone, Copy, Debug, PartialEq, Eq, Structural)]
pub struct Fault {
    /// When written as set, clears the fault status bits.
    pub clear: bool,
    /// The fault was caused by an extended current-limit event.
    pub i_limit: bool,
    /// The fault was caused by an overtemperature condition.
    pub ots: bool,
    /// The fault was caused by an undervoltage lockout.
    pub uvlo: bool,
    /// The fault was caused by an overcurrent event.
    pub ocp: bool,
    /// Set if any fault condition exists.
    pub fault: bool,
}

/// The bits of a Fault register byte that carry a flag. Bits 5 and 6 are
/// reserved.
pub const FAULT_FLAG_BITS: u8 = 0x9f;

impl Fault {
    /// Address of the Fault register on the chip.
    pub const ADDRESS: u8 = 0x01;

    /// The register byte that carries these flags: `clear` in bit 7,
    /// `i_limit` in bit 4, `ots` in bit 3, `uvlo` in bit 2, `ocp` in bit 1,
    /// `fault` in bit 0, and the reserved bits clear.
    pub open spec fn byte(&self) -> u8 {
        (weighted(self.clear, 128) + weighted(self.i_limit, 16) + weighted(self.ots, 8)
            + weighted(self.uvlo, 4) + weighted(self.ocp, 2) + weighted(self.fault, 1)) as u8
    }

    /// The flags that a register byte carries. The reserved bits are not
    /// looked at.
    pub open spec fn from_byte(raw: u8) -> Fault {
        Fault {
            clear: bit_set(raw, 128),
            i_limit: bit_set(raw, 16),
            ots: bit_set(raw, 8),
            uvlo: bit_set(raw, 4),
            ocp: bit_set(raw, 2),
            fault: bit_set(raw, 1),
        }
    }

    /// The value that acknowledges a latched fault: `clear` set and every
    /// other flag unset.
    pub open spec fn acknowledgement() -> Fault {
        Fault { clear: true, i_limit: false, ots: false, uvlo: false, ocp: false, fault: false }
    }

    /// Unpacks a register byte into its flags.
    pub fn decode(raw: u8) -> (flags: Fault)
        ensures
            flags == Fault::from_byte(raw),
    {
        assert({
            &&& (raw >> 7) != 0 <==> (raw / 128) % 2 == 1
            &&& ((raw >> 4) & 1) != 0 <==> (raw / 16) % 2 == 1
            &&& ((raw >> 3) & 1) != 0 <==> (raw / 8) % 2 == 1
            &&& ((raw >> 2) & 1) != 0 <==> (raw / 4) % 2 == 1
            &&& ((raw >> 1) & 1) != 0 <==> (raw / 2) % 2 == 1
            &&& (raw & 1) != 0 <==> (raw / 1) % 2 == 1
        }) by (bit_vector);
        Fault {
            clear: (raw >> 7) != 0,
            i_limit: ((raw >> 4) & 1) != 0,
            ots: ((raw >> 3) & 1) != 0,
            uvlo: ((raw >> 2) & 1) != 0,
            ocp: ((raw >> 1) & 1) != 0,
            fault: (raw & 1) != 0,
        }
    }

    /// Packs the flags into a register byte, whatever they are. The
    /// reserved bits are written as zero, and the byte unpacks to these
    /// flags again.
    pub fn encode(&self) -> (raw: u8)
        ensures
            raw == self.byte(),
            raw & !FAULT_FLAG_BITS == 0,
            Fault::from_byte(raw) == *self,
    {
        let clear: u8 = if self.clear { 1 } else { 0 };
        let i_limit: u8 = if self.i_limit { 1 } else { 0 };
        let ots: u8 = if self.ots { 1 } else { 0 };
        let uvlo: u8 = if self.uvlo { 1 } else { 0 };
        let ocp: u8 = if self.ocp { 1 } else { 0 };
        let fault: u8 = if self.fault { 1 } else { 0 };
        let raw: u8 = (clear << 7) | (i_limit << 4) | (ots << 3) | (uvlo << 2) | (ocp << 1) | fault;
        assert({
            &&& raw == 128 * clear + 16 * i_limit + 8 * ots + 4 * uvlo + 2 * ocp + fault
            &&& raw & !0x9fu8 == 0
        }) by (bit_vector)
            requires
                raw == (clear << 7) | (i_limit << 4) | (ots << 3) | (uvlo << 2) | (ocp << 1)
                    | fault,
                clear <= 1,
                i_limit <= 1,
                ots <= 1,
                uvlo <= 1,
                ocp <= 1,
                fault <= 1,
        ;
        raw
    }

    /// Packing flags and unpacking the byte gives the flags back, for every
    /// combination of the six flags.
    pub proof fn lemma_decode_encode(flags: Fault)
        ensures
            Fault::from_byte(flags.byte()) == flags,
    {
    }

    /// Unpacking a byte and packing the flags again keeps the six flag bits
    /// and clears the reserved bits, whatever the byte held there.
    pub proof fn lemma_encode_decode(raw: u8)
        ensures
            Fault::from_byte(raw).byte() == raw & FAULT_FLAG_BITS,
            Fault::from_byte(raw).byte() & !FAULT_FLAG_BITS == 0,
    {
        let packed = Fault::from_byte(raw).byte();
        let b7: u8 = if bit_set(raw, 128) { 1 } else { 0 };
        let b4: u8 = if bit_set(raw, 16) { 1 } else { 0 };
        let b3: u8 = if bit_set(raw, 8) { 1 } else { 0 };
        let b2: u8 = if bit_set(raw, 4) { 1 } else { 0 };
        let b1: u8 = if bit_set(raw, 2) { 1 } else { 0 };
        let b0: u8 = if bit_set(raw, 1) { 1 } else { 0 };
        assert(packed == raw & 0x9f && packed & !0x9fu8 == 0) by (bit_vector)
            requires
                b7 == (raw / 128) % 2,
                b4 == (raw / 16) % 2,
                b3 == (raw / 8) % 2,
                b2 == (raw / 4) % 2,
                b1 == (raw / 2) % 2,
                b0 == (raw / 1) % 2,
                packed == 128 * b7 + 16 * b4 + 8 * b3 + 4 * b2 + 2 * b1 + b0,
        ;
    }

    /// The reserved bits of a byte have no part in the flags read from it.
    pub proof fn lemma_reserved_bits_ignored(raw: u8)
        ensures
            Fault::from_byte(raw) == Fault::from_byte(raw & FAULT_FLAG_BITS),
    {
        let kept = raw & 0x9f;
        assert({
            &&& (raw / 128) % 2 == (kept / 128) % 2
            &&& (raw / 16) % 2 == (kept / 16) % 2
            &&& (raw / 8) % 2 == (kept / 8) % 2
            &&& (raw / 4) % 2 == (kept / 4) % 2
            &&& (raw / 2) % 2 == (kept / 2) % 2
            &&& (raw / 1) % 2 == (kept / 1) % 2
        }) by (bit_vector)
            requires
                kept == raw & 0x9f,
        ;
    }
}

impl Default for Fault {
    /// No flag set.
    fn default() -> (flags: Fault)
        ensures
            flags == (Fault {
                clear: false,
                i_limit: false,
                ots: false,
                uvlo: false,
                ocp: false,
                fault: false,
            }),
    {
        Fault { clear: false, i_limit: false, ots: false, uvlo: false, ocp: false, fault: false }
    }
}

} // verus!
