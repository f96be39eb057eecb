//! The processor status register: eight independent one-bit flags.
//!
//! Layout of the packed status byte (bit 7 down to bit 0):
//! Negative, Overflow, Unused, Break, Decimal, InterruptDisable, Zero, Carry.

use vstd::prelude::*;

use crate::cpu::{CpuView, CPU};

verus! {

/// The eight status flags, each held as its own boolean.  The packed byte
/// representation only matters when the whole register is pushed to or pulled
/// from the stack, which goes through [`StatusFlags::bits`] and
/// [`StatusFlags::from_bits`].
#[derive(Clone, Copy, Debug, PartialEq, Eq, Structural)]
pub struct StatusFlags {
    pub carry: bool,
    pub zero: bool,
    pub interrupt_disable: bool,
    pub decimal: bool,
    pub brk: bool,
    pub unused: bool,
    pub overflow: bool,
    pub negative: bool,
}

impl StatusFlags {
    /// The flag state established by a reset: only Unused and Break are set.
    pub open spec fn spec_reset() -> StatusFlags {
        StatusFlags {
            carry: false,
            zero: false,
            interrupt_disable: false,
            decimal: false,
            brk: true,
            unused: true,
            overflow: false,
            negative: false,
        }
    }

    /// The packed status byte, with Carry in bit 0 up to Negative in bit 7.
    pub open spec fn spec_bits(self) -> u8 {
        ((if self.carry { 0x01u8 } else { 0u8 }) | (if self.zero { 0x02u8 } else { 0u8 })
            | (if self.interrupt_disable { 0x04u8 } else { 0u8 })
            | (if self.decimal { 0x08u8 } else { 0u8 }) | (if self.brk { 0x10u8 } else { 0u8 })
            | (if self.unused { 0x20u8 } else { 0u8 })
            | (if self.overflow { 0x40u8 } else { 0u8 })
            | (if self.negative { 0x80u8 } else { 0u8 })) as u8
    }

    /// The flag state encoded by a packed status byte.
    pub open spec fn spec_from_bits(bits: u8) -> StatusFlags {
        StatusFlags {
            carry: bits & 0x01 != 0,
            zero: bits & 0x02 != 0,
            interrupt_disable: bits & 0x04 != 0,
            decimal: bits & 0x08 != 0,
            brk: bits & 0x10 != 0,
            unused: bits & 0x20 != 0,
            overflow: bits & 0x40 != 0,
            negative: bits & 0x80 != 0,
        }
    }

    /// The reset flag state as a value.
    pub fn reset() -> (r: StatusFlags)
        ensures
            r == StatusFlags::spec_reset(),
    {
        StatusFlags {
            carry: false,
            zero: false,
            interrupt_disable: false,
            decimal: false,
            brk: true,
            unused: true,
            overflow: false,
            negative: false,
        }
    }

    /// Packs the flags into the status byte pushed by PHP.
    pub fn bits(&self) -> (r: u8)
        ensures
            r == self.spec_bits(),
    {
        (if self.carry { 0x01u8 } else { 0u8 }) | (if self.zero { 0x02u8 } else { 0u8 })
            | (if self.interrupt_disable { 0x04u8 } else { 0u8 })
            | (if self.decimal { 0x08u8 } else { 0u8 }) | (if self.brk { 0x10u8 } else { 0u8 })
            | (if self.unused { 0x20u8 } else { 0u8 })
            | (if self.overflow { 0x40u8 } else { 0u8 })
            | (if self.negative { 0x80u8 } else { 0u8 })
    }

    /// Unpacks a status byte, as PLP does; every bit is taken verbatim.
    pub fn from_bits(bits: u8) -> (r: StatusFlags)
        ensures
            r == StatusFlags::spec_from_bits(bits),
    {
        StatusFlags {
            carry: bits & 0x01 != 0,
            zero: bits & 0x02 != 0,
            interrupt_disable: bits & 0x04 != 0,
            decimal: bits & 0x08 != 0,
            brk: bits & 0x10 != 0,
            unused: bits & 0x20 != 0,
            overflow: bits & 0x40 != 0,
            negative: bits & 0x80 != 0,
        }
    }
}

/// Whether a result byte sets the Negative flag: its sign bit (bit 7) is set.
pub open spec fn is_negative(value: u8) -> bool {
    value >= 0x80
}

/// The flag state after the shared Zero/Negative update rule: Zero iff the
/// result is zero, Negative iff bit 7 of the result is set, all else kept.
pub open spec fn spec_update_zn(f: StatusFlags, result: u8) -> StatusFlags {
    StatusFlags { zero: result == 0, negative: is_negative(result), ..f }
}

impl CPU {
    /// Sets Zero iff `result == 0` and Negative iff bit 7 of `result` is set;
    /// shared by loads, transfers, logic, increments and shifts.
    pub fn update_zero_and_negative_flags(&mut self, result: u8)
        ensures
            final(self)@ == (CpuView {
                flags: spec_update_zn(old(self)@.flags, result),
                ..old(self)@
            }),
    {
        self.status.zero = result == 0;
        self.status.negative = result >= 0x80;
    }

    /// Sets Carry to bit 7 of the pre-shift value, the carry-out rule of ASL
    /// and ROL.
    pub fn update_carry_asl(&mut self, value: u8)
        ensures
            final(self)@ == (CpuView {
                flags: StatusFlags { carry: is_negative(value), ..old(self)@.flags },
                ..old(self)@
            }),
    {
        self.status.carry = value >= 0x80;
    }

    /// Sets Carry to bit 0 of the pre-shift value, the carry-out rule of LSR
    /// and ROR.
    pub fn update_carry_lsr(&mut self, value: u8)
        ensures
            final(self)@ == (CpuView {
                flags: StatusFlags { carry: value % 2 == 1, ..old(self)@.flags },
                ..old(self)@
            }),
    {
        self.status.carry = value % 2 == 1;
    }

    /// Sets Carry iff a 16-bit ADC intermediate exceeds the byte range.
    pub fn update_carry_adc(&mut self, result: u16)
        ensures
            final(self)@ == (CpuView {
                flags: StatusFlags { carry: result > 0xFF, ..old(self)@.flags },
                ..old(self)@
            }),
    {
        self.status.carry = result > 0xFF;
    }

    // ---- Clear flags ----
    /// CLC: clears Carry.
    pub fn clear_carry_flag(&mut self)
        ensures
            final(self)@ == (CpuView {
                flags: StatusFlags { carry: false, ..old(self)@.flags },
                ..old(self)@
            }),
    {
        self.status.carry = false;
    }

    /// CLI: clears InterruptDisable.
    pub fn clear_interrupt_disable_flag(&mut self)
        ensures
            final(self)@ == (CpuView {
                flags: StatusFlags { interrupt_disable: false, ..old(self)@.flags },
                ..old(self)@
            }),
    {
        self.status.interrupt_disable = false;
    }

    /// CLD: clears Decimal.
    pub fn clear_decimal_flag(&mut self)
        ensures
            final(self)@ == (CpuView {
                flags: StatusFlags { decimal: false, ..old(self)@.flags },
                ..old(self)@
            }),
    {
        self.status.decimal = false;
    }

    /// CLV: clears Overflow.
    pub fn clear_overflow_flag(&mut self)
        ensures
            final(self)@ == (CpuView {
                flags: StatusFlags { overflow: false, ..old(self)@.flags },
                ..old(self)@
            }),
    {
        self.status.overflow = false;
    }

    // ---- Set flags ----
    /// SEC: sets Carry.
    pub fn set_carry_flag(&mut self)
        ensures
            final(self)@ == (CpuView {
                flags: StatusFlags { carry: true, ..old(self)@.flags },
                ..old(self)@
            }),
    {
        self.status.carry = true;
    }

    /// SEI: sets InterruptDisable.
    pub fn set_interrupt_disable_flag(&mut self)
        ensures
            final(self)@ == (CpuView {
                flags: StatusFlags { interrupt_disable: true, ..old(self)@.flags },
                ..old(self)@
            }),
    {
        self.status.interrupt_disable = true;
    }

    /// SED: sets Decimal.
    pub fn set_decimal_flag(&mut self)
        ensures
            final(self)@ == (CpuView {
                flags: StatusFlags { decimal: true, ..old(self)@.flags },
                ..old(self)@
            }),
    {
        self.status.decimal = true;
    }
}

} // verus!
