//! Shift and rotate instructions: ASL, LSR, ROL, ROR.  Each operates on the
//! accumulator (Accumulator mode) or on a memory operand, sets Carry to the
//! bit shifted out, and updates Zero/Negative from the result.

use vstd::prelude::*;

use crate::cpu::{AddressingMode, CpuView, CPU};
use crate::flags::{is_negative, StatusFlags};
use crate::interp::{operand_addr, resolvable};

verus! {

/// The modes a shift instruction accepts: anything but the branch sentinel.
pub open spec fn shift_mode_ok(mode: AddressingMode) -> bool {
    !(mode is NoneAddressing)
}

/// A left shift: the byte doubled, truncated to 8 bits.
pub open spec fn asl_result(value: u8) -> u8 {
    (value * 2 % 256) as u8
}

/// A right shift: the byte halved.
pub open spec fn lsr_result(value: u8) -> u8 {
    value / 2
}

/// A left rotate: doubled, truncated, with the incoming Carry as bit 0.
pub open spec fn rol_result(value: u8, carry: bool) -> u8 {
    ((value * 2 + if carry {
        1int
    } else {
        0int
    }) % 256) as u8
}

/// A right rotate: halved, with the incoming Carry as bit 7.
pub open spec fn ror_result(value: u8, carry: bool) -> u8 {
    (value / 2 + if carry {
        128int
    } else {
        0int
    }) as u8
}

/// The byte a shift instruction operates on: the accumulator in Accumulator
/// mode, the memory operand otherwise.
pub open spec fn shift_operand(s: CpuView, mode: AddressingMode) -> u8 {
    if mode is Accumulator {
        s.a
    } else {
        s.mem[operand_addr(s, mode) as int]
    }
}

/// Writes a shift result back (accumulator or memory) and applies the shift
/// flag rule: `carry` is the bit shifted out, Zero/Negative follow the
/// result.
pub open spec fn spec_shift_writeback(
    s: CpuView,
    mode: AddressingMode,
    result: u8,
    carry: bool,
) -> CpuView {
    let flags = StatusFlags { carry, zero: result == 0, negative: is_negative(result), ..s.flags };
    if mode is Accumulator {
        CpuView { a: result, flags, ..s }
    } else {
        CpuView { mem: s.mem.update(operand_addr(s, mode) as int, result), flags, ..s }
    }
}

/// State after ASL: shift left, Carry from old bit 7.
pub open spec fn spec_asl(s: CpuView, mode: AddressingMode) -> CpuView {
    let value = shift_operand(s, mode);
    spec_shift_writeback(s, mode, asl_result(value), is_negative(value))
}

/// State after LSR: shift right, Carry from old bit 0.
pub open spec fn spec_lsr(s: CpuView, mode: AddressingMode) -> CpuView {
    let value = shift_operand(s, mode);
    spec_shift_writeback(s, mode, lsr_result(value), value % 2 == 1)
}

/// State after ROL: rotate left through Carry, Carry from old bit 7.
pub open spec fn spec_rol(s: CpuView, mode: AddressingMode) -> CpuView {
    let value = shift_operand(s, mode);
    spec_shift_writeback(s, mode, rol_result(value, s.flags.carry), is_negative(value))
}

/// State after ROR: rotate right through Carry, Carry from old bit 0.
pub open spec fn spec_ror(s: CpuView, mode: AddressingMode) -> CpuView {
    let value = shift_operand(s, mode);
    spec_shift_writeback(s, mode, ror_result(value, s.flags.carry), value % 2 == 1)
}

impl CPU {
    /// Fetches the shift operand for `mode`.
    fn shift_value(&self, mode: &AddressingMode) -> (r: u8)
        requires
            self.wf(),
            shift_mode_ok(*mode),
        ensures
            r == shift_operand(self@, *mode),
    {
        match mode {
            AddressingMode::Accumulator => self.register_a,
            _ => {
                let addr = self.resolve_addr(mode);
                self.mem_read(addr)
            },
        }
    }

    /// Stores a shift result into the accumulator or back into memory.
    fn shift_store(&mut self, mode: &AddressingMode, result: u8)
        requires
            old(self).wf(),
            shift_mode_ok(*mode),
        ensures
            final(self).wf(),
            final(self)@ == if *mode is Accumulator {
                CpuView { a: result, ..old(self)@ }
            } else {
                CpuView {
                    mem: old(self)@.mem.update(operand_addr(old(self)@, *mode) as int, result),
                    ..old(self)@
                }
            },
    {
        match mode {
            AddressingMode::Accumulator => {
                self.register_a = result;
            },
            _ => {
                let addr = self.resolve_addr(mode);
                self.mem_write(addr, result);
            },
        }
    }

    /// ASL: arithmetic shift left.
    pub fn asl(&mut self, mode: &AddressingMode)
        requires
            old(self).wf(),
            shift_mode_ok(*mode),
        ensures
            final(self).wf(),
            final(self)@ == spec_asl(old(self)@, *mode),
    {
        let value = self.shift_value(mode);
        let result = value.wrapping_mul(2);
        self.update_carry_asl(value);
        self.update_zero_and_negative_flags(result);
        self.shift_store(mode, result);
    }

    /// LSR: logical shift right.
    pub fn lsr(&mut self, mode: &AddressingMode)
        requires
            old(self).wf(),
            shift_mode_ok(*mode),
        ensures
            final(self).wf(),
            final(self)@ == spec_lsr(old(self)@, *mode),
    {
        let value = self.shift_value(mode);
        let result = value / 2;
        self.update_carry_lsr(value);
        self.update_zero_and_negative_flags(result);
        self.shift_store(mode, result);
    }

    /// ROL: rotate left through Carry.
    pub fn rol(&mut self, mode: &AddressingMode)
        requires
            old(self).wf(),
            shift_mode_ok(*mode),
        ensures
            final(self).wf(),
            final(self)@ == spec_rol(old(self)@, *mode),
    {
        let value = self.shift_value(mode);
        let carry_in: u16 = if self.status.carry {
            1
        } else {
            0
        };
        let wide: u16 = value as u16 * 2 + carry_in;
        let result: u8 = (wide % 0x100) as u8;
        self.update_carry_asl(value);
        self.update_zero_and_negative_flags(result);
        self.shift_store(mode, result);
    }

    /// ROR: rotate right through Carry.
    pub fn ror(&mut self, mode: &AddressingMode)
        requires
            old(self).wf(),
            shift_mode_ok(*mode),
        ensures
            final(self).wf(),
            final(self)@ == spec_ror(old(self)@, *mode),
    {
        let value = self.shift_value(mode);
        let result: u8 = value / 2 + if self.status.carry {
            0x80
        } else {
            0
        };
        self.update_carry_lsr(value);
        self.update_zero_and_negative_flags(result);
        self.shift_store(mode, result);
    }
}

} // verus!
