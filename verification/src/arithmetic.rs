//! Arithmetic and compare instructions: ADC, SBC, CMP, CPX, CPY.

use vstd::prelude::*;

use crate::cpu::{AddressingMode, CpuView, CPU};
use crate::flags::{is_negative, StatusFlags};
use crate::interp::{operand_value, resolvable};

verus! {

/// The signed-overflow predicate of ADC and SBC: the operands agree on their
/// sign bit and the result's sign bit differs from it.
pub open spec fn adc_overflow(a: u8, value: u8, result: u8) -> bool {
    (a ^ result) & (value ^ result) & 0x80 != 0
}

/// State after adding `value` plus the incoming Carry into the accumulator:
/// the result is the 16-bit sum truncated to a byte, Carry is the carry-out,
/// Overflow is the signed-overflow predicate, Zero/Negative follow the
/// result.
pub open spec fn spec_add_to_a(s: CpuView, value: u8) -> CpuView {
    let carry_in: int = if s.flags.carry {
        1
    } else {
        0
    };
    let sum: int = s.a + value + carry_in;
    let result: u8 = (sum % 256) as u8;
    CpuView {
        a: result,
        flags: StatusFlags {
            carry: sum > 255,
            overflow: adc_overflow(s.a, value, result),
            zero: result == 0,
            negative: is_negative(result),
            ..s.flags
        },
        ..s
    }
}

/// State after ADC.
pub open spec fn spec_adc(s: CpuView, mode: AddressingMode) -> CpuView {
    spec_add_to_a(s, operand_value(s, mode))
}

/// The two's-complement-minus-one transform SBC applies to its operand
/// before reusing the ADC data path; equal to the operand's bitwise
/// complement.
pub open spec fn negate_minus_one(value: u8) -> u8 {
    (255 - value) as u8
}

/// State after SBC: ADC of the transformed operand.
pub open spec fn spec_sbc(s: CpuView, mode: AddressingMode) -> CpuView {
    spec_add_to_a(s, negate_minus_one(operand_value(s, mode)))
}

/// State after a compare of `register` against the operand: Carry iff
/// `register >= value` (unsigned), Zero iff equal, Negative from bit 7 of
/// the wrapped difference.  Neither register nor memory changes.
pub open spec fn spec_compare(s: CpuView, mode: AddressingMode, register: u8) -> CpuView {
    let value = operand_value(s, mode);
    let result = register.wrapping_sub(value);
    CpuView {
        flags: StatusFlags {
            carry: register >= value,
            zero: register == value,
            negative: is_negative(result),
            ..s.flags
        },
        ..s
    }
}

/// State after CMP (compare with the accumulator).
pub open spec fn spec_cmp(s: CpuView, mode: AddressingMode) -> CpuView {
    spec_compare(s, mode, s.a)
}

/// State after CPX.
pub open spec fn spec_cpx(s: CpuView, mode: AddressingMode) -> CpuView {
    spec_compare(s, mode, s.x)
}

/// State after CPY.
pub open spec fn spec_cpy(s: CpuView, mode: AddressingMode) -> CpuView {
    spec_compare(s, mode, s.y)
}

/// Law: ADC computes `(a + value + carry_in) mod 256`; its carry-out is set
/// iff the unwrapped sum exceeds 255; its Overflow flag is exactly the
/// signed-overflow predicate on the operands and the truncated result.
pub proof fn lemma_adc_arithmetic(s: CpuView, value: u8)
    ensures
        ({
            let carry_in: int = if s.flags.carry {
                1
            } else {
                0
            };
            let t = spec_add_to_a(s, value);
            &&& t.a == (s.a + value + carry_in) % 256
            &&& t.flags.carry == (s.a + value + carry_in > 255)
            &&& t.flags.overflow == adc_overflow(s.a, value, t.a)
        }),
{
}

/// Law: the bit-level overflow predicate coincides with arithmetic signed
/// overflow: it holds iff the two addends have the same sign bit and the
/// result's sign bit differs.
pub proof fn lemma_adc_overflow_signed(a: u8, value: u8, result: u8)
    ensures
        adc_overflow(a, value, result) <==> ((a >= 0x80 <==> value >= 0x80) && !(a >= 0x80 <==> result >= 0x80)),
{
    assert(((a ^ result) & (value ^ result) & 0x80 != 0) <==> ((a >= 0x80 <==> value >= 0x80) && !(a >= 0x80 <==> result >= 0x80))) by (bit_vector);
}

/// Law: SBC is ADC of the two's-complement-minus-one transform of the
/// operand, and that transform is `(256 - value - 1) mod 256`.
pub proof fn lemma_sbc_is_adc(s: CpuView, mode: AddressingMode)
    ensures
        spec_sbc(s, mode) == spec_add_to_a(s, negate_minus_one(operand_value(s, mode))),
        negate_minus_one(operand_value(s, mode)) == (256 - operand_value(s, mode) - 1) % 256,
{
}

/// Law: through the transform, SBC computes `a - value - (1 - carry_in)`
/// modulo 256, with Carry set iff no borrow was needed.
pub proof fn lemma_sbc_arithmetic(s: CpuView, value: u8)
    ensures
        ({
            let carry_in: int = if s.flags.carry {
                1
            } else {
                0
            };
            let t = spec_add_to_a(s, negate_minus_one(value));
            &&& t.a == (s.a - value - (1 - carry_in) + 256) % 256
            &&& t.flags.carry == (s.a - value - (1 - carry_in) >= 0)
        }),
{
    let carry_in: int = if s.flags.carry {
        1
    } else {
        0
    };
    let sum: int = s.a + negate_minus_one(value) + carry_in;
    let shifted: int = s.a - value - (1 - carry_in) + 256;
    assert(sum == shifted);
}

/// Law: a compare sets Carry iff `register >= value` (unsigned) and Zero iff
/// `register == value`.
pub proof fn lemma_compare_flags(s: CpuView, mode: AddressingMode, register: u8)
    ensures
        spec_compare(s, mode, register).flags.carry == (register >= operand_value(s, mode)),
        spec_compare(s, mode, register).flags.zero == (register == operand_value(s, mode)),
{
}

impl CPU {
    /// The shared ADC/SBC data path: adds `value` and the incoming Carry
    /// into the accumulator, updating Carry, Overflow, Zero and Negative.
    fn add_to_register_a(&mut self, value: u8)
        requires
            old(self).wf(),
        ensures
            final(self).wf(),
            final(self)@ == spec_add_to_a(old(self)@, value),
    {
        let carry_in: u16 = if self.status.carry {
            1
        } else {
            0
        };
        let result: u16 = self.register_a as u16 + value as u16 + carry_in;
        self.update_carry_adc(result);

        let result8: u8 = (result % 0x100) as u8;
        let overflow = (self.register_a ^ result8) & (value ^ result8) & 0x80 != 0;
        self.status.overflow = overflow;

        self.update_zero_and_negative_flags(result8);

        self.register_a = result8;
    }

    /// ADC: adds the operand and the incoming Carry to the accumulator.
    pub fn adc(&mut self, mode: &AddressingMode)
        requires
            old(self).wf(),
            resolvable(*mode),
        ensures
            final(self).wf(),
            final(self)@ == spec_adc(old(self)@, *mode),
    {
        let value = self.get_mode_return_value(mode);
        self.add_to_register_a(value);
    }

    /// SBC: subtracts the operand and the borrow, by feeding the operand's
    /// two's-complement-minus-one transform into the ADC data path.
    pub fn sbc(&mut self, mode: &AddressingMode)
        requires
            old(self).wf(),
            resolvable(*mode),
        ensures
            final(self).wf(),
            final(self)@ == spec_sbc(old(self)@, *mode),
    {
        let value = self.get_mode_return_value(mode);
        self.add_to_register_a(255 - value);
    }

    /// The shared compare data path.
    fn compare_register(&mut self, mode: &AddressingMode, register: u8)
        requires
            old(self).wf(),
            resolvable(*mode),
        ensures
            final(self).wf(),
            final(self)@ == spec_compare(old(self)@, *mode, register),
    {
        let value = self.get_mode_return_value(mode);
        let result = register.wrapping_sub(value);
        self.update_zero_and_negative_flags(result);
        self.status.carry = register >= value;
    }

    /// CMP: compares the accumulator with the operand.
    pub fn cmp(&mut self, mode: &AddressingMode)
        requires
            old(self).wf(),
            resolvable(*mode),
        ensures
            final(self).wf(),
            final(self)@ == spec_cmp(old(self)@, *mode),
    {
        let register = self.register_a;
        self.compare_register(mode, register);
    }

    /// CPX: compares X with the operand.
    pub fn cpx(&mut self, mode: &AddressingMode)
        requires
            old(self).wf(),
            resolvable(*mode),
        ensures
            final(self).wf(),
            final(self)@ == spec_cpx(old(self)@, *mode),
    {
        let register = self.register_x;
        self.compare_register(mode, register);
    }

    /// CPY: compares Y with the operand.
    pub fn cpy(&mut self, mode: &AddressingMode)
        requires
            old(self).wf(),
            resolvable(*mode),
        ensures
            final(self).wf(),
            final(self)@ == spec_cpy(old(self)@, *mode),
    {
        let register = self.register_y;
        self.compare_register(mode, register);
    }
}

} // verus!
