//! Bitwise logic instructions: AND, ORA, EOR and BIT.

use vstd::prelude::*;

use crate::cpu::{AddressingMode, CpuView, CPU};
use crate::flags::{is_negative, spec_update_zn, StatusFlags};
use crate::interp::{operand_value, resolvable};

verus! {

/// The three two-operand gates shared by one data path.
enum LogicalGate {
    AND,
    OR,
    XOR,
}

/// State after AND: the accumulator is replaced by `a & value`, setting
/// Zero/Negative.
pub open spec fn spec_and(s: CpuView, mode: AddressingMode) -> CpuView {
    let result = s.a & operand_value(s, mode);
    CpuView { a: result, flags: spec_update_zn(s.flags, result), ..s }
}

/// State after ORA.
pub open spec fn spec_ora(s: CpuView, mode: AddressingMode) -> CpuView {
    let result = s.a | operand_value(s, mode);
    CpuView { a: result, flags: spec_update_zn(s.flags, result), ..s }
}

/// State after EOR.
pub open spec fn spec_eor(s: CpuView, mode: AddressingMode) -> CpuView {
    let result = s.a ^ operand_value(s, mode);
    CpuView { a: result, flags: spec_update_zn(s.flags, result), ..s }
}

/// State after BIT: Zero from `a & value` (the result itself is discarded),
/// Negative and Overflow copied from bits 7 and 6 of the memory value.
pub open spec fn spec_bit(s: CpuView, mode: AddressingMode) -> CpuView {
    let value = operand_value(s, mode);
    CpuView {
        flags: StatusFlags {
            zero: s.a & value == 0,
            negative: is_negative(value),
            overflow: value & 0x40 != 0,
            ..s.flags
        },
        ..s
    }
}

impl CPU {
    /// The shared logic data path.
    fn logical_gate(&mut self, mode: &AddressingMode, gate: LogicalGate)
        requires
            old(self).wf(),
            resolvable(*mode),
        ensures
            final(self).wf(),
            final(self)@ == match gate {
                LogicalGate::AND => spec_and(old(self)@, *mode),
                LogicalGate::OR => spec_ora(old(self)@, *mode),
                LogicalGate::XOR => spec_eor(old(self)@, *mode),
            },
    {
        let value = self.get_mode_return_value(mode);

        let result = match gate {
            LogicalGate::AND => self.register_a & value,
            LogicalGate::OR => self.register_a | value,
            LogicalGate::XOR => self.register_a ^ value,
        };

        self.register_a = result;
        self.update_zero_and_negative_flags(result);
    }

    /// AND: bitwise-ands the operand into the accumulator.
    pub fn and(&mut self, mode: &AddressingMode)
        requires
            old(self).wf(),
            resolvable(*mode),
        ensures
            final(self).wf(),
            final(self)@ == spec_and(old(self)@, *mode),
    {
        self.logical_gate(mode, LogicalGate::AND);
    }

    /// ORA: bitwise-ors the operand into the accumulator.
    pub fn ora(&mut self, mode: &AddressingMode)
        requires
            old(self).wf(),
            resolvable(*mode),
        ensures
            final(self).wf(),
            final(self)@ == spec_ora(old(self)@, *mode),
    {
        self.logical_gate(mode, LogicalGate::OR);
    }

    /// EOR: bitwise-xors the operand into the accumulator.
    pub fn eor(&mut self, mode: &AddressingMode)
        requires
            old(self).wf(),
            resolvable(*mode),
        ensures
            final(self).wf(),
            final(self)@ == spec_eor(old(self)@, *mode),
    {
        self.logical_gate(mode, LogicalGate::XOR);
    }

    /// BIT: tests the operand against the accumulator without keeping the
    /// result.
    pub fn bit(&mut self, mode: &AddressingMode)
        requires
            old(self).wf(),
            resolvable(*mode),
        ensures
            final(self).wf(),
            final(self)@ == spec_bit(old(self)@, *mode),
    {
        let value = self.get_mode_return_value(mode);

        self.status.zero = self.register_a & value == 0;
        self.status.negative = value >= 0x80;
        self.status.overflow = value & 0x40 != 0;
    }
}

} // verus!
