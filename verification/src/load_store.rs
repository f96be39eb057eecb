//! Load and store instructions: LDA/LDX/LDY and STA/STX/STY.

use vstd::prelude::*;

use crate::cpu::{AddressingMode, CpuView, CPU};
use crate::flags::spec_update_zn;
use crate::interp::{operand_addr, operand_value, resolvable};

verus! {

/// State after LDA: the operand byte replaces the accumulator and sets
/// Zero/Negative.
pub open spec fn spec_lda(s: CpuView, mode: AddressingMode) -> CpuView {
    let value = operand_value(s, mode);
    CpuView { a: value, flags: spec_update_zn(s.flags, value), ..s }
}

/// State after LDX: the operand byte replaces X and sets Zero/Negative.
pub open spec fn spec_ldx(s: CpuView, mode: AddressingMode) -> CpuView {
    let value = operand_value(s, mode);
    CpuView { x: value, flags: spec_update_zn(s.flags, value), ..s }
}

/// State after LDY: the operand byte replaces Y and sets Zero/Negative.
pub open spec fn spec_ldy(s: CpuView, mode: AddressingMode) -> CpuView {
    let value = operand_value(s, mode);
    CpuView { y: value, flags: spec_update_zn(s.flags, value), ..s }
}

/// State after STA: the accumulator is stored at the effective address; no
/// flag changes.
pub open spec fn spec_sta(s: CpuView, mode: AddressingMode) -> CpuView {
    CpuView { mem: s.mem.update(operand_addr(s, mode) as int, s.a), ..s }
}

/// State after STX.
pub open spec fn spec_stx(s: CpuView, mode: AddressingMode) -> CpuView {
    CpuView { mem: s.mem.update(operand_addr(s, mode) as int, s.x), ..s }
}

/// State after STY.
pub open spec fn spec_sty(s: CpuView, mode: AddressingMode) -> CpuView {
    CpuView { mem: s.mem.update(operand_addr(s, mode) as int, s.y), ..s }
}

impl CPU {
    /// LDA: loads the operand into the accumulator.
    pub fn lda(&mut self, mode: &AddressingMode)
        requires
            old(self).wf(),
            resolvable(*mode),
        ensures
            final(self).wf(),
            final(self)@ == spec_lda(old(self)@, *mode),
    {
        let value = self.get_mode_return_value(mode);
        self.register_a = value;
        self.update_zero_and_negative_flags(value);
    }

    /// LDX: loads the operand into X.
    pub fn ldx(&mut self, mode: &AddressingMode)
        requires
            old(self).wf(),
            resolvable(*mode),
        ensures
            final(self).wf(),
            final(self)@ == spec_ldx(old(self)@, *mode),
    {
        let value = self.get_mode_return_value(mode);
        self.register_x = value;
        self.update_zero_and_negative_flags(value);
    }

    /// LDY: loads the operand into Y.
    pub fn ldy(&mut self, mode: &AddressingMode)
        requires
            old(self).wf(),
            resolvable(*mode),
        ensures
            final(self).wf(),
            final(self)@ == spec_ldy(old(self)@, *mode),
    {
        let value = self.get_mode_return_value(mode);
        self.register_y = value;
        self.update_zero_and_negative_flags(value);
    }

    /// STA: stores the accumulator at the effective address.
    pub fn sta(&mut self, mode: &AddressingMode)
        requires
            old(self).wf(),
            resolvable(*mode),
        ensures
            final(self).wf(),
            final(self)@ == spec_sta(old(self)@, *mode),
    {
        let addr = self.resolve_addr(mode);
        let data = self.register_a;
        self.mem_write(addr, data);
    }

    /// STX: stores X at the effective address.
    pub fn stx(&mut self, mode: &AddressingMode)
        requires
            old(self).wf(),
            resolvable(*mode),
        ensures
            final(self).wf(),
            final(self)@ == spec_stx(old(self)@, *mode),
    {
        let addr = self.resolve_addr(mode);
        let data = self.register_x;
        self.mem_write(addr, data);
    }

    /// STY: stores Y at the effective address.
    pub fn sty(&mut self, mode: &AddressingMode)
        requires
            old(self).wf(),
            resolvable(*mode),
        ensures
            final(self).wf(),
            final(self)@ == spec_sty(old(self)@, *mode),
    {
        let addr = self.resolve_addr(mode);
        let data = self.register_y;
        self.mem_write(addr, data);
    }
}

} // verus!
