//! Increment and decrement instructions: INC/DEC on memory and
//! INX/INY/DEX/DEY on the index registers.  All wrap modulo 256 and update
//! Zero/Negative; none touches Carry.

use vstd::prelude::*;

use crate::cpu::{AddressingMode, CpuView, CPU};
use crate::flags::spec_update_zn;
use crate::interp::{operand_addr, resolvable};

verus! {

/// State after INX.
pub open spec fn spec_inx(s: CpuView) -> CpuView {
    let value = s.x.wrapping_add(1);
    CpuView { x: value, flags: spec_update_zn(s.flags, value), ..s }
}

/// State after INY.
pub open spec fn spec_iny(s: CpuView) -> CpuView {
    let value = s.y.wrapping_add(1);
    CpuView { y: value, flags: spec_update_zn(s.flags, value), ..s }
}

/// State after DEX.
pub open spec fn spec_dex(s: CpuView) -> CpuView {
    let value = s.x.wrapping_sub(1);
    CpuView { x: value, flags: spec_update_zn(s.flags, value), ..s }
}

/// State after DEY.
pub open spec fn spec_dey(s: CpuView) -> CpuView {
    let value = s.y.wrapping_sub(1);
    CpuView { y: value, flags: spec_update_zn(s.flags, value), ..s }
}

/// State after INC: the byte at the effective address, incremented modulo
/// 256, written back.
pub open spec fn spec_inc(s: CpuView, mode: AddressingMode) -> CpuView {
    let addr = operand_addr(s, mode);
    let value = s.mem[addr as int].wrapping_add(1);
    CpuView { mem: s.mem.update(addr as int, value), flags: spec_update_zn(s.flags, value), ..s }
}

/// State after DEC.
pub open spec fn spec_dec(s: CpuView, mode: AddressingMode) -> CpuView {
    let addr = operand_addr(s, mode);
    let value = s.mem[addr as int].wrapping_sub(1);
    CpuView { mem: s.mem.update(addr as int, value), flags: spec_update_zn(s.flags, value), ..s }
}

impl CPU {
    /// INX: increments X.
    pub fn inx(&mut self)
        ensures
            final(self)@ == spec_inx(old(self)@),
    {
        self.register_x = self.register_x.wrapping_add(1);
        let value = self.register_x;
        self.update_zero_and_negative_flags(value);
    }

    /// INY: increments Y.
    pub fn iny(&mut self)
        ensures
            final(self)@ == spec_iny(old(self)@),
    {
        self.register_y = self.register_y.wrapping_add(1);
        let value = self.register_y;
        self.update_zero_and_negative_flags(value);
    }

    /// DEX: decrements X.
    pub fn dex(&mut self)
        ensures
            final(self)@ == spec_dex(old(self)@),
    {
        self.register_x = self.register_x.wrapping_sub(1);
        let value = self.register_x;
        self.update_zero_and_negative_flags(value);
    }

    /// DEY: decrements Y.
    pub fn dey(&mut self)
        ensures
            final(self)@ == spec_dey(old(self)@),
    {
        self.register_y = self.register_y.wrapping_sub(1);
        let value = self.register_y;
        self.update_zero_and_negative_flags(value);
    }

    /// INC: increments the byte at the effective address.
    pub fn inc(&mut self, mode: &AddressingMode)
        requires
            old(self).wf(),
            resolvable(*mode),
        ensures
            final(self).wf(),
            final(self)@ == spec_inc(old(self)@, *mode),
    {
        let addr = self.resolve_addr(mode);
        let value = self.mem_read(addr).wrapping_add(1);
        self.mem_write(addr, value);
        self.update_zero_and_negative_flags(value);
    }

    /// DEC: decrements the byte at the effective address.
    pub fn dec(&mut self, mode: &AddressingMode)
        requires
            old(self).wf(),
            resolvable(*mode),
        ensures
            final(self).wf(),
            final(self)@ == spec_dec(old(self)@, *mode),
    {
        let addr = self.resolve_addr(mode);
        let value = self.mem_read(addr).wrapping_sub(1);
        self.mem_write(addr, value);
        self.update_zero_and_negative_flags(value);
    }
}

} // verus!
