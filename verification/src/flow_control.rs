//! Control transfer instructions: JMP, JSR and RTS.

use vstd::prelude::*;

use vstd::arithmetic::div_mod::lemma_fundamental_div_mod;

use crate::cpu::{AddressingMode, CpuView, CPU};
use crate::interp::{operand_addr, resolvable};
use crate::memory::{hi8, lo8, word};
use crate::stack::{spec_pop_state, spec_pop_value, spec_push, stack_addr};

verus! {

/// State after JMP: the program counter becomes the resolved address
/// (Absolute, or Indirect with the page-boundary bug).
pub open spec fn spec_jmp(s: CpuView, mode: AddressingMode) -> CpuView {
    CpuView { pc: operand_addr(s, mode), ..s }
}

/// The return address JSR records: the address of the last byte of the JSR
/// instruction itself, i.e. the current counter (at the operand low byte)
/// plus one.
pub open spec fn jsr_return_addr(s: CpuView) -> u16 {
    s.pc.wrapping_add(1)
}

/// State after JSR: the return address is pushed high byte first, then low
/// byte, and control transfers to the resolved target.
pub open spec fn spec_jsr(s: CpuView, mode: AddressingMode) -> CpuView {
    let target = operand_addr(s, mode);
    let ret = jsr_return_addr(s);
    let pushed = spec_push(spec_push(s, hi8(ret)), lo8(ret));
    CpuView { pc: target, ..pushed }
}

/// State after RTS: the low byte then the high byte are popped, reassembled,
/// and the program counter becomes that address plus one.
pub open spec fn spec_rts(s: CpuView) -> CpuView {
    let low = spec_pop_value(s);
    let s1 = spec_pop_state(s);
    let high = spec_pop_value(s1);
    let s2 = spec_pop_state(s1);
    CpuView { pc: word(low, high).wrapping_add(1), ..s2 }
}

/// Law: a JSR followed directly by an RTS transfers control to the
/// instruction immediately after the JSR (its operand pointer plus two) and
/// restores the stack pointer to its pre-call value.
pub proof fn lemma_jsr_rts_round_trip(s: CpuView, mode: AddressingMode)
    requires
        s.wf(),
    ensures
        spec_rts(spec_jsr(s, mode)).pc == s.pc.wrapping_add(2),
        spec_rts(spec_jsr(s, mode)).sp == s.sp,
{
    let ret = jsr_return_addr(s);
    assert(stack_addr(s.sp) != stack_addr(s.sp.wrapping_sub(1)));
    lemma_fundamental_div_mod(ret as int, 0x100);
    assert(word(lo8(ret), hi8(ret)) == ret);
}

impl CPU {
    /// JMP: transfers control to the resolved address.
    pub fn jmp(&mut self, mode: &AddressingMode)
        requires
            old(self).wf(),
            resolvable(*mode),
        ensures
            final(self).wf(),
            final(self)@ == spec_jmp(old(self)@, *mode),
    {
        let mem_address = self.resolve_addr(mode);
        self.program_counter = mem_address;
    }

    /// JSR: pushes the address of the JSR's last byte (high byte, then low
    /// byte) and jumps to the resolved target.
    pub fn jsr(&mut self, mode: &AddressingMode)
        requires
            old(self).wf(),
            resolvable(*mode),
        ensures
            final(self).wf(),
            final(self)@ == spec_jsr(old(self)@, *mode),
    {
        let mem_address = self.resolve_addr(mode);
        let pc = self.program_counter.wrapping_add(1);
        let high = (pc / 0x100) as u8;
        let low = (pc % 0x100) as u8;

        self.push(high);
        self.push(low);
        self.program_counter = mem_address;
    }

    /// RTS: pops the return address (low byte, then high byte) and resumes
    /// one byte past it.
    pub fn rts(&mut self)
        requires
            old(self).wf(),
        ensures
            final(self).wf(),
            final(self)@ == spec_rts(old(self)@),
    {
        let low = self.pop();
        let high = self.pop();
        let address = (low as u16) + 0x100 * (high as u16);
        self.program_counter = address.wrapping_add(1);
    }
}

} // verus!
