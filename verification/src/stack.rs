//! The stack instructions PHA/PHP/PLA/PLP and the stack-pointer transfers
//! TXS/TSX.  The stack lives in the fixed page `0x0100`–`0x01FF`; the stack
//! pointer wraps modulo 256 and never carries into the page byte.

use vstd::prelude::*;

use crate::cpu::{CpuView, CPU};
use crate::flags::{spec_update_zn, StatusFlags};

verus! {

/// The memory address the stack pointer designates inside the stack page.
pub open spec fn stack_addr(sp: u8) -> u16 {
    (0x100 + sp) as u16
}

/// State after a push: the byte lands at the stack address and the pointer
/// steps down, wrapping within the page.
pub open spec fn spec_push(s: CpuView, data: u8) -> CpuView {
    CpuView { mem: s.mem.update(stack_addr(s.sp) as int, data), sp: s.sp.wrapping_sub(1), ..s }
}

/// The byte a pop returns: the one above the current stack pointer.
pub open spec fn spec_pop_value(s: CpuView) -> u8 {
    s.mem[stack_addr(s.sp.wrapping_add(1)) as int]
}

/// State after a pop: only the stack pointer moves; memory is not cleared.
pub open spec fn spec_pop_state(s: CpuView) -> CpuView {
    CpuView { sp: s.sp.wrapping_add(1), ..s }
}

/// State after PHA.
pub open spec fn spec_pha(s: CpuView) -> CpuView {
    spec_push(s, s.a)
}

/// State after PHP: the packed status byte is pushed.
pub open spec fn spec_php(s: CpuView) -> CpuView {
    spec_push(s, s.flags.spec_bits())
}

/// State after PLA: the popped byte replaces the accumulator and sets
/// Zero/Negative.
pub open spec fn spec_pla(s: CpuView) -> CpuView {
    let value = spec_pop_value(s);
    CpuView { a: value, flags: spec_update_zn(s.flags, value), ..spec_pop_state(s) }
}

/// State after PLP: the popped byte overwrites all eight flags verbatim.
pub open spec fn spec_plp(s: CpuView) -> CpuView {
    CpuView { flags: StatusFlags::spec_from_bits(spec_pop_value(s)), ..spec_pop_state(s) }
}

/// State after TXS: X becomes the stack pointer; no flags change.
pub open spec fn spec_txs(s: CpuView) -> CpuView {
    CpuView { sp: s.x, ..s }
}

/// State after TSX: the stack pointer is copied into X, setting
/// Zero/Negative.
pub open spec fn spec_tsx(s: CpuView) -> CpuView {
    CpuView { x: s.sp, flags: spec_update_zn(s.flags, s.sp), ..s }
}

/// Law: a push followed by a pop returns the pushed byte and restores the
/// stack pointer, for every starting state, including across the stack
/// page's wraparound.
pub proof fn lemma_push_pop_round_trip(s: CpuView, data: u8)
    requires
        s.wf(),
    ensures
        spec_pop_value(spec_push(s, data)) == data,
        spec_pop_state(spec_push(s, data)).sp == s.sp,
{
}

/// Law: PHA followed by PLA restores the original accumulator and leaves
/// the stack pointer at its pre-push value.
pub proof fn lemma_pha_pla_round_trip(s: CpuView)
    requires
        s.wf(),
    ensures
        spec_pla(spec_pha(s)).a == s.a,
        spec_pla(spec_pha(s)).sp == s.sp,
{
}

impl CPU {
    /// Pushes one byte onto the stack.
    pub(crate) fn push(&mut self, data: u8)
        requires
            old(self).wf(),
        ensures
            final(self).wf(),
            final(self)@ == spec_push(old(self)@, data),
    {
        let addr: u16 = 0x100 + self.sp as u16;
        self.mem_write(addr, data);
        self.sp = self.sp.wrapping_sub(1);
    }

    /// Pops one byte off the stack.
    pub(crate) fn pop(&mut self) -> (r: u8)
        requires
            old(self).wf(),
        ensures
            final(self).wf(),
            r == spec_pop_value(old(self)@),
            final(self)@ == spec_pop_state(old(self)@),
    {
        self.sp = self.sp.wrapping_add(1);
        let addr: u16 = 0x100 + self.sp as u16;
        self.mem_read(addr)
    }

    /// PHA: pushes the accumulator.
    pub fn pha(&mut self)
        requires
            old(self).wf(),
        ensures
            final(self).wf(),
            final(self)@ == spec_pha(old(self)@),
    {
        let data = self.register_a;
        self.push(data);
    }

    /// PHP: pushes the packed status byte.
    pub fn php(&mut self)
        requires
            old(self).wf(),
        ensures
            final(self).wf(),
            final(self)@ == spec_php(old(self)@),
    {
        let data = self.status.bits();
        self.push(data);
    }

    /// PLA: pops into the accumulator, setting Zero/Negative.
    pub fn pla(&mut self)
        requires
            old(self).wf(),
        ensures
            final(self).wf(),
            final(self)@ == spec_pla(old(self)@),
    {
        let value = self.pop();
        self.register_a = value;
        self.update_zero_and_negative_flags(value);
    }

    /// PLP: pops into the status register verbatim.
    pub fn plp(&mut self)
        requires
            old(self).wf(),
        ensures
            final(self).wf(),
            final(self)@ == spec_plp(old(self)@),
    {
        let value = self.pop();
        self.status = StatusFlags::from_bits(value);
    }

    /// TXS: copies X into the stack pointer.
    pub fn txs(&mut self)
        ensures
            final(self)@ == spec_txs(old(self)@),
    {
        self.sp = self.register_x;
    }

    /// TSX: copies the stack pointer into X.
    pub fn tsx(&mut self)
        ensures
            final(self)@ == spec_tsx(old(self)@),
    {
        self.register_x = self.sp;
        let value = self.register_x;
        self.update_zero_and_negative_flags(value);
    }
}

} // verus!
