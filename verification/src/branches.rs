//! Branch instructions: BCC/BCS/BNE/BEQ/BPL/BMI/BVC/BVS.  Each tests one
//! flag; when the test holds, the signed 8-bit displacement (the only
//! operand byte) is added to the address just after it, modulo 65536.

use vstd::prelude::*;

use vstd::arithmetic::div_mod::lemma_fundamental_div_mod_converse;

use crate::cpu::{CpuView, CPU};

verus! {

/// The signed value of a displacement byte.
pub open spec fn branch_offset(off: u8) -> int {
    if off >= 0x80 {
        off - 0x100
    } else {
        off as int
    }
}

/// The address a taken branch at `s.pc` (pointing at the displacement byte)
/// transfers to: the address after the displacement byte plus the signed
/// displacement, with 16-bit wraparound.
pub open spec fn branch_target(s: CpuView) -> u16 {
    ((s.pc + 1 + branch_offset(s.mem[s.pc as int])) % 0x10000) as u16
}

/// State after a branch whose condition evaluated to `taken`: the program
/// counter moves iff the branch is taken; nothing else changes.
pub open spec fn spec_branch(s: CpuView, taken: bool) -> CpuView {
    if taken {
        CpuView { pc: branch_target(s), ..s }
    } else {
        s
    }
}

/// State after BNE (branch if Zero clear).
pub open spec fn spec_bne(s: CpuView) -> CpuView {
    spec_branch(s, !s.flags.zero)
}

/// State after BEQ (branch if Zero set).
pub open spec fn spec_beq(s: CpuView) -> CpuView {
    spec_branch(s, s.flags.zero)
}

/// State after BCC (branch if Carry clear).
pub open spec fn spec_bcc(s: CpuView) -> CpuView {
    spec_branch(s, !s.flags.carry)
}

/// State after BCS (branch if Carry set).
pub open spec fn spec_bcs(s: CpuView) -> CpuView {
    spec_branch(s, s.flags.carry)
}

/// State after BMI (branch if Negative set).
pub open spec fn spec_bmi(s: CpuView) -> CpuView {
    spec_branch(s, s.flags.negative)
}

/// State after BPL (branch if Negative clear).
pub open spec fn spec_bpl(s: CpuView) -> CpuView {
    spec_branch(s, !s.flags.negative)
}

/// State after BVC (branch if Overflow clear).
pub open spec fn spec_bvc(s: CpuView) -> CpuView {
    spec_branch(s, !s.flags.overflow)
}

/// State after BVS (branch if Overflow set).
pub open spec fn spec_bvs(s: CpuView) -> CpuView {
    spec_branch(s, s.flags.overflow)
}

impl CPU {
    /// The shared branch data path: on a taken branch, adds the signed
    /// displacement byte to the address following it.
    fn branch(&mut self, condition: bool)
        requires
            old(self).wf(),
        ensures
            final(self).wf(),
            final(self)@ == spec_branch(old(self)@, condition),
    {
        if condition {
            let jump = self.mem_read(self.program_counter);
            let base = self.program_counter.wrapping_add(1);
            let target = if jump < 0x80 {
                base.wrapping_add(jump as u16)
            } else {
                base.wrapping_add(jump as u16).wrapping_sub(0x100)
            };
            proof {
                let x: int = old(self)@.pc + 1 + branch_offset(jump);
                let q: int = if x < 0 {
                    -1
                } else if x < 0x10000 {
                    0
                } else {
                    1
                };
                lemma_fundamental_div_mod_converse(x, 0x10000, q, target as int);
            }
            self.program_counter = target;
        }
    }

    /// BNE: branch if Zero clear.
    pub fn bne(&mut self)
        requires
            old(self).wf(),
        ensures
            final(self).wf(),
            final(self)@ == spec_bne(old(self)@),
    {
        let condition = !self.status.zero;
        self.branch(condition);
    }

    /// BEQ: branch if Zero set.
    pub fn beq(&mut self)
        requires
            old(self).wf(),
        ensures
            final(self).wf(),
            final(self)@ == spec_beq(old(self)@),
    {
        let condition = self.status.zero;
        self.branch(condition);
    }

    /// BCC: branch if Carry clear.
    pub fn bcc(&mut self)
        requires
            old(self).wf(),
        ensures
            final(self).wf(),
            final(self)@ == spec_bcc(old(self)@),
    {
        let condition = !self.status.carry;
        self.branch(condition);
    }

    /// BCS: branch if Carry set.
    pub fn bcs(&mut self)
        requires
            old(self).wf(),
        ensures
            final(self).wf(),
            final(self)@ == spec_bcs(old(self)@),
    {
        let condition = self.status.carry;
        self.branch(condition);
    }

    /// BMI: branch if Negative set.
    pub fn bmi(&mut self)
        requires
            old(self).wf(),
        ensures
            final(self).wf(),
            final(self)@ == spec_bmi(old(self)@),
    {
        let condition = self.status.negative;
        self.branch(condition);
    }

    /// BPL: branch if Negative clear.
    pub fn bpl(&mut self)
        requires
            old(self).wf(),
        ensures
            final(self).wf(),
            final(self)@ == spec_bpl(old(self)@),
    {
        let condition = !self.status.negative;
        self.branch(condition);
    }

    /// BVC: branch if Overflow clear.
    pub fn bvc(&mut self)
        requires
            old(self).wf(),
        ensures
            final(self).wf(),
            final(self)@ == spec_bvc(old(self)@),
    {
        let condition = !self.status.overflow;
        self.branch(condition);
    }

    /// BVS: branch if Overflow set.
    pub fn bvs(&mut self)
        requires
            old(self).wf(),
        ensures
            final(self).wf(),
            final(self)@ == spec_bvs(old(self)@),
    {
        let condition = self.status.overflow;
        self.branch(condition);
    }
}

} // verus!
