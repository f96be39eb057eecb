//! Register-to-register transfers: TAX/TAY/TXA/TYA.

use vstd::prelude::*;

use crate::cpu::{CpuView, CPU};
use crate::flags::spec_update_zn;

verus! {

/// State after TAX: the accumulator is copied into X, setting Zero/Negative.
pub open spec fn spec_tax(s: CpuView) -> CpuView {
    CpuView { x: s.a, flags: spec_update_zn(s.flags, s.a), ..s }
}

/// State after TAY.
pub open spec fn spec_tay(s: CpuView) -> CpuView {
    CpuView { y: s.a, flags: spec_update_zn(s.flags, s.a), ..s }
}

/// State after TXA.
pub open spec fn spec_txa(s: CpuView) -> CpuView {
    CpuView { a: s.x, flags: spec_update_zn(s.flags, s.x), ..s }
}

/// State after TYA.
pub open spec fn spec_tya(s: CpuView) -> CpuView {
    CpuView { a: s.y, flags: spec_update_zn(s.flags, s.y), ..s }
}

impl CPU {
    /// TAX: copies the accumulator into X.
    pub fn tax(&mut self)
        ensures
            final(self)@ == spec_tax(old(self)@),
    {
        self.register_x = self.register_a;
        let value = self.register_x;
        self.update_zero_and_negative_flags(value);
    }

    /// TAY: copies the accumulator into Y.
    pub fn tay(&mut self)
        ensures
            final(self)@ == spec_tay(old(self)@),
    {
        self.register_y = self.register_a;
        let value = self.register_y;
        self.update_zero_and_negative_flags(value);
    }

    /// TXA: copies X into the accumulator.
    pub fn txa(&mut self)
        ensures
            final(self)@ == spec_txa(old(self)@),
    {
        self.register_a = self.register_x;
        let value = self.register_a;
        self.update_zero_and_negative_flags(value);
    }

    /// TYA: copies Y into the accumulator.
    pub fn tya(&mut self)
        ensures
            final(self)@ == spec_tya(old(self)@),
    {
        self.register_a = self.register_y;
        let value = self.register_a;
        self.update_zero_and_negative_flags(value);
    }
}

} // verus!
