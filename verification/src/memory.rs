//! Byte and little-endian word access to the processor's memory.

use vstd::prelude::*;

use crate::cpu::{CpuView, CPU};

verus! {

/// The low byte of a 16-bit word.
pub open spec fn lo8(w: u16) -> u8 {
    (w % 0x100) as u8
}

/// The high byte of a 16-bit word.
pub open spec fn hi8(w: u16) -> u8 {
    (w / 0x100) as u8
}

/// The word assembled from a low and a high byte.
pub open spec fn word(lo: u8, hi: u8) -> u16 {
    (lo + 0x100 * hi) as u16
}

/// The 16-bit little-endian word stored at `pos`; the high byte sits at
/// `pos + 1` with 16-bit wraparound.
pub open spec fn word_at(mem: Seq<u8>, pos: u16) -> u16 {
    word(mem[pos as int], mem[pos.wrapping_add(1) as int])
}

impl CPU {
    /// Reads one byte.
    pub fn mem_read(&self, addr: u16) -> (r: u8)
        requires
            self.wf(),
        ensures
            r == self@.mem[addr as int],
    {
        self.memory[addr as usize]
    }

    /// Writes one byte.
    pub fn mem_write(&mut self, addr: u16, data: u8)
        requires
            old(self).wf(),
        ensures
            final(self).wf(),
            final(self)@ == (CpuView {
                mem: old(self)@.mem.update(addr as int, data),
                ..old(self)@
            }),
    {
        self.memory[addr as usize] = data;
    }

    /// Reads a 16-bit little-endian word: low byte at `position`, high byte
    /// at `position + 1` (wrapping around the top of the address space).
    pub fn mem_read_u16(&self, position: u16) -> (r: u16)
        requires
            self.wf(),
        ensures
            r == word_at(self@.mem, position),
    {
        let low = self.mem_read(position);
        let high = self.mem_read(position.wrapping_add(1));
        (low as u16) + 0x100 * (high as u16)
    }

    /// Writes a 16-bit little-endian word: low byte at `pos`, high byte at
    /// `pos + 1` (wrapping around the top of the address space).
    pub fn mem_write_u16(&mut self, pos: u16, data: u16)
        requires
            old(self).wf(),
        ensures
            final(self).wf(),
            final(self)@ == (CpuView {
                mem: old(self)@.mem.update(pos as int, lo8(data)).update(
                    pos.wrapping_add(1) as int,
                    hi8(data),
                ),
                ..old(self)@
            }),
    {
        let high = (data / 0x100) as u8;
        let low = (data % 0x100) as u8;
        self.mem_write(pos, low);
        self.mem_write(pos.wrapping_add(1), high);
    }
}

} // verus!
