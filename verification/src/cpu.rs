//! The processor state: registers, status flags, program counter, stack
//! pointer and the 64 KiB byte-addressable memory it executes from.

use vstd::prelude::*;

use crate::flags::StatusFlags;

verus! {

/// Number of addressable bytes: the full 16-bit address space.
pub const MEMORY_SIZE: usize = 0x10000;

/// How an instruction locates its operand.  `NoneAddressing` is the sentinel
/// for instructions that resolve their operand themselves (the branches);
/// resolving it through the general resolver is a table error.
#[allow(non_camel_case_types)]
#[derive(Clone, Copy, Debug, PartialEq, Eq, Structural)]
pub enum AddressingMode {
    Immediate,
    Implied,
    Accumulator,
    ZeroPage,
    ZeroPage_X,
    ZeroPage_Y,
    Absolute,
    Absolute_X,
    Absolute_Y,
    Indirect,
    Indirect_X,
    Indirect_Y,
    NoneAddressing,
}

/// The mathematical image of a [`CPU`]: plain register values and the memory
/// contents as a sequence of bytes.  All instruction semantics are specified
/// as functions over this type.
#[verifier::ext_equal]
pub ghost struct CpuView {
    pub a: u8,
    pub x: u8,
    pub y: u8,
    pub flags: StatusFlags,
    pub pc: u16,
    pub sp: u8,
    pub mem: Seq<u8>,
}

impl CpuView {
    /// Well-formedness: the memory covers the full 16-bit address space, so
    /// every address a program can name is readable and writable.
    pub open spec fn wf(self) -> bool {
        self.mem.len() == MEMORY_SIZE
    }
}

/// The interpreter state.  The registers and flags are public so a host can
/// observe and seed them between steps; memory is reached through the
/// `mem_read`/`mem_write` family.
pub struct CPU {
    pub register_a: u8,
    pub register_x: u8,
    pub register_y: u8,
    pub status: StatusFlags,
    pub program_counter: u16,
    pub sp: u8,
    pub(crate) memory: Vec<u8>,
}

impl View for CPU {
    type V = CpuView;

    open(crate) spec fn view(&self) -> CpuView {
        CpuView {
            a: self.register_a,
            x: self.register_x,
            y: self.register_y,
            flags: self.status,
            pc: self.program_counter,
            sp: self.sp,
            mem: self.memory@,
        }
    }
}

impl CPU {
    /// Well-formedness of the live state; established by [`CPU::new`] and
    /// preserved by every operation.
    pub open spec fn wf(&self) -> bool {
        self@.wf()
    }

    /// A processor with cleared registers, reset flags, and zeroed memory.
    pub fn new() -> (cpu: CPU)
        ensures
            cpu.wf(),
            cpu@ == (CpuView {
                a: 0,
                x: 0,
                y: 0,
                flags: StatusFlags::spec_reset(),
                pc: 0,
                sp: 0xFF,
                mem: Seq::new(MEMORY_SIZE as nat, |i: int| 0u8),
            }),
    {
        let mut memory: Vec<u8> = Vec::new();
        memory.resize(MEMORY_SIZE, 0u8);
        proof {
            assert(memory@ =~= Seq::new(MEMORY_SIZE as nat, |i: int| 0u8));
        }
        CPU {
            register_a: 0,
            register_x: 0,
            register_y: 0,
            status: StatusFlags::reset(),
            program_counter: 0,
            sp: 0xFF,
            memory,
        }
    }

    /// A processor ready for direct driving in tests; identical to
    /// [`CPU::new`].
    pub fn test_new() -> (cpu: CPU)
        ensures
            cpu.wf(),
            cpu@ == (CpuView {
                a: 0,
                x: 0,
                y: 0,
                flags: StatusFlags::spec_reset(),
                pc: 0,
                sp: 0xFF,
                mem: Seq::new(MEMORY_SIZE as nat, |i: int| 0u8),
            }),
    {
        CPU::new()
    }
}

} // verus!
