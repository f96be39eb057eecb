//! A bit-exact interpreter for the instruction-processing unit of the
//! 6502-family 8-bit microprocessor.
//!
//! The crate models register and flag state, the addressing-mode resolution
//! rules, the opcode dispatch table, the documented instruction semantics,
//! and the fetch-decode-execute loop that drives them.  Every executable
//! function carries a contract relating it to a mathematical small-step
//! semantics over [`cpu::CpuView`], and the machine-level laws the design
//! relies on (carry and overflow arithmetic, compare flags, stack and
//! subroutine round trips) are stated and proved as lemmas.

pub mod arithmetic;
pub mod bitwise;
pub mod branches;
pub mod cpu;
pub mod flags;
pub mod flow_control;
pub mod inc_dec;
pub mod interp;
pub mod load_store;
pub mod memory;
pub mod opcodes;
pub mod register_transfers;
pub mod shifts;
pub mod stack;
