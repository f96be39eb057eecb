//! The execution core: addressing-mode resolution, reset and program
//! loading, and the fetch-decode-execute loop, together with the small-step
//! specification semantics the loop is proved against.

use vstd::prelude::*;

use crate::arithmetic::{spec_adc, spec_cmp, spec_cpx, spec_cpy, spec_sbc};
use crate::bitwise::{spec_and, spec_bit, spec_eor, spec_ora};
use crate::branches::{
    spec_bcc, spec_bcs, spec_beq, spec_bmi, spec_bne, spec_bpl, spec_bvc, spec_bvs,
};
use crate::cpu::{AddressingMode, CpuView, CPU};
use crate::flags::StatusFlags;
use crate::flow_control::{spec_jmp, spec_jsr, spec_rts};
use crate::inc_dec::{spec_dec, spec_dex, spec_dey, spec_inc, spec_inx, spec_iny};
use crate::load_store::{spec_lda, spec_ldx, spec_ldy, spec_sta, spec_stx, spec_sty};
use crate::memory::{word, word_at};
use crate::opcodes::{opcode_info, Mnemonic, OpCode};
use crate::register_transfers::{spec_tax, spec_tay, spec_txa, spec_tya};
use crate::shifts::{spec_asl, spec_lsr, spec_rol, spec_ror};
use crate::stack::{spec_pha, spec_php, spec_pla, spec_plp, spec_tsx, spec_txs};

verus! {

/// The two fatal conditions of the core.  `UnimplementedOpcode` carries the
/// fetched byte that has no table entry; `InvalidAddressingMode` reports a
/// table or programming defect (resolving a mode the resolver does not
/// serve).  Both are distinct from the successful BRK termination.
#[derive(Clone, Copy, Debug, PartialEq, Eq, Structural)]
pub enum CpuError {
    UnimplementedOpcode(u8),
    InvalidAddressingMode,
}

/// The modes the general resolver serves.  `Accumulator` operands live in a
/// register, and `NoneAddressing` instructions locate their operand
/// themselves, so resolving either is an error.
pub open spec fn resolvable(mode: AddressingMode) -> bool {
    !(mode is Accumulator) && !(mode is NoneAddressing)
}

/// The effective operand address of an instruction at `s.pc`, which points
/// just past the opcode byte.  All byte arithmetic wraps modulo 256 or
/// 65536 as typed.  For `Indirect`, the hardware page-boundary bug is
/// reproduced: a pointer whose low byte is `0xFF` fetches its high byte from
/// the start of the same page, not the next one.
pub open spec fn operand_addr(s: CpuView, mode: AddressingMode) -> u16 {
    match mode {
        AddressingMode::Immediate => s.pc,
        AddressingMode::Implied => s.pc,
        AddressingMode::ZeroPage => s.mem[s.pc as int] as u16,
        AddressingMode::ZeroPage_X => s.mem[s.pc as int].wrapping_add(s.x) as u16,
        AddressingMode::ZeroPage_Y => s.mem[s.pc as int].wrapping_add(s.y) as u16,
        AddressingMode::Absolute => word_at(s.mem, s.pc),
        AddressingMode::Absolute_X => word_at(s.mem, s.pc).wrapping_add(s.x as u16),
        AddressingMode::Absolute_Y => word_at(s.mem, s.pc).wrapping_add(s.y as u16),
        AddressingMode::Indirect => {
            let p = word_at(s.mem, s.pc);
            let lo = s.mem[p as int];
            let hi = if p % 0x100 == 0xFF {
                s.mem[(p - 0xFF) as int]
            } else {
                s.mem[(p + 1) as int]
            };
            word(lo, hi)
        },
        AddressingMode::Indirect_X => {
            let ptr = s.mem[s.pc as int].wrapping_add(s.x);
            word(s.mem[ptr as int], s.mem[ptr.wrapping_add(1) as int])
        },
        AddressingMode::Indirect_Y => {
            let base = s.mem[s.pc as int];
            let w = word(s.mem[base as int], s.mem[base.wrapping_add(1) as int]);
            w.wrapping_add(s.y as u16)
        },
        AddressingMode::Accumulator => 0,
        AddressingMode::NoneAddressing => 0,
    }
}

/// The operand byte an instruction at `s.pc` reads through its addressing
/// mode.
pub open spec fn operand_value(s: CpuView, mode: AddressingMode) -> u8 {
    s.mem[operand_addr(s, mode) as int]
}

impl CPU {
    /// The addressing-mode resolver for the modes it serves; never advances
    /// the program counter.
    pub(crate) fn resolve_addr(&self, mode: &AddressingMode) -> (addr: u16)
        requires
            self.wf(),
            resolvable(*mode),
        ensures
            addr == operand_addr(self@, *mode),
    {
        match mode {
            AddressingMode::Immediate => self.program_counter,
            AddressingMode::Implied => self.program_counter,
            AddressingMode::ZeroPage => self.mem_read(self.program_counter) as u16,
            AddressingMode::ZeroPage_X => {
                let pos = self.mem_read(self.program_counter);
                pos.wrapping_add(self.register_x) as u16
            },
            AddressingMode::ZeroPage_Y => {
                let pos = self.mem_read(self.program_counter);
                pos.wrapping_add(self.register_y) as u16
            },
            AddressingMode::Absolute => self.mem_read_u16(self.program_counter),
            AddressingMode::Absolute_X => {
                let base = self.mem_read_u16(self.program_counter);
                base.wrapping_add(self.register_x as u16)
            },
            AddressingMode::Absolute_Y => {
                let base = self.mem_read_u16(self.program_counter);
                base.wrapping_add(self.register_y as u16)
            },
            AddressingMode::Indirect => {
                let addr = self.mem_read_u16(self.program_counter);
                let lo = self.mem_read(addr);
                // The hardware bug: a pointer ending in 0xFF wraps within
                // its own page when fetching the high byte.
                let hi = if addr % 0x100 == 0xFF {
                    self.mem_read(addr - 0xFF)
                } else {
                    self.mem_read(addr + 1)
                };
                (lo as u16) + 0x100 * (hi as u16)
            },
            AddressingMode::Indirect_X => {
                let base = self.mem_read(self.program_counter);
                let ptr = base.wrapping_add(self.register_x);
                let lo = self.mem_read(ptr as u16);
                let hi = self.mem_read(ptr.wrapping_add(1) as u16);
                (lo as u16) + 0x100 * (hi as u16)
            },
            AddressingMode::Indirect_Y => {
                let base = self.mem_read(self.program_counter);
                let lo = self.mem_read(base as u16);
                let hi = self.mem_read(base.wrapping_add(1) as u16);
                let deref_base = (lo as u16) + 0x100 * (hi as u16);
                deref_base.wrapping_add(self.register_y as u16)
            },
            AddressingMode::Accumulator | AddressingMode::NoneAddressing => {
                assert(false);
                0
            },
        }
    }

    /// Computes the effective operand address for `mode`, or reports the
    /// fatal table error for the modes the resolver does not serve.
    pub fn get_operand_address(&self, mode: &AddressingMode) -> (r: Result<u16, CpuError>)
        requires
            self.wf(),
        ensures
            resolvable(*mode) ==> r == Ok::<u16, CpuError>(operand_addr(self@, *mode)),
            !resolvable(*mode) ==> r == Err::<u16, CpuError>(CpuError::InvalidAddressingMode),
    {
        match mode {
            AddressingMode::Accumulator | AddressingMode::NoneAddressing => Err(
                CpuError::InvalidAddressingMode,
            ),
            _ => Ok(self.resolve_addr(mode)),
        }
    }

    /// Reads the operand byte selected by `mode`.
    pub fn get_mode_return_value(&self, mode: &AddressingMode) -> (r: u8)
        requires
            self.wf(),
            resolvable(*mode),
        ensures
            r == operand_value(self@, *mode),
    {
        let addr = self.resolve_addr(mode);
        self.mem_read(addr)
    }
}

/// The fixed address programs are loaded at, and where the reset vector is
/// pointed by [`CPU::load`].
pub const LOAD_ADDRESS: u16 = 0x8000;

/// The fixed address of the 16-bit reset vector.
pub const RESET_VECTOR: u16 = 0xFFFC;

/// State after a reset: A and X cleared, flags to the reset set, stack
/// pointer to `0xFF`, program counter loaded from the reset vector.  Y and
/// memory are untouched.
pub open spec fn spec_reset(s: CpuView) -> CpuView {
    CpuView {
        a: 0,
        x: 0,
        flags: StatusFlags::spec_reset(),
        sp: 0xFF,
        pc: word_at(s.mem, RESET_VECTOR),
        ..s
    }
}

/// The memory image after copying `program` to the load address and writing
/// the reset vector to point at it.
pub open spec fn loaded_mem(mem: Seq<u8>, program: Seq<u8>) -> Seq<u8> {
    mem.take(LOAD_ADDRESS as int).add(program).add(
        mem.skip(LOAD_ADDRESS + program.len()),
    ).update(RESET_VECTOR as int, 0x00).update(RESET_VECTOR + 1, 0x80)
}

/// The state a loaded program starts from: its bytes in place, the reset
/// vector pointing at them, and the registers reset.
pub open spec fn spec_loaded_start(s: CpuView, program: Seq<u8>) -> CpuView {
    spec_reset(CpuView { mem: loaded_mem(s.mem, program), ..s })
}

/// The post-fetch state: the program counter has moved past the opcode byte.
pub open spec fn spec_fetch(s: CpuView) -> CpuView {
    CpuView { pc: s.pc.wrapping_add(1), ..s }
}

/// The execution loop's auto-advance: skips the instruction's remaining
/// `len - 1` operand bytes.  Applied only when the handler left the counter
/// where the fetch put it.
pub open spec fn spec_advance(s: CpuView, len: u8) -> CpuView {
    CpuView { pc: s.pc.wrapping_add((len - 1) as u16), ..s }
}

/// The state transition of one decoded instruction, dispatched on the
/// opcode's mnemonic, from the post-fetch state `s`.  BRK never reaches
/// this dispatch (the step semantics halts first), and an undefined byte
/// never does either.
pub open spec fn spec_instr(s: CpuView, code: u8) -> CpuView {
    match opcode_info(code) {
        Some(info) => {
            let mode = info.mode;
            match info.op {
                Mnemonic::LDA => spec_lda(s, mode),
                Mnemonic::LDX => spec_ldx(s, mode),
                Mnemonic::LDY => spec_ldy(s, mode),
                Mnemonic::STA => spec_sta(s, mode),
                Mnemonic::STX => spec_stx(s, mode),
                Mnemonic::STY => spec_sty(s, mode),
                Mnemonic::ADC => spec_adc(s, mode),
                Mnemonic::SBC => spec_sbc(s, mode),
                Mnemonic::CMP => spec_cmp(s, mode),
                Mnemonic::CPX => spec_cpx(s, mode),
                Mnemonic::CPY => spec_cpy(s, mode),
                Mnemonic::AND => spec_and(s, mode),
                Mnemonic::EOR => spec_eor(s, mode),
                Mnemonic::ORA => spec_ora(s, mode),
                Mnemonic::BIT => spec_bit(s, mode),
                Mnemonic::ASL => spec_asl(s, mode),
                Mnemonic::LSR => spec_lsr(s, mode),
                Mnemonic::ROL => spec_rol(s, mode),
                Mnemonic::ROR => spec_ror(s, mode),
                Mnemonic::INC => spec_inc(s, mode),
                Mnemonic::DEC => spec_dec(s, mode),
                Mnemonic::INX => spec_inx(s),
                Mnemonic::INY => spec_iny(s),
                Mnemonic::DEX => spec_dex(s),
                Mnemonic::DEY => spec_dey(s),
                Mnemonic::TAX => spec_tax(s),
                Mnemonic::TAY => spec_tay(s),
                Mnemonic::TXA => spec_txa(s),
                Mnemonic::TYA => spec_tya(s),
                Mnemonic::JMP => spec_jmp(s, mode),
                Mnemonic::JSR => spec_jsr(s, mode),
                Mnemonic::RTS => spec_rts(s),
                Mnemonic::BCC => spec_bcc(s),
                Mnemonic::BCS => spec_bcs(s),
                Mnemonic::BNE => spec_bne(s),
                Mnemonic::BEQ => spec_beq(s),
                Mnemonic::BPL => spec_bpl(s),
                Mnemonic::BMI => spec_bmi(s),
                Mnemonic::BVC => spec_bvc(s),
                Mnemonic::BVS => spec_bvs(s),
                Mnemonic::CLC => CpuView {
                    flags: StatusFlags { carry: false, ..s.flags },
                    ..s
                },
                Mnemonic::CLD => CpuView {
                    flags: StatusFlags { decimal: false, ..s.flags },
                    ..s
                },
                Mnemonic::CLI => CpuView {
                    flags: StatusFlags { interrupt_disable: false, ..s.flags },
                    ..s
                },
                Mnemonic::CLV => CpuView {
                    flags: StatusFlags { overflow: false, ..s.flags },
                    ..s
                },
                Mnemonic::SEC => CpuView { flags: StatusFlags { carry: true, ..s.flags }, ..s },
                Mnemonic::SED => CpuView {
                    flags: StatusFlags { decimal: true, ..s.flags },
                    ..s
                },
                Mnemonic::SEI => CpuView {
                    flags: StatusFlags { interrupt_disable: true, ..s.flags },
                    ..s
                },
                Mnemonic::PHA => spec_pha(s),
                Mnemonic::PHP => spec_php(s),
                Mnemonic::PLA => spec_pla(s),
                Mnemonic::PLP => spec_plp(s),
                Mnemonic::TXS => spec_txs(s),
                Mnemonic::TSX => spec_tsx(s),
                Mnemonic::NOP => s,
                Mnemonic::BRK => s,
            }
        },
        None => s,
    }
}

/// The outcome of one specification step.
pub ghost enum StepSpec {
    /// An ordinary instruction ran; the machine continues from this state.
    Next(CpuView),
    /// BRK was fetched: the designed halt, from the post-fetch state.
    Halt(CpuView),
    /// A byte with no table entry was fetched: fatal, with the post-fetch
    /// state and the offending byte.
    Fail(CpuView, u8),
}

/// One step of the fetch-decode-execute loop as a function of machine state:
/// fetch the opcode byte, advance the counter past it, halt on BRK, fail on
/// an undefined byte, otherwise run the instruction and auto-advance by the
/// remaining instruction length unless the handler redirected control flow.
pub open spec fn spec_step(s: CpuView) -> StepSpec {
    let code = s.mem[s.pc as int];
    let f = spec_fetch(s);
    match opcode_info(code) {
        None => StepSpec::Fail(f, code),
        Some(info) => {
            if info.op is BRK {
                StepSpec::Halt(f)
            } else {
                let t = spec_instr(f, code);
                if t.pc == f.pc {
                    StepSpec::Next(spec_advance(t, info.len))
                } else {
                    StepSpec::Next(t)
                }
            }
        },
    }
}

/// `t` is reached from `s` by exactly `n` ordinary steps of [`spec_step`].
pub open spec fn spec_reaches(s: CpuView, t: CpuView, n: nat) -> bool
    decreases n,
{
    if n == 0 {
        t == s
    } else {
        spec_step(s) matches StepSpec::Next(u) && spec_reaches(u, t, (n - 1) as nat)
    }
}

/// A reachable state followed by one more ordinary step is reachable.
pub proof fn lemma_reaches_step(s: CpuView, u: CpuView, t: CpuView, n: nat)
    requires
        spec_reaches(s, u, n),
        spec_step(u) == StepSpec::Next(t),
    ensures
        spec_reaches(s, t, n + 1),
    decreases n,
{
    if n == 0 {
        assert(u == s);
        assert(spec_reaches(t, t, 0));
    } else {
        let w = spec_step(s)->Next_0;
        lemma_reaches_step(w, u, t, (n - 1) as nat);
        assert(((n + 1) - 1) as nat == n);
    }
}

/// What one call of [`CPU::step`] reports: the machine is still running, or
/// BRK halted it.
#[derive(Clone, Copy, Debug, PartialEq, Eq, Structural)]
pub enum StepOutcome {
    Running,
    Halted,
}

impl CPU {
    /// Loads the reset state: A and X cleared, flags to the reset set,
    /// stack pointer `0xFF`, program counter read from the reset vector.
    pub fn reset(&mut self)
        requires
            old(self).wf(),
        ensures
            final(self).wf(),
            final(self)@ == spec_reset(old(self)@),
    {
        self.register_a = 0;
        self.register_x = 0;
        self.status = StatusFlags::reset();
        self.sp = 0xFF;

        self.program_counter = self.mem_read_u16(RESET_VECTOR);
    }

    /// Copies a program to the fixed load address and points the reset
    /// vector at it.  The program must fit between the load address and the
    /// top of memory.
    pub fn load(&mut self, program: Vec<u8>)
        requires
            old(self).wf(),
            program@.len() <= 0x8000,
        ensures
            final(self).wf(),
            final(self)@ == (CpuView { mem: loaded_mem(old(self)@.mem, program@), ..old(self)@ }),
    {
        let ghost m0 = self@;
        let mut i: usize = 0;
        while i < program.len()
            invariant
                self.wf(),
                program@.len() <= 0x8000,
                i <= program@.len(),
                forall|j: int| 0 <= j < i ==> self@.mem[0x8000 + j] == program@[j],
                forall|j: int| 0 <= j < 0x8000 ==> self@.mem[j] == m0.mem[j],
                forall|j: int| 0x8000 + program@.len() <= j < 0x10000 ==> self@.mem[j] == m0.mem[j],
                self@ == (CpuView { mem: self@.mem, ..m0 }),
            decreases program@.len() - i,
        {
            let b = program[i];
            self.mem_write((0x8000 + i) as u16, b);
            i += 1;
        }
        self.mem_write_u16(RESET_VECTOR, LOAD_ADDRESS);
        proof {
            assert(self@.mem =~= loaded_mem(m0.mem, program@));
        }
    }

    /// Dispatch of the data-movement and arithmetic instructions:
    /// loads, stores, register transfers, ADC/SBC and the compares.
    #[verifier::rlimit(100)]
    #[verifier::spinoff_prover]
    fn step_data(&mut self, code: u8, mode: &AddressingMode)
        requires
            old(self).wf(),
            opcode_info(code) matches Some(info) && info.mode == *mode && (info.op is LDA
                || info.op is LDX || info.op is LDY || info.op is STA || info.op is STX
                || info.op is STY || info.op is TAX || info.op is TAY || info.op is TXA
                || info.op is TYA || info.op is ADC || info.op is SBC || info.op is CMP
                || info.op is CPX || info.op is CPY),
        ensures
            final(self).wf(),
            final(self)@ == spec_instr(old(self)@, code),
    {
        match code {
            0xA9 | 0xA5 | 0xB5 | 0xAD | 0xBD | 0xB9 | 0xA1 | 0xB1 => self.lda(mode),
            0xA2 | 0xA6 | 0xB6 | 0xAE | 0xBE => self.ldx(mode),
            0xA0 | 0xA4 | 0xB4 | 0xAC | 0xBC => self.ldy(mode),
            0x85 | 0x95 | 0x8D | 0x9D | 0x99 | 0x81 | 0x91 => self.sta(mode),
            0x86 | 0x96 | 0x8E => self.stx(mode),
            0x84 | 0x94 | 0x8C => self.sty(mode),
            0xAA => self.tax(),
            0xA8 => self.tay(),
            0x8A => self.txa(),
            0x98 => self.tya(),
            0x69 | 0x65 | 0x75 | 0x6D | 0x7D | 0x79 | 0x61 | 0x71 => self.adc(mode),
            0xE9 | 0xE5 | 0xF5 | 0xED | 0xFD | 0xF9 | 0xE1 | 0xF1 => self.sbc(mode),
            0xC9 | 0xC5 | 0xD5 | 0xCD | 0xDD | 0xD9 | 0xC1 | 0xD1 => self.cmp(mode),
            0xE0 | 0xE4 | 0xEC => self.cpx(mode),
            0xC0 | 0xC4 | 0xCC => self.cpy(mode),
            _ => {
                proof {
                    assert(false);
                }
            },
        }
    }

    /// Dispatch of the bit-manipulating instructions: logic, BIT, shifts
    /// and rotates, and the increments and decrements.
    #[verifier::rlimit(100)]
    #[verifier::spinoff_prover]
    fn step_bits(&mut self, code: u8, mode: &AddressingMode)
        requires
            old(self).wf(),
            opcode_info(code) matches Some(info) && info.mode == *mode && (info.op is AND
                || info.op is EOR || info.op is ORA || info.op is BIT || info.op is ASL
                || info.op is LSR || info.op is ROL || info.op is ROR || info.op is INC
                || info.op is DEC || info.op is INX || info.op is INY || info.op is DEX
                || info.op is DEY),
        ensures
            final(self).wf(),
            final(self)@ == spec_instr(old(self)@, code),
    {
        match code {
            0x29 | 0x25 | 0x35 | 0x2D | 0x3D | 0x39 | 0x21 | 0x31 => self.and(mode),
            0x49 | 0x45 | 0x55 | 0x4D | 0x5D | 0x59 | 0x41 | 0x51 => self.eor(mode),
            0x09 | 0x05 | 0x15 | 0x0D | 0x1D | 0x19 | 0x01 | 0x11 => self.ora(mode),
            0x24 | 0x2C => self.bit(mode),
            0x0A | 0x06 | 0x16 | 0x0E | 0x1E => self.asl(mode),
            0x4A | 0x46 | 0x56 | 0x4E | 0x5E => self.lsr(mode),
            0x2A | 0x26 | 0x36 | 0x2E | 0x3E => self.rol(mode),
            0x6A | 0x66 | 0x76 | 0x6E | 0x7E => self.ror(mode),
            0xE6 | 0xF6 | 0xEE | 0xFE => self.inc(mode),
            0xC6 | 0xD6 | 0xCE | 0xDE => self.dec(mode),
            0xE8 => self.inx(),
            0xC8 => self.iny(),
            0xCA => self.dex(),
            0x88 => self.dey(),
            _ => {
                proof {
                    assert(false);
                }
            },
        }
    }

    /// Dispatch of the control-flow and housekeeping instructions: jumps,
    /// subroutines, branches, flag control, stack operations and NOP.
    #[verifier::rlimit(100)]
    #[verifier::spinoff_prover]
    fn step_flow(&mut self, code: u8, mode: &AddressingMode)
        requires
            old(self).wf(),
            opcode_info(code) matches Some(info) && info.mode == *mode && (info.op is JMP
                || info.op is JSR || info.op is RTS || info.op is BCC || info.op is BCS
                || info.op is BNE || info.op is BEQ || info.op is BPL || info.op is BMI
                || info.op is BVC || info.op is BVS || info.op is CLC || info.op is CLD
                || info.op is CLI || info.op is CLV || info.op is SEC || info.op is SED
                || info.op is SEI || info.op is PHA || info.op is PHP || info.op is PLA
                || info.op is PLP || info.op is TXS || info.op is TSX || info.op is NOP),
        ensures
            final(self).wf(),
            final(self)@ == spec_instr(old(self)@, code),
    {
        match code {
            0x4C | 0x6C => self.jmp(mode),
            0x20 => self.jsr(mode),
            0x60 => self.rts(),
            0x90 => self.bcc(),
            0xB0 => self.bcs(),
            0xD0 => self.bne(),
            0xF0 => self.beq(),
            0x10 => self.bpl(),
            0x30 => self.bmi(),
            0x50 => self.bvc(),
            0x70 => self.bvs(),
            0x18 => self.clear_carry_flag(),
            0xD8 => self.clear_decimal_flag(),
            0x58 => self.clear_interrupt_disable_flag(),
            0xB8 => self.clear_overflow_flag(),
            0x38 => self.set_carry_flag(),
            0xF8 => self.set_decimal_flag(),
            0x78 => self.set_interrupt_disable_flag(),
            0x48 => self.pha(),
            0x08 => self.php(),
            0x68 => self.pla(),
            0x28 => self.plp(),
            0x9A => self.txs(),
            0xBA => self.tsx(),
            0xEA => {},
            _ => {
                proof {
                    assert(false);
                }
            },
        }
    }

    /// One iteration of the execution loop: fetch, decode, execute,
    /// normalize the counter.  Reports `Halted` for BRK and the fatal
    /// `UnimplementedOpcode` for a byte outside the table; the state always
    /// evolves exactly as [`spec_step`] says.
    #[verifier::rlimit(100)]
    #[verifier::spinoff_prover]
    pub fn step(&mut self) -> (r: Result<StepOutcome, CpuError>)
        requires
            old(self).wf(),
        ensures
            final(self).wf(),
            match spec_step(old(self)@) {
                StepSpec::Next(t) => r == Ok::<StepOutcome, CpuError>(StepOutcome::Running)
                    && final(self)@ == t,
                StepSpec::Halt(t) => r == Ok::<StepOutcome, CpuError>(StepOutcome::Halted)
                    && final(self)@ == t,
                StepSpec::Fail(t, code) => r == Err::<StepOutcome, CpuError>(
                    CpuError::UnimplementedOpcode(code),
                ) && final(self)@ == t,
            },
    {
        let code = self.mem_read(self.program_counter);
        self.program_counter = self.program_counter.wrapping_add(1);

        let opcode = match OpCode::lookup(code) {
            Some(op) => op,
            None => {
                return Err(CpuError::UnimplementedOpcode(code));
            },
        };

        let original_pc = self.program_counter;

        match code {
            0x00 => {
                return Ok(StepOutcome::Halted);
            },
            0xA9 | 0xA5 | 0xB5 | 0xAD | 0xBD | 0xB9 | 0xA1 | 0xB1 | 0xA2 | 0xA6 | 0xB6 | 0xAE
            | 0xBE | 0xA0 | 0xA4 | 0xB4 | 0xAC | 0xBC | 0x85 | 0x95 | 0x8D | 0x9D | 0x99 | 0x81
            | 0x91 | 0x86 | 0x96 | 0x8E | 0x84 | 0x94 | 0x8C | 0xAA | 0xA8 | 0x8A | 0x98 | 0x69
            | 0x65 | 0x75 | 0x6D | 0x7D | 0x79 | 0x61 | 0x71 | 0xE9 | 0xE5 | 0xF5 | 0xED | 0xFD
            | 0xF9 | 0xE1 | 0xF1 | 0xC9 | 0xC5 | 0xD5 | 0xCD | 0xDD | 0xD9 | 0xC1 | 0xD1 | 0xE0
            | 0xE4 | 0xEC | 0xC0 | 0xC4 | 0xCC => self.step_data(code, &opcode.mode),
            0x29 | 0x25 | 0x35 | 0x2D | 0x3D | 0x39 | 0x21 | 0x31 | 0x49 | 0x45 | 0x55 | 0x4D
            | 0x5D | 0x59 | 0x41 | 0x51 | 0x09 | 0x05 | 0x15 | 0x0D | 0x1D | 0x19 | 0x01 | 0x11
            | 0x24 | 0x2C | 0x0A | 0x06 | 0x16 | 0x0E | 0x1E | 0x4A | 0x46 | 0x56 | 0x4E | 0x5E
            | 0x2A | 0x26 | 0x36 | 0x2E | 0x3E | 0x6A | 0x66 | 0x76 | 0x6E | 0x7E | 0xE6 | 0xF6
            | 0xEE | 0xFE | 0xC6 | 0xD6 | 0xCE | 0xDE | 0xE8 | 0xC8 | 0xCA | 0x88 => self
                .step_bits(code, &opcode.mode),
            _ => self.step_flow(code, &opcode.mode),
        }

        if original_pc == self.program_counter {
            self.program_counter = self.program_counter.wrapping_add((opcode.bytes - 1) as u16);
        }

        Ok(StepOutcome::Running)
    }

    /// Runs the fetch-decode-execute loop until BRK halts it
    /// (`Ok(Halted)`) or an undefined opcode byte is fetched (`Err`).  The
    /// final state is reached from the starting state by a finite number of
    /// specification steps followed by the halting or failing fetch.
    ///
    /// The loop carries a step budget of `u64::MAX`; if a program spins that
    /// long without reaching BRK, the loop yields `Ok(Running)` with the
    /// machine ready to be resumed, in the spirit of the design's
    /// cooperative cancellation.
    pub fn run(&mut self) -> (r: Result<StepOutcome, CpuError>)
        requires
            old(self).wf(),
        ensures
            final(self).wf(),
            match r {
                Ok(StepOutcome::Halted) => exists|u: CpuView, n: nat|
                    #[trigger] spec_reaches(old(self)@, u, n) && spec_step(u) == StepSpec::Halt(
                        final(self)@,
                    ),
                Ok(StepOutcome::Running) => spec_reaches(
                    old(self)@,
                    final(self)@,
                    u64::MAX as nat,
                ),
                Err(e) => exists|u: CpuView, n: nat|
                    #[trigger] spec_reaches(old(self)@, u, n) && (spec_step(u) matches StepSpec::Fail(
                        t,
                        code,
                    ) && t == final(self)@ && e == CpuError::UnimplementedOpcode(code)),
            },
    {
        let ghost s0 = self@;
        let ghost mut n: nat = 0nat;
        let mut fuel: u64 = u64::MAX;
        while fuel > 0
            invariant
                self.wf(),
                spec_reaches(s0, self@, n),
                s0 == old(self)@,
                n + fuel == u64::MAX,
            decreases fuel,
        {
            fuel = fuel - 1;
            let ghost u = self@;
            let ghost k = n;
            let outcome = self.step();
            match outcome {
                Ok(StepOutcome::Running) => {
                    proof {
                        lemma_reaches_step(s0, u, self@, k);
                        n = k + 1;
                    }
                },
                Ok(StepOutcome::Halted) => {
                    proof {
                        assert(spec_reaches(s0, u, k) && spec_step(u) == StepSpec::Halt(self@));
                    }
                    return Ok(StepOutcome::Halted);
                },
                Err(e) => {
                    proof {
                        assert(spec_reaches(s0, u, k));
                    }
                    return Err(e);
                },
            }
        }
        Ok(StepOutcome::Running)
    }

    /// Loads a program, resets, and runs it to its BRK.
    pub fn load_and_run(&mut self, program: Vec<u8>) -> (r: Result<StepOutcome, CpuError>)
        requires
            old(self).wf(),
            program@.len() <= 0x8000,
        ensures
            final(self).wf(),
            match r {
                Ok(StepOutcome::Halted) => exists|u: CpuView, n: nat|
                    #[trigger] spec_reaches(spec_loaded_start(old(self)@, program@), u, n)
                        && spec_step(u) == StepSpec::Halt(final(self)@),
                Ok(StepOutcome::Running) => spec_reaches(
                    spec_loaded_start(old(self)@, program@),
                    final(self)@,
                    u64::MAX as nat,
                ),
                Err(e) => exists|u: CpuView, n: nat|
                    #[trigger] spec_reaches(spec_loaded_start(old(self)@, program@), u, n) && (
                    spec_step(u) matches StepSpec::Fail(t, code) && t == final(self)@ && e
                        == CpuError::UnimplementedOpcode(code)),
            },
    {
        let ghost p = program@;
        self.load(program);
        self.reset();
        proof {
            assert(self@ == spec_loaded_start(old(self)@, p));
        }
        self.run()
    }
}

} // verus!
