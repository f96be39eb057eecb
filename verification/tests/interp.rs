use mos6502::cpu::{AddressingMode, CPU};
use mos6502::flags::StatusFlags;
use mos6502::interp::{CpuError, StepOutcome};
use mos6502::opcodes::OpCode;

#[test]
fn test_adc_uses_incoming_carry() {
    let mut cpu = CPU::new();
    // SEC; LDA #$10; ADC #$20 → 0x31, no carry out, no overflow.
    cpu.load_and_run(vec![0x38, 0xa9, 0x10, 0x69, 0x20, 0x00]).unwrap();
    assert_eq!(cpu.register_a, 0x31);
    assert!(!cpu.status.carry);
    assert!(!cpu.status.overflow);
}

#[test]
fn test_adc_carry_and_result_wrap_exact() {
    let mut cpu = CPU::new();
    // LDA #$FF; ADC #$FF → (255 + 255) mod 256 = 254, carry out set.
    cpu.load_and_run(vec![0xa9, 0xff, 0x69, 0xff, 0x00]).unwrap();
    assert_eq!(cpu.register_a, 0xfe);
    assert!(cpu.status.carry);
    assert!(cpu.status.negative);
}

#[test]
fn test_sbc_without_borrow() {
    let mut cpu = CPU::new();
    // SEC; LDA #$50; SBC #$10 → 0x40, carry still set (no borrow).
    cpu.load_and_run(vec![0x38, 0xa9, 0x50, 0xe9, 0x10, 0x00]).unwrap();
    assert_eq!(cpu.register_a, 0x40);
    assert!(cpu.status.carry);
}

#[test]
fn test_sbc_with_borrow_clears_carry() {
    let mut cpu = CPU::new();
    // SEC; LDA #$10; SBC #$20 → 0xF0, carry cleared (borrow taken).
    cpu.load_and_run(vec![0x38, 0xa9, 0x10, 0xe9, 0x20, 0x00]).unwrap();
    assert_eq!(cpu.register_a, 0xf0);
    assert!(!cpu.status.carry);
    assert!(cpu.status.negative);
}

#[test]
fn test_sbc_agrees_with_adc_of_transform() {
    // SEC; LDA #$80; SBC #$10  versus  SEC; LDA #$80; ADC #$EF:
    // 0xEF is the two's-complement-minus-one transform of 0x10.
    let mut sbc_cpu = CPU::new();
    sbc_cpu.load_and_run(vec![0x38, 0xa9, 0x80, 0xe9, 0x10, 0x00]).unwrap();
    let mut adc_cpu = CPU::new();
    adc_cpu.load_and_run(vec![0x38, 0xa9, 0x80, 0x69, 0xef, 0x00]).unwrap();
    assert_eq!(sbc_cpu.register_a, adc_cpu.register_a);
    assert_eq!(sbc_cpu.status, adc_cpu.status);
    assert_eq!(sbc_cpu.register_a, 0x70);
    assert!(sbc_cpu.status.carry);
    assert!(sbc_cpu.status.overflow);
}

#[test]
fn test_cpx_equal_sets_zero_and_carry() {
    let mut cpu = CPU::new();
    cpu.load_and_run(vec![0xa2, 0x05, 0xe0, 0x05, 0x00]).unwrap();
    assert!(cpu.status.zero);
    assert!(cpu.status.carry);
}

#[test]
fn test_cpy_less_clears_carry() {
    let mut cpu = CPU::new();
    cpu.load_and_run(vec![0xa0, 0x04, 0xc0, 0x05, 0x00]).unwrap();
    assert!(!cpu.status.zero);
    assert!(!cpu.status.carry);
}

#[test]
fn test_pha_pla_restores_accumulator_and_stack_pointer() {
    let mut cpu = CPU::new();
    // LDA #$5A; PHA; LDA #$00; PLA → accumulator back, pointer back at 0xFF.
    cpu.load_and_run(vec![0xa9, 0x5a, 0x48, 0xa9, 0x00, 0x68, 0x00]).unwrap();
    assert_eq!(cpu.register_a, 0x5a);
    assert_eq!(cpu.sp, 0xff);
}

#[test]
fn test_jsr_rts_returns_past_the_call() {
    let mut cpu = CPU::new();
    // JSR $8004; BRK; RTS → RTS resumes at 0x8003, which holds the BRK.
    cpu.load_and_run(vec![0x20, 0x04, 0x80, 0x00, 0x60]).unwrap();
    assert_eq!(cpu.program_counter, 0x8004);
    assert_eq!(cpu.sp, 0xff);
}

#[test]
fn test_jmp_indirect_page_boundary_bug() {
    let mut cpu = CPU::new();
    // Pointer $30FF: low byte from $30FF, high byte from $3000 (same page),
    // not from $3100.
    cpu.mem_write(0x30ff, 0x34);
    cpu.mem_write(0x3000, 0x12);
    cpu.mem_write(0x3100, 0x56);
    cpu.load_and_run(vec![0x6c, 0xff, 0x30, 0x00]).unwrap();
    assert_eq!(cpu.program_counter - 1, 0x1234);
}

#[test]
fn test_unimplemented_opcode_is_fatal() {
    let mut cpu = CPU::new();
    let r = cpu.load_and_run(vec![0x02]);
    assert_eq!(r, Err(CpuError::UnimplementedOpcode(0x02)));
}

#[test]
fn test_resolving_none_addressing_is_fatal() {
    let cpu = CPU::new();
    let r = cpu.get_operand_address(&AddressingMode::NoneAddressing);
    assert_eq!(r, Err(CpuError::InvalidAddressingMode));
    let r = cpu.get_operand_address(&AddressingMode::Accumulator);
    assert_eq!(r, Err(CpuError::InvalidAddressingMode));
}

#[test]
fn test_step_reports_running_then_halted() {
    let mut cpu = CPU::new();
    cpu.mem_write(0x0200, 0xe8); // INX
    cpu.mem_write(0x0201, 0x00); // BRK
    cpu.program_counter = 0x0200;
    assert_eq!(cpu.step(), Ok(StepOutcome::Running));
    assert_eq!(cpu.register_x, 1);
    assert_eq!(cpu.step(), Ok(StepOutcome::Halted));
    assert_eq!(cpu.program_counter, 0x0202);
}

#[test]
fn test_reset_state() {
    let mut cpu = CPU::new();
    cpu.register_a = 3;
    cpu.register_x = 4;
    cpu.sp = 0x10;
    cpu.mem_write_u16(0xfffc, 0xc000);
    cpu.reset();
    assert_eq!(cpu.register_a, 0);
    assert_eq!(cpu.register_x, 0);
    assert_eq!(cpu.sp, 0xff);
    assert_eq!(cpu.program_counter, 0xc000);
    assert_eq!(cpu.status.bits(), 0b0011_0000); // Unused and Break only
}

#[test]
fn test_status_byte_round_trip() {
    let f = StatusFlags::from_bits(0xc3);
    assert!(f.carry && f.zero && f.overflow && f.negative);
    assert!(!f.interrupt_disable && !f.decimal && !f.brk && !f.unused);
    assert_eq!(f.bits(), 0xc3);
}

#[test]
fn test_php_plp_round_trip_through_program() {
    let mut cpu = CPU::new();
    // SEC; SED; PHP; CLC; CLD; PLP → carry and decimal restored.
    cpu.load_and_run(vec![0x38, 0xf8, 0x08, 0x18, 0xd8, 0x28, 0x00]).unwrap();
    assert!(cpu.status.carry);
    assert!(cpu.status.decimal);
}

#[test]
fn test_zero_page_x_wraps_within_page() {
    let mut cpu = CPU::new();
    cpu.mem_write(0x01, 0x07);
    // LDX #$02; LDA $FF,X → wraps to $01.
    cpu.load_and_run(vec![0xa2, 0x02, 0xb5, 0xff, 0x00]).unwrap();
    assert_eq!(cpu.register_a, 0x07);
}

#[test]
fn test_absolute_x_addressing() {
    let mut cpu = CPU::new();
    cpu.mem_write(0x20f4, 0x09);
    cpu.load_and_run(vec![0xa2, 0x04, 0xbd, 0xf0, 0x20, 0x00]).unwrap();
    assert_eq!(cpu.register_a, 0x09);
}

#[test]
fn test_indirect_x_addressing() {
    let mut cpu = CPU::new();
    cpu.mem_write(0x24, 0x34);
    cpu.mem_write(0x25, 0x12);
    cpu.mem_write(0x1234, 0x77);
    // LDX #$04; LDA ($20,X)
    cpu.load_and_run(vec![0xa2, 0x04, 0xa1, 0x20, 0x00]).unwrap();
    assert_eq!(cpu.register_a, 0x77);
}

#[test]
fn test_indirect_y_addressing() {
    let mut cpu = CPU::new();
    cpu.mem_write(0x20, 0x30);
    cpu.mem_write(0x21, 0x12);
    cpu.mem_write(0x1234, 0x66);
    // LDY #$04; LDA ($20),Y → base $1230 plus Y.
    cpu.load_and_run(vec![0xa0, 0x04, 0xb1, 0x20, 0x00]).unwrap();
    assert_eq!(cpu.register_a, 0x66);
}

#[test]
fn test_stack_pointer_wraps_on_pop() {
    let mut cpu = CPU::new();
    cpu.mem_write(0x0100, 0x99);
    // PLA with the pointer at 0xFF wraps it to 0x00 and reads $0100.
    cpu.load_and_run(vec![0x68, 0x00]).unwrap();
    assert_eq!(cpu.register_a, 0x99);
    assert_eq!(cpu.sp, 0x00);
}

#[test]
fn test_bit_sets_flags_from_memory_value() {
    let mut cpu = CPU::new();
    cpu.mem_write(0x10, 0xc0);
    // LDA #$0F; BIT $10 → Zero (no common bits), Negative and Overflow from
    // bits 7 and 6 of the memory byte.
    cpu.load_and_run(vec![0xa9, 0x0f, 0x24, 0x10, 0x00]).unwrap();
    assert!(cpu.status.zero);
    assert!(cpu.status.negative);
    assert!(cpu.status.overflow);
}

#[test]
fn test_nop_only_advances() {
    let mut cpu = CPU::new();
    cpu.load_and_run(vec![0xea, 0x00]).unwrap();
    assert_eq!(cpu.program_counter, 0x8002);
    assert_eq!(cpu.register_a, 0);
    assert_eq!(cpu.register_x, 0);
}

#[test]
fn test_load_accepts_largest_program() {
    let mut cpu = CPU::new();
    // 0x8000 zero bytes fill 0x8000..0xFFFF; the first is a BRK.
    cpu.load_and_run(vec![0x00; 0x8000]).unwrap();
    assert_eq!(cpu.program_counter, 0x8001);
}

#[test]
fn test_sta_indirect_y_stores() {
    let mut cpu = CPU::new();
    cpu.mem_write(0x20, 0x00);
    cpu.mem_write(0x21, 0x40);
    // LDA #$AB; LDY #$03; STA ($20),Y → $4003.
    cpu.load_and_run(vec![0xa9, 0xab, 0xa0, 0x03, 0x91, 0x20, 0x00]).unwrap();
    assert_eq!(cpu.mem_read(0x4003), 0xab);
}

#[test]
fn test_branch_backward_offset() {
    let mut cpu = CPU::new();
    // LDX #$03; DEX; BNE -3 → loops until X is zero.
    cpu.load_and_run(vec![0xa2, 0x03, 0xca, 0xd0, 0xfd, 0x00]).unwrap();
    assert_eq!(cpu.register_x, 0);
    assert!(cpu.status.zero);
}

#[test]
fn test_opcode_table_lookup() {
    let op = OpCode::lookup(0xa9).unwrap();
    assert_eq!(op.code, 0xa9);
    assert_eq!(op.mnemonic, "LDA");
    assert_eq!(op.bytes, 2);
    assert_eq!(op.cycles, 2);
    assert!(matches!(op.mode, AddressingMode::Immediate));
    assert!(OpCode::lookup(0x02).is_none());
}

#[test]
fn test_jsr_stack_byte_order() {
    let mut cpu = CPU::new();
    // JSR $8005; BRK; BRK; BRK → return address 0x8002 on the stack, high
    // byte at $01FF, low byte at $01FE.
    cpu.load_and_run(vec![0x20, 0x05, 0x80, 0x00, 0x00, 0x00]).unwrap();
    assert_eq!(cpu.mem_read(0x01ff), 0x80);
    assert_eq!(cpu.mem_read(0x01fe), 0x02);
    assert_eq!(cpu.sp, 0xfd);
}
