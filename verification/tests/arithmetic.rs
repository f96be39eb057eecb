use mos6502::cpu::CPU;

#[test]
fn arithmetic_test_0x69_adc_immediate() {
    let mut cpu = CPU::new();
    cpu.load_and_run(vec![0x69, 0x05, 0x00]).unwrap();
    assert_eq!(cpu.register_a, 5);
    assert_eq!(cpu.status.carry, false);
    assert_eq!(cpu.status.overflow, false);
}

#[test]
fn arithmetic_test_0x69_adc_immediate_with_carry() {
    let mut cpu = CPU::new();
    cpu.load_and_run(vec![0xa9, 0xFA, 0x69, 0x0A, 0x00]).unwrap();
    assert_eq!(cpu.register_a, 4);
    assert_eq!(cpu.status.carry, true);
}

#[test]
fn arithmetic_test_0x69_adc_immediate_with_overflow() {
    let mut cpu = CPU::new();
    cpu.load_and_run(vec![0xa9, 0x64, 0x69, 0x32, 0x00]).unwrap();
    assert_eq!(cpu.register_a, 150);
    assert_eq!(cpu.status.overflow, true);
}

#[test]
fn test_0xc9_cmp_equal_sets_zero_and_carry() {
    let mut cpu = CPU::new();
    cpu.load_and_run(vec![
        0xA9, 0x42, // LDA #$42
        0xC9, 0x42, // CMP #$42
        0x00,
    ])
    .unwrap();
    assert_eq!(cpu.register_a, 0x42);
    assert_eq!(cpu.status.zero, true);
    assert_eq!(cpu.status.carry, true);
}

#[test]
fn test_0xc9_cmp_a_greater_than_m_sets_carry() {
    let mut cpu = CPU::new();
    cpu.load_and_run(vec![
        0xA9, 0x80, // LDA #$80
        0xC9, 0x40, // CMP #$40
        0x00,
    ])
    .unwrap();
    assert_eq!(cpu.status.carry, true);
    assert_eq!(cpu.status.zero, false);
    assert_eq!(cpu.register_a, 0x80);
}

#[test]
fn test_0xc9_cmp_a_less_than_m_sets_negative_and_clears_carry() {
    let mut cpu = CPU::new();
    cpu.load_and_run(vec![
        0xA9, 0x30, // LDA #$30
        0xC9, 0x50, // CMP #$50
        0x00,
    ])
    .unwrap();
    assert_eq!(cpu.status.zero, false);
    assert_eq!(cpu.status.zero, false);
    assert_eq!(cpu.status.negative, true);
}

#[test]
fn test_0xc9_cmp_signed_negative_result() {
    let mut cpu = CPU::new();
    cpu.load_and_run(vec![
        0xA9, 0x10, // LDA #$10 (16)
        0xC9, 0x90, // CMP #$90 (144)
        0x00,
    ])
    .unwrap();
    assert_eq!(cpu.status.carry, false);
    assert_eq!(cpu.status.zero, false);
    assert_eq!(cpu.status.negative, true);
}

#[test]
fn test_0xc9_cmp_signed_positive_result_with_negative_bit_set() {
    let mut cpu = CPU::new();
    cpu.load_and_run(vec![
        0xA9, 0x90, // LDA #$90 (144)
        0xC9, 0x10, // CMP #$10 (16)
        0x00,
    ])
    .unwrap();
    assert_eq!(cpu.status.carry, true);
    assert_eq!(cpu.status.negative, true);
    assert_eq!(cpu.status.zero, false);
}
