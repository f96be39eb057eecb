use mos6502::cpu::CPU;

#[test]
fn test_asl_accumulator() {
    let mut cpu = CPU::test_new();

    cpu.load_and_run(vec![0xA9, 0x41, 0x0A, 0x00]).unwrap();

    assert_eq!(cpu.register_a, 0b1000_0010);
    assert_eq!(cpu.status.carry, false);
    assert_eq!(cpu.status.negative, true);
    assert_eq!(cpu.status.zero, false);
}

#[test]
fn test_asl_memory() {
    let mut cpu = CPU::test_new();

    cpu.mem_write(0x10, 0xC0);
    cpu.load_and_run(vec![0x06, 0x10, 0x00]).unwrap();

    assert_eq!(cpu.mem_read(0x10), 0x80);
    assert_eq!(cpu.status.carry, true);
    assert_eq!(cpu.status.negative, true);
    assert_eq!(cpu.status.zero, false);
}

#[test]
fn test_0x4a_lsr_accumulator() {
    let mut cpu = CPU::test_new();

    cpu.load_and_run(vec![0xA9, 0b0000_0010, 0x4A, 0x00]).unwrap();

    assert_eq!(cpu.register_a, 0b0000_0001);
    assert_eq!(cpu.status.carry, false);
    assert_eq!(cpu.status.negative, false);
    assert_eq!(cpu.status.zero, false);
}

#[test]
fn test_0x4a_lsr_accumulator_sets_carry() {
    let mut cpu = CPU::test_new();

    cpu.load_and_run(vec![0xA9, 0b0000_0001, 0x4A, 0x00]).unwrap();

    assert_eq!(cpu.register_a, 0);
    assert_eq!(cpu.status.carry, true);
    assert_eq!(cpu.status.negative, false);
    assert_eq!(cpu.status.zero, true);
}

#[test]
fn test_0x46_lsr_memory() {
    let mut cpu = CPU::test_new();

    cpu.mem_write(0x10, 0b0000_0011);
    cpu.load_and_run(vec![0x46, 0x10, 0x00]).unwrap();

    assert_eq!(cpu.mem_read(0x10), 0b0000_0001);
    assert_eq!(cpu.status.carry, true);
    assert_eq!(cpu.status.negative, false);
    assert_eq!(cpu.status.zero, false);
}

#[test]
fn test_rol_accumulator() {
    let mut cpu = CPU::test_new();

    cpu.load_and_run(vec![
        0xA9,
        0b0100_0001, // LDA #$41
        0x38,        // set carry
        0x2A,        // ROL (Accumulator)
        0x00,        // BRK
    ])
    .unwrap();
    assert_eq!(cpu.register_a, 0b1000_0011); // 0b1000_0010 + carry_in
    assert_eq!(cpu.status.carry, false); // old bit 7 was 0
}

#[test]
fn test_ror_accumulator() {
    let mut cpu = CPU::test_new();

    cpu.load_and_run(vec![
        0xA9,
        0b0000_0011, // LDA #$03
        0x18,        // clear carry
        0x6A,        // ROR (Accumulator)
        0x00,        // BRK
    ])
    .unwrap();
    assert_eq!(cpu.register_a, 0b0000_0001); // shifted right, carry in was 0
    assert_eq!(cpu.status.carry, true); // bit 0 was 1 → carry out
}
