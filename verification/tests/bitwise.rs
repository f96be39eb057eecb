use mos6502::cpu::CPU;

#[test]
fn test_and_operation() {
    let mut cpu = CPU::test_new();

    cpu.register_a = 0b11001100;
    cpu.mem_write(0x0200, 0x25); // AND ZeroPage opcode
    cpu.mem_write(0x0201, 0x10); // Address $10
    cpu.mem_write(0x10, 0b10101010); // Value in memory
    cpu.program_counter = 0x0200;

    cpu.run().unwrap();

    assert_eq!(cpu.register_a, 0b10001000);
    assert_eq!(cpu.status.zero, false);
    assert_eq!(cpu.status.negative, true);
}

#[test]
fn test_or_operation() {
    let mut cpu = CPU::test_new();

    cpu.register_a = 0b11001100;
    cpu.mem_write(0x0200, 0x05); // ORA ZeroPage opcode
    cpu.mem_write(0x0201, 0x10); // Address $10
    cpu.mem_write(0x10, 0b10101010);
    cpu.program_counter = 0x0200;

    cpu.run().unwrap();

    assert_eq!(cpu.register_a, 0b11101110);
    assert_eq!(cpu.status.zero, false);
    assert_eq!(cpu.status.negative, true);
}

#[test]
fn test_xor_operation() {
    let mut cpu = CPU::test_new();

    cpu.register_a = 0b11001100;
    cpu.mem_write(0x0200, 0x45); // EOR ZeroPage opcode
    cpu.mem_write(0x0201, 0x10); // Address $10
    cpu.mem_write(0x10, 0b10101010);
    cpu.program_counter = 0x0200;

    cpu.run().unwrap();

    assert_eq!(cpu.register_a, 0b01100110);
    assert_eq!(cpu.status.zero, false);
    assert_eq!(cpu.status.negative, false);
}

#[test]
fn test_and_sets_zero_flag() {
    let mut cpu = CPU::test_new();

    cpu.register_a = 0b00001111;
    cpu.mem_write(0x0200, 0x25); // AND ZeroPage opcode
    cpu.mem_write(0x0201, 0x10);
    cpu.mem_write(0x10, 0b11110000);
    cpu.program_counter = 0x0200;

    cpu.run().unwrap();

    assert_eq!(cpu.register_a, 0);
    assert!(cpu.status.zero);
}

#[test]
fn test_eor_sets_negative_flag() {
    let mut cpu = CPU::test_new();

    cpu.register_a = 0b01010101;
    cpu.mem_write(0x0200, 0x45); // EOR ZeroPage opcode
    cpu.mem_write(0x0201, 0x10);
    cpu.mem_write(0x10, 0b10101010);
    cpu.program_counter = 0x0200;

    cpu.run().unwrap();

    assert_eq!(cpu.register_a, 0b11111111);
    assert!(cpu.status.negative);
}
