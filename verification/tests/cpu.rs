use mos6502::cpu::CPU;

#[test]
fn cpu_test_0xa9_lda_immediate_load_data() {
    let mut cpu = CPU::new();
    cpu.load_and_run(vec![0xa9, 0x05, 0x00]).unwrap();
    assert_eq!(cpu.register_a, 5);
    assert!(cpu.status.zero == false);
    assert!(cpu.status.negative == false);
}

#[test]
fn cpu_test_0xa9_lda_zero_flag() {
    let mut cpu = CPU::new();
    cpu.load_and_run(vec![0xa9, 0x00, 0x00]).unwrap();
    assert!(cpu.status.zero == true);
}

#[test]
fn cpu_test_0x69_adc_immediate() {
    let mut cpu = CPU::new();
    cpu.load_and_run(vec![0x69, 0x05, 0x00]).unwrap();
    assert_eq!(cpu.register_a, 5);
    assert!(!cpu.status.carry);
    assert!(!cpu.status.overflow);
}

#[test]
fn cpu_test_0x69_adc_immediate_with_carry() {
    let mut cpu = CPU::new();
    cpu.load_and_run(vec![0xa9, 0xFA, 0x69, 0x0A, 0x00]).unwrap();
    assert_eq!(cpu.register_a, 4);
    assert!(cpu.status.carry);
}

#[test]
fn cpu_test_0x69_adc_immediate_with_overflow() {
    let mut cpu = CPU::new();
    cpu.load_and_run(vec![0xa9, 0x64, 0x69, 0x32, 0x00]).unwrap();
    assert_eq!(cpu.register_a, 150);
    assert!(cpu.status.overflow);
}

#[test]
fn cpu_test_0xaa_tax_move_a_to_x() {
    let mut cpu = CPU::new();
    cpu.load_and_run(vec![0xa9, 0x0A, 0xaa, 0x00]).unwrap();

    assert_eq!(cpu.register_x, 10)
}

#[test]
fn cpu_test_5_ops_working_together() {
    let mut cpu = CPU::new();
    cpu.load_and_run(vec![0xa9, 0xc0, 0xaa, 0xe8, 0x00]).unwrap();

    assert_eq!(cpu.register_x, 0xc1)
}

#[test]
fn test_5_ops_working_together() {
    let mut cpu = CPU::test_new();
    cpu.load_and_run(vec![0xa9, 0xc0, 0xaa, 0xe8, 0x00]).unwrap();
    assert_eq!(cpu.register_x, 0xc1)
}

#[test]
fn cpu_test_inx_overflow() {
    let mut cpu = CPU::new();
    cpu.load_and_run(vec![0xa9, 0xff, 0xaa, 0xe8, 0xe8, 0x00]).unwrap();

    assert_eq!(cpu.register_x, 1)
}

#[test]
fn cpu_test_lda_from_memory() {
    let mut cpu = CPU::new();
    cpu.mem_write(0x10, 0x55);

    cpu.load_and_run(vec![0xa5, 0x10, 0x00]).unwrap();

    assert_eq!(cpu.register_a, 0x55);
}

#[test]
fn cpu_test_jmp_absolute() {
    let mut cpu = CPU::new();
    cpu.load_and_run(vec![0x4C, 0x34, 0x12, 0x00]).unwrap();

    assert_eq!(cpu.program_counter - 1, 0x1234);
}

#[test]
fn cpu_test_jmp_indirect() {
    let mut cpu = CPU::new();

    cpu.mem_write_u16(0x2000, 0x1234);

    cpu.load_and_run(vec![0x6C, 0x00, 0x20, 0x00]).unwrap();

    println!("pos: {}", cpu.program_counter);

    assert_eq!(cpu.program_counter - 1, 0x1234);
}
