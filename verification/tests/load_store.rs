use mos6502::cpu::CPU;

#[test]
fn load_store_test_0xa9_lda_immediate_load_data() {
    let mut cpu = CPU::new();
    cpu.load_and_run(vec![0xa9, 0x05, 0x00]).unwrap();
    assert_eq!(cpu.register_a, 5);
    assert!(cpu.status.zero == false);
    assert!(cpu.status.negative == false);
}

#[test]
fn load_store_test_0xa9_lda_zero_flag() {
    let mut cpu = CPU::new();
    cpu.load_and_run(vec![0xa9, 0x00, 0x00]).unwrap();
    assert!(cpu.status.zero == true);
}

#[test]
fn load_store_test_lda_from_memory() {
    let mut cpu = CPU::new();
    cpu.mem_write(0x10, 0x55);

    cpu.load_and_run(vec![0xa5, 0x10, 0x00]).unwrap();

    assert_eq!(cpu.register_a, 0x55);
}

#[test]
fn test_0xa2_ldx_immediate_load_data() {
    let mut cpu = CPU::new();
    cpu.load_and_run(vec![0xa2, 0x05, 0x00]).unwrap();
    assert_eq!(cpu.register_x, 5);
    assert!(cpu.status.zero == false);
    assert!(cpu.status.negative == false);
}

#[test]
fn test_0xa0_ldy_immediate_load_data() {
    let mut cpu = CPU::new();
    cpu.load_and_run(vec![0xa0, 0x05, 0x00]).unwrap();
    assert_eq!(cpu.register_y, 5);
    assert!(cpu.status.zero == false);
    assert!(cpu.status.negative == false);
}

#[test]
fn test_0x85_sta_zero_page() {
    let mut cpu = CPU::new();
    cpu.load_and_run(vec![0xa9, 0x05, 0x85, 0x08, 0x00]).unwrap();

    assert_eq!(cpu.register_a, 5);
    assert_eq!(cpu.mem_read(0x08), 5)
}

#[test]
fn test_0x86_stx_zero_page() {
    let mut cpu = CPU::new();
    cpu.load_and_run(vec![0xa2, 0x05, 0x86, 0x08, 0x00]).unwrap();

    assert_eq!(cpu.register_x, 5);
    assert_eq!(cpu.mem_read(0x08), 5)
}

#[test]
fn test_0x84_sty_zero_page() {
    let mut cpu = CPU::new();
    cpu.load_and_run(vec![0xa0, 0x05, 0x84, 0x08, 0x00]).unwrap();

    assert_eq!(cpu.register_y, 5);
    assert_eq!(cpu.mem_read(0x08), 5)
}
