use mos6502::cpu::CPU;

#[test]
fn test_0xee_inc_absolute() {
    let mut cpu = CPU::test_new();

    cpu.mem_write_u16(0x0010, 0x05);
    cpu.load_and_run(vec![0xee, 0x10, 0x00, 0x00]).unwrap();

    assert_eq!(cpu.mem_read_u16(0x0010), 6);
}

#[test]
fn test_0xce_dec_absolute() {
    let mut cpu = CPU::test_new();

    cpu.mem_write_u16(0x0010, 0x05);
    cpu.load_and_run(vec![0xce, 0x10, 0x00, 0x00]).unwrap();

    assert_eq!(cpu.mem_read_u16(0x0010), 4);
}

#[test]
fn test_0xce_dec_zero_flag() {
    let mut cpu = CPU::test_new();

    cpu.status.zero = false;

    cpu.mem_write_u16(0x0010, 0x01);
    cpu.load_and_run(vec![0xce, 0x10, 0x00, 0x00]).unwrap();

    assert_eq!(cpu.mem_read_u16(0x0010), 0);
    assert!(cpu.status.zero);
}

#[test]
fn test_0xce_dec_negative_flag() {
    let mut cpu = CPU::test_new();

    cpu.status.negative = false;

    cpu.mem_write_u16(0x0010, 0x00);
    cpu.load_and_run(vec![0xce, 0x10, 0x00, 0x00]).unwrap();

    assert_eq!(cpu.mem_read_u16(0x0010), 0xff);
    assert!(cpu.status.negative);
}

#[test]
fn inc_dec_test_inx_overflow() {
    let mut cpu = CPU::test_new();

    cpu.load_and_run(vec![0xa9, 0xff, 0xaa, 0xe8, 0xe8, 0x00]).unwrap();

    assert_eq!(cpu.register_x, 1)
}

#[test]
fn test_0xe8_inx() {
    let mut cpu = CPU::test_new();

    cpu.load_and_run(vec![0xe8, 0x00]).unwrap();

    assert_eq!(cpu.register_x, 1)
}

#[test]
fn test_0xc8_iny() {
    let mut cpu = CPU::test_new();

    cpu.load_and_run(vec![0xc8, 0x00]).unwrap();

    assert_eq!(cpu.register_y, 1)
}

#[test]
fn test_0x88_dey() {
    let mut cpu = CPU::test_new();

    cpu.load_and_run(vec![0xc8, 0x88, 0x00]).unwrap();

    assert_eq!(cpu.register_y, 0)
}

#[test]
fn test_0xca_dex() {
    let mut cpu = CPU::test_new();

    cpu.load_and_run(vec![0xe8, 0xca, 0x00]).unwrap();

    assert_eq!(cpu.register_x, 0)
}
