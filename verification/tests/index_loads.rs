//! Loads into the X and Y index registers.

use mos6502::CPU;

#[test]
fn test_ldx_a2() {
    let mut cpu = CPU::new();
    cpu.load_and_run(vec![0xa2, 0x10, 0x00]);

    assert_eq!(cpu.register_x, 0x10);
}

#[test]
fn test_ldx_a6() {
    let mut cpu = CPU::new();
    cpu.mem_write(0x10, 0x55);

    cpu.load_and_run(vec![0xa6, 0x10, 0x00]);

    assert_eq!(cpu.register_x, 0x55);
}

#[test]
fn test_ldx_b6() {
    let mut cpu = CPU::new();
    cpu.mem_write(0x10, 0x55);

    cpu.load_and_run(vec![0xa9, 0x01, 0xa8, 0xb6, 0x0f, 0x00]);

    assert_eq!(cpu.register_x, 0x55);
}

#[test]
fn test_ldx_ae() {
    let mut cpu = CPU::new();
    cpu.mem_write_u16(0x1000, 0x55);

    cpu.load_and_run(vec![0xae, 0x00, 0x10, 0x00]);

    assert_eq!(cpu.register_x, 0x55);
}

#[test]
fn test_ldx_be() {
    let mut cpu = CPU::new();
    cpu.mem_write_u16(0x1000, 0x55);

    cpu.load_and_run(vec![0xa9, 0x01, 0xa8, 0xbe, 0xff, 0x0f, 0x00]);

    assert_eq!(cpu.register_x, 0x55);
}

#[test]
fn test_ldy_a0() {
    let mut cpu = CPU::new();
    cpu.load_and_run(vec![0xa0, 0x10, 0x00]);

    assert_eq!(cpu.register_y, 0x10);
}

#[test]
fn test_ldy_a4() {
    let mut cpu = CPU::new();
    cpu.mem_write(0x10, 0x55);

    cpu.load_and_run(vec![0xa4, 0x10, 0x00]);

    assert_eq!(cpu.register_y, 0x55);
}

#[test]
fn test_ldy_b4() {
    let mut cpu = CPU::new();
    cpu.mem_write(0x10, 0x55);

    cpu.load_and_run(vec![0xa9, 0x01, 0xaa, 0xb4, 0x0f, 0x00]);

    assert_eq!(cpu.register_y, 0x55);
}

#[test]
fn test_ldy_ac() {
    let mut cpu = CPU::new();
    cpu.mem_write_u16(0x1000, 0x55);

    cpu.load_and_run(vec![0xac, 0x00, 0x10, 0x00]);

    assert_eq!(cpu.register_y, 0x55);
}

#[test]
fn test_ldy_bc() {
    let mut cpu = CPU::new();
    cpu.mem_write_u16(0x1000, 0x55);

    cpu.load_and_run(vec![0xa9, 0x01, 0xaa, 0xbc, 0xff, 0x0f, 0x00]);

    assert_eq!(cpu.register_y, 0x55);
}
