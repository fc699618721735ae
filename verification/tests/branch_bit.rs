//! Conditional branches and the bit-test instruction.

use mos6502::{CpuFlags, CPU};

#[test]
fn tets_branch_true() {
    let mut cpu = CPU::new();
    cpu.program_counter = 0x8000;

    cpu.mem_write(cpu.program_counter, 0x81);

    cpu.branch(true);

    assert_eq!(cpu.program_counter, 0x8000 - 0x7F + 1);
}

#[test]
fn test_branch_false() {
    let mut cpu = CPU::new();
    cpu.program_counter = 0x8000;

    cpu.mem_write(cpu.program_counter, 0x81);

    cpu.branch(false);

    assert_eq!(cpu.program_counter, 0x8000);
}

#[test]
fn test_bcc_false() {
    let mut cpu = CPU::new();
    cpu.mem_write(0x10, 0x80);
    cpu.mem_write(0x800d, 0xa9);
    cpu.mem_write(0x800e, 0xff);
    cpu.mem_write_u16(0x800f, 0x00);
    cpu.load_and_run(vec![0x06, 0x10, 0x90, 0x0a, 0x00]);

    assert_ne!(cpu.register_a, 0xff);
    assert_eq!(cpu.program_counter, 0x8005);
}

#[test]
fn test_bcc_true() {
    let mut cpu = CPU::new();
    cpu.mem_write(0x10, 0x70);
    cpu.mem_write(0x800d, 0xa9);
    cpu.mem_write(0x800e, 0xff);
    cpu.mem_write_u16(0x800f, 0x00);
    cpu.load_and_run(vec![0x06, 0x10, 0x90, 0x09, 0x00]);

    assert_eq!(cpu.register_a, 0xff);
    assert_eq!(cpu.program_counter, 0x8010);
}

#[test]
fn test_bcs_true() {
    let mut cpu = CPU::new();
    cpu.mem_write(0x10, 0x80);
    cpu.mem_write(0x800d, 0xa9);
    cpu.mem_write(0x800e, 0xff);
    cpu.mem_write_u16(0x800f, 0x00);
    cpu.load_and_run(vec![0x06, 0x10, 0xb0, 0x09, 0x00]);

    assert_eq!(cpu.register_a, 0xff);
    assert_eq!(cpu.program_counter, 0x8010);
}

#[test]
fn test_bcs_false() {
    let mut cpu = CPU::new();
    cpu.mem_write(0x10, 0x70);
    cpu.mem_write(0x800d, 0xa9);
    cpu.mem_write(0x800e, 0xff);
    cpu.mem_write_u16(0x800f, 0x00);
    cpu.load_and_run(vec![0x06, 0x10, 0xb0, 0x09, 0x00]);

    assert_ne!(cpu.register_a, 0xff);
    assert_eq!(cpu.program_counter, 0x8005);
}

#[test]
fn test_beq_true() {
    let mut cpu = CPU::new();
    cpu.mem_write(0x10, 0x80);
    cpu.mem_write(0x800d, 0xa9);
    cpu.mem_write(0x800e, 0xff);
    cpu.mem_write_u16(0x800f, 0x00);
    cpu.load_and_run(vec![0x06, 0x10, 0xf0, 0x09, 0x00]);

    assert_eq!(cpu.register_a, 0xff);
    assert_eq!(cpu.program_counter, 0x8010);
}

#[test]
fn test_beq_false() {
    let mut cpu = CPU::new();
    cpu.mem_write(0x10, 0x70);
    cpu.mem_write(0x800d, 0xa9);
    cpu.mem_write(0x800e, 0xff);
    cpu.mem_write_u16(0x800f, 0x00);
    cpu.load_and_run(vec![0x06, 0x10, 0xf0, 0x09, 0x00]);

    assert_ne!(cpu.register_a, 0xff);
    assert_eq!(cpu.program_counter, 0x8005);
}

#[test]
fn test_bit_24_zero() {
    let mut cpu = CPU::new();
    cpu.mem_write(0x10, 0b0101_0101);
    cpu.load_and_run(vec![0xa9, 0b1010_1010, 0x24, 0x10, 0x00]);

    assert!(cpu.is_set(CpuFlags::Zero));
    assert!(!cpu.is_set(CpuFlags::Overflow));
    assert!(!cpu.is_set(CpuFlags::Negative));
}

#[test]
fn test_bit_24_overflow() {
    let mut cpu = CPU::new();
    cpu.mem_write(0x10, 0b0101_0101);
    cpu.load_and_run(vec![0xa9, 0b0111_1111, 0x24, 0x10, 0x00]);

    assert!(!cpu.is_set(CpuFlags::Zero));
    assert!(cpu.is_set(CpuFlags::Overflow));
    assert!(!cpu.is_set(CpuFlags::Negative));
}

#[test]
fn test_bit_24_negative() {
    let mut cpu = CPU::new();
    cpu.mem_write(0x10, 0b1101_0101);
    cpu.load_and_run(vec![0xa9, 0b1011_1111, 0x24, 0x10, 0x00]);

    assert!(!cpu.is_set(CpuFlags::Zero));
    assert!(!cpu.is_set(CpuFlags::Overflow));
    assert!(cpu.is_set(CpuFlags::Negative));
}

#[test]
fn test_bit_2c_zero() {
    let mut cpu = CPU::new();
    cpu.mem_write(0x1000, 0b0101_0101);
    cpu.load_and_run(vec![0xa9, 0b1010_1010, 0x2c, 0x00, 0x10, 0x00]);

    assert!(cpu.is_set(CpuFlags::Zero));
    assert!(!cpu.is_set(CpuFlags::Overflow));
    assert!(!cpu.is_set(CpuFlags::Negative));
}

#[test]
fn test_bit_2c_overflow() {
    let mut cpu = CPU::new();
    cpu.mem_write(0x1000, 0b0101_0101);
    cpu.load_and_run(vec![0xa9, 0b0111_1111, 0x2c, 0x00, 0x10, 0x00]);

    assert!(!cpu.is_set(CpuFlags::Zero));
    assert!(cpu.is_set(CpuFlags::Overflow));
    assert!(!cpu.is_set(CpuFlags::Negative));
}

#[test]
fn test_bit_2c_negative() {
    let mut cpu = CPU::new();
    cpu.mem_write(0x1000, 0b1101_0101);
    cpu.load_and_run(vec![0xa9, 0b1011_1111, 0x2c, 0x00, 0x10, 0x00]);

    assert!(!cpu.is_set(CpuFlags::Zero));
    assert!(!cpu.is_set(CpuFlags::Overflow));
    assert!(cpu.is_set(CpuFlags::Negative));
}

#[test]
fn test_bmi_true() {
    let mut cpu = CPU::new();
    cpu.mem_write(0x10, 0x70);
    cpu.mem_write(0x800d, 0xa9);
    cpu.mem_write(0x800e, 0xff);
    cpu.mem_write_u16(0x800f, 0x00);
    cpu.load_and_run(vec![0x06, 0x10, 0x30, 0x09, 0x00]);

    assert_eq!(cpu.register_a, 0xff);
    assert_eq!(cpu.program_counter, 0x8010);
}

#[test]
fn test_bmi_false() {
    let mut cpu = CPU::new();
    cpu.mem_write(0x10, 0x80);
    cpu.mem_write(0x800d, 0xa9);
    cpu.mem_write(0x800e, 0xff);
    cpu.mem_write_u16(0x800f, 0x00);
    cpu.load_and_run(vec![0x06, 0x10, 0x30, 0x09, 0x00]);

    assert_ne!(cpu.register_a, 0xff);
    assert_eq!(cpu.program_counter, 0x8005);
}

#[test]
fn test_bne_true() {
    let mut cpu = CPU::new();
    cpu.mem_write(0x10, 0x70);
    cpu.mem_write(0x800d, 0xa9);
    cpu.mem_write(0x800e, 0xff);
    cpu.mem_write_u16(0x800f, 0x00);
    cpu.load_and_run(vec![0x06, 0x10, 0xd0, 0x09, 0x00]);

    assert_eq!(cpu.register_a, 0xff);
    assert_eq!(cpu.program_counter, 0x8010);
}

#[test]
fn test_bne_false() {
    let mut cpu = CPU::new();
    cpu.mem_write(0x10, 0x80);
    cpu.mem_write(0x800d, 0xa9);
    cpu.mem_write(0x800e, 0xff);
    cpu.mem_write_u16(0x800f, 0x00);
    cpu.load_and_run(vec![0x06, 0x10, 0xd0, 0x09, 0x00]);

    assert_ne!(cpu.register_a, 0xff);
    assert_eq!(cpu.program_counter, 0x8005);
}

#[test]
fn test_bpl_true() {
    let mut cpu = CPU::new();
    cpu.mem_write(0x10, 0x10);
    cpu.mem_write(0x800d, 0xa9);
    cpu.mem_write(0x800e, 0xff);
    cpu.mem_write_u16(0x800f, 0x00);
    cpu.load_and_run(vec![0x06, 0x10, 0x10, 0x09, 0x00]);

    assert_eq!(cpu.register_a, 0xff);
    assert_eq!(cpu.program_counter, 0x8010);
}

#[test]
fn test_bpl_false() {
    let mut cpu = CPU::new();
    cpu.mem_write(0x10, 0x70);
    cpu.mem_write(0x800d, 0xa9);
    cpu.mem_write(0x800e, 0xff);
    cpu.mem_write_u16(0x800f, 0x00);
    cpu.load_and_run(vec![0x06, 0x10, 0x10, 0x09, 0x00]);

    assert_ne!(cpu.register_a, 0xff);
    assert_eq!(cpu.program_counter, 0x8005);
}

#[test]
fn test_bvc_true() {
    let mut cpu = CPU::new();
    cpu.mem_write(0x10, 0b0101_0101);
    cpu.mem_write(0x800d, 0xa9);
    cpu.mem_write(0x800e, 0xff);
    cpu.mem_write_u16(0x800f, 0x00);
    cpu.load_and_run(vec![0xa9, 0b0011_1111, 0x24, 0x10, 0x50, 0x07, 0x00]);

    assert_eq!(cpu.register_a, 0xff);
    assert_eq!(cpu.program_counter, 0x8010);
}

#[test]
fn test_bvc_false() {
    let mut cpu = CPU::new();
    cpu.mem_write(0x10, 0b0101_0101);
    cpu.mem_write(0x800d, 0xa9);
    cpu.mem_write(0x800e, 0xff);
    cpu.mem_write_u16(0x800f, 0x00);
    cpu.load_and_run(vec![0xa9, 0b0111_1111, 0x24, 0x10, 0x50, 0x07, 0x00]);

    assert_ne!(cpu.register_a, 0xff);
    assert_eq!(cpu.program_counter, 0x8007);
}

#[test]
fn test_bvs_true() {
    let mut cpu = CPU::new();
    cpu.mem_write(0x10, 0b0101_0101);
    cpu.mem_write(0x800d, 0xa9);
    cpu.mem_write(0x800e, 0xff);
    cpu.mem_write_u16(0x800f, 0x00);
    cpu.load_and_run(vec![0xa9, 0b0111_1111, 0x24, 0x10, 0x70, 0x07, 0x00]);

    assert_eq!(cpu.register_a, 0xff);
    assert_eq!(cpu.program_counter, 0x8010);
}

#[test]
fn test_bvs_false() {
    let mut cpu = CPU::new();
    cpu.mem_write(0x10, 0b0101_0101);
    cpu.mem_write(0x800d, 0xa9);
    cpu.mem_write(0x800e, 0xff);
    cpu.mem_write_u16(0x800f, 0x00);
    cpu.load_and_run(vec![0xa9, 0b0011_1111, 0x24, 0x10, 0x70, 0x07, 0x00]);

    assert_ne!(cpu.register_a, 0xff);
    assert_eq!(cpu.program_counter, 0x8007);
}
