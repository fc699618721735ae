//! Load, transfer, increment and store instructions, driven through
//! whole programs.

use mos6502::CPU;

#[test]
fn test_0xa9_lda_immidiate_load_data() {
    let mut cpu = CPU::new();
    cpu.load_and_run(vec![0xa9, 0x05, 0x00]);
    assert_eq!(cpu.register_a, 0x05);
    assert!(cpu.status & 0b0000_0010 == 0b00);
    assert!(cpu.status & 0b1000_0000 == 0);
}

#[test]
fn test_0xa9_lda_zero_flag() {
    let mut cpu = CPU::new();
    cpu.load_and_run(vec![0xa9, 0x00, 0x00]);
    assert!(cpu.status & 0b0000_0010 == 0b10);
}

#[test]
fn test_0xaa_tax_move_a_to_x() {
    let mut cpu = CPU::new();
    cpu.load_and_run(vec![0xa9, 0x0A, 0xaa, 0x00]);

    assert_eq!(cpu.register_x, 10)
}

#[test]
fn test_tax_status_zero() {
    let mut cpu = CPU::new();
    cpu.load_and_run(vec![0xa9, 0x00, 0xaa, 0x00]);

    assert_eq!(cpu.register_x, 0);
    assert!(cpu.status & 0b0000_0010 == 0b10);
    assert!(cpu.status & 0b1000_0000 == 0);
}

#[test]
fn test_tax_status_negative() {
    let mut cpu = CPU::new();
    cpu.load_and_run(vec![0xa9, 0xFF, 0xaa, 0x00]);

    assert_eq!(cpu.register_x, 0xFF);
    assert!(cpu.status & 0b0000_0010 == 0b00);
    assert!(cpu.status & 0b1000_0000 == 0b1000_0000);
}

#[test]
fn test_0xaa_tay_move_a_to_y() {
    let mut cpu = CPU::new();
    cpu.load_and_run(vec![0xa9, 0x0A, 0xa8, 0x00]);

    assert_eq!(cpu.register_y, 10)
}

#[test]
fn test_tay_status_zero() {
    let mut cpu = CPU::new();
    cpu.load_and_run(vec![0xa9, 0x00, 0xa8, 0x00]);

    assert_eq!(cpu.register_y, 0);
    assert!(cpu.status & 0b0000_0010 == 0b10);
    assert!(cpu.status & 0b1000_0000 == 0);
}

#[test]
fn test_tay_status_negative() {
    let mut cpu = CPU::new();
    cpu.load_and_run(vec![0xa9, 0xFF, 0xa8, 0x00]);

    assert_eq!(cpu.register_y, 0xFF);
    assert!(cpu.status & 0b0000_0010 == 0b00);
    assert!(cpu.status & 0b1000_0000 == 0b1000_0000);
}

#[test]
fn test_5_ops_working_together() {
    let mut cpu = CPU::new();
    cpu.load_and_run(vec![0xa9, 0xc0, 0xaa, 0xe8, 0x00]);

    assert_eq!(cpu.register_x, 0xc1)
}

#[test]
fn test_inx_overflow() {
    let mut cpu = CPU::new();
    cpu.load_and_run(vec![0xa9, 0xff, 0xaa, 0xe8, 0xe8, 0x00]);

    assert_eq!(cpu.register_x, 1)
}

#[test]
fn test_lda_from_memory() {
    let mut cpu = CPU::new();
    cpu.mem_write(0x10, 0x55);

    cpu.load_and_run(vec![0xa5, 0x10, 0x00]);

    assert_eq!(cpu.register_a, 0x55);
}

#[test]
fn test_lda_b5() {
    let mut cpu = CPU::new();
    cpu.mem_write(0x10, 0x55);

    cpu.load_and_run(vec![0xa9, 0x01, 0xaa, 0xb5, 0x0f, 0x00]);

    assert_eq!(cpu.register_a, 0x55);
}

#[test]
fn test_lda_ad() {
    let mut cpu = CPU::new();
    cpu.mem_write_u16(0x1000, 0x55);

    cpu.load_and_run(vec![0xad, 0x00, 0x10, 0x00]);

    assert_eq!(cpu.register_a, 0x55);
}

#[test]
fn test_lda_bd() {
    let mut cpu = CPU::new();
    cpu.mem_write_u16(0x1000, 0x55);

    cpu.load_and_run(vec![0xa9, 0x01, 0xaa, 0xbd, 0xff, 0x0f, 0x00]);

    assert_eq!(cpu.register_a, 0x55);
}

#[test]
fn test_lda_b9() {
    let mut cpu = CPU::new();
    cpu.mem_write_u16(0x1000, 0x55);

    cpu.load_and_run(vec![0xa9, 0x01, 0xa8, 0xb9, 0xff, 0x0f, 0x00]);

    assert_eq!(cpu.register_a, 0x55);
}

#[test]
fn test_lda_a1() {
    let mut cpu = CPU::new();
    cpu.mem_write_u16(0x10, 0xCCCC);
    cpu.mem_write_u16(0xCCCC, 0x0a);

    cpu.load_and_run(vec![0xa9, 0x01, 0xaa, 0xa1, 0x0f, 0x00]);

    assert_eq!(cpu.register_a, 0x0a);
}

#[test]
fn test_lda_b1() {
    let mut cpu = CPU::new();
    cpu.mem_write_u16(0x10, 0xCCCB);
    cpu.mem_write_u16(0xCCCC, 0x0a);

    cpu.load_and_run(vec![0xa9, 0x01, 0xa8, 0xb1, 0x10, 0x00]);

    assert_eq!(cpu.register_a, 0x0a);
}

#[test]
fn test_sta_85() {
    let mut cpu = CPU::new();
    cpu.load_and_run(vec![0xa9, 0x0a, 0x85, 0xFF, 0x00]);

    let value = cpu.mem_read(0xFF);

    assert_eq!(value, 0x0a);
}

#[test]
fn test_sta_95() {
    let mut cpu = CPU::new();
    cpu.load_and_run(vec![0xa9, 0x01, 0xaa, 0xa9, 0x0a, 0x95, 0xFE, 0x00]);

    let value = cpu.mem_read(0xFF);

    assert_eq!(value, 0x0a);
}

#[test]
fn test_sta_8d() {
    let mut cpu = CPU::new();
    cpu.load_and_run(vec![0xa9, 0x0a, 0x8D, 0xFF, 0x10, 0x00]);

    let value = cpu.mem_read(0x10FF);

    assert_eq!(value, 0x0a);
}

#[test]
fn test_sta_9d() {
    let mut cpu = CPU::new();
    cpu.load_and_run(vec![0xa9, 0x01, 0xaa, 0xa9, 0x0a, 0x9D, 0xFE, 0x10, 0x00]);

    let value = cpu.mem_read_u16(0x10FF);

    assert_eq!(value, 0x0a);
}

#[test]
fn test_sta_99() {
    let mut cpu = CPU::new();
    cpu.load_and_run(vec![0xa9, 0x01, 0xa8, 0xa9, 0x0a, 0x99, 0xFE, 0x10, 0x00]);

    let value = cpu.mem_read_u16(0x10FF);

    assert_eq!(value, 0x0a);
}

#[test]
fn test_sta_81() {
    let mut cpu = CPU::new();
    cpu.mem_write_u16(0x10, 0xCCCC);
    cpu.load_and_run(vec![0xa9, 0x01, 0xaa, 0xa9, 0x0a, 0x81, 0x0F, 0x00]);

    let value = cpu.mem_read_u16(0xCCCC);

    assert_eq!(value, 0x0a);
}

#[test]
fn test_sta_91() {
    let mut cpu = CPU::new();
    cpu.mem_write_u16(0x10, 0xCCCB);
    cpu.load_and_run(vec![0xa9, 0x01, 0xa8, 0xa9, 0x0a, 0x91, 0x10, 0x00]);

    let value = cpu.mem_read_u16(0xCCCC);

    assert_eq!(value, 0x0a);
}
