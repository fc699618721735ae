//! The flag-clearing instructions.

use mos6502::{CpuFlags, CPU};

#[test]
fn test_clear_carry() {
    let mut cpu = CPU::new();
    cpu.set_carry_flag();

    assert!(cpu.is_set(CpuFlags::Carry));
    cpu.load(vec![0x18, 0x00]);
    cpu.register_a = 0;
    cpu.register_x = 0;
    cpu.register_y = 0;
    cpu.program_counter = cpu.mem_read_u16(0xFFFC);
    cpu.run();
    assert!(!cpu.is_set(CpuFlags::Carry));
}

#[test]
fn test_clear_decimal() {
    let mut cpu = CPU::new();
    cpu.set_decimal_mode();

    assert!(cpu.is_set(CpuFlags::DecimalMode));
    cpu.load(vec![0xD8, 0x00]);
    cpu.register_a = 0;
    cpu.register_x = 0;
    cpu.register_y = 0;
    cpu.program_counter = cpu.mem_read_u16(0xFFFC);
    cpu.run();
    assert!(!cpu.is_set(CpuFlags::DecimalMode));
}

#[test]
fn test_clear_interrupt() {
    let mut cpu = CPU::new();
    cpu.set_interupt_disable();

    assert!(cpu.is_set(CpuFlags::InterruptDisable));
    cpu.load(vec![0x58, 0x00]);
    cpu.register_a = 0;
    cpu.register_x = 0;
    cpu.register_y = 0;
    cpu.program_counter = cpu.mem_read_u16(0xFFFC);
    cpu.run();
    assert!(!cpu.is_set(CpuFlags::InterruptDisable));
}

#[test]
fn test_clear_overflow() {
    let mut cpu = CPU::new();
    cpu.set_overflow_flag();

    assert!(cpu.is_set(CpuFlags::Overflow));
    cpu.load(vec![0xB8, 0x00]);
    cpu.register_a = 0;
    cpu.register_x = 0;
    cpu.register_y = 0;
    cpu.program_counter = cpu.mem_read_u16(0xFFFC);
    cpu.run();
    assert!(!cpu.is_set(CpuFlags::Overflow));
}
