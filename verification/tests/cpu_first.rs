#![allow(unused_imports, unused_must_use, unused_variables, unused_mut)]
use nes_emulator::cpu::opcode::AddressingMode;
use nes_emulator::cpu::StatusFlag;
use nes_emulator::cpu::CPU;
use nes_emulator::mem::Memory;

#[test]
fn cpu_test_load_program() {
    let mut cpu = CPU::new();
    cpu.load(vec![0xa9, 0x05, 0x00]);
    assert_eq!(
        [cpu.mem_read_u8(0x0000), cpu.mem_read_u8(0x0001), cpu.mem_read_u8(0x0002)],
        [0xa9, 0x05, 0x00]
    );
}

#[test]
fn cpu_test_mem_write_and_read_u8() {
    let mut cpu = CPU::new();
    let addr: u16 = 0x0000;
    let data: u8 = 0xFF;
    assert!(cpu.mem_read_u8(addr) == 0);
    cpu.mem_write_u8(addr, data);
    assert!(cpu.mem_read_u8(addr) == data);
    let value = cpu.mem_read_u8(addr);
    assert_eq!(value, data);
}

#[test]
fn cpu_test_mem_write_and_read_u16() {
    let mut cpu = CPU::new();
    let addr: u16 = 0x0000;
    let data: u16 = 0x1234;
    cpu.mem_write_u16(addr, data);
    let value = cpu.mem_read_u16(addr);
    assert_eq!(value, data);
}

#[test]
fn cpu_test_0xa9_lda_immediate_load_data() {
    let mut cpu = CPU::new();
    cpu.load_and_run(vec![0xa9, 0x05, 0x00]);
    assert_eq!(cpu.reg_a, 0x05);
    assert!(cpu.status & 0b0000_0010 == 0b00);
    assert!(cpu.status & 0b1000_0000 == 0);
}

#[test]
fn cpu_test_0xa5_lda_zero_page() {
    let mut cpu = CPU::new();
    cpu.mem_write_u8(0x10, 0x55);
    cpu.load_and_run(vec![0xa5, 0x10, 0x00]);
    assert_eq!(cpu.reg_a, 0x55);
}

#[test]
fn test_0xa5_lda_zero_page_x() {
    let mut cpu = CPU::new();

    let ptr: u8 = 0x10;
    let offset: u8 = 0x10;
    let data: u8 = 0x55;

    cpu.mem_write_u8((ptr + offset) as u16, data);

    cpu.load(vec![0xb5, ptr, 0x00]);
    cpu.reset();

    cpu.reg_x = offset;
    cpu.run();

    assert_eq!(cpu.reg_a, data);
}

#[test]
fn test_0xa5_lda_absolute() {
    let mut cpu = CPU::new();
    cpu.mem_write_u8(0x1234, 0x55);
    cpu.load_and_run(vec![0xad, 0x34, 0x12, 0x00]);
    assert_eq!(cpu.reg_a, 0x55);
}

#[test]
fn test_0xa5_lda_absolute_x() {
    let mut cpu = CPU::new();
    cpu.mem_write_u8(0x1235, 0x55);
    cpu.load(vec![0xbd, 0x34, 0x12, 0x00]);
    cpu.reset();

    cpu.reg_x = 0x01; // Offset
    cpu.run();

    assert_eq!(cpu.reg_a, 0x55);
}

#[test]
fn test_0xa5_lda_absolute_y() {
    let mut cpu = CPU::new();
    cpu.mem_write_u8(0x1235, 0x55);
    cpu.load(vec![0xb9, 0x34, 0x12, 0x00]);
    cpu.reset();

    cpu.reg_y = 0x01; // Offset
    cpu.run();

    assert_eq!(cpu.reg_a, 0x55);
}

#[test]
fn test_0xa5_lda_indirect_x() {
    let mut cpu = CPU::new();

    let indir_ptr: u8 = 0x10;
    let ptr: u16 = 0x1234;
    let offset: u8 = 0x10;
    let data: u8 = 0x55;

    cpu.mem_write_u16((indir_ptr + offset) as u16, ptr);
    cpu.mem_write_u8(ptr, data);

    cpu.load(vec![0xa1, indir_ptr, 0x00]);
    cpu.reset();

    cpu.reg_x = offset;
    cpu.run();

    assert_eq!(cpu.reg_a, data);
}

#[test]
fn test_0xa5_lda_indirect_y() {
    let mut cpu = CPU::new();

    let indir_ptr: u8 = 0x10;
    let ptr: u16 = 0x1234;
    let offset: u8 = 0x10;
    let data: u8 = 0x55;

    cpu.mem_write_u16(indir_ptr as u16, ptr);
    cpu.mem_write_u8(ptr + offset as u16, data);

    cpu.load(vec![0xb1, indir_ptr, 0x00]);
    cpu.reset();

    cpu.reg_y = offset;
    cpu.run();

    assert_eq!(cpu.reg_a, data);
}

#[test]
fn cpu_test_0xa9_lda_zero_flag() {
    let mut cpu = CPU::new();
    cpu.load_and_run(vec![0xa9, 0x00, 0x00]);
    assert!(cpu.status & 0b0000_0010 == 0b10);
}

#[test]
fn cpu_test_0xa9_lda_neg_flag() {
    let mut cpu = CPU::new();
    cpu.load_and_run(vec![0xa9, 0xFF, 0x00]);
    assert!(cpu.status & 0b1000_0000 != 0);
}

#[test]
fn cpu_test_0xaa_tax_immediate_load_data() {
    let mut cpu = CPU::new();
    cpu.load(vec![0xaa, 0x00]);
    cpu.reg_a = 5;
    cpu.run();
    assert_eq!(cpu.reg_x, 0x05);
    assert!(cpu.status & 0b0000_0010 == 0b00);
    assert!(cpu.status & 0b1000_0000 == 0);
}

#[test]
fn cpu_test_0xaa_tax_zero_flag() {
    let mut cpu = CPU::new();
    cpu.load(vec![0xaa, 0x00]);
    cpu.reg_a = 0;
    cpu.run();
    assert!(cpu.status & 0b0000_0010 == 0b10);
}

#[test]
fn cpu_test_0xaa_tax_neg_flag() {
    let mut cpu = CPU::new();
    cpu.load(vec![0xaa, 0x00]);
    cpu.reg_a = 255;
    cpu.run();
    assert!(cpu.status & 0b1000_0000 != 0);
}

#[test]
fn cpu_test_inx_overflow() {
    let mut cpu = CPU::new();
    cpu.load(vec![0xe8, 0xe8, 0x00]);
    cpu.reg_x = 0xff;
    cpu.run();
    assert_eq!(cpu.reg_x, 1)
}

#[test]
fn cpu_test_5_ops_working_together() {
    let mut cpu = CPU::new();
    cpu.load_and_run(vec![0xa9, 0xc0, 0xaa, 0xe8, 0x00]);

    assert_eq!(cpu.reg_x, 0xc1)
}
