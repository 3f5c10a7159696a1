#![allow(unused_imports, unused_must_use, unused_variables, unused_mut)]
use nes_emulator::cpu::opcode::AddressingMode;
use nes_emulator::cpu::StatusFlag;
use nes_emulator::cpu::CPU;
use nes_emulator::mem::Memory;
use nes_emulator::cpu::opcode::status_flag_changes::clc;
use nes_emulator::cpu::opcode::status_flag_changes::cld;
use nes_emulator::cpu::opcode::status_flag_changes::cli;
use nes_emulator::cpu::opcode::status_flag_changes::clv;
use nes_emulator::cpu::opcode::status_flag_changes::sec;
use nes_emulator::cpu::opcode::status_flag_changes::sed;
use nes_emulator::cpu::opcode::status_flag_changes::sei;

#[test]
fn test_clc() {
    let mut cpu = CPU::new();
    cpu.status |= StatusFlag::Carry.mask();
    clc(&mut cpu, AddressingMode::NoneAddressing);
    assert_eq!(cpu.status & (StatusFlag::Carry.mask()), 0);
}

#[test]
fn test_cld() {
    let mut cpu = CPU::new();
    cpu.status |= StatusFlag::Decimal.mask();
    cld(&mut cpu, AddressingMode::NoneAddressing);
    assert_eq!(cpu.status & (StatusFlag::Decimal.mask()), 0);
}

#[test]
fn test_cli() {
    let mut cpu = CPU::new();
    cpu.status |= StatusFlag::InterruptDisable.mask();
    cli(&mut cpu, AddressingMode::NoneAddressing);
    assert_eq!(cpu.status & (StatusFlag::InterruptDisable.mask()), 0);
}

#[test]
fn test_clv() {
    let mut cpu = CPU::new();
    cpu.status |= StatusFlag::Overflow.mask();
    clv(&mut cpu, AddressingMode::NoneAddressing);
    assert_eq!(cpu.status & (StatusFlag::Overflow.mask()), 0);
}

#[test]
fn test_sec() {
    let mut cpu = CPU::new();
    sec(&mut cpu, AddressingMode::NoneAddressing);
    assert_ne!(cpu.status & (StatusFlag::Carry.mask()), 0);
}

#[test]
fn test_sed() {
    let mut cpu = CPU::new();
    sed(&mut cpu, AddressingMode::NoneAddressing);
    assert_ne!(cpu.status & (StatusFlag::Decimal.mask()), 0);
}

#[test]
fn test_sei() {
    let mut cpu = CPU::new();
    sei(&mut cpu, AddressingMode::NoneAddressing);
    assert_ne!(cpu.status & (StatusFlag::InterruptDisable.mask()), 0);
}
