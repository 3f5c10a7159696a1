#![allow(unused_must_use)]
use nes_emulator::cpu::opcode::arithmetic::adc;
use nes_emulator::cpu::opcode::arithmetic::sbc;
use nes_emulator::cpu::opcode::increment_decrements::dec;
use nes_emulator::cpu::opcode::jumps::jsr;
use nes_emulator::cpu::opcode::jumps::rts;
use nes_emulator::cpu::opcode::load_store::lda;
use nes_emulator::cpu::opcode::rmw::dcp;
use nes_emulator::cpu::opcode::shifts::asl;
use nes_emulator::cpu::opcode::AddressingMode;
use nes_emulator::cpu::opcode::OP;
use nes_emulator::cpu::StatusFlag;
use nes_emulator::cpu::CPU;
use nes_emulator::mem::bus::Bus;
use nes_emulator::mem::rom::Mirroring;
use nes_emulator::mem::rom::Rom;
use nes_emulator::mem::Memory;
use nes_emulator::ppu::PPU;
use nes_emulator::utils::set_bit;

#[test]
fn zero_and_negative_follow_the_result() {
    let mut cpu = CPU::new();
    cpu.pc = 0x0600;
    cpu.mem_write_u8(0x0600, 0x80);
    assert_eq!(lda(&mut cpu, AddressingMode::Immediate), Ok(()));
    assert!(cpu.get_flag(StatusFlag::Negative));
    assert!(!cpu.get_flag(StatusFlag::Zero));

    cpu.pc = 0x0600;
    cpu.mem_write_u8(0x0600, 0x00);
    assert_eq!(lda(&mut cpu, AddressingMode::Immediate), Ok(()));
    assert!(!cpu.get_flag(StatusFlag::Negative));
    assert!(cpu.get_flag(StatusFlag::Zero));

    // A memory result: DEC $10 with $10 = 1 stores 0.
    cpu.pc = 0x0600;
    cpu.mem_write_u8(0x0600, 0x10);
    cpu.mem_write_u8(0x0010, 0x01);
    assert_eq!(dec(&mut cpu, AddressingMode::ZeroPage), Ok(()));
    assert_eq!(cpu.mem_read_u8(0x0010), 0x00);
    assert!(cpu.get_flag(StatusFlag::Zero));

    // ASL $10 with $10 = 0x40 stores 0x80.
    cpu.pc = 0x0600;
    cpu.mem_write_u8(0x0010, 0x40);
    assert_eq!(asl(&mut cpu, AddressingMode::ZeroPage), Ok(()));
    assert_eq!(cpu.mem_read_u8(0x0010), 0x80);
    assert!(cpu.get_flag(StatusFlag::Negative));
    assert!(!cpu.get_flag(StatusFlag::Zero));
    assert!(!cpu.get_flag(StatusFlag::Carry));
}

#[test]
fn decrement_and_compare_takes_its_flags_from_the_comparison() {
    let mut cpu = CPU::new();
    cpu.pc = 0x0600;
    cpu.mem_write_u8(0x0600, 0x10);
    cpu.mem_write_u8(0x0010, 0x01);
    cpu.reg_a = 0x10;
    assert_eq!(dcp(&mut cpu, AddressingMode::ZeroPage), Ok(()));
    assert_eq!(cpu.mem_read_u8(0x0010), 0x00);
    assert!(!cpu.get_flag(StatusFlag::Zero));
    assert!(cpu.get_flag(StatusFlag::Carry));
}

#[test]
fn push_and_pull_move_the_stack_pointer_by_one() {
    let mut cpu = CPU::new();
    cpu.stack = 0xFF;
    cpu.stack_push_value_u8(0xAB);
    assert_eq!(cpu.stack, 0xFE);
    assert_eq!(cpu.mem_read_u8(0x01FF), 0xAB);
    assert_eq!(cpu.stack_pull_value_u8(), 0xAB);
    assert_eq!(cpu.stack, 0xFF);

    cpu.stack = 0x00;
    cpu.stack_push_value_u8(0xCD);
    assert_eq!(cpu.stack, 0xFF);
    assert_eq!(cpu.mem_read_u8(0x0100), 0xCD);
    assert_eq!(cpu.stack_pull_value_u8(), 0xCD);
    assert_eq!(cpu.stack, 0x00);

    cpu.stack = 0x80;
    cpu.stack_push_value_u16(0xBEEF);
    assert_eq!(cpu.stack, 0x7E);
    assert_eq!(cpu.mem_read_u8(0x0180), 0xBE);
    assert_eq!(cpu.mem_read_u8(0x017F), 0xEF);
    assert_eq!(cpu.get_stack_address(), 0x017E);
    assert_eq!(cpu.stack_pull_value_u16(), 0xBEEF);
    assert_eq!(cpu.stack, 0x80);
}

#[test]
fn program_counter_wraps_at_the_end_of_memory() {
    let mut prg = vec![0u8; 0x8000];
    prg[0x7FFF] = 0x42;
    prg[0x7FFE] = 0x41;
    let mut cpu = CPU::new();
    cpu.insert_rom(Rom::from_prg(&prg));
    cpu.pc = 0xFFFF;
    assert_eq!(cpu.mem_read_pc_u8(), Ok(0x42));
    assert_eq!(cpu.pc, 0x0000);

    cpu.mem_write_u8(0x0000, 0x99);
    cpu.pc = 0xFFFF;
    assert_eq!(cpu.mem_read_pc_u16(), Ok(0x9942));
    assert_eq!(cpu.pc, 0x0001);

    cpu.pc = 0xFFFE;
    assert_eq!(cpu.mem_read_pc_u16(), Ok(0x4241));
    assert_eq!(cpu.pc, 0x0000);

    cpu.pc = 0xFFFF;
    assert_eq!(cpu.get_address(&AddressingMode::Immediate), Ok(0xFFFF));
    assert_eq!(cpu.pc, 0x0000);
}

#[test]
fn absolute_and_zero_page_indexing_wrap() {
    let mut cpu = CPU::new();
    cpu.pc = 0x0600;
    cpu.mem_write_u16(0x0600, 0xFFFF);
    cpu.reg_x = 0x02;
    assert_eq!(cpu.get_address(&AddressingMode::Absolute_X), Ok(0x0001));
    assert_eq!(cpu.pc, 0x0602);

    cpu.pc = 0x0600;
    cpu.mem_write_u8(0x0600, 0xFF);
    cpu.reg_y = 0x03;
    assert_eq!(cpu.get_address(&AddressingMode::ZeroPage_Y), Ok(0x0002));
    assert_eq!(cpu.pc, 0x0601);

    // (zp,X): the pointer at $FF takes its high byte from $00.
    cpu.pc = 0x0600;
    cpu.mem_write_u8(0x0600, 0xFE);
    cpu.reg_x = 0x01;
    cpu.mem_write_u8(0x00FF, 0x34);
    cpu.mem_write_u8(0x0000, 0x12);
    assert_eq!(cpu.get_address(&AddressingMode::Indirect_X), Ok(0x1234));

    // (zp),Y: the same pointer, plus Y.
    cpu.pc = 0x0600;
    cpu.mem_write_u8(0x0600, 0xFF);
    cpu.reg_y = 0x10;
    assert_eq!(cpu.get_address(&AddressingMode::Indirect_Y), Ok(0x1244));

    assert_eq!(cpu.try_get_address(&AddressingMode::Accumulator), Ok(None));
    assert_eq!(cpu.try_get_address(&AddressingMode::Relative), Ok(None));
    assert_eq!(cpu.try_get_address(&AddressingMode::NoneAddressing), Ok(None));
    cpu.pc = 0x0600;
    assert_eq!(cpu.try_get_address(&AddressingMode::ZeroPage), Ok(Some(0x00FF)));
    cpu.pc = 0x0600;
    assert_eq!(cpu.get_address_and_value(&AddressingMode::ZeroPage), Ok((0x00FF, 0x34)));
}

#[test]
fn adc_then_sbc_gives_the_accumulator_back() {
    for a in [0x00u8, 0x37, 0x7F, 0x80, 0xFF] {
        for m in [0x00u8, 0x01, 0x55, 0x80, 0xFF] {
            let mut cpu = CPU::new();
            cpu.mem_write_u8(0x0600, m);
            cpu.reg_a = a;
            cpu.set_flag(StatusFlag::Carry, false);
            cpu.pc = 0x0600;
            assert_eq!(adc(&mut cpu, AddressingMode::Immediate), Ok(()));
            assert_eq!(cpu.reg_a, a.wrapping_add(m));
            cpu.set_flag(StatusFlag::Carry, true);
            cpu.pc = 0x0600;
            assert_eq!(sbc(&mut cpu, AddressingMode::Immediate), Ok(()));
            assert_eq!(cpu.reg_a, a);
        }
    }
    // With the carry of the addition left as it came out, the result is off
    // by the carries: 0xF0 + 0x20 carries, so the subtraction borrows nothing.
    let mut cpu = CPU::new();
    cpu.mem_write_u8(0x0600, 0x20);
    cpu.reg_a = 0xF0;
    cpu.pc = 0x0600;
    adc(&mut cpu, AddressingMode::Immediate);
    assert!(cpu.get_flag(StatusFlag::Carry));
    cpu.pc = 0x0600;
    sbc(&mut cpu, AddressingMode::Immediate);
    assert_eq!(cpu.reg_a, 0xF0);
    // 0x10 + 0x20 does not carry, so the subtraction borrows one.
    cpu.reg_a = 0x10;
    cpu.set_flag(StatusFlag::Carry, false);
    cpu.pc = 0x0600;
    adc(&mut cpu, AddressingMode::Immediate);
    assert!(!cpu.get_flag(StatusFlag::Carry));
    cpu.pc = 0x0600;
    sbc(&mut cpu, AddressingMode::Immediate);
    assert_eq!(cpu.reg_a, 0x0F);
}

#[test]
fn a_frame_of_dots_returns_to_the_start() {
    let mut ppu = PPU::new(vec![0u8; 0x2000], Mirroring::Horizontal);
    ppu.write_to_ctrl(0x80);
    let mut left: u32 = 341 * 262;
    for chunk in [1u32, 340, 7, 113, 341, 20000, 3] {
        ppu.tick(chunk);
        left -= chunk;
    }
    assert!(ppu.status.is_vblank() == false);
    ppu.tick(left - 1);
    assert_eq!(ppu.scanline, 261);
    assert_eq!(ppu.cycle, 340);
    assert!(ppu.status.is_vblank());
    assert!(ppu.get_nmi_flag());
    ppu.tick(1);
    assert_eq!(ppu.cycle, 0);
    assert_eq!(ppu.scanline, 0);
    assert!(!ppu.status.is_vblank());
    assert!(!ppu.get_nmi_flag());

    let mut once = PPU::new(vec![0u8; 0x2000], Mirroring::Horizontal);
    once.tick(341 * 262);
    assert_eq!((once.cycle, once.scanline), (0, 0));
    assert!(!once.status.is_vblank());
}

#[test]
fn bus_tick_is_three_dots_a_cycle() {
    let mut bus = Bus::from_rom(Rom::from_prg(&[0u8; 0x4000]));
    bus.tick(100);
    assert_eq!(bus.ppu.as_ref().map(|ppu| (ppu.cycle, ppu.scanline)), Some((300, 0)));
    bus.tick(14);
    assert_eq!(bus.ppu.as_ref().map(|ppu| (ppu.cycle, ppu.scanline)), Some((1, 1)));
    let mut bare = Bus::new();
    bare.tick(5);
    assert!(bare.ppu.is_none());
    assert!(!bare.poll_nmi_status());
}

#[test]
fn ram_reads_alike_at_its_four_images() {
    let mut bus = Bus::new();
    for addr in [0x0000u16, 0x0001, 0x0123, 0x07FF] {
        assert_eq!(bus.write8(addr, (addr & 0xFF) as u8 ^ 0x5A), Ok(()));
        for k in 0..4u16 {
            assert_eq!(bus.read8(addr + k * 0x0800), bus.read8(addr));
            assert_eq!(bus.read8(addr + k * 0x0800), Ok((addr & 0xFF) as u8 ^ 0x5A));
        }
    }
    assert_eq!(bus.write8(0x1FFF, 0x77), Ok(()));
    assert_eq!(bus.read8(0x07FF), Ok(0x77));
    assert_eq!(bus.peek(0x0FFF), Some(0x77));
}

#[test]
fn ram_gives_back_what_was_written() {
    let mut bus = Bus::new();
    for addr in [0x0000u16, 0x00FF, 0x0100, 0x07FF, 0x0800, 0x1234, 0x1FFF] {
        assert_eq!(bus.write8(addr, 0xA5), Ok(()));
        assert_eq!(bus.read8(addr), Ok(0xA5));
        assert_eq!(bus.write8(addr, 0x00), Ok(()));
        assert_eq!(bus.read8(addr), Ok(0x00));
    }
    assert_eq!(bus.write16(0x0010, 0xBEEF), Ok(()));
    assert_eq!(bus.read8(0x0010), Ok(0xEF));
    assert_eq!(bus.read8(0x0011), Ok(0xBE));
    assert_eq!(bus.read16(0x0010), Ok(0xBEEF));
    // The last cell of RAM and the first register of the picture unit are
    // neighbours: a word there does not wrap within RAM.
    assert_eq!(bus.write16(0x07FF, 0x1234), Ok(()));
    assert_eq!(bus.read16(0x07FF), Ok(0x1234));
}

#[test]
fn palette_reads_return_what_was_written() {
    let mut bus = Bus::from_rom(Rom::from_prg(&[0u8; 0x4000]));
    assert_eq!(bus.write8(0x2006, 0x3F), Ok(()));
    assert_eq!(bus.write8(0x2006, 0x05), Ok(()));
    assert_eq!(bus.write8(0x2007, 0x11), Ok(()));
    assert_eq!(bus.write8(0x2007, 0x22), Ok(()));
    assert_eq!(bus.write8(0x2006, 0x3F), Ok(()));
    assert_eq!(bus.write8(0x2006, 0x05), Ok(()));
    assert_eq!(bus.read8(0x2007), Ok(0x11));
    assert_eq!(bus.read8(0x2007), Ok(0x22));
    // With a step of 32 both accesses fall on one entry.
    assert_eq!(bus.write8(0x2000, 0x04), Ok(()));
    assert_eq!(bus.write8(0x2006, 0x3F), Ok(()));
    assert_eq!(bus.write8(0x2006, 0x41), Ok(()));
    assert_eq!(bus.write8(0x2007, 0x33), Ok(()));
    assert_eq!(bus.write8(0x2007, 0x44), Ok(()));
    assert_eq!(bus.write8(0x2006, 0x3F), Ok(()));
    assert_eq!(bus.write8(0x2006, 0x41), Ok(()));
    assert_eq!(bus.read8(0x2007), Ok(0x44));
    assert_eq!(bus.read8(0x2007), Ok(0x44));
    assert_eq!(bus.ppu.as_ref().map(|ppu| ppu.palette_table[1]), Some(0x44));
}

#[test]
fn jsr_then_rts_comes_back_behind_the_operand() {
    for (pc, sp) in [(0x0600u16, 0xFFu8), (0x07FD, 0x00), (0x0010, 0x01), (0x0100, 0x80)] {
        let mut cpu = CPU::new();
        cpu.pc = pc;
        cpu.stack = sp;
        cpu.mem_write_u16(pc, 0x0345);
        assert_eq!(jsr(&mut cpu, AddressingMode::Absolute), Ok(()));
        assert_eq!(cpu.pc, 0x0345);
        assert_eq!(cpu.stack, sp.wrapping_sub(2));
        assert_eq!(rts(&mut cpu, AddressingMode::NoneAddressing), Ok(()));
        assert_eq!(cpu.pc, pc.wrapping_add(2));
        assert_eq!(cpu.stack, sp);
    }
}

#[test]
fn set_bit_sets_and_clears() {
    assert_eq!(set_bit(0b0000_0000, 0b0000_0100, true), 0b0000_0100);
    assert_eq!(set_bit(0b1111_1111, 0b0000_0100, false), 0b1111_1011);
    assert_eq!(set_bit(0b1010_0000, 0b1000_0001, true), 0b1010_0001);
    assert_eq!(set_bit(0b1010_0001, 0b1000_0001, false), 0b0010_0000);
    assert_eq!(set_bit(0x5A, 0x00, true), 0x5A);
    assert_eq!(set_bit(0x5A, 0x00, false), 0x5A);
}

#[test]
fn status_flag_masks() {
    assert_eq!(StatusFlag::Carry.mask(), 0x01);
    assert_eq!(StatusFlag::Zero.mask(), 0x02);
    assert_eq!(StatusFlag::InterruptDisable.mask(), 0x04);
    assert_eq!(StatusFlag::Decimal.mask(), 0x08);
    assert_eq!(StatusFlag::Break.mask(), 0x10);
    assert_eq!(StatusFlag::Overflow.mask(), 0x40);
    assert_eq!(StatusFlag::Negative.mask(), 0x80);
}

#[test]
fn every_entry_of_the_table_has_its_code_and_length() {
    let mut entries = 0;
    for code in 0..=255u8 {
        if let Some(op) = OP::decode(code) {
            entries += 1;
            assert_eq!(op.code, code);
            let operand = match op.mode {
                AddressingMode::Accumulator | AddressingMode::NoneAddressing => 0,
                AddressingMode::Absolute
                | AddressingMode::Absolute_X
                | AddressingMode::Absolute_Y
                | AddressingMode::Indirect => 2,
                _ => 1,
            };
            assert_eq!(op.bytes, 1 + operand);
            assert!(op.cycles >= 2 && op.cycles <= 8);
            assert!(op.name.len() == 3 || (op.name.len() == 4 && op.name.starts_with('*')));
        }
    }
    assert_eq!(entries, 236);
    assert_eq!(OP::decode(0xEB).map(|op| op.name), Some("*SBC"));
    assert_eq!(OP::decode(0xA9).map(|op| (op.name, op.bytes, op.cycles)), Some(("LDA", 2, 2)));
}

#[test]
fn test_opcode_not_found() {
    assert!(OP::decode(0x02).is_none());
    assert!(OP::decode(0xFF).is_some());
    assert!(OP::decode(0x9C).is_none());
}
