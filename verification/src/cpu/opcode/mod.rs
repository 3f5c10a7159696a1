pub mod arithmetic;
pub mod branches;
pub mod combined_ops;
pub mod increment_decrements;
pub mod jumps;
pub mod load_store;
pub mod logical;
pub mod register_transfers;
pub mod rmw;
pub mod shifts;
pub mod stack_operations;
pub mod status_flag_changes;
pub mod system_functions;

use vstd::prelude::*;
use crate::cpu::agrees;
use crate::cpu::CpuState;
use crate::cpu::StatusFlag;
use crate::cpu::CPU;
use crate::fault::Fault;

verus! {

/// How an instruction finds its operand.
#[derive(Debug, Clone, Copy, PartialEq, Eq, Structural)]
#[allow(non_camel_case_types)]
pub enum AddressingMode {
    Immediate,
    ZeroPage,
    ZeroPage_X,
    ZeroPage_Y,
    Absolute,
    Absolute_X,
    Absolute_Y,
    Indirect,
    Indirect_X,
    Indirect_Y,
    Accumulator,
    Relative,
    NoneAddressing,
}

/// What an instruction does, whatever its addressing mode.
#[derive(Debug, Clone, Copy, PartialEq, Eq, Structural)]
pub enum Operation {
    /// Add with carry.
    Adc,
    /// AND, then shift `A` right (unofficial).
    Alr,
    /// AND, then Negative to Carry (unofficial).
    Anc,
    /// Bitwise AND into `A`.
    And,
    /// AND, then rotate `A` right (unofficial).
    Arr,
    /// Shift left.
    Asl,
    /// `(A & X) - operand` to `X` (unofficial).
    Axs,
    /// Branch if Carry is clear.
    Bcc,
    /// Branch if Carry is set.
    Bcs,
    /// Branch if Zero is set.
    Beq,
    /// Test bits against `A`.
    Bit,
    /// Branch if Negative is set.
    Bmi,
    /// Branch if Zero is clear.
    Bne,
    /// Branch if Negative is clear.
    Bpl,
    /// Set Break and end the run.
    Brk,
    /// Branch if Overflow is clear.
    Bvc,
    /// Branch if Overflow is set.
    Bvs,
    /// Clear Carry.
    Clc,
    /// Clear Decimal.
    Cld,
    /// Clear InterruptDisable.
    Cli,
    /// Clear Overflow.
    Clv,
    /// Compare with `A`.
    Cmp,
    /// Compare with `X`.
    Cpx,
    /// Compare with `Y`.
    Cpy,
    /// Decrement memory, then compare (unofficial).
    Dcp,
    /// Decrement memory.
    Dec,
    /// Decrement `X`.
    Dex,
    /// Decrement `Y`.
    Dey,
    /// Bitwise exclusive OR into `A`.
    Eor,
    /// Increment memory.
    Inc,
    /// Increment `X`.
    Inx,
    /// Increment `Y`.
    Iny,
    /// Increment memory, then subtract (unofficial).
    Isc,
    /// Jump.
    Jmp,
    /// Jump to a subroutine.
    Jsr,
    /// Load `A` and `X` (unofficial).
    Lax,
    /// Load `A`.
    Lda,
    /// Load `X`.
    Ldx,
    /// Load `Y`.
    Ldy,
    /// Shift right.
    Lsr,
    /// No operation.
    Nop,
    /// Bitwise OR into `A`.
    Ora,
    /// Push `A`.
    Pha,
    /// Push status.
    Php,
    /// Pull `A`.
    Pla,
    /// Pull status.
    Plp,
    /// Rotate memory left, then AND (unofficial).
    Rla,
    /// Rotate left through Carry.
    Rol,
    /// Rotate right through Carry.
    Ror,
    /// Rotate memory right, then add (unofficial).
    Rra,
    /// Return from an interrupt.
    Rti,
    /// Return from a subroutine.
    Rts,
    /// Store `A & X` (unofficial).
    Sax,
    /// Subtract with borrow.
    Sbc,
    /// Set Carry.
    Sec,
    /// Set Decimal.
    Sed,
    /// Set InterruptDisable.
    Sei,
    /// Shift memory left, then OR (unofficial).
    Slo,
    /// Shift memory right, then exclusive OR (unofficial).
    Sre,
    /// Store `A`.
    Sta,
    /// Store `X`.
    Stx,
    /// Store `Y`.
    Sty,
    /// `A` to `X`.
    Tax,
    /// `A` to `Y`.
    Tay,
    /// Stack pointer to `X`.
    Tsx,
    /// `X` to `A`.
    Txa,
    /// `X` to the stack pointer.
    Txs,
    /// `Y` to `A`.
    Tya,
}

/// One entry of the instruction table.
#[derive(Debug, Clone, Copy)]
pub struct OP {
    pub code: u8,
    /// The mnemonic as a trace shows it; unofficial instructions start with
    /// `*`.
    pub name: &'static str,
    pub op: Operation,
    pub mode: AddressingMode,
    /// The length of the instruction, opcode included: 1, 2 or 3.
    pub bytes: u8,
    /// The base cycle count, without the penalties for a page crossing or a
    /// branch taken.
    pub cycles: u8,
}

/// An entry of the table.
#[verifier::allow_in_spec]
pub fn entry(
    code: u8,
    name: &'static str,
    op: Operation,
    mode: AddressingMode,
    bytes: u8,
    cycles: u8,
) -> Option<OP>
    returns
        Some(OP { code, name, op, mode, bytes, cycles }),
{
    Some(OP { code, name, op, mode, bytes, cycles })
}

/// The instruction table: what each of the 256 opcode bytes decodes to, and
/// `None` for the bytes that are no instruction.
pub open spec fn instruction(code: u8) -> Option<OP> {
    match code {
        0x00 => entry(0x00, "BRK", Operation::Brk, AddressingMode::NoneAddressing, 1, 7),
        0x01 => entry(0x01, "ORA", Operation::Ora, AddressingMode::Indirect_X, 2, 6),
        0x03 => entry(0x03, "*SLO", Operation::Slo, AddressingMode::Indirect_X, 2, 8),
        0x04 => entry(0x04, "*NOP", Operation::Nop, AddressingMode::ZeroPage, 2, 3),
        0x05 => entry(0x05, "ORA", Operation::Ora, AddressingMode::ZeroPage, 2, 3),
        0x06 => entry(0x06, "ASL", Operation::Asl, AddressingMode::ZeroPage, 2, 5),
        0x07 => entry(0x07, "*SLO", Operation::Slo, AddressingMode::ZeroPage, 2, 5),
        0x08 => entry(0x08, "PHP", Operation::Php, AddressingMode::NoneAddressing, 1, 3),
        0x09 => entry(0x09, "ORA", Operation::Ora, AddressingMode::Immediate, 2, 2),
        0x0A => entry(0x0A, "ASL", Operation::Asl, AddressingMode::Accumulator, 1, 2),
        0x0B => entry(0x0B, "*ANC", Operation::Anc, AddressingMode::Immediate, 2, 2),
        0x0C => entry(0x0C, "*NOP", Operation::Nop, AddressingMode::Absolute, 3, 4),
        0x0D => entry(0x0D, "ORA", Operation::Ora, AddressingMode::Absolute, 3, 4),
        0x0E => entry(0x0E, "ASL", Operation::Asl, AddressingMode::Absolute, 3, 6),
        0x0F => entry(0x0F, "*SLO", Operation::Slo, AddressingMode::Absolute, 3, 6),
        0x10 => entry(0x10, "BPL", Operation::Bpl, AddressingMode::Relative, 2, 2),
        0x11 => entry(0x11, "ORA", Operation::Ora, AddressingMode::Indirect_Y, 2, 5),
        0x13 => entry(0x13, "*SLO", Operation::Slo, AddressingMode::Indirect_Y, 2, 8),
        0x14 => entry(0x14, "*NOP", Operation::Nop, AddressingMode::ZeroPage_X, 2, 4),
        0x15 => entry(0x15, "ORA", Operation::Ora, AddressingMode::ZeroPage_X, 2, 4),
        0x16 => entry(0x16, "ASL", Operation::Asl, AddressingMode::ZeroPage_X, 2, 6),
        0x17 => entry(0x17, "*SLO", Operation::Slo, AddressingMode::ZeroPage_X, 2, 6),
        0x18 => entry(0x18, "CLC", Operation::Clc, AddressingMode::NoneAddressing, 1, 2),
        0x19 => entry(0x19, "ORA", Operation::Ora, AddressingMode::Absolute_Y, 3, 4),
        0x1A => entry(0x1A, "*NOP", Operation::Nop, AddressingMode::NoneAddressing, 1, 2),
        0x1B => entry(0x1B, "*SLO", Operation::Slo, AddressingMode::Absolute_Y, 3, 7),
        0x1C => entry(0x1C, "*NOP", Operation::Nop, AddressingMode::Absolute_X, 3, 4),
        0x1D => entry(0x1D, "ORA", Operation::Ora, AddressingMode::Absolute_X, 3, 4),
        0x1E => entry(0x1E, "ASL", Operation::Asl, AddressingMode::Absolute_X, 3, 7),
        0x1F => entry(0x1F, "*SLO", Operation::Slo, AddressingMode::Absolute_X, 3, 7),
        0x20 => entry(0x20, "JSR", Operation::Jsr, AddressingMode::Absolute, 3, 6),
        0x21 => entry(0x21, "AND", Operation::And, AddressingMode::Indirect_X, 2, 6),
        0x23 => entry(0x23, "*RLA", Operation::Rla, AddressingMode::Indirect_X, 2, 8),
        0x24 => entry(0x24, "BIT", Operation::Bit, AddressingMode::ZeroPage, 2, 3),
        0x25 => entry(0x25, "AND", Operation::And, AddressingMode::ZeroPage, 2, 3),
        0x26 => entry(0x26, "ROL", Operation::Rol, AddressingMode::ZeroPage, 2, 5),
        0x27 => entry(0x27, "*RLA", Operation::Rla, AddressingMode::ZeroPage, 2, 5),
        0x28 => entry(0x28, "PLP", Operation::Plp, AddressingMode::NoneAddressing, 1, 4),
        0x29 => entry(0x29, "AND", Operation::And, AddressingMode::Immediate, 2, 2),
        0x2A => entry(0x2A, "ROL", Operation::Rol, AddressingMode::Accumulator, 1, 2),
        0x2B => entry(0x2B, "*ANC", Operation::Anc, AddressingMode::Immediate, 2, 2),
        0x2C => entry(0x2C, "BIT", Operation::Bit, AddressingMode::Absolute, 3, 4),
        0x2D => entry(0x2D, "AND", Operation::And, AddressingMode::Absolute, 3, 4),
        0x2E => entry(0x2E, "ROL", Operation::Rol, AddressingMode::Absolute, 3, 6),
        0x2F => entry(0x2F, "*RLA", Operation::Rla, AddressingMode::Absolute, 3, 6),
        0x30 => entry(0x30, "BMI", Operation::Bmi, AddressingMode::Relative, 2, 2),
        0x31 => entry(0x31, "AND", Operation::And, AddressingMode::Indirect_Y, 2, 5),
        0x33 => entry(0x33, "*RLA", Operation::Rla, AddressingMode::Indirect_Y, 2, 8),
        0x34 => entry(0x34, "*NOP", Operation::Nop, AddressingMode::ZeroPage_X, 2, 4),
        0x35 => entry(0x35, "AND", Operation::And, AddressingMode::ZeroPage_X, 2, 4),
        0x36 => entry(0x36, "ROL", Operation::Rol, AddressingMode::ZeroPage_X, 2, 6),
        0x37 => entry(0x37, "*RLA", Operation::Rla, AddressingMode::ZeroPage_X, 2, 6),
        0x38 => entry(0x38, "SEC", Operation::Sec, AddressingMode::NoneAddressing, 1, 2),
        0x39 => entry(0x39, "AND", Operation::And, AddressingMode::Absolute_Y, 3, 4),
        0x3A => entry(0x3A, "*NOP", Operation::Nop, AddressingMode::NoneAddressing, 1, 2),
        0x3B => entry(0x3B, "*RLA", Operation::Rla, AddressingMode::Absolute_Y, 3, 7),
        0x3C => entry(0x3C, "*NOP", Operation::Nop, AddressingMode::Absolute_X, 3, 4),
        0x3D => entry(0x3D, "AND", Operation::And, AddressingMode::Absolute_X, 3, 4),
        0x3E => entry(0x3E, "ROL", Operation::Rol, AddressingMode::Absolute_X, 3, 7),
        0x3F => entry(0x3F, "*RLA", Operation::Rla, AddressingMode::Absolute_X, 3, 7),
        0x40 => entry(0x40, "RTI", Operation::Rti, AddressingMode::NoneAddressing, 1, 6),
        0x41 => entry(0x41, "EOR", Operation::Eor, AddressingMode::Indirect_X, 2, 6),
        0x43 => entry(0x43, "*SRE", Operation::Sre, AddressingMode::Indirect_X, 2, 8),
        0x44 => entry(0x44, "*NOP", Operation::Nop, AddressingMode::ZeroPage, 2, 3),
        0x45 => entry(0x45, "EOR", Operation::Eor, AddressingMode::ZeroPage, 2, 3),
        0x46 => entry(0x46, "LSR", Operation::Lsr, AddressingMode::ZeroPage, 2, 5),
        0x47 => entry(0x47, "*SRE", Operation::Sre, AddressingMode::ZeroPage, 2, 5),
        0x48 => entry(0x48, "PHA", Operation::Pha, AddressingMode::NoneAddressing, 1, 3),
        0x49 => entry(0x49, "EOR", Operation::Eor, AddressingMode::Immediate, 2, 2),
        0x4A => entry(0x4A, "LSR", Operation::Lsr, AddressingMode::Accumulator, 1, 2),
        0x4B => entry(0x4B, "*ALR", Operation::Alr, AddressingMode::Immediate, 2, 2),
        0x4C => entry(0x4C, "JMP", Operation::Jmp, AddressingMode::Absolute, 3, 3),
        0x4D => entry(0x4D, "EOR", Operation::Eor, AddressingMode::Absolute, 3, 4),
        0x4E => entry(0x4E, "LSR", Operation::Lsr, AddressingMode::Absolute, 3, 6),
        0x4F => entry(0x4F, "*SRE", Operation::Sre, AddressingMode::Absolute, 3, 6),
        0x50 => entry(0x50, "BVC", Operation::Bvc, AddressingMode::Relative, 2, 2),
        0x51 => entry(0x51, "EOR", Operation::Eor, AddressingMode::Indirect_Y, 2, 5),
        0x53 => entry(0x53, "*SRE", Operation::Sre, AddressingMode::Indirect_Y, 2, 8),
        0x54 => entry(0x54, "*NOP", Operation::Nop, AddressingMode::ZeroPage_X, 2, 4),
        0x55 => entry(0x55, "EOR", Operation::Eor, AddressingMode::ZeroPage_X, 2, 4),
        0x56 => entry(0x56, "LSR", Operation::Lsr, AddressingMode::ZeroPage_X, 2, 6),
        0x57 => entry(0x57, "*SRE", Operation::Sre, AddressingMode::ZeroPage_X, 2, 6),
        0x58 => entry(0x58, "CLI", Operation::Cli, AddressingMode::NoneAddressing, 1, 2),
        0x59 => entry(0x59, "EOR", Operation::Eor, AddressingMode::Absolute_Y, 3, 4),
        0x5A => entry(0x5A, "*NOP", Operation::Nop, AddressingMode::NoneAddressing, 1, 2),
        0x5B => entry(0x5B, "*SRE", Operation::Sre, AddressingMode::Absolute_Y, 3, 7),
        0x5C => entry(0x5C, "*NOP", Operation::Nop, AddressingMode::Absolute_X, 3, 4),
        0x5D => entry(0x5D, "EOR", Operation::Eor, AddressingMode::Absolute_X, 3, 4),
        0x5E => entry(0x5E, "LSR", Operation::Lsr, AddressingMode::Absolute_X, 3, 7),
        0x5F => entry(0x5F, "*SRE", Operation::Sre, AddressingMode::Absolute_X, 3, 7),
        0x60 => entry(0x60, "RTS", Operation::Rts, AddressingMode::NoneAddressing, 1, 6),
        0x61 => entry(0x61, "ADC", Operation::Adc, AddressingMode::Indirect_X, 2, 6),
        0x63 => entry(0x63, "*RRA", Operation::Rra, AddressingMode::Indirect_X, 2, 8),
        0x64 => entry(0x64, "*NOP", Operation::Nop, AddressingMode::ZeroPage, 2, 3),
        0x65 => entry(0x65, "ADC", Operation::Adc, AddressingMode::ZeroPage, 2, 3),
        0x66 => entry(0x66, "ROR", Operation::Ror, AddressingMode::ZeroPage, 2, 5),
        0x67 => entry(0x67, "*RRA", Operation::Rra, AddressingMode::ZeroPage, 2, 5),
        0x68 => entry(0x68, "PLA", Operation::Pla, AddressingMode::NoneAddressing, 1, 4),
        0x69 => entry(0x69, "ADC", Operation::Adc, AddressingMode::Immediate, 2, 2),
        0x6A => entry(0x6A, "ROR", Operation::Ror, AddressingMode::Accumulator, 1, 2),
        0x6B => entry(0x6B, "*ARR", Operation::Arr, AddressingMode::Immediate, 2, 2),
        0x6C => entry(0x6C, "JMP", Operation::Jmp, AddressingMode::Indirect, 3, 5),
        0x6D => entry(0x6D, "ADC", Operation::Adc, AddressingMode::Absolute, 3, 4),
        0x6E => entry(0x6E, "ROR", Operation::Ror, AddressingMode::Absolute, 3, 6),
        0x6F => entry(0x6F, "*RRA", Operation::Rra, AddressingMode::Absolute, 3, 6),
        0x70 => entry(0x70, "BVS", Operation::Bvs, AddressingMode::Relative, 2, 2),
        0x71 => entry(0x71, "ADC", Operation::Adc, AddressingMode::Indirect_Y, 2, 5),
        0x73 => entry(0x73, "*RRA", Operation::Rra, AddressingMode::Indirect_Y, 2, 8),
        0x74 => entry(0x74, "*NOP", Operation::Nop, AddressingMode::ZeroPage_X, 2, 4),
        0x75 => entry(0x75, "ADC", Operation::Adc, AddressingMode::ZeroPage_X, 2, 4),
        0x76 => entry(0x76, "ROR", Operation::Ror, AddressingMode::ZeroPage_X, 2, 6),
        0x77 => entry(0x77, "*RRA", Operation::Rra, AddressingMode::ZeroPage_X, 2, 6),
        0x78 => entry(0x78, "SEI", Operation::Sei, AddressingMode::NoneAddressing, 1, 2),
        0x79 => entry(0x79, "ADC", Operation::Adc, AddressingMode::Absolute_Y, 3, 4),
        0x7A => entry(0x7A, "*NOP", Operation::Nop, AddressingMode::NoneAddressing, 1, 2),
        0x7B => entry(0x7B, "*RRA", Operation::Rra, AddressingMode::Absolute_Y, 3, 7),
        0x7C => entry(0x7C, "*NOP", Operation::Nop, AddressingMode::Absolute_X, 3, 4),
        0x7D => entry(0x7D, "ADC", Operation::Adc, AddressingMode::Absolute_X, 3, 4),
        0x7E => entry(0x7E, "ROR", Operation::Ror, AddressingMode::Absolute_X, 3, 7),
        0x7F => entry(0x7F, "*RRA", Operation::Rra, AddressingMode::Absolute_X, 3, 7),
        0x80 => entry(0x80, "*NOP", Operation::Nop, AddressingMode::Immediate, 2, 2),
        0x81 => entry(0x81, "STA", Operation::Sta, AddressingMode::Indirect_X, 2, 6),
        0x82 => entry(0x82, "*NOP", Operation::Nop, AddressingMode::Immediate, 2, 2),
        0x83 => entry(0x83, "*SAX", Operation::Sax, AddressingMode::Indirect_X, 2, 6),
        0x84 => entry(0x84, "STY", Operation::Sty, AddressingMode::ZeroPage, 2, 3),
        0x85 => entry(0x85, "STA", Operation::Sta, AddressingMode::ZeroPage, 2, 3),
        0x86 => entry(0x86, "STX", Operation::Stx, AddressingMode::ZeroPage, 2, 3),
        0x87 => entry(0x87, "*SAX", Operation::Sax, AddressingMode::ZeroPage, 2, 3),
        0x88 => entry(0x88, "DEY", Operation::Dey, AddressingMode::NoneAddressing, 1, 2),
        0x89 => entry(0x89, "*NOP", Operation::Nop, AddressingMode::Immediate, 2, 2),
        0x8A => entry(0x8A, "TXA", Operation::Txa, AddressingMode::NoneAddressing, 1, 2),
        0x8C => entry(0x8C, "STY", Operation::Sty, AddressingMode::Absolute, 3, 4),
        0x8D => entry(0x8D, "STA", Operation::Sta, AddressingMode::Absolute, 3, 4),
        0x8E => entry(0x8E, "STX", Operation::Stx, AddressingMode::Absolute, 3, 4),
        0x8F => entry(0x8F, "*SAX", Operation::Sax, AddressingMode::Absolute, 3, 4),
        0x90 => entry(0x90, "BCC", Operation::Bcc, AddressingMode::Relative, 2, 2),
        0x91 => entry(0x91, "STA", Operation::Sta, AddressingMode::Indirect_Y, 2, 6),
        0x94 => entry(0x94, "STY", Operation::Sty, AddressingMode::ZeroPage_X, 2, 4),
        0x95 => entry(0x95, "STA", Operation::Sta, AddressingMode::ZeroPage_X, 2, 4),
        0x96 => entry(0x96, "STX", Operation::Stx, AddressingMode::ZeroPage_Y, 2, 4),
        0x97 => entry(0x97, "*SAX", Operation::Sax, AddressingMode::ZeroPage_Y, 2, 4),
        0x98 => entry(0x98, "TYA", Operation::Tya, AddressingMode::NoneAddressing, 1, 2),
        0x99 => entry(0x99, "STA", Operation::Sta, AddressingMode::Absolute_Y, 3, 5),
        0x9A => entry(0x9A, "TXS", Operation::Txs, AddressingMode::NoneAddressing, 1, 2),
        0x9D => entry(0x9D, "STA", Operation::Sta, AddressingMode::Absolute_X, 3, 5),
        0xA0 => entry(0xA0, "LDY", Operation::Ldy, AddressingMode::Immediate, 2, 2),
        0xA1 => entry(0xA1, "LDA", Operation::Lda, AddressingMode::Indirect_X, 2, 6),
        0xA2 => entry(0xA2, "LDX", Operation::Ldx, AddressingMode::Immediate, 2, 2),
        0xA3 => entry(0xA3, "*LAX", Operation::Lax, AddressingMode::Indirect_X, 2, 6),
        0xA4 => entry(0xA4, "LDY", Operation::Ldy, AddressingMode::ZeroPage, 2, 3),
        0xA5 => entry(0xA5, "LDA", Operation::Lda, AddressingMode::ZeroPage, 2, 3),
        0xA6 => entry(0xA6, "LDX", Operation::Ldx, AddressingMode::ZeroPage, 2, 3),
        0xA7 => entry(0xA7, "*LAX", Operation::Lax, AddressingMode::ZeroPage, 2, 3),
        0xA8 => entry(0xA8, "TAY", Operation::Tay, AddressingMode::NoneAddressing, 1, 2),
        0xA9 => entry(0xA9, "LDA", Operation::Lda, AddressingMode::Immediate, 2, 2),
        0xAA => entry(0xAA, "TAX", Operation::Tax, AddressingMode::NoneAddressing, 1, 2),
        0xAC => entry(0xAC, "LDY", Operation::Ldy, AddressingMode::Absolute, 3, 4),
        0xAD => entry(0xAD, "LDA", Operation::Lda, AddressingMode::Absolute, 3, 4),
        0xAE => entry(0xAE, "LDX", Operation::Ldx, AddressingMode::Absolute, 3, 4),
        0xAF => entry(0xAF, "*LAX", Operation::Lax, AddressingMode::Absolute, 3, 4),
        0xB0 => entry(0xB0, "BCS", Operation::Bcs, AddressingMode::Relative, 2, 2),
        0xB1 => entry(0xB1, "LDA", Operation::Lda, AddressingMode::Indirect_Y, 2, 5),
        0xB3 => entry(0xB3, "*LAX", Operation::Lax, AddressingMode::Indirect_Y, 2, 5),
        0xB4 => entry(0xB4, "LDY", Operation::Ldy, AddressingMode::ZeroPage_X, 2, 4),
        0xB5 => entry(0xB5, "LDA", Operation::Lda, AddressingMode::ZeroPage_X, 2, 4),
        0xB6 => entry(0xB6, "LDX", Operation::Ldx, AddressingMode::ZeroPage_Y, 2, 4),
        0xB7 => entry(0xB7, "*LAX", Operation::Lax, AddressingMode::ZeroPage_Y, 2, 4),
        0xB8 => entry(0xB8, "CLV", Operation::Clv, AddressingMode::NoneAddressing, 1, 2),
        0xB9 => entry(0xB9, "LDA", Operation::Lda, AddressingMode::Absolute_Y, 3, 4),
        0xBA => entry(0xBA, "TSX", Operation::Tsx, AddressingMode::NoneAddressing, 1, 2),
        0xBC => entry(0xBC, "LDY", Operation::Ldy, AddressingMode::Absolute_X, 3, 4),
        0xBD => entry(0xBD, "LDA", Operation::Lda, AddressingMode::Absolute_X, 3, 4),
        0xBE => entry(0xBE, "LDX", Operation::Ldx, AddressingMode::Absolute_Y, 3, 4),
        0xBF => entry(0xBF, "*LAX", Operation::Lax, AddressingMode::Absolute_Y, 3, 4),
        0xC0 => entry(0xC0, "CPY", Operation::Cpy, AddressingMode::Immediate, 2, 2),
        0xC1 => entry(0xC1, "CMP", Operation::Cmp, AddressingMode::Indirect_X, 2, 6),
        0xC2 => entry(0xC2, "*NOP", Operation::Nop, AddressingMode::Immediate, 2, 2),
        0xC3 => entry(0xC3, "*DCP", Operation::Dcp, AddressingMode::Indirect_X, 2, 8),
        0xC4 => entry(0xC4, "CPY", Operation::Cpy, AddressingMode::ZeroPage, 2, 3),
        0xC5 => entry(0xC5, "CMP", Operation::Cmp, AddressingMode::ZeroPage, 2, 3),
        0xC6 => entry(0xC6, "DEC", Operation::Dec, AddressingMode::ZeroPage, 2, 5),
        0xC7 => entry(0xC7, "*DCP", Operation::Dcp, AddressingMode::ZeroPage, 2, 5),
        0xC8 => entry(0xC8, "INY", Operation::Iny, AddressingMode::NoneAddressing, 1, 2),
        0xC9 => entry(0xC9, "CMP", Operation::Cmp, AddressingMode::Immediate, 2, 2),
        0xCA => entry(0xCA, "DEX", Operation::Dex, AddressingMode::NoneAddressing, 1, 2),
        0xCB => entry(0xCB, "*AXS", Operation::Axs, AddressingMode::Immediate, 2, 2),
        0xCC => entry(0xCC, "CPY", Operation::Cpy, AddressingMode::Absolute, 3, 4),
        0xCD => entry(0xCD, "CMP", Operation::Cmp, AddressingMode::Absolute, 3, 4),
        0xCE => entry(0xCE, "DEC", Operation::Dec, AddressingMode::Absolute, 3, 6),
        0xCF => entry(0xCF, "*DCP", Operation::Dcp, AddressingMode::Absolute, 3, 6),
        0xD0 => entry(0xD0, "BNE", Operation::Bne, AddressingMode::Relative, 2, 2),
        0xD1 => entry(0xD1, "CMP", Operation::Cmp, AddressingMode::Indirect_Y, 2, 5),
        0xD3 => entry(0xD3, "*DCP", Operation::Dcp, AddressingMode::Indirect_Y, 2, 8),
        0xD4 => entry(0xD4, "*NOP", Operation::Nop, AddressingMode::ZeroPage_X, 2, 4),
        0xD5 => entry(0xD5, "CMP", Operation::Cmp, AddressingMode::ZeroPage_X, 2, 4),
        0xD6 => entry(0xD6, "DEC", Operation::Dec, AddressingMode::ZeroPage_X, 2, 6),
        0xD7 => entry(0xD7, "*DCP", Operation::Dcp, AddressingMode::ZeroPage_X, 2, 6),
        0xD8 => entry(0xD8, "CLD", Operation::Cld, AddressingMode::NoneAddressing, 1, 2),
        0xD9 => entry(0xD9, "CMP", Operation::Cmp, AddressingMode::Absolute_Y, 3, 4),
        0xDA => entry(0xDA, "*NOP", Operation::Nop, AddressingMode::NoneAddressing, 1, 2),
        0xDB => entry(0xDB, "*DCP", Operation::Dcp, AddressingMode::Absolute_Y, 3, 7),
        0xDC => entry(0xDC, "*NOP", Operation::Nop, AddressingMode::Absolute_X, 3, 4),
        0xDD => entry(0xDD, "CMP", Operation::Cmp, AddressingMode::Absolute_X, 3, 4),
        0xDE => entry(0xDE, "DEC", Operation::Dec, AddressingMode::Absolute_X, 3, 7),
        0xDF => entry(0xDF, "*DCP", Operation::Dcp, AddressingMode::Absolute_X, 3, 7),
        0xE0 => entry(0xE0, "CPX", Operation::Cpx, AddressingMode::Immediate, 2, 2),
        0xE1 => entry(0xE1, "SBC", Operation::Sbc, AddressingMode::Indirect_X, 2, 6),
        0xE2 => entry(0xE2, "*NOP", Operation::Nop, AddressingMode::Immediate, 2, 2),
        0xE3 => entry(0xE3, "*ISB", Operation::Isc, AddressingMode::Indirect_X, 2, 8),
        0xE4 => entry(0xE4, "CPX", Operation::Cpx, AddressingMode::ZeroPage, 2, 3),
        0xE5 => entry(0xE5, "SBC", Operation::Sbc, AddressingMode::ZeroPage, 2, 3),
        0xE6 => entry(0xE6, "INC", Operation::Inc, AddressingMode::ZeroPage, 2, 5),
        0xE7 => entry(0xE7, "*ISB", Operation::Isc, AddressingMode::ZeroPage, 2, 5),
        0xE8 => entry(0xE8, "INX", Operation::Inx, AddressingMode::NoneAddressing, 1, 2),
        0xE9 => entry(0xE9, "SBC", Operation::Sbc, AddressingMode::Immediate, 2, 2),
        0xEA => entry(0xEA, "NOP", Operation::Nop, AddressingMode::NoneAddressing, 1, 2),
        0xEB => entry(0xEB, "*SBC", Operation::Sbc, AddressingMode::Immediate, 2, 2),
        0xEC => entry(0xEC, "CPX", Operation::Cpx, AddressingMode::Absolute, 3, 4),
        0xED => entry(0xED, "SBC", Operation::Sbc, AddressingMode::Absolute, 3, 4),
        0xEE => entry(0xEE, "INC", Operation::Inc, AddressingMode::Absolute, 3, 6),
        0xEF => entry(0xEF, "*ISB", Operation::Isc, AddressingMode::Absolute, 3, 6),
        0xF0 => entry(0xF0, "BEQ", Operation::Beq, AddressingMode::Relative, 2, 2),
        0xF1 => entry(0xF1, "SBC", Operation::Sbc, AddressingMode::Indirect_Y, 2, 5),
        0xF3 => entry(0xF3, "*ISB", Operation::Isc, AddressingMode::Indirect_Y, 2, 8),
        0xF4 => entry(0xF4, "*NOP", Operation::Nop, AddressingMode::ZeroPage_X, 2, 4),
        0xF5 => entry(0xF5, "SBC", Operation::Sbc, AddressingMode::ZeroPage_X, 2, 4),
        0xF6 => entry(0xF6, "INC", Operation::Inc, AddressingMode::ZeroPage_X, 2, 6),
        0xF7 => entry(0xF7, "*ISB", Operation::Isc, AddressingMode::ZeroPage_X, 2, 6),
        0xF8 => entry(0xF8, "SED", Operation::Sed, AddressingMode::NoneAddressing, 1, 2),
        0xF9 => entry(0xF9, "SBC", Operation::Sbc, AddressingMode::Absolute_Y, 3, 4),
        0xFA => entry(0xFA, "*NOP", Operation::Nop, AddressingMode::NoneAddressing, 1, 2),
        0xFB => entry(0xFB, "*ISB", Operation::Isc, AddressingMode::Absolute_Y, 3, 7),
        0xFC => entry(0xFC, "*NOP", Operation::Nop, AddressingMode::Absolute_X, 3, 4),
        0xFD => entry(0xFD, "SBC", Operation::Sbc, AddressingMode::Absolute_X, 3, 4),
        0xFE => entry(0xFE, "INC", Operation::Inc, AddressingMode::Absolute_X, 3, 7),
        0xFF => entry(0xFF, "*ISB", Operation::Isc, AddressingMode::Absolute_X, 3, 7),
        _ => None,
    }
}

/// How many operand bytes follow the opcode in each mode.
pub open spec fn operand_len(mode: AddressingMode) -> int {
    match mode {
        AddressingMode::Accumulator | AddressingMode::NoneAddressing => 0,
        AddressingMode::Absolute
        | AddressingMode::Absolute_X
        | AddressingMode::Absolute_Y
        | AddressingMode::Indirect => 2,
        _ => 1,
    }
}

/// Every entry of the table carries its own opcode, and its length is the
/// opcode byte plus the operand bytes of its mode: 1, 2 or 3.
pub proof fn lemma_table_lengths(code: u8)
    requires
        instruction(code) is Some,
    ensures
        instruction(code)->Some_0.code == code,
        instruction(code)->Some_0.bytes == 1 + operand_len(instruction(code)->Some_0.mode),
        1 <= instruction(code)->Some_0.bytes <= 3,
{
}

impl CpuState {
    /// What the operation `op` does in mode `mode`, with the program counter
    /// behind the opcode byte.
    pub open spec fn execute(self, op: Operation, mode: AddressingMode) -> Result<CpuState, Fault> {
        match op {
            Operation::Adc => self.adc(mode),
            Operation::Alr => self.alr(mode),
            Operation::Anc => self.anc(mode),
            Operation::And => self.and(mode),
            Operation::Arr => self.arr(mode),
            Operation::Asl => self.asl(mode),
            Operation::Axs => self.axs(mode),
            Operation::Bcc => self.branch(!self.flag(StatusFlag::Carry)),
            Operation::Bcs => self.branch(self.flag(StatusFlag::Carry)),
            Operation::Beq => self.branch(self.flag(StatusFlag::Zero)),
            Operation::Bit => self.bit(mode),
            Operation::Bmi => self.branch(self.flag(StatusFlag::Negative)),
            Operation::Bne => self.branch(!self.flag(StatusFlag::Zero)),
            Operation::Bpl => self.branch(!self.flag(StatusFlag::Negative)),
            Operation::Brk => Ok(self.brk()),
            Operation::Bvc => self.branch(!self.flag(StatusFlag::Overflow)),
            Operation::Bvs => self.branch(self.flag(StatusFlag::Overflow)),
            Operation::Clc => Ok(self.with_flag(StatusFlag::Carry, false)),
            Operation::Cld => Ok(self.with_flag(StatusFlag::Decimal, false)),
            Operation::Cli => Ok(self.with_flag(StatusFlag::InterruptDisable, false)),
            Operation::Clv => Ok(self.with_flag(StatusFlag::Overflow, false)),
            Operation::Cmp => self.compare_a(mode),
            Operation::Cpx => self.compare_x(mode),
            Operation::Cpy => self.compare_y(mode),
            Operation::Dcp => self.dcp(mode),
            Operation::Dec => self.dec(mode),
            Operation::Dex => Ok(self.dex()),
            Operation::Dey => Ok(self.dey()),
            Operation::Eor => self.eor(mode),
            Operation::Inc => self.inc(mode),
            Operation::Inx => Ok(self.inx()),
            Operation::Iny => Ok(self.iny()),
            Operation::Isc => self.isc(mode),
            Operation::Jmp => self.jmp(mode),
            Operation::Jsr => self.jsr(mode),
            Operation::Lax => self.lax(mode),
            Operation::Lda => self.lda(mode),
            Operation::Ldx => self.ldx(mode),
            Operation::Ldy => self.ldy(mode),
            Operation::Lsr => self.lsr(mode),
            Operation::Nop => self.nop(mode),
            Operation::Ora => self.ora(mode),
            Operation::Pha => Ok(self.pha()),
            Operation::Php => Ok(self.php()),
            Operation::Pla => Ok(self.pla()),
            Operation::Plp => Ok(self.plp()),
            Operation::Rla => self.rla(mode),
            Operation::Rol => self.rol(mode),
            Operation::Ror => self.ror(mode),
            Operation::Rra => self.rra(mode),
            Operation::Rti => Ok(self.rti()),
            Operation::Rts => Ok(self.rts()),
            Operation::Sax => self.sax(mode),
            Operation::Sbc => self.sbc(mode),
            Operation::Sec => Ok(self.with_flag(StatusFlag::Carry, true)),
            Operation::Sed => Ok(self.with_flag(StatusFlag::Decimal, true)),
            Operation::Sei => Ok(self.with_flag(StatusFlag::InterruptDisable, true)),
            Operation::Slo => self.slo(mode),
            Operation::Sre => self.sre(mode),
            Operation::Sta => self.sta(mode),
            Operation::Stx => self.stx(mode),
            Operation::Sty => self.sty(mode),
            Operation::Tax => Ok(self.tax()),
            Operation::Tay => Ok(self.tay()),
            Operation::Tsx => Ok(self.tsx()),
            Operation::Txa => Ok(self.txa()),
            Operation::Txs => Ok(self.txs()),
            Operation::Tya => Ok(self.tya()),
        }
    }
}

impl OP {
    /// Looks an opcode byte up in the instruction table.
    pub fn decode(code: u8) -> (r: Option<OP>)
        ensures
            r == instruction(code),
    {
        match code {
            0x00 => entry(0x00, "BRK", Operation::Brk, AddressingMode::NoneAddressing, 1, 7),
            0x01 => entry(0x01, "ORA", Operation::Ora, AddressingMode::Indirect_X, 2, 6),
            0x03 => entry(0x03, "*SLO", Operation::Slo, AddressingMode::Indirect_X, 2, 8),
            0x04 => entry(0x04, "*NOP", Operation::Nop, AddressingMode::ZeroPage, 2, 3),
            0x05 => entry(0x05, "ORA", Operation::Ora, AddressingMode::ZeroPage, 2, 3),
            0x06 => entry(0x06, "ASL", Operation::Asl, AddressingMode::ZeroPage, 2, 5),
            0x07 => entry(0x07, "*SLO", Operation::Slo, AddressingMode::ZeroPage, 2, 5),
            0x08 => entry(0x08, "PHP", Operation::Php, AddressingMode::NoneAddressing, 1, 3),
            0x09 => entry(0x09, "ORA", Operation::Ora, AddressingMode::Immediate, 2, 2),
            0x0A => entry(0x0A, "ASL", Operation::Asl, AddressingMode::Accumulator, 1, 2),
            0x0B => entry(0x0B, "*ANC", Operation::Anc, AddressingMode::Immediate, 2, 2),
            0x0C => entry(0x0C, "*NOP", Operation::Nop, AddressingMode::Absolute, 3, 4),
            0x0D => entry(0x0D, "ORA", Operation::Ora, AddressingMode::Absolute, 3, 4),
            0x0E => entry(0x0E, "ASL", Operation::Asl, AddressingMode::Absolute, 3, 6),
            0x0F => entry(0x0F, "*SLO", Operation::Slo, AddressingMode::Absolute, 3, 6),
            0x10 => entry(0x10, "BPL", Operation::Bpl, AddressingMode::Relative, 2, 2),
            0x11 => entry(0x11, "ORA", Operation::Ora, AddressingMode::Indirect_Y, 2, 5),
            0x13 => entry(0x13, "*SLO", Operation::Slo, AddressingMode::Indirect_Y, 2, 8),
            0x14 => entry(0x14, "*NOP", Operation::Nop, AddressingMode::ZeroPage_X, 2, 4),
            0x15 => entry(0x15, "ORA", Operation::Ora, AddressingMode::ZeroPage_X, 2, 4),
            0x16 => entry(0x16, "ASL", Operation::Asl, AddressingMode::ZeroPage_X, 2, 6),
            0x17 => entry(0x17, "*SLO", Operation::Slo, AddressingMode::ZeroPage_X, 2, 6),
            0x18 => entry(0x18, "CLC", Operation::Clc, AddressingMode::NoneAddressing, 1, 2),
            0x19 => entry(0x19, "ORA", Operation::Ora, AddressingMode::Absolute_Y, 3, 4),
            0x1A => entry(0x1A, "*NOP", Operation::Nop, AddressingMode::NoneAddressing, 1, 2),
            0x1B => entry(0x1B, "*SLO", Operation::Slo, AddressingMode::Absolute_Y, 3, 7),
            0x1C => entry(0x1C, "*NOP", Operation::Nop, AddressingMode::Absolute_X, 3, 4),
            0x1D => entry(0x1D, "ORA", Operation::Ora, AddressingMode::Absolute_X, 3, 4),
            0x1E => entry(0x1E, "ASL", Operation::Asl, AddressingMode::Absolute_X, 3, 7),
            0x1F => entry(0x1F, "*SLO", Operation::Slo, AddressingMode::Absolute_X, 3, 7),
            0x20 => entry(0x20, "JSR", Operation::Jsr, AddressingMode::Absolute, 3, 6),
            0x21 => entry(0x21, "AND", Operation::And, AddressingMode::Indirect_X, 2, 6),
            0x23 => entry(0x23, "*RLA", Operation::Rla, AddressingMode::Indirect_X, 2, 8),
            0x24 => entry(0x24, "BIT", Operation::Bit, AddressingMode::ZeroPage, 2, 3),
            0x25 => entry(0x25, "AND", Operation::And, AddressingMode::ZeroPage, 2, 3),
            0x26 => entry(0x26, "ROL", Operation::Rol, AddressingMode::ZeroPage, 2, 5),
            0x27 => entry(0x27, "*RLA", Operation::Rla, AddressingMode::ZeroPage, 2, 5),
            0x28 => entry(0x28, "PLP", Operation::Plp, AddressingMode::NoneAddressing, 1, 4),
            0x29 => entry(0x29, "AND", Operation::And, AddressingMode::Immediate, 2, 2),
            0x2A => entry(0x2A, "ROL", Operation::Rol, AddressingMode::Accumulator, 1, 2),
            0x2B => entry(0x2B, "*ANC", Operation::Anc, AddressingMode::Immediate, 2, 2),
            0x2C => entry(0x2C, "BIT", Operation::Bit, AddressingMode::Absolute, 3, 4),
            0x2D => entry(0x2D, "AND", Operation::And, AddressingMode::Absolute, 3, 4),
            0x2E => entry(0x2E, "ROL", Operation::Rol, AddressingMode::Absolute, 3, 6),
            0x2F => entry(0x2F, "*RLA", Operation::Rla, AddressingMode::Absolute, 3, 6),
            0x30 => entry(0x30, "BMI", Operation::Bmi, AddressingMode::Relative, 2, 2),
            0x31 => entry(0x31, "AND", Operation::And, AddressingMode::Indirect_Y, 2, 5),
            0x33 => entry(0x33, "*RLA", Operation::Rla, AddressingMode::Indirect_Y, 2, 8),
            0x34 => entry(0x34, "*NOP", Operation::Nop, AddressingMode::ZeroPage_X, 2, 4),
            0x35 => entry(0x35, "AND", Operation::And, AddressingMode::ZeroPage_X, 2, 4),
            0x36 => entry(0x36, "ROL", Operation::Rol, AddressingMode::ZeroPage_X, 2, 6),
            0x37 => entry(0x37, "*RLA", Operation::Rla, AddressingMode::ZeroPage_X, 2, 6),
            0x38 => entry(0x38, "SEC", Operation::Sec, AddressingMode::NoneAddressing, 1, 2),
            0x39 => entry(0x39, "AND", Operation::And, AddressingMode::Absolute_Y, 3, 4),
            0x3A => entry(0x3A, "*NOP", Operation::Nop, AddressingMode::NoneAddressing, 1, 2),
            0x3B => entry(0x3B, "*RLA", Operation::Rla, AddressingMode::Absolute_Y, 3, 7),
            0x3C => entry(0x3C, "*NOP", Operation::Nop, AddressingMode::Absolute_X, 3, 4),
            0x3D => entry(0x3D, "AND", Operation::And, AddressingMode::Absolute_X, 3, 4),
            0x3E => entry(0x3E, "ROL", Operation::Rol, AddressingMode::Absolute_X, 3, 7),
            0x3F => entry(0x3F, "*RLA", Operation::Rla, AddressingMode::Absolute_X, 3, 7),
            0x40 => entry(0x40, "RTI", Operation::Rti, AddressingMode::NoneAddressing, 1, 6),
            0x41 => entry(0x41, "EOR", Operation::Eor, AddressingMode::Indirect_X, 2, 6),
            0x43 => entry(0x43, "*SRE", Operation::Sre, AddressingMode::Indirect_X, 2, 8),
            0x44 => entry(0x44, "*NOP", Operation::Nop, AddressingMode::ZeroPage, 2, 3),
            0x45 => entry(0x45, "EOR", Operation::Eor, AddressingMode::ZeroPage, 2, 3),
            0x46 => entry(0x46, "LSR", Operation::Lsr, AddressingMode::ZeroPage, 2, 5),
            0x47 => entry(0x47, "*SRE", Operation::Sre, AddressingMode::ZeroPage, 2, 5),
            0x48 => entry(0x48, "PHA", Operation::Pha, AddressingMode::NoneAddressing, 1, 3),
            0x49 => entry(0x49, "EOR", Operation::Eor, AddressingMode::Immediate, 2, 2),
            0x4A => entry(0x4A, "LSR", Operation::Lsr, AddressingMode::Accumulator, 1, 2),
            0x4B => entry(0x4B, "*ALR", Operation::Alr, AddressingMode::Immediate, 2, 2),
            0x4C => entry(0x4C, "JMP", Operation::Jmp, AddressingMode::Absolute, 3, 3),
            0x4D => entry(0x4D, "EOR", Operation::Eor, AddressingMode::Absolute, 3, 4),
            0x4E => entry(0x4E, "LSR", Operation::Lsr, AddressingMode::Absolute, 3, 6),
            0x4F => entry(0x4F, "*SRE", Operation::Sre, AddressingMode::Absolute, 3, 6),
            0x50 => entry(0x50, "BVC", Operation::Bvc, AddressingMode::Relative, 2, 2),
            0x51 => entry(0x51, "EOR", Operation::Eor, AddressingMode::Indirect_Y, 2, 5),
            0x53 => entry(0x53, "*SRE", Operation::Sre, AddressingMode::Indirect_Y, 2, 8),
            0x54 => entry(0x54, "*NOP", Operation::Nop, AddressingMode::ZeroPage_X, 2, 4),
            0x55 => entry(0x55, "EOR", Operation::Eor, AddressingMode::ZeroPage_X, 2, 4),
            0x56 => entry(0x56, "LSR", Operation::Lsr, AddressingMode::ZeroPage_X, 2, 6),
            0x57 => entry(0x57, "*SRE", Operation::Sre, AddressingMode::ZeroPage_X, 2, 6),
            0x58 => entry(0x58, "CLI", Operation::Cli, AddressingMode::NoneAddressing, 1, 2),
            0x59 => entry(0x59, "EOR", Operation::Eor, AddressingMode::Absolute_Y, 3, 4),
            0x5A => entry(0x5A, "*NOP", Operation::Nop, AddressingMode::NoneAddressing, 1, 2),
            0x5B => entry(0x5B, "*SRE", Operation::Sre, AddressingMode::Absolute_Y, 3, 7),
            0x5C => entry(0x5C, "*NOP", Operation::Nop, AddressingMode::Absolute_X, 3, 4),
            0x5D => entry(0x5D, "EOR", Operation::Eor, AddressingMode::Absolute_X, 3, 4),
            0x5E => entry(0x5E, "LSR", Operation::Lsr, AddressingMode::Absolute_X, 3, 7),
            0x5F => entry(0x5F, "*SRE", Operation::Sre, AddressingMode::Absolute_X, 3, 7),
            0x60 => entry(0x60, "RTS", Operation::Rts, AddressingMode::NoneAddressing, 1, 6),
            0x61 => entry(0x61, "ADC", Operation::Adc, AddressingMode::Indirect_X, 2, 6),
            0x63 => entry(0x63, "*RRA", Operation::Rra, AddressingMode::Indirect_X, 2, 8),
            0x64 => entry(0x64, "*NOP", Operation::Nop, AddressingMode::ZeroPage, 2, 3),
            0x65 => entry(0x65, "ADC", Operation::Adc, AddressingMode::ZeroPage, 2, 3),
            0x66 => entry(0x66, "ROR", Operation::Ror, AddressingMode::ZeroPage, 2, 5),
            0x67 => entry(0x67, "*RRA", Operation::Rra, AddressingMode::ZeroPage, 2, 5),
            0x68 => entry(0x68, "PLA", Operation::Pla, AddressingMode::NoneAddressing, 1, 4),
            0x69 => entry(0x69, "ADC", Operation::Adc, AddressingMode::Immediate, 2, 2),
            0x6A => entry(0x6A, "ROR", Operation::Ror, AddressingMode::Accumulator, 1, 2),
            0x6B => entry(0x6B, "*ARR", Operation::Arr, AddressingMode::Immediate, 2, 2),
            0x6C => entry(0x6C, "JMP", Operation::Jmp, AddressingMode::Indirect, 3, 5),
            0x6D => entry(0x6D, "ADC", Operation::Adc, AddressingMode::Absolute, 3, 4),
            0x6E => entry(0x6E, "ROR", Operation::Ror, AddressingMode::Absolute, 3, 6),
            0x6F => entry(0x6F, "*RRA", Operation::Rra, AddressingMode::Absolute, 3, 6),
            0x70 => entry(0x70, "BVS", Operation::Bvs, AddressingMode::Relative, 2, 2),
            0x71 => entry(0x71, "ADC", Operation::Adc, AddressingMode::Indirect_Y, 2, 5),
            0x73 => entry(0x73, "*RRA", Operation::Rra, AddressingMode::Indirect_Y, 2, 8),
            0x74 => entry(0x74, "*NOP", Operation::Nop, AddressingMode::ZeroPage_X, 2, 4),
            0x75 => entry(0x75, "ADC", Operation::Adc, AddressingMode::ZeroPage_X, 2, 4),
            0x76 => entry(0x76, "ROR", Operation::Ror, AddressingMode::ZeroPage_X, 2, 6),
            0x77 => entry(0x77, "*RRA", Operation::Rra, AddressingMode::ZeroPage_X, 2, 6),
            0x78 => entry(0x78, "SEI", Operation::Sei, AddressingMode::NoneAddressing, 1, 2),
            0x79 => entry(0x79, "ADC", Operation::Adc, AddressingMode::Absolute_Y, 3, 4),
            0x7A => entry(0x7A, "*NOP", Operation::Nop, AddressingMode::NoneAddressing, 1, 2),
            0x7B => entry(0x7B, "*RRA", Operation::Rra, AddressingMode::Absolute_Y, 3, 7),
            0x7C => entry(0x7C, "*NOP", Operation::Nop, AddressingMode::Absolute_X, 3, 4),
            0x7D => entry(0x7D, "ADC", Operation::Adc, AddressingMode::Absolute_X, 3, 4),
            0x7E => entry(0x7E, "ROR", Operation::Ror, AddressingMode::Absolute_X, 3, 7),
            0x7F => entry(0x7F, "*RRA", Operation::Rra, AddressingMode::Absolute_X, 3, 7),
            0x80 => entry(0x80, "*NOP", Operation::Nop, AddressingMode::Immediate, 2, 2),
            0x81 => entry(0x81, "STA", Operation::Sta, AddressingMode::Indirect_X, 2, 6),
            0x82 => entry(0x82, "*NOP", Operation::Nop, AddressingMode::Immediate, 2, 2),
            0x83 => entry(0x83, "*SAX", Operation::Sax, AddressingMode::Indirect_X, 2, 6),
            0x84 => entry(0x84, "STY", Operation::Sty, AddressingMode::ZeroPage, 2, 3),
            0x85 => entry(0x85, "STA", Operation::Sta, AddressingMode::ZeroPage, 2, 3),
            0x86 => entry(0x86, "STX", Operation::Stx, AddressingMode::ZeroPage, 2, 3),
            0x87 => entry(0x87, "*SAX", Operation::Sax, AddressingMode::ZeroPage, 2, 3),
            0x88 => entry(0x88, "DEY", Operation::Dey, AddressingMode::NoneAddressing, 1, 2),
            0x89 => entry(0x89, "*NOP", Operation::Nop, AddressingMode::Immediate, 2, 2),
            0x8A => entry(0x8A, "TXA", Operation::Txa, AddressingMode::NoneAddressing, 1, 2),
            0x8C => entry(0x8C, "STY", Operation::Sty, AddressingMode::Absolute, 3, 4),
            0x8D => entry(0x8D, "STA", Operation::Sta, AddressingMode::Absolute, 3, 4),
            0x8E => entry(0x8E, "STX", Operation::Stx, AddressingMode::Absolute, 3, 4),
            0x8F => entry(0x8F, "*SAX", Operation::Sax, AddressingMode::Absolute, 3, 4),
            0x90 => entry(0x90, "BCC", Operation::Bcc, AddressingMode::Relative, 2, 2),
            0x91 => entry(0x91, "STA", Operation::Sta, AddressingMode::Indirect_Y, 2, 6),
            0x94 => entry(0x94, "STY", Operation::Sty, AddressingMode::ZeroPage_X, 2, 4),
            0x95 => entry(0x95, "STA", Operation::Sta, AddressingMode::ZeroPage_X, 2, 4),
            0x96 => entry(0x96, "STX", Operation::Stx, AddressingMode::ZeroPage_Y, 2, 4),
            0x97 => entry(0x97, "*SAX", Operation::Sax, AddressingMode::ZeroPage_Y, 2, 4),
            0x98 => entry(0x98, "TYA", Operation::Tya, AddressingMode::NoneAddressing, 1, 2),
            0x99 => entry(0x99, "STA", Operation::Sta, AddressingMode::Absolute_Y, 3, 5),
            0x9A => entry(0x9A, "TXS", Operation::Txs, AddressingMode::NoneAddressing, 1, 2),
            0x9D => entry(0x9D, "STA", Operation::Sta, AddressingMode::Absolute_X, 3, 5),
            0xA0 => entry(0xA0, "LDY", Operation::Ldy, AddressingMode::Immediate, 2, 2),
            0xA1 => entry(0xA1, "LDA", Operation::Lda, AddressingMode::Indirect_X, 2, 6),
            0xA2 => entry(0xA2, "LDX", Operation::Ldx, AddressingMode::Immediate, 2, 2),
            0xA3 => entry(0xA3, "*LAX", Operation::Lax, AddressingMode::Indirect_X, 2, 6),
            0xA4 => entry(0xA4, "LDY", Operation::Ldy, AddressingMode::ZeroPage, 2, 3),
            0xA5 => entry(0xA5, "LDA", Operation::Lda, AddressingMode::ZeroPage, 2, 3),
            0xA6 => entry(0xA6, "LDX", Operation::Ldx, AddressingMode::ZeroPage, 2, 3),
            0xA7 => entry(0xA7, "*LAX", Operation::Lax, AddressingMode::ZeroPage, 2, 3),
            0xA8 => entry(0xA8, "TAY", Operation::Tay, AddressingMode::NoneAddressing, 1, 2),
            0xA9 => entry(0xA9, "LDA", Operation::Lda, AddressingMode::Immediate, 2, 2),
            0xAA => entry(0xAA, "TAX", Operation::Tax, AddressingMode::NoneAddressing, 1, 2),
            0xAC => entry(0xAC, "LDY", Operation::Ldy, AddressingMode::Absolute, 3, 4),
            0xAD => entry(0xAD, "LDA", Operation::Lda, AddressingMode::Absolute, 3, 4),
            0xAE => entry(0xAE, "LDX", Operation::Ldx, AddressingMode::Absolute, 3, 4),
            0xAF => entry(0xAF, "*LAX", Operation::Lax, AddressingMode::Absolute, 3, 4),
            0xB0 => entry(0xB0, "BCS", Operation::Bcs, AddressingMode::Relative, 2, 2),
            0xB1 => entry(0xB1, "LDA", Operation::Lda, AddressingMode::Indirect_Y, 2, 5),
            0xB3 => entry(0xB3, "*LAX", Operation::Lax, AddressingMode::Indirect_Y, 2, 5),
            0xB4 => entry(0xB4, "LDY", Operation::Ldy, AddressingMode::ZeroPage_X, 2, 4),
            0xB5 => entry(0xB5, "LDA", Operation::Lda, AddressingMode::ZeroPage_X, 2, 4),
            0xB6 => entry(0xB6, "LDX", Operation::Ldx, AddressingMode::ZeroPage_Y, 2, 4),
            0xB7 => entry(0xB7, "*LAX", Operation::Lax, AddressingMode::ZeroPage_Y, 2, 4),
            0xB8 => entry(0xB8, "CLV", Operation::Clv, AddressingMode::NoneAddressing, 1, 2),
            0xB9 => entry(0xB9, "LDA", Operation::Lda, AddressingMode::Absolute_Y, 3, 4),
            0xBA => entry(0xBA, "TSX", Operation::Tsx, AddressingMode::NoneAddressing, 1, 2),
            0xBC => entry(0xBC, "LDY", Operation::Ldy, AddressingMode::Absolute_X, 3, 4),
            0xBD => entry(0xBD, "LDA", Operation::Lda, AddressingMode::Absolute_X, 3, 4),
            0xBE => entry(0xBE, "LDX", Operation::Ldx, AddressingMode::Absolute_Y, 3, 4),
            0xBF => entry(0xBF, "*LAX", Operation::Lax, AddressingMode::Absolute_Y, 3, 4),
            0xC0 => entry(0xC0, "CPY", Operation::Cpy, AddressingMode::Immediate, 2, 2),
            0xC1 => entry(0xC1, "CMP", Operation::Cmp, AddressingMode::Indirect_X, 2, 6),
            0xC2 => entry(0xC2, "*NOP", Operation::Nop, AddressingMode::Immediate, 2, 2),
            0xC3 => entry(0xC3, "*DCP", Operation::Dcp, AddressingMode::Indirect_X, 2, 8),
            0xC4 => entry(0xC4, "CPY", Operation::Cpy, AddressingMode::ZeroPage, 2, 3),
            0xC5 => entry(0xC5, "CMP", Operation::Cmp, AddressingMode::ZeroPage, 2, 3),
            0xC6 => entry(0xC6, "DEC", Operation::Dec, AddressingMode::ZeroPage, 2, 5),
            0xC7 => entry(0xC7, "*DCP", Operation::Dcp, AddressingMode::ZeroPage, 2, 5),
            0xC8 => entry(0xC8, "INY", Operation::Iny, AddressingMode::NoneAddressing, 1, 2),
            0xC9 => entry(0xC9, "CMP", Operation::Cmp, AddressingMode::Immediate, 2, 2),
            0xCA => entry(0xCA, "DEX", Operation::Dex, AddressingMode::NoneAddressing, 1, 2),
            0xCB => entry(0xCB, "*AXS", Operation::Axs, AddressingMode::Immediate, 2, 2),
            0xCC => entry(0xCC, "CPY", Operation::Cpy, AddressingMode::Absolute, 3, 4),
            0xCD => entry(0xCD, "CMP", Operation::Cmp, AddressingMode::Absolute, 3, 4),
            0xCE => entry(0xCE, "DEC", Operation::Dec, AddressingMode::Absolute, 3, 6),
            0xCF => entry(0xCF, "*DCP", Operation::Dcp, AddressingMode::Absolute, 3, 6),
            0xD0 => entry(0xD0, "BNE", Operation::Bne, AddressingMode::Relative, 2, 2),
            0xD1 => entry(0xD1, "CMP", Operation::Cmp, AddressingMode::Indirect_Y, 2, 5),
            0xD3 => entry(0xD3, "*DCP", Operation::Dcp, AddressingMode::Indirect_Y, 2, 8),
            0xD4 => entry(0xD4, "*NOP", Operation::Nop, AddressingMode::ZeroPage_X, 2, 4),
            0xD5 => entry(0xD5, "CMP", Operation::Cmp, AddressingMode::ZeroPage_X, 2, 4),
            0xD6 => entry(0xD6, "DEC", Operation::Dec, AddressingMode::ZeroPage_X, 2, 6),
            0xD7 => entry(0xD7, "*DCP", Operation::Dcp, AddressingMode::ZeroPage_X, 2, 6),
            0xD8 => entry(0xD8, "CLD", Operation::Cld, AddressingMode::NoneAddressing, 1, 2),
            0xD9 => entry(0xD9, "CMP", Operation::Cmp, AddressingMode::Absolute_Y, 3, 4),
            0xDA => entry(0xDA, "*NOP", Operation::Nop, AddressingMode::NoneAddressing, 1, 2),
            0xDB => entry(0xDB, "*DCP", Operation::Dcp, AddressingMode::Absolute_Y, 3, 7),
            0xDC => entry(0xDC, "*NOP", Operation::Nop, AddressingMode::Absolute_X, 3, 4),
            0xDD => entry(0xDD, "CMP", Operation::Cmp, AddressingMode::Absolute_X, 3, 4),
            0xDE => entry(0xDE, "DEC", Operation::Dec, AddressingMode::Absolute_X, 3, 7),
            0xDF => entry(0xDF, "*DCP", Operation::Dcp, AddressingMode::Absolute_X, 3, 7),
            0xE0 => entry(0xE0, "CPX", Operation::Cpx, AddressingMode::Immediate, 2, 2),
            0xE1 => entry(0xE1, "SBC", Operation::Sbc, AddressingMode::Indirect_X, 2, 6),
            0xE2 => entry(0xE2, "*NOP", Operation::Nop, AddressingMode::Immediate, 2, 2),
            0xE3 => entry(0xE3, "*ISB", Operation::Isc, AddressingMode::Indirect_X, 2, 8),
            0xE4 => entry(0xE4, "CPX", Operation::Cpx, AddressingMode::ZeroPage, 2, 3),
            0xE5 => entry(0xE5, "SBC", Operation::Sbc, AddressingMode::ZeroPage, 2, 3),
            0xE6 => entry(0xE6, "INC", Operation::Inc, AddressingMode::ZeroPage, 2, 5),
            0xE7 => entry(0xE7, "*ISB", Operation::Isc, AddressingMode::ZeroPage, 2, 5),
            0xE8 => entry(0xE8, "INX", Operation::Inx, AddressingMode::NoneAddressing, 1, 2),
            0xE9 => entry(0xE9, "SBC", Operation::Sbc, AddressingMode::Immediate, 2, 2),
            0xEA => entry(0xEA, "NOP", Operation::Nop, AddressingMode::NoneAddressing, 1, 2),
            0xEB => entry(0xEB, "*SBC", Operation::Sbc, AddressingMode::Immediate, 2, 2),
            0xEC => entry(0xEC, "CPX", Operation::Cpx, AddressingMode::Absolute, 3, 4),
            0xED => entry(0xED, "SBC", Operation::Sbc, AddressingMode::Absolute, 3, 4),
            0xEE => entry(0xEE, "INC", Operation::Inc, AddressingMode::Absolute, 3, 6),
            0xEF => entry(0xEF, "*ISB", Operation::Isc, AddressingMode::Absolute, 3, 6),
            0xF0 => entry(0xF0, "BEQ", Operation::Beq, AddressingMode::Relative, 2, 2),
            0xF1 => entry(0xF1, "SBC", Operation::Sbc, AddressingMode::Indirect_Y, 2, 5),
            0xF3 => entry(0xF3, "*ISB", Operation::Isc, AddressingMode::Indirect_Y, 2, 8),
            0xF4 => entry(0xF4, "*NOP", Operation::Nop, AddressingMode::ZeroPage_X, 2, 4),
            0xF5 => entry(0xF5, "SBC", Operation::Sbc, AddressingMode::ZeroPage_X, 2, 4),
            0xF6 => entry(0xF6, "INC", Operation::Inc, AddressingMode::ZeroPage_X, 2, 6),
            0xF7 => entry(0xF7, "*ISB", Operation::Isc, AddressingMode::ZeroPage_X, 2, 6),
            0xF8 => entry(0xF8, "SED", Operation::Sed, AddressingMode::NoneAddressing, 1, 2),
            0xF9 => entry(0xF9, "SBC", Operation::Sbc, AddressingMode::Absolute_Y, 3, 4),
            0xFA => entry(0xFA, "*NOP", Operation::Nop, AddressingMode::NoneAddressing, 1, 2),
            0xFB => entry(0xFB, "*ISB", Operation::Isc, AddressingMode::Absolute_Y, 3, 7),
            0xFC => entry(0xFC, "*NOP", Operation::Nop, AddressingMode::Absolute_X, 3, 4),
            0xFD => entry(0xFD, "SBC", Operation::Sbc, AddressingMode::Absolute_X, 3, 4),
            0xFE => entry(0xFE, "INC", Operation::Inc, AddressingMode::Absolute_X, 3, 7),
            0xFF => entry(0xFF, "*ISB", Operation::Isc, AddressingMode::Absolute_X, 3, 7),
            _ => None,
        }
    }

    /// Runs the instruction on `cpu`, whose program counter stands behind
    /// the opcode byte.
    pub fn execute(&self, cpu: &mut CPU) -> (r: Result<(), Fault>)
        ensures
            agrees(r, final(cpu)@, old(cpu)@.execute(self.op, self.mode)),
    {
        match self.op {
            Operation::Adc => arithmetic::adc(cpu, self.mode),
            Operation::Alr => combined_ops::alr(cpu, self.mode),
            Operation::Anc => combined_ops::anc(cpu, self.mode),
            Operation::And => logical::and(cpu, self.mode),
            Operation::Arr => combined_ops::arr(cpu, self.mode),
            Operation::Asl => shifts::asl(cpu, self.mode),
            Operation::Axs => combined_ops::axs(cpu, self.mode),
            Operation::Bcc => branches::bcc(cpu, self.mode),
            Operation::Bcs => branches::bcs(cpu, self.mode),
            Operation::Beq => branches::beq(cpu, self.mode),
            Operation::Bit => logical::bit(cpu, self.mode),
            Operation::Bmi => branches::bmi(cpu, self.mode),
            Operation::Bne => branches::bne(cpu, self.mode),
            Operation::Bpl => branches::bpl(cpu, self.mode),
            Operation::Brk => system_functions::brk(cpu, self.mode),
            Operation::Bvc => branches::bvc(cpu, self.mode),
            Operation::Bvs => branches::bvs(cpu, self.mode),
            Operation::Clc => status_flag_changes::clc(cpu, self.mode),
            Operation::Cld => status_flag_changes::cld(cpu, self.mode),
            Operation::Cli => status_flag_changes::cli(cpu, self.mode),
            Operation::Clv => status_flag_changes::clv(cpu, self.mode),
            Operation::Cmp => arithmetic::cmp(cpu, self.mode),
            Operation::Cpx => arithmetic::cpx(cpu, self.mode),
            Operation::Cpy => arithmetic::cpy(cpu, self.mode),
            Operation::Dcp => rmw::dcp(cpu, self.mode),
            Operation::Dec => increment_decrements::dec(cpu, self.mode),
            Operation::Dex => increment_decrements::dex(cpu, self.mode),
            Operation::Dey => increment_decrements::dey(cpu, self.mode),
            Operation::Eor => logical::eor(cpu, self.mode),
            Operation::Inc => increment_decrements::inc(cpu, self.mode),
            Operation::Inx => increment_decrements::inx(cpu, self.mode),
            Operation::Iny => increment_decrements::iny(cpu, self.mode),
            Operation::Isc => rmw::isc(cpu, self.mode),
            Operation::Jmp => jumps::jmp(cpu, self.mode),
            Operation::Jsr => jumps::jsr(cpu, self.mode),
            Operation::Lax => combined_ops::lax(cpu, self.mode),
            Operation::Lda => load_store::lda(cpu, self.mode),
            Operation::Ldx => load_store::ldx(cpu, self.mode),
            Operation::Ldy => load_store::ldy(cpu, self.mode),
            Operation::Lsr => shifts::lsr(cpu, self.mode),
            Operation::Nop => system_functions::nop(cpu, self.mode),
            Operation::Ora => logical::ora(cpu, self.mode),
            Operation::Pha => stack_operations::pha(cpu, self.mode),
            Operation::Php => stack_operations::php(cpu, self.mode),
            Operation::Pla => stack_operations::pla(cpu, self.mode),
            Operation::Plp => stack_operations::plp(cpu, self.mode),
            Operation::Rla => rmw::rla(cpu, self.mode),
            Operation::Rol => shifts::rol(cpu, self.mode),
            Operation::Ror => shifts::ror(cpu, self.mode),
            Operation::Rra => rmw::rra(cpu, self.mode),
            Operation::Rti => system_functions::rti(cpu, self.mode),
            Operation::Rts => jumps::rts(cpu, self.mode),
            Operation::Sax => combined_ops::sax(cpu, self.mode),
            Operation::Sbc => arithmetic::sbc(cpu, self.mode),
            Operation::Sec => status_flag_changes::sec(cpu, self.mode),
            Operation::Sed => status_flag_changes::sed(cpu, self.mode),
            Operation::Sei => status_flag_changes::sei(cpu, self.mode),
            Operation::Slo => rmw::slo(cpu, self.mode),
            Operation::Sre => rmw::sre(cpu, self.mode),
            Operation::Sta => load_store::sta(cpu, self.mode),
            Operation::Stx => load_store::stx(cpu, self.mode),
            Operation::Sty => load_store::sty(cpu, self.mode),
            Operation::Tax => register_transfers::tax(cpu, self.mode),
            Operation::Tay => register_transfers::tay(cpu, self.mode),
            Operation::Tsx => register_transfers::tsx(cpu, self.mode),
            Operation::Txa => register_transfers::txa(cpu, self.mode),
            Operation::Txs => register_transfers::txs(cpu, self.mode),
            Operation::Tya => register_transfers::tya(cpu, self.mode),
        }
    }
}

} // verus!
