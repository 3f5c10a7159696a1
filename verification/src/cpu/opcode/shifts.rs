use vstd::prelude::*;
use crate::cpu::agrees;
use crate::cpu::agrees_with;
use crate::cpu::opcode::AddressingMode;
use crate::cpu::CpuState;
use crate::cpu::StatusFlag;
use crate::cpu::CPU;
use crate::fault::Fault;

verus! {

/// A byte moved one bit to the left; bit 0 is `carry`.
pub open spec fn rotated_left(value: u8, carry: bool) -> u8 {
    (value << 1) | if carry {
        0b0000_0001u8
    } else {
        0u8
    }
}

/// A byte moved one bit to the right; bit 7 is `carry`.
pub open spec fn rotated_right(value: u8, carry: bool) -> u8 {
    (value >> 1) | if carry {
        0b1000_0000u8
    } else {
        0u8
    }
}

impl CpuState {
    /// The operand of a shift: `A` itself in accumulator mode, else the
    /// byte at the effective address, with that address.
    pub open spec fn shift_operand(self, mode: AddressingMode) -> Result<
        ((u8, Option<u16>), CpuState),
        Fault,
    > {
        if mode == AddressingMode::Accumulator {
            Ok(((self.a, None), self))
        } else {
            match self.operand(mode) {
                Ok(((addr, value), after)) => Ok(((value, Some(addr)), after)),
                Err(fault) => Err(fault),
            }
        }
    }

    /// The result of a shift put where the operand came from; Carry takes
    /// the bit that left the byte, and Zero and Negative follow the result.
    pub open spec fn shift_result(self, target: Option<u16>, result: u8, carry: bool) -> Result<
        CpuState,
        Fault,
    > {
        match target {
            Some(addr) => match self.write(addr, result) {
                Ok(after) => Ok(after.with_flag(StatusFlag::Carry, carry).with_zn(result)),
                Err(fault) => Err(fault),
            },
            None => Ok(
                CpuState { a: result, ..self }.with_flag(StatusFlag::Carry, carry).with_zn(result),
            ),
        }
    }

    /// ASL: one bit to the left; bit 7 goes to Carry, bit 0 becomes 0.
    pub open spec fn asl(self, mode: AddressingMode) -> Result<CpuState, Fault> {
        match self.shift_operand(mode) {
            Ok(((value, target), after)) => after.shift_result(
                target,
                rotated_left(value, false),
                value & 0b1000_0000 != 0,
            ),
            Err(fault) => Err(fault),
        }
    }

    /// LSR: one bit to the right; bit 0 goes to Carry, bit 7 becomes 0.
    pub open spec fn lsr(self, mode: AddressingMode) -> Result<CpuState, Fault> {
        match self.shift_operand(mode) {
            Ok(((value, target), after)) => after.shift_result(
                target,
                rotated_right(value, false),
                value & 0b0000_0001 != 0,
            ),
            Err(fault) => Err(fault),
        }
    }

    /// ROL: one bit to the left through Carry: Carry goes to bit 0, bit 7
    /// to Carry.
    pub open spec fn rol(self, mode: AddressingMode) -> Result<CpuState, Fault> {
        match self.shift_operand(mode) {
            Ok(((value, target), after)) => after.shift_result(
                target,
                rotated_left(value, after.flag(StatusFlag::Carry)),
                value & 0b1000_0000 != 0,
            ),
            Err(fault) => Err(fault),
        }
    }

    /// ROR: one bit to the right through Carry: Carry goes to bit 7, bit 0
    /// to Carry.
    pub open spec fn ror(self, mode: AddressingMode) -> Result<CpuState, Fault> {
        match self.shift_operand(mode) {
            Ok(((value, target), after)) => after.shift_result(
                target,
                rotated_right(value, after.flag(StatusFlag::Carry)),
                value & 0b0000_0001 != 0,
            ),
            Err(fault) => Err(fault),
        }
    }
}

/// `value` one bit to the left, with `carry` as bit 0.
pub fn rotate_left(value: u8, carry: bool) -> (r: u8)
    ensures
        r == rotated_left(value, carry),
{
    (value << 1) | if carry {
        0b0000_0001u8
    } else {
        0u8
    }
}

/// `value` one bit to the right, with `carry` as bit 7.
pub fn rotate_right(value: u8, carry: bool) -> (r: u8)
    ensures
        r == rotated_right(value, carry),
{
    (value >> 1) | if carry {
        0b1000_0000u8
    } else {
        0u8
    }
}

/// Puts the result of a shift where its operand came from and sets the
/// flags.
fn finish_shift(cpu: &mut CPU, target: Option<u16>, result: u8, carry: bool) -> (r: Result<
    (),
    Fault,
>)
    ensures
        agrees(r, final(cpu)@, old(cpu)@.shift_result(target, result, carry)),
{
    match target {
        Some(addr) => {
            cpu.bus.write8(addr, result)?;
        },
        None => {
            cpu.reg_a = result;
        },
    }
    cpu.set_flag(StatusFlag::Carry, carry);
    cpu.update_zero_and_negative_flags(result);
    Ok(())
}

pub fn asl(cpu: &mut CPU, mode: AddressingMode) -> (r: Result<(), Fault>)
    ensures
        agrees(r, final(cpu)@, old(cpu)@.asl(mode)),
{
    let (value, target) = resolve_value_and_address(cpu, mode)?;
    finish_shift(cpu, target, rotate_left(value, false), value & 0b1000_0000 != 0)
}

pub fn lsr(cpu: &mut CPU, mode: AddressingMode) -> (r: Result<(), Fault>)
    ensures
        agrees(r, final(cpu)@, old(cpu)@.lsr(mode)),
{
    let (value, target) = resolve_value_and_address(cpu, mode)?;
    finish_shift(cpu, target, rotate_right(value, false), value & 0b0000_0001 != 0)
}

pub fn rol(cpu: &mut CPU, mode: AddressingMode) -> (r: Result<(), Fault>)
    ensures
        agrees(r, final(cpu)@, old(cpu)@.rol(mode)),
{
    let (value, target) = resolve_value_and_address(cpu, mode)?;
    let result: u8 = rotate_left(value, cpu.get_flag(StatusFlag::Carry));
    finish_shift(cpu, target, result, value & 0b1000_0000 != 0)
}

pub fn ror(cpu: &mut CPU, mode: AddressingMode) -> (r: Result<(), Fault>)
    ensures
        agrees(r, final(cpu)@, old(cpu)@.ror(mode)),
{
    let (value, target) = resolve_value_and_address(cpu, mode)?;
    let result: u8 = rotate_right(value, cpu.get_flag(StatusFlag::Carry));
    finish_shift(cpu, target, result, value & 0b0000_0001 != 0)
}

/// The operand of a shift and where it came from: `A` and no address in
/// accumulator mode, else the byte at the effective address.
pub fn resolve_value_and_address(cpu: &mut CPU, mode: AddressingMode) -> (r: Result<
    (u8, Option<u16>),
    Fault,
>)
    ensures
        agrees_with(r, final(cpu)@, old(cpu)@.shift_operand(mode)),
{
    if mode == AddressingMode::Accumulator {
        Ok((cpu.reg_a, None))
    } else {
        let (addr, value) = cpu.get_address_and_value(&mode)?;
        Ok((value, Some(addr)))
    }
}

} // verus!
