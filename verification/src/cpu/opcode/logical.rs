use vstd::prelude::*;
use crate::cpu::agrees;
use crate::cpu::opcode::AddressingMode;
use crate::cpu::CpuState;
use crate::cpu::StatusFlag;
use crate::cpu::CPU;
use crate::fault::Fault;

verus! {

impl CpuState {
    /// The state with `value` in `A`, and Zero and Negative after it.
    pub open spec fn load_a(self, value: u8) -> CpuState {
        CpuState { a: value, ..self }.with_zn(value)
    }

    /// AND: `A` becomes `A & operand`.
    pub open spec fn and(self, mode: AddressingMode) -> Result<CpuState, Fault> {
        match self.operand(mode) {
            Ok(((_, value), after)) => Ok(after.load_a(after.a & value)),
            Err(fault) => Err(fault),
        }
    }

    /// EOR: `A` becomes `A ^ operand`.
    pub open spec fn eor(self, mode: AddressingMode) -> Result<CpuState, Fault> {
        match self.operand(mode) {
            Ok(((_, value), after)) => Ok(after.load_a(after.a ^ value)),
            Err(fault) => Err(fault),
        }
    }

    /// ORA: `A` becomes `A | operand`.
    pub open spec fn ora(self, mode: AddressingMode) -> Result<CpuState, Fault> {
        match self.operand(mode) {
            Ok(((_, value), after)) => Ok(after.load_a(after.a | value)),
            Err(fault) => Err(fault),
        }
    }

    /// The flags of BIT for the operand `value`: Zero says that `A & value`
    /// is 0, Overflow is bit 6 of the operand and Negative its bit 7.
    pub open spec fn bit_test(self, value: u8) -> CpuState {
        self.with_flag(StatusFlag::Zero, self.a & value == 0).with_flag(
            StatusFlag::Overflow,
            value & 0b0100_0000 != 0,
        ).with_flag(StatusFlag::Negative, value & 0b1000_0000 != 0)
    }

    /// BIT: the operand is tested against `A`; no register moves.
    pub open spec fn bit(self, mode: AddressingMode) -> Result<CpuState, Fault> {
        match self.operand(mode) {
            Ok(((_, value), after)) => Ok(after.bit_test(value)),
            Err(fault) => Err(fault),
        }
    }
}

/// Puts `value` into `A` and takes Zero and Negative from it.
pub fn load_a(cpu: &mut CPU, value: u8)
    ensures
        final(cpu)@ == old(cpu)@.load_a(value),
{
    cpu.reg_a = value;
    cpu.update_zero_and_negative_flags(value);
}

pub fn and(cpu: &mut CPU, mode: AddressingMode) -> (r: Result<(), Fault>)
    ensures
        agrees(r, final(cpu)@, old(cpu)@.and(mode)),
{
    let (_, value) = cpu.get_address_and_value(&mode)?;
    load_a(cpu, cpu.reg_a & value);
    Ok(())
}

pub fn eor(cpu: &mut CPU, mode: AddressingMode) -> (r: Result<(), Fault>)
    ensures
        agrees(r, final(cpu)@, old(cpu)@.eor(mode)),
{
    let (_, value) = cpu.get_address_and_value(&mode)?;
    load_a(cpu, cpu.reg_a ^ value);
    Ok(())
}

pub fn ora(cpu: &mut CPU, mode: AddressingMode) -> (r: Result<(), Fault>)
    ensures
        agrees(r, final(cpu)@, old(cpu)@.ora(mode)),
{
    let (_, value) = cpu.get_address_and_value(&mode)?;
    load_a(cpu, cpu.reg_a | value);
    Ok(())
}

pub fn bit(cpu: &mut CPU, mode: AddressingMode) -> (r: Result<(), Fault>)
    ensures
        agrees(r, final(cpu)@, old(cpu)@.bit(mode)),
{
    let (_, value) = cpu.get_address_and_value(&mode)?;
    cpu.set_flag(StatusFlag::Zero, cpu.reg_a & value == 0);
    cpu.set_flag(StatusFlag::Overflow, value & 0b0100_0000 != 0);
    cpu.set_flag(StatusFlag::Negative, value & 0b1000_0000 != 0);
    Ok(())
}

} // verus!
