use vstd::prelude::*;
use crate::cpu::agrees;
use crate::cpu::opcode::arithmetic::compare;
use crate::cpu::opcode::arithmetic::cpu_addition_with_carry;
use crate::cpu::opcode::logical::load_a;
use crate::cpu::opcode::shifts::rotate_left;
use crate::cpu::opcode::shifts::rotate_right;
use crate::cpu::opcode::shifts::rotated_left;
use crate::cpu::opcode::shifts::rotated_right;
use crate::cpu::opcode::AddressingMode;
use crate::cpu::wrap8;
use crate::cpu::CpuState;
use crate::cpu::StatusFlag;
use crate::cpu::CPU;
use crate::fault::Fault;

verus! {

impl CpuState {
    /// DCP: the byte at the effective address goes one down, and `A` is
    /// compared with the new byte.
    pub open spec fn dcp(self, mode: AddressingMode) -> Result<CpuState, Fault> {
        match self.operand(mode) {
            Ok(((addr, value), after)) => match after.write(addr, wrap8(value - 1)) {
                Ok(last) => Ok(last.compare(last.a, wrap8(value - 1))),
                Err(fault) => Err(fault),
            },
            Err(fault) => Err(fault),
        }
    }

    /// ISB: the byte at the effective address goes one up, and the new
    /// byte is subtracted from `A` with borrow.
    pub open spec fn isc(self, mode: AddressingMode) -> Result<CpuState, Fault> {
        match self.operand(mode) {
            Ok(((addr, value), after)) => match after.write(addr, wrap8(value + 1)) {
                Ok(last) => Ok(last.add_with_carry(wrap8(value + 1) ^ 0xFF)),
                Err(fault) => Err(fault),
            },
            Err(fault) => Err(fault),
        }
    }

    /// RLA: the byte at the effective address is rotated to the left
    /// through Carry, and `A` becomes `A &` the new byte.
    pub open spec fn rla(self, mode: AddressingMode) -> Result<CpuState, Fault> {
        match self.operand(mode) {
            Ok(((addr, value), after)) => {
                let result = rotated_left(value, after.flag(StatusFlag::Carry));
                match after.write(addr, result) {
                    Ok(last) => Ok(
                        last.with_flag(StatusFlag::Carry, value & 0b1000_0000 != 0).load_a(
                            last.a & result,
                        ),
                    ),
                    Err(fault) => Err(fault),
                }
            },
            Err(fault) => Err(fault),
        }
    }

    /// RRA: the byte at the effective address is rotated to the right
    /// through Carry, and the new byte is added to `A` with the carry that
    /// the rotation gave.
    pub open spec fn rra(self, mode: AddressingMode) -> Result<CpuState, Fault> {
        match self.operand(mode) {
            Ok(((addr, value), after)) => {
                let result = rotated_right(value, after.flag(StatusFlag::Carry));
                match after.write(addr, result) {
                    Ok(last) => Ok(
                        last.with_flag(StatusFlag::Carry, value & 0b0000_0001 != 0).add_with_carry(
                            result,
                        ),
                    ),
                    Err(fault) => Err(fault),
                }
            },
            Err(fault) => Err(fault),
        }
    }

    /// SLO: the byte at the effective address is shifted to the left, and
    /// `A` becomes `A |` the new byte.
    pub open spec fn slo(self, mode: AddressingMode) -> Result<CpuState, Fault> {
        match self.operand(mode) {
            Ok(((addr, value), after)) => {
                let result = rotated_left(value, false);
                match after.write(addr, result) {
                    Ok(last) => Ok(
                        last.with_flag(StatusFlag::Carry, value & 0b1000_0000 != 0).load_a(
                            last.a | result,
                        ),
                    ),
                    Err(fault) => Err(fault),
                }
            },
            Err(fault) => Err(fault),
        }
    }

    /// SRE: the byte at the effective address is shifted to the right, and
    /// `A` becomes `A ^` the new byte.
    pub open spec fn sre(self, mode: AddressingMode) -> Result<CpuState, Fault> {
        match self.operand(mode) {
            Ok(((addr, value), after)) => {
                let result = rotated_right(value, false);
                match after.write(addr, result) {
                    Ok(last) => Ok(
                        last.with_flag(StatusFlag::Carry, value & 0b0000_0001 != 0).load_a(
                            last.a ^ result,
                        ),
                    ),
                    Err(fault) => Err(fault),
                }
            },
            Err(fault) => Err(fault),
        }
    }
}

pub fn dcp(cpu: &mut CPU, mode: AddressingMode) -> (r: Result<(), Fault>)
    ensures
        agrees(r, final(cpu)@, old(cpu)@.dcp(mode)),
{
    let (addr, old_value) = cpu.get_address_and_value(&mode)?;
    let value: u8 = old_value.wrapping_sub(1);
    cpu.bus.write8(addr, value)?;
    compare(cpu, cpu.reg_a, value);
    Ok(())
}

pub fn isc(cpu: &mut CPU, mode: AddressingMode) -> (r: Result<(), Fault>)
    ensures
        agrees(r, final(cpu)@, old(cpu)@.isc(mode)),
{
    let (addr, old_value) = cpu.get_address_and_value(&mode)?;
    let value: u8 = old_value.wrapping_add(1);
    cpu.bus.write8(addr, value)?;
    cpu_addition_with_carry(cpu, value ^ 0xFF);
    Ok(())
}

pub fn rla(cpu: &mut CPU, mode: AddressingMode) -> (r: Result<(), Fault>)
    ensures
        agrees(r, final(cpu)@, old(cpu)@.rla(mode)),
{
    let (addr, value) = cpu.get_address_and_value(&mode)?;
    let result: u8 = rotate_left(value, cpu.get_flag(StatusFlag::Carry));
    cpu.bus.write8(addr, result)?;
    cpu.set_flag(StatusFlag::Carry, (value & 0b1000_0000) != 0);
    load_a(cpu, cpu.reg_a & result);
    Ok(())
}

pub fn rra(cpu: &mut CPU, mode: AddressingMode) -> (r: Result<(), Fault>)
    ensures
        agrees(r, final(cpu)@, old(cpu)@.rra(mode)),
{
    let (addr, value) = cpu.get_address_and_value(&mode)?;
    let result: u8 = rotate_right(value, cpu.get_flag(StatusFlag::Carry));
    cpu.bus.write8(addr, result)?;
    cpu.set_flag(StatusFlag::Carry, value & 0b0000_0001 != 0);
    cpu_addition_with_carry(cpu, result);
    Ok(())
}

pub fn slo(cpu: &mut CPU, mode: AddressingMode) -> (r: Result<(), Fault>)
    ensures
        agrees(r, final(cpu)@, old(cpu)@.slo(mode)),
{
    let (addr, value) = cpu.get_address_and_value(&mode)?;
    let result: u8 = rotate_left(value, false);
    cpu.bus.write8(addr, result)?;
    cpu.set_flag(StatusFlag::Carry, (value & 0b1000_0000) != 0);
    load_a(cpu, cpu.reg_a | result);
    Ok(())
}

pub fn sre(cpu: &mut CPU, mode: AddressingMode) -> (r: Result<(), Fault>)
    ensures
        agrees(r, final(cpu)@, old(cpu)@.sre(mode)),
{
    let (addr, value) = cpu.get_address_and_value(&mode)?;
    let result: u8 = rotate_right(value, false);
    cpu.bus.write8(addr, result)?;
    cpu.set_flag(StatusFlag::Carry, value & 0b0000_0001 != 0);
    load_a(cpu, cpu.reg_a ^ result);
    Ok(())
}

} // verus!
