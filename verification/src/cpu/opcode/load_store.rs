use vstd::prelude::*;
use crate::cpu::agrees;
use crate::cpu::opcode::AddressingMode;
use crate::cpu::CpuState;
use crate::cpu::CPU;
use crate::fault::Fault;

verus! {

impl CpuState {
    /// LDA: the operand goes to `A`; Zero and Negative follow it.
    pub open spec fn lda(self, mode: AddressingMode) -> Result<CpuState, Fault> {
        match self.operand(mode) {
            Ok(((_, value), after)) => Ok(CpuState { a: value, ..after }.with_zn(value)),
            Err(fault) => Err(fault),
        }
    }

    /// LDX: the operand goes to `X`; Zero and Negative follow it.
    pub open spec fn ldx(self, mode: AddressingMode) -> Result<CpuState, Fault> {
        match self.operand(mode) {
            Ok(((_, value), after)) => Ok(CpuState { x: value, ..after }.with_zn(value)),
            Err(fault) => Err(fault),
        }
    }

    /// LDY: the operand goes to `Y`; Zero and Negative follow it.
    pub open spec fn ldy(self, mode: AddressingMode) -> Result<CpuState, Fault> {
        match self.operand(mode) {
            Ok(((_, value), after)) => Ok(CpuState { y: value, ..after }.with_zn(value)),
            Err(fault) => Err(fault),
        }
    }

    /// A store of `value` at the effective address; no flag moves.
    pub open spec fn store(self, mode: AddressingMode, value: u8) -> Result<CpuState, Fault> {
        match self.resolve(mode) {
            Ok((addr, after)) => after.write(addr, value),
            Err(fault) => Err(fault),
        }
    }

    /// STA: `A` is stored at the effective address.
    pub open spec fn sta(self, mode: AddressingMode) -> Result<CpuState, Fault> {
        self.store(mode, self.a)
    }

    /// STX: `X` is stored at the effective address.
    pub open spec fn stx(self, mode: AddressingMode) -> Result<CpuState, Fault> {
        self.store(mode, self.x)
    }

    /// STY: `Y` is stored at the effective address.
    pub open spec fn sty(self, mode: AddressingMode) -> Result<CpuState, Fault> {
        self.store(mode, self.y)
    }
}

pub fn lda(cpu: &mut CPU, mode: AddressingMode) -> (r: Result<(), Fault>)
    ensures
        agrees(r, final(cpu)@, old(cpu)@.lda(mode)),
{
    let (_, value) = cpu.get_address_and_value(&mode)?;
    cpu.reg_a = value;
    cpu.update_zero_and_negative_flags(value);
    Ok(())
}

pub fn ldx(cpu: &mut CPU, mode: AddressingMode) -> (r: Result<(), Fault>)
    ensures
        agrees(r, final(cpu)@, old(cpu)@.ldx(mode)),
{
    let (_, value) = cpu.get_address_and_value(&mode)?;
    cpu.reg_x = value;
    cpu.update_zero_and_negative_flags(value);
    Ok(())
}

pub fn ldy(cpu: &mut CPU, mode: AddressingMode) -> (r: Result<(), Fault>)
    ensures
        agrees(r, final(cpu)@, old(cpu)@.ldy(mode)),
{
    let (_, value) = cpu.get_address_and_value(&mode)?;
    cpu.reg_y = value;
    cpu.update_zero_and_negative_flags(value);
    Ok(())
}

/// Stores `value` at the effective address of `mode`.
pub fn store(cpu: &mut CPU, mode: AddressingMode, value: u8) -> (r: Result<(), Fault>)
    ensures
        agrees(r, final(cpu)@, old(cpu)@.store(mode, value)),
{
    let addr: u16 = cpu.get_address(&mode)?;
    cpu.bus.write8(addr, value)
}

pub fn sta(cpu: &mut CPU, mode: AddressingMode) -> (r: Result<(), Fault>)
    ensures
        agrees(r, final(cpu)@, old(cpu)@.sta(mode)),
{
    store(cpu, mode, cpu.reg_a)
}

pub fn stx(cpu: &mut CPU, mode: AddressingMode) -> (r: Result<(), Fault>)
    ensures
        agrees(r, final(cpu)@, old(cpu)@.stx(mode)),
{
    store(cpu, mode, cpu.reg_x)
}

pub fn sty(cpu: &mut CPU, mode: AddressingMode) -> (r: Result<(), Fault>)
    ensures
        agrees(r, final(cpu)@, old(cpu)@.sty(mode)),
{
    store(cpu, mode, cpu.reg_y)
}

} // verus!
