use vstd::prelude::*;
use crate::cpu::agrees;
use crate::cpu::opcode::AddressingMode;
use crate::cpu::wrap8;
use crate::cpu::CpuState;
use crate::cpu::CPU;
use crate::fault::Fault;

verus! {

impl CpuState {
    /// The byte at the effective address, moved by `step` within eight
    /// bits and stored back; Zero and Negative follow the new byte.
    pub open spec fn step_memory(self, mode: AddressingMode, step: int) -> Result<CpuState, Fault> {
        match self.operand(mode) {
            Ok(((addr, value), after)) => match after.write(addr, wrap8(value + step)) {
                Ok(last) => Ok(last.with_zn(wrap8(value + step))),
                Err(fault) => Err(fault),
            },
            Err(fault) => Err(fault),
        }
    }

    /// INC: the byte at the effective address goes one up.
    pub open spec fn inc(self, mode: AddressingMode) -> Result<CpuState, Fault> {
        self.step_memory(mode, 1)
    }

    /// DEC: the byte at the effective address goes one down.
    pub open spec fn dec(self, mode: AddressingMode) -> Result<CpuState, Fault> {
        self.step_memory(mode, -1)
    }

    /// INX: `X` goes one up, from `0xFF` to 0.
    pub open spec fn inx(self) -> CpuState {
        CpuState { x: wrap8(self.x + 1), ..self }.with_zn(wrap8(self.x + 1))
    }

    /// INY: `Y` goes one up, from `0xFF` to 0.
    pub open spec fn iny(self) -> CpuState {
        CpuState { y: wrap8(self.y + 1), ..self }.with_zn(wrap8(self.y + 1))
    }

    /// DEX: `X` goes one down, from 0 to `0xFF`.
    pub open spec fn dex(self) -> CpuState {
        CpuState { x: wrap8(self.x - 1), ..self }.with_zn(wrap8(self.x - 1))
    }

    /// DEY: `Y` goes one down, from 0 to `0xFF`.
    pub open spec fn dey(self) -> CpuState {
        CpuState { y: wrap8(self.y - 1), ..self }.with_zn(wrap8(self.y - 1))
    }
}

pub fn inc(cpu: &mut CPU, mode: AddressingMode) -> (r: Result<(), Fault>)
    ensures
        agrees(r, final(cpu)@, old(cpu)@.inc(mode)),
{
    let (addr, old_value) = cpu.get_address_and_value(&mode)?;
    let value: u8 = old_value.wrapping_add(1);
    cpu.bus.write8(addr, value)?;
    cpu.update_zero_and_negative_flags(value);
    Ok(())
}

pub fn inx(cpu: &mut CPU, _mode: AddressingMode) -> (r: Result<(), Fault>)
    ensures
        r is Ok,
        final(cpu)@ == old(cpu)@.inx(),
{
    cpu.reg_x = cpu.reg_x.wrapping_add(1);
    cpu.update_zero_and_negative_flags(cpu.reg_x);
    Ok(())
}

pub fn iny(cpu: &mut CPU, _mode: AddressingMode) -> (r: Result<(), Fault>)
    ensures
        r is Ok,
        final(cpu)@ == old(cpu)@.iny(),
{
    cpu.reg_y = cpu.reg_y.wrapping_add(1);
    cpu.update_zero_and_negative_flags(cpu.reg_y);
    Ok(())
}

pub fn dec(cpu: &mut CPU, mode: AddressingMode) -> (r: Result<(), Fault>)
    ensures
        agrees(r, final(cpu)@, old(cpu)@.dec(mode)),
{
    let (addr, old_value) = cpu.get_address_and_value(&mode)?;
    let value: u8 = old_value.wrapping_sub(1);
    cpu.bus.write8(addr, value)?;
    cpu.update_zero_and_negative_flags(value);
    Ok(())
}

pub fn dex(cpu: &mut CPU, _mode: AddressingMode) -> (r: Result<(), Fault>)
    ensures
        r is Ok,
        final(cpu)@ == old(cpu)@.dex(),
{
    cpu.reg_x = cpu.reg_x.wrapping_sub(1);
    cpu.update_zero_and_negative_flags(cpu.reg_x);
    Ok(())
}

pub fn dey(cpu: &mut CPU, _mode: AddressingMode) -> (r: Result<(), Fault>)
    ensures
        r is Ok,
        final(cpu)@ == old(cpu)@.dey(),
{
    cpu.reg_y = cpu.reg_y.wrapping_sub(1);
    cpu.update_zero_and_negative_flags(cpu.reg_y);
    Ok(())
}

} // verus!
