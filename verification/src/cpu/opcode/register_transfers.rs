use vstd::prelude::*;
use crate::cpu::agrees;
use crate::cpu::opcode::AddressingMode;
use crate::cpu::CpuState;
use crate::cpu::CPU;
use crate::fault::Fault;

verus! {

impl CpuState {
    /// TAX: `A` goes to `X`; Zero and Negative follow it.
    pub open spec fn tax(self) -> CpuState {
        CpuState { x: self.a, ..self }.with_zn(self.a)
    }

    /// TAY: `A` goes to `Y`; Zero and Negative follow it.
    pub open spec fn tay(self) -> CpuState {
        CpuState { y: self.a, ..self }.with_zn(self.a)
    }

    /// TSX: the stack pointer goes to `X`; Zero and Negative follow it.
    pub open spec fn tsx(self) -> CpuState {
        CpuState { x: self.stack, ..self }.with_zn(self.stack)
    }

    /// TXA: `X` goes to `A`; Zero and Negative follow it.
    pub open spec fn txa(self) -> CpuState {
        CpuState { a: self.x, ..self }.with_zn(self.x)
    }

    /// TXS: `X` goes to the stack pointer; no flag moves.
    pub open spec fn txs(self) -> CpuState {
        CpuState { stack: self.x, ..self }
    }

    /// TYA: `Y` goes to `A`; Zero and Negative follow it.
    pub open spec fn tya(self) -> CpuState {
        CpuState { a: self.y, ..self }.with_zn(self.y)
    }
}

pub fn tax(cpu: &mut CPU, _mode: AddressingMode) -> (r: Result<(), Fault>)
    ensures
        r is Ok,
        final(cpu)@ == old(cpu)@.tax(),
{
    cpu.reg_x = cpu.reg_a;
    cpu.update_zero_and_negative_flags(cpu.reg_x);
    Ok(())
}

pub fn tay(cpu: &mut CPU, _mode: AddressingMode) -> (r: Result<(), Fault>)
    ensures
        r is Ok,
        final(cpu)@ == old(cpu)@.tay(),
{
    cpu.reg_y = cpu.reg_a;
    cpu.update_zero_and_negative_flags(cpu.reg_y);
    Ok(())
}

pub fn tsx(cpu: &mut CPU, _mode: AddressingMode) -> (r: Result<(), Fault>)
    ensures
        r is Ok,
        final(cpu)@ == old(cpu)@.tsx(),
{
    cpu.reg_x = cpu.stack;
    cpu.update_zero_and_negative_flags(cpu.reg_x);
    Ok(())
}

pub fn txa(cpu: &mut CPU, _mode: AddressingMode) -> (r: Result<(), Fault>)
    ensures
        r is Ok,
        final(cpu)@ == old(cpu)@.txa(),
{
    cpu.reg_a = cpu.reg_x;
    cpu.update_zero_and_negative_flags(cpu.reg_a);
    Ok(())
}

pub fn txs(cpu: &mut CPU, _mode: AddressingMode) -> (r: Result<(), Fault>)
    ensures
        r is Ok,
        final(cpu)@ == old(cpu)@.txs(),
{
    cpu.stack = cpu.reg_x;
    Ok(())
}

pub fn tya(cpu: &mut CPU, _mode: AddressingMode) -> (r: Result<(), Fault>)
    ensures
        r is Ok,
        final(cpu)@ == old(cpu)@.tya(),
{
    cpu.reg_a = cpu.reg_y;
    cpu.update_zero_and_negative_flags(cpu.reg_a);
    Ok(())
}

} // verus!
