use vstd::prelude::*;
use crate::cpu::agrees;
use crate::cpu::opcode::AddressingMode;
use crate::cpu::wrap16;
use crate::cpu::CpuState;
use crate::cpu::CPU;
use crate::fault::Fault;

verus! {

impl CpuState {
    /// JMP: the program counter becomes the effective address.
    pub open spec fn jmp(self, mode: AddressingMode) -> Result<CpuState, Fault> {
        match self.resolve(mode) {
            Ok((addr, after)) => Ok(CpuState { pc: addr, ..after }),
            Err(fault) => Err(fault),
        }
    }

    /// JSR: the address of the last operand byte is pushed, high byte
    /// first, and the program counter becomes the effective address.
    pub open spec fn jsr(self, mode: AddressingMode) -> Result<CpuState, Fault> {
        match self.resolve(mode) {
            Ok((addr, after)) => Ok(CpuState { pc: addr, ..after.push16(wrap16(after.pc - 1)) }),
            Err(fault) => Err(fault),
        }
    }

    /// RTS: a word is pulled, low byte first, and the program counter
    /// becomes the address after it.
    pub open spec fn rts(self) -> CpuState {
        CpuState { pc: wrap16(self.pulled16() + 1), ..self.after_pull().after_pull() }
    }
}

pub fn jmp(cpu: &mut CPU, mode: AddressingMode) -> (r: Result<(), Fault>)
    ensures
        agrees(r, final(cpu)@, old(cpu)@.jmp(mode)),
{
    let addr: u16 = cpu.get_address(&mode)?;
    cpu.pc = addr;
    Ok(())
}

pub fn jsr(cpu: &mut CPU, mode: AddressingMode) -> (r: Result<(), Fault>)
    ensures
        agrees(r, final(cpu)@, old(cpu)@.jsr(mode)),
{
    let addr: u16 = cpu.get_address(&mode)?;
    cpu.stack_push_value_u16(cpu.pc.wrapping_sub(1));
    cpu.pc = addr;
    Ok(())
}

pub fn rts(cpu: &mut CPU, _mode: AddressingMode) -> (r: Result<(), Fault>)
    ensures
        r is Ok,
        final(cpu)@ == old(cpu)@.rts(),
{
    let addr: u16 = cpu.stack_pull_value_u16();
    cpu.pc = addr.wrapping_add(1);
    Ok(())
}

} // verus!
