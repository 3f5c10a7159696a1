use vstd::prelude::*;
use crate::cpu::agrees;
use crate::cpu::opcode::AddressingMode;
use crate::cpu::CpuState;
use crate::cpu::StatusFlag;
use crate::cpu::CPU;
use crate::fault::Fault;
use crate::utils::set_bit;

verus! {

impl CpuState {
    /// BRK: the Break flag is set, which ends a run. Nothing is pushed and
    /// no vector is taken.
    pub open spec fn brk(self) -> CpuState {
        self.with_flag(StatusFlag::Break, true)
    }

    /// NOP: the operand bytes of the mode are consumed, and nothing else
    /// happens.
    pub open spec fn nop(self, mode: AddressingMode) -> Result<CpuState, Fault> {
        match self.try_resolve(mode) {
            Ok((_, after)) => Ok(after),
            Err(fault) => Err(fault),
        }
    }

    /// RTI: the status byte is pulled, of which bits 4 and 5 are dropped in
    /// favour of the current ones; then the program counter is pulled, low
    /// byte first, and taken as it is.
    pub open spec fn rti(self) -> CpuState {
        CpuState {
            status: (self.status & 0b0011_0000) | (self.pulled() & 0b1100_1111),
            pc: self.after_pull().pulled16(),
            ..self.after_pull().after_pull().after_pull()
        }
    }
}

pub fn brk(cpu: &mut CPU, _mode: AddressingMode) -> (r: Result<(), Fault>)
    ensures
        r is Ok,
        final(cpu)@ == old(cpu)@.brk(),
{
    cpu.status = set_bit(cpu.status, StatusFlag::Break.mask(), true);
    Ok(())
}

pub fn nop(cpu: &mut CPU, mode: AddressingMode) -> (r: Result<(), Fault>)
    ensures
        agrees(r, final(cpu)@, old(cpu)@.nop(mode)),
{
    let _ = cpu.try_get_address(&mode)?;
    Ok(())
}

pub fn rti(cpu: &mut CPU, _mode: AddressingMode) -> (r: Result<(), Fault>)
    ensures
        r is Ok,
        final(cpu)@ == old(cpu)@.rti(),
{
    let value: u8 = cpu.stack_pull_value_u8();
    cpu.status = (cpu.status & 0b0011_0000) | (value & 0b1100_1111);
    cpu.pc = cpu.stack_pull_value_u16();
    Ok(())
}

} // verus!
