use vstd::prelude::*;
use crate::cpu::opcode::AddressingMode;
use crate::cpu::CpuState;
use crate::cpu::CPU;
use crate::fault::Fault;

verus! {

impl CpuState {
    /// PHA: `A` is pushed.
    pub open spec fn pha(self) -> CpuState {
        self.push8(self.a)
    }

    /// PHP: the status byte is pushed.
    pub open spec fn php(self) -> CpuState {
        self.push8(self.status)
    }

    /// PLA: `A` is pulled; Zero and Negative follow it.
    pub open spec fn pla(self) -> CpuState {
        CpuState { a: self.pulled(), ..self.after_pull() }.with_zn(self.pulled())
    }

    /// PLP: the status byte is pulled and replaces the old one.
    pub open spec fn plp(self) -> CpuState {
        CpuState { status: self.pulled(), ..self.after_pull() }
    }
}

pub fn pha(cpu: &mut CPU, _mode: AddressingMode) -> (r: Result<(), Fault>)
    ensures
        r is Ok,
        final(cpu)@ == old(cpu)@.pha(),
{
    cpu.stack_push_value_u8(cpu.reg_a);
    Ok(())
}

pub fn php(cpu: &mut CPU, _mode: AddressingMode) -> (r: Result<(), Fault>)
    ensures
        r is Ok,
        final(cpu)@ == old(cpu)@.php(),
{
    cpu.stack_push_value_u8(cpu.status);
    Ok(())
}

pub fn pla(cpu: &mut CPU, _mode: AddressingMode) -> (r: Result<(), Fault>)
    ensures
        r is Ok,
        final(cpu)@ == old(cpu)@.pla(),
{
    cpu.reg_a = cpu.stack_pull_value_u8();
    cpu.update_zero_and_negative_flags(cpu.reg_a);
    Ok(())
}

pub fn plp(cpu: &mut CPU, _mode: AddressingMode) -> (r: Result<(), Fault>)
    ensures
        r is Ok,
        final(cpu)@ == old(cpu)@.plp(),
{
    cpu.status = cpu.stack_pull_value_u8();
    Ok(())
}

} // verus!
