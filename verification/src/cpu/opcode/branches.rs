use vstd::prelude::*;
use crate::cpu::agrees;
use crate::cpu::opcode::AddressingMode;
use crate::cpu::StatusFlag;
use crate::cpu::CPU;
use crate::fault::Fault;

verus! {

/// BCS: branches if Carry is set.
pub fn bcs(cpu: &mut CPU, _mode: AddressingMode) -> (r: Result<(), Fault>)
    ensures
        agrees(r, final(cpu)@, old(cpu)@.branch(old(cpu)@.flag(StatusFlag::Carry))),
{
    cpu.branch(cpu.get_flag(StatusFlag::Carry))
}

/// BCC: branches if Carry is clear.
pub fn bcc(cpu: &mut CPU, _mode: AddressingMode) -> (r: Result<(), Fault>)
    ensures
        agrees(r, final(cpu)@, old(cpu)@.branch(!old(cpu)@.flag(StatusFlag::Carry))),
{
    cpu.branch(!cpu.get_flag(StatusFlag::Carry))
}

/// BEQ: branches if Zero is set.
pub fn beq(cpu: &mut CPU, _mode: AddressingMode) -> (r: Result<(), Fault>)
    ensures
        agrees(r, final(cpu)@, old(cpu)@.branch(old(cpu)@.flag(StatusFlag::Zero))),
{
    cpu.branch(cpu.get_flag(StatusFlag::Zero))
}

/// BNE: branches if Zero is clear.
pub fn bne(cpu: &mut CPU, _mode: AddressingMode) -> (r: Result<(), Fault>)
    ensures
        agrees(r, final(cpu)@, old(cpu)@.branch(!old(cpu)@.flag(StatusFlag::Zero))),
{
    cpu.branch(!cpu.get_flag(StatusFlag::Zero))
}

/// BMI: branches if Negative is set.
pub fn bmi(cpu: &mut CPU, _mode: AddressingMode) -> (r: Result<(), Fault>)
    ensures
        agrees(r, final(cpu)@, old(cpu)@.branch(old(cpu)@.flag(StatusFlag::Negative))),
{
    cpu.branch(cpu.get_flag(StatusFlag::Negative))
}

/// BPL: branches if Negative is clear.
pub fn bpl(cpu: &mut CPU, _mode: AddressingMode) -> (r: Result<(), Fault>)
    ensures
        agrees(r, final(cpu)@, old(cpu)@.branch(!old(cpu)@.flag(StatusFlag::Negative))),
{
    cpu.branch(!cpu.get_flag(StatusFlag::Negative))
}

/// BVS: branches if Overflow is set.
pub fn bvs(cpu: &mut CPU, _mode: AddressingMode) -> (r: Result<(), Fault>)
    ensures
        agrees(r, final(cpu)@, old(cpu)@.branch(old(cpu)@.flag(StatusFlag::Overflow))),
{
    cpu.branch(cpu.get_flag(StatusFlag::Overflow))
}

/// BVC: branches if Overflow is clear.
pub fn bvc(cpu: &mut CPU, _mode: AddressingMode) -> (r: Result<(), Fault>)
    ensures
        agrees(r, final(cpu)@, old(cpu)@.branch(!old(cpu)@.flag(StatusFlag::Overflow))),
{
    cpu.branch(!cpu.get_flag(StatusFlag::Overflow))
}

} // verus!
