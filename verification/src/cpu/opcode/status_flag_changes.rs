use vstd::prelude::*;
use crate::cpu::opcode::AddressingMode;
use crate::cpu::StatusFlag;
use crate::cpu::CPU;
use crate::fault::Fault;

verus! {

/// CLC: clears Carry.
pub fn clc(cpu: &mut CPU, _mode: AddressingMode) -> (r: Result<(), Fault>)
    ensures
        r is Ok,
        final(cpu)@ == old(cpu)@.with_flag(StatusFlag::Carry, false),
{
    cpu.set_flag(StatusFlag::Carry, false);
    Ok(())
}

/// CLD: clears Decimal.
pub fn cld(cpu: &mut CPU, _mode: AddressingMode) -> (r: Result<(), Fault>)
    ensures
        r is Ok,
        final(cpu)@ == old(cpu)@.with_flag(StatusFlag::Decimal, false),
{
    cpu.set_flag(StatusFlag::Decimal, false);
    Ok(())
}

/// CLI: clears InterruptDisable.
pub fn cli(cpu: &mut CPU, _mode: AddressingMode) -> (r: Result<(), Fault>)
    ensures
        r is Ok,
        final(cpu)@ == old(cpu)@.with_flag(StatusFlag::InterruptDisable, false),
{
    cpu.set_flag(StatusFlag::InterruptDisable, false);
    Ok(())
}

/// CLV: clears Overflow.
pub fn clv(cpu: &mut CPU, _mode: AddressingMode) -> (r: Result<(), Fault>)
    ensures
        r is Ok,
        final(cpu)@ == old(cpu)@.with_flag(StatusFlag::Overflow, false),
{
    cpu.set_flag(StatusFlag::Overflow, false);
    Ok(())
}

/// SEC: sets Carry.
pub fn sec(cpu: &mut CPU, _mode: AddressingMode) -> (r: Result<(), Fault>)
    ensures
        r is Ok,
        final(cpu)@ == old(cpu)@.with_flag(StatusFlag::Carry, true),
{
    cpu.set_flag(StatusFlag::Carry, true);
    Ok(())
}

/// SED: sets Decimal.
pub fn sed(cpu: &mut CPU, _mode: AddressingMode) -> (r: Result<(), Fault>)
    ensures
        r is Ok,
        final(cpu)@ == old(cpu)@.with_flag(StatusFlag::Decimal, true),
{
    cpu.set_flag(StatusFlag::Decimal, true);
    Ok(())
}

/// SEI: sets InterruptDisable.
pub fn sei(cpu: &mut CPU, _mode: AddressingMode) -> (r: Result<(), Fault>)
    ensures
        r is Ok,
        final(cpu)@ == old(cpu)@.with_flag(StatusFlag::InterruptDisable, true),
{
    cpu.set_flag(StatusFlag::InterruptDisable, true);
    Ok(())
}

} // verus!
