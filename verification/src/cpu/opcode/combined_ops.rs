use vstd::prelude::*;
use crate::cpu::agrees;
use crate::cpu::opcode::logical::and;
use crate::cpu::opcode::load_store::store;
use crate::cpu::opcode::shifts::lsr;
use crate::cpu::opcode::shifts::ror;
use crate::cpu::opcode::AddressingMode;
use crate::cpu::wrap8;
use crate::cpu::CpuState;
use crate::cpu::StatusFlag;
use crate::cpu::CPU;
use crate::fault::Fault;

verus! {

impl CpuState {
    /// ALR: AND with the operand, then a shift of `A` to the right.
    pub open spec fn alr(self, mode: AddressingMode) -> Result<CpuState, Fault> {
        match self.and(mode) {
            Ok(after) => after.lsr(AddressingMode::Accumulator),
            Err(fault) => Err(fault),
        }
    }

    /// ANC: AND with the operand, then Carry takes the value of Negative.
    pub open spec fn anc(self, mode: AddressingMode) -> Result<CpuState, Fault> {
        match self.and(mode) {
            Ok(after) => Ok(after.with_flag(StatusFlag::Carry, after.flag(StatusFlag::Negative))),
            Err(fault) => Err(fault),
        }
    }

    /// The flags that ARR takes from the result of its AND, before the
    /// rotation: Carry is bit 6, and Overflow is set when bit 5 is set and
    /// bit 6 is not.
    pub open spec fn arr_flags(self, anded: u8) -> CpuState {
        let bit5 = anded & 0b0010_0000 != 0;
        let bit6 = anded & 0b0100_0000 != 0;
        self.with_flag(StatusFlag::Carry, bit6).with_flag(StatusFlag::Overflow, bit5 && !bit6)
    }

    /// ARR: AND with the operand, then a rotation of `A` to the right
    /// through Carry; Carry and Overflow are then taken from bits 5 and 6
    /// of the result of the AND.
    pub open spec fn arr(self, mode: AddressingMode) -> Result<CpuState, Fault> {
        match self.and(mode) {
            Ok(after) => match after.ror(AddressingMode::Accumulator) {
                Ok(last) => Ok(last.arr_flags(after.a)),
                Err(fault) => Err(fault),
            },
            Err(fault) => Err(fault),
        }
    }

    /// AXS: `X` becomes `(A & X) - operand` within eight bits; Carry says
    /// that no borrow was needed, and Zero and Negative follow the new `X`.
    pub open spec fn axs(self, mode: AddressingMode) -> Result<CpuState, Fault> {
        match self.operand(mode) {
            Ok(((_, value), after)) => {
                let anded = after.a & after.x;
                let result = wrap8(anded - value);
                Ok(
                    CpuState { x: result, ..after }.with_flag(
                        StatusFlag::Carry,
                        anded >= value,
                    ).with_zn(result),
                )
            },
            Err(fault) => Err(fault),
        }
    }

    /// LAX: the operand goes to `A` and to `X`; Zero and Negative follow
    /// it.
    pub open spec fn lax(self, mode: AddressingMode) -> Result<CpuState, Fault> {
        match self.operand(mode) {
            Ok(((_, value), after)) => Ok(CpuState { a: value, x: value, ..after }.with_zn(value)),
            Err(fault) => Err(fault),
        }
    }

    /// SAX: `A & X` is stored at the effective address; no flag moves.
    pub open spec fn sax(self, mode: AddressingMode) -> Result<CpuState, Fault> {
        self.store(mode, self.a & self.x)
    }
}

pub fn alr(cpu: &mut CPU, mode: AddressingMode) -> (r: Result<(), Fault>)
    ensures
        agrees(r, final(cpu)@, old(cpu)@.alr(mode)),
{
    and(cpu, mode)?;
    lsr(cpu, AddressingMode::Accumulator)
}

pub fn anc(cpu: &mut CPU, mode: AddressingMode) -> (r: Result<(), Fault>)
    ensures
        agrees(r, final(cpu)@, old(cpu)@.anc(mode)),
{
    and(cpu, mode)?;
    cpu.set_flag(StatusFlag::Carry, cpu.get_flag(StatusFlag::Negative));
    Ok(())
}

pub fn arr(cpu: &mut CPU, mode: AddressingMode) -> (r: Result<(), Fault>)
    ensures
        agrees(r, final(cpu)@, old(cpu)@.arr(mode)),
{
    and(cpu, mode)?;
    let and_result: u8 = cpu.reg_a;
    ror(cpu, AddressingMode::Accumulator)?;
    let bit5: bool = and_result & 0b0010_0000 != 0;
    let bit6: bool = and_result & 0b0100_0000 != 0;
    if bit6 {
        cpu.set_flag(StatusFlag::Carry, true);
        cpu.set_flag(StatusFlag::Overflow, false);
    } else if bit5 {
        cpu.set_flag(StatusFlag::Carry, false);
        cpu.set_flag(StatusFlag::Overflow, true);
    } else {
        cpu.set_flag(StatusFlag::Carry, false);
        cpu.set_flag(StatusFlag::Overflow, false);
    }
    Ok(())
}

pub fn axs(cpu: &mut CPU, mode: AddressingMode) -> (r: Result<(), Fault>)
    ensures
        agrees(r, final(cpu)@, old(cpu)@.axs(mode)),
{
    let (_, operand) = cpu.get_address_and_value(&mode)?;
    let and_result: u8 = cpu.reg_a & cpu.reg_x;
    let value: u8 = and_result.wrapping_sub(operand);
    cpu.reg_x = value;
    cpu.set_flag(StatusFlag::Carry, and_result >= operand);
    cpu.update_zero_and_negative_flags(value);
    Ok(())
}

pub fn lax(cpu: &mut CPU, mode: AddressingMode) -> (r: Result<(), Fault>)
    ensures
        agrees(r, final(cpu)@, old(cpu)@.lax(mode)),
{
    let (_, value) = cpu.get_address_and_value(&mode)?;
    cpu.reg_a = value;
    cpu.reg_x = value;
    cpu.update_zero_and_negative_flags(value);
    Ok(())
}

pub fn sax(cpu: &mut CPU, mode: AddressingMode) -> (r: Result<(), Fault>)
    ensures
        agrees(r, final(cpu)@, old(cpu)@.sax(mode)),
{
    store(cpu, mode, cpu.reg_a & cpu.reg_x)
}

} // verus!
