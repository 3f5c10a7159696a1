use vstd::prelude::*;
use crate::cpu::agrees;
use crate::cpu::opcode::AddressingMode;
use crate::cpu::wrap8;
use crate::cpu::CpuState;
use crate::cpu::StatusFlag;
use crate::cpu::CPU;
use crate::fault::Fault;

verus! {

/// The carry flag as the number that an addition takes in.
pub open spec fn carry_in(state: CpuState) -> int {
    if state.flag(StatusFlag::Carry) {
        1
    } else {
        0
    }
}

/// Whether adding `value` to `a` with result `result` overflowed as a signed
/// addition: both operands differ in sign from the result.
pub open spec fn signed_overflow(a: u8, value: u8, result: u8) -> bool {
    (value ^ result) & (a ^ result) & 0b1000_0000 != 0
}

impl CpuState {
    /// `A + value + Carry` in nine bits: the low eight go to `A`, the ninth
    /// to Carry; Overflow says that the signed sum left the range, and Zero
    /// and Negative follow the new `A`.
    pub open spec fn add_with_carry(self, value: u8) -> CpuState {
        let sum = self.a + value + carry_in(self);
        let result = wrap8(sum);
        CpuState { a: result, ..self }.with_flag(StatusFlag::Carry, sum > 0xFF).with_flag(
            StatusFlag::Overflow,
            signed_overflow(self.a, value, result),
        ).with_zn(result)
    }

    /// The flags of `register - value`, which is not stored: Carry says
    /// that `register >= value`, Zero that they are equal, and Negative is
    /// bit 7 of the difference within eight bits.
    pub open spec fn compare(self, register: u8, value: u8) -> CpuState {
        self.with_flag(StatusFlag::Carry, register >= value).with_flag(
            StatusFlag::Zero,
            register == value,
        ).with_flag(StatusFlag::Negative, wrap8(register - value) & 0b1000_0000 != 0)
    }

    /// ADC: the operand is added to `A` with carry.
    pub open spec fn adc(self, mode: AddressingMode) -> Result<CpuState, Fault> {
        match self.operand(mode) {
            Ok(((_, value), after)) => Ok(after.add_with_carry(value)),
            Err(fault) => Err(fault),
        }
    }

    /// SBC: the complement of the operand is added to `A` with carry.
    pub open spec fn sbc(self, mode: AddressingMode) -> Result<CpuState, Fault> {
        match self.operand(mode) {
            Ok(((_, value), after)) => Ok(after.add_with_carry(value ^ 0xFF)),
            Err(fault) => Err(fault),
        }
    }

    /// CMP: `A` is compared with the operand.
    pub open spec fn compare_a(self, mode: AddressingMode) -> Result<CpuState, Fault> {
        match self.operand(mode) {
            Ok(((_, value), after)) => Ok(after.compare(after.a, value)),
            Err(fault) => Err(fault),
        }
    }

    /// CPX: `X` is compared with the operand.
    pub open spec fn compare_x(self, mode: AddressingMode) -> Result<CpuState, Fault> {
        match self.operand(mode) {
            Ok(((_, value), after)) => Ok(after.compare(after.x, value)),
            Err(fault) => Err(fault),
        }
    }

    /// CPY: `Y` is compared with the operand.
    pub open spec fn compare_y(self, mode: AddressingMode) -> Result<CpuState, Fault> {
        match self.operand(mode) {
            Ok(((_, value), after)) => Ok(after.compare(after.y, value)),
            Err(fault) => Err(fault),
        }
    }
}

pub fn adc(cpu: &mut CPU, mode: AddressingMode) -> (r: Result<(), Fault>)
    ensures
        agrees(r, final(cpu)@, old(cpu)@.adc(mode)),
{
    let (_, value) = cpu.get_address_and_value(&mode)?;
    cpu_addition_with_carry(cpu, value);
    Ok(())
}

pub fn sbc(cpu: &mut CPU, mode: AddressingMode) -> (r: Result<(), Fault>)
    ensures
        agrees(r, final(cpu)@, old(cpu)@.sbc(mode)),
{
    let (_, value) = cpu.get_address_and_value(&mode)?;
    cpu_addition_with_carry(cpu, value ^ 0xFF);
    Ok(())
}

pub fn cmp(cpu: &mut CPU, mode: AddressingMode) -> (r: Result<(), Fault>)
    ensures
        agrees(r, final(cpu)@, old(cpu)@.compare_a(mode)),
{
    let (_, value) = cpu.get_address_and_value(&mode)?;
    compare(cpu, cpu.reg_a, value);
    Ok(())
}

pub fn cpx(cpu: &mut CPU, mode: AddressingMode) -> (r: Result<(), Fault>)
    ensures
        agrees(r, final(cpu)@, old(cpu)@.compare_x(mode)),
{
    let (_, value) = cpu.get_address_and_value(&mode)?;
    compare(cpu, cpu.reg_x, value);
    Ok(())
}

pub fn cpy(cpu: &mut CPU, mode: AddressingMode) -> (r: Result<(), Fault>)
    ensures
        agrees(r, final(cpu)@, old(cpu)@.compare_y(mode)),
{
    let (_, value) = cpu.get_address_and_value(&mode)?;
    compare(cpu, cpu.reg_y, value);
    Ok(())
}

/// Sets the flags of `register - value`.
pub fn compare(cpu: &mut CPU, register: u8, value: u8)
    ensures
        final(cpu)@ == old(cpu)@.compare(register, value),
{
    cpu.set_flag(StatusFlag::Carry, register >= value);
    cpu.set_flag(StatusFlag::Zero, register == value);
    cpu.set_flag(StatusFlag::Negative, register.wrapping_sub(value) & 0b1000_0000 != 0);
}

/// Adds `value` and Carry to `A`.
pub fn cpu_addition_with_carry(cpu: &mut CPU, value: u8)
    ensures
        final(cpu)@ == old(cpu)@.add_with_carry(value),
{
    let carry: u16 = if cpu.get_flag(StatusFlag::Carry) {
        1
    } else {
        0
    };
    let sum: u16 = cpu.reg_a as u16 + value as u16 + carry;
    let result: u8 = (sum % 0x100) as u8;
    let overflow: bool = (value ^ result) & (cpu.reg_a ^ result) & 0b1000_0000 != 0;
    cpu.reg_a = result;
    cpu.set_flag(StatusFlag::Carry, sum > 0xFF);
    cpu.set_flag(StatusFlag::Overflow, overflow);
    cpu.update_zero_and_negative_flags(result);
}

} // verus!
