use vstd::prelude::*;
use crate::cpu::opcode::arithmetic::carry_in;
use crate::cpu::opcode::shifts::rotated_left;
use crate::cpu::opcode::shifts::rotated_right;
use crate::cpu::opcode::AddressingMode;
use crate::cpu::opcode::Operation;
use crate::cpu::wrap16;
use crate::cpu::wrap8;
use crate::cpu::CpuState;
use crate::cpu::StatusFlag;
use crate::fault::Fault;
use crate::mem::bus::lemma_bus_bits;
use crate::mem::bus::lemma_ram_access;
use crate::mem::bus::next_addr;
use crate::utils::lemma_set_bit;

verus! {

/// Each flag has one bit of its own, and bit 7 of a byte is set exactly
/// when the byte is 128 or more.
proof fn lemma_flag_bits(a: u8, b: u8, value: u8)
    by (bit_vector)
    requires
        a == 0x01 || a == 0x02 || a == 0x04 || a == 0x08 || a == 0x10 || a == 0x40 || a == 0x80,
        b == 0x01 || b == 0x02 || b == 0x04 || b == 0x08 || b == 0x10 || b == 0x40 || b == 0x80,
    ensures
        a != b ==> a & b == 0,
        a != b ==> b & a == 0,
        a & a == a,
        a != 0,
        (value & 0x80 != 0) <==> value >= 0x80,
        (value & 0x80 != 0) <==> (value >> 7) == 1,
        value + (value ^ 0xFF) == 0xFF,
{
}

/// A flag reads back as it was set, and setting one flag moves no other
/// flag and no register.
pub proof fn lemma_with_flag(s: CpuState, flag: StatusFlag, value: bool, other: StatusFlag)
    ensures
        s.with_flag(flag, value).flag(flag) == value,
        other != flag ==> s.with_flag(flag, value).flag(other) == s.flag(other),
        s.with_flag(flag, value) == (CpuState { status: s.with_flag(flag, value).status, ..s }),
{
    lemma_flag_bits(flag.mask(), other.mask(), 0);
    lemma_set_bit(s.status, flag.mask(), value);
}

/// After Zero and Negative were taken from a result, Zero says that the
/// result is 0 and Negative is its bit 7; the other flags and the registers
/// stay.
pub proof fn lemma_with_zn(s: CpuState, result: u8, other: StatusFlag)
    ensures
        s.with_zn(result).flag(StatusFlag::Zero) == (result == 0),
        s.with_zn(result).flag(StatusFlag::Negative) == ((result >> 7) == 1),
        s.with_zn(result).flag(StatusFlag::Negative) == (result >= 0x80),
        other != StatusFlag::Zero && other != StatusFlag::Negative ==> s.with_zn(result).flag(other)
            == s.flag(other),
        s.with_zn(result) == (CpuState { status: s.with_zn(result).status, ..s }),
{
    let z = s.with_flag(StatusFlag::Zero, result == 0);
    lemma_with_flag(s, StatusFlag::Zero, result == 0, other);
    lemma_with_flag(s, StatusFlag::Zero, result == 0, StatusFlag::Negative);
    lemma_with_flag(z, StatusFlag::Negative, result & 0b1000_0000 != 0, StatusFlag::Zero);
    lemma_with_flag(z, StatusFlag::Negative, result & 0b1000_0000 != 0, other);
    lemma_flag_bits(1, 1, result);
}

/// The eight-bit result that an instruction leaves in `A`, `X`, `Y` or in
/// memory, for the instructions whose Zero and Negative flags describe that
/// result. Stores, transfers to the stack pointer, pushes, compares, bit
/// tests and the decrement-and-compare have none.
pub open spec fn result_of(
    before: CpuState,
    after: CpuState,
    op: Operation,
    mode: AddressingMode,
) -> Option<u8> {
    match op {
        Operation::Lda
        | Operation::Txa
        | Operation::Tya
        | Operation::Pla
        | Operation::Adc
        | Operation::Sbc
        | Operation::And
        | Operation::Eor
        | Operation::Ora
        | Operation::Alr
        | Operation::Anc
        | Operation::Arr
        | Operation::Lax
        | Operation::Isc
        | Operation::Rla
        | Operation::Rra
        | Operation::Slo
        | Operation::Sre => Some(after.a),
        Operation::Ldx
        | Operation::Tax
        | Operation::Tsx
        | Operation::Inx
        | Operation::Dex
        | Operation::Axs => Some(after.x),
        Operation::Ldy | Operation::Tay | Operation::Iny | Operation::Dey => Some(after.y),
        Operation::Inc => match before.operand(mode) {
            Ok(((_, value), _)) => Some(wrap8(value + 1)),
            Err(_) => None,
        },
        Operation::Dec => match before.operand(mode) {
            Ok(((_, value), _)) => Some(wrap8(value - 1)),
            Err(_) => None,
        },
        Operation::Asl => match before.shift_operand(mode) {
            Ok(((value, _), _)) => Some(rotated_left(value, false)),
            Err(_) => None,
        },
        Operation::Lsr => match before.shift_operand(mode) {
            Ok(((value, _), _)) => Some(rotated_right(value, false)),
            Err(_) => None,
        },
        Operation::Rol => match before.shift_operand(mode) {
            Ok(((value, _), read)) => Some(rotated_left(value, read.flag(StatusFlag::Carry))),
            Err(_) => None,
        },
        Operation::Ror => match before.shift_operand(mode) {
            Ok(((value, _), read)) => Some(rotated_right(value, read.flag(StatusFlag::Carry))),
            Err(_) => None,
        },
        _ => None,
    }
}

/// The flags of a state say of `result` what Zero and Negative are to say.
pub open spec fn describes(state: CpuState, result: u8) -> bool {
    &&& state.flag(StatusFlag::Zero) == (result == 0)
    &&& state.flag(StatusFlag::Negative) == ((result >> 7) == 1)
}

/// The loads leave Zero and Negative describing what they loaded.
proof fn lemma_loads(s: CpuState, mode: AddressingMode)
    ensures
        s.lda(mode) is Ok ==> describes(s.lda(mode)->Ok_0, s.lda(mode)->Ok_0.a),
        s.ldx(mode) is Ok ==> describes(s.ldx(mode)->Ok_0, s.ldx(mode)->Ok_0.x),
        s.ldy(mode) is Ok ==> describes(s.ldy(mode)->Ok_0, s.ldy(mode)->Ok_0.y),
        s.lax(mode) is Ok ==> describes(s.lax(mode)->Ok_0, s.lax(mode)->Ok_0.a),
{
    if s.operand(mode) is Ok {
        let ((_, value), read) = s.operand(mode)->Ok_0;
        lemma_zn_of_any(value);
    }
}

/// AND, EOR and ORA leave Zero and Negative describing the new `A`.
proof fn lemma_logic(s: CpuState, mode: AddressingMode)
    ensures
        s.and(mode) is Ok ==> describes(s.and(mode)->Ok_0, s.and(mode)->Ok_0.a),
        s.eor(mode) is Ok ==> describes(s.eor(mode)->Ok_0, s.eor(mode)->Ok_0.a),
        s.ora(mode) is Ok ==> describes(s.ora(mode)->Ok_0, s.ora(mode)->Ok_0.a),
{
    if s.operand(mode) is Ok {
        let ((_, value), read) = s.operand(mode)->Ok_0;
        lemma_zn_of_any(read.a & value);
        lemma_zn_of_any(read.a ^ value);
        lemma_zn_of_any(read.a | value);
    }
}

/// ADC and SBC leave Zero and Negative describing the new `A`.
proof fn lemma_arithmetic(s: CpuState, mode: AddressingMode)
    ensures
        s.adc(mode) is Ok ==> describes(s.adc(mode)->Ok_0, s.adc(mode)->Ok_0.a),
        s.sbc(mode) is Ok ==> describes(s.sbc(mode)->Ok_0, s.sbc(mode)->Ok_0.a),
{
    if s.operand(mode) is Ok {
        let ((_, value), read) = s.operand(mode)->Ok_0;
        lemma_add_with_carry_flags(read, value);
        lemma_add_with_carry_flags(read, value ^ 0xFF);
    }
}

/// The transfers, the register steps and PLA leave Zero and Negative
/// describing the register they wrote.
proof fn lemma_registers(s: CpuState)
    ensures
        describes(s.tax(), s.tax().x),
        describes(s.tay(), s.tay().y),
        describes(s.tsx(), s.tsx().x),
        describes(s.txa(), s.txa().a),
        describes(s.tya(), s.tya().a),
        describes(s.inx(), s.inx().x),
        describes(s.iny(), s.iny().y),
        describes(s.dex(), s.dex().x),
        describes(s.dey(), s.dey().y),
        describes(s.pla(), s.pla().a),
{
    lemma_zn_of_any(s.a);
    lemma_zn_of_any(s.x);
    lemma_zn_of_any(s.y);
    lemma_zn_of_any(s.stack);
    lemma_zn_of_any(wrap8(s.x + 1));
    lemma_zn_of_any(wrap8(s.x - 1));
    lemma_zn_of_any(wrap8(s.y + 1));
    lemma_zn_of_any(wrap8(s.y - 1));
    lemma_zn_of_any(s.pulled());
}

/// INC and DEC leave Zero and Negative describing the byte they stored.
proof fn lemma_memory_steps(s: CpuState, mode: AddressingMode, step: int)
    ensures
        s.step_memory(mode, step) is Ok ==> s.operand(mode) is Ok && describes(
            s.step_memory(mode, step)->Ok_0,
            wrap8(s.operand(mode)->Ok_0.0.1 + step),
        ),
{
    if s.operand(mode) is Ok {
        let ((_, value), read) = s.operand(mode)->Ok_0;
        lemma_zn_of_any(wrap8(value + step));
    }
}

/// The shifts leave Zero and Negative describing the shifted byte, which
/// in accumulator mode is the new `A`.
proof fn lemma_shifts(s: CpuState, mode: AddressingMode)
    ensures
        s.asl(mode) is Ok ==> s.shift_operand(mode) is Ok && describes(
            s.asl(mode)->Ok_0,
            rotated_left(s.shift_operand(mode)->Ok_0.0.0, false),
        ),
        s.lsr(mode) is Ok ==> s.shift_operand(mode) is Ok && describes(
            s.lsr(mode)->Ok_0,
            rotated_right(s.shift_operand(mode)->Ok_0.0.0, false),
        ),
        s.rol(mode) is Ok ==> s.shift_operand(mode) is Ok && describes(
            s.rol(mode)->Ok_0,
            rotated_left(
                s.shift_operand(mode)->Ok_0.0.0,
                s.shift_operand(mode)->Ok_0.1.flag(StatusFlag::Carry),
            ),
        ),
        s.ror(mode) is Ok ==> s.shift_operand(mode) is Ok && describes(
            s.ror(mode)->Ok_0,
            rotated_right(
                s.shift_operand(mode)->Ok_0.0.0,
                s.shift_operand(mode)->Ok_0.1.flag(StatusFlag::Carry),
            ),
        ),
        mode == AddressingMode::Accumulator ==> {
            &&& s.lsr(mode) is Ok
            &&& s.lsr(mode)->Ok_0.a == rotated_right(s.a, false)
            &&& s.ror(mode) is Ok
            &&& s.ror(mode)->Ok_0.a == rotated_right(s.a, s.flag(StatusFlag::Carry))
            &&& describes(s.lsr(mode)->Ok_0, s.lsr(mode)->Ok_0.a)
            &&& describes(s.ror(mode)->Ok_0, s.ror(mode)->Ok_0.a)
        },
{
    if s.shift_operand(mode) is Ok {
        let ((value, target), read) = s.shift_operand(mode)->Ok_0;
        lemma_shift_result_flags(read, target, rotated_left(value, false), value & 0b1000_0000 != 0);
        lemma_shift_result_flags(read, target, rotated_right(value, false), value & 0b0000_0001 != 0);
        lemma_shift_result_flags(
            read,
            target,
            rotated_left(value, read.flag(StatusFlag::Carry)),
            value & 0b1000_0000 != 0,
        );
        lemma_shift_result_flags(
            read,
            target,
            rotated_right(value, read.flag(StatusFlag::Carry)),
            value & 0b0000_0001 != 0,
        );
    }
}

/// ALR, ANC, ARR and AXS leave Zero and Negative describing the register
/// they wrote.
proof fn lemma_combined(s: CpuState, mode: AddressingMode)
    ensures
        s.alr(mode) is Ok ==> describes(s.alr(mode)->Ok_0, s.alr(mode)->Ok_0.a),
        s.anc(mode) is Ok ==> describes(s.anc(mode)->Ok_0, s.anc(mode)->Ok_0.a),
        s.arr(mode) is Ok ==> describes(s.arr(mode)->Ok_0, s.arr(mode)->Ok_0.a),
        s.axs(mode) is Ok ==> describes(s.axs(mode)->Ok_0, s.axs(mode)->Ok_0.x),
{
    if s.and(mode) is Ok {
        let anded = s.and(mode)->Ok_0;
        lemma_logic(s, mode);
        lemma_shifts(anded, AddressingMode::Accumulator);
        lemma_with_flag(
            anded,
            StatusFlag::Carry,
            anded.flag(StatusFlag::Negative),
            StatusFlag::Zero,
        );
        lemma_with_flag(
            anded,
            StatusFlag::Carry,
            anded.flag(StatusFlag::Negative),
            StatusFlag::Negative,
        );
        let rotated = anded.ror(AddressingMode::Accumulator)->Ok_0;
        let bit5 = anded.a & 0b0010_0000 != 0;
        let bit6 = anded.a & 0b0100_0000 != 0;
        let carried = rotated.with_flag(StatusFlag::Carry, bit6);
        lemma_with_flag(rotated, StatusFlag::Carry, bit6, StatusFlag::Zero);
        lemma_with_flag(rotated, StatusFlag::Carry, bit6, StatusFlag::Negative);
        lemma_with_flag(carried, StatusFlag::Overflow, bit5 && !bit6, StatusFlag::Zero);
        lemma_with_flag(carried, StatusFlag::Overflow, bit5 && !bit6, StatusFlag::Negative);
    }
    if s.operand(mode) is Ok {
        let ((_, value), read) = s.operand(mode)->Ok_0;
        lemma_zn_of_any(wrap8((read.a & read.x) - value));
    }
}

/// ISB, RRA, RLA, SLO and SRE leave Zero and Negative describing the new
/// `A`.
proof fn lemma_read_modify_write(s: CpuState, mode: AddressingMode)
    ensures
        s.isc(mode) is Ok ==> describes(s.isc(mode)->Ok_0, s.isc(mode)->Ok_0.a),
        s.rra(mode) is Ok ==> describes(s.rra(mode)->Ok_0, s.rra(mode)->Ok_0.a),
        s.rla(mode) is Ok ==> describes(s.rla(mode)->Ok_0, s.rla(mode)->Ok_0.a),
        s.slo(mode) is Ok ==> describes(s.slo(mode)->Ok_0, s.slo(mode)->Ok_0.a),
        s.sre(mode) is Ok ==> describes(s.sre(mode)->Ok_0, s.sre(mode)->Ok_0.a),
{
    if s.operand(mode) is Ok {
        let ((addr, value), read) = s.operand(mode)->Ok_0;
        if s.isc(mode) is Ok {
            let written = read.write(addr, wrap8(value + 1))->Ok_0;
            lemma_add_with_carry_flags(written, wrap8(value + 1) ^ 0xFF);
        }
        if s.rra(mode) is Ok {
            let result = rotated_right(value, read.flag(StatusFlag::Carry));
            let written = read.write(addr, result)->Ok_0;
            lemma_add_with_carry_flags(
                written.with_flag(StatusFlag::Carry, value & 0b0000_0001 != 0),
                result,
            );
        }
        if s.rla(mode) is Ok {
            lemma_zn_of_any(s.rla(mode)->Ok_0.a);
        }
        if s.slo(mode) is Ok {
            lemma_zn_of_any(s.slo(mode)->Ok_0.a);
        }
        if s.sre(mode) is Ok {
            lemma_zn_of_any(s.sre(mode)->Ok_0.a);
        }
    }
}

/// After every instruction that leaves an eight-bit result in `A`, `X`, `Y`
/// or in memory, Zero says that the result is 0 and Negative is bit 7 of the
/// result.
pub proof fn lemma_zero_negative_follow_result(s: CpuState, op: Operation, mode: AddressingMode)
    requires
        s.execute(op, mode) is Ok,
        result_of(s, s.execute(op, mode)->Ok_0, op, mode) is Some,
    ensures
        describes(
            s.execute(op, mode)->Ok_0,
            result_of(s, s.execute(op, mode)->Ok_0, op, mode)->Some_0,
        ),
{
    match op {
        Operation::Lda | Operation::Ldx | Operation::Ldy | Operation::Lax => {
            lemma_loads(s, mode);
        },
        Operation::And | Operation::Eor | Operation::Ora => {
            lemma_logic(s, mode);
        },
        Operation::Adc | Operation::Sbc => {
            lemma_arithmetic(s, mode);
        },
        Operation::Txa
        | Operation::Tax
        | Operation::Tsx
        | Operation::Tay
        | Operation::Tya
        | Operation::Inx
        | Operation::Dex
        | Operation::Iny
        | Operation::Dey
        | Operation::Pla => {
            lemma_registers(s);
        },
        Operation::Inc => {
            lemma_memory_steps(s, mode, 1);
        },
        Operation::Dec => {
            lemma_memory_steps(s, mode, -1);
        },
        Operation::Asl | Operation::Lsr | Operation::Rol | Operation::Ror => {
            lemma_shifts(s, mode);
        },
        Operation::Alr | Operation::Anc | Operation::Arr | Operation::Axs => {
            lemma_combined(s, mode);
        },
        Operation::Isc | Operation::Rra | Operation::Rla | Operation::Slo | Operation::Sre => {
            lemma_read_modify_write(s, mode);
        },
        _ => {},
    }
}

/// Whatever the state, taking Zero and Negative from `result` makes them
/// describe it.
proof fn lemma_zn_of_any(result: u8)
    ensures
        forall|s: CpuState| #[trigger] describes(s.with_zn(result), result),
        forall|s: CpuState| #[trigger] s.with_zn(result).a == s.a,
        forall|s: CpuState| #[trigger] s.with_zn(result).x == s.x,
        forall|s: CpuState| #[trigger] s.with_zn(result).y == s.y,
{
    assert forall|s: CpuState| #[trigger] describes(s.with_zn(result), result) by {
        lemma_with_zn(s, result, StatusFlag::Carry);
    }
}

/// An addition with carry leaves Zero and Negative describing the new `A`.
proof fn lemma_add_with_carry_flags(s: CpuState, value: u8)
    ensures
        describes(s.add_with_carry(value), s.add_with_carry(value).a),
{
    lemma_zn_of_any(wrap8(s.a + value + carry_in(s)));
}

/// A shift leaves Zero and Negative describing its result, and in
/// accumulator mode the result is in `A`.
proof fn lemma_shift_result_flags(s: CpuState, target: Option<u16>, result: u8, carry: bool)
    ensures
        s.shift_result(target, result, carry) is Ok ==> describes(
            s.shift_result(target, result, carry)->Ok_0,
            result,
        ),
        target is None ==> s.shift_result(target, result, carry) is Ok && s.shift_result(
            target,
            result,
            carry,
        )->Ok_0.a == result,
{
    lemma_zn_of_any(result);
}

/// A push stores the value at `$0100 | SP` and takes the stack pointer one
/// down within eight bits; a read at the address of the old stack pointer
/// returns the value pushed.
pub proof fn lemma_push(s: CpuState, value: u8)
    requires
        s.bus.ram.len() == 2048,
    ensures
        s.push8(value).stack == wrap8(s.stack - 1),
        s.stack_address() == 0x0100 + s.stack,
        s.push8(value).bus.ram[0x0100 + s.stack] == value,
        s.push8(value).read(s.stack_address()) == Ok::<(u8, CpuState), Fault>(
            (value, s.push8(value)),
        ),
        s.write(s.stack_address(), value) == Ok::<CpuState, Fault>(
            CpuState { stack: s.stack, ..s.push8(value) },
        ),
{
    crate::cpu::lemma_stack_bits(s.stack, 0);
    lemma_ram_access(s.bus, s.stack_address(), value);
    lemma_ram_access(s.push8(value).bus, s.stack_address(), value);
}

/// A pull takes the stack pointer one up within eight bits and returns
/// the byte that stands at `$0100 | SP` for the new stack pointer.
pub proof fn lemma_pull(s: CpuState)
    ensures
        s.after_pull().stack == wrap8(s.stack + 1),
        s.after_pull().stack_address() == 0x0100 + wrap8(s.stack + 1),
        s.pulled() == s.bus.ram[0x0100 + wrap8(s.stack + 1)],
        s.after_pull().read(s.after_pull().stack_address()) == Ok::<(u8, CpuState), Fault>(
            (s.pulled(), s.after_pull()),
        ),
{
    crate::cpu::lemma_stack_bits(s.after_pull().stack, 0);
    lemma_ram_access(s.after_pull().bus, s.after_pull().stack_address(), 0);
}

/// What was pushed is what the next pull returns, and the pull puts the
/// stack pointer back.
pub proof fn lemma_push_then_pull(s: CpuState, value: u8)
    requires
        s.bus.ram.len() == 2048,
    ensures
        s.push8(value).pulled() == value,
        s.push8(value).after_pull().stack == s.stack,
{
    crate::cpu::lemma_stack_bits(s.stack, 0);
}

/// A word that was pushed is the word that the next two pulls return, and
/// they put the stack pointer back.
pub proof fn lemma_push16_then_pull16(s: CpuState, value: u16)
    requires
        s.bus.ram.len() == 2048,
    ensures
        s.push16(value).pulled16() == value,
        s.push16(value).after_pull().after_pull().stack == s.stack,
{
    crate::cpu::lemma_stack_bits(s.stack, 0);
    crate::cpu::lemma_stack_bits(wrap8(s.stack - 1), 0);
    lemma_bus_bits(value, 0, 0);
}

/// The program counter counts within sixteen bits: a fetch of a byte
/// leaves it one further, a fetch of a word two further, an immediate
/// operand one further, and each of these wraps from `$FFFF` to `$0000`; a
/// branch lands within sixteen bits of where it started.
pub proof fn lemma_pc_wraps(s: CpuState, offset: u8)
    ensures
        s.fetch8() is Ok ==> s.fetch8()->Ok_0.1.pc == wrap16(s.pc + 1),
        s.fetch16() is Ok ==> s.fetch16()->Ok_0.1.pc == wrap16(s.pc + 2),
        s.resolve(AddressingMode::Immediate) is Ok,
        s.resolve(AddressingMode::Immediate)->Ok_0.0 == s.pc,
        s.resolve(AddressingMode::Immediate)->Ok_0.1.pc == wrap16(s.pc + 1),
        next_addr(s.pc) == wrap16(s.pc + 1),
        offset < 0x80 ==> s.branch_target(offset) == wrap16(s.pc + offset),
        offset >= 0x80 ==> s.branch_target(offset) == wrap16(s.pc + offset - 256),
{
    reveal(CpuState::resolve);
}

/// An addition of `value` followed by a subtraction of `value` brings `A`
/// back, up to the carries: the subtraction undoes the addition and then
/// adds the carry that went into the addition and the carry that went into
/// the subtraction, less one. With Carry clear before the addition and set
/// before the subtraction, `A` is what it was.
pub proof fn lemma_adc_sbc_inverse(s: CpuState, value: u8, carry_between: bool)
    ensures
        s.add_with_carry(value).with_flag(StatusFlag::Carry, carry_between).add_with_carry(
            value ^ 0xFF,
        ).a == wrap8(
            s.a + carry_in(s) + if carry_between {
                1int
            } else {
                0int
            } - 1,
        ),
        !s.flag(StatusFlag::Carry) && carry_between ==> s.add_with_carry(value).with_flag(
            StatusFlag::Carry,
            carry_between,
        ).add_with_carry(value ^ 0xFF).a == s.a,
{
    let added = s.add_with_carry(value);
    let between = added.with_flag(StatusFlag::Carry, carry_between);
    lemma_zn_of_any(added.a);
    lemma_with_flag(added, StatusFlag::Carry, carry_between, StatusFlag::Zero);
    lemma_flag_bits(1, 1, value);
    assert(added.a == wrap8(s.a + value + carry_in(s)));
    assert(between.a == added.a);
    assert(carry_in(between) == if carry_between {
        1int
    } else {
        0int
    });
}

/// A return right after a word was pushed goes to the address after that
/// word and puts the stack pointer back, wherever the program counter was.
proof fn lemma_rts_after_push(t: CpuState, ret: u16, target: u16)
    requires
        t.bus.ram.len() == 2048,
    ensures
        (CpuState { pc: target, ..t.push16(ret) }).rts().pc == wrap16(ret + 1),
        (CpuState { pc: target, ..t.push16(ret) }).rts().stack == t.stack,
{
    lemma_push16_then_pull16(t, ret);
    let called = CpuState { pc: target, ..t.push16(ret) };
    assert(called.pulled16() == t.push16(ret).pulled16());
    assert(called.after_pull().after_pull().stack == t.push16(ret).after_pull().after_pull().stack);
}

/// A fetch of a word changes no cell of RAM and leaves the program
/// counter two bytes on.
proof fn lemma_fetch16_keeps_ram(s: CpuState)
    ensures
        s.fetch16() is Ok ==> s.fetch16()->Ok_0.1.bus.ram == s.bus.ram && s.fetch16()->Ok_0.1.pc
            == wrap16(s.pc + 2),
{
    lemma_read_keeps_ram(s.bus, s.pc);
    match s.bus.read8(s.pc) {
        Ok((_, after)) => lemma_read_keeps_ram(after, next_addr(s.pc)),
        Err(_) => {},
    }
}

/// A call and the return from it: after JSR and then RTS the program
/// counter stands behind the operand of the JSR, and the stack pointer is
/// what it was before the call.
pub proof fn lemma_jsr_rts_round_trip(s: CpuState)
    requires
        s.bus.ram.len() == 2048,
        s.jsr(AddressingMode::Absolute) is Ok,
    ensures
        s.jsr(AddressingMode::Absolute)->Ok_0.rts().pc == wrap16(s.pc + 2),
        s.jsr(AddressingMode::Absolute)->Ok_0.rts().stack == s.stack,
        s.jsr(AddressingMode::Absolute)->Ok_0.pc == s.fetch16()->Ok_0.0,
{
    reveal(CpuState::resolve);
    lemma_fetch16_keeps_ram(s);
    let (target, fetched) = s.fetch16()->Ok_0;
    assert(s.resolve(AddressingMode::Absolute) == Ok::<(u16, CpuState), Fault>((target, fetched)));
    lemma_rts_after_push(fetched, wrap16(fetched.pc - 1), target);
}

/// A read never changes RAM.
pub proof fn lemma_read_keeps_ram(bus: crate::mem::bus::BusState, addr: u16)
    ensures
        bus.read8(addr) is Ok ==> bus.read8(addr)->Ok_0.1.ram == bus.ram,
{
    reveal(crate::mem::bus::BusState::read8);
}

} // verus!
