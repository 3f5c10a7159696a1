pub mod opcode;
pub mod theorems;
pub mod trace;

use vstd::prelude::*;
use vstd::pervasive::unreached;
use crate::cpu::opcode::instruction;
use crate::cpu::opcode::AddressingMode;
use crate::cpu::opcode::OP;
use crate::fault::Fault;
use crate::mem::bus::high_byte;
use crate::mem::bus::lemma_ram_access;
use crate::mem::bus::low_byte;
use crate::mem::bus::next_addr;
use crate::mem::bus::word;
use crate::mem::bus::Bus;
use crate::mem::bus::BusState;
use crate::mem::bus::empty_bus;
use crate::mem::memory::Memory;
use crate::mem::rom::blank_rom;
use crate::mem::rom::Rom;
use crate::utils::set_bit;

verus! {

/// The stack pointer of a processor that was built and not yet reset.
pub const INIT_STACK_POINTER: u8 = 0xFF;

/// The stack pointer after a reset.
pub const RESET_STACK_POINTER: u8 = 0xFD;

/// The status byte after a reset: interrupts disabled, bit 5 set.
pub const RESET_STATUS: u8 = 0b0010_0100;

/// Where the reset vector stands.
pub const PC_START_ADDRESS: u16 = 0xFFFC;

/// The flags of the status byte. Bit 5 has no flag and reads as 1 after a
/// reset.
#[derive(Debug, Clone, Copy, PartialEq, Eq, Structural)]
pub enum StatusFlag {
    Carry,
    Zero,
    InterruptDisable,
    Decimal,
    Break,
    Overflow,
    Negative,
}

impl StatusFlag {
    /// The bit of the status byte that holds the flag.
    #[verifier::allow_in_spec]
    pub fn mask(self) -> u8
        returns
            (match self {
                StatusFlag::Carry => 0b0000_0001u8,
                StatusFlag::Zero => 0b0000_0010u8,
                StatusFlag::InterruptDisable => 0b0000_0100u8,
                StatusFlag::Decimal => 0b0000_1000u8,
                StatusFlag::Break => 0b0001_0000u8,
                StatusFlag::Overflow => 0b0100_0000u8,
                StatusFlag::Negative => 0b1000_0000u8,
            }),
    {
        match self {
            StatusFlag::Carry => 0b0000_0001,
            StatusFlag::Zero => 0b0000_0010,
            StatusFlag::InterruptDisable => 0b0000_0100,
            StatusFlag::Decimal => 0b0000_1000,
            StatusFlag::Break => 0b0001_0000,
            StatusFlag::Overflow => 0b0100_0000,
            StatusFlag::Negative => 0b1000_0000,
        }
    }
}

/// How a run ended without a fault.
#[derive(Debug, Clone, Copy, PartialEq, Eq, Structural)]
pub enum RunEnd {
    /// The Break flag is set.
    Halted,
    /// The given number of instructions was executed and Break is still
    /// clear.
    OutOfSteps,
}

/// The processor: six registers and the bus that it owns.
pub struct CPU {
    pub pc: u16,
    pub status: u8,
    /// The stack pointer; the stack byte it names is at `$0100 | stack`.
    pub stack: u8,
    pub reg_a: u8,
    pub reg_x: u8,
    pub reg_y: u8,
    pub bus: Bus,
}

/// The mathematical state of the machine: the registers and all that the bus
/// reaches.
#[verifier::ext_equal]
pub struct CpuState {
    pub pc: u16,
    pub status: u8,
    pub stack: u8,
    pub a: u8,
    pub x: u8,
    pub y: u8,
    pub bus: BusState,
}

impl View for CPU {
    type V = CpuState;

    open spec fn view(&self) -> CpuState {
        CpuState {
            pc: self.pc,
            status: self.status,
            stack: self.stack,
            a: self.reg_a,
            x: self.reg_x,
            y: self.reg_y,
            bus: self.bus@,
        }
    }
}

/// `value` within eight bits.
pub open spec fn wrap8(value: int) -> u8 {
    (value % 0x100) as u8
}

/// `value` within sixteen bits.
pub open spec fn wrap16(value: int) -> u16 {
    (value % 0x1_0000) as u16
}

/// A branch operand as the signed distance that it encodes.
pub open spec fn signed_offset(offset: u8) -> int {
    if offset < 0x80 {
        offset as int
    } else {
        offset - 0x100
    }
}

/// Where the high byte of an indirect jump target is read: on the page of
/// `ptr`, one byte further, and wrapping within that page.
pub open spec fn same_page_next(ptr: u16) -> u16 {
    (ptr & 0xFF00) | (wrap8(low_byte(ptr) + 1) as u16)
}

/// Whether a call returned what the model asks for: on success the machine
/// is in the state the model gives, and a fault is the model's fault.
pub open spec fn agrees(r: Result<(), Fault>, after: CpuState, model: Result<CpuState, Fault>) -> bool {
    match model {
        Ok(state) => r is Ok && after == state,
        Err(fault) => r == Err::<(), Fault>(fault),
    }
}

/// The same for a call that also returns a value.
pub open spec fn agrees_with<T>(
    r: Result<T, Fault>,
    after: CpuState,
    model: Result<(T, CpuState), Fault>,
) -> bool {
    match model {
        Ok((value, state)) => r == Ok::<T, Fault>(value) && after == state,
        Err(fault) => r == Err::<T, Fault>(fault),
    }
}

/// One round of a run with a callback.
pub struct Round {
    /// The machine as it was handed to the callback.
    pub given: CpuState,
    /// The machine as the callback left it.
    pub returned: CpuState,
    /// The machine after the instruction that was then executed.
    pub executed: CpuState,
}

/// Whether `rounds` are the rounds of a run with a callback that begins in
/// `start` and stands in `end` after them. In each round the callback is
/// handed the machine with Break clear: in the first round as the run found
/// it, in each later round as the instruction of the round before left it.
/// One instruction is then executed on what the callback returned, without
/// a fault.
pub open spec fn rounds_lead(start: CpuState, rounds: Seq<Round>, end: CpuState) -> bool {
    &&& forall|i: int|
        0 <= i < rounds.len() ==> {
            &&& !(#[trigger] rounds[i]).given.halted()
            &&& rounds[i].returned.step() == Ok::<CpuState, Fault>(rounds[i].executed)
            &&& rounds[i].given == if i == 0 {
                start
            } else {
                rounds[i - 1].executed
            }
        }
    &&& end == if rounds.len() == 0 {
        start
    } else {
        rounds.last().executed
    }
}

/// The state of a processor that was just built: registers clear, status
/// `0x24`, the stack pointer at the top of its page, and an empty bus.
pub open spec fn power_on_cpu() -> CpuState {
    CpuState {
        pc: 0,
        status: RESET_STATUS,
        stack: INIT_STACK_POINTER,
        a: 0,
        x: 0,
        y: 0,
        bus: empty_bus(),
    }
}

impl CpuState {
    /// Whether `flag` is set.
    pub open spec fn flag(self, flag: StatusFlag) -> bool {
        self.status & flag.mask() != 0
    }

    /// The state with `flag` set to `value`.
    pub open spec fn with_flag(self, flag: StatusFlag, value: bool) -> CpuState {
        CpuState { status: set_bit(self.status, flag.mask(), value), ..self }
    }

    /// The state with Zero and Negative taken from an eight-bit result: Zero
    /// says that it is 0, Negative is its bit 7.
    pub open spec fn with_zn(self, result: u8) -> CpuState {
        self.with_flag(StatusFlag::Zero, result == 0).with_flag(
            StatusFlag::Negative,
            result & 0b1000_0000 != 0,
        )
    }

    /// A read of one byte through the bus.
    pub open spec fn read(self, addr: u16) -> Result<(u8, CpuState), Fault> {
        match self.bus.read8(addr) {
            Ok((value, bus)) => Ok((value, CpuState { bus, ..self })),
            Err(fault) => Err(fault),
        }
    }

    /// A read of a little-endian word through the bus.
    pub open spec fn read_word(self, addr: u16) -> Result<(u16, CpuState), Fault> {
        match self.bus.read16(addr) {
            Ok((value, bus)) => Ok((value, CpuState { bus, ..self })),
            Err(fault) => Err(fault),
        }
    }

    /// A write of one byte through the bus.
    pub open spec fn write(self, addr: u16, data: u8) -> Result<CpuState, Fault> {
        match self.bus.write8(addr, data) {
            Ok(bus) => Ok(CpuState { bus, ..self }),
            Err(fault) => Err(fault),
        }
    }

    /// A write of a little-endian word through the bus.
    pub open spec fn write_word(self, addr: u16, data: u16) -> Result<CpuState, Fault> {
        match self.bus.write16(addr, data) {
            Ok(bus) => Ok(CpuState { bus, ..self }),
            Err(fault) => Err(fault),
        }
    }

    /// The byte at the program counter, which then moves one byte on and
    /// wraps from `$FFFF` to `$0000`.
    pub open spec fn fetch8(self) -> Result<(u8, CpuState), Fault> {
        match self.read(self.pc) {
            Ok((value, after)) => Ok((value, CpuState { pc: next_addr(self.pc), ..after })),
            Err(fault) => Err(fault),
        }
    }

    /// The word at the program counter, which then moves two bytes on.
    pub open spec fn fetch16(self) -> Result<(u16, CpuState), Fault> {
        match self.read_word(self.pc) {
            Ok((value, after)) => Ok(
                (value, CpuState { pc: next_addr(next_addr(self.pc)), ..after }),
            ),
            Err(fault) => Err(fault),
        }
    }

    /// The word whose low byte is at `lo_addr` and whose high byte is at
    /// `hi_addr`, read in that order.
    pub open spec fn read_pair(self, lo_addr: u16, hi_addr: u16) -> Result<(u16, CpuState), Fault> {
        match self.read(lo_addr) {
            Err(fault) => Err(fault),
            Ok((lo, after_lo)) => match after_lo.read(hi_addr) {
                Err(fault) => Err(fault),
                Ok((hi, after_hi)) => Ok((word(lo, hi), after_hi)),
            },
        }
    }

    /// A zero-page address: the operand byte plus `index`, within page zero.
    pub open spec fn zero_page(self, index: u8) -> Result<(u16, CpuState), Fault> {
        match self.fetch8() {
            Ok((zp, after)) => Ok((wrap8(zp + index) as u16, after)),
            Err(fault) => Err(fault),
        }
    }

    /// An absolute address: the operand word plus `index`, within sixteen
    /// bits.
    pub open spec fn absolute(self, index: u8) -> Result<(u16, CpuState), Fault> {
        match self.fetch16() {
            Ok((base, after)) => Ok((wrap16(base + index), after)),
            Err(fault) => Err(fault),
        }
    }

    /// The target of an indirect jump: the operand word points at the low
    /// byte, and the high byte is read on the same page, so that a pointer
    /// at `$xxFF` takes its high byte from `$xx00`.
    pub open spec fn indirect(self) -> Result<(u16, CpuState), Fault> {
        match self.fetch16() {
            Ok((ptr, after)) => after.read_pair(ptr, same_page_next(ptr)),
            Err(fault) => Err(fault),
        }
    }

    /// The word in page zero at the operand byte plus `X`; both the sum and
    /// the step to the high byte stay within page zero.
    pub open spec fn indexed_indirect(self) -> Result<(u16, CpuState), Fault> {
        match self.fetch8() {
            Ok((zp, after)) => {
                let ptr = wrap8(zp + self.x);
                after.read_pair(ptr as u16, wrap8(ptr + 1) as u16)
            },
            Err(fault) => Err(fault),
        }
    }

    /// The word in page zero at the operand byte, plus `Y` within sixteen
    /// bits; the step to the high byte stays within page zero.
    pub open spec fn indirect_indexed(self) -> Result<(u16, CpuState), Fault> {
        match self.fetch8() {
            Ok((zp, after)) => match after.read_pair(zp as u16, wrap8(zp + 1) as u16) {
                Ok((base, last)) => Ok((wrap16(base + self.y), last)),
                Err(fault) => Err(fault),
            },
            Err(fault) => Err(fault),
        }
    }

    /// The effective address of an operand. The program counter stands
    /// behind the opcode; the operand bytes are consumed, and the program
    /// counter is left behind them.
    ///
    /// | mode        | operand   | address                                        |
    /// |-------------|-----------|------------------------------------------------|
    /// | Immediate   | 1 byte    | the program counter itself                     |
    /// | ZeroPage    | `zp`      | `zp`                                           |
    /// | ZeroPage_X  | `zp`      | `(zp + X) mod 256`                             |
    /// | ZeroPage_Y  | `zp`      | `(zp + Y) mod 256`                             |
    /// | Absolute    | `abs`     | `abs`                                          |
    /// | Absolute_X  | `abs`     | `(abs + X) mod 65536`                          |
    /// | Absolute_Y  | `abs`     | `(abs + Y) mod 65536`                          |
    /// | Indirect    | `ptr`     | low at `ptr`, high on the same page, one on    |
    /// | Indirect_X  | `zp`      | word at `(zp + X) mod 256`, within page zero   |
    /// | Indirect_Y  | `zp`      | word at `zp` within page zero, plus `Y`        |
    ///
    /// The other modes name no memory, and asking for their address is a
    /// fault.
    #[verifier::opaque]
    pub open spec fn resolve(self, mode: AddressingMode) -> Result<(u16, CpuState), Fault> {
        match mode {
            AddressingMode::Immediate => Ok((self.pc, CpuState { pc: next_addr(self.pc), ..self })),
            AddressingMode::ZeroPage => self.zero_page(0),
            AddressingMode::ZeroPage_X => self.zero_page(self.x),
            AddressingMode::ZeroPage_Y => self.zero_page(self.y),
            AddressingMode::Absolute => self.absolute(0),
            AddressingMode::Absolute_X => self.absolute(self.x),
            AddressingMode::Absolute_Y => self.absolute(self.y),
            AddressingMode::Indirect => self.indirect(),
            AddressingMode::Indirect_X => self.indexed_indirect(),
            AddressingMode::Indirect_Y => self.indirect_indexed(),
            _ => Err(Fault::UnsupportedAddressingMode { mode }),
        }
    }

    /// The effective address where the mode has one, and `None` for the
    /// three modes that name no memory.
    pub open spec fn try_resolve(self, mode: AddressingMode) -> Result<(Option<u16>, CpuState), Fault> {
        match mode {
            AddressingMode::Relative | AddressingMode::NoneAddressing | AddressingMode::Accumulator => Ok(
                (None, self),
            ),
            _ => match self.resolve(mode) {
                Ok((addr, after)) => Ok((Some(addr), after)),
                Err(fault) => Err(fault),
            },
        }
    }

    /// The effective address and the byte that stands there.
    pub open spec fn operand(self, mode: AddressingMode) -> Result<((u16, u8), CpuState), Fault> {
        match self.resolve(mode) {
            Err(fault) => Err(fault),
            Ok((addr, after)) => match after.read(addr) {
                Ok((value, last)) => Ok(((addr, value), last)),
                Err(fault) => Err(fault),
            },
        }
    }

    /// The address of the stack byte that the stack pointer names.
    pub open spec fn stack_address(self) -> u16 {
        0x0100 | (self.stack as u16)
    }

    /// A push: `value` is stored at `$0100 | SP`, then the stack pointer
    /// goes one down, from `0x00` to `0xFF`.
    pub open spec fn push8(self, value: u8) -> CpuState {
        CpuState {
            stack: wrap8(self.stack - 1),
            bus: BusState {
                ram: self.bus.ram.update((self.stack_address() & 0x07FF) as int, value),
                ..self.bus
            },
            ..self
        }
    }

    /// The byte that a pull returns: the one at `$0100 | (SP + 1)`.
    pub open spec fn pulled(self) -> u8 {
        self.after_pull().bus.ram[(self.after_pull().stack_address() & 0x07FF) as int]
    }

    /// A pull: the stack pointer goes one up, from `0xFF` to `0x00`.
    pub open spec fn after_pull(self) -> CpuState {
        CpuState { stack: wrap8(self.stack + 1), ..self }
    }

    /// A push of a word, high byte first.
    pub open spec fn push16(self, value: u16) -> CpuState {
        self.push8(high_byte(value)).push8(low_byte(value))
    }

    /// The word that two pulls return, low byte first.
    pub open spec fn pulled16(self) -> u16 {
        word(self.pulled(), self.after_pull().pulled())
    }

    /// Where a branch with operand `offset` goes from here: the signed
    /// distance from the byte after the operand, within sixteen bits.
    pub open spec fn branch_target(self, offset: u8) -> u16 {
        wrap16(self.pc + signed_offset(offset))
    }

    /// A branch: the operand byte is consumed, and if `condition` holds the
    /// program counter moves by the signed distance that the byte encodes.
    pub open spec fn branch(self, condition: bool) -> Result<CpuState, Fault> {
        match self.fetch8() {
            Ok((offset, after)) => Ok(
                if condition {
                    CpuState { pc: after.branch_target(offset), ..after }
                } else {
                    after
                },
            ),
            Err(fault) => Err(fault),
        }
    }

    /// The state after a reset: registers clear, status `0x24`, the stack
    /// pointer at `0xFD`, and the program counter taken from the vector at
    /// `$FFFC`.
    pub open spec fn reset(self) -> Result<CpuState, Fault> {
        match self.read_word(PC_START_ADDRESS) {
            Ok((pc, after)) => Ok(
                CpuState {
                    pc,
                    status: RESET_STATUS,
                    stack: RESET_STACK_POINTER,
                    a: 0,
                    x: 0,
                    y: 0,
                    ..after
                },
            ),
            Err(fault) => Err(fault),
        }
    }

    /// Whether the Break flag is set, which ends a run.
    pub open spec fn halted(self) -> bool {
        self.flag(StatusFlag::Break)
    }

    /// One instruction: the opcode byte is fetched and looked up in the
    /// table, the operation is executed in its mode, and the bus is ticked
    /// by the base cycle count of the entry. A byte that is no instruction is
    /// a fault that names the byte and the address it was fetched from.
    #[verifier::opaque]
    pub open spec fn step(self) -> Result<CpuState, Fault> {
        match self.fetch8() {
            Err(fault) => Err(fault),
            Ok((code, after)) => match instruction(code) {
                None => Err(Fault::UnknownOpcode { opcode: code, pc: self.pc }),
                Some(op) => match after.execute(op.op, op.mode) {
                    Ok(last) => Ok(CpuState { bus: last.bus.tick(op.cycles as nat), ..last }),
                    Err(fault) => Err(fault),
                },
            },
        }
    }

    /// A run of at most `steps` instructions: instructions are executed
    /// until the Break flag is set, a fault occurs, or `steps` of them are
    /// done.
    pub open spec fn run(self, steps: nat) -> Result<(RunEnd, CpuState), Fault>
        decreases steps,
    {
        if self.halted() {
            Ok((RunEnd::Halted, self))
        } else if steps == 0 {
            Ok((RunEnd::OutOfSteps, self))
        } else {
            match self.step() {
                Ok(next) => next.run((steps - 1) as nat),
                Err(fault) => Err(fault),
            }
        }
    }

    /// The state after the first `count` bytes of `bytes` were written from
    /// `start` on, one address after the other within sixteen bits.
    pub open spec fn write_bytes(self, bytes: Seq<u8>, start: u16, count: nat) -> Result<
        CpuState,
        Fault,
    >
        decreases count,
    {
        if count == 0 {
            Ok(self)
        } else {
            match self.write_bytes(bytes, start, (count - 1) as nat) {
                Ok(after) => after.write(wrap16(start + count - 1), bytes[count - 1]),
                Err(fault) => Err(fault),
            }
        }
    }

    /// The state after every byte of a program was written from `start` on
    /// and the processor was reset. The start counts within sixteen bits,
    /// and so does each address after it.
    pub open spec fn load_at(self, program: Seq<u8>, start: int) -> Result<CpuState, Fault> {
        match self.write_bytes(program, wrap16(start), program.len()) {
            Ok(after) => after.reset(),
            Err(fault) => Err(fault),
        }
    }

    /// The state after a program was loaded into RAM at address 0, behind a
    /// blank cartridge whose reset vector points there.
    pub open spec fn load(self, program: Seq<u8>) -> Result<CpuState, Fault> {
        CpuState { bus: self.bus.with_rom(blank_rom(0)), ..self }.load_at(program, 0)
    }

    /// The outcome of loading a program, resetting and running at most
    /// `steps` instructions of it.
    pub open spec fn load_and_run(self, program: Seq<u8>, steps: nat) -> Result<
        (RunEnd, CpuState),
        Fault,
    > {
        match self.load(program) {
            Err(fault) => Err(fault),
            Ok(loaded) => match loaded.reset() {
                Err(fault) => Err(fault),
                Ok(ready) => ready.run(steps),
            },
        }
    }
}

/// Facts on the stack page: every stack byte is a cell of RAM, and the cell
/// of one stack pointer differs from the cell of another.
pub proof fn lemma_stack_bits(sp: u8, other: u8)
    by (bit_vector)
    ensures
        0x0100 | (sp as u16) <= 0x01FF,
        0x0100 | (sp as u16) >= 0x0100,
        (0x0100 | (sp as u16)) & 0x07FF == 0x0100 + (sp as u16),
        (0x0100 | (sp as u16)) == 0x0100 + (sp as u16),
{
}

/// A round that begins where the rounds before it ended makes one round
/// more of them.
pub proof fn lemma_rounds_grow(start: CpuState, rounds: Seq<Round>, round: Round)
    requires
        rounds_lead(start, rounds, round.given),
        !round.given.halted(),
        round.returned.step() == Ok::<CpuState, Fault>(round.executed),
    ensures
        rounds_lead(start, rounds.push(round), round.executed),
{
    let longer = rounds.push(round);
    assert forall|i: int| 0 <= i < longer.len() implies {
        &&& !(#[trigger] longer[i]).given.halted()
        &&& longer[i].returned.step() == Ok::<CpuState, Fault>(longer[i].executed)
        &&& longer[i].given == if i == 0 {
            start
        } else {
            longer[i - 1].executed
        }
    } by {
        if i < rounds.len() {
            assert(longer[i] == rounds[i]);
        }
    }
}

/// Writing one byte more of a program is writing the next byte after the
/// bytes before it.
pub proof fn lemma_write_bytes_next(
    s: CpuState,
    bytes: Seq<u8>,
    start: u16,
    done: nat,
    before: CpuState,
)
    requires
        s.write_bytes(bytes, start, done) == Ok::<CpuState, Fault>(before),
    ensures
        s.write_bytes(bytes, start, done + 1) == before.write(
            wrap16(start + done),
            bytes[done as int],
        ),
{
}

/// A fault in writing the first bytes of a program is the fault of writing
/// more of them.
pub proof fn lemma_write_bytes_fault(s: CpuState, bytes: Seq<u8>, start: u16, done: nat, count: nat)
    requires
        done <= count,
        s.write_bytes(bytes, start, done) is Err,
    ensures
        s.write_bytes(bytes, start, count) == s.write_bytes(bytes, start, done),
    decreases count,
{
    if done < count {
        lemma_write_bytes_fault(s, bytes, start, done, (count - 1) as nat);
    }
}

impl CPU {
    /// A processor with clear registers, status `0x24`, and a bus without
    /// cartridge or picture unit.
    pub fn new() -> (cpu: CPU)
        ensures
            cpu@ == power_on_cpu(),
    {
        CPU {
            pc: 0,
            status: 0b0010_0100,
            reg_a: 0,
            reg_x: 0,
            reg_y: 0,
            stack: INIT_STACK_POINTER,
            bus: Bus::new(),
        }
    }

    /// Loads `ram` at address 0, resets and runs until Break is set.
    pub fn load_and_run(&mut self, ram: Vec<u8>) -> (r: Result<RunEnd, Fault>)
        ensures
            agrees_with(r, final(self)@, old(self)@.load_and_run(ram@, u64::MAX as nat)),
    {
        self.load(ram)?;
        self.reset()?;
        self.run()
    }

    /// Inserts a blank cartridge whose reset vector is 0, writes `ram` into
    /// memory from address 0 on, and resets.
    pub fn load(&mut self, ram: Vec<u8>) -> (r: Result<(), Fault>)
        ensures
            agrees(r, final(self)@, old(self)@.load(ram@)),
    {
        self.insert_rom(Rom::from_pc(0x0000));
        self.load_at(ram, 0x0000)
    }

    /// Writes `program` into memory from `start_address` on, and resets.
    pub fn load_at(&mut self, program: Vec<u8>, start_address: usize) -> (r: Result<(), Fault>)
        ensures
            agrees(r, final(self)@, old(self)@.load_at(program@, start_address as int)),
    {
        let start: u16 = (start_address % 0x1_0000) as u16;
        let mut addr: u16 = start;
        let mut i: usize = 0;
        while i < program.len()
            invariant
                i <= program.len(),
                start == wrap16(start_address as int),
                addr == wrap16(start + i),
                old(self)@.write_bytes(program@, start, i as nat) == Ok::<CpuState, Fault>(self@),
            decreases program.len() - i,
        {
            proof {
                lemma_write_bytes_next(old(self)@, program@, start, i as nat, self@);
            }
            match self.bus.write8(addr, program[i]) {
                Ok(()) => {},
                Err(fault) => {
                    proof {
                        lemma_write_bytes_fault(
                            old(self)@,
                            program@,
                            start,
                            (i + 1) as nat,
                            program@.len(),
                        );
                    }
                    return Err(fault);
                },
            }
            addr = addr.wrapping_add(1);
            i += 1;
        }
        self.reset()
    }

    /// Executes one instruction.
    pub fn step(&mut self) -> (r: Result<(), Fault>)
        ensures
            agrees(r, final(self)@, old(self)@.step()),
    {
        proof {
            reveal(CpuState::step);
        }
        let pc: u16 = self.pc;
        let code: u8 = self.mem_read_pc_u8()?;
        match OP::decode(code) {
            None => Err(Fault::UnknownOpcode { opcode: code, pc }),
            Some(op) => {
                op.execute(self)?;
                self.bus.tick(op.cycles as u32);
                Ok(())
            },
        }
    }

    /// Executes instructions until the Break flag is set, and at most
    /// `max_steps` of them.
    pub fn run_for(&mut self, max_steps: u64) -> (r: Result<RunEnd, Fault>)
        ensures
            agrees_with(r, final(self)@, old(self)@.run(max_steps as nat)),
    {
        let mut remaining: u64 = max_steps;
        while remaining > 0 && !self.get_flag(StatusFlag::Break)
            invariant
                self@.run(remaining as nat) == old(self)@.run(max_steps as nat),
            decreases remaining,
        {
            match self.step() {
                Ok(()) => {},
                Err(fault) => {
                    return Err(fault);
                },
            }
            remaining -= 1;
        }
        if self.get_flag(StatusFlag::Break) {
            Ok(RunEnd::Halted)
        } else {
            Ok(RunEnd::OutOfSteps)
        }
    }

    /// Executes instructions until the Break flag is set, and calls
    /// `callback` on the processor before each of them: once before each
    /// opcode fetch, never between the parts of one instruction, and never
    /// once Break is set. With Break set on entry nothing is called and
    /// nothing changes.
    ///
    /// The callback may read and change every register and every byte of
    /// memory, so what it returns is not known here. What is stated is the
    /// chain of rounds: what each callback was handed, that one instruction
    /// was executed on whatever it returned, and that the run ended after
    /// the first instruction that set Break, or with the fault of the first
    /// instruction that could not be executed. As in `run`, the count of
    /// instructions is kept in 64 bits.
    pub fn run_with_callback<F>(&mut self, mut callback: F) -> (r: Result<RunEnd, Fault>) where
        F: FnMut(&mut CPU),

        requires
            forall|c: &mut CPU| call_requires(callback, (c,)),
        ensures
            old(self)@.halted() ==> r == Ok::<RunEnd, Fault>(RunEnd::Halted) && final(self)@ == old(
                self,
            )@,
            r is Ok ==> exists|rounds: Seq<Round>|
                {
                    &&& #[trigger] rounds_lead(old(self)@, rounds, final(self)@)
                    &&& rounds.len() <= u64::MAX
                    &&& r == Ok::<RunEnd, Fault>(RunEnd::OutOfSteps) ==> rounds.len() == u64::MAX
                },
            r is Ok ==> (r == Ok::<RunEnd, Fault>(RunEnd::Halted) <==> final(self)@.halted()),
            r is Ok && !old(self)@.halted() ==> exists|before: CpuState|
                before.step() == Ok::<CpuState, Fault>(final(self)@),
            r is Err ==> exists|rounds: Seq<Round>, given: CpuState, returned: CpuState|
                {
                    &&& #[trigger] rounds_lead(old(self)@, rounds, given)
                    &&& !given.halted()
                    &&& #[trigger] returned.step() == Err::<CpuState, Fault>(r->Err_0)
                },
    {
        let mut remaining: u64 = u64::MAX;
        let ghost mut rounds: Seq<Round> = Seq::empty();
        while remaining > 0 && !self.get_flag(StatusFlag::Break)
            invariant
                forall|c: &mut CPU| call_requires(callback, (c,)),
                rounds_lead(old(self)@, rounds, self@),
                rounds.len() == u64::MAX - remaining,
            decreases remaining,
        {
            let ghost given = self@;
            callback(self);
            let ghost returned = self@;
            match self.step() {
                Ok(()) => {},
                Err(fault) => {
                    assert(rounds_lead(old(self)@, rounds, given));
                    assert(returned.step() == Err::<CpuState, Fault>(fault));
                    proof {
                        if rounds.len() > 0 {
                            assert(!rounds[0].given.halted());
                        }
                    }
                    return Err(fault);
                },
            }
            proof {
                let round = Round { given, returned, executed: self@ };
                lemma_rounds_grow(old(self)@, rounds, round);
                rounds = rounds.push(round);
            }
            remaining -= 1;
        }
        proof {
            assert(rounds_lead(old(self)@, rounds, self@));
            if rounds.len() > 0 {
                assert(rounds.last().returned.step() == Ok::<CpuState, Fault>(self@));
            }
            if old(self)@.halted() && rounds.len() > 0 {
                assert(!rounds[0].given.halted());
            }
        }
        if self.get_flag(StatusFlag::Break) {
            Ok(RunEnd::Halted)
        } else {
            Ok(RunEnd::OutOfSteps)
        }
    }

    /// Executes instructions until the Break flag is set. The count of
    /// instructions is kept in 64 bits, so a program that never sets Break
    /// is given up after `u64::MAX` instructions.
    pub fn run(&mut self) -> (r: Result<RunEnd, Fault>)
        ensures
            agrees_with(r, final(self)@, old(self)@.run(u64::MAX as nat)),
    {
        self.run_for(u64::MAX)
    }

    /// Hands the cartridge to the bus. Nothing runs.
    pub fn insert_rom(&mut self, rom: Rom)
        ensures
            final(self)@ == (CpuState { bus: old(self)@.bus.with_rom(rom@), ..old(self)@ }),
    {
        self.bus.insert_rom(rom);
    }

    /// Resets the processor and takes the program counter from the vector
    /// at `$FFFC`.
    pub fn reset(&mut self) -> (r: Result<(), Fault>)
        ensures
            agrees(r, final(self)@, old(self)@.reset()),
    {
        self.reg_a = 0;
        self.reg_x = 0;
        self.reg_y = 0;
        self.status = 0b0010_0100;
        self.stack = RESET_STACK_POINTER;
        self.pc = self.bus.read16(PC_START_ADDRESS)?;
        Ok(())
    }

    /// Reads the byte at the program counter and steps over it.
    pub fn mem_read_pc_u8(&mut self) -> (r: Result<u8, Fault>)
        ensures
            agrees_with(r, final(self)@, old(self)@.fetch8()),
    {
        let value: u8 = self.bus.read8(self.pc)?;
        self.pc = self.pc.wrapping_add(1);
        Ok(value)
    }

    /// Reads the word at the program counter and steps over it.
    pub fn mem_read_pc_u16(&mut self) -> (r: Result<u16, Fault>)
        ensures
            agrees_with(r, final(self)@, old(self)@.fetch16()),
    {
        let value: u16 = self.bus.read16(self.pc)?;
        self.pc = self.pc.wrapping_add(2);
        Ok(value)
    }

    /// Reads a word whose two bytes stand at the given addresses.
    fn read_pair(&mut self, lo_addr: u16, hi_addr: u16) -> (r: Result<u16, Fault>)
        ensures
            agrees_with(r, final(self)@, old(self)@.read_pair(lo_addr, hi_addr)),
    {
        let lo: u8 = self.bus.read8(lo_addr)?;
        let hi: u8 = self.bus.read8(hi_addr)?;
        Ok(((hi as u16) << 8) | (lo as u16))
    }

    /// The operand byte plus `index`, within page zero.
    fn zero_page_address(&mut self, index: u8) -> (r: Result<u16, Fault>)
        ensures
            agrees_with(r, final(self)@, old(self)@.zero_page(index)),
    {
        let zp: u8 = self.mem_read_pc_u8()?;
        Ok(zp.wrapping_add(index) as u16)
    }

    /// The operand word plus `index`, within sixteen bits.
    fn absolute_address(&mut self, index: u8) -> (r: Result<u16, Fault>)
        ensures
            agrees_with(r, final(self)@, old(self)@.absolute(index)),
    {
        let base: u16 = self.mem_read_pc_u16()?;
        Ok(base.wrapping_add(index as u16))
    }

    /// The word that the operand word points at, its high byte read on the
    /// page of the low one.
    fn indirect_address(&mut self) -> (r: Result<u16, Fault>)
        ensures
            agrees_with(r, final(self)@, old(self)@.indirect()),
    {
        let ptr: u16 = self.mem_read_pc_u16()?;
        let ptr_lo: u8 = (ptr & 0xFF) as u8;
        self.read_pair(ptr, (ptr & 0xFF00) | (ptr_lo.wrapping_add(1) as u16))
    }

    /// The word in page zero at the operand byte plus `X`.
    fn indexed_indirect_address(&mut self) -> (r: Result<u16, Fault>)
        ensures
            agrees_with(r, final(self)@, old(self)@.indexed_indirect()),
    {
        let zp: u8 = self.mem_read_pc_u8()?;
        let ptr: u8 = zp.wrapping_add(self.reg_x);
        self.read_pair(ptr as u16, ptr.wrapping_add(1) as u16)
    }

    /// The word in page zero at the operand byte, plus `Y`.
    fn indirect_indexed_address(&mut self) -> (r: Result<u16, Fault>)
        ensures
            agrees_with(r, final(self)@, old(self)@.indirect_indexed()),
    {
        let zp: u8 = self.mem_read_pc_u8()?;
        let base: u16 = self.read_pair(zp as u16, zp.wrapping_add(1) as u16)?;
        Ok(base.wrapping_add(self.reg_y as u16))
    }

    /// Consumes the operand bytes of `addressing_mode` and returns the
    /// effective address.
    pub fn get_address(&mut self, addressing_mode: &AddressingMode) -> (r: Result<u16, Fault>)
        ensures
            agrees_with(r, final(self)@, old(self)@.resolve(*addressing_mode)),
    {
        proof {
            reveal(CpuState::resolve);
        }
        match addressing_mode {
            AddressingMode::Immediate => {
                let addr: u16 = self.pc;
                self.pc = self.pc.wrapping_add(1);
                Ok(addr)
            },
            AddressingMode::ZeroPage => self.zero_page_address(0),
            AddressingMode::ZeroPage_X => self.zero_page_address(self.reg_x),
            AddressingMode::ZeroPage_Y => self.zero_page_address(self.reg_y),
            AddressingMode::Absolute => self.absolute_address(0),
            AddressingMode::Absolute_X => self.absolute_address(self.reg_x),
            AddressingMode::Absolute_Y => self.absolute_address(self.reg_y),
            AddressingMode::Indirect => self.indirect_address(),
            AddressingMode::Indirect_X => self.indexed_indirect_address(),
            AddressingMode::Indirect_Y => self.indirect_indexed_address(),
            _ => Err(Fault::UnsupportedAddressingMode { mode: *addressing_mode }),
        }
    }

    /// The effective address where `mode` has one, `None` where it names
    /// no memory.
    pub fn try_get_address(&mut self, mode: &AddressingMode) -> (r: Result<Option<u16>, Fault>)
        ensures
            agrees_with(r, final(self)@, old(self)@.try_resolve(*mode)),
    {
        proof {
            reveal(CpuState::resolve);
        }
        match mode {
            AddressingMode::Relative | AddressingMode::NoneAddressing | AddressingMode::Accumulator => Ok(
                None,
            ),
            _ => {
                let addr: u16 = self.get_address(mode)?;
                Ok(Some(addr))
            },
        }
    }

    /// The effective address and the byte that stands there.
    pub fn get_address_and_value(&mut self, mode: &AddressingMode) -> (r: Result<(u16, u8), Fault>)
        ensures
            agrees_with(r, final(self)@, old(self)@.operand(*mode)),
    {
        let address: u16 = self.get_address(mode)?;
        let value: u8 = self.bus.read8(address)?;
        Ok((address, value))
    }

    /// The address of the stack byte that the stack pointer names.
    pub fn get_stack_address(&self) -> (addr: u16)
        ensures
            addr == self@.stack_address(),
            0x0100 <= addr <= 0x01FF,
    {
        proof {
            lemma_stack_bits(self.stack, 0);
        }
        0x0100 | (self.stack as u16)
    }

    /// Pushes a byte: it is stored at `$0100 | SP`, and the stack pointer
    /// goes one down.
    pub fn stack_push_value_u8(&mut self, value: u8)
        ensures
            final(self)@ == old(self)@.push8(value),
    {
        let addr: u16 = self.get_stack_address();
        proof {
            lemma_ram_access(self.bus@, addr, value);
        }
        match self.bus.write8(addr, value) {
            Ok(()) => {},
            Err(_) => unreached(),
        }
        self.stack = self.stack.wrapping_sub(1);
    }

    /// Pulls a byte: the stack pointer goes one up, and the byte at
    /// `$0100 | SP` is returned.
    pub fn stack_pull_value_u8(&mut self) -> (value: u8)
        ensures
            value == old(self)@.pulled(),
            final(self)@ == old(self)@.after_pull(),
    {
        self.stack = self.stack.wrapping_add(1);
        let addr: u16 = self.get_stack_address();
        proof {
            lemma_ram_access(self.bus@, addr, 0);
        }
        match self.bus.read8(addr) {
            Ok(value) => value,
            Err(_) => unreached(),
        }
    }

    /// Pushes a word, high byte first.
    pub fn stack_push_value_u16(&mut self, value: u16)
        ensures
            final(self)@ == old(self)@.push16(value),
    {
        self.stack_push_value_u8((value >> 8) as u8);
        self.stack_push_value_u8((value & 0xFF) as u8);
    }

    /// Pulls a word, low byte first.
    pub fn stack_pull_value_u16(&mut self) -> (value: u16)
        ensures
            value == old(self)@.pulled16(),
            final(self)@ == old(self)@.after_pull().after_pull(),
    {
        let lo: u8 = self.stack_pull_value_u8();
        let hi: u8 = self.stack_pull_value_u8();
        ((hi as u16) << 8) | (lo as u16)
    }

    /// Whether `flag` is set.
    pub fn get_flag(&self, flag: StatusFlag) -> (r: bool)
        ensures
            r == self@.flag(flag),
    {
        (self.status & flag.mask()) != 0
    }

    /// Sets `flag` to `value` and keeps the other bits of status.
    pub fn set_flag(&mut self, flag: StatusFlag, value: bool)
        ensures
            final(self)@ == old(self)@.with_flag(flag, value),
    {
        self.status = set_bit(self.status, flag.mask(), value);
    }

    /// Consumes the operand byte of a branch and, if `condition` holds,
    /// moves the program counter by the signed distance that it encodes.
    pub fn branch(&mut self, condition: bool) -> (r: Result<(), Fault>)
        ensures
            agrees(r, final(self)@, old(self)@.branch(condition)),
    {
        let offset: u8 = self.mem_read_pc_u8()?;
        if condition {
            if offset < 0x80 {
                self.pc = self.pc.wrapping_add(offset as u16);
            } else {
                self.pc = self.pc.wrapping_sub(0x100 - (offset as u16));
            }
        }
        Ok(())
    }

    /// Takes Zero and Negative from an eight-bit result.
    pub fn update_zero_and_negative_flags(&mut self, result: u8)
        ensures
            final(self)@ == old(self)@.with_zn(result),
    {
        self.status = set_bit(self.status, StatusFlag::Zero.mask(), result == 0);
        self.status = set_bit(self.status, StatusFlag::Negative.mask(), result & 0b1000_0000 != 0);
    }
}

impl Default for CPU {
    fn default() -> (cpu: CPU)
        ensures
            cpu@ == power_on_cpu(),
    {
        CPU::new()
    }
}

impl Memory for CPU {
    open spec fn readable(&self, addr: u16) -> bool {
        self.bus.readable(addr)
    }

    open spec fn writable(&self, addr: u16) -> bool {
        self.bus.writable(addr)
    }

    open spec fn readable_u16(&self, addr: u16) -> bool {
        self.bus.readable_u16(addr)
    }

    open spec fn writable_u16(&self, addr: u16, data: u16) -> bool {
        self.bus.writable_u16(addr, data)
    }

    /// Reads one byte through the bus.
    fn mem_read_u8(&mut self, addr: u16) -> (value: u8)
        ensures
            old(self)@.read(addr) == Ok::<(u8, CpuState), Fault>((value, final(self)@)),
    {
        self.bus.mem_read_u8(addr)
    }

    /// Writes one byte through the bus.
    fn mem_write_u8(&mut self, addr: u16, data: u8)
        ensures
            old(self)@.write(addr, data) == Ok::<CpuState, Fault>(final(self)@),
    {
        self.bus.mem_write_u8(addr, data)
    }

    /// Reads a little-endian word through the bus.
    fn mem_read_u16(&mut self, addr: u16) -> (value: u16)
        ensures
            old(self)@.read_word(addr) == Ok::<(u16, CpuState), Fault>((value, final(self)@)),
    {
        self.bus.mem_read_u16(addr)
    }

    /// Writes a little-endian word through the bus.
    fn mem_write_u16(&mut self, addr: u16, data: u16)
        ensures
            old(self)@.write_word(addr, data) == Ok::<CpuState, Fault>(final(self)@),
    {
        self.bus.mem_write_u16(addr, data)
    }
}

} // verus!
