use vstd::prelude::*;
use crate::cpu::opcode::instruction;
use crate::cpu::opcode::AddressingMode;
use crate::cpu::opcode::Operation;
use crate::cpu::opcode::OP;
use crate::cpu::same_page_next;
use crate::cpu::signed_offset;
use crate::cpu::wrap16;
use crate::cpu::wrap8;
use crate::cpu::CpuState;
use crate::cpu::CPU;
use crate::mem::bus::next_addr;
use crate::mem::bus::word;

verus! {

/// One hexadecimal digit, upper case.
#[verifier::opaque]
pub open spec fn hex_digit(n: int) -> Seq<char> {
    if n == 0 {
        "0"@
    } else if n == 1 {
        "1"@
    } else if n == 2 {
        "2"@
    } else if n == 3 {
        "3"@
    } else if n == 4 {
        "4"@
    } else if n == 5 {
        "5"@
    } else if n == 6 {
        "6"@
    } else if n == 7 {
        "7"@
    } else if n == 8 {
        "8"@
    } else if n == 9 {
        "9"@
    } else if n == 10 {
        "A"@
    } else if n == 11 {
        "B"@
    } else if n == 12 {
        "C"@
    } else if n == 13 {
        "D"@
    } else if n == 14 {
        "E"@
    } else {
        "F"@
    }
}

/// A byte as two hexadecimal digits.
#[verifier::opaque]
pub open spec fn hex2(value: u8) -> Seq<char> {
    hex_digit(value as int / 16) + hex_digit(value as int % 16)
}

/// A word as four hexadecimal digits.
#[verifier::opaque]
pub open spec fn hex4(value: u16) -> Seq<char> {
    hex2((value / 256) as u8) + hex2((value % 256) as u8)
}

/// `n` blanks.
pub open spec fn spaces(n: nat) -> Seq<char>
    decreases n,
{
    if n == 0 {
        Seq::empty()
    } else {
        spaces((n - 1) as nat) + " "@
    }
}

/// `text` with blanks behind it up to `width` characters; longer text is
/// kept whole.
#[verifier::opaque]
pub open spec fn pad_right(text: Seq<char>, width: nat) -> Seq<char> {
    if text.len() < width {
        text + spaces((width - text.len()) as nat)
    } else {
        text
    }
}

/// `text` with blanks before it up to `width` characters; longer text is
/// kept whole.
#[verifier::opaque]
pub open spec fn pad_left(text: Seq<char>, width: nat) -> Seq<char> {
    if text.len() < width {
        spaces((width - text.len()) as nat) + text
    } else {
        text
    }
}

/// The bytes of an instruction of `len` bytes as hexadecimal pairs with a
/// blank between them.
#[verifier::opaque]
pub open spec fn code_text(len: u8, b0: u8, b1: u8, b2: u8) -> Seq<char> {
    if len <= 1 {
        hex2(b0)
    } else if len == 2 {
        hex2(b0) + " "@ + hex2(b1)
    } else {
        hex2(b0) + " "@ + hex2(b1) + " "@ + hex2(b2)
    }
}

/// The registers as a trace shows them.
#[verifier::opaque]
pub open spec fn register_text(s: CpuState) -> Seq<char> {
    "A:"@ + hex2(s.a) + " X:"@ + hex2(s.x) + " Y:"@ + hex2(s.y) + " P:"@ + hex2(s.status)
        + " SP:"@ + hex2(s.stack)
}

impl CpuState {
    /// The word whose bytes stand at the two addresses, if both can be
    /// looked at.
    pub open spec fn peek_pair(self, lo_addr: u16, hi_addr: u16) -> Option<u16> {
        match (self.bus.peek(lo_addr), self.bus.peek(hi_addr)) {
            (Some(lo), Some(hi)) => Some(word(lo, hi)),
            _ => None,
        }
    }

    /// A zero-page operand with its index register: the operand, the
    /// address it selects and the byte there.
    pub open spec fn zero_page_text(self, operand: u8, index: u8, register: Seq<char>) -> Option<
        Seq<char>,
    > {
        let addr = wrap8(operand + index);
        match self.bus.peek(addr as u16) {
            Some(value) => Some(
                "$"@ + hex2(operand) + register + " @ "@ + hex2(addr) + " = "@ + hex2(value),
            ),
            None => None,
        }
    }

    /// An absolute operand with its index register: the operand, the
    /// address it selects and the byte there.
    pub open spec fn absolute_text(self, operand: u16, index: u8, register: Seq<char>) -> Option<
        Seq<char>,
    > {
        let addr = wrap16(operand + index);
        match self.bus.peek(addr) {
            Some(value) => Some(
                "$"@ + hex4(operand) + register + " @ "@ + hex4(addr) + " = "@ + hex2(value),
            ),
            None => None,
        }
    }

    /// An operand that names a word in page zero at itself plus `X`: the
    /// operand, where the word stands, the word and the byte it points at.
    pub open spec fn indexed_indirect_text(self, operand: u8) -> Option<Seq<char>> {
        let ptr = wrap8(operand + self.x);
        match self.peek_pair(ptr as u16, wrap8(ptr + 1) as u16) {
            Some(addr) => match self.bus.peek(addr) {
                Some(value) => Some(
                    "($"@ + hex2(operand) + ",X) @ "@ + hex2(ptr) + " = "@ + hex4(addr) + " = "@
                        + hex2(value),
                ),
                None => None,
            },
            None => None,
        }
    }

    /// An operand that names a word in page zero to which `Y` is added: the
    /// operand, the word, the sum and the byte it points at.
    pub open spec fn indirect_indexed_text(self, operand: u8) -> Option<Seq<char>> {
        match self.peek_pair(operand as u16, wrap8(operand + 1) as u16) {
            Some(base) => match self.bus.peek(wrap16(base + self.y)) {
                Some(value) => Some(
                    "($"@ + hex2(operand) + "),Y = "@ + hex4(base) + " @ "@ + hex4(
                        wrap16(base + self.y),
                    ) + " = "@ + hex2(value),
                ),
                None => None,
            },
            None => None,
        }
    }

    /// A zero-page operand: the operand and the byte it names.
    pub open spec fn direct_text(self, operand: u8) -> Option<Seq<char>> {
        match self.bus.peek(operand as u16) {
            Some(value) => Some("$"@ + hex2(operand) + " = "@ + hex2(value)),
            None => None,
        }
    }

    /// An absolute operand: the operand alone for a jump or a call, else
    /// the operand and the byte it names.
    pub open spec fn absolute_direct_text(self, jump: bool, operand: u16) -> Option<Seq<char>> {
        if jump {
            Some("$"@ + hex4(operand))
        } else {
            match self.bus.peek(operand) {
                Some(value) => Some("$"@ + hex4(operand) + " = "@ + hex2(value)),
                None => None,
            }
        }
    }

    /// The operand of an indirect jump: the pointer and the target it
    /// yields, the high byte taken from the page of the low one.
    pub open spec fn indirect_text(self, operand: u16) -> Option<Seq<char>> {
        match self.peek_pair(operand, same_page_next(operand)) {
            Some(target) => Some("($"@ + hex4(operand) + ") = "@ + hex4(target)),
            None => None,
        }
    }

    /// The operand of a branch: where the branch goes if it is taken.
    pub open spec fn relative_text(self, operand: u8) -> Seq<char> {
        "$"@ + hex4(wrap16(self.pc + 2 + signed_offset(operand)))
    }

    /// The operand of the instruction at the program counter as a trace
    /// shows it, `b1` and `b2` being the bytes after the opcode. `None`
    /// where a byte to be shown cannot be looked at.
    ///
    /// | mode        | text                              |
    /// |-------------|-----------------------------------|
    /// | Immediate   | `#$nn`                            |
    /// | ZeroPage    | `$nn = vv`                        |
    /// | ZeroPage_X  | `$nn,X @ aa = vv`                 |
    /// | ZeroPage_Y  | `$nn,Y @ aa = vv`                 |
    /// | Absolute    | `$nnnn = vv`, `$nnnn` for JMP, JSR |
    /// | Absolute_X  | `$nnnn,X @ aaaa = vv`             |
    /// | Absolute_Y  | `$nnnn,Y @ aaaa = vv`             |
    /// | Indirect    | `($nnnn) = aaaa`                  |
    /// | Indirect_X  | `($nn,X) @ pp = aaaa = vv`        |
    /// | Indirect_Y  | `($nn),Y = bbbb @ aaaa = vv`      |
    /// | Relative    | `$aaaa`                           |
    /// | Accumulator | `A`                               |
    pub open spec fn operand_text(self, op: OP, b1: u8, b2: u8) -> Option<Seq<char>> {
        match op.mode {
            AddressingMode::Immediate => Some("#$"@ + hex2(b1)),
            AddressingMode::ZeroPage => self.direct_text(b1),
            AddressingMode::ZeroPage_X => self.zero_page_text(b1, self.x, ",X"@),
            AddressingMode::ZeroPage_Y => self.zero_page_text(b1, self.y, ",Y"@),
            AddressingMode::Absolute => self.absolute_direct_text(
                op.op == Operation::Jmp || op.op == Operation::Jsr,
                word(b1, b2),
            ),
            AddressingMode::Absolute_X => self.absolute_text(word(b1, b2), self.x, ",X"@),
            AddressingMode::Absolute_Y => self.absolute_text(word(b1, b2), self.y, ",Y"@),
            AddressingMode::Indirect => self.indirect_text(word(b1, b2)),
            AddressingMode::Indirect_X => self.indexed_indirect_text(b1),
            AddressingMode::Indirect_Y => self.indirect_indexed_text(b1),
            AddressingMode::Relative => Some(self.relative_text(b1)),
            AddressingMode::Accumulator => Some("A"@),
            AddressingMode::NoneAddressing => Some(Seq::empty()),
        }
    }

    /// The line of a trace for the instruction at the program counter:
    ///
    /// ```text
    /// PCPC  BB BB BB NAME OPERAND                      A:AA X:XX Y:YY P:PP SP:SP
    /// ```
    ///
    /// The address takes 5 columns, the instruction bytes 8, mnemonic and
    /// operand 32, each followed by a blank; the mnemonic is set to the
    /// right of 4 columns. Only the bytes of the instruction itself and
    /// the bytes that its operand text shows are looked at. `None` where
    /// the byte at the program counter is no instruction, or where one of
    /// those bytes cannot be looked at without changing the machine.
    pub open spec fn trace_line(self) -> Option<Seq<char>> {
        match self.bus.peek(self.pc) {
            None => None,
            Some(b0) => match instruction(b0) {
                None => None,
                Some(op) => match (self.operand_byte(op, 1), self.operand_byte(op, 2)) {
                    (Some(b1), Some(b2)) => match self.operand_text(op, b1, b2) {
                        Some(operand) => Some(
                            pad_right(hex4(self.pc), 5) + " "@ + pad_right(
                                code_text(op.bytes, b0, b1, b2),
                                8,
                            ) + " "@ + pad_right(pad_left(op.name@, 4) + " "@ + operand, 32) + " "@
                                + register_text(self),
                        ),
                        None => None,
                    },
                    _ => None,
                },
            },
        }
    }

    /// The byte `index` places behind the opcode at the program counter,
    /// for `index` 1 or 2: looked at only where the instruction is long
    /// enough to have it, and 0 where it is not.
    pub open spec fn operand_byte(self, op: OP, index: u8) -> Option<u8> {
        if op.bytes > index {
            self.bus.peek(
                if index == 1 {
                    next_addr(self.pc)
                } else {
                    next_addr(next_addr(self.pc))
                },
            )
        } else {
            Some(0u8)
        }
    }
}

/// One hexadecimal digit.
fn digit_str(n: u8) -> (s: &'static str)
    requires
        n < 16,
    ensures
        s@ == hex_digit(n as int),
{
    proof {
        reveal(hex_digit);
    }
    match n {
        0 => "0",
        1 => "1",
        2 => "2",
        3 => "3",
        4 => "4",
        5 => "5",
        6 => "6",
        7 => "7",
        8 => "8",
        9 => "9",
        10 => "A",
        11 => "B",
        12 => "C",
        13 => "D",
        14 => "E",
        _ => "F",
    }
}

/// Appends a byte as two hexadecimal digits.
fn push_hex2(out: &mut String, value: u8)
    ensures
        final(out)@ == old(out)@ + hex2(value),
{
    out.append(digit_str(value / 16));
    out.append(digit_str(value % 16));
    reveal(hex2);
    assert(out@ =~= old(out)@ + hex2(value));
}

/// Appends a word as four hexadecimal digits.
fn push_hex4(out: &mut String, value: u16)
    ensures
        final(out)@ == old(out)@ + hex4(value),
{
    push_hex2(out, (value / 256) as u8);
    push_hex2(out, (value % 256) as u8);
    reveal(hex4);
    assert(out@ =~= old(out)@ + hex4(value));
}

/// Appends `n` blanks.
fn push_spaces(out: &mut String, n: usize)
    ensures
        final(out)@ == old(out)@ + spaces(n as nat),
{
    let mut i: usize = 0;
    assert(out@ =~= old(out)@ + spaces(0));
    while i < n
        invariant
            i <= n,
            out@ == old(out)@ + spaces(i as nat),
        decreases n - i,
    {
        out.append(" ");
        i += 1;
        assert(out@ =~= old(out)@ + spaces(i as nat));
    }
}

/// Appends `text`, followed by blanks up to `width` characters.
fn push_padded(out: &mut String, text: &str, width: usize)
    ensures
        final(out)@ == old(out)@ + pad_right(text@, width as nat),
{
    let len: usize = text.unicode_len();
    out.append(text);
    proof {
        reveal(pad_right);
    }
    if len < width {
        push_spaces(out, width - len);
        assert(out@ =~= old(out)@ + pad_right(text@, width as nat));
    }
}

impl CPU {
    /// The word whose bytes stand at the two addresses, if both can be
    /// looked at.
    fn peek_pair(&self, lo_addr: u16, hi_addr: u16) -> (r: Option<u16>)
        ensures
            r == self@.peek_pair(lo_addr, hi_addr),
    {
        let lo: u8 = self.bus.peek(lo_addr)?;
        let hi: u8 = self.bus.peek(hi_addr)?;
        Some(((hi as u16) << 8) | (lo as u16))
    }

    /// A zero-page operand with its index register.
    fn zero_page_text(&self, operand: u8, index: u8, register: &str) -> (r: Option<String>)
        ensures
            match self@.zero_page_text(operand, index, register@) {
                Some(text) => r is Some && r->Some_0@ == text,
                None => r is None,
            },
    {
        let addr: u8 = operand.wrapping_add(index);
        let value: u8 = self.bus.peek(addr as u16)?;
        let mut out = String::from_str("$");
        push_hex2(&mut out, operand);
        out.append(register);
        out.append(" @ ");
        push_hex2(&mut out, addr);
        out.append(" = ");
        push_hex2(&mut out, value);
        Some(out)
    }

    /// An absolute operand with its index register.
    fn absolute_text(&self, operand: u16, index: u8, register: &str) -> (r: Option<String>)
        ensures
            match self@.absolute_text(operand, index, register@) {
                Some(text) => r is Some && r->Some_0@ == text,
                None => r is None,
            },
    {
        let addr: u16 = operand.wrapping_add(index as u16);
        let value: u8 = self.bus.peek(addr)?;
        let mut out = String::from_str("$");
        push_hex4(&mut out, operand);
        out.append(register);
        out.append(" @ ");
        push_hex4(&mut out, addr);
        out.append(" = ");
        push_hex2(&mut out, value);
        Some(out)
    }

    /// An operand that names a word in page zero at itself plus `X`.
    fn indexed_indirect_text(&self, b1: u8) -> (r: Option<String>)
        ensures
            match self@.indexed_indirect_text(b1) {
                Some(text) => r is Some && r->Some_0@ == text,
                None => r is None,
            },
    {
        let ptr: u8 = b1.wrapping_add(self.reg_x);
        let addr: u16 = self.peek_pair(ptr as u16, ptr.wrapping_add(1) as u16)?;
        let value: u8 = self.bus.peek(addr)?;
        let mut out = String::from_str("($");
        push_hex2(&mut out, b1);
        out.append(",X) @ ");
        push_hex2(&mut out, ptr);
        out.append(" = ");
        push_hex4(&mut out, addr);
        out.append(" = ");
        push_hex2(&mut out, value);
        Some(out)
    }

    /// An operand that names a word in page zero to which `Y` is added.
    fn indirect_indexed_text(&self, b1: u8) -> (r: Option<String>)
        ensures
            match self@.indirect_indexed_text(b1) {
                Some(text) => r is Some && r->Some_0@ == text,
                None => r is None,
            },
    {
        let base: u16 = self.peek_pair(b1 as u16, b1.wrapping_add(1) as u16)?;
        let addr: u16 = base.wrapping_add(self.reg_y as u16);
        let value: u8 = self.bus.peek(addr)?;
        let mut out = String::from_str("($");
        push_hex2(&mut out, b1);
        out.append("),Y = ");
        push_hex4(&mut out, base);
        out.append(" @ ");
        push_hex4(&mut out, addr);
        out.append(" = ");
        push_hex2(&mut out, value);
        Some(out)
    }

    /// A zero-page operand and the byte it names.
    fn direct_text(&self, operand: u8) -> (r: Option<String>)
        ensures
            match self@.direct_text(operand) {
                Some(text) => r is Some && r->Some_0@ == text,
                None => r is None,
            },
    {
        let value: u8 = self.bus.peek(operand as u16)?;
        let mut out = String::from_str("$");
        push_hex2(&mut out, operand);
        out.append(" = ");
        push_hex2(&mut out, value);
        Some(out)
    }

    /// An absolute operand, with the byte it names unless `jump` holds.
    fn absolute_direct_text(&self, jump: bool, operand: u16) -> (r: Option<String>)
        ensures
            match self@.absolute_direct_text(jump, operand) {
                Some(text) => r is Some && r->Some_0@ == text,
                None => r is None,
            },
    {
        if jump {
            let mut out = String::from_str("$");
            push_hex4(&mut out, operand);
            Some(out)
        } else {
            let value: u8 = self.bus.peek(operand)?;
            let mut out = String::from_str("$");
            push_hex4(&mut out, operand);
            out.append(" = ");
            push_hex2(&mut out, value);
            Some(out)
        }
    }

    /// The operand of an indirect jump and the target it yields.
    fn indirect_text(&self, operand: u16) -> (r: Option<String>)
        ensures
            match self@.indirect_text(operand) {
                Some(text) => r is Some && r->Some_0@ == text,
                None => r is None,
            },
    {
        let target: u16 = self.peek_pair(
            operand,
            (operand & 0xFF00) | (next_low_byte(operand) as u16),
        )?;
        let mut out = String::from_str("($");
        push_hex4(&mut out, operand);
        out.append(") = ");
        push_hex4(&mut out, target);
        Some(out)
    }

    /// Where a branch with operand `operand` goes if it is taken.
    fn relative_text(&self, operand: u8) -> (r: String)
        ensures
            r@ == self@.relative_text(operand),
    {
        let after: u16 = self.pc.wrapping_add(2);
        let target: u16 = if operand < 0x80 {
            after.wrapping_add(operand as u16)
        } else {
            after.wrapping_sub(0x100 - (operand as u16))
        };
        let mut out = String::from_str("$");
        push_hex4(&mut out, target);
        out
    }

    /// An immediate operand.
    fn immediate_text(operand: u8) -> (r: String)
        ensures
            r@ == "#$"@ + hex2(operand),
    {
        let mut out = String::from_str("#$");
        push_hex2(&mut out, operand);
        out
    }

    /// The operand of the instruction at the program counter as a trace
    /// shows it.
    fn operand_text(&self, op: &OP, b1: u8, b2: u8) -> (r: Option<String>)
        ensures
            match self@.operand_text(*op, b1, b2) {
                Some(text) => r is Some && r->Some_0@ == text,
                None => r is None,
            },
    {
        let operand: u16 = ((b2 as u16) << 8) | (b1 as u16);
        match op.mode {
            AddressingMode::Immediate => Some(Self::immediate_text(b1)),
            AddressingMode::ZeroPage => self.direct_text(b1),
            AddressingMode::ZeroPage_X => self.zero_page_text(b1, self.reg_x, ",X"),
            AddressingMode::ZeroPage_Y => self.zero_page_text(b1, self.reg_y, ",Y"),
            AddressingMode::Absolute => self.absolute_direct_text(
                op.op == Operation::Jmp || op.op == Operation::Jsr,
                operand,
            ),
            AddressingMode::Absolute_X => self.absolute_text(operand, self.reg_x, ",X"),
            AddressingMode::Absolute_Y => self.absolute_text(operand, self.reg_y, ",Y"),
            AddressingMode::Indirect => self.indirect_text(operand),
            AddressingMode::Indirect_X => self.indexed_indirect_text(b1),
            AddressingMode::Indirect_Y => self.indirect_indexed_text(b1),
            AddressingMode::Relative => Some(self.relative_text(b1)),
            AddressingMode::Accumulator => Some(String::from_str("A")),
            AddressingMode::NoneAddressing => Some(String::new()),
        }
    }

    /// The line of a trace for the instruction at the program counter, as
    /// `trace_line` lays it out. Nothing is read through the bus, so the
    /// machine is not changed.
    pub fn print_state(&self) -> (r: Option<String>)
        ensures
            match self@.trace_line() {
                Some(text) => r is Some && r->Some_0@ == text,
                None => r is None,
            },
    {
        let b0: u8 = self.bus.peek(self.pc)?;
        let op: OP = OP::decode(b0)?;
        let b1: u8 = if op.bytes > 1 {
            self.bus.peek(self.pc.wrapping_add(1))?
        } else {
            0
        };
        let b2: u8 = if op.bytes > 2 {
            self.bus.peek(self.pc.wrapping_add(2))?
        } else {
            0
        };
        let operand: String = self.operand_text(&op, b1, b2)?;
        let address: String = address_string(self.pc);
        let code: String = code_string(op.bytes, b0, b1, b2);
        let instruction: String = instruction_string(op.name, operand.as_str());
        let mut out = String::new();
        push_padded(&mut out, address.as_str(), 5);
        out.append(" ");
        push_padded(&mut out, code.as_str(), 8);
        out.append(" ");
        push_padded(&mut out, instruction.as_str(), 32);
        out.append(" ");
        push_registers(&mut out, self);
        assert(out@ =~= pad_right(hex4(self.pc), 5) + " "@ + pad_right(
            code_text(op.bytes, b0, b1, b2),
            8,
        ) + " "@ + pad_right(pad_left(op.name@, 4) + " "@ + operand@, 32) + " "@ + register_text(
            self@,
        ));
        Some(out)
    }
}

/// A word as four hexadecimal digits.
fn address_string(value: u16) -> (r: String)
    ensures
        r@ == hex4(value),
{
    let mut out = String::new();
    push_hex4(&mut out, value);
    assert(out@ =~= hex4(value));
    out
}

/// The bytes of an instruction as hexadecimal pairs.
fn code_string(len: u8, b0: u8, b1: u8, b2: u8) -> (r: String)
    ensures
        r@ == code_text(len, b0, b1, b2),
{
    let mut code = String::new();
    push_hex2(&mut code, b0);
    if len >= 2 {
        code.append(" ");
        push_hex2(&mut code, b1);
    }
    if len >= 3 {
        code.append(" ");
        push_hex2(&mut code, b2);
    }
    reveal(code_text);
    assert(code@ =~= code_text(len, b0, b1, b2));
    code
}

/// The mnemonic, set to the right of four columns, a blank and the operand.
fn instruction_string(name: &str, operand: &str) -> (r: String)
    ensures
        r@ == pad_left(name@, 4) + " "@ + operand@,
{
    let mut instruction = String::new();
    let name_len: usize = name.unicode_len();
    if name_len < 4 {
        push_spaces(&mut instruction, 4 - name_len);
    }
    instruction.append(name);
    reveal(pad_left);
    assert(instruction@ =~= pad_left(name@, 4));
    instruction.append(" ");
    instruction.append(operand);
    instruction
}

/// Appends the registers as a trace shows them.
fn push_registers(out: &mut String, cpu: &CPU)
    ensures
        final(out)@ == old(out)@ + register_text(cpu@),
{
    let mut regs = String::from_str("A:");
    push_hex2(&mut regs, cpu.reg_a);
    regs.append(" X:");
    push_hex2(&mut regs, cpu.reg_x);
    regs.append(" Y:");
    push_hex2(&mut regs, cpu.reg_y);
    regs.append(" P:");
    push_hex2(&mut regs, cpu.status);
    regs.append(" SP:");
    push_hex2(&mut regs, cpu.stack);
    reveal(register_text);
    assert(regs@ =~= register_text(cpu@));
    out.append(regs.as_str());
}

/// The low byte of `ptr`, one further within eight bits.
fn next_low_byte(ptr: u16) -> (r: u8)
    ensures
        (ptr & 0xFF00) | (r as u16) == same_page_next(ptr),
{
    let lo: u8 = (ptr & 0xFF) as u8;
    lo.wrapping_add(1)
}

} // verus!
