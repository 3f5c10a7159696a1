use vstd::prelude::*;
use crate::cpu::opcode::AddressingMode;

verus! {

/// A condition that ends emulation. No function of the library panics: an
/// access or an instruction that the machine cannot perform is reported as
/// one of these values, and the caller decides how to stop.
#[derive(Debug, Clone, Copy, PartialEq, Eq, Structural)]
pub enum Fault {
    /// The byte fetched at `pc` is no entry of the instruction table.
    UnknownOpcode { opcode: u8, pc: u16 },
    /// A read of a write-only register of the picture unit.
    ReadFromWriteOnlyPpu { addr: u16 },
    /// A write to the read-only status register of the picture unit.
    WriteToReadOnlyPpu { addr: u16 },
    /// A write into `$8000`-`$FFFF`.
    WriteToRom { addr: u16 },
    /// The data port was used with the video address in `$3000`-`$3EFF`, or
    /// at a nametable byte that the mirroring does not fold into video RAM.
    BadPpuAddress { addr: u16 },
    /// The data port was read at a pattern address past the end of the
    /// character bank.
    ChrOutOfRange { addr: u16 },
    /// A register of the picture unit was accessed on a bus that has none.
    NoPpu { addr: u16 },
    /// A read from `$8000`-`$FFFF` with no cartridge inserted.
    NoCartridge { addr: u16 },
    /// A read from `$8000`-`$FFFF` past the end of the program bank.
    PrgOutOfRange { addr: u16 },
    /// An effective address was asked of a mode that has none.
    UnsupportedAddressingMode { mode: AddressingMode },
}

} // verus!
