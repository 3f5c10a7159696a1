use vstd::prelude::*;

verus! {

/// The control register, `$2000`.
///
/// ```text
/// 7  bit  0
/// VPHB SINN
/// |||| ||++- base nametable (0 = $2000; 1 = $2400; 2 = $2800; 3 = $2C00)
/// |||| |+--- address increment per access of the data port (0: 1; 1: 32)
/// |||| +---- sprite pattern table for 8x8 sprites
/// |||+------ background pattern table
/// ||+------- sprite size
/// |+-------- master/slave select
/// +--------- raise an interrupt when vertical blank starts
/// ```
#[derive(Debug, Clone, Copy, PartialEq, Eq, Structural)]
pub struct PPUCTRL {
    bits: u8,
}

impl View for PPUCTRL {
    type V = u8;

    closed spec fn view(&self) -> u8 {
        self.bits
    }
}

/// The step that the control byte `ctrl` selects for the video address.
pub open spec fn increment_of(ctrl: u8) -> u8 {
    if ctrl & 0b0000_0100 == 0 {
        1
    } else {
        32
    }
}

impl PPUCTRL {
    pub const NAMETABLE1: u8 = 0b0000_0001;

    pub const NAMETABLE2: u8 = 0b0000_0010;

    pub const VRAM_ADD_INCREMENT: u8 = 0b0000_0100;

    pub const SPRITE_PATTERN_ADDR: u8 = 0b0000_1000;

    pub const BACKROUND_PATTERN_ADDR: u8 = 0b0001_0000;

    pub const SPRITE_SIZE: u8 = 0b0010_0000;

    pub const MASTER_SLAVE_SELECT: u8 = 0b0100_0000;

    pub const GENERATE_NMI: u8 = 0b1000_0000;

    /// The register with no bit set.
    pub fn new() -> (r: PPUCTRL)
        ensures
            r@ == 0,
    {
        PPUCTRL { bits: 0 }
    }

    /// The register holding `bits`; each of the eight bits is a defined flag,
    /// so none is dropped.
    pub fn from_bits_truncate(bits: u8) -> (r: PPUCTRL)
        ensures
            r@ == bits,
    {
        PPUCTRL { bits }
    }

    pub fn bits(&self) -> (r: u8)
        ensures
            r == self@,
    {
        self.bits
    }

    /// Whether every bit of `flags` is set.
    pub fn contains(&self, flags: u8) -> (r: bool)
        ensures
            r == (self@ & flags == flags),
    {
        self.bits & flags == flags
    }

    /// By how much the video address moves after an access of the data port.
    pub fn vram_addr_increment(&self) -> (r: u8)
        ensures
            r == increment_of(self@),
    {
        if self.bits & 0b0000_0100 == 0 {
            1
        } else {
            32
        }
    }

    /// Latches a byte written to the port.
    pub fn update(&mut self, data: u8)
        ensures
            final(self)@ == data,
    {
        self.bits = data;
    }
}

} // verus!
