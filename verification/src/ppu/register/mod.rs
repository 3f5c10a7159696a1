pub mod control_reg;
pub mod oam_address;
pub mod ppu_address;
pub mod scroll;

use vstd::prelude::*;

verus! {

/// The mask register, `$2001`: eight independent rendering switches.
///
/// ```text
/// 7  bit  0
/// BGRs bMmG
/// |||| |||+- greyscale
/// |||| ||+-- show background in the leftmost 8 pixels
/// |||| |+--- show sprites in the leftmost 8 pixels
/// |||| +---- render background
/// |||+------ render sprites
/// ||+------- emphasize red
/// |+-------- emphasize green
/// +--------- emphasize blue
/// ```
#[derive(Debug, Clone, Copy, PartialEq, Eq, Structural)]
pub struct PPUMASK {
    bits: u8,
}

impl View for PPUMASK {
    type V = u8;

    closed spec fn view(&self) -> u8 {
        self.bits
    }
}

impl PPUMASK {
    pub const GRAYSCALE: u8 = 0b0000_0001;

    pub const LEFT_BACKGROUND: u8 = 0b0000_0010;

    pub const LEFT_SPRITE: u8 = 0b0000_0100;

    pub const RENDER_BACKGROUND: u8 = 0b0000_1000;

    pub const RENDER_SPRITE: u8 = 0b0001_0000;

    pub const EMPHASIS_RED: u8 = 0b0010_0000;

    pub const EMPHASIS_GREEN: u8 = 0b0100_0000;

    pub const EMPHASIS_BLUE: u8 = 0b1000_0000;

    /// The register with no bit set.
    pub fn empty() -> (r: PPUMASK)
        ensures
            r@ == 0,
    {
        PPUMASK { bits: 0 }
    }

    /// The register holding `bits`; each of the eight bits is a defined flag,
    /// so none is dropped.
    pub fn from_bits_truncate(bits: u8) -> (r: PPUMASK)
        ensures
            r@ == bits,
    {
        PPUMASK { bits }
    }

    pub fn bits(&self) -> (r: u8)
        ensures
            r == self@,
    {
        self.bits
    }

    /// Whether every bit of `flags` is set.
    pub fn contains(&self, flags: u8) -> (r: bool)
        ensures
            r == (self@ & flags == flags),
    {
        self.bits & flags == flags
    }

    /// Latches a byte written to the port.
    pub fn update(&mut self, data: u8)
        ensures
            final(self)@ == data,
    {
        self.bits = data;
    }
}

/// The status register, `$2002`.
///
/// ```text
/// 7  bit  0
/// VSOx xxxx
/// |||+-++++- open bus
/// ||+------- sprite overflow
/// |+-------- sprite 0 hit
/// +--------- vertical blank has started
/// ```
#[derive(Debug, Clone, Copy, PartialEq, Eq, Structural)]
pub struct PPUSTATUS {
    bits: u8,
}

impl View for PPUSTATUS {
    type V = u8;

    closed spec fn view(&self) -> u8 {
        self.bits
    }
}

impl PPUSTATUS {
    pub const OPEN_0: u8 = 0b0000_0001;

    pub const OPEN_1: u8 = 0b0000_0010;

    pub const OPEN_2: u8 = 0b0000_0100;

    pub const OPEN_3: u8 = 0b0000_1000;

    pub const OPEN_4: u8 = 0b0001_0000;

    pub const SPRITE_OVERFLOW: u8 = 0b0010_0000;

    pub const SPRITE_0_HIT: u8 = 0b0100_0000;

    pub const VBLANK: u8 = 0b1000_0000;

    /// The register with no bit set.
    pub fn empty() -> (r: PPUSTATUS)
        ensures
            r@ == 0,
    {
        PPUSTATUS { bits: 0 }
    }

    /// The register holding `bits`; each of the eight bits is a defined flag,
    /// so none is dropped.
    pub fn from_bits_truncate(bits: u8) -> (r: PPUSTATUS)
        ensures
            r@ == bits,
    {
        PPUSTATUS { bits }
    }

    pub fn bits(&self) -> (r: u8)
        ensures
            r == self@,
    {
        self.bits
    }

    /// Whether every bit of `flags` is set.
    pub fn contains(&self, flags: u8) -> (r: bool)
        ensures
            r == (self@ & flags == flags),
    {
        self.bits & flags == flags
    }

    /// Sets the bits of `flags` when `value` holds and clears them otherwise.
    pub fn set(&mut self, flags: u8, value: bool)
        ensures
            final(self)@ == crate::utils::set_bit(old(self)@, flags, value),
    {
        self.bits = crate::utils::set_bit(self.bits, flags, value);
    }

    /// Whether the vertical-blank bit is set.
    pub fn is_vblank(&self) -> (r: bool)
        ensures
            r == (self@ & 0x80 == 0x80),
    {
        self.contains(PPUSTATUS::VBLANK)
    }

    /// Sets or clears the vertical-blank bit and keeps the other seven.
    pub fn set_vblank(&mut self, value: bool)
        ensures
            final(self)@ == crate::utils::set_bit(old(self)@, 0x80, value),
    {
        self.set(PPUSTATUS::VBLANK, value);
    }
}

} // verus!
