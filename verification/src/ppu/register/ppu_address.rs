use vstd::prelude::*;

verus! {

/// The video address latch behind `$2006`: fourteen bits, written one byte
/// at a time, high byte first.
#[derive(Debug, Clone, Copy, PartialEq, Eq, Structural)]
pub struct PPUADDRESS {
    value: u16,
}

impl View for PPUADDRESS {
    type V = u16;

    closed spec fn view(&self) -> u16 {
        self.value
    }
}

/// A sixteen-bit latch after one byte of a double write: with the toggle
/// clear the byte replaces the high half, with it set the low half.
pub open spec fn latch_byte(latch: u16, data: u8, w: bool) -> u16 {
    if w {
        (latch & 0xFF00) | (data as u16)
    } else {
        ((data as u16) << 8) | (latch & 0x00FF)
    }
}

/// The video address after one byte of a double write: the latch, cut to
/// fourteen bits.
pub open spec fn address_after_write(address: u16, data: u8, w: bool) -> u16 {
    latch_byte(address, data, w) & 0x3FFF
}

/// The video address after an access of the data port: `inc` further, within
/// fourteen bits.
pub open spec fn address_after_access(address: u16, inc: u8) -> u16 {
    (((address + inc) % 0x1_0000) as u16) & 0x3FFF
}

impl PPUADDRESS {
    pub fn new() -> (r: PPUADDRESS)
        ensures
            r@ == 0,
    {
        PPUADDRESS { value: 0 }
    }

    /// Stores `data`, cut to fourteen bits.
    pub fn set(&mut self, data: u16)
        ensures
            final(self)@ == data & 0x3FFF,
    {
        self.value = data & 0x3FFF;
    }

    /// Takes one byte of a double write and flips the toggle.
    pub fn update(&mut self, data: u8, w_flag: &mut bool)
        ensures
            final(self)@ == address_after_write(old(self)@, data, *old(w_flag)),
            *final(w_flag) == !*old(w_flag),
    {
        let latch: u16 = if *w_flag {
            (self.value & 0xFF00) | (data as u16)
        } else {
            ((data as u16) << 8) | (self.value & 0x00FF)
        };
        self.value = latch & 0x3FFF;
        *w_flag = !*w_flag;
    }

    /// Moves the address `inc` further, within fourteen bits.
    pub fn increment(&mut self, inc: u8)
        ensures
            final(self)@ == address_after_access(old(self)@, inc),
    {
        self.value = self.value.wrapping_add(inc as u16) & 0x3FFF;
    }

    pub fn get(&self) -> (r: u16)
        ensures
            r == self@,
    {
        self.value
    }
}

impl Default for PPUADDRESS {
    fn default() -> (r: PPUADDRESS)
        ensures
            r@ == 0,
    {
        PPUADDRESS::new()
    }
}

} // verus!
