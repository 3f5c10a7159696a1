use vstd::prelude::*;
use crate::ppu::register::ppu_address::latch_byte;

verus! {

/// The scroll latch behind `$2005`: sixteen bits, written one byte at a
/// time, high half first.
#[derive(Debug, Clone, Copy, PartialEq, Eq, Structural)]
pub struct PPUSCROLL {
    value: u16,
}

impl View for PPUSCROLL {
    type V = u16;

    closed spec fn view(&self) -> u16 {
        self.value
    }
}

impl PPUSCROLL {
    pub fn new() -> (r: PPUSCROLL)
        ensures
            r@ == 0,
    {
        PPUSCROLL { value: 0 }
    }

    /// Takes one byte of a double write and flips the toggle.
    pub fn update(&mut self, data: u8, w_flag: &mut bool)
        ensures
            final(self)@ == latch_byte(old(self)@, data, *old(w_flag)),
            *final(w_flag) == !*old(w_flag),
    {
        self.value = if *w_flag {
            (self.value & 0xFF00) | (data as u16)
        } else {
            ((data as u16) << 8) | (self.value & 0x00FF)
        };
        *w_flag = !*w_flag;
    }

    pub fn get(&self) -> (r: u16)
        ensures
            r == self@,
    {
        self.value
    }
}

impl Default for PPUSCROLL {
    fn default() -> (r: PPUSCROLL)
        ensures
            r@ == 0,
    {
        PPUSCROLL::new()
    }
}

} // verus!
