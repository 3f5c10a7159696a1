use vstd::prelude::*;

verus! {

/// The sprite-memory pointer, `$2003`.
#[derive(Debug, Clone, Copy, PartialEq, Eq, Structural)]
pub struct OAMADDRESS(u8);

impl View for OAMADDRESS {
    type V = u8;

    closed spec fn view(&self) -> u8 {
        self.0
    }
}

impl OAMADDRESS {
    pub fn new() -> (r: OAMADDRESS)
        ensures
            r@ == 0,
    {
        OAMADDRESS(0)
    }

    /// Latches a byte written to the port.
    pub fn update(&mut self, data: u8)
        ensures
            final(self)@ == data,
    {
        self.0 = data;
    }

    /// Moves the pointer to the next byte, from `0xFF` back to 0.
    pub fn increment(&mut self)
        ensures
            final(self)@ == (old(self)@ + 1) % 256,
    {
        self.0 = self.0.wrapping_add(1);
    }

    pub fn get(&self) -> (r: u8)
        ensures
            r == self@,
    {
        self.0
    }
}

impl Default for OAMADDRESS {
    fn default() -> (r: OAMADDRESS)
        ensures
            r@ == 0,
    {
        OAMADDRESS::new()
    }
}

} // verus!
