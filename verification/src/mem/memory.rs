use vstd::prelude::*;

verus! {

/// Byte and word access to an address space of sixteen bits. Words are
/// little-endian: the low byte at `addr`, the high byte at the address
/// after it, which wraps from `$FFFF` to `$0000`.
///
/// An access that the address space cannot serve is left out by each
/// method's precondition.
pub trait Memory {
    /// Whether a byte can be read at `addr` now.
    spec fn readable(&self, addr: u16) -> bool;

    /// Whether a byte can be written at `addr` now.
    spec fn writable(&self, addr: u16) -> bool;

    /// Whether both bytes of a word can be read at `addr` now, the low one
    /// first.
    spec fn readable_u16(&self, addr: u16) -> bool;

    /// Whether both bytes of `data` can be written at `addr` now, the low
    /// one first.
    spec fn writable_u16(&self, addr: u16, data: u16) -> bool;

    fn mem_read_u8(&mut self, addr: u16) -> (value: u8)
        requires
            old(self).readable(addr),
    ;

    fn mem_write_u8(&mut self, addr: u16, data: u8)
        requires
            old(self).writable(addr),
    ;

    fn mem_read_u16(&mut self, addr: u16) -> (value: u16)
        requires
            old(self).readable_u16(addr),
    ;

    fn mem_write_u16(&mut self, addr: u16, data: u16)
        requires
            old(self).writable_u16(addr, data),
    ;
}

} // verus!
