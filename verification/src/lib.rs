//! A MOS 6502 core as wired in the Nintendo Entertainment System, together
//! with the memory bus, the cartridge image and the register interface of the
//! picture processing unit that a program needs around it.
//!
//! Every executable function carries a contract over a mathematical model of
//! the machine: each component has a view made of integers and sequences, and
//! the behaviour of each operation is a spec function on those views.

pub mod cpu;
pub mod fault;
pub mod mem;
pub mod ppu;
pub mod screen;
pub mod utils;
