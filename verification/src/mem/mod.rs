pub mod bus;
pub mod memory;
pub mod rom;

pub use memory::Memory;
