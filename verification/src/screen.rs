//! The small machine around the processor that the snake game expects: a
//! screen of 32 by 32 cells in RAM from `$0200` on, one colour index a
//! cell, the last key pressed at `$FF` and a random byte at `$FE`.

use vstd::prelude::*;
use crate::cpu::CpuState;
use crate::cpu::CPU;
use crate::mem::bus::lemma_bus_bits;
use crate::mem::bus::BusState;

verus! {

/// Where the screen starts in memory.
pub const SCREEN_START: u16 = 0x0200;

/// How many cells the screen has.
pub const SCREEN_CELLS: usize = 1024;

/// How many bytes a frame has: three a cell.
pub const FRAME_BYTES: usize = 3072;

/// Where the game reads the last key from.
pub const KEY_ADDRESS: u16 = 0x00FF;

/// Where the game reads a random byte from.
pub const RANDOM_ADDRESS: u16 = 0x00FE;

/// What the player did.
#[derive(Debug, Clone, Copy, PartialEq, Eq, Structural)]
pub enum InputEvent {
    /// The window was closed, or Escape was pressed.
    Quit,
    Up,
    Down,
    Left,
    Right,
    /// Anything else.
    Other,
}

/// What the driver is to do about an event.
#[derive(Debug, Clone, Copy, PartialEq, Eq, Structural)]
pub enum InputAction {
    /// End the program.
    Exit,
    /// Store the byte at `KEY_ADDRESS`.
    Press(u8),
    /// Nothing.
    Ignore,
}

/// The colour of a cell as red, green and blue.
pub open spec fn color_of(byte: u8) -> (u8, u8, u8) {
    if byte == 0 {
        (0, 0, 0)
    } else if byte == 1 {
        (255, 255, 255)
    } else if byte == 2 || byte == 9 {
        (128, 128, 128)
    } else if byte == 3 || byte == 10 {
        (255, 0, 0)
    } else if byte == 4 || byte == 11 {
        (0, 255, 0)
    } else if byte == 5 || byte == 12 {
        (0, 0, 255)
    } else if byte == 6 || byte == 13 {
        (255, 0, 255)
    } else if byte == 7 || byte == 14 {
        (255, 255, 0)
    } else {
        (0, 255, 255)
    }
}

/// One of the three bytes of a colour.
pub open spec fn channel(color: (u8, u8, u8), index: int) -> u8 {
    if index == 0 {
        color.0
    } else if index == 1 {
        color.1
    } else {
        color.2
    }
}

/// The frame that a RAM shows: for each of the 1024 cells from `$0200` on,
/// the three bytes of its colour.
pub open spec fn frame_of(ram: Seq<u8>) -> Seq<u8> {
    Seq::new(FRAME_BYTES as nat, |i: int| channel(color_of(ram[0x0200 + i / 3]), i % 3))
}

/// The action that answers an event: the four directions press the keys
/// `w`, `s`, `a` and `d`.
pub open spec fn action_of(event: InputEvent) -> InputAction {
    match event {
        InputEvent::Quit => InputAction::Exit,
        InputEvent::Up => InputAction::Press(0x77),
        InputEvent::Down => InputAction::Press(0x73),
        InputEvent::Left => InputAction::Press(0x61),
        InputEvent::Right => InputAction::Press(0x64),
        InputEvent::Other => InputAction::Ignore,
    }
}

/// The colour of a cell: black, white, then grey, red, green, blue,
/// magenta and yellow twice over, and cyan for every other byte.
pub fn color(byte: u8) -> (r: (u8, u8, u8))
    ensures
        r == color_of(byte),
{
    match byte {
        0 => (0, 0, 0),
        1 => (255, 255, 255),
        2 | 9 => (128, 128, 128),
        3 | 10 => (255, 0, 0),
        4 | 11 => (0, 255, 0),
        5 | 12 => (0, 0, 255),
        6 | 13 => (255, 0, 255),
        7 | 14 => (255, 255, 0),
        _ => (0, 255, 255),
    }
}

/// What the driver is to do about `event`.
pub fn handle_user_input(event: InputEvent) -> (r: InputAction)
    ensures
        r == action_of(event),
{
    match event {
        InputEvent::Quit => InputAction::Exit,
        InputEvent::Up => InputAction::Press(0x77),
        InputEvent::Down => InputAction::Press(0x73),
        InputEvent::Left => InputAction::Press(0x61),
        InputEvent::Right => InputAction::Press(0x64),
        InputEvent::Other => InputAction::Ignore,
    }
}

/// A byte of the screen can always be looked at, and is the cell of RAM at
/// its address.
proof fn lemma_screen_cell(bus: BusState, addr: u16)
    requires
        addr < 0x0800,
    ensures
        bus.peek(addr) == Some(bus.ram[addr as int]),
{
    reveal(BusState::peek);
    reveal(BusState::read8);
    lemma_bus_bits(addr, 0, 0);
}

/// Brings `frame` up to date with the screen in memory, and says whether
/// any byte of it changed.
pub fn read_screen_state(cpu: &CPU, frame: &mut [u8; 3072]) -> (update: bool)
    ensures
        final(frame)@ == frame_of(cpu@.bus.ram),
        update == (old(frame)@ != frame_of(cpu@.bus.ram)),
{
    let mut update: bool = false;
    let mut cell: usize = 0;
    while cell < 1024
        invariant
            cell <= 1024,
            forall|i: int| 0 <= i < 3 * cell ==> frame@[i] == frame_of(cpu@.bus.ram)[i],
            forall|i: int| 3 * cell <= i < 3072 ==> frame@[i] == old(frame)@[i],
            update == exists|i: int| 0 <= i < 3 * cell && old(frame)@[i] != frame_of(cpu@.bus.ram)[i],
        decreases 1024 - cell,
    {
        let addr: u16 = 0x0200 + cell as u16;
        proof {
            lemma_screen_cell(cpu@.bus, addr);
        }
        let (red, green, blue) = match cpu.bus.peek(addr) {
            Some(index) => color(index),
            None => (0, 0, 0),
        };
        let at: usize = 3 * cell;
        assert((at + 0) / 3 == cell && (at + 1) / 3 == cell && (at + 2) / 3 == cell);
        assert((at + 0) % 3 == 0 && (at + 1) % 3 == 1 && (at + 2) % 3 == 2);
        if frame[at] != red || frame[at + 1] != green || frame[at + 2] != blue {
            frame[at] = red;
            frame[at + 1] = green;
            frame[at + 2] = blue;
            update = true;
        }
        cell += 1;
    }
    proof {
        assert(frame@ =~= frame_of(cpu@.bus.ram));
        if update {
            let i = choose|i: int| 0 <= i < 3072 && old(frame)@[i] != frame_of(cpu@.bus.ram)[i];
            assert(old(frame)@[i] != frame_of(cpu@.bus.ram)[i]);
        } else {
            assert(old(frame)@ =~= frame_of(cpu@.bus.ram));
        }
    }
    update
}

} // verus!
