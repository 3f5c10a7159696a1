use vstd::prelude::*;
use vstd::pervasive::unreached;
use crate::fault::Fault;
use crate::mem::memory::Memory;
use crate::mem::rom::Rom;
use crate::mem::rom::RomView;
use crate::ppu::lemma_tick_additive;
use crate::ppu::power_on;
use crate::ppu::PpuState;
use crate::ppu::PPU;

verus! {

pub const RAM_END: u16 = 0x1FFF;

pub const PPU_START: u16 = 0x2000;

pub const PPU_END: u16 = 0x3FFF;

pub const PRG_START: u16 = 0x8000;

/// The address decoder of the machine: two kilobytes of RAM, the registers
/// of the picture unit and the program bank of the cartridge, mapped into
/// sixteen bits of address.
///
/// | range           | read                 | write                |
/// |-----------------|----------------------|----------------------|
/// | `$0000`-`$1FFF` | RAM at `addr & $7FF` | RAM at `addr & $7FF` |
/// | `$2000`-`$3FFF` | register `addr & 7`  | register `addr & 7`  |
/// | `$4000`-`$7FFF` | 0                    | dropped              |
/// | `$8000`-`$FFFF` | program bank         | fault                |
pub struct Bus {
    pub cpu_ram: [u8; 2048],
    pub rom: Option<Rom>,
    pub ppu: Option<PPU>,
}

/// The mathematical state of the bus and of what hangs on it.
#[verifier::ext_equal]
pub struct BusState {
    pub ram: Seq<u8>,
    pub rom: Option<RomView>,
    pub ppu: Option<PpuState>,
}

/// The address after `addr`, from `$FFFF` back to `$0000`.
pub open spec fn next_addr(addr: u16) -> u16 {
    if addr == 0xFFFF {
        0
    } else {
        (addr + 1) as u16
    }
}

/// The word made of a low and a high byte.
pub open spec fn word(lo: u8, hi: u8) -> u16 {
    ((hi as u16) << 8) | (lo as u16)
}

/// The low byte of a word.
pub open spec fn low_byte(data: u16) -> u8 {
    (data & 0xFF) as u8
}

/// The high byte of a word.
pub open spec fn high_byte(data: u16) -> u8 {
    (data >> 8) as u8
}

/// The offset in a program bank of `len` bytes that `addr` reads: a bank of
/// exactly 16 KiB appears twice, at `$8000` and at `$C000`.
pub open spec fn prg_offset(len: nat, addr: u16) -> int {
    let offset = addr - 0x8000;
    if len == 0x4000 && offset >= 0x4000 {
        offset - 0x4000
    } else {
        offset
    }
}

impl BusState {
    /// What a read of the program bank at `addr` yields.
    pub open spec fn read_prg(self, addr: u16) -> Result<u8, Fault> {
        match self.rom {
            None => Err(Fault::NoCartridge { addr }),
            Some(rom) => {
                let offset = prg_offset(rom.prg.len(), addr);
                if offset < rom.prg.len() {
                    Ok(rom.prg[offset])
                } else {
                    Err(Fault::PrgOutOfRange { addr })
                }
            },
        }
    }

    /// What a read of a register of the picture unit yields, and the unit
    /// after it. Status, sprite data and the data port can be read; the other
    /// five registers are write-only.
    pub open spec fn read_ppu(self, addr: u16) -> Result<(u8, BusState), Fault> {
        match self.ppu {
            None => Err(Fault::NoPpu { addr }),
            Some(ppu) => {
                let port = addr & 0x0007;
                if port == 2 {
                    Ok((ppu.status, BusState { ppu: Some(ppu.after_status_read()), ..self }))
                } else if port == 4 {
                    Ok((ppu.oam[ppu.oam_addr as int], self))
                } else if port == 7 {
                    match ppu.read_fault() {
                        Some(fault) => Err(fault),
                        None => Ok(
                            (ppu.data_read(), BusState { ppu: Some(ppu.after_data_read()), ..self }),
                        ),
                    }
                } else {
                    Err(Fault::ReadFromWriteOnlyPpu { addr })
                }
            },
        }
    }

    /// What a write to a register of the picture unit yields. Every register
    /// but status can be written.
    pub open spec fn write_ppu(self, addr: u16, data: u8) -> Result<BusState, Fault> {
        match self.ppu {
            None => Err(Fault::NoPpu { addr }),
            Some(ppu) => {
                let port = addr & 0x0007;
                if port == 0 {
                    Ok(BusState { ppu: Some(ppu.after_ctrl_write(data)), ..self })
                } else if port == 1 {
                    Ok(BusState { ppu: Some(PpuState { mask: data, ..ppu }), ..self })
                } else if port == 2 {
                    Err(Fault::WriteToReadOnlyPpu { addr })
                } else if port == 3 {
                    Ok(BusState { ppu: Some(PpuState { oam_addr: data, ..ppu }), ..self })
                } else if port == 4 {
                    Ok(BusState { ppu: Some(ppu.after_oam_write(data)), ..self })
                } else if port == 5 {
                    Ok(BusState { ppu: Some(ppu.after_scroll_write(data)), ..self })
                } else if port == 6 {
                    Ok(BusState { ppu: Some(ppu.after_addr_write(data)), ..self })
                } else {
                    match ppu.write_fault() {
                        Some(fault) => Err(fault),
                        None => Ok(BusState { ppu: Some(ppu.after_data_write(data)), ..self }),
                    }
                }
            },
        }
    }

    /// What a read of one byte at `addr` yields: the byte and the bus after
    /// the read, or the fault that the read raises.
    #[verifier::opaque]
    pub open spec fn read8(self, addr: u16) -> Result<(u8, BusState), Fault> {
        if addr <= RAM_END {
            Ok((self.ram[(addr & 0x07FF) as int], self))
        } else if addr <= PPU_END {
            self.read_ppu(addr)
        } else if addr < PRG_START {
            Ok((0u8, self))
        } else {
            match self.read_prg(addr) {
                Ok(value) => Ok((value, self)),
                Err(fault) => Err(fault),
            }
        }
    }

    /// What a write of one byte at `addr` yields: the bus after the write,
    /// or the fault that the write raises.
    #[verifier::opaque]
    pub open spec fn write8(self, addr: u16, data: u8) -> Result<BusState, Fault> {
        if addr <= RAM_END {
            Ok(BusState { ram: self.ram.update((addr & 0x07FF) as int, data), ..self })
        } else if addr <= PPU_END {
            self.write_ppu(addr, data)
        } else if addr < PRG_START {
            Ok(self)
        } else {
            Err(Fault::WriteToRom { addr })
        }
    }

    /// A little-endian word read: the low byte at `addr`, then the high byte
    /// at the address after it.
    pub open spec fn read16(self, addr: u16) -> Result<(u16, BusState), Fault> {
        match self.read8(addr) {
            Err(fault) => Err(fault),
            Ok((lo, after_lo)) => match after_lo.read8(next_addr(addr)) {
                Err(fault) => Err(fault),
                Ok((hi, after_hi)) => Ok((word(lo, hi), after_hi)),
            },
        }
    }

    /// A little-endian word write: the low byte at `addr`, then the high
    /// byte at the address after it.
    pub open spec fn write16(self, addr: u16, data: u16) -> Result<BusState, Fault> {
        match self.write8(addr, low_byte(data)) {
            Err(fault) => Err(fault),
            Ok(after_lo) => after_lo.write8(next_addr(addr), high_byte(data)),
        }
    }

    /// The byte that a read at `addr` would return, when the read has no
    /// effect on the bus.
    #[verifier::opaque]
    pub open spec fn peek(self, addr: u16) -> Option<u8> {
        match self.read8(addr) {
            Ok((value, after)) => if after == self {
                Some(value)
            } else {
                None
            },
            Err(_) => None,
        }
    }

    /// The bus with `rom` inserted: the cartridge is installed, and a fresh
    /// picture unit is built around its character bank and mirroring.
    pub open spec fn with_rom(self, rom: RomView) -> BusState {
        BusState { rom: Some(rom), ppu: Some(power_on(rom.chr, rom.mirroring)), ..self }
    }

    /// The bus after `cpu_cycles` processor cycles: the picture unit, if
    /// there is one, is three dots further for each.
    pub open spec fn tick(self, cpu_cycles: nat) -> BusState {
        match self.ppu {
            Some(ppu) => BusState { ppu: Some(ppu.tick(3 * cpu_cycles)), ..self },
            None => self,
        }
    }

    /// Whether the picture unit has an interrupt to deliver.
    pub open spec fn nmi_flag(self) -> bool {
        match self.ppu {
            Some(ppu) => ppu.nmi_flag(),
            None => false,
        }
    }

    /// The bus after the interrupt was taken.
    pub open spec fn after_poll_nmi(self) -> BusState {
        match self.ppu {
            Some(ppu) => if ppu.nmi_flag() {
                BusState { ppu: Some(PpuState { nmi_pending: false, ..ppu }), ..self }
            } else {
                self
            },
            None => self,
        }
    }
}

/// The state of a bus with zeroed RAM, no cartridge and no picture unit.
pub open spec fn empty_bus() -> BusState {
    BusState { ram: Seq::new(2048, |i: int| 0u8), rom: None, ppu: None }
}

impl View for Bus {
    type V = BusState;

    open spec fn view(&self) -> BusState {
        BusState {
            ram: self.cpu_ram@,
            rom: match self.rom {
                Some(rom) => Some(rom@),
                None => None,
            },
            ppu: match self.ppu {
                Some(ppu) => Some(ppu@),
                None => None,
            },
        }
    }
}

/// Facts on the masks and shifts of the address decoder.
pub proof fn lemma_bus_bits(addr: u16, lo: u8, hi: u8)
    by (bit_vector)
    ensures
        addr & 0x07FF < 2048,
        addr < 0x0800 ==> addr & 0x07FF == addr,
        addr < 0x0800 ==> (addr + 0x0800) as u16 & 0x07FF == addr,
        addr < 0x0800 ==> (addr + 0x1000) as u16 & 0x07FF == addr,
        addr < 0x0800 ==> (addr + 0x1800) as u16 & 0x07FF == addr,
        ((((hi as u16) << 8) | (lo as u16)) & 0xFF) as u8 == lo,
        ((((hi as u16) << 8) | (lo as u16)) >> 8) as u8 == hi,
        (((addr >> 8) as u8 as u16) << 8) | ((addr & 0xFF) as u8 as u16) == addr,
{
}

/// The four images of RAM read alike: a read at `addr + k * $800`, for an
/// `addr` below `$800` and `k` from 0 to 3, yields what a read at `addr`
/// yields.
pub proof fn lemma_ram_mirror(bus: BusState, addr: u16, k: int)
    requires
        addr < 0x0800,
        0 <= k <= 3,
    ensures
        bus.read8((addr + k * 0x0800) as u16) == bus.read8(addr),
        bus.read8(addr) == Ok::<(u8, BusState), Fault>((bus.ram[addr as int], bus)),
{
    reveal(BusState::read8);
    lemma_bus_bits(addr, 0, 0);
}

/// A byte written to RAM is the byte read back, at the address written and
/// at each of its images, and the read leaves the bus as the write left it.
pub proof fn lemma_ram_write_then_read(bus: BusState, addr: u16, data: u8, k: int)
    requires
        bus.ram.len() == 2048,
        addr < 0x0800,
        0 <= k <= 3,
    ensures
        bus.write8((addr + k * 0x0800) as u16, data) is Ok,
        bus.write8((addr + k * 0x0800) as u16, data)->Ok_0.read8(addr) == Ok::<
            (u8, BusState),
            Fault,
        >((data, bus.write8((addr + k * 0x0800) as u16, data)->Ok_0)),
        bus.write8((addr + k * 0x0800) as u16, data) == bus.write8(addr, data),
        bus.write8((addr + k * 0x0800) as u16, data)->Ok_0.read8((addr + k * 0x0800) as u16)
            == Ok::<(u8, BusState), Fault>(
            (data, bus.write8((addr + k * 0x0800) as u16, data)->Ok_0),
        ),
{
    reveal(BusState::read8);
    reveal(BusState::write8);
    lemma_bus_bits(addr, 0, 0);
}

/// A word written to RAM is the word read back.
pub proof fn lemma_ram_word_round_trip(bus: BusState, addr: u16, data: u16)
    requires
        bus.ram.len() == 2048,
        addr < RAM_END,
    ensures
        bus.write16(addr, data) is Ok,
        bus.write16(addr, data)->Ok_0.read16(addr) == Ok::<(u16, BusState), Fault>(
            (data, bus.write16(addr, data)->Ok_0),
        ),
{
    reveal(BusState::read8);
    reveal(BusState::write8);
    lemma_bus_bits(addr, 0, 0);
    lemma_bus_bits(next_addr(addr), 0, 0);
    lemma_bus_bits(data, 0, 0);
    lemma_next_index(addr);
}

/// Two neighbouring addresses of RAM have different cells, unless the
/// second wraps onto the first, which two kilobytes never do.
proof fn lemma_next_index(addr: u16)
    by (bit_vector)
    requires
        addr < 0x1FFF,
    ensures
        (addr + 1) as u16 & 0x07FF != addr & 0x07FF,
{
}

impl Bus {
    /// A bus with zeroed RAM, no cartridge and no picture unit.
    pub fn new() -> (bus: Bus)
        ensures
            bus@ == empty_bus(),
    {
        let bus = Bus { cpu_ram: [0; 2048], rom: None, ppu: None };
        assert(bus@.ram =~= Seq::new(2048, |i: int| 0u8));
        bus
    }

    /// A bus with zeroed RAM around the cartridge `rom`.
    pub fn from_rom(rom: Rom) -> (bus: Bus)
        ensures
            bus@ == empty_bus().with_rom(rom@),
    {
        let mut bus = Bus::new();
        bus.insert_rom(rom);
        bus
    }

    /// Installs the cartridge and builds the picture unit around its
    /// character bank and mirroring. RAM is kept.
    pub fn insert_rom(&mut self, rom: Rom)
        ensures
            final(self)@ == old(self)@.with_rom(rom@),
    {
        let chr: Vec<u8> = rom.chr_rom.clone();
        assert(chr@ =~= rom.chr_rom@);
        let ppu = PPU::new(chr, rom.screen_mirroring);
        self.rom = Some(rom);
        self.ppu = Some(ppu);
    }

    /// Lets the picture unit run for `count` processor cycles, three dots
    /// each.
    pub fn tick(&mut self, count: u32)
        ensures
            final(self)@ == old(self)@.tick(count as nat),
    {
        match &mut self.ppu {
            Some(ppu) => {
                proof {
                    lemma_tick_additive(ppu@, count as nat, count as nat);
                    lemma_tick_additive(ppu@, 2 * count as nat, count as nat);
                }
                ppu.tick(count);
                ppu.tick(count);
                ppu.tick(count);
            },
            None => {},
        }
    }

    /// Takes the interrupt of the picture unit, if one is to be delivered:
    /// returns whether one was, and withdraws it.
    pub fn poll_nmi_status(&mut self) -> (fired: bool)
        ensures
            fired == old(self)@.nmi_flag(),
            final(self)@ == old(self)@.after_poll_nmi(),
    {
        match &mut self.ppu {
            Some(ppu) => {
                if ppu.get_nmi_flag() {
                    ppu.clear_nmi_flag();
                    return true;
                }
            },
            None => {},
        }
        false
    }

    /// Reads the program bank at `addr`.
    pub fn read_prg_rom(&self, addr: u16) -> (r: Result<u8, Fault>)
        requires
            addr >= PRG_START,
        ensures
            r == self@.read_prg(addr),
    {
        match &self.rom {
            Some(rom) => {
                let mut offset: usize = (addr - 0x8000) as usize;
                if rom.prg_rom.len() == 0x4000 && offset >= 0x4000 {
                    offset = offset - 0x4000;
                }
                if offset < rom.prg_rom.len() {
                    Ok(rom.prg_rom[offset])
                } else {
                    Err(Fault::PrgOutOfRange { addr })
                }
            },
            None => Err(Fault::NoCartridge { addr }),
        }
    }

    /// Reads one byte. The result is `Ok` exactly where the address space
    /// can serve the read; a read that faults leaves the bus as it was.
    pub fn read8(&mut self, addr: u16) -> (r: Result<u8, Fault>)
        ensures
            match old(self)@.read8(addr) {
                Ok((value, after)) => r == Ok::<u8, Fault>(value) && final(self)@ == after,
                Err(fault) => r == Err::<u8, Fault>(fault) && final(self)@ == old(self)@,
            },
    {
        proof {
            reveal(BusState::read8);
        }
        if addr <= RAM_END {
            proof {
                lemma_bus_bits(addr, 0, 0);
            }
            Ok(self.cpu_ram[(addr & 0x07FF) as usize])
        } else if addr <= PPU_END {
            match &mut self.ppu {
                Some(ppu) => {
                    let port: u16 = addr & 0x0007;
                    if port == 2 {
                        Ok(ppu.read_status())
                    } else if port == 4 {
                        Ok(ppu.read_oam_data())
                    } else if port == 7 {
                        match ppu.data_port_fault(false) {
                            Some(fault) => Err(fault),
                            None => Ok(ppu.read_data()),
                        }
                    } else {
                        Err(Fault::ReadFromWriteOnlyPpu { addr })
                    }
                },
                None => Err(Fault::NoPpu { addr }),
            }
        } else if addr < PRG_START {
            Ok(0)
        } else {
            self.read_prg_rom(addr)
        }
    }

    /// Writes one byte. The result is `Ok` exactly where the address space
    /// can serve the write; a write that faults leaves the bus as it was.
    pub fn write8(&mut self, addr: u16, data: u8) -> (r: Result<(), Fault>)
        ensures
            match old(self)@.write8(addr, data) {
                Ok(after) => r is Ok && final(self)@ == after,
                Err(fault) => r == Err::<(), Fault>(fault) && final(self)@ == old(self)@,
            },
    {
        proof {
            reveal(BusState::write8);
        }
        if addr <= RAM_END {
            proof {
                lemma_bus_bits(addr, 0, 0);
            }
            self.cpu_ram[(addr & 0x07FF) as usize] = data;
            Ok(())
        } else if addr <= PPU_END {
            match &mut self.ppu {
                Some(ppu) => {
                    let port: u16 = addr & 0x0007;
                    if port == 0 {
                        ppu.write_to_ctrl(data);
                        Ok(())
                    } else if port == 1 {
                        ppu.write_to_mask(data);
                        Ok(())
                    } else if port == 2 {
                        Err(Fault::WriteToReadOnlyPpu { addr })
                    } else if port == 3 {
                        ppu.write_to_oam_addr(data);
                        Ok(())
                    } else if port == 4 {
                        ppu.write_to_oam_data(data);
                        Ok(())
                    } else if port == 5 {
                        ppu.write_to_scroll(data);
                        Ok(())
                    } else if port == 6 {
                        ppu.write_to_ppu_addr(data);
                        Ok(())
                    } else {
                        match ppu.data_port_fault(true) {
                            Some(fault) => Err(fault),
                            None => {
                                ppu.write_to_data(data);
                                Ok(())
                            },
                        }
                    }
                },
                None => Err(Fault::NoPpu { addr }),
            }
        } else if addr < PRG_START {
            Ok(())
        } else {
            Err(Fault::WriteToRom { addr })
        }
    }

    /// Reads a little-endian word: the low byte first, and the high byte
    /// only if the low one could be read.
    pub fn read16(&mut self, addr: u16) -> (r: Result<u16, Fault>)
        ensures
            match old(self)@.read16(addr) {
                Ok((value, after)) => r == Ok::<u16, Fault>(value) && final(self)@ == after,
                Err(fault) => r == Err::<u16, Fault>(fault),
            },
    {
        let lo: u8 = self.read8(addr)?;
        let hi: u8 = self.read8(addr.wrapping_add(1))?;
        Ok(((hi as u16) << 8) | (lo as u16))
    }

    /// Writes a little-endian word: the low byte first, and the high byte
    /// only if the low one could be written.
    pub fn write16(&mut self, addr: u16, data: u16) -> (r: Result<(), Fault>)
        ensures
            match old(self)@.write16(addr, data) {
                Ok(after) => r is Ok && final(self)@ == after,
                Err(fault) => r == Err::<(), Fault>(fault),
            },
    {
        self.write8(addr, (data & 0xFF) as u8)?;
        self.write8(addr.wrapping_add(1), (data >> 8) as u8)
    }

    /// The byte that a read at `addr` would return, without reading: `None`
    /// where the read would fault or would change the bus.
    pub fn peek(&self, addr: u16) -> (r: Option<u8>)
        ensures
            r == self@.peek(addr),
    {
        proof {
            reveal(BusState::read8);
            reveal(BusState::peek);
        }
        if addr <= RAM_END {
            proof {
                lemma_bus_bits(addr, 0, 0);
            }
            Some(self.cpu_ram[(addr & 0x07FF) as usize])
        } else if addr <= PPU_END {
            match &self.ppu {
                Some(ppu) => {
                    let port: u16 = addr & 0x0007;
                    if port == 2 {
                        if ppu.w_reg {
                            None
                        } else {
                            Some(ppu.status.bits())
                        }
                    } else if port == 4 {
                        Some(ppu.read_oam_data())
                    } else {
                        proof {
                            lemma_read_moves_address(ppu@);
                        }
                        None
                    }
                },
                None => None,
            }
        } else if addr < PRG_START {
            Some(0)
        } else {
            match self.read_prg_rom(addr) {
                Ok(value) => Some(value),
                Err(_) => None,
            }
        }
    }
}

/// A read of the data port moves the video address, so it is never without
/// effect.
proof fn lemma_read_moves_address(ppu: PpuState)
    ensures
        ppu.after_data_read() != ppu,
{
    lemma_address_moves(ppu.addr);
    assert(ppu.after_data_read().addr == ppu.bump().addr);
}

/// A step of 1 or 32 within fourteen bits never lands on the address it
/// left, provided that address is within fourteen bits; and an address
/// outside of them does not stay outside.
proof fn lemma_address_moves(addr: u16)
    by (bit_vector)
    ensures
        (((addr + 1) % 0x1_0000) as u16) & 0x3FFF != addr,
        (((addr + 32) % 0x1_0000) as u16) & 0x3FFF != addr,
{
}

impl Memory for Bus {
    open spec fn readable(&self, addr: u16) -> bool {
        self@.read8(addr) is Ok
    }

    open spec fn writable(&self, addr: u16) -> bool {
        self@.write8(addr, 0) is Ok
    }

    open spec fn readable_u16(&self, addr: u16) -> bool {
        self@.read16(addr) is Ok
    }

    open spec fn writable_u16(&self, addr: u16, data: u16) -> bool {
        self@.write16(addr, data) is Ok
    }

    /// Reads one byte where the address space can serve the read.
    fn mem_read_u8(&mut self, addr: u16) -> (value: u8)
        ensures
            old(self)@.read8(addr) == Ok::<(u8, BusState), Fault>((value, final(self)@)),
    {
        match self.read8(addr) {
            Ok(value) => value,
            Err(_) => unreached(),
        }
    }

    /// Writes one byte where the address space can serve the write.
    fn mem_write_u8(&mut self, addr: u16, data: u8)
        ensures
            old(self)@.write8(addr, data) == Ok::<BusState, Fault>(final(self)@),
    {
        proof {
            lemma_write_fault_ignores_data(self@, addr, data, 0);
        }
        match self.write8(addr, data) {
            Ok(()) => (),
            Err(_) => unreached(),
        }
    }

    /// Reads a little-endian word where the address space can serve both
    /// reads.
    fn mem_read_u16(&mut self, addr: u16) -> (value: u16)
        ensures
            old(self)@.read16(addr) == Ok::<(u16, BusState), Fault>((value, final(self)@)),
    {
        match self.read16(addr) {
            Ok(value) => value,
            Err(_) => unreached(),
        }
    }

    /// Writes a little-endian word where the address space can serve both
    /// writes.
    fn mem_write_u16(&mut self, addr: u16, data: u16)
        ensures
            old(self)@.write16(addr, data) == Ok::<BusState, Fault>(final(self)@),
    {
        match self.write16(addr, data) {
            Ok(()) => (),
            Err(_) => unreached(),
        }
    }
}

/// In `$0000`-`$1FFF` every access is served by RAM: a read returns the cell
/// at `addr & $7FF` and changes nothing, and a write replaces that cell.
pub proof fn lemma_ram_access(bus: BusState, addr: u16, data: u8)
    requires
        addr <= RAM_END,
    ensures
        bus.read8(addr) == Ok::<(u8, BusState), Fault>((bus.ram[(addr & 0x07FF) as int], bus)),
        bus.write8(addr, data) == Ok::<BusState, Fault>(
            BusState { ram: bus.ram.update((addr & 0x07FF) as int, data), ..bus },
        ),
{
    reveal(BusState::read8);
    reveal(BusState::write8);
}

/// Whether a write of one byte faults does not depend on the byte.
pub proof fn lemma_write_fault_ignores_data(bus: BusState, addr: u16, a: u8, b: u8)
    ensures
        bus.write8(addr, a) is Ok <==> bus.write8(addr, b) is Ok,
{
    reveal(BusState::write8);
}

impl Default for Bus {
    fn default() -> (bus: Bus)
        ensures
            bus@ == empty_bus(),
    {
        Bus::new()
    }
}

} // verus!
