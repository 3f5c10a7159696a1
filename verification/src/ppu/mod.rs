pub mod register;

use vstd::prelude::*;
use crate::fault::Fault;
use crate::mem::rom::Mirroring;
use crate::ppu::register::control_reg::increment_of;
use crate::ppu::register::control_reg::PPUCTRL;
use crate::ppu::register::oam_address::OAMADDRESS;
use crate::ppu::register::ppu_address::address_after_access;
use crate::ppu::register::ppu_address::address_after_write;
use crate::ppu::register::ppu_address::latch_byte;
use crate::ppu::register::ppu_address::PPUADDRESS;
use crate::ppu::register::scroll::PPUSCROLL;
use crate::ppu::register::PPUMASK;
use crate::ppu::register::PPUSTATUS;
use crate::utils::set_bit;

verus! {

/// Dots in a scanline.
pub const DOTS_PER_LINE: u32 = 341;

/// Scanlines in a frame.
pub const LINES_PER_FRAME: u32 = 262;

/// The scanline on which vertical blank starts.
pub const VBLANK_LINE: u32 = 241;

/// The picture processing unit, as far as the bus sees it: its memories, its
/// register file and the dot and scanline counters that drive vertical blank.
pub struct PPU {
    /// `$0000`-`$1FFF`: the character bank of the cartridge.
    pub chr_rom: Vec<u8>,
    /// `$2000`-`$2FFF`: two kilobytes, which the mirroring folds four into.
    pub vram: [u8; 2048],
    /// `$3F00`-`$3FFF`: the palette, repeating every 32 bytes.
    pub palette_table: [u8; 32],
    pub oam_data: [u8; 256],
    pub mirroring: Mirroring,
    /// The dot within the scanline, 0 to 340.
    pub cycle: u32,
    /// The scanline within the frame, 0 to 261.
    pub scanline: u32,
    pub nmi_pending: bool,
    pub ctrl: PPUCTRL,
    pub mask: PPUMASK,
    pub status: PPUSTATUS,
    pub oam_addr: OAMADDRESS,
    pub scroll: PPUSCROLL,
    pub ppu_addr: PPUADDRESS,
    pub ppu_data_buf: u8,
    pub v_reg: u16,
    pub t_reg: u16,
    pub x_reg: u8,
    /// The write toggle that the scroll and address ports share.
    pub w_reg: bool,
}

/// The mathematical state of the picture unit.
#[verifier::ext_equal]
pub struct PpuState {
    pub chr: Seq<u8>,
    pub vram: Seq<u8>,
    pub palette: Seq<u8>,
    pub oam: Seq<u8>,
    pub mirroring: Mirroring,
    pub cycle: u32,
    pub scanline: u32,
    pub nmi_pending: bool,
    pub ctrl: u8,
    pub mask: u8,
    pub status: u8,
    pub oam_addr: u8,
    pub scroll: u16,
    pub addr: u16,
    pub data_buf: u8,
    pub v: u16,
    pub t: u16,
    pub x: u8,
    pub w: bool,
}

/// Which memory the data port reaches at a video address.
pub enum Region {
    /// `$0000`-`$1FFF`, at this offset of the character bank.
    Pattern(int),
    /// `$2000`-`$2FFF`, at this offset of video RAM.
    Nametable(int),
    /// `$3F00` and up, at this entry of the palette.
    Palette(int),
    /// No memory: the access is fatal.
    Invalid(Fault),
}

/// Where a nametable address lands in the two kilobytes of video RAM.
/// Horizontal mirroring folds nametables 0 and 1 onto the first kilobyte and
/// 2 and 3 onto the second; vertical mirroring folds 0 and 2 onto the first
/// and 1 and 3 onto the second. Four-screen mirroring folds nothing.
pub open spec fn mirrored_vram_index(mirroring: Mirroring, addr: u16) -> int {
    let index = (addr & 0x2FFF) - 0x2000;
    let table = index / 0x400;
    match mirroring {
        Mirroring::Vertical => if table == 2 || table == 3 {
            index - 0x800
        } else {
            index
        },
        Mirroring::Horizontal => if table == 1 || table == 2 {
            index - 0x400
        } else if table == 3 {
            index - 0x800
        } else {
            index
        },
        Mirroring::FourScreen => index,
    }
}

impl PpuState {
    /// Whether status says that vertical blank is on.
    pub open spec fn in_vblank(self) -> bool {
        self.status & 0x80 == 0x80
    }

    /// Whether control asks for an interrupt at vertical blank.
    pub open spec fn nmi_enabled(self) -> bool {
        self.ctrl & 0x80 == 0x80
    }

    /// The memory behind the data port at the current video address.
    pub open spec fn region(self) -> Region {
        let addr = self.addr;
        if addr <= 0x1FFF {
            if addr < self.chr.len() {
                Region::Pattern(addr as int)
            } else {
                Region::Invalid(Fault::ChrOutOfRange { addr })
            }
        } else if addr <= 0x2FFF {
            let index = mirrored_vram_index(self.mirroring, addr);
            if 0 <= index < 2048 {
                Region::Nametable(index)
            } else {
                Region::Invalid(Fault::BadPpuAddress { addr })
            }
        } else if addr <= 0x3EFF {
            Region::Invalid(Fault::BadPpuAddress { addr })
        } else {
            Region::Palette((addr - 0x3F00) % 32)
        }
    }

    /// The fault that a read of the data port would raise, if any.
    pub open spec fn read_fault(self) -> Option<Fault> {
        match self.region() {
            Region::Invalid(fault) => Some(fault),
            _ => None,
        }
    }

    /// The fault that a write to the data port would raise, if any. A write
    /// into the pattern range is dropped, so its offset does not matter.
    pub open spec fn write_fault(self) -> Option<Fault> {
        if self.addr <= 0x1FFF {
            None
        } else {
            self.read_fault()
        }
    }

    /// The state with the video address moved past one access.
    pub open spec fn bump(self) -> PpuState {
        PpuState { addr: address_after_access(self.addr, increment_of(self.ctrl)), ..self }
    }

    /// The byte that a read of the data port returns: the buffer for pattern
    /// and nametable addresses, the palette entry itself for the palette.
    pub open spec fn data_read(self) -> u8 {
        match self.region() {
            Region::Palette(index) => self.palette[index],
            _ => self.data_buf,
        }
    }

    /// The state after a read of the data port: the buffer refilled from
    /// pattern or nametable memory, and the address moved on.
    pub open spec fn after_data_read(self) -> PpuState {
        match self.region() {
            Region::Pattern(index) => PpuState { data_buf: self.chr[index], ..self.bump() },
            Region::Nametable(index) => PpuState { data_buf: self.vram[index], ..self.bump() },
            _ => self.bump(),
        }
    }

    /// The state after a write of `value` to the data port.
    pub open spec fn after_data_write(self, value: u8) -> PpuState {
        match self.region() {
            Region::Nametable(index) => PpuState {
                vram: self.vram.update(index, value),
                ..self.bump()
            },
            Region::Palette(index) => PpuState {
                palette: self.palette.update(index, value),
                ..self.bump()
            },
            _ => self.bump(),
        }
    }

    /// The state after a write of `value` to control: the byte is latched,
    /// and an interrupt becomes pending when the enable bit rises while
    /// vertical blank is on.
    pub open spec fn after_ctrl_write(self, value: u8) -> PpuState {
        PpuState {
            ctrl: value,
            nmi_pending: self.nmi_pending || (!self.nmi_enabled() && value & 0x80 == 0x80
                && self.in_vblank()),
            ..self
        }
    }

    /// The state after one byte written to the address port.
    pub open spec fn after_addr_write(self, value: u8) -> PpuState {
        PpuState { addr: address_after_write(self.addr, value, self.w), w: !self.w, ..self }
    }

    /// The state after one byte written to the scroll port.
    pub open spec fn after_scroll_write(self, value: u8) -> PpuState {
        PpuState { scroll: latch_byte(self.scroll, value, self.w), w: !self.w, ..self }
    }

    /// The state after a write to the sprite data port: the byte is stored
    /// at the sprite pointer, which then moves on.
    pub open spec fn after_oam_write(self, value: u8) -> PpuState {
        PpuState {
            oam: self.oam.update(self.oam_addr as int, value),
            oam_addr: ((self.oam_addr + 1) % 256) as u8,
            ..self
        }
    }

    /// The state after a read of status: the write toggle is cleared, and
    /// the vertical-blank bit stays as it is.
    pub open spec fn after_status_read(self) -> PpuState {
        PpuState { w: false, ..self }
    }

    /// The state at the start of the next scanline. Entering line 241 turns
    /// vertical blank on and, with interrupts enabled, makes one pending;
    /// passing line 261 starts the next frame with both cleared.
    pub open spec fn next_line(self) -> PpuState {
        let line = self.scanline + 1;
        let status = if line == VBLANK_LINE {
            set_bit(self.status, 0x80, true)
        } else {
            self.status
        };
        let pending = self.nmi_pending || (line == VBLANK_LINE && self.nmi_enabled());
        if line >= LINES_PER_FRAME {
            PpuState { scanline: 0, status: set_bit(status, 0x80, false), nmi_pending: false, ..self }
        } else {
            PpuState { scanline: line as u32, status, nmi_pending: pending, ..self }
        }
    }

    /// The state `lines` scanlines later.
    pub open spec fn advance_lines(self, lines: nat) -> PpuState
        decreases lines,
    {
        if lines == 0 {
            self
        } else {
            self.advance_lines((lines - 1) as nat).next_line()
        }
    }

    /// The state `dots` dots later: the dot counter runs modulo 341, and
    /// each wrap starts a scanline.
    pub open spec fn tick(self, dots: nat) -> PpuState {
        let total = self.cycle + dots;
        PpuState {
            cycle: (total % (DOTS_PER_LINE as int)) as u32,
            ..self.advance_lines((total / (DOTS_PER_LINE as int)) as nat)
        }
    }

    /// The state after each tick of a series, in order.
    pub open spec fn tick_all(self, ticks: Seq<nat>) -> PpuState
        decreases ticks.len(),
    {
        if ticks.len() == 0 {
            self
        } else {
            self.tick_all(ticks.drop_last()).tick(ticks.last())
        }
    }

    /// Whether an interrupt is to be delivered now.
    pub open spec fn nmi_flag(self) -> bool {
        self.nmi_enabled() && self.nmi_pending
    }
}

impl View for PPU {
    type V = PpuState;

    open spec fn view(&self) -> PpuState {
        PpuState {
            chr: self.chr_rom@,
            vram: self.vram@,
            palette: self.palette_table@,
            oam: self.oam_data@,
            mirroring: self.mirroring,
            cycle: self.cycle,
            scanline: self.scanline,
            nmi_pending: self.nmi_pending,
            ctrl: self.ctrl@,
            mask: self.mask@,
            status: self.status@,
            oam_addr: self.oam_addr@,
            scroll: self.scroll@,
            addr: self.ppu_addr@,
            data_buf: self.ppu_data_buf,
            v: self.v_reg,
            t: self.t_reg,
            x: self.x_reg,
            w: self.w_reg,
        }
    }
}

/// The state of a picture unit that was just built around `chr`.
pub open spec fn power_on(chr: Seq<u8>, mirroring: Mirroring) -> PpuState {
    PpuState {
        chr,
        vram: Seq::new(2048, |i: int| 0u8),
        palette: Seq::new(32, |i: int| 0u8),
        oam: Seq::new(256, |i: int| 0u8),
        mirroring,
        cycle: 0,
        scanline: 0,
        nmi_pending: false,
        ctrl: 0,
        mask: 0,
        status: 0,
        oam_addr: 0,
        scroll: 0,
        addr: 0,
        data_buf: 0,
        v: 0,
        t: 0,
        x: 0,
        w: false,
    }
}

/// The address that the two bytes `hi`, `lo` of a double write select.
pub open spec fn double_write_address(hi: u8, lo: u8) -> u16 {
    (((hi as u16) << 8) | (lo as u16)) & 0x3FFF
}

/// The dots of a series of ticks, added up.
pub open spec fn total_dots(ticks: Seq<nat>) -> nat
    decreases ticks.len(),
{
    if ticks.len() == 0 {
        0
    } else {
        total_dots(ticks.drop_last()) + ticks.last()
    }
}

/// Masking a nametable address keeps it, and the adding of the status bit
/// and the clearing of it do what their names say.
proof fn lemma_ppu_bits(addr: u16, status: u8)
    by (bit_vector)
    ensures
        0x2000 <= addr <= 0x2FFF ==> addr & 0x2FFF == addr,
        0x2000 <= addr <= 0x3FFF ==> 0x2000 <= addr & 0x2FFF <= 0x2FFF,
        (status | 0x80) & 0x80 == 0x80,
        (status & !0x80u8) & 0x80 == 0,
{
}


/// Two bytes written to the address port with the toggle clear select the
/// address that they spell, high byte first, within fourteen bits.
proof fn lemma_double_write_bits(addr: u16, hi: u8, lo: u8)
    by (bit_vector)
    ensures
        ((((((hi as u16) << 8) | (addr & 0x00FF)) & 0x3FFF) & 0xFF00) | (lo as u16)) & 0x3FFF == (((
        hi as u16) << 8) | (lo as u16)) & 0x3FFF,
{
}

/// A double write to the address port, begun with the toggle clear, selects
/// `double_write_address(hi, lo)` and leaves the toggle clear; nothing else
/// moves.
pub proof fn lemma_double_write(s: PpuState, hi: u8, lo: u8)
    requires
        !s.w,
    ensures
        s.after_addr_write(hi).after_addr_write(lo) == (PpuState {
            addr: double_write_address(hi, lo),
            ..s
        }),
{
    lemma_double_write_bits(s.addr, hi, lo);
}

/// What is written to the palette through the data port is what the data
/// port reads back from there, without the delay of the buffer: two bytes
/// written from a palette address on are the two bytes that two reads from
/// that address on return. Where the second access falls on the entry of the
/// first (a step of 32), both reads see the second byte.
pub proof fn lemma_palette_write_then_read(s: PpuState, hi: u8, lo: u8, first: u8, second: u8)
    requires
        !s.w,
        s.palette.len() == 32,
        double_write_address(hi, lo) >= 0x3F00,
        address_after_access(double_write_address(hi, lo), increment_of(s.ctrl)) >= 0x3F00,
    ensures
        ({
            let at = s.after_addr_write(hi).after_addr_write(lo);
            let written = at.after_data_write(first).after_data_write(second);
            let back = written.after_addr_write(hi).after_addr_write(lo);
            let next = back.after_data_read();
            &&& at.write_fault() is None
            &&& at.after_data_write(first).write_fault() is None
            &&& back.read_fault() is None
            &&& next.read_fault() is None
            &&& back.data_read() == if at.region() == at.bump().region() {
                second
            } else {
                first
            }
            &&& next.data_read() == second
            &&& next.after_data_read().palette == written.palette
        }),
{
    lemma_double_write(s, hi, lo);
    let at = s.after_addr_write(hi).after_addr_write(lo);
    let written = at.after_data_write(first).after_data_write(second);
    lemma_double_write(written, hi, lo);
}

/// Replacing the dot counter and advancing scanlines can be done in either
/// order.
proof fn lemma_advance_keeps_cycle(s: PpuState, cycle: u32, lines: nat)
    ensures
        (PpuState { cycle, ..s }).advance_lines(lines) == (PpuState {
            cycle,
            ..s.advance_lines(lines)
        }),
    decreases lines,
{
    if lines > 0 {
        lemma_advance_keeps_cycle(s, cycle, (lines - 1) as nat);
    }
}

/// Advancing by `a` scanlines and then by `b` is advancing by `a + b`.
pub proof fn lemma_advance_lines_additive(s: PpuState, a: nat, b: nat)
    ensures
        s.advance_lines(a).advance_lines(b) == s.advance_lines(a + b),
    decreases b,
{
    if b > 0 {
        lemma_advance_lines_additive(s, a, (b - 1) as nat);
    }
}

/// Ticking by `a` dots and then by `b` is ticking by `a + b`: how a number
/// of dots is split into ticks does not matter.
pub proof fn lemma_tick_additive(s: PpuState, a: nat, b: nat)
    ensures
        s.tick(a).tick(b) == s.tick(a + b),
{
    let total1 = s.cycle + a;
    let lines1 = (total1 / 341) as nat;
    let cycle1 = (total1 % 341) as u32;
    let total2 = cycle1 + b;
    let lines2 = (total2 / 341) as nat;
    assert((s.cycle + a + b) / 341 == lines1 + lines2);
    assert((s.cycle + a + b) % 341 == total2 % 341);
    lemma_advance_keeps_cycle(s.advance_lines(lines1), cycle1, lines2);
    lemma_advance_lines_additive(s, lines1, lines2);
}

/// A series of ticks is one tick by the sum of its dots, on a unit whose
/// dot counter is in range.
pub proof fn lemma_tick_all_is_one_tick(s: PpuState, ticks: Seq<nat>)
    requires
        s.cycle < DOTS_PER_LINE,
    ensures
        s.tick_all(ticks) == s.tick(total_dots(ticks)),
    decreases ticks.len(),
{
    if ticks.len() == 0 {
        lemma_tick_zero(s);
    } else {
        lemma_tick_all_is_one_tick(s, ticks.drop_last());
        lemma_tick_additive(s, total_dots(ticks.drop_last()), ticks.last());
    }
}

/// The scanline counter runs modulo 262, and once a frame boundary has been
/// passed, a unit that stands before line 241 has vertical blank off and no
/// interrupt pending.
pub proof fn lemma_advance_lines_scanline(s: PpuState, lines: nat)
    requires
        s.scanline < LINES_PER_FRAME,
    ensures
        s.advance_lines(lines).scanline == (s.scanline + lines) % (LINES_PER_FRAME as int),
        s.scanline + lines >= LINES_PER_FRAME && s.advance_lines(lines).scanline < VBLANK_LINE ==> {
            &&& !s.advance_lines(lines).in_vblank()
            &&& !s.advance_lines(lines).nmi_pending
        },
    decreases lines,
{
    if lines > 0 {
        let before = s.advance_lines((lines - 1) as nat);
        lemma_advance_lines_scanline(s, (lines - 1) as nat);
        lemma_ppu_bits(0, before.status);
        lemma_ppu_bits(0, set_bit(before.status, 0x80, true));
    }
}

/// The counters stay in range: after any tick the dot counter is below 341,
/// and a scanline counter below 262 stays below 262.
pub proof fn lemma_tick_keeps_counters_in_range(s: PpuState, dots: nat)
    ensures
        s.tick(dots).cycle < DOTS_PER_LINE,
        s.scanline < LINES_PER_FRAME ==> s.tick(dots).scanline < LINES_PER_FRAME,
{
    if s.scanline < LINES_PER_FRAME {
        lemma_advance_lines_scanline(s, ((s.cycle + dots) / 341) as nat);
    }
}

/// Dots that end a frame, in any split: a unit at dot 0 of scanline 0 is
/// back at dot 0 of scanline 0 after ticks that add up to 341 x 262 dots,
/// and vertical blank is off.
pub proof fn lemma_frame_period(s: PpuState, ticks: Seq<nat>)
    requires
        s.cycle == 0,
        s.scanline == 0,
        total_dots(ticks) == DOTS_PER_LINE * LINES_PER_FRAME,
    ensures
        s.tick_all(ticks).cycle == 0,
        s.tick_all(ticks).scanline == 0,
        !s.tick_all(ticks).in_vblank(),
{
    lemma_tick_all_is_one_tick(s, ticks);
    lemma_advance_lines_scanline(s, 262);
}

/// Dots that reach vertical blank, in any split: a unit at dot 0 of
/// scanline 0 with vertical blank off stands at the start of line 241 after
/// ticks that add up to 241 x 341 dots, with vertical blank on, and with an
/// interrupt pending exactly if control asks for one or one was pending.
pub proof fn lemma_vblank_start(s: PpuState, ticks: Seq<nat>)
    requires
        s.cycle == 0,
        s.scanline == 0,
        total_dots(ticks) == VBLANK_LINE * DOTS_PER_LINE,
    ensures
        s.tick_all(ticks).cycle == 0,
        s.tick_all(ticks).scanline == VBLANK_LINE,
        s.tick_all(ticks).in_vblank(),
        s.tick_all(ticks).nmi_pending == (s.nmi_pending || s.nmi_enabled()),
        s.tick_all(ticks).ctrl == s.ctrl,
{
    lemma_tick_all_is_one_tick(s, ticks);
    lemma_advance_before_vblank(s, 240);
    lemma_ppu_bits(0, s.advance_lines(240).status);
}

/// Scanlines before line 241 change nothing but the counter.
proof fn lemma_advance_before_vblank(s: PpuState, lines: nat)
    requires
        s.scanline + lines < VBLANK_LINE,
    ensures
        s.advance_lines(lines) == (PpuState { scanline: (s.scanline + lines) as u32, ..s }),
    decreases lines,
{
    if lines > 0 {
        lemma_advance_before_vblank(s, (lines - 1) as nat);
    }
}

/// A tick by no dots changes nothing on a unit whose dot counter is in
/// range.
proof fn lemma_tick_zero(s: PpuState)
    ensures
        s.cycle < DOTS_PER_LINE ==> s.tick(0) == s,
{
}

impl PPU {
    /// A picture unit at dot 0 of scanline 0, with every memory but the
    /// character bank zeroed and every register clear.
    pub fn new(chr_rom: Vec<u8>, mirroring: Mirroring) -> (ppu: PPU)
        ensures
            ppu@ == power_on(chr_rom@, mirroring),
    {
        let ppu = PPU {
            chr_rom,
            mirroring,
            vram: [0; 2048],
            oam_data: [0; 256],
            palette_table: [0; 32],
            cycle: 0,
            scanline: 0,
            nmi_pending: false,
            ctrl: PPUCTRL::new(),
            mask: PPUMASK::from_bits_truncate(0),
            status: PPUSTATUS::from_bits_truncate(0),
            oam_addr: OAMADDRESS::new(),
            scroll: PPUSCROLL::new(),
            ppu_addr: PPUADDRESS::new(),
            ppu_data_buf: 0,
            v_reg: 0,
            t_reg: 0,
            x_reg: 0,
            w_reg: false,
        };
        assert(ppu@.vram =~= Seq::new(2048, |i: int| 0u8));
        assert(ppu@.palette =~= Seq::new(32, |i: int| 0u8));
        assert(ppu@.oam =~= Seq::new(256, |i: int| 0u8));
        ppu
    }

    /// Moves the video address past one access of the data port.
    pub fn increment_vram_addr(&mut self)
        ensures
            final(self)@ == old(self)@.bump(),
    {
        self.ppu_addr.increment(self.ctrl.vram_addr_increment());
    }

    /// Advances the unit by `count` dots.
    pub fn tick(&mut self, count: u32)
        ensures
            final(self)@ == old(self)@.tick(count as nat),
    {
        let mut cycle: u64 = self.cycle as u64 + count as u64;
        let ghost total: int = cycle as int;
        let ghost mut lines: nat = 0;
        while cycle >= 341
            invariant
                cycle + 341 * lines == total,
                self@ == (PpuState { cycle: self.cycle, ..old(self)@.advance_lines(lines) }),
                self.cycle == old(self).cycle,
            decreases cycle,
        {
            cycle -= 341;
            let ghost before = self@;
            let line: u64 = self.scanline as u64 + 1;
            if line == 241 {
                self.status.set(PPUSTATUS::VBLANK, true);
                if self.ctrl.contains(PPUCTRL::GENERATE_NMI) {
                    self.nmi_pending = true;
                }
            }
            if line >= 262 {
                self.scanline = 0;
                self.status.set(PPUSTATUS::VBLANK, false);
                self.clear_nmi_flag();
            } else {
                self.scanline = line as u32;
            }
            proof {
                lines = lines + 1;
                assert(self@ == (PpuState { cycle: self.cycle, ..before.next_line() }));
            }
        }
        self.cycle = cycle as u32;
    }

    /// A byte written to the address port, `$2006`.
    pub fn write_to_ppu_addr(&mut self, value: u8)
        ensures
            final(self)@ == old(self)@.after_addr_write(value),
    {
        self.ppu_addr.update(value, &mut self.w_reg);
    }

    /// A byte written to control, `$2000`.
    pub fn write_to_ctrl(&mut self, value: u8)
        ensures
            final(self)@ == old(self)@.after_ctrl_write(value),
    {
        let rising: bool = !self.ctrl.contains(PPUCTRL::GENERATE_NMI) && PPUCTRL::from_bits_truncate(
            value,
        ).contains(PPUCTRL::GENERATE_NMI);
        self.ctrl.update(value);
        if rising && self.status.contains(PPUSTATUS::VBLANK) {
            self.nmi_pending = true;
        }
    }

    /// A byte written to mask, `$2001`.
    pub fn write_to_mask(&mut self, value: u8)
        ensures
            final(self)@ == (PpuState { mask: value, ..old(self)@ }),
    {
        self.mask.update(value);
    }

    /// A byte written to the sprite pointer, `$2003`.
    pub fn write_to_oam_addr(&mut self, value: u8)
        ensures
            final(self)@ == (PpuState { oam_addr: value, ..old(self)@ }),
    {
        self.oam_addr.update(value);
    }

    /// The fault that an access of the data port would raise now: a read
    /// when `write` is false, a write when it is true.
    pub fn data_port_fault(&self, write: bool) -> (r: Option<Fault>)
        ensures
            r == if write {
                self@.write_fault()
            } else {
                self@.read_fault()
            },
    {
        let addr: u16 = self.ppu_addr.get();
        if addr <= 0x1FFF {
            if write || (addr as usize) < self.chr_rom.len() {
                None
            } else {
                Some(Fault::ChrOutOfRange { addr })
            }
        } else if addr <= 0x2FFF {
            let index: u16 = self.mirror_vram_addr(addr);
            if index < 2048 {
                None
            } else {
                Some(Fault::BadPpuAddress { addr })
            }
        } else if addr <= 0x3EFF {
            Some(Fault::BadPpuAddress { addr })
        } else {
            None
        }
    }

    /// A byte written to the data port, `$2007`: dropped in the pattern
    /// range, stored in video RAM or in the palette otherwise; the video
    /// address then moves on.
    pub fn write_to_data(&mut self, value: u8)
        requires
            old(self)@.write_fault() is None,
        ensures
            final(self)@ == old(self)@.after_data_write(value),
    {
        let addr: u16 = self.ppu_addr.get();
        self.increment_vram_addr();
        if addr <= 0x1FFF {
        } else if addr <= 0x2FFF {
            let index: u16 = self.mirror_vram_addr(addr);
            self.vram[index as usize] = value;
        } else {
            let index: u16 = (addr - 0x3F00) % 32;
            self.palette_table[index as usize] = value;
        }
    }

    /// A byte written to the sprite data port, `$2004`.
    pub fn write_to_oam_data(&mut self, value: u8)
        ensures
            final(self)@ == old(self)@.after_oam_write(value),
    {
        let addr: u8 = self.oam_addr.get();
        self.oam_addr.increment();
        self.oam_data[addr as usize] = value;
    }

    /// A byte written to the scroll port, `$2005`.
    pub fn write_to_scroll(&mut self, value: u8)
        ensures
            final(self)@ == old(self)@.after_scroll_write(value),
    {
        self.scroll.update(value, &mut self.w_reg);
    }

    /// A read of status, `$2002`.
    pub fn read_status(&mut self) -> (r: u8)
        ensures
            r == old(self)@.status,
            final(self)@ == old(self)@.after_status_read(),
    {
        self.w_reg = false;
        self.status.bits()
    }

    /// A read of the data port, `$2007`.
    pub fn read_data(&mut self) -> (r: u8)
        requires
            old(self)@.read_fault() is None,
        ensures
            r == old(self)@.data_read(),
            final(self)@ == old(self)@.after_data_read(),
    {
        let addr: u16 = self.ppu_addr.get();
        self.increment_vram_addr();
        if addr <= 0x1FFF {
            let result: u8 = self.ppu_data_buf;
            self.ppu_data_buf = self.chr_rom[addr as usize];
            result
        } else if addr <= 0x2FFF {
            let result: u8 = self.ppu_data_buf;
            let index: u16 = self.mirror_vram_addr(addr);
            self.ppu_data_buf = self.vram[index as usize];
            result
        } else {
            let index: u16 = (addr - 0x3F00) % 32;
            self.palette_table[index as usize]
        }
    }

    /// A read of the sprite data port, `$2004`; the sprite pointer stays.
    pub fn read_oam_data(&self) -> (r: u8)
        ensures
            r == self@.oam[self@.oam_addr as int],
    {
        let addr: u8 = self.oam_addr.get();
        self.oam_data[addr as usize]
    }

    /// Whether an interrupt is to be delivered now: one is pending and
    /// control still asks for it.
    pub fn get_nmi_flag(&self) -> (r: bool)
        ensures
            r == self@.nmi_flag(),
    {
        self.ctrl.contains(PPUCTRL::GENERATE_NMI) && self.nmi_pending
    }

    /// Withdraws the pending interrupt.
    pub fn clear_nmi_flag(&mut self)
        ensures
            final(self)@ == (PpuState { nmi_pending: false, ..old(self)@ }),
    {
        self.nmi_pending = false;
    }

    /// Where the nametable address `addr` lands in video RAM; an address in
    /// `$3000`-`$3FFF` counts as the one `$1000` below it.
    pub fn mirror_vram_addr(&self, addr: u16) -> (r: u16)
        requires
            0x2000 <= addr <= 0x3FFF,
        ensures
            r == mirrored_vram_index(self.mirroring, addr),
    {
        proof {
            lemma_ppu_bits(addr, 0);
        }
        let vram_index: u16 = (addr & 0x2FFF) - 0x2000;
        let name_table: u16 = vram_index / 0x400;
        match self.mirroring {
            Mirroring::Vertical => if name_table == 2 || name_table == 3 {
                vram_index - 0x800
            } else {
                vram_index
            },
            Mirroring::Horizontal => if name_table == 1 || name_table == 2 {
                vram_index - 0x400
            } else if name_table == 3 {
                vram_index - 0x800
            } else {
                vram_index
            },
            Mirroring::FourScreen => vram_index,
        }
    }
}

} // verus!
