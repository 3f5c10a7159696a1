use vstd::prelude::*;
use vstd::slice::slice_subrange;
use vstd::slice::slice_to_vec;

verus! {

/// How the four logical nametables fold into the two kilobytes of video RAM.
#[derive(Debug, PartialEq, Eq, Structural, Clone, Copy)]
pub enum Mirroring {
    Vertical,
    Horizontal,
    FourScreen,
}

pub const PRG_ROM_PAGE_SIZE: usize = 16384;

pub const CHR_ROM_PAGE_SIZE: usize = 8192;

pub const HEADER_SIZE: usize = 16;

pub const TRAINER_SIZE: usize = 512;

/// A parsed iNES 1.0 cartridge image.
#[derive(Debug, Clone)]
pub struct Rom {
    pub prg_rom: Vec<u8>,
    pub chr_rom: Vec<u8>,
    pub mapper: u8,
    pub screen_mirroring: Mirroring,
}

/// The mathematical content of a cartridge image.
#[verifier::ext_equal]
pub struct RomView {
    pub prg: Seq<u8>,
    pub chr: Seq<u8>,
    pub mapper: u8,
    pub mirroring: Mirroring,
}

/// Why a byte string is not an accepted cartridge image.
pub enum RomError {
    /// The first four bytes are not `N`, `E`, `S`, `0x1A`.
    BadTag,
    /// Flags byte 7 has one of its two low bits set.
    UnsupportedVersion,
    /// The input ends before the header, or before the banks it declares.
    Truncated,
}

impl RomError {
    /// The text handed to the caller for this error.
    pub open spec fn message(self) -> Seq<char> {
        match self {
            RomError::BadTag => "File is not in iNES file format"@,
            RomError::UnsupportedVersion => "Only iNES 1.0 file format is supported"@,
            RomError::Truncated => "File is shorter than its header declares"@,
        }
    }
}

/// The four tag bytes open the input.
pub open spec fn has_tag(raw: Seq<u8>) -> bool {
    &&& raw.len() >= 4
    &&& raw[0] == 0x4E
    &&& raw[1] == 0x45
    &&& raw[2] == 0x53
    &&& raw[3] == 0x1A
}

/// The mirroring that flags byte 6 selects: four-screen wins over the
/// vertical bit.
pub open spec fn mirroring_of(flags1: u8) -> Mirroring {
    if flags1 & 0b0000_1000 != 0 {
        Mirroring::FourScreen
    } else if flags1 & 0b0000_0001 != 0 {
        Mirroring::Vertical
    } else {
        Mirroring::Horizontal
    }
}

/// The mapper number: high nibble from flags byte 7, low nibble from the high
/// nibble of flags byte 6.
pub open spec fn mapper_of(flags1: u8, flags2: u8) -> u8 {
    (flags2 & 0b1111_0000) | (flags1 >> 4)
}

/// Where the program bank starts: after the header and, when bit 2 of flags
/// byte 6 is set, after the trainer.
pub open spec fn prg_start(flags1: u8) -> int {
    if flags1 & 0b0000_0100 != 0 {
        HEADER_SIZE + TRAINER_SIZE
    } else {
        HEADER_SIZE as int
    }
}

/// What parsing an iNES 1.0 image yields, for every byte string.
pub open spec fn parse_ines(raw: Seq<u8>) -> Result<RomView, RomError> {
    if !has_tag(raw) {
        Err(RomError::BadTag)
    } else if raw.len() < HEADER_SIZE {
        Err(RomError::Truncated)
    } else if raw[7] & 0b0000_0011 != 0 {
        Err(RomError::UnsupportedVersion)
    } else {
        let prg_at = prg_start(raw[6]);
        let chr_at = prg_at + raw[4] * PRG_ROM_PAGE_SIZE;
        let end = chr_at + raw[5] * CHR_ROM_PAGE_SIZE;
        if raw.len() < end {
            Err(RomError::Truncated)
        } else {
            Ok(
                RomView {
                    prg: raw.subrange(prg_at, chr_at),
                    chr: raw.subrange(chr_at, end),
                    mapper: mapper_of(raw[6], raw[7]),
                    mirroring: mirroring_of(raw[6]),
                },
            )
        }
    }
}

/// The image that `create_rom_data` lays out: header, optional trainer of
/// `0x99`, program bank of `0xAA`, character bank of `0xBB`.
pub open spec fn rom_data(
    prg_rom_pages: u8,
    chr_rom_pages: u8,
    control_byte_1: u8,
    control_byte_2: u8,
    with_trainer: bool,
) -> Seq<u8> {
    ines_header(prg_rom_pages, chr_rom_pages, control_byte_1, control_byte_2) + Seq::new(
        if with_trainer {
            TRAINER_SIZE as nat
        } else {
            0
        },
        |i: int| 0x99u8,
    ) + Seq::new((prg_rom_pages * PRG_ROM_PAGE_SIZE) as nat, |i: int| 0xAAu8) + Seq::new(
        (chr_rom_pages * CHR_ROM_PAGE_SIZE) as nat,
        |i: int| 0xBBu8,
    )
}

/// The sixteen header bytes for the given counts and flags.
pub open spec fn ines_header(
    prg_rom_pages: u8,
    chr_rom_pages: u8,
    control_byte_1: u8,
    control_byte_2: u8,
) -> Seq<u8> {
    seq![0x4Eu8, 0x45u8, 0x53u8, 0x1Au8, prg_rom_pages, chr_rom_pages, control_byte_1,
        control_byte_2, 0u8, 0u8, 0u8, 0u8, 0u8, 0u8, 0u8, 0u8]
}

/// The cartridge of two empty program pages whose reset vector holds `pc`.
pub open spec fn blank_rom(pc: u16) -> RomView {
    RomView {
        prg: Seq::new(32768, |i: int| 0u8).update(0x7FFC, (pc & 0xFF) as u8).update(
            0x7FFD,
            (pc >> 8) as u8,
        ),
        chr: Seq::<u8>::empty(),
        mapper: 0,
        mirroring: Mirroring::Horizontal,
    }
}

impl View for Rom {
    type V = RomView;

    open spec fn view(&self) -> RomView {
        RomView {
            prg: self.prg_rom@,
            chr: self.chr_rom@,
            mapper: self.mapper,
            mirroring: self.screen_mirroring,
        }
    }
}

impl Rom {
    /// Parses an iNES 1.0 image. The result is `Ok` exactly on the inputs
    /// that `parse_ines` accepts, and each rejection carries its own text.
    pub fn new(raw: &[u8]) -> (r: Result<Rom, String>)
        ensures
            match parse_ines(raw@) {
                Ok(image) => r is Ok && r->Ok_0@ == image,
                Err(e) => r is Err && r->Err_0@ == e.message(),
            },
    {
        if raw.len() < 4 || raw[0] != 0x4E || raw[1] != 0x45 || raw[2] != 0x53 || raw[3] != 0x1A {
            return Err(String::from_str("File is not in iNES file format"));
        }
        if raw.len() < HEADER_SIZE {
            return Err(String::from_str("File is shorter than its header declares"));
        }
        let flags1: u8 = raw[6];
        let flags2: u8 = raw[7];
        if flags2 & 0b0000_0011 != 0 {
            return Err(String::from_str("Only iNES 1.0 file format is supported"));
        }
        let screen_mirroring = if flags1 & 0b0000_1000 != 0 {
            Mirroring::FourScreen
        } else if flags1 & 0b0000_0001 != 0 {
            Mirroring::Vertical
        } else {
            Mirroring::Horizontal
        };
        let mapper: u8 = (flags2 & 0b1111_0000) | (flags1 >> 4);
        let prg_rom_size: usize = raw[4] as usize * PRG_ROM_PAGE_SIZE;
        let chr_rom_size: usize = raw[5] as usize * CHR_ROM_PAGE_SIZE;
        let prg_rom_start: usize = if flags1 & 0b0000_0100 != 0 {
            HEADER_SIZE + TRAINER_SIZE
        } else {
            HEADER_SIZE
        };
        let chr_rom_start: usize = prg_rom_start + prg_rom_size;
        let end: usize = chr_rom_start + chr_rom_size;
        if raw.len() < end {
            return Err(String::from_str("File is shorter than its header declares"));
        }
        Ok(
            Rom {
                prg_rom: slice_to_vec(slice_subrange(raw, prg_rom_start, chr_rom_start)),
                chr_rom: slice_to_vec(slice_subrange(raw, chr_rom_start, end)),
                mapper,
                screen_mirroring,
            },
        )
    }

    /// A cartridge of two empty program pages whose reset vector, at
    /// `$FFFC`, holds `pc` in little-endian order.
    pub fn from_pc(pc: u16) -> (rom: Rom)
        ensures
            rom@ == blank_rom(pc),
    {
        let mut prg_rom: Vec<u8> = vec![0u8; 32768];
        prg_rom.set(0x7FFC, (pc & 0xFF) as u8);
        prg_rom.set(0x7FFD, (pc >> 8) as u8);
        let rom = Rom {
            prg_rom,
            chr_rom: Vec::new(),
            mapper: 0,
            screen_mirroring: Mirroring::Horizontal,
        };
        assert(rom@.prg =~= blank_rom(pc).prg);
        assert(rom@.chr =~= blank_rom(pc).chr);
        rom
    }

    /// A cartridge around the given program bytes, with one zeroed character
    /// page, mapper 0 and horizontal mirroring.
    pub fn from_prg(prg_rom: &[u8]) -> (rom: Rom)
        ensures
            rom@.prg == prg_rom@,
            rom@.chr == Seq::new(CHR_ROM_PAGE_SIZE as nat, |i: int| 0u8),
            rom@.mapper == 0,
            rom@.mirroring == Mirroring::Horizontal,
    {
        let chr_rom: Vec<u8> = vec![0u8; 8192];
        assert(chr_rom@ =~= Seq::new(CHR_ROM_PAGE_SIZE as nat, |i: int| 0u8));
        Rom {
            prg_rom: slice_to_vec(prg_rom),
            chr_rom,
            mapper: 0,
            screen_mirroring: Mirroring::Horizontal,
        }
    }

    /// The sixteen bytes of an iNES header with the given page counts and
    /// flag bytes; bytes 8 to 15 are zero.
    pub fn create_ines_header(
        prg_rom_pages: u8,
        chr_rom_pages: u8,
        control_byte_1: u8,
        control_byte_2: u8,
    ) -> (header: Vec<u8>)
        ensures
            header@ == ines_header(prg_rom_pages, chr_rom_pages, control_byte_1, control_byte_2),
    {
        let mut header: Vec<u8> = Vec::new();
        header.push(0x4E);
        header.push(0x45);
        header.push(0x53);
        header.push(0x1A);
        header.push(prg_rom_pages);
        header.push(chr_rom_pages);
        header.push(control_byte_1);
        header.push(control_byte_2);
        let mut i: usize = 0;
        while i < 8
            invariant
                i <= 8,
                header@.len() == 8 + i,
                header@.subrange(0, 8) == ines_header(
                    prg_rom_pages,
                    chr_rom_pages,
                    control_byte_1,
                    control_byte_2,
                ).subrange(0, 8),
                forall|k: int| 8 <= k < 8 + i ==> header@[k] == 0u8,
            decreases 8 - i,
        {
            header.push(0);
            i += 1;
            assert(header@.subrange(0, 8) =~= ines_header(
                prg_rom_pages,
                chr_rom_pages,
                control_byte_1,
                control_byte_2,
            ).subrange(0, 8));
        }
        assert(header@ =~= ines_header(prg_rom_pages, chr_rom_pages, control_byte_1, control_byte_2))
            by {
            let h = ines_header(prg_rom_pages, chr_rom_pages, control_byte_1, control_byte_2);
            assert forall|k: int| 0 <= k < 16 implies header@[k] == h[k] by {
                if k < 8 {
                    assert(header@.subrange(0, 8)[k] == h.subrange(0, 8)[k]);
                }
            }
        }
        header
    }

    /// A whole image for the given header fields: the header, then 512 bytes
    /// of `0x99` when `with_trainer` holds, then the program pages filled
    /// with `0xAA` and the character pages filled with `0xBB`.
    pub fn create_rom_data(
        prg_rom_pages: u8,
        chr_rom_pages: u8,
        control_byte_1: u8,
        control_byte_2: u8,
        with_trainer: bool,
    ) -> (data: Vec<u8>)
        ensures
            data@ == rom_data(
                prg_rom_pages,
                chr_rom_pages,
                control_byte_1,
                control_byte_2,
                with_trainer,
            ),
    {
        let mut data: Vec<u8> = Self::create_ines_header(
            prg_rom_pages,
            chr_rom_pages,
            control_byte_1,
            control_byte_2,
        );
        if with_trainer {
            append_fill(&mut data, 0x99, TRAINER_SIZE);
        }
        append_fill(&mut data, 0xAA, prg_rom_pages as usize * PRG_ROM_PAGE_SIZE);
        append_fill(&mut data, 0xBB, chr_rom_pages as usize * CHR_ROM_PAGE_SIZE);
        assert(data@ =~= rom_data(
            prg_rom_pages,
            chr_rom_pages,
            control_byte_1,
            control_byte_2,
            with_trainer,
        ));
        data
    }
}

/// Appends `count` copies of `byte` to `data`.
fn append_fill(data: &mut Vec<u8>, byte: u8, count: usize)
    ensures
        final(data)@ == old(data)@ + Seq::new(count as nat, |i: int| byte),
{
    let mut i: usize = 0;
    while i < count
        invariant
            i <= count,
            data@ == old(data)@ + Seq::new(i as nat, |k: int| byte),
        decreases count - i,
    {
        data.push(byte);
        i += 1;
        assert(data@ =~= old(data)@ + Seq::new(i as nat, |k: int| byte));
    }
}

} // verus!
