use vstd::prelude::*;

verus! {

/// Length of the iNES header.
pub const HEADER_LEN: usize = 16;

/// Length of the optional trainer block.
pub const TRAINER_LEN: usize = 512;

/// One PRG-ROM page: 16 KiB.
pub const PRG_PAGE_LEN: usize = 16384;

/// One CHR-ROM page: 8 KiB.
pub const CHR_PAGE_LEN: usize = 8192;

#[derive(Clone, Copy, Debug, PartialEq, Eq, Structural)]
pub enum Mirroring {
    Horizontal,
    Vertical,
    FourScreen,
}

#[derive(Clone, Copy, Debug, PartialEq, Eq, Structural)]
pub struct RomHeader {
    pub mapper_id: u8,
    pub prg_rom_pages: u8,
    pub chr_rom_pages: u8,
    pub mirroring: Mirroring,
    pub battery: bool,
    pub trainer: bool,
}

#[derive(Clone, Debug)]
pub struct Rom {
    pub header: RomHeader,
    pub prg_rom: Vec<u8>,
    pub chr_rom: Vec<u8>,
}

/// Why a byte sequence is not an iNES image.
#[derive(Clone, Copy, Debug, PartialEq, Eq, Structural)]
pub enum RomError {
    /// Shorter than its header, or than the sizes in the header ask for.
    Truncated,
    /// The first four bytes are not `NES\x1A`.
    InvalidMagic,
    /// The header declares no PRG-ROM page.
    NoPrgRom,
}

pub open spec fn has_magic(b: Seq<u8>) -> bool {
    b[0] == 0x4e && b[1] == 0x45 && b[2] == 0x53 && b[3] == 0x1a
}

pub open spec fn has_trainer(b: Seq<u8>) -> bool {
    b[6] & 0x04 != 0
}

/// Where the PRG-ROM starts: after the header and the trainer, if any.
pub open spec fn prg_start(b: Seq<u8>) -> int {
    HEADER_LEN + if has_trainer(b) { TRAINER_LEN as int } else { 0 }
}

pub open spec fn prg_len(b: Seq<u8>) -> int {
    b[4] * PRG_PAGE_LEN
}

pub open spec fn chr_len(b: Seq<u8>) -> int {
    b[5] * CHR_PAGE_LEN
}

/// One past the last byte that the header accounts for.
pub open spec fn image_end(b: Seq<u8>) -> int {
    prg_start(b) + prg_len(b) + chr_len(b)
}

/// The error that parsing `b` ends in, if any, checked in this order.
pub open spec fn rom_error(b: Seq<u8>) -> Option<RomError> {
    if b.len() < HEADER_LEN {
        Some(RomError::Truncated)
    } else if !has_magic(b) {
        Some(RomError::InvalidMagic)
    } else if b[4] == 0 {
        Some(RomError::NoPrgRom)
    } else if b.len() < image_end(b) {
        Some(RomError::Truncated)
    } else {
        None
    }
}

pub open spec fn prg_segment(b: Seq<u8>) -> Seq<u8> {
    b.subrange(prg_start(b), prg_start(b) + prg_len(b))
}

pub open spec fn chr_segment(b: Seq<u8>) -> Seq<u8> {
    b.subrange(prg_start(b) + prg_len(b), image_end(b))
}

pub open spec fn mirroring_of(flags6: u8) -> Mirroring {
    if flags6 & 0x08 != 0 {
        Mirroring::FourScreen
    } else if flags6 & 0x01 != 0 {
        Mirroring::Vertical
    } else {
        Mirroring::Horizontal
    }
}

/// The header that bytes 4 to 7 describe.
pub open spec fn header_of(b: Seq<u8>) -> RomHeader {
    RomHeader {
        mapper_id: (b[6] >> 4u8) | (b[7] & 0xf0),
        prg_rom_pages: b[4],
        chr_rom_pages: b[5],
        mirroring: mirroring_of(b[6]),
        battery: b[6] & 0x02 != 0,
        trainer: b[6] & 0x04 != 0,
    }
}

/// Copies `b[start..end]` into a new vector.
fn copy_range(b: &[u8], start: usize, end: usize) -> (r: Vec<u8>)
    requires
        start <= end <= b@.len(),
    ensures
        r@ == b@.subrange(start as int, end as int),
{
    let mut r: Vec<u8> = Vec::with_capacity(end - start);
    let mut i: usize = start;
    while i < end
        invariant
            start <= i <= end <= b@.len(),
            r@ == b@.subrange(start as int, i as int),
        decreases end - i,
    {
        r.push(b[i]);
        i = i + 1;
        assert(r@ =~= b@.subrange(start as int, i as int));
    }
    r
}

impl Rom {
    /// Parses an iNES image.
    pub fn from_bytes(bytes: &[u8]) -> (r: Result<Rom, RomError>)
        ensures
            rom_error(bytes@) matches Some(e) ==> r == Err::<Rom, RomError>(e),
            rom_error(bytes@) is None ==> (r matches Ok(rom) && rom.header == header_of(bytes@)
                && rom.prg_rom@ == prg_segment(bytes@) && rom.chr_rom@ == chr_segment(bytes@)),
    {
        if bytes.len() < HEADER_LEN {
            return Err(RomError::Truncated);
        }
        if !(bytes[0] == 0x4e && bytes[1] == 0x45 && bytes[2] == 0x53 && bytes[3] == 0x1a) {
            return Err(RomError::InvalidMagic);
        }
        let prg_pages = bytes[4];
        let chr_pages = bytes[5];
        let flags6 = bytes[6];
        let flags7 = bytes[7];
        if prg_pages == 0 {
            return Err(RomError::NoPrgRom);
        }
        let trainer = flags6 & 0x04 != 0;
        let prg_start: usize = if trainer { HEADER_LEN + TRAINER_LEN } else { HEADER_LEN };
        let prg_end: usize = prg_start + prg_pages as usize * PRG_PAGE_LEN;
        let chr_end: usize = prg_end + chr_pages as usize * CHR_PAGE_LEN;
        if bytes.len() < chr_end {
            return Err(RomError::Truncated);
        }
        let mirroring = if flags6 & 0x08 != 0 {
            Mirroring::FourScreen
        } else if flags6 & 0x01 != 0 {
            Mirroring::Vertical
        } else {
            Mirroring::Horizontal
        };
        let header = RomHeader {
            mapper_id: (flags6 >> 4u8) | (flags7 & 0xf0),
            prg_rom_pages: prg_pages,
            chr_rom_pages: chr_pages,
            mirroring,
            battery: flags6 & 0x02 != 0,
            trainer,
        };
        let prg_rom = copy_range(bytes, prg_start, prg_end);
        let chr_rom = copy_range(bytes, prg_end, chr_end);
        Ok(Rom { header, prg_rom, chr_rom })
    }

    /// The PRG-ROM followed by the CHR-ROM, as they stand in the image.
    pub fn prg_chr_bytes(&self) -> (r: Vec<u8>)
        ensures
            r@ == self.prg_rom@ + self.chr_rom@,
    {
        let mut r: Vec<u8> = Vec::new();
        let mut i: usize = 0;
        while i < self.prg_rom.len()
            invariant
                i <= self.prg_rom@.len(),
                r@ == self.prg_rom@.subrange(0, i as int),
            decreases self.prg_rom@.len() - i,
        {
            r.push(self.prg_rom[i]);
            i = i + 1;
            assert(r@ =~= self.prg_rom@.subrange(0, i as int));
        }
        let mut j: usize = 0;
        while j < self.chr_rom.len()
            invariant
                j <= self.chr_rom@.len(),
                r@ == self.prg_rom@ + self.chr_rom@.subrange(0, j as int),
            decreases self.chr_rom@.len() - j,
        {
            r.push(self.chr_rom[j]);
            j = j + 1;
            assert(r@ =~= self.prg_rom@ + self.chr_rom@.subrange(0, j as int));
        }
        assert(self.chr_rom@.subrange(0, j as int) =~= self.chr_rom@);
        r
    }
}

/// Parsing an image and writing its PRG-ROM and CHR-ROM back out gives the
/// bytes of the image that follow the header and trainer, unchanged.
pub proof fn lemma_prg_chr_round_trip(b: Seq<u8>)
    requires
        rom_error(b) is None,
    ensures
        prg_segment(b) + chr_segment(b) == b.subrange(prg_start(b), image_end(b)),
{
    assert(prg_segment(b) + chr_segment(b) =~= b.subrange(prg_start(b), image_end(b)));
}

} // verus!
