use vstd::prelude::*;
use crate::error::NesError;
use crate::rom::{Mirroring, Rom, RomError, CHR_PAGE_LEN};

verus! {

/// Size of the PRG-RAM at $6000-$7FFF.
pub const PRG_RAM_LEN: usize = 8192;

/// The NROM cartridge (mapper 0): PRG-ROM at $8000-$FFFF, mirrored when it is
/// one page; PRG-RAM at $6000-$7FFF; CHR-ROM or CHR-RAM at PPU $0000-$1FFF.
#[derive(Clone, Debug)]
pub struct Mapper {
    pub prg_rom: Vec<u8>,
    pub prg_ram: Vec<u8>,
    pub chr: Vec<u8>,
    pub chr_is_ram: bool,
    pub mirroring: Mirroring,
}

/// What a CPU read of `addr` returns from a cartridge with these contents.
pub open spec fn cart_cpu_read(prg_rom: Seq<u8>, prg_ram: Seq<u8>, addr: u16) -> u8 {
    if 0x6000 <= addr < 0x8000 {
        prg_ram[addr as int - 0x6000]
    } else if addr >= 0x8000 {
        prg_rom[(addr - 0x8000) as int % (prg_rom.len() as int)]
    } else {
        0
    }
}

/// The PRG-RAM after a CPU write: only $6000-$7FFF is writable.
pub open spec fn cart_cpu_write(prg_ram: Seq<u8>, addr: u16, value: u8) -> Seq<u8> {
    if 0x6000 <= addr < 0x8000 {
        prg_ram.update(addr as int - 0x6000, value)
    } else {
        prg_ram
    }
}

/// Index into the 4 KiB of nametable storage that PPU address `addr`
/// ($2000-$3EFF) reaches under the given mirroring.
pub open spec fn nametable_index(mirroring: Mirroring, addr: u16) -> int {
    let rel = (addr as int - 0x2000) % 0x1000;
    let table = rel / 0x400;
    let offset = rel % 0x400;
    let physical = match mirroring {
        Mirroring::Horizontal => table / 2,
        Mirroring::Vertical => table % 2,
        Mirroring::FourScreen => table,
    };
    physical * 0x400 + offset
}

/// `m` is the NROM cartridge for `rom`: its PRG-ROM and mirroring, its
/// CHR-ROM or, when it has none, 8 KiB of zeroed CHR-RAM, and zeroed PRG-RAM.
pub open spec fn built_from(m: Mapper, rom: Rom) -> bool {
    &&& m.wf()
    &&& m.prg_rom@ == rom.prg_rom@
    &&& m.mirroring == rom.header.mirroring
    &&& m.chr_is_ram == (rom.chr_rom@.len() == 0)
    &&& rom.chr_rom@.len() != 0 ==> m.chr@ == rom.chr_rom@
    &&& rom.chr_rom@.len() == 0 ==> m.chr@ == Seq::new(CHR_PAGE_LEN as nat, |i: int| 0u8)
    &&& m.prg_ram@ == Seq::new(PRG_RAM_LEN as nat, |i: int| 0u8)
}

impl Mapper {
    pub open spec fn wf(&self) -> bool {
        &&& 0 < self.prg_rom@.len()
        &&& self.prg_ram@.len() == PRG_RAM_LEN
        &&& 0 < self.chr@.len()
    }

    /// Builds the mapper that the ROM's header names.
    pub fn from_rom(rom: Rom) -> (r: Result<Mapper, NesError>)
        ensures
            rom.prg_rom@.len() == 0 ==> r == Err::<Mapper, NesError>(NesError::RomFormat(RomError::NoPrgRom)),
            rom.prg_rom@.len() != 0 && rom.header.mapper_id != 0 ==> r == Err::<Mapper, NesError>(
                NesError::UnsupportedMapper { mapper_id: rom.header.mapper_id },
            ),
            rom.prg_rom@.len() != 0 && rom.header.mapper_id == 0 ==> (r matches Ok(m) && built_from(m, rom)),
    {
        if rom.prg_rom.len() == 0 {
            return Err(NesError::RomFormat(RomError::NoPrgRom));
        }
        if rom.header.mapper_id != 0 {
            return Err(NesError::UnsupportedMapper { mapper_id: rom.header.mapper_id });
        }
        let chr_is_ram = rom.chr_rom.len() == 0;
        let chr = if chr_is_ram { vec![0u8; CHR_PAGE_LEN] } else { rom.chr_rom };
        let prg_ram = vec![0u8; PRG_RAM_LEN];
        proof {
            if chr_is_ram {
                assert(chr@ =~= Seq::new(CHR_PAGE_LEN as nat, |i: int| 0u8));
            }
            assert(prg_ram@ =~= Seq::new(PRG_RAM_LEN as nat, |i: int| 0u8));
        }
        Ok(Mapper { prg_rom: rom.prg_rom, prg_ram, chr, chr_is_ram, mirroring: rom.header.mirroring })
    }

    /// A CPU read in $4020-$FFFF; $4020-$5FFF is open bus and reads 0.
    pub fn read_u8(&self, addr: u16) -> (r: u8)
        requires
            self.wf(),
        ensures
            r == cart_cpu_read(self.prg_rom@, self.prg_ram@, addr),
    {
        if 0x6000 <= addr && addr < 0x8000 {
            self.prg_ram[(addr - 0x6000) as usize]
        } else if addr >= 0x8000 {
            self.prg_rom[(addr - 0x8000) as usize % self.prg_rom.len()]
        } else {
            0
        }
    }

    /// A CPU write in $4020-$FFFF; writes outside the PRG-RAM are ignored.
    pub fn write_u8(&mut self, addr: u16, value: u8)
        requires
            old(self).wf(),
        ensures
            final(self).wf(),
            final(self).prg_ram@ == cart_cpu_write(old(self).prg_ram@, addr, value),
            final(self).prg_rom == old(self).prg_rom,
            final(self).chr == old(self).chr,
            final(self).chr_is_ram == old(self).chr_is_ram,
            final(self).mirroring == old(self).mirroring,
    {
        if 0x6000 <= addr && addr < 0x8000 {
            self.prg_ram.set((addr - 0x6000) as usize, value);
        }
    }

    /// A PPU read of the pattern tables, $0000-$1FFF.
    pub fn read_chr(&self, addr: u16) -> (r: u8)
        requires
            self.wf(),
            addr < 0x2000,
        ensures
            r == self.chr@[(addr as int) % (self.chr@.len() as int)],
    {
        self.chr[addr as usize % self.chr.len()]
    }

    /// A PPU write of the pattern tables: it lands only in CHR-RAM.
    pub fn write_chr(&mut self, addr: u16, value: u8)
        requires
            old(self).wf(),
            addr < 0x2000,
        ensures
            final(self).wf(),
            old(self).chr_is_ram ==> final(self).chr@ == old(self).chr@.update(
                (addr as int) % (old(self).chr@.len() as int),
                value,
            ),
            !old(self).chr_is_ram ==> final(self).chr@ == old(self).chr@,
            final(self).prg_rom == old(self).prg_rom,
            final(self).prg_ram == old(self).prg_ram,
            final(self).chr_is_ram == old(self).chr_is_ram,
            final(self).mirroring == old(self).mirroring,
    {
        if self.chr_is_ram {
            let i = addr as usize % self.chr.len();
            self.chr.set(i, value);
        }
    }

    /// Where the nametable byte at PPU address `addr` is stored.
    pub fn nametable_index(&self, addr: u16) -> (r: usize)
        requires
            0x2000 <= addr < 0x3f00,
        ensures
            r == nametable_index(self.mirroring, addr),
            r < 0x1000,
    {
        let rel = (addr - 0x2000) as usize % 0x1000;
        let table = rel / 0x400;
        let offset = rel % 0x400;
        let physical = match self.mirroring {
            Mirroring::Horizontal => table / 2,
            Mirroring::Vertical => table % 2,
            Mirroring::FourScreen => table,
        };
        physical * 0x400 + offset
    }
}

} // verus!
