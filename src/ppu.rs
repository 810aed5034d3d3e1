use vstd::prelude::*;

verus! {

/// Dots in one frame: 262 scanlines of 341 dots.
pub const FRAME_DOTS: u64 = 89342;

/// The frame dot at which VBlank starts: dot 1 of scanline 241.
pub const VBLANK_DOT: u64 = 82182;

/// The frame dot at which VBlank ends: dot 1 of the pre-render scanline 261.
pub const PRERENDER_DOT: u64 = 89002;

pub const STATUS_VBLANK: u8 = 0x80;

/// What one PPU step reports.
#[derive(Clone, Copy, Debug, PartialEq, Eq, Structural)]
pub enum PpuStep {
    /// One dot has passed.
    Cycle,
    /// VBlank has just gone from 0 to 1.
    Vblank,
}

/// The PPU's registers and its internal memories. Pattern tables live in the
/// cartridge (see the mapper).
#[derive(Clone, Debug)]
pub struct Ppu {
    pub cycle: u64,
    pub ctrl: u8,
    pub mask: u8,
    pub status: u8,
    pub oam_addr: u8,
    pub scroll: u16,
    pub addr: u16,
    pub scroll_addr_latch: bool,
    pub read_buffer: u8,
    pub nmi_pending: bool,
    pub oam: Vec<u8>,
    pub palette_ram: Vec<u8>,
    pub nametables: Vec<u8>,
}

/// Where a palette address ($3F00-$3FFF) lands in the 32 bytes of palette
/// RAM: the range repeats every 32 bytes, and $3F10/$3F14/$3F18/$3F1C alias
/// $3F00/$3F04/$3F08/$3F0C.
pub open spec fn palette_index(addr: u16) -> int {
    let i = (addr as int - 0x3f00) % 32;
    if i >= 16 && i % 4 == 0 {
        i - 16
    } else {
        i
    }
}

/// The scroll register after a write to $2005: the first write of a pair sets
/// the low byte (X), the second the high byte (Y).
pub open spec fn scroll_after_write(scroll: u16, latch: bool, value: u8) -> u16 {
    if !latch {
        (scroll & 0xff00) | (value as u16)
    } else {
        (scroll & 0x00ff) | ((value as u16) << 8u16)
    }
}

/// The VRAM address after a write to $2006: the first write of a pair sets the
/// high byte, kept to 14 bits, the second the low byte.
pub open spec fn addr_after_write(addr: u16, latch: bool, value: u8) -> u16 {
    if !latch {
        (((value & 0x3f) as u16) << 8u16) | (addr & 0x00ff)
    } else {
        (addr & 0xff00) | (value as u16)
    }
}

/// How far the VRAM address moves after each $2007 access: 32 when PPUCTRL
/// bit 2 is set, else 1; it stays within 14 bits.
pub open spec fn addr_after_access(addr: u16, ctrl: u8) -> u16 {
    let step: int = if ctrl & 0x04 != 0 { 32 } else { 1 };
    ((addr as int + step) % 0x4000) as u16
}

pub open spec fn frame_cycle(cycle: u64) -> u64 {
    (cycle % FRAME_DOTS) as u64
}

/// Whether the dot at `p.cycle` takes VBlank from 0 to 1.
pub open spec fn vblank_starts(p: Ppu) -> bool {
    frame_cycle(p.cycle) == VBLANK_DOT && p.status & STATUS_VBLANK == 0
}

/// The PPU after one dot: VBlank is set at dot 1 of scanline 241 and cleared,
/// with the sprite flags, at dot 1 of scanline 261; an NMI is left pending
/// when VBlank starts and PPUCTRL bit 7 asks for it. Nothing else changes.
pub open spec fn ppu_after_tick(p: Ppu) -> Ppu {
    let fc = frame_cycle(p.cycle);
    Ppu {
        cycle: (p.cycle + 1) as u64,
        status: if fc == VBLANK_DOT {
            p.status | 0x80
        } else if fc == PRERENDER_DOT {
            p.status & 0x1f
        } else {
            p.status
        },
        nmi_pending: p.nmi_pending || (vblank_starts(p) && p.ctrl & 0x80 != 0),
        ..p
    }
}

/// The PPU at power-on: all registers and memories zero.
pub open spec fn is_power_on(r: Ppu) -> bool {
    &&& r.wf()
    &&& r.cycle == 0
    &&& r.ctrl == 0 && r.mask == 0 && r.status == 0 && r.oam_addr == 0
    &&& r.scroll == 0 && r.addr == 0 && !r.scroll_addr_latch
    &&& r.read_buffer == 0 && !r.nmi_pending
    &&& r.oam@ == Seq::new(256, |i: int| 0u8)
    &&& r.palette_ram@ == Seq::new(32, |i: int| 0u8)
    &&& r.nametables@ == Seq::new(0x1000, |i: int| 0u8)
}

impl Ppu {
    pub open spec fn wf(&self) -> bool {
        &&& self.oam@.len() == 256
        &&& self.palette_ram@.len() == 32
        &&& self.nametables@.len() == 0x1000
        &&& self.addr < 0x4000
    }

    /// The PPU at power-on: all registers and memories zero.
    pub fn new() -> (r: Ppu)
        ensures
            is_power_on(r),
    {
        let r = Ppu {
            cycle: 0,
            ctrl: 0,
            mask: 0,
            status: 0,
            oam_addr: 0,
            scroll: 0,
            addr: 0,
            scroll_addr_latch: false,
            read_buffer: 0,
            nmi_pending: false,
            oam: vec![0u8; 256],
            palette_ram: vec![0u8; 32],
            nametables: vec![0u8; 0x1000],
        };
        assert(r.oam@ =~= Seq::new(256, |i: int| 0u8));
        assert(r.palette_ram@ =~= Seq::new(32, |i: int| 0u8));
        assert(r.nametables@ =~= Seq::new(0x1000, |i: int| 0u8));
        r
    }

    /// A read of PPUSTATUS: the flags as they were; VBlank is then cleared and
    /// the write latch reset.
    pub fn read_ppustatus(&mut self) -> (r: u8)
        ensures
            r == old(self).status,
            *final(self) == (Ppu { status: old(self).status & 0x7f, scroll_addr_latch: false, ..*old(self) }),
            final(self).status & STATUS_VBLANK == 0,
    {
        let status = self.status;
        self.status = status & 0x7f;
        self.scroll_addr_latch = false;
        assert((status & 0x7f) & 0x80 == 0) by (bit_vector);
        status
    }

    pub fn set_ppuctrl(&mut self, value: u8)
        ensures
            *final(self) == (Ppu { ctrl: value, ..*old(self) }),
    {
        self.ctrl = value;
    }

    pub fn set_ppumask(&mut self, value: u8)
        ensures
            *final(self) == (Ppu { mask: value, ..*old(self) }),
    {
        self.mask = value;
    }

    pub fn write_oamaddr(&mut self, value: u8)
        ensures
            *final(self) == (Ppu { oam_addr: value, ..*old(self) }),
    {
        self.oam_addr = value;
    }

    /// A read of OAMDATA: the OAM byte at OAMADDR, which does not move.
    pub fn read_oamdata(&self) -> (r: u8)
        requires
            self.wf(),
        ensures
            r == self.oam@[self.oam_addr as int],
    {
        self.oam[self.oam_addr as usize]
    }

    /// A write of OAMDATA: the byte goes to OAM at OAMADDR, which then moves on
    /// by one, wrapping.
    pub fn write_oamdata(&mut self, value: u8)
        requires
            old(self).wf(),
        ensures
            final(self).oam@ == old(self).oam@.update(old(self).oam_addr as int, value),
            *final(self) == (Ppu {
                oam: final(self).oam,
                oam_addr: ((old(self).oam_addr + 1) % 256) as u8,
                ..*old(self)
            }),
            final(self).wf(),
    {
        let a = self.oam_addr;
        self.oam.set(a as usize, value);
        self.oam_addr = a.wrapping_add(1);
    }

    /// A write of PPUSCROLL; the write latch toggles.
    pub fn write_ppuscroll(&mut self, value: u8)
        ensures
            *final(self) == (Ppu {
                scroll: scroll_after_write(old(self).scroll, old(self).scroll_addr_latch, value),
                scroll_addr_latch: !old(self).scroll_addr_latch,
                ..*old(self)
            }),
    {
        if !self.scroll_addr_latch {
            self.scroll = (self.scroll & 0xff00) | (value as u16);
        } else {
            self.scroll = (self.scroll & 0x00ff) | ((value as u16) << 8u16);
        }
        self.scroll_addr_latch = !self.scroll_addr_latch;
    }

    /// A write of PPUADDR; the write latch toggles.
    pub fn write_ppuaddr(&mut self, value: u8)
        requires
            old(self).wf(),
        ensures
            *final(self) == (Ppu {
                addr: addr_after_write(old(self).addr, old(self).scroll_addr_latch, value),
                scroll_addr_latch: !old(self).scroll_addr_latch,
                ..*old(self)
            }),
            final(self).wf(),
    {
        let a = self.addr;
        if !self.scroll_addr_latch {
            self.addr = (((value & 0x3f) as u16) << 8u16) | (a & 0x00ff);
            assert((((value & 0x3f) as u16) << 8u16) | (a & 0x00ff) < 0x4000) by (bit_vector)
                requires a < 0x4000;
        } else {
            self.addr = (a & 0xff00) | (value as u16);
            assert((a & 0xff00) | (value as u16) < 0x4000) by (bit_vector)
                requires a < 0x4000;
        }
        self.scroll_addr_latch = !self.scroll_addr_latch;
    }

    /// Moves the VRAM address on after a PPUDATA access.
    pub fn advance_addr(&mut self)
        requires
            old(self).wf(),
        ensures
            *final(self) == (Ppu { addr: addr_after_access(old(self).addr, old(self).ctrl), ..*old(self) }),
            final(self).wf(),
    {
        let step: u16 = if self.ctrl & 0x04 != 0 { 32 } else { 1 };
        self.addr = (self.addr + step) % 0x4000;
    }

    /// Where palette address `addr` lands in palette RAM.
    pub fn palette_index(addr: u16) -> (r: usize)
        requires
            0x3f00 <= addr,
        ensures
            r == palette_index(addr),
            r < 32,
    {
        let i = (addr - 0x3f00) as usize % 32;
        if i >= 16 && i % 4 == 0 {
            i - 16
        } else {
            i
        }
    }

    /// Advances the dot counter by one. VBlank is set at dot 1 of scanline
    /// 241 and cleared, with the sprite flags, at dot 1 of scanline 261. The
    /// result tells whether VBlank has just gone from 0 to 1; when it has and
    /// PPUCTRL bit 7 asks for it, an NMI is left pending for the CPU.
    pub fn tick(&mut self) -> (vblank_started: bool)
        requires
            old(self).cycle < u64::MAX,
        ensures
            vblank_started == vblank_starts(*old(self)),
            *final(self) == ppu_after_tick(*old(self)),
    {
        let fc = self.cycle % FRAME_DOTS;
        let mut started = false;
        if fc == VBLANK_DOT {
            started = self.status & STATUS_VBLANK == 0;
            self.status = self.status | 0x80;
            if started && self.ctrl & 0x80 != 0 {
                self.nmi_pending = true;
            }
        } else if fc == PRERENDER_DOT {
            self.status = self.status & 0x1f;
        }
        self.cycle = self.cycle + 1;
        started
    }
}

} // verus!
