use vstd::prelude::*;
use crate::cpu::Cpu;
use crate::error::{Access, NesError};
use crate::input::{released, port_1_data, strobe_after_read, InputReader, InputState, InputStrobe};
use crate::mapper::{built_from, cart_cpu_read, cart_cpu_write, nametable_index, Mapper};
use crate::ppu::{is_power_on, addr_after_access, addr_after_write, palette_index, scroll_after_write, Ppu};
use crate::rom::{chr_len, chr_segment, rom_error, Rom, RomError};

verus! {

/// Size of the CPU's internal RAM, mirrored through $0000-$1FFF.
pub const RAM_LEN: usize = 0x0800;

/// The console: CPU, PPU, cartridge, joypad latch and RAM, joined by the CPU
/// bus. `input_state` is what the input source reported last; the host
/// refreshes it between steps. `fault` holds the first CPU access to an
/// address that nothing answers; such an access is fatal, and the next CPU
/// step reports it.
#[derive(Clone, Debug)]
pub struct Nes {
    pub ram: Vec<u8>,
    pub cpu: Cpu,
    pub ppu: Ppu,
    pub mapper: Mapper,
    pub input_reader: InputReader,
    pub input_state: InputState,
    pub fault: Option<NesError>,
}

/// Reads that nothing answers: OAMDMA, which is write-only, the test-mode
/// registers at $4018-$401F, and the cartridge space below its PRG-RAM.
pub open spec fn unrouted_read(addr: u16) -> bool {
    addr == 0x4014 || (0x4018 <= addr < 0x6000)
}

/// Writes that nothing answers: PPUSTATUS, which is read-only, the test-mode
/// registers at $4018-$401F, and the cartridge space below its PRG-RAM.
pub open spec fn unrouted_write(addr: u16) -> bool {
    is_ppu_register(addr, 2) || (0x4018 <= addr < 0x6000)
}

/// The console with `e` recorded, unless a fault is recorded already.
pub open spec fn with_fault(nes: Nes, e: NesError) -> Nes {
    if nes.fault is None {
        Nes { fault: Some(e), ..nes }
    } else {
        nes
    }
}

/// The byte at `addr` on the PPU bus ($0000-$3FFF): pattern tables in the
/// cartridge, nametables under the cartridge's mirroring, palette RAM.
pub open spec fn ppu_bus_read(nes: Nes, addr: u16) -> u8 {
    if addr < 0x2000 {
        nes.mapper.chr@[addr as int % (nes.mapper.chr@.len() as int)]
    } else if addr < 0x3f00 {
        nes.ppu.nametables@[nametable_index(nes.mapper.mirroring, addr)]
    } else {
        nes.ppu.palette_ram@[palette_index(addr)]
    }
}

/// What a read of PPUDATA returns: the read buffer, or the palette byte at
/// once for palette addresses.
pub open spec fn ppudata_value(nes: Nes) -> u8 {
    if nes.ppu.addr >= 0x3f00 {
        ppu_bus_read(nes, nes.ppu.addr)
    } else {
        nes.ppu.read_buffer
    }
}

/// The read buffer after a read of PPUDATA: the byte at the VRAM address, or
/// for palette addresses the nametable byte that the palette hides.
pub open spec fn ppudata_buffer_after(nes: Nes) -> u8 {
    if nes.ppu.addr >= 0x3f00 {
        ppu_bus_read(nes, (nes.ppu.addr - 0x1000) as u16)
    } else {
        ppu_bus_read(nes, nes.ppu.addr)
    }
}

pub open spec fn ram_index(addr: u16) -> int {
    addr as int % (RAM_LEN as int)
}

pub open spec fn is_ppu_register(addr: u16, reg: int) -> bool {
    0x2000 <= addr < 0x4000 && addr as int % 8 == reg
}

/// What a CPU read of `addr` returns.
pub open spec fn cpu_read_value(nes: Nes, addr: u16) -> u8 {
    if addr < 0x2000 {
        nes.ram@[ram_index(addr)]
    } else if addr < 0x4000 {
        if is_ppu_register(addr, 2) {
            nes.ppu.status
        } else if is_ppu_register(addr, 4) {
            nes.ppu.oam@[nes.ppu.oam_addr as int]
        } else if is_ppu_register(addr, 7) {
            ppudata_value(nes)
        } else {
            0
        }
    } else if addr == 0x4016 {
        if port_1_data(nes.input_reader.strobe, nes.input_state) {
            1
        } else {
            0
        }
    } else if addr == 0x4017 {
        0x40
    } else if addr < 0x4020 {
        0
    } else {
        cart_cpu_read(nes.mapper.prg_rom@, nes.mapper.prg_ram@, addr)
    }
}

/// The console after a CPU read of `addr`: only PPUSTATUS, PPUDATA and the
/// joypad port have side effects, and a read that nothing answers records
/// the fault.
pub open spec fn after_cpu_read(nes: Nes, addr: u16) -> Nes {
    if is_ppu_register(addr, 2) {
        Nes { ppu: Ppu { status: nes.ppu.status & 0x7f, scroll_addr_latch: false, ..nes.ppu }, ..nes }
    } else if is_ppu_register(addr, 7) {
        Nes {
            ppu: Ppu {
                read_buffer: ppudata_buffer_after(nes),
                addr: addr_after_access(nes.ppu.addr, nes.ppu.ctrl),
                ..nes.ppu
            },
            ..nes
        }
    } else if addr == 0x4016 {
        Nes { input_reader: InputReader { strobe: strobe_after_read(nes.input_reader.strobe) }, ..nes }
    } else if unrouted_read(addr) {
        with_fault(nes, NesError::UnimplementedAddress { addr, access: Access::Read })
    } else {
        nes
    }
}

/// `n` changes from `o` by a write of `v` to PPU address `addr`.
pub open spec fn ppu_bus_write_effect(o: Nes, n: Nes, addr: u16, v: u8) -> bool {
    if addr < 0x2000 {
        &&& n == Nes { mapper: Mapper { chr: n.mapper.chr, ..o.mapper }, ..o }
        &&& n.mapper.chr@ == if o.mapper.chr_is_ram {
            o.mapper.chr@.update(addr as int % (o.mapper.chr@.len() as int), v)
        } else {
            o.mapper.chr@
        }
    } else if addr < 0x3f00 {
        &&& n == Nes { ppu: Ppu { nametables: n.ppu.nametables, ..o.ppu }, ..o }
        &&& n.ppu.nametables@ == o.ppu.nametables@.update(nametable_index(o.mapper.mirroring, addr), v)
    } else {
        &&& n == Nes { ppu: Ppu { palette_ram: n.ppu.palette_ram, ..o.ppu }, ..o }
        &&& n.ppu.palette_ram@ == o.ppu.palette_ram@.update(palette_index(addr), v)
    }
}

/// The bytes that OAM DMA from `page` reads, and the console after those
/// reads, after the first `n` of them.
pub open spec fn dma_reads(nes: Nes, page: u8, n: nat) -> (Seq<u8>, Nes)
    decreases n,
{
    if n == 0 {
        (Seq::<u8>::empty(), nes)
    } else {
        let (bytes, s) = dma_reads(nes, page, (n - 1) as nat);
        let a = (page as int * 256 + (n - 1)) as u16;
        (bytes.push(cpu_read_value(s, a)), after_cpu_read(s, a))
    }
}

/// OAM after DMA of `bytes` starting at OAM address `start`, wrapping.
pub open spec fn oam_after_dma(start: u8, bytes: Seq<u8>) -> Seq<u8> {
    Seq::new(256, |k: int| bytes[(k - start as int + 256) % 256])
}

/// `n` changes from `o` by a CPU write of `v` to `addr`.
pub open spec fn write_effect(o: Nes, n: Nes, addr: u16, v: u8) -> bool {
    if unrouted_write(addr) {
        n == with_fault(o, NesError::UnimplementedAddress { addr, access: Access::Write })
    } else if addr < 0x2000 {
        &&& n == Nes { ram: n.ram, ..o }
        &&& n.ram@ == o.ram@.update(ram_index(addr), v)
    } else if is_ppu_register(addr, 0) {
        n == Nes { ppu: Ppu { ctrl: v, ..o.ppu }, ..o }
    } else if is_ppu_register(addr, 1) {
        n == Nes { ppu: Ppu { mask: v, ..o.ppu }, ..o }
    } else if is_ppu_register(addr, 3) {
        n == Nes { ppu: Ppu { oam_addr: v, ..o.ppu }, ..o }
    } else if is_ppu_register(addr, 4) {
        &&& n == Nes { ppu: Ppu { oam: n.ppu.oam, oam_addr: ((o.ppu.oam_addr + 1) % 256) as u8, ..o.ppu }, ..o }
        &&& n.ppu.oam@ == o.ppu.oam@.update(o.ppu.oam_addr as int, v)
    } else if is_ppu_register(addr, 5) {
        n == Nes {
            ppu: Ppu {
                scroll: scroll_after_write(o.ppu.scroll, o.ppu.scroll_addr_latch, v),
                scroll_addr_latch: !o.ppu.scroll_addr_latch,
                ..o.ppu
            },
            ..o
        }
    } else if is_ppu_register(addr, 6) {
        n == Nes {
            ppu: Ppu {
                addr: addr_after_write(o.ppu.addr, o.ppu.scroll_addr_latch, v),
                scroll_addr_latch: !o.ppu.scroll_addr_latch,
                ..o.ppu
            },
            ..o
        }
    } else if is_ppu_register(addr, 7) {
        &&& n.ppu.addr == addr_after_access(o.ppu.addr, o.ppu.ctrl)
        &&& ppu_bus_write_effect(o, Nes { ppu: Ppu { addr: o.ppu.addr, ..n.ppu }, ..n }, o.ppu.addr, v)
    } else if addr == 0x4014 {
        let (bytes, s) = dma_reads(o, v, 256);
        &&& n == Nes { ppu: Ppu { oam: n.ppu.oam, ..s.ppu }, ..s }
        &&& n.ppu.oam@ == oam_after_dma(o.ppu.oam_addr, bytes)
    } else if addr == 0x4016 {
        n == Nes {
            input_reader: InputReader {
                strobe: if v & 1 != 0 {
                    InputStrobe::Live
                } else {
                    InputStrobe::Strobed { state: o.input_state, read_port_1: 0, read_port_2: 0 }
                },
            },
            ..o
        }
    } else if addr >= 0x4020 {
        &&& n == Nes { mapper: Mapper { prg_ram: n.mapper.prg_ram, ..o.mapper }, ..o }
        &&& n.mapper.prg_ram@ == cart_cpu_write(o.mapper.prg_ram@, addr, v)
    } else {
        n == o
    }
}

/// The stack pointer after a push: one lower, wrapping.
pub open spec fn s_after_push(s: u8) -> u8 {
    ((s as int - 1 + 256) % 256) as u8
}

/// The stack pointer before a pull reads: one higher, wrapping.
pub open spec fn s_after_pop(s: u8) -> u8 {
    ((s as int + 1) % 256) as u8
}

pub open spec fn stack_addr(s: u8) -> u16 {
    (0x0100 + s as int) as u16
}

/// A CPU read leaves the registers, RAM, the cartridge and the input alone.
pub proof fn lemma_read_frame(nes: Nes, addr: u16)
    ensures
        after_cpu_read(nes, addr).cpu == nes.cpu,
        after_cpu_read(nes, addr).ram == nes.ram,
        after_cpu_read(nes, addr).mapper == nes.mapper,
        after_cpu_read(nes, addr).input_state == nes.input_state,
        nes.wf() ==> after_cpu_read(nes, addr).wf(),
        addr >= 0x6000 ==> after_cpu_read(nes, addr) == nes,
{
}

impl Nes {
    pub open spec fn wf(&self) -> bool {
        &&& self.ram@.len() == RAM_LEN
        &&& self.ppu.wf()
        &&& self.mapper.wf()
    }

    /// Powers the console on with `rom` inserted: RAM is zero, the joypad
    /// latch is live, and the CPU starts at the reset vector at $FFFC.
    pub fn new(rom: Rom) -> (r: Result<Nes, NesError>)
        ensures
            rom.prg_rom@.len() == 0 ==> r == Err::<Nes, NesError>(NesError::RomFormat(RomError::NoPrgRom)),
            rom.prg_rom@.len() != 0 && rom.header.mapper_id != 0 ==> r == Err::<Nes, NesError>(
                NesError::UnsupportedMapper { mapper_id: rom.header.mapper_id },
            ),
            rom.prg_rom@.len() != 0 && rom.header.mapper_id == 0 ==> (r matches Ok(nes) && nes.wf()
                && nes.ram@ == Seq::new(RAM_LEN as nat, |i: int| 0u8)
                && built_from(nes.mapper, rom)
                && nes.input_reader.strobe == InputStrobe::Live
                && nes.input_state == released()
                && nes.fault is None
                && is_power_on(nes.ppu)
                && nes.cpu == (Cpu {
                    pc: (cart_cpu_read(rom.prg_rom@, nes.mapper.prg_ram@, 0xfffc) as u16
                        | ((cart_cpu_read(rom.prg_rom@, nes.mapper.prg_ram@, 0xfffd) as u16) << 8u16)),
                    a: 0,
                    x: 0,
                    y: 0,
                    s: 0xfd,
                    p: 0x34,
                })),
    {
        let mapper = match Mapper::from_rom(rom) {
            Ok(m) => m,
            Err(e) => {
                return Err(e);
            },
        };
        let ram = vec![0u8; RAM_LEN];
        assert(ram@ =~= Seq::new(RAM_LEN as nat, |i: int| 0u8));
        let mut nes = Nes {
            ram,
            cpu: Cpu::new(),
            ppu: Ppu::new(),
            mapper,
            input_reader: InputReader::new(),
            input_state: InputState {
                joypad_1: crate::input::JoypadState {
                    a: false, b: false, select: false, start: false,
                    up: false, down: false, left: false, right: false,
                },
                joypad_2: crate::input::JoypadState {
                    a: false, b: false, select: false, start: false,
                    up: false, down: false, left: false, right: false,
                },
            },
            fault: None,
        };
        let reset_addr = nes.read_u16(0xfffc);
        nes.cpu.pc = reset_addr;
        Ok(nes)
    }

    /// Replaces the input that the joypad latch samples.
    pub fn set_input_state(&mut self, state: InputState)
        ensures
            *final(self) == (Nes { input_state: state, ..*old(self) }),
    {
        self.input_state = state;
    }

    /// A read of the PPU bus, without side effects.
    pub fn read_ppu_u8(&self, addr: u16) -> (r: u8)
        requires
            self.wf(),
            addr < 0x4000,
        ensures
            r == ppu_bus_read(*self, addr),
    {
        if addr < 0x2000 {
            self.mapper.read_chr(addr)
        } else if addr < 0x3f00 {
            self.ppu.nametables[self.mapper.nametable_index(addr)]
        } else {
            self.ppu.palette_ram[Ppu::palette_index(addr)]
        }
    }

    /// A write to the PPU bus. Pattern-table writes land only in CHR-RAM.
    pub fn write_ppu_u8(&mut self, addr: u16, value: u8)
        requires
            old(self).wf(),
            addr < 0x4000,
        ensures
            final(self).wf(),
            ppu_bus_write_effect(*old(self), *final(self), addr, value),
    {
        if addr < 0x2000 {
            self.mapper.write_chr(addr, value);
        } else if addr < 0x3f00 {
            let i = self.mapper.nametable_index(addr);
            self.ppu.nametables.set(i, value);
        } else {
            let i = Ppu::palette_index(addr);
            self.ppu.palette_ram.set(i, value);
        }
    }

    fn read_ppudata(&mut self) -> (r: u8)
        requires
            old(self).wf(),
        ensures
            final(self).wf(),
            r == ppudata_value(*old(self)),
            *final(self) == after_cpu_read(*old(self), 0x2007),
    {
        let a = self.ppu.addr;
        let r = if a >= 0x3f00 {
            let v = self.read_ppu_u8(a);
            self.ppu.read_buffer = self.read_ppu_u8(a - 0x1000);
            v
        } else {
            let v = self.ppu.read_buffer;
            self.ppu.read_buffer = self.read_ppu_u8(a);
            v
        };
        self.ppu.advance_addr();
        r
    }

    /// Records `e`, unless a fault is recorded already.
    fn record_fault(&mut self, e: NesError)
        ensures
            *final(self) == with_fault(*old(self), e),
    {
        if self.fault.is_none() {
            self.fault = Some(e);
        }
    }

    /// A CPU read of `addr`. A read that nothing answers gives 0 and records
    /// an `UnimplementedAddress` fault.
    pub fn read_u8(&mut self, addr: u16) -> (r: u8)
        requires
            old(self).wf(),
        ensures
            final(self).wf(),
            r == cpu_read_value(*old(self), addr),
            *final(self) == after_cpu_read(*old(self), addr),
    {
        if addr < 0x2000 {
            self.ram[(addr % 0x800) as usize]
        } else if addr < 0x4000 {
            let reg = addr % 8;
            if reg == 2 {
                self.ppu.read_ppustatus()
            } else if reg == 4 {
                self.ppu.read_oamdata()
            } else if reg == 7 {
                self.read_ppudata()
            } else {
                0
            }
        } else if addr == 0x4016 {
            let current = self.input_state;
            if self.input_reader.read_port_1_data(current) {
                1
            } else {
                0
            }
        } else if addr == 0x4017 {
            0x40
        } else if addr == 0x4014 || (0x4018 <= addr && addr < 0x6000) {
            self.record_fault(NesError::UnimplementedAddress { addr, access: Access::Read });
            0
        } else if addr < 0x4020 {
            0
        } else {
            self.mapper.read_u8(addr)
        }
    }

    /// A little-endian CPU read of `addr` and `addr + 1`, wrapping at $FFFF.
    pub fn read_u16(&mut self, addr: u16) -> (r: u16)
        requires
            old(self).wf(),
        ensures
            final(self).wf(),
            r == (cpu_read_value(*old(self), addr) as u16
                | ((cpu_read_value(after_cpu_read(*old(self), addr), addr.wrapping_add(1)) as u16) << 8u16)),
            *final(self) == after_cpu_read(after_cpu_read(*old(self), addr), addr.wrapping_add(1)),
    {
        let lo = self.read_u8(addr);
        let hi = self.read_u8(addr.wrapping_add(1));
        lo as u16 | ((hi as u16) << 8u16)
    }
    /// A CPU write of `value` to `addr`. A write that nothing answers records
    /// an `UnimplementedAddress` fault.
    pub fn write_u8(&mut self, addr: u16, value: u8)
        requires
            old(self).wf(),
        ensures
            final(self).wf(),
            write_effect(*old(self), *final(self), addr, value),
            final(self).cpu == old(self).cpu,
    {
        if (0x2000 <= addr && addr < 0x4000 && addr % 8 == 2) || (0x4018 <= addr && addr < 0x6000) {
            self.record_fault(NesError::UnimplementedAddress { addr, access: Access::Write });
        } else if addr < 0x2000 {
            self.ram.set((addr % 0x800) as usize, value);
        } else if addr < 0x4000 {
            let reg = addr % 8;
            if reg == 0 {
                self.ppu.set_ppuctrl(value);
            } else if reg == 1 {
                self.ppu.set_ppumask(value);
            } else if reg == 3 {
                self.ppu.write_oamaddr(value);
            } else if reg == 4 {
                self.ppu.write_oamdata(value);
            } else if reg == 5 {
                self.ppu.write_ppuscroll(value);
            } else if reg == 6 {
                self.ppu.write_ppuaddr(value);
            } else if reg == 7 {
                let a = self.ppu.addr;
                self.write_ppu_u8(a, value);
                self.ppu.advance_addr();
            }
        } else if addr == 0x4014 {
            self.copy_oam_dma(value);
        } else if addr == 0x4016 {
            if value & 1 != 0 {
                self.input_reader.start_strobe();
            } else {
                let current = self.input_state;
                self.input_reader.stop_strobe(current);
            }
        } else if addr >= 0x4020 {
            self.mapper.write_u8(addr, value);
        }
    }

    /// OAM DMA: 256 CPU reads of page `page`, written into OAM from OAMADDR on,
    /// wrapping inside OAM.
    fn copy_oam_dma(&mut self, page: u8)
        requires
            old(self).wf(),
        ensures
            final(self).wf(),
            ({
                let (bytes, s) = dma_reads(*old(self), page, 256);
                &&& *final(self) == Nes { ppu: Ppu { oam: final(self).ppu.oam, ..s.ppu }, ..s }
                &&& final(self).ppu.oam@ == oam_after_dma(old(self).ppu.oam_addr, bytes)
            }),
            final(self).cpu == old(self).cpu,
    {
        let start = self.ppu.oam_addr;
        let mut bytes: Vec<u8> = Vec::new();
        let mut i: u16 = 0;
        while i < 256
            invariant
                self.wf(),
                i <= 256,
                (bytes@, *self) == dma_reads(*old(self), page, i as nat),
                self.ppu.oam_addr == start,
                start == old(self).ppu.oam_addr,
                self.cpu == old(self).cpu,
            decreases 256 - i,
        {
            let b = self.read_u8((page as u16) * 256 + i);
            bytes.push(b);
            i = i + 1;
        }
        proof {
            lemma_dma_reads_len(*old(self), page, 256);
        }
        let ghost mid = *self;
        let mut j: usize = 0;
        while j < 256
            invariant
                self.wf(),
                j <= 256,
                bytes@.len() == 256,
                *self == (Nes { ppu: Ppu { oam: self.ppu.oam, ..mid.ppu }, ..mid }),
                forall|k: int| 0 <= k < 256 ==> #[trigger] self.ppu.oam@[k] == if (k - start as int + 256) % 256 < j {
                    bytes@[(k - start as int + 256) % 256]
                } else {
                    mid.ppu.oam@[k]
                },
            decreases 256 - j,
        {
            let k = (start as usize + j) % 256;
            self.ppu.oam.set(k, bytes[j]);
            j = j + 1;
        }
        assert(self.ppu.oam@ =~= oam_after_dma(start, bytes@));
    }

    /// Pushes `value` at $0100 | s, then moves s down by one, wrapping.
    pub fn push_u8(&mut self, value: u8)
        requires
            old(self).wf(),
        ensures
            final(self).wf(),
            final(self).ram@ == old(self).ram@.update(stack_addr(old(self).cpu.s) as int, value),
            *final(self) == (Nes {
                ram: final(self).ram,
                cpu: Cpu { s: s_after_push(old(self).cpu.s), ..old(self).cpu },
                ..*old(self)
            }),
    {
        let s = self.cpu.s;
        self.write_u8(0x0100 | s as u16, value);
        assert(0x0100 | s as u16 == 0x100 + s as u16) by (bit_vector);
        self.cpu.s = s.wrapping_sub(1);
    }

    /// Pushes the high byte of `value`, then the low byte.
    pub fn push_u16(&mut self, value: u16)
        requires
            old(self).wf(),
        ensures
            final(self).wf(),
            final(self).ram@ == old(self).ram@
                .update(stack_addr(old(self).cpu.s) as int, (value / 256) as u8)
                .update(stack_addr(s_after_push(old(self).cpu.s)) as int, (value % 256) as u8),
            *final(self) == (Nes {
                ram: final(self).ram,
                cpu: Cpu { s: s_after_push(s_after_push(old(self).cpu.s)), ..old(self).cpu },
                ..*old(self)
            }),
    {
        self.push_u8((value / 256) as u8);
        self.push_u8((value % 256) as u8);
    }

    /// Moves s up by one, wrapping, then reads $0100 | s.
    pub fn pop_u8(&mut self) -> (r: u8)
        requires
            old(self).wf(),
        ensures
            final(self).wf(),
            r == old(self).ram@[stack_addr(s_after_pop(old(self).cpu.s)) as int],
            *final(self) == (Nes { cpu: Cpu { s: s_after_pop(old(self).cpu.s), ..old(self).cpu }, ..*old(self) }),
    {
        let s = self.cpu.s.wrapping_add(1);
        self.cpu.s = s;
        assert(0x0100 | s as u16 == 0x100 + s as u16) by (bit_vector);
        self.read_u8(0x0100 | s as u16)
    }

    /// Pulls the low byte, then the high byte.
    pub fn pop_u16(&mut self) -> (r: u16)
        requires
            old(self).wf(),
        ensures
            final(self).wf(),
            r == old(self).ram@[stack_addr(s_after_pop(old(self).cpu.s)) as int] as int
                + 256 * old(self).ram@[stack_addr(s_after_pop(s_after_pop(old(self).cpu.s))) as int] as int,
            *final(self) == (Nes {
                cpu: Cpu { s: s_after_pop(s_after_pop(old(self).cpu.s)), ..old(self).cpu },
                ..*old(self)
            }),
    {
        let lo = self.pop_u8();
        let hi = self.pop_u8();
        lo as u16 + (hi as u16) * 256
    }
}

proof fn lemma_dma_reads_len(nes: Nes, page: u8, n: nat)
    ensures
        dma_reads(nes, page, n).0.len() == n,
    decreases n,
{
    if n > 0 {
        lemma_dma_reads_len(nes, page, (n - 1) as nat);
    }
}

/// The stack pointer wraps modulo 256, and a pull right after a push gives the
/// pushed byte back and restores the stack pointer.
pub proof fn lemma_push_then_pop(o: Nes, n: Nes, v: u8)
    requires
        o.wf(),
        n.ram@ == o.ram@.update(stack_addr(o.cpu.s) as int, v),
        n.cpu.s == s_after_push(o.cpu.s),
    ensures
        s_after_pop(n.cpu.s) == o.cpu.s,
        n.ram@[stack_addr(s_after_pop(n.cpu.s)) as int] == v,
        s_after_push(0) == 255,
        s_after_pop(255) == 0,
{
}

/// After a read of PPUSTATUS the VBlank bit is 0 and the write latch is reset.
pub proof fn lemma_status_read_clears_vblank(nes: Nes, addr: u16)
    requires
        is_ppu_register(addr, 2),
    ensures
        after_cpu_read(nes, addr).ppu.status & 0x80 == 0,
        !after_cpu_read(nes, addr).ppu.scroll_addr_latch,
{
    let s = nes.ppu.status;
    assert((s & 0x7f) & 0x80 == 0) by (bit_vector);
}

/// Two writes to PPUSCROLL or PPUADDR in a row leave the shared write latch
/// as it was before them.
pub proof fn lemma_latch_pair(o: Nes, m: Nes, n: Nes, a1: u16, a2: u16, v1: u8, v2: u8)
    requires
        is_ppu_register(a1, 5) || is_ppu_register(a1, 6),
        is_ppu_register(a2, 5) || is_ppu_register(a2, 6),
        write_effect(o, m, a1, v1),
        write_effect(m, n, a2, v2),
    ensures
        n.ppu.scroll_addr_latch == o.ppu.scroll_addr_latch,
{
}

/// Palette reads at $3F10/$3F14/$3F18/$3F1C give what $3F00/$3F04/$3F08/$3F0C
/// give, and writes to them land in the same byte.
pub proof fn lemma_palette_alias(nes: Nes, k: u16)
    requires
        k < 4,
    ensures
        palette_index((0x3f10 + 4 * k) as u16) == palette_index((0x3f00 + 4 * k) as u16),
        ppu_bus_read(nes, (0x3f10 + 4 * k) as u16) == ppu_bus_read(nes, (0x3f00 + 4 * k) as u16),
{
}

/// A byte written to RAM, at $0000-$07FF or any of its mirrors, reads back
/// from every address that mirrors it.
pub proof fn lemma_ram_write_read(o: Nes, n: Nes, a: u16, b: u16, v: u8)
    requires
        o.wf(),
        a < 0x2000,
        b < 0x2000,
        a % 0x800 == b % 0x800,
        write_effect(o, n, a, v),
    ensures
        cpu_read_value(n, b) == v,
{
}

/// A console built from a parsed image with CHR-ROM reads the image's CHR
/// segment back, byte for byte, through the pattern tables.
pub proof fn lemma_chr_after_load(bytes: Seq<u8>, rom: Rom, nes: Nes, addr: u16)
    requires
        rom_error(bytes) is None,
        bytes[5] != 0,
        rom.chr_rom@ == chr_segment(bytes),
        built_from(nes.mapper, rom),
        addr < 0x2000,
    ensures
        ppu_bus_read(nes, addr) == chr_segment(bytes)[addr as int],
{
    let k = bytes[5];
    assert(k as int * 8192 >= 8192) by (nonlinear_arith)
        requires
            k >= 1,
    ;
    assert(chr_segment(bytes).len() == chr_len(bytes));
    vstd::arithmetic::div_mod::lemma_small_mod(addr as nat, chr_len(bytes) as nat);
    assert(nes.mapper.chr@ == chr_segment(bytes));
}

} // verus!
