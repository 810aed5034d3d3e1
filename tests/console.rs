use lochnes::cpu::{AddrMode, Cpu, CpuStep, Instruction};
use lochnes::error::{Access, NesError};
use lochnes::input::{InputState, JoypadState};
use lochnes::nes::Nes;
use lochnes::ppu::PpuStep;
use lochnes::rom::{Mirroring, Rom, RomError};
use lochnes::stepper::NesStep;

fn image(prg_pages: u8, chr_pages: u8, flags6: u8, flags7: u8, code: &[u8]) -> Vec<u8> {
    let mut b = vec![0x4e, 0x45, 0x53, 0x1a, prg_pages, chr_pages, flags6, flags7];
    b.extend_from_slice(&[0u8; 8]);
    if flags6 & 0x04 != 0 {
        b.extend_from_slice(&[0xaau8; 512]);
    }
    let mut prg = vec![0u8; 16384 * prg_pages as usize];
    prg[..code.len()].copy_from_slice(code);
    let n = prg.len();
    if n > 0 {
        // reset vector -> $8000, NMI vector -> $9000, IRQ/BRK vector -> $A000
        prg[n - 6..].copy_from_slice(&[0x00, 0x90, 0x00, 0x80, 0x00, 0xa0]);
    }
    b.extend_from_slice(&prg);
    for i in 0..(8192 * chr_pages as usize) {
        b.push((i % 251) as u8);
    }
    b
}

fn console(code: &[u8]) -> Nes {
    let rom = Rom::from_bytes(&image(1, 1, 0, 0, code)).expect("valid image");
    Nes::new(rom).expect("mapper 0")
}

fn step(nes: &mut Nes) -> CpuStep {
    Cpu::step(nes).expect("known opcode")
}

#[test]
fn rom_parses_header_and_segments() {
    let bytes = image(1, 1, 0x01 | 0x02, 0x00, &[0xa9, 0x01]);
    let rom = Rom::from_bytes(&bytes).unwrap();
    assert_eq!(rom.header.prg_rom_pages, 1);
    assert_eq!(rom.header.chr_rom_pages, 1);
    assert_eq!(rom.header.mirroring, Mirroring::Vertical);
    assert!(rom.header.battery);
    assert!(!rom.header.trainer);
    assert_eq!(rom.header.mapper_id, 0);
    assert_eq!(rom.prg_rom.len(), 16384);
    assert_eq!(rom.chr_rom.len(), 8192);
    assert_eq!(rom.prg_rom[0], 0xa9);
    assert_eq!(rom.chr_rom[7], 7);
}

#[test]
fn rom_round_trip_of_prg_and_chr() {
    let bytes = image(2, 1, 0x04, 0x00, &[1, 2, 3, 4]);
    let rom = Rom::from_bytes(&bytes).unwrap();
    assert!(rom.header.trainer);
    let out = rom.prg_chr_bytes();
    assert_eq!(out.len(), 2 * 16384 + 8192);
    assert_eq!(&out[..], &bytes[16 + 512..]);
}

#[test]
fn rom_mapper_id_and_four_screen() {
    let bytes = image(1, 0, 0x18, 0x40, &[]);
    let rom = Rom::from_bytes(&bytes).unwrap();
    assert_eq!(rom.header.mapper_id, 0x41);
    assert_eq!(rom.header.mirroring, Mirroring::FourScreen);
    assert!(rom.chr_rom.is_empty());
    match Nes::new(rom) {
        Err(NesError::UnsupportedMapper { mapper_id }) => assert_eq!(mapper_id, 0x41),
        _ => panic!("mapper 0x41 must be refused"),
    }
}

#[test]
fn rom_errors() {
    assert_eq!(Rom::from_bytes(&[0x4e, 0x45, 0x53]).unwrap_err(), RomError::Truncated);
    let mut bad_magic = image(1, 0, 0, 0, &[]);
    bad_magic[3] = 0x1b;
    assert_eq!(Rom::from_bytes(&bad_magic).unwrap_err(), RomError::InvalidMagic);
    let no_prg = image(0, 0, 0, 0, &[]);
    assert_eq!(Rom::from_bytes(&no_prg).unwrap_err(), RomError::NoPrgRom);
    let mut short = image(1, 1, 0, 0, &[]);
    short.pop();
    assert_eq!(Rom::from_bytes(&short).unwrap_err(), RomError::Truncated);
}

#[test]
fn reset_vector_sets_pc_and_stack() {
    let nes = console(&[]);
    assert_eq!(nes.cpu.pc, 0x8000);
    assert_eq!(nes.cpu.s, 0xfd);
    assert_eq!(nes.cpu.p, 0x34);
}

#[test]
fn immediate_lda_sets_flags() {
    let mut nes = console(&[0xa9, 0x00, 0xa9, 0xff, 0x00]);
    let s1 = step(&mut nes);
    assert_eq!(s1, CpuStep::Instruction { pc: 0x8000, op: lochnes::cpu::Opcode { instruction: Instruction::Lda, mode: AddrMode::Immediate } });
    assert_eq!(nes.cpu.a, 0x00);
    assert_eq!(nes.cpu.p & 0x02, 0x02);
    assert_eq!(nes.cpu.p & 0x80, 0);
    step(&mut nes);
    assert_eq!(nes.cpu.a, 0xff);
    assert_eq!(nes.cpu.p & 0x02, 0);
    assert_eq!(nes.cpu.p & 0x80, 0x80);
}

#[test]
fn branch_taken_skips_instruction() {
    let mut nes = console(&[0xa9, 0x00, 0xf0, 0x02, 0xa9, 0x01, 0x00]);
    step(&mut nes);
    assert_eq!(nes.cpu.pc, 0x8002);
    step(&mut nes);
    assert_eq!(nes.cpu.pc, 0x8006);
    assert_eq!(nes.cpu.a, 0x00);
}

#[test]
fn branch_backwards_wraps_page() {
    // BNE -4 from $8000 after LDX #1
    let mut nes = console(&[0xa2, 0x01, 0xd0, 0xfc]);
    step(&mut nes);
    step(&mut nes);
    assert_eq!(nes.cpu.pc, 0x8000);
}

#[test]
fn jsr_and_rts_use_the_stack() {
    let mut nes = console(&[0x20, 0x06, 0x80, 0x00, 0x00, 0x00, 0x60]);
    step(&mut nes);
    assert_eq!(nes.cpu.s, 0xfb);
    assert_eq!(nes.read_u8(0x01fd), 0x80);
    assert_eq!(nes.read_u8(0x01fc), 0x02);
    assert_eq!(nes.cpu.pc, 0x8006);
    step(&mut nes);
    assert_eq!(nes.cpu.pc, 0x8003);
    assert_eq!(nes.cpu.s, 0xfd);
}

#[test]
fn php_and_brk_push_u_and_b() {
    // CLC; PHP; BRK
    let mut nes = console(&[0x18, 0x08, 0x00]);
    nes.cpu.p = 0x00;
    step(&mut nes);
    step(&mut nes);
    assert_eq!(nes.read_u8(0x01fd), 0x30);
    step(&mut nes);
    assert_eq!(nes.cpu.pc, 0xa000);
    assert_eq!(nes.read_u8(0x01fc), 0x80);
    assert_eq!(nes.read_u8(0x01fb), 0x04);
    assert_eq!(nes.read_u8(0x01fa), 0x30);
    assert_eq!(nes.cpu.p & 0x04, 0x04);
}

#[test]
fn adc_and_sbc_set_carry_and_overflow() {
    // LDA #$7F; ADC #$01; SEC; SBC #$01
    let mut nes = console(&[0xa9, 0x7f, 0x69, 0x01, 0x38, 0xe9, 0x01]);
    nes.cpu.p = 0x20;
    step(&mut nes);
    step(&mut nes);
    assert_eq!(nes.cpu.a, 0x80);
    assert_eq!(nes.cpu.p & 0x40, 0x40);
    assert_eq!(nes.cpu.p & 0x01, 0);
    assert_eq!(nes.cpu.p & 0x80, 0x80);
    step(&mut nes);
    step(&mut nes);
    assert_eq!(nes.cpu.a, 0x7f);
    assert_eq!(nes.cpu.p & 0x40, 0x40);
    assert_eq!(nes.cpu.p & 0x01, 0x01);
}

#[test]
fn compare_and_shift() {
    // LDA #$81; CMP #$81; ASL A; ROL A
    let mut nes = console(&[0xa9, 0x81, 0xc9, 0x81, 0x0a, 0x2a]);
    step(&mut nes);
    step(&mut nes);
    assert_eq!(nes.cpu.p & 0x03, 0x03);
    step(&mut nes);
    assert_eq!(nes.cpu.a, 0x02);
    assert_eq!(nes.cpu.p & 0x01, 0x01);
    step(&mut nes);
    assert_eq!(nes.cpu.a, 0x05);
    assert_eq!(nes.cpu.p & 0x01, 0x00);
}

#[test]
fn store_indirect_indexed_and_dec_zero_page() {
    // LDA #$00; STA $10; LDA #$03; STA $11; LDY #$05; LDA #$42; STA ($10),Y; DEC $10
    let mut nes = console(&[0xa9, 0x00, 0x85, 0x10, 0xa9, 0x03, 0x85, 0x11, 0xa0, 0x05, 0xa9, 0x42, 0x91, 0x10, 0xc6, 0x10]);
    for _ in 0..8 {
        step(&mut nes);
    }
    assert_eq!(nes.read_u8(0x0305), 0x42);
    assert_eq!(nes.read_u8(0x0010), 0xff);
    assert_eq!(nes.cpu.p & 0x80, 0x80);
}

#[test]
fn indirect_jmp_wraps_within_page() {
    let mut nes = console(&[0x6c, 0xff, 0x02]);
    nes.write_u8(0x02ff, 0x34);
    nes.write_u8(0x0200, 0x12);
    nes.write_u8(0x0300, 0x99);
    step(&mut nes);
    assert_eq!(nes.cpu.pc, 0x1234);
}

#[test]
fn unknown_opcode_is_an_error() {
    let mut nes = console(&[0x02]);
    assert_eq!(Cpu::step(&mut nes), Err(NesError::UnimplementedOpcode { pc: 0x8000, opcode: 0x02 }));
}

#[test]
fn stack_pointer_wraps_and_pop_restores() {
    let mut nes = console(&[]);
    nes.cpu.s = 0x00;
    nes.push_u8(0x5a);
    assert_eq!(nes.cpu.s, 0xff);
    assert_eq!(nes.read_u8(0x0100), 0x5a);
    assert_eq!(nes.pop_u8(), 0x5a);
    assert_eq!(nes.cpu.s, 0x00);
    nes.push_u16(0xbeef);
    assert_eq!(nes.pop_u16(), 0xbeef);
    assert_eq!(nes.cpu.s, 0x00);
}

#[test]
fn ram_is_mirrored() {
    let mut nes = console(&[]);
    nes.write_u8(0x0123, 0x77);
    assert_eq!(nes.read_u8(0x0123), 0x77);
    assert_eq!(nes.read_u8(0x0923), 0x77);
    assert_eq!(nes.read_u8(0x1123), 0x77);
    assert_eq!(nes.read_u8(0x1923), 0x77);
    nes.write_u8(0x1fff, 0x11);
    assert_eq!(nes.read_u8(0x07ff), 0x11);
}

#[test]
fn prg_ram_and_rom_writes() {
    let mut nes = console(&[0xa9]);
    nes.write_u8(0x6000, 0x80);
    assert_eq!(nes.read_u8(0x6000), 0x80);
    nes.write_u8(0x8000, 0x00);
    assert_eq!(nes.read_u8(0x8000), 0xa9);
    assert_eq!(nes.read_u8(0xc000), 0xa9);
    assert_eq!(nes.read_u8(0x4015), 0x00);
    assert_eq!(nes.read_u8(0x4017), 0x40);
}

#[test]
fn status_read_clears_vblank_and_latch() {
    let mut nes = console(&[]);
    nes.ppu.status = 0xe0;
    nes.write_u8(0x2005, 0x10);
    assert!(nes.ppu.scroll_addr_latch);
    assert_eq!(nes.read_u8(0x2002), 0xe0);
    assert_eq!(nes.ppu.status & 0x80, 0);
    assert_eq!(nes.ppu.status, 0x60);
    assert!(!nes.ppu.scroll_addr_latch);
}

#[test]
fn two_scroll_or_addr_writes_restore_latch() {
    let mut nes = console(&[]);
    nes.write_u8(0x2005, 0x12);
    nes.write_u8(0x2005, 0x34);
    assert!(!nes.ppu.scroll_addr_latch);
    assert_eq!(nes.ppu.scroll, 0x3412);
    nes.write_u8(0x2006, 0xff);
    nes.write_u8(0x2006, 0x56);
    assert!(!nes.ppu.scroll_addr_latch);
    assert_eq!(nes.ppu.addr, 0x3f56);
}

#[test]
fn palette_aliases() {
    let mut nes = console(&[]);
    for (hi, lo) in [(0x3f10u16, 0x3f00u16), (0x3f14, 0x3f04), (0x3f18, 0x3f08), (0x3f1c, 0x3f0c)] {
        nes.write_ppu_u8(hi, (hi & 0xff) as u8 + 1);
        assert_eq!(nes.read_ppu_u8(lo), (hi & 0xff) as u8 + 1);
        assert_eq!(nes.read_ppu_u8(hi), nes.read_ppu_u8(lo));
    }
    nes.write_ppu_u8(0x3f05, 0x2a);
    assert_eq!(nes.read_ppu_u8(0x3f25), 0x2a);
    assert_eq!(nes.read_ppu_u8(0x3fe5), 0x2a);
}

#[test]
fn ppudata_reads_are_buffered_and_increment() {
    let mut nes = console(&[]);
    nes.write_u8(0x2006, 0x20);
    nes.write_u8(0x2006, 0x00);
    nes.write_u8(0x2007, 0xab);
    nes.write_u8(0x2007, 0xcd);
    assert_eq!(nes.ppu.addr, 0x2002);
    nes.write_u8(0x2006, 0x20);
    nes.write_u8(0x2006, 0x00);
    let _stale = nes.read_u8(0x2007);
    assert_eq!(nes.read_u8(0x2007), 0xab);
    assert_eq!(nes.read_u8(0x2007), 0xcd);
    // increment by 32
    nes.write_u8(0x2000, 0x04);
    nes.write_u8(0x2006, 0x21);
    nes.write_u8(0x2006, 0x00);
    nes.write_u8(0x200f, 0x11);
    assert_eq!(nes.ppu.addr, 0x2120);
    // palette reads are immediate
    nes.write_ppu_u8(0x3f01, 0x2c);
    nes.write_u8(0x2006, 0x3f);
    nes.write_u8(0x2006, 0x01);
    assert_eq!(nes.read_u8(0x2007), 0x2c);
}

#[test]
fn nametable_mirroring_horizontal() {
    let mut nes = console(&[]);
    nes.write_ppu_u8(0x2005, 0x99);
    assert_eq!(nes.read_ppu_u8(0x2405), 0x99);
    assert_eq!(nes.read_ppu_u8(0x2805), 0x00);
    assert_eq!(nes.read_ppu_u8(0x3005), 0x99);
}

#[test]
fn chr_rom_is_read_only() {
    let mut nes = console(&[]);
    assert_eq!(nes.read_ppu_u8(0x0007), 7);
    nes.write_ppu_u8(0x0007, 0xee);
    assert_eq!(nes.read_ppu_u8(0x0007), 7);
}

#[test]
fn chr_ram_is_writable() {
    let rom = Rom::from_bytes(&image(1, 0, 0, 0, &[])).unwrap();
    let mut nes = Nes::new(rom).unwrap();
    nes.write_ppu_u8(0x1234, 0xee);
    assert_eq!(nes.read_ppu_u8(0x1234), 0xee);
}

#[test]
fn oam_dma_copies_with_wrap() {
    let mut nes = console(&[]);
    for i in 0..256u16 {
        nes.write_u8(0x0200 + i, i as u8);
    }
    nes.write_u8(0x2003, 0x10);
    nes.write_u8(0x4014, 0x02);
    assert_eq!(nes.ppu.oam[0x10], 0x00);
    assert_eq!(nes.ppu.oam[0xff], 0xef);
    assert_eq!(nes.ppu.oam[0x00], 0xf0);
    assert_eq!(nes.ppu.oam[0x0f], 0xff);
    nes.write_u8(0x2003, 0x00);
    nes.write_u8(0x2004, 0x42);
    assert_eq!(nes.ppu.oam[0], 0x42);
    assert_eq!(nes.ppu.oam_addr, 1);
}

fn pressed(a: bool, b: bool, select: bool, start: bool) -> InputState {
    let mut j = JoypadState::default();
    j.a = a;
    j.b = b;
    j.select = select;
    j.start = start;
    InputState { joypad_1: j, joypad_2: JoypadState::default() }
}

#[test]
fn input_strobe_shifts_start() {
    let mut nes = console(&[]);
    nes.set_input_state(pressed(false, false, false, true));
    nes.write_u8(0x4016, 1);
    nes.write_u8(0x4016, 0);
    let reads: Vec<u8> = (0..8).map(|_| nes.read_u8(0x4016) & 1).collect();
    assert_eq!(reads, vec![0, 0, 0, 1, 0, 0, 0, 0]);
}

#[test]
fn input_strobe_shifts_all_then_ones() {
    let mut nes = console(&[]);
    nes.set_input_state(pressed(true, false, false, true));
    nes.write_u8(0x4016, 1);
    nes.write_u8(0x4016, 0);
    nes.set_input_state(pressed(false, true, true, false));
    let reads: Vec<u8> = (0..8).map(|_| nes.read_u8(0x4016) & 1).collect();
    assert_eq!(reads, vec![1, 0, 0, 1, 0, 0, 0, 0]);
    for _ in 0..300 {
        assert_eq!(nes.read_u8(0x4016), 1);
    }
}

#[test]
fn input_live_reads_current_a() {
    let mut nes = console(&[]);
    nes.write_u8(0x4016, 1);
    nes.set_input_state(pressed(true, false, false, false));
    assert_eq!(nes.read_u8(0x4016), 1);
    assert_eq!(nes.read_u8(0x4016), 1);
    nes.set_input_state(pressed(false, true, false, false));
    assert_eq!(nes.read_u8(0x4016), 0);
}

#[test]
fn stepper_keeps_one_to_three_and_finds_vblank() {
    // NOP; NOP; JMP $8000
    let mut nes = console(&[0xea, 0xea, 0x4c, 0x00, 0x80]);
    let mut run = nes.run();
    let mut cpu_cycles: u64 = 0;
    let mut ppu_cycles: u64 = 0;
    loop {
        match run.next_step(&mut nes).unwrap() {
            NesStep::Cpu(_) => {
                assert_eq!(ppu_cycles, 3 * cpu_cycles);
                cpu_cycles += 1;
            }
            NesStep::Ppu(PpuStep::Cycle) => {
                ppu_cycles += 1;
                assert!(ppu_cycles <= 3 * cpu_cycles);
            }
            NesStep::Ppu(PpuStep::Vblank) => break,
        }
    }
    assert_eq!(ppu_cycles, 82182);
    assert_eq!(ppu_cycles, 3 * 27394);
    assert_eq!(cpu_cycles, 27395);
    assert_eq!(nes.ppu.status & 0x80, 0x80);
    assert_eq!(run.next_step(&mut nes).unwrap(), NesStep::Ppu(PpuStep::Cycle));
}

#[test]
fn vblank_with_nmi_enabled_enters_handler() {
    // LDA #$80; STA $2000; JMP $8005
    let mut nes = console(&[0xa9, 0x80, 0x8d, 0x00, 0x20, 0x4c, 0x05, 0x80]);
    let mut run = nes.run();
    loop {
        if run.next_step(&mut nes).unwrap() == NesStep::Ppu(PpuStep::Vblank) {
            break;
        }
    }
    let mut nmi = None;
    for _ in 0..8 {
        if let NesStep::Cpu(s) = run.next_step(&mut nes).unwrap() {
            nmi = Some(s);
            break;
        }
    }
    assert_eq!(nmi, Some(CpuStep::Nmi { pc: 0x8005 }));
    assert_eq!(nes.cpu.pc, 0x9000);
    assert_eq!(nes.read_u8(0x01fb) & 0x30, 0x20);
}

#[test]
fn empty_prg_is_a_rom_format_error() {
    let rom = Rom {
        header: Rom::from_bytes(&image(1, 0, 0, 0, &[])).unwrap().header,
        prg_rom: vec![],
        chr_rom: vec![],
    };
    match Nes::new(rom) {
        Err(e) => assert_eq!(e, NesError::RomFormat(RomError::NoPrgRom)),
        Ok(_) => panic!("a cartridge without PRG-ROM must be refused"),
    }
}

#[test]
fn nametable_mirroring_vertical_and_four_screen() {
    let rom = Rom::from_bytes(&image(1, 1, 0x01, 0, &[])).unwrap();
    let mut nes = Nes::new(rom).unwrap();
    nes.write_ppu_u8(0x2010, 0x55);
    assert_eq!(nes.read_ppu_u8(0x2810), 0x55);
    assert_eq!(nes.read_ppu_u8(0x2410), 0x00);
    let rom = Rom::from_bytes(&image(1, 1, 0x08, 0, &[])).unwrap();
    let mut nes = Nes::new(rom).unwrap();
    nes.write_ppu_u8(0x2c10, 0x66);
    assert_eq!(nes.read_ppu_u8(0x2c10), 0x66);
    assert_eq!(nes.read_ppu_u8(0x2010), 0x00);
    assert_eq!(nes.read_ppu_u8(0x2410), 0x00);
    assert_eq!(nes.read_ppu_u8(0x2810), 0x00);
}

#[test]
fn transfers_and_pulls() {
    // LDX #$80; TXA; PHA; LDA #$00; PLA; TAY; INY; DEX
    let mut nes = console(&[0xa2, 0x80, 0x8a, 0x48, 0xa9, 0x00, 0x68, 0xa8, 0xc8, 0xca]);
    for _ in 0..8 {
        step(&mut nes);
    }
    assert_eq!(nes.cpu.a, 0x80);
    assert_eq!(nes.cpu.y, 0x81);
    assert_eq!(nes.cpu.x, 0x7f);
    assert_eq!(nes.cpu.s, 0xfd);
    assert_eq!(nes.cpu.p & 0x80, 0);
}

#[test]
fn plp_keeps_b_and_u() {
    // LDA #$FF; PHA; PLP
    let mut nes = console(&[0xa9, 0xff, 0x48, 0x28]);
    nes.cpu.p = 0x24;
    step(&mut nes);
    step(&mut nes);
    step(&mut nes);
    assert_eq!(nes.cpu.p, 0xef);
}

#[test]
fn unrouted_read_is_reported_by_the_next_step() {
    let mut nes = console(&[0xea]);
    assert_eq!(nes.fault, None);
    assert_eq!(nes.read_u8(0x4018), 0);
    assert_eq!(nes.fault, Some(NesError::UnimplementedAddress { addr: 0x4018, access: Access::Read }));
    nes.read_u8(0x5000);
    assert_eq!(nes.fault, Some(NesError::UnimplementedAddress { addr: 0x4018, access: Access::Read }));
    assert_eq!(Cpu::step(&mut nes), Err(NesError::UnimplementedAddress { addr: 0x4018, access: Access::Read }));
    assert_eq!(nes.cpu.pc, 0x8000);
}

#[test]
fn unrouted_write_in_an_instruction_fails_the_step() {
    // STA $2002
    let mut nes = console(&[0x8d, 0x02, 0x20]);
    assert_eq!(Cpu::step(&mut nes), Err(NesError::UnimplementedAddress { addr: 0x2002, access: Access::Write }));
    let mut nes = console(&[]);
    nes.write_u8(0x4019, 1);
    assert_eq!(nes.fault, Some(NesError::UnimplementedAddress { addr: 0x4019, access: Access::Write }));
}

#[test]
fn routed_accesses_record_no_fault() {
    let mut nes = console(&[]);
    for addr in [0x0000u16, 0x1fff, 0x2002, 0x2007, 0x4000, 0x4013, 0x4015, 0x4016, 0x4017, 0x6000, 0xffff] {
        nes.read_u8(addr);
    }
    for addr in [0x0000u16, 0x2000, 0x2003, 0x4000, 0x4015, 0x4017, 0x6000, 0x8000] {
        nes.write_u8(addr, 0);
    }
    assert_eq!(nes.fault, None);
}

#[test]
fn vblank_comes_once_per_frame() {
    let mut nes = console(&[0xea, 0xea, 0x4c, 0x00, 0x80]);
    let mut run = nes.run();
    let mut ppu_cycles: u64 = 0;
    let mut vblanks: Vec<u64> = vec![];
    while vblanks.len() < 2 {
        match run.next_step(&mut nes).unwrap() {
            NesStep::Ppu(PpuStep::Cycle) => ppu_cycles += 1,
            NesStep::Ppu(PpuStep::Vblank) => vblanks.push(ppu_cycles),
            NesStep::Cpu(_) => {}
        }
    }
    assert_eq!(vblanks, vec![82182, 82182 + 89342]);
}
