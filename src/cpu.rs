use vstd::prelude::*;
use crate::error::NesError;
use crate::ppu::Ppu;
use crate::nes::{after_cpu_read, cpu_read_value, lemma_read_frame, s_after_pop, s_after_push, stack_addr, write_effect, Nes};

verus! {

/// The CPU's registers. Flags in `p`: C(0), Z(1), I(2), D(3), B(4), U(5),
/// V(6), N(7).
#[derive(Clone, Copy, Debug, PartialEq, Eq, Structural)]
pub struct Cpu {
    pub pc: u16,
    pub a: u8,
    pub x: u8,
    pub y: u8,
    pub s: u8,
    pub p: u8,
}

impl Cpu {
    /// The registers after reset, before the reset vector is read.
    pub fn new() -> (r: Cpu)
        ensures
            r == (Cpu { pc: 0, a: 0, x: 0, y: 0, s: 0xfd, p: 0x34 }),
    {
        Cpu { pc: 0, a: 0, x: 0, y: 0, s: 0xfd, p: 0x34 }
    }
}


pub const FLAG_C: u8 = 0x01;
pub const FLAG_Z: u8 = 0x02;
pub const FLAG_I: u8 = 0x04;
pub const FLAG_D: u8 = 0x08;
pub const FLAG_B: u8 = 0x10;
pub const FLAG_U: u8 = 0x20;
pub const FLAG_V: u8 = 0x40;
pub const FLAG_N: u8 = 0x80;

/// The documented instructions of the 6502.
#[derive(Clone, Copy, Debug, PartialEq, Eq, Structural)]
pub enum Instruction {
    Adc, And, Asl, Bcc, Bcs, Beq, Bmi, Bne, Bpl, Bvc, Bvs, Bit, Brk, Clc, Cld, Cli, Clv, Cmp,
    Cpx, Cpy, Dec, Dex, Dey, Eor, Inc, Inx, Iny, Jmp, Jsr, Lda, Ldx, Ldy, Lsr, Nop, Ora, Pha,
    Php, Pla, Plp, Rol, Ror, Rti, Rts, Sbc, Sec, Sed, Sei, Sta, Stx, Sty, Tax, Tay, Tsx, Txa,
    Txs, Tya,
}

#[derive(Clone, Copy, Debug, PartialEq, Eq, Structural)]
pub enum AddrMode {
    Implied,
    Accumulator,
    Immediate,
    ZeroPage,
    ZeroPageX,
    ZeroPageY,
    Absolute,
    AbsoluteX,
    AbsoluteY,
    Indirect,
    IndirectX,
    IndirectY,
    Relative,
}

/// A decoded opcode byte.
#[derive(Clone, Copy, Debug, PartialEq, Eq, Structural)]
pub struct Opcode {
    pub instruction: Instruction,
    pub mode: AddrMode,
}

/// The opcode table: the 151 documented opcodes.
pub open spec fn decode(byte: u8) -> Option<Opcode> {
    match byte {
        0x00 => Some(Opcode { instruction: Instruction::Brk, mode: AddrMode::Implied }),
        0x01 => Some(Opcode { instruction: Instruction::Ora, mode: AddrMode::IndirectX }),
        0x05 => Some(Opcode { instruction: Instruction::Ora, mode: AddrMode::ZeroPage }),
        0x06 => Some(Opcode { instruction: Instruction::Asl, mode: AddrMode::ZeroPage }),
        0x08 => Some(Opcode { instruction: Instruction::Php, mode: AddrMode::Implied }),
        0x09 => Some(Opcode { instruction: Instruction::Ora, mode: AddrMode::Immediate }),
        0x0a => Some(Opcode { instruction: Instruction::Asl, mode: AddrMode::Accumulator }),
        0x0d => Some(Opcode { instruction: Instruction::Ora, mode: AddrMode::Absolute }),
        0x0e => Some(Opcode { instruction: Instruction::Asl, mode: AddrMode::Absolute }),
        0x10 => Some(Opcode { instruction: Instruction::Bpl, mode: AddrMode::Relative }),
        0x11 => Some(Opcode { instruction: Instruction::Ora, mode: AddrMode::IndirectY }),
        0x15 => Some(Opcode { instruction: Instruction::Ora, mode: AddrMode::ZeroPageX }),
        0x16 => Some(Opcode { instruction: Instruction::Asl, mode: AddrMode::ZeroPageX }),
        0x18 => Some(Opcode { instruction: Instruction::Clc, mode: AddrMode::Implied }),
        0x19 => Some(Opcode { instruction: Instruction::Ora, mode: AddrMode::AbsoluteY }),
        0x1d => Some(Opcode { instruction: Instruction::Ora, mode: AddrMode::AbsoluteX }),
        0x1e => Some(Opcode { instruction: Instruction::Asl, mode: AddrMode::AbsoluteX }),
        0x20 => Some(Opcode { instruction: Instruction::Jsr, mode: AddrMode::Absolute }),
        0x21 => Some(Opcode { instruction: Instruction::And, mode: AddrMode::IndirectX }),
        0x24 => Some(Opcode { instruction: Instruction::Bit, mode: AddrMode::ZeroPage }),
        0x25 => Some(Opcode { instruction: Instruction::And, mode: AddrMode::ZeroPage }),
        0x26 => Some(Opcode { instruction: Instruction::Rol, mode: AddrMode::ZeroPage }),
        0x28 => Some(Opcode { instruction: Instruction::Plp, mode: AddrMode::Implied }),
        0x29 => Some(Opcode { instruction: Instruction::And, mode: AddrMode::Immediate }),
        0x2a => Some(Opcode { instruction: Instruction::Rol, mode: AddrMode::Accumulator }),
        0x2c => Some(Opcode { instruction: Instruction::Bit, mode: AddrMode::Absolute }),
        0x2d => Some(Opcode { instruction: Instruction::And, mode: AddrMode::Absolute }),
        0x2e => Some(Opcode { instruction: Instruction::Rol, mode: AddrMode::Absolute }),
        0x30 => Some(Opcode { instruction: Instruction::Bmi, mode: AddrMode::Relative }),
        0x31 => Some(Opcode { instruction: Instruction::And, mode: AddrMode::IndirectY }),
        0x35 => Some(Opcode { instruction: Instruction::And, mode: AddrMode::ZeroPageX }),
        0x36 => Some(Opcode { instruction: Instruction::Rol, mode: AddrMode::ZeroPageX }),
        0x38 => Some(Opcode { instruction: Instruction::Sec, mode: AddrMode::Implied }),
        0x39 => Some(Opcode { instruction: Instruction::And, mode: AddrMode::AbsoluteY }),
        0x3d => Some(Opcode { instruction: Instruction::And, mode: AddrMode::AbsoluteX }),
        0x3e => Some(Opcode { instruction: Instruction::Rol, mode: AddrMode::AbsoluteX }),
        0x40 => Some(Opcode { instruction: Instruction::Rti, mode: AddrMode::Implied }),
        0x41 => Some(Opcode { instruction: Instruction::Eor, mode: AddrMode::IndirectX }),
        0x45 => Some(Opcode { instruction: Instruction::Eor, mode: AddrMode::ZeroPage }),
        0x46 => Some(Opcode { instruction: Instruction::Lsr, mode: AddrMode::ZeroPage }),
        0x48 => Some(Opcode { instruction: Instruction::Pha, mode: AddrMode::Implied }),
        0x49 => Some(Opcode { instruction: Instruction::Eor, mode: AddrMode::Immediate }),
        0x4a => Some(Opcode { instruction: Instruction::Lsr, mode: AddrMode::Accumulator }),
        0x4c => Some(Opcode { instruction: Instruction::Jmp, mode: AddrMode::Absolute }),
        0x4d => Some(Opcode { instruction: Instruction::Eor, mode: AddrMode::Absolute }),
        0x4e => Some(Opcode { instruction: Instruction::Lsr, mode: AddrMode::Absolute }),
        0x50 => Some(Opcode { instruction: Instruction::Bvc, mode: AddrMode::Relative }),
        0x51 => Some(Opcode { instruction: Instruction::Eor, mode: AddrMode::IndirectY }),
        0x55 => Some(Opcode { instruction: Instruction::Eor, mode: AddrMode::ZeroPageX }),
        0x56 => Some(Opcode { instruction: Instruction::Lsr, mode: AddrMode::ZeroPageX }),
        0x58 => Some(Opcode { instruction: Instruction::Cli, mode: AddrMode::Implied }),
        0x59 => Some(Opcode { instruction: Instruction::Eor, mode: AddrMode::AbsoluteY }),
        0x5d => Some(Opcode { instruction: Instruction::Eor, mode: AddrMode::AbsoluteX }),
        0x5e => Some(Opcode { instruction: Instruction::Lsr, mode: AddrMode::AbsoluteX }),
        0x60 => Some(Opcode { instruction: Instruction::Rts, mode: AddrMode::Implied }),
        0x61 => Some(Opcode { instruction: Instruction::Adc, mode: AddrMode::IndirectX }),
        0x65 => Some(Opcode { instruction: Instruction::Adc, mode: AddrMode::ZeroPage }),
        0x66 => Some(Opcode { instruction: Instruction::Ror, mode: AddrMode::ZeroPage }),
        0x68 => Some(Opcode { instruction: Instruction::Pla, mode: AddrMode::Implied }),
        0x69 => Some(Opcode { instruction: Instruction::Adc, mode: AddrMode::Immediate }),
        0x6a => Some(Opcode { instruction: Instruction::Ror, mode: AddrMode::Accumulator }),
        0x6c => Some(Opcode { instruction: Instruction::Jmp, mode: AddrMode::Indirect }),
        0x6d => Some(Opcode { instruction: Instruction::Adc, mode: AddrMode::Absolute }),
        0x6e => Some(Opcode { instruction: Instruction::Ror, mode: AddrMode::Absolute }),
        0x70 => Some(Opcode { instruction: Instruction::Bvs, mode: AddrMode::Relative }),
        0x71 => Some(Opcode { instruction: Instruction::Adc, mode: AddrMode::IndirectY }),
        0x75 => Some(Opcode { instruction: Instruction::Adc, mode: AddrMode::ZeroPageX }),
        0x76 => Some(Opcode { instruction: Instruction::Ror, mode: AddrMode::ZeroPageX }),
        0x78 => Some(Opcode { instruction: Instruction::Sei, mode: AddrMode::Implied }),
        0x79 => Some(Opcode { instruction: Instruction::Adc, mode: AddrMode::AbsoluteY }),
        0x7d => Some(Opcode { instruction: Instruction::Adc, mode: AddrMode::AbsoluteX }),
        0x7e => Some(Opcode { instruction: Instruction::Ror, mode: AddrMode::AbsoluteX }),
        0x81 => Some(Opcode { instruction: Instruction::Sta, mode: AddrMode::IndirectX }),
        0x84 => Some(Opcode { instruction: Instruction::Sty, mode: AddrMode::ZeroPage }),
        0x85 => Some(Opcode { instruction: Instruction::Sta, mode: AddrMode::ZeroPage }),
        0x86 => Some(Opcode { instruction: Instruction::Stx, mode: AddrMode::ZeroPage }),
        0x88 => Some(Opcode { instruction: Instruction::Dey, mode: AddrMode::Implied }),
        0x8a => Some(Opcode { instruction: Instruction::Txa, mode: AddrMode::Implied }),
        0x8c => Some(Opcode { instruction: Instruction::Sty, mode: AddrMode::Absolute }),
        0x8d => Some(Opcode { instruction: Instruction::Sta, mode: AddrMode::Absolute }),
        0x8e => Some(Opcode { instruction: Instruction::Stx, mode: AddrMode::Absolute }),
        0x90 => Some(Opcode { instruction: Instruction::Bcc, mode: AddrMode::Relative }),
        0x91 => Some(Opcode { instruction: Instruction::Sta, mode: AddrMode::IndirectY }),
        0x94 => Some(Opcode { instruction: Instruction::Sty, mode: AddrMode::ZeroPageX }),
        0x95 => Some(Opcode { instruction: Instruction::Sta, mode: AddrMode::ZeroPageX }),
        0x96 => Some(Opcode { instruction: Instruction::Stx, mode: AddrMode::ZeroPageY }),
        0x98 => Some(Opcode { instruction: Instruction::Tya, mode: AddrMode::Implied }),
        0x99 => Some(Opcode { instruction: Instruction::Sta, mode: AddrMode::AbsoluteY }),
        0x9a => Some(Opcode { instruction: Instruction::Txs, mode: AddrMode::Implied }),
        0x9d => Some(Opcode { instruction: Instruction::Sta, mode: AddrMode::AbsoluteX }),
        0xa0 => Some(Opcode { instruction: Instruction::Ldy, mode: AddrMode::Immediate }),
        0xa1 => Some(Opcode { instruction: Instruction::Lda, mode: AddrMode::IndirectX }),
        0xa2 => Some(Opcode { instruction: Instruction::Ldx, mode: AddrMode::Immediate }),
        0xa4 => Some(Opcode { instruction: Instruction::Ldy, mode: AddrMode::ZeroPage }),
        0xa5 => Some(Opcode { instruction: Instruction::Lda, mode: AddrMode::ZeroPage }),
        0xa6 => Some(Opcode { instruction: Instruction::Ldx, mode: AddrMode::ZeroPage }),
        0xa8 => Some(Opcode { instruction: Instruction::Tay, mode: AddrMode::Implied }),
        0xa9 => Some(Opcode { instruction: Instruction::Lda, mode: AddrMode::Immediate }),
        0xaa => Some(Opcode { instruction: Instruction::Tax, mode: AddrMode::Implied }),
        0xac => Some(Opcode { instruction: Instruction::Ldy, mode: AddrMode::Absolute }),
        0xad => Some(Opcode { instruction: Instruction::Lda, mode: AddrMode::Absolute }),
        0xae => Some(Opcode { instruction: Instruction::Ldx, mode: AddrMode::Absolute }),
        0xb0 => Some(Opcode { instruction: Instruction::Bcs, mode: AddrMode::Relative }),
        0xb1 => Some(Opcode { instruction: Instruction::Lda, mode: AddrMode::IndirectY }),
        0xb4 => Some(Opcode { instruction: Instruction::Ldy, mode: AddrMode::ZeroPageX }),
        0xb5 => Some(Opcode { instruction: Instruction::Lda, mode: AddrMode::ZeroPageX }),
        0xb6 => Some(Opcode { instruction: Instruction::Ldx, mode: AddrMode::ZeroPageY }),
        0xb8 => Some(Opcode { instruction: Instruction::Clv, mode: AddrMode::Implied }),
        0xb9 => Some(Opcode { instruction: Instruction::Lda, mode: AddrMode::AbsoluteY }),
        0xba => Some(Opcode { instruction: Instruction::Tsx, mode: AddrMode::Implied }),
        0xbc => Some(Opcode { instruction: Instruction::Ldy, mode: AddrMode::AbsoluteX }),
        0xbd => Some(Opcode { instruction: Instruction::Lda, mode: AddrMode::AbsoluteX }),
        0xbe => Some(Opcode { instruction: Instruction::Ldx, mode: AddrMode::AbsoluteY }),
        0xc0 => Some(Opcode { instruction: Instruction::Cpy, mode: AddrMode::Immediate }),
        0xc1 => Some(Opcode { instruction: Instruction::Cmp, mode: AddrMode::IndirectX }),
        0xc4 => Some(Opcode { instruction: Instruction::Cpy, mode: AddrMode::ZeroPage }),
        0xc5 => Some(Opcode { instruction: Instruction::Cmp, mode: AddrMode::ZeroPage }),
        0xc6 => Some(Opcode { instruction: Instruction::Dec, mode: AddrMode::ZeroPage }),
        0xc8 => Some(Opcode { instruction: Instruction::Iny, mode: AddrMode::Implied }),
        0xc9 => Some(Opcode { instruction: Instruction::Cmp, mode: AddrMode::Immediate }),
        0xca => Some(Opcode { instruction: Instruction::Dex, mode: AddrMode::Implied }),
        0xcc => Some(Opcode { instruction: Instruction::Cpy, mode: AddrMode::Absolute }),
        0xcd => Some(Opcode { instruction: Instruction::Cmp, mode: AddrMode::Absolute }),
        0xce => Some(Opcode { instruction: Instruction::Dec, mode: AddrMode::Absolute }),
        0xd0 => Some(Opcode { instruction: Instruction::Bne, mode: AddrMode::Relative }),
        0xd1 => Some(Opcode { instruction: Instruction::Cmp, mode: AddrMode::IndirectY }),
        0xd5 => Some(Opcode { instruction: Instruction::Cmp, mode: AddrMode::ZeroPageX }),
        0xd6 => Some(Opcode { instruction: Instruction::Dec, mode: AddrMode::ZeroPageX }),
        0xd8 => Some(Opcode { instruction: Instruction::Cld, mode: AddrMode::Implied }),
        0xd9 => Some(Opcode { instruction: Instruction::Cmp, mode: AddrMode::AbsoluteY }),
        0xdd => Some(Opcode { instruction: Instruction::Cmp, mode: AddrMode::AbsoluteX }),
        0xde => Some(Opcode { instruction: Instruction::Dec, mode: AddrMode::AbsoluteX }),
        0xe0 => Some(Opcode { instruction: Instruction::Cpx, mode: AddrMode::Immediate }),
        0xe1 => Some(Opcode { instruction: Instruction::Sbc, mode: AddrMode::IndirectX }),
        0xe4 => Some(Opcode { instruction: Instruction::Cpx, mode: AddrMode::ZeroPage }),
        0xe5 => Some(Opcode { instruction: Instruction::Sbc, mode: AddrMode::ZeroPage }),
        0xe6 => Some(Opcode { instruction: Instruction::Inc, mode: AddrMode::ZeroPage }),
        0xe8 => Some(Opcode { instruction: Instruction::Inx, mode: AddrMode::Implied }),
        0xe9 => Some(Opcode { instruction: Instruction::Sbc, mode: AddrMode::Immediate }),
        0xea => Some(Opcode { instruction: Instruction::Nop, mode: AddrMode::Implied }),
        0xec => Some(Opcode { instruction: Instruction::Cpx, mode: AddrMode::Absolute }),
        0xed => Some(Opcode { instruction: Instruction::Sbc, mode: AddrMode::Absolute }),
        0xee => Some(Opcode { instruction: Instruction::Inc, mode: AddrMode::Absolute }),
        0xf0 => Some(Opcode { instruction: Instruction::Beq, mode: AddrMode::Relative }),
        0xf1 => Some(Opcode { instruction: Instruction::Sbc, mode: AddrMode::IndirectY }),
        0xf5 => Some(Opcode { instruction: Instruction::Sbc, mode: AddrMode::ZeroPageX }),
        0xf6 => Some(Opcode { instruction: Instruction::Inc, mode: AddrMode::ZeroPageX }),
        0xf8 => Some(Opcode { instruction: Instruction::Sed, mode: AddrMode::Implied }),
        0xf9 => Some(Opcode { instruction: Instruction::Sbc, mode: AddrMode::AbsoluteY }),
        0xfd => Some(Opcode { instruction: Instruction::Sbc, mode: AddrMode::AbsoluteX }),
        0xfe => Some(Opcode { instruction: Instruction::Inc, mode: AddrMode::AbsoluteX }),
        _ => None,
    }
}

/// Decodes an opcode byte.
pub fn decode_opcode(byte: u8) -> (r: Option<Opcode>)
    ensures
        r == decode(byte),
{
    match byte {
        0x00 => Some(Opcode { instruction: Instruction::Brk, mode: AddrMode::Implied }),
        0x01 => Some(Opcode { instruction: Instruction::Ora, mode: AddrMode::IndirectX }),
        0x05 => Some(Opcode { instruction: Instruction::Ora, mode: AddrMode::ZeroPage }),
        0x06 => Some(Opcode { instruction: Instruction::Asl, mode: AddrMode::ZeroPage }),
        0x08 => Some(Opcode { instruction: Instruction::Php, mode: AddrMode::Implied }),
        0x09 => Some(Opcode { instruction: Instruction::Ora, mode: AddrMode::Immediate }),
        0x0a => Some(Opcode { instruction: Instruction::Asl, mode: AddrMode::Accumulator }),
        0x0d => Some(Opcode { instruction: Instruction::Ora, mode: AddrMode::Absolute }),
        0x0e => Some(Opcode { instruction: Instruction::Asl, mode: AddrMode::Absolute }),
        0x10 => Some(Opcode { instruction: Instruction::Bpl, mode: AddrMode::Relative }),
        0x11 => Some(Opcode { instruction: Instruction::Ora, mode: AddrMode::IndirectY }),
        0x15 => Some(Opcode { instruction: Instruction::Ora, mode: AddrMode::ZeroPageX }),
        0x16 => Some(Opcode { instruction: Instruction::Asl, mode: AddrMode::ZeroPageX }),
        0x18 => Some(Opcode { instruction: Instruction::Clc, mode: AddrMode::Implied }),
        0x19 => Some(Opcode { instruction: Instruction::Ora, mode: AddrMode::AbsoluteY }),
        0x1d => Some(Opcode { instruction: Instruction::Ora, mode: AddrMode::AbsoluteX }),
        0x1e => Some(Opcode { instruction: Instruction::Asl, mode: AddrMode::AbsoluteX }),
        0x20 => Some(Opcode { instruction: Instruction::Jsr, mode: AddrMode::Absolute }),
        0x21 => Some(Opcode { instruction: Instruction::And, mode: AddrMode::IndirectX }),
        0x24 => Some(Opcode { instruction: Instruction::Bit, mode: AddrMode::ZeroPage }),
        0x25 => Some(Opcode { instruction: Instruction::And, mode: AddrMode::ZeroPage }),
        0x26 => Some(Opcode { instruction: Instruction::Rol, mode: AddrMode::ZeroPage }),
        0x28 => Some(Opcode { instruction: Instruction::Plp, mode: AddrMode::Implied }),
        0x29 => Some(Opcode { instruction: Instruction::And, mode: AddrMode::Immediate }),
        0x2a => Some(Opcode { instruction: Instruction::Rol, mode: AddrMode::Accumulator }),
        0x2c => Some(Opcode { instruction: Instruction::Bit, mode: AddrMode::Absolute }),
        0x2d => Some(Opcode { instruction: Instruction::And, mode: AddrMode::Absolute }),
        0x2e => Some(Opcode { instruction: Instruction::Rol, mode: AddrMode::Absolute }),
        0x30 => Some(Opcode { instruction: Instruction::Bmi, mode: AddrMode::Relative }),
        0x31 => Some(Opcode { instruction: Instruction::And, mode: AddrMode::IndirectY }),
        0x35 => Some(Opcode { instruction: Instruction::And, mode: AddrMode::ZeroPageX }),
        0x36 => Some(Opcode { instruction: Instruction::Rol, mode: AddrMode::ZeroPageX }),
        0x38 => Some(Opcode { instruction: Instruction::Sec, mode: AddrMode::Implied }),
        0x39 => Some(Opcode { instruction: Instruction::And, mode: AddrMode::AbsoluteY }),
        0x3d => Some(Opcode { instruction: Instruction::And, mode: AddrMode::AbsoluteX }),
        0x3e => Some(Opcode { instruction: Instruction::Rol, mode: AddrMode::AbsoluteX }),
        0x40 => Some(Opcode { instruction: Instruction::Rti, mode: AddrMode::Implied }),
        0x41 => Some(Opcode { instruction: Instruction::Eor, mode: AddrMode::IndirectX }),
        0x45 => Some(Opcode { instruction: Instruction::Eor, mode: AddrMode::ZeroPage }),
        0x46 => Some(Opcode { instruction: Instruction::Lsr, mode: AddrMode::ZeroPage }),
        0x48 => Some(Opcode { instruction: Instruction::Pha, mode: AddrMode::Implied }),
        0x49 => Some(Opcode { instruction: Instruction::Eor, mode: AddrMode::Immediate }),
        0x4a => Some(Opcode { instruction: Instruction::Lsr, mode: AddrMode::Accumulator }),
        0x4c => Some(Opcode { instruction: Instruction::Jmp, mode: AddrMode::Absolute }),
        0x4d => Some(Opcode { instruction: Instruction::Eor, mode: AddrMode::Absolute }),
        0x4e => Some(Opcode { instruction: Instruction::Lsr, mode: AddrMode::Absolute }),
        0x50 => Some(Opcode { instruction: Instruction::Bvc, mode: AddrMode::Relative }),
        0x51 => Some(Opcode { instruction: Instruction::Eor, mode: AddrMode::IndirectY }),
        0x55 => Some(Opcode { instruction: Instruction::Eor, mode: AddrMode::ZeroPageX }),
        0x56 => Some(Opcode { instruction: Instruction::Lsr, mode: AddrMode::ZeroPageX }),
        0x58 => Some(Opcode { instruction: Instruction::Cli, mode: AddrMode::Implied }),
        0x59 => Some(Opcode { instruction: Instruction::Eor, mode: AddrMode::AbsoluteY }),
        0x5d => Some(Opcode { instruction: Instruction::Eor, mode: AddrMode::AbsoluteX }),
        0x5e => Some(Opcode { instruction: Instruction::Lsr, mode: AddrMode::AbsoluteX }),
        0x60 => Some(Opcode { instruction: Instruction::Rts, mode: AddrMode::Implied }),
        0x61 => Some(Opcode { instruction: Instruction::Adc, mode: AddrMode::IndirectX }),
        0x65 => Some(Opcode { instruction: Instruction::Adc, mode: AddrMode::ZeroPage }),
        0x66 => Some(Opcode { instruction: Instruction::Ror, mode: AddrMode::ZeroPage }),
        0x68 => Some(Opcode { instruction: Instruction::Pla, mode: AddrMode::Implied }),
        0x69 => Some(Opcode { instruction: Instruction::Adc, mode: AddrMode::Immediate }),
        0x6a => Some(Opcode { instruction: Instruction::Ror, mode: AddrMode::Accumulator }),
        0x6c => Some(Opcode { instruction: Instruction::Jmp, mode: AddrMode::Indirect }),
        0x6d => Some(Opcode { instruction: Instruction::Adc, mode: AddrMode::Absolute }),
        0x6e => Some(Opcode { instruction: Instruction::Ror, mode: AddrMode::Absolute }),
        0x70 => Some(Opcode { instruction: Instruction::Bvs, mode: AddrMode::Relative }),
        0x71 => Some(Opcode { instruction: Instruction::Adc, mode: AddrMode::IndirectY }),
        0x75 => Some(Opcode { instruction: Instruction::Adc, mode: AddrMode::ZeroPageX }),
        0x76 => Some(Opcode { instruction: Instruction::Ror, mode: AddrMode::ZeroPageX }),
        0x78 => Some(Opcode { instruction: Instruction::Sei, mode: AddrMode::Implied }),
        0x79 => Some(Opcode { instruction: Instruction::Adc, mode: AddrMode::AbsoluteY }),
        0x7d => Some(Opcode { instruction: Instruction::Adc, mode: AddrMode::AbsoluteX }),
        0x7e => Some(Opcode { instruction: Instruction::Ror, mode: AddrMode::AbsoluteX }),
        0x81 => Some(Opcode { instruction: Instruction::Sta, mode: AddrMode::IndirectX }),
        0x84 => Some(Opcode { instruction: Instruction::Sty, mode: AddrMode::ZeroPage }),
        0x85 => Some(Opcode { instruction: Instruction::Sta, mode: AddrMode::ZeroPage }),
        0x86 => Some(Opcode { instruction: Instruction::Stx, mode: AddrMode::ZeroPage }),
        0x88 => Some(Opcode { instruction: Instruction::Dey, mode: AddrMode::Implied }),
        0x8a => Some(Opcode { instruction: Instruction::Txa, mode: AddrMode::Implied }),
        0x8c => Some(Opcode { instruction: Instruction::Sty, mode: AddrMode::Absolute }),
        0x8d => Some(Opcode { instruction: Instruction::Sta, mode: AddrMode::Absolute }),
        0x8e => Some(Opcode { instruction: Instruction::Stx, mode: AddrMode::Absolute }),
        0x90 => Some(Opcode { instruction: Instruction::Bcc, mode: AddrMode::Relative }),
        0x91 => Some(Opcode { instruction: Instruction::Sta, mode: AddrMode::IndirectY }),
        0x94 => Some(Opcode { instruction: Instruction::Sty, mode: AddrMode::ZeroPageX }),
        0x95 => Some(Opcode { instruction: Instruction::Sta, mode: AddrMode::ZeroPageX }),
        0x96 => Some(Opcode { instruction: Instruction::Stx, mode: AddrMode::ZeroPageY }),
        0x98 => Some(Opcode { instruction: Instruction::Tya, mode: AddrMode::Implied }),
        0x99 => Some(Opcode { instruction: Instruction::Sta, mode: AddrMode::AbsoluteY }),
        0x9a => Some(Opcode { instruction: Instruction::Txs, mode: AddrMode::Implied }),
        0x9d => Some(Opcode { instruction: Instruction::Sta, mode: AddrMode::AbsoluteX }),
        0xa0 => Some(Opcode { instruction: Instruction::Ldy, mode: AddrMode::Immediate }),
        0xa1 => Some(Opcode { instruction: Instruction::Lda, mode: AddrMode::IndirectX }),
        0xa2 => Some(Opcode { instruction: Instruction::Ldx, mode: AddrMode::Immediate }),
        0xa4 => Some(Opcode { instruction: Instruction::Ldy, mode: AddrMode::ZeroPage }),
        0xa5 => Some(Opcode { instruction: Instruction::Lda, mode: AddrMode::ZeroPage }),
        0xa6 => Some(Opcode { instruction: Instruction::Ldx, mode: AddrMode::ZeroPage }),
        0xa8 => Some(Opcode { instruction: Instruction::Tay, mode: AddrMode::Implied }),
        0xa9 => Some(Opcode { instruction: Instruction::Lda, mode: AddrMode::Immediate }),
        0xaa => Some(Opcode { instruction: Instruction::Tax, mode: AddrMode::Implied }),
        0xac => Some(Opcode { instruction: Instruction::Ldy, mode: AddrMode::Absolute }),
        0xad => Some(Opcode { instruction: Instruction::Lda, mode: AddrMode::Absolute }),
        0xae => Some(Opcode { instruction: Instruction::Ldx, mode: AddrMode::Absolute }),
        0xb0 => Some(Opcode { instruction: Instruction::Bcs, mode: AddrMode::Relative }),
        0xb1 => Some(Opcode { instruction: Instruction::Lda, mode: AddrMode::IndirectY }),
        0xb4 => Some(Opcode { instruction: Instruction::Ldy, mode: AddrMode::ZeroPageX }),
        0xb5 => Some(Opcode { instruction: Instruction::Lda, mode: AddrMode::ZeroPageX }),
        0xb6 => Some(Opcode { instruction: Instruction::Ldx, mode: AddrMode::ZeroPageY }),
        0xb8 => Some(Opcode { instruction: Instruction::Clv, mode: AddrMode::Implied }),
        0xb9 => Some(Opcode { instruction: Instruction::Lda, mode: AddrMode::AbsoluteY }),
        0xba => Some(Opcode { instruction: Instruction::Tsx, mode: AddrMode::Implied }),
        0xbc => Some(Opcode { instruction: Instruction::Ldy, mode: AddrMode::AbsoluteX }),
        0xbd => Some(Opcode { instruction: Instruction::Lda, mode: AddrMode::AbsoluteX }),
        0xbe => Some(Opcode { instruction: Instruction::Ldx, mode: AddrMode::AbsoluteY }),
        0xc0 => Some(Opcode { instruction: Instruction::Cpy, mode: AddrMode::Immediate }),
        0xc1 => Some(Opcode { instruction: Instruction::Cmp, mode: AddrMode::IndirectX }),
        0xc4 => Some(Opcode { instruction: Instruction::Cpy, mode: AddrMode::ZeroPage }),
        0xc5 => Some(Opcode { instruction: Instruction::Cmp, mode: AddrMode::ZeroPage }),
        0xc6 => Some(Opcode { instruction: Instruction::Dec, mode: AddrMode::ZeroPage }),
        0xc8 => Some(Opcode { instruction: Instruction::Iny, mode: AddrMode::Implied }),
        0xc9 => Some(Opcode { instruction: Instruction::Cmp, mode: AddrMode::Immediate }),
        0xca => Some(Opcode { instruction: Instruction::Dex, mode: AddrMode::Implied }),
        0xcc => Some(Opcode { instruction: Instruction::Cpy, mode: AddrMode::Absolute }),
        0xcd => Some(Opcode { instruction: Instruction::Cmp, mode: AddrMode::Absolute }),
        0xce => Some(Opcode { instruction: Instruction::Dec, mode: AddrMode::Absolute }),
        0xd0 => Some(Opcode { instruction: Instruction::Bne, mode: AddrMode::Relative }),
        0xd1 => Some(Opcode { instruction: Instruction::Cmp, mode: AddrMode::IndirectY }),
        0xd5 => Some(Opcode { instruction: Instruction::Cmp, mode: AddrMode::ZeroPageX }),
        0xd6 => Some(Opcode { instruction: Instruction::Dec, mode: AddrMode::ZeroPageX }),
        0xd8 => Some(Opcode { instruction: Instruction::Cld, mode: AddrMode::Implied }),
        0xd9 => Some(Opcode { instruction: Instruction::Cmp, mode: AddrMode::AbsoluteY }),
        0xdd => Some(Opcode { instruction: Instruction::Cmp, mode: AddrMode::AbsoluteX }),
        0xde => Some(Opcode { instruction: Instruction::Dec, mode: AddrMode::AbsoluteX }),
        0xe0 => Some(Opcode { instruction: Instruction::Cpx, mode: AddrMode::Immediate }),
        0xe1 => Some(Opcode { instruction: Instruction::Sbc, mode: AddrMode::IndirectX }),
        0xe4 => Some(Opcode { instruction: Instruction::Cpx, mode: AddrMode::ZeroPage }),
        0xe5 => Some(Opcode { instruction: Instruction::Sbc, mode: AddrMode::ZeroPage }),
        0xe6 => Some(Opcode { instruction: Instruction::Inc, mode: AddrMode::ZeroPage }),
        0xe8 => Some(Opcode { instruction: Instruction::Inx, mode: AddrMode::Implied }),
        0xe9 => Some(Opcode { instruction: Instruction::Sbc, mode: AddrMode::Immediate }),
        0xea => Some(Opcode { instruction: Instruction::Nop, mode: AddrMode::Implied }),
        0xec => Some(Opcode { instruction: Instruction::Cpx, mode: AddrMode::Absolute }),
        0xed => Some(Opcode { instruction: Instruction::Sbc, mode: AddrMode::Absolute }),
        0xee => Some(Opcode { instruction: Instruction::Inc, mode: AddrMode::Absolute }),
        0xf0 => Some(Opcode { instruction: Instruction::Beq, mode: AddrMode::Relative }),
        0xf1 => Some(Opcode { instruction: Instruction::Sbc, mode: AddrMode::IndirectY }),
        0xf5 => Some(Opcode { instruction: Instruction::Sbc, mode: AddrMode::ZeroPageX }),
        0xf6 => Some(Opcode { instruction: Instruction::Inc, mode: AddrMode::ZeroPageX }),
        0xf8 => Some(Opcode { instruction: Instruction::Sed, mode: AddrMode::Implied }),
        0xf9 => Some(Opcode { instruction: Instruction::Sbc, mode: AddrMode::AbsoluteY }),
        0xfd => Some(Opcode { instruction: Instruction::Sbc, mode: AddrMode::AbsoluteX }),
        0xfe => Some(Opcode { instruction: Instruction::Inc, mode: AddrMode::AbsoluteX }),
        _ => None,
    }
}

/// Bytes taken by an instruction in the given mode, opcode included.
pub open spec fn mode_len(mode: AddrMode) -> u16 {
    match mode {
        AddrMode::Implied | AddrMode::Accumulator => 1,
        AddrMode::Absolute | AddrMode::AbsoluteX | AddrMode::AbsoluteY | AddrMode::Indirect => 3,
        _ => 2,
    }
}

pub fn instruction_len(mode: AddrMode) -> (r: u16)
    ensures
        r == mode_len(mode),
{
    match mode {
        AddrMode::Implied | AddrMode::Accumulator => 1,
        AddrMode::Absolute | AddrMode::AbsoluteX | AddrMode::AbsoluteY | AddrMode::Indirect => 3,
        _ => 2,
    }
}

/// `p` with the bits of `mask` set when `on`, cleared otherwise.
pub open spec fn with_flag(p: u8, mask: u8, on: bool) -> u8 {
    if on {
        p | mask
    } else {
        p & !mask
    }
}

/// `p` with Z set iff `v` is 0 and N a copy of bit 7 of `v`.
pub open spec fn with_nz(p: u8, v: u8) -> u8 {
    with_flag(with_flag(p, FLAG_Z, v == 0), FLAG_N, v >= 0x80)
}

pub fn set_flag(p: u8, mask: u8, on: bool) -> (r: u8)
    ensures
        r == with_flag(p, mask, on),
{
    if on {
        p | mask
    } else {
        p & !mask
    }
}

pub fn set_nz(p: u8, v: u8) -> (r: u8)
    ensures
        r == with_nz(p, v),
{
    set_flag(set_flag(p, FLAG_Z, v == 0), FLAG_N, v >= 0x80)
}

pub open spec fn carry(p: u8) -> bool {
    p & FLAG_C != 0
}

/// ADC: A + M + C, with C the carry out of bit 7 and V the signed overflow.
/// Decimal mode is ignored.
pub open spec fn adc(cpu: Cpu, m: u8) -> Cpu {
    let sum = cpu.a as int + m as int + if carry(cpu.p) { 1int } else { 0 };
    let r = (sum % 256) as u8;
    let overflow = (!(cpu.a ^ m) & (cpu.a ^ r) & 0x80) != 0;
    Cpu { a: r, p: with_nz(with_flag(with_flag(cpu.p, FLAG_C, sum > 255), FLAG_V, overflow), r), ..cpu }
}

/// CMP, CPX, CPY: C is set iff `reg >= m`; Z and N follow `reg - m`.
pub open spec fn compare(p: u8, reg: u8, m: u8) -> u8 {
    with_nz(with_flag(p, FLAG_C, reg >= m), ((reg as int - m as int + 256) % 256) as u8)
}

/// The registers after an instruction that reads the operand byte `m`.
pub open spec fn read_result(ins: Instruction, cpu: Cpu, m: u8) -> Cpu {
    match ins {
        Instruction::Adc => adc(cpu, m),
        Instruction::Sbc => adc(cpu, !m),
        Instruction::And => Cpu { a: cpu.a & m, p: with_nz(cpu.p, cpu.a & m), ..cpu },
        Instruction::Ora => Cpu { a: cpu.a | m, p: with_nz(cpu.p, cpu.a | m), ..cpu },
        Instruction::Eor => Cpu { a: cpu.a ^ m, p: with_nz(cpu.p, cpu.a ^ m), ..cpu },
        Instruction::Bit => Cpu {
            p: with_flag(with_flag(with_flag(cpu.p, FLAG_Z, cpu.a & m == 0), FLAG_V, m & 0x40 != 0), FLAG_N, m >= 0x80),
            ..cpu
        },
        Instruction::Cmp => Cpu { p: compare(cpu.p, cpu.a, m), ..cpu },
        Instruction::Cpx => Cpu { p: compare(cpu.p, cpu.x, m), ..cpu },
        Instruction::Cpy => Cpu { p: compare(cpu.p, cpu.y, m), ..cpu },
        Instruction::Lda => Cpu { a: m, p: with_nz(cpu.p, m), ..cpu },
        Instruction::Ldx => Cpu { x: m, p: with_nz(cpu.p, m), ..cpu },
        Instruction::Ldy => Cpu { y: m, p: with_nz(cpu.p, m), ..cpu },
        _ => cpu,
    }
}

pub open spec fn is_read_instruction(ins: Instruction) -> bool {
    ins is Adc || ins is Sbc || ins is And || ins is Ora || ins is Eor || ins is Bit || ins is Cmp
        || ins is Cpx || ins is Cpy || ins is Lda || ins is Ldx || ins is Ldy
}

/// The registers after an instruction that reads the operand byte `m`.
pub fn read_op(ins: Instruction, cpu: Cpu, m: u8) -> (r: Cpu)
    requires
        is_read_instruction(ins),
    ensures
        r == read_result(ins, cpu, m),
{
    match ins {
        Instruction::Adc | Instruction::Sbc => {
            let m = if ins == Instruction::Sbc { !m } else { m };
            let c: u16 = if cpu.p & FLAG_C != 0 { 1 } else { 0 };
            let sum: u16 = cpu.a as u16 + m as u16 + c;
            let r = (sum % 256) as u8;
            let overflow = (!(cpu.a ^ m) & (cpu.a ^ r) & 0x80) != 0;
            Cpu { a: r, p: set_nz(set_flag(set_flag(cpu.p, FLAG_C, sum > 255), FLAG_V, overflow), r), ..cpu }
        },
        Instruction::And => Cpu { a: cpu.a & m, p: set_nz(cpu.p, cpu.a & m), ..cpu },
        Instruction::Ora => Cpu { a: cpu.a | m, p: set_nz(cpu.p, cpu.a | m), ..cpu },
        Instruction::Eor => Cpu { a: cpu.a ^ m, p: set_nz(cpu.p, cpu.a ^ m), ..cpu },
        Instruction::Bit => Cpu {
            p: set_flag(set_flag(set_flag(cpu.p, FLAG_Z, cpu.a & m == 0), FLAG_V, m & 0x40 != 0), FLAG_N, m >= 0x80),
            ..cpu
        },
        Instruction::Cmp => Cpu { p: compare_flags(cpu.p, cpu.a, m), ..cpu },
        Instruction::Cpx => Cpu { p: compare_flags(cpu.p, cpu.x, m), ..cpu },
        Instruction::Cpy => Cpu { p: compare_flags(cpu.p, cpu.y, m), ..cpu },
        Instruction::Lda => Cpu { a: m, p: set_nz(cpu.p, m), ..cpu },
        Instruction::Ldx => Cpu { x: m, p: set_nz(cpu.p, m), ..cpu },
        _ => Cpu { y: m, p: set_nz(cpu.p, m), ..cpu },
    }
}

fn compare_flags(p: u8, reg: u8, m: u8) -> (r: u8)
    ensures
        r == compare(p, reg, m),
{
    set_nz(set_flag(p, FLAG_C, reg >= m), reg.wrapping_sub(m))
}

pub open spec fn is_rmw_instruction(ins: Instruction) -> bool {
    ins is Asl || ins is Lsr || ins is Rol || ins is Ror || ins is Inc || ins is Dec
}

/// The byte that a read-modify-write instruction writes back, and the flags
/// after it.
pub open spec fn rmw_result(ins: Instruction, p: u8, m: u8) -> (u8, u8) {
    let c: int = if carry(p) { 1 } else { 0 };
    let (r, carry_out) = match ins {
        Instruction::Asl => (((m as int * 2) % 256) as u8, Some(m >= 0x80)),
        Instruction::Lsr => ((m / 2) as u8, Some(m % 2 == 1)),
        Instruction::Rol => (((m as int * 2 + c) % 256) as u8, Some(m >= 0x80)),
        Instruction::Ror => ((m / 2 + c * 128) as u8, Some(m % 2 == 1)),
        Instruction::Inc => (((m as int + 1) % 256) as u8, None),
        _ => (((m as int + 255) % 256) as u8, None),
    };
    let p1 = match carry_out {
        Some(co) => with_flag(p, FLAG_C, co),
        None => p,
    };
    (r, with_nz(p1, r))
}

pub fn rmw_op(ins: Instruction, p: u8, m: u8) -> (r: (u8, u8))
    requires
        is_rmw_instruction(ins),
    ensures
        r == rmw_result(ins, p, m),
{
    let c: u8 = if p & FLAG_C != 0 { 1 } else { 0 };
    let (r, p1) = match ins {
        Instruction::Asl => (((m as u16 * 2) % 256) as u8, set_flag(p, FLAG_C, m >= 0x80)),
        Instruction::Lsr => (m / 2, set_flag(p, FLAG_C, m % 2 == 1)),
        Instruction::Rol => (((m as u16 * 2 + c as u16) % 256) as u8, set_flag(p, FLAG_C, m >= 0x80)),
        Instruction::Ror => (m / 2 + c * 128, set_flag(p, FLAG_C, m % 2 == 1)),
        Instruction::Inc => (m.wrapping_add(1), p),
        _ => (m.wrapping_sub(1), p),
    };
    (r, set_nz(p1, r))
}

/// The registers after an instruction that touches neither memory nor `pc`.
pub open spec fn register_result(ins: Instruction, cpu: Cpu) -> Cpu {
    match ins {
        Instruction::Clc => Cpu { p: with_flag(cpu.p, FLAG_C, false), ..cpu },
        Instruction::Cld => Cpu { p: with_flag(cpu.p, FLAG_D, false), ..cpu },
        Instruction::Cli => Cpu { p: with_flag(cpu.p, FLAG_I, false), ..cpu },
        Instruction::Clv => Cpu { p: with_flag(cpu.p, FLAG_V, false), ..cpu },
        Instruction::Sec => Cpu { p: with_flag(cpu.p, FLAG_C, true), ..cpu },
        Instruction::Sed => Cpu { p: with_flag(cpu.p, FLAG_D, true), ..cpu },
        Instruction::Sei => Cpu { p: with_flag(cpu.p, FLAG_I, true), ..cpu },
        Instruction::Dex => Cpu { x: ((cpu.x + 255) % 256) as u8, p: with_nz(cpu.p, ((cpu.x + 255) % 256) as u8), ..cpu },
        Instruction::Dey => Cpu { y: ((cpu.y + 255) % 256) as u8, p: with_nz(cpu.p, ((cpu.y + 255) % 256) as u8), ..cpu },
        Instruction::Inx => Cpu { x: ((cpu.x + 1) % 256) as u8, p: with_nz(cpu.p, ((cpu.x + 1) % 256) as u8), ..cpu },
        Instruction::Iny => Cpu { y: ((cpu.y + 1) % 256) as u8, p: with_nz(cpu.p, ((cpu.y + 1) % 256) as u8), ..cpu },
        Instruction::Tax => Cpu { x: cpu.a, p: with_nz(cpu.p, cpu.a), ..cpu },
        Instruction::Tay => Cpu { y: cpu.a, p: with_nz(cpu.p, cpu.a), ..cpu },
        Instruction::Tsx => Cpu { x: cpu.s, p: with_nz(cpu.p, cpu.s), ..cpu },
        Instruction::Txa => Cpu { a: cpu.x, p: with_nz(cpu.p, cpu.x), ..cpu },
        Instruction::Tya => Cpu { a: cpu.y, p: with_nz(cpu.p, cpu.y), ..cpu },
        Instruction::Txs => Cpu { s: cpu.x, ..cpu },
        _ => cpu,
    }
}

pub fn register_op(ins: Instruction, cpu: Cpu) -> (r: Cpu)
    ensures
        r == register_result(ins, cpu),
{
    match ins {
        Instruction::Clc => Cpu { p: set_flag(cpu.p, FLAG_C, false), ..cpu },
        Instruction::Cld => Cpu { p: set_flag(cpu.p, FLAG_D, false), ..cpu },
        Instruction::Cli => Cpu { p: set_flag(cpu.p, FLAG_I, false), ..cpu },
        Instruction::Clv => Cpu { p: set_flag(cpu.p, FLAG_V, false), ..cpu },
        Instruction::Sec => Cpu { p: set_flag(cpu.p, FLAG_C, true), ..cpu },
        Instruction::Sed => Cpu { p: set_flag(cpu.p, FLAG_D, true), ..cpu },
        Instruction::Sei => Cpu { p: set_flag(cpu.p, FLAG_I, true), ..cpu },
        Instruction::Dex => Cpu { x: cpu.x.wrapping_sub(1), p: set_nz(cpu.p, cpu.x.wrapping_sub(1)), ..cpu },
        Instruction::Dey => Cpu { y: cpu.y.wrapping_sub(1), p: set_nz(cpu.p, cpu.y.wrapping_sub(1)), ..cpu },
        Instruction::Inx => Cpu { x: cpu.x.wrapping_add(1), p: set_nz(cpu.p, cpu.x.wrapping_add(1)), ..cpu },
        Instruction::Iny => Cpu { y: cpu.y.wrapping_add(1), p: set_nz(cpu.p, cpu.y.wrapping_add(1)), ..cpu },
        Instruction::Tax => Cpu { x: cpu.a, p: set_nz(cpu.p, cpu.a), ..cpu },
        Instruction::Tay => Cpu { y: cpu.a, p: set_nz(cpu.p, cpu.a), ..cpu },
        Instruction::Tsx => Cpu { x: cpu.s, p: set_nz(cpu.p, cpu.s), ..cpu },
        Instruction::Txa => Cpu { a: cpu.x, p: set_nz(cpu.p, cpu.x), ..cpu },
        Instruction::Tya => Cpu { a: cpu.y, p: set_nz(cpu.p, cpu.y), ..cpu },
        Instruction::Txs => Cpu { s: cpu.x, ..cpu },
        _ => cpu,
    }
}

/// What one CPU step reports: the instruction run, with the address it was
/// fetched from, or the entry into the NMI handler from `pc`.
#[derive(Clone, Copy, Debug, PartialEq, Eq, Structural)]
pub enum CpuStep {
    Instruction { pc: u16, op: Opcode },
    Nmi { pc: u16 },
}

/// What an instruction works on once its addressing mode is resolved.
#[derive(Clone, Copy, Debug, PartialEq, Eq, Structural)]
pub enum Operand {
    Implied,
    Accumulator,
    Memory(u16),
    /// The target of a branch.
    Branch(u16),
}

/// Whether a branch instruction branches under flags `p`.
pub open spec fn branch_taken(ins: Instruction, p: u8) -> bool {
    match ins {
        Instruction::Bcc => p & FLAG_C == 0,
        Instruction::Bcs => p & FLAG_C != 0,
        Instruction::Bne => p & FLAG_Z == 0,
        Instruction::Beq => p & FLAG_Z != 0,
        Instruction::Bpl => p & FLAG_N == 0,
        Instruction::Bmi => p & FLAG_N != 0,
        Instruction::Bvc => p & FLAG_V == 0,
        Instruction::Bvs => p & FLAG_V != 0,
        _ => false,
    }
}

/// `next` plus the signed offset `off`, modulo 2^16.
pub open spec fn branch_target(next: u16, off: u8) -> u16 {
    ((next as int + off as int - if off >= 128 { 256int } else { 0 } + 0x10000) % 0x10000) as u16
}

/// The flag byte that goes on the stack: B and U set for BRK and PHP, B
/// clear and U set for an interrupt.
pub open spec fn pushed_flags(p: u8, brk: bool) -> u8 {
    if brk {
        p | (FLAG_B | FLAG_U)
    } else {
        (p & !FLAG_B) | FLAG_U
    }
}

/// The flags after PLP or RTI pull `pulled`: B and U keep their values.
pub open spec fn pulled_flags(p: u8, pulled: u8) -> u8 {
    (pulled & 0xcf) | (p & 0x30)
}

/// 16 bits from two bytes, little-endian.
pub open spec fn word(lo: u8, hi: u8) -> u16 {
    (lo as int + 256 * hi as int) as u16
}

/// The address of the byte after the opcode.
pub open spec fn arg_addr(pc: u16) -> u16 {
    ((pc as int + 1) % 0x10000) as u16
}

/// The address of the second byte after the opcode.
pub open spec fn arg2_addr(pc: u16) -> u16 {
    ((pc as int + 2) % 0x10000) as u16
}

pub open spec fn zero_page_sum(b: u8, i: u8) -> u16 {
    ((b as int + i as int) % 256) as u16
}

/// The 16-bit word read from `lo_addr` then `hi_addr`, and the console after
/// the two reads.
#[verifier::opaque]
pub open spec fn word_read(nes: Nes, lo_addr: u16, hi_addr: u16) -> (u16, Nes) {
    let s1 = after_cpu_read(nes, lo_addr);
    (word(cpu_read_value(nes, lo_addr), cpu_read_value(s1, hi_addr)), after_cpu_read(s1, hi_addr))
}

/// The second byte of a pointer at `ptr` for the indirect JMP: it wraps
/// within the pointer's page.
pub open spec fn page_wrapped_next(ptr: u16) -> u16 {
    (ptr as int - ptr as int % 256 + (ptr as int % 256 + 1) % 256) as u16
}

pub open spec fn zero_page_operand_of(nes: Nes, pc: u16, index: u8) -> (Operand, Nes) {
    (Operand::Memory(zero_page_sum(cpu_read_value(nes, arg_addr(pc)), index)), after_cpu_read(nes, arg_addr(pc)))
}

pub open spec fn absolute_operand_of(nes: Nes, pc: u16, index: u8) -> (Operand, Nes) {
    let (w, s) = word_read(nes, arg_addr(pc), arg2_addr(pc));
    (Operand::Memory(((w as int + index as int) % 0x10000) as u16), s)
}

pub open spec fn relative_operand_of(nes: Nes, pc: u16) -> (Operand, Nes) {
    (
        Operand::Branch(branch_target(arg2_addr(pc), cpu_read_value(nes, arg_addr(pc)))),
        after_cpu_read(nes, arg_addr(pc)),
    )
}

/// `(zp,X)`: the pointer sits in the zero page at the operand byte plus X.
pub open spec fn indexed_indirect_operand_of(nes: Nes, pc: u16) -> (Operand, Nes) {
    let zp = zero_page_sum(cpu_read_value(nes, arg_addr(pc)), nes.cpu.x);
    let (t, s) = word_read(after_cpu_read(nes, arg_addr(pc)), zp, zero_page_sum(zp as u8, 1));
    (Operand::Memory(t), s)
}

/// `(zp),Y`: the pointer sits in the zero page at the operand byte; Y is
/// added to it.
pub open spec fn indirect_indexed_operand_of(nes: Nes, pc: u16) -> (Operand, Nes) {
    let b1 = cpu_read_value(nes, arg_addr(pc));
    let (base, s) = word_read(after_cpu_read(nes, arg_addr(pc)), b1 as u16, zero_page_sum(b1, 1));
    (Operand::Memory(((base as int + nes.cpu.y as int) % 0x10000) as u16), s)
}

/// The indirect JMP: the target is read from the pointer given by the
/// operand, with the pointer's second byte wrapping within its page.
pub open spec fn jmp_indirect_operand_of(nes: Nes, pc: u16) -> (Operand, Nes) {
    let (ptr, s1) = word_read(nes, arg_addr(pc), arg2_addr(pc));
    let (t, s2) = word_read(s1, ptr, page_wrapped_next(ptr));
    (Operand::Memory(t), s2)
}

/// What an instruction at `pc` in `mode` works on, and the console after the
/// reads that resolving it takes.
pub open spec fn operand_of(nes: Nes, mode: AddrMode, pc: u16) -> (Operand, Nes) {
    match mode {
        AddrMode::Implied => (Operand::Implied, nes),
        AddrMode::Accumulator => (Operand::Accumulator, nes),
        AddrMode::Immediate => (Operand::Memory(arg_addr(pc)), nes),
        AddrMode::ZeroPage => zero_page_operand_of(nes, pc, 0),
        AddrMode::ZeroPageX => zero_page_operand_of(nes, pc, nes.cpu.x),
        AddrMode::ZeroPageY => zero_page_operand_of(nes, pc, nes.cpu.y),
        AddrMode::Relative => relative_operand_of(nes, pc),
        AddrMode::Absolute => absolute_operand_of(nes, pc, 0),
        AddrMode::AbsoluteX => absolute_operand_of(nes, pc, nes.cpu.x),
        AddrMode::AbsoluteY => absolute_operand_of(nes, pc, nes.cpu.y),
        AddrMode::IndirectX => indexed_indirect_operand_of(nes, pc),
        AddrMode::IndirectY => indirect_indexed_operand_of(nes, pc),
        AddrMode::Indirect => jmp_indirect_operand_of(nes, pc),
    }
}

fn read_word(nes: &mut Nes, lo_addr: u16, hi_addr: u16) -> (r: u16)
    requires
        old(nes).wf(),
    ensures
        final(nes).wf(),
        (r, *final(nes)) == word_read(*old(nes), lo_addr, hi_addr),
        final(nes).cpu == old(nes).cpu,
{
    reveal(word_read);
    proof {
        lemma_read_frame(*old(nes), lo_addr);
        lemma_read_frame(after_cpu_read(*old(nes), lo_addr), hi_addr);
    }
    let lo = nes.read_u8(lo_addr);
    let hi = nes.read_u8(hi_addr);
    lo as u16 + (hi as u16) * 256
}

fn zero_page_operand(nes: &mut Nes, pc: u16, index: u8) -> (r: Operand)
    requires
        old(nes).wf(),
    ensures
        final(nes).wf(),
        (r, *final(nes)) == zero_page_operand_of(*old(nes), pc, index),
{
    Operand::Memory(nes.read_u8(pc.wrapping_add(1)).wrapping_add(index) as u16)
}

fn absolute_operand(nes: &mut Nes, pc: u16, index: u8) -> (r: Operand)
    requires
        old(nes).wf(),
    ensures
        final(nes).wf(),
        (r, *final(nes)) == absolute_operand_of(*old(nes), pc, index),
{
    Operand::Memory(read_word(nes, pc.wrapping_add(1), pc.wrapping_add(2)).wrapping_add(index as u16))
}

fn relative_operand(nes: &mut Nes, pc: u16) -> (r: Operand)
    requires
        old(nes).wf(),
    ensures
        final(nes).wf(),
        (r, *final(nes)) == relative_operand_of(*old(nes), pc),
{
    let a2 = pc.wrapping_add(2);
    let off = nes.read_u8(pc.wrapping_add(1));
    let target = if off < 128 {
        a2.wrapping_add(off as u16)
    } else {
        a2.wrapping_sub(256 - off as u16)
    };
    Operand::Branch(target)
}

fn indexed_indirect_operand(nes: &mut Nes, pc: u16) -> (r: Operand)
    requires
        old(nes).wf(),
    ensures
        final(nes).wf(),
        (r, *final(nes)) == indexed_indirect_operand_of(*old(nes), pc),
{
    proof {
        lemma_read_frame(*old(nes), arg_addr(pc));
    }
    let x = nes.cpu.x;
    let zp = nes.read_u8(pc.wrapping_add(1)).wrapping_add(x);
    Operand::Memory(read_word(nes, zp as u16, zp.wrapping_add(1) as u16))
}

fn indirect_indexed_operand(nes: &mut Nes, pc: u16) -> (r: Operand)
    requires
        old(nes).wf(),
    ensures
        final(nes).wf(),
        (r, *final(nes)) == indirect_indexed_operand_of(*old(nes), pc),
{
    proof {
        lemma_read_frame(*old(nes), arg_addr(pc));
    }
    let y = nes.cpu.y;
    let zp = nes.read_u8(pc.wrapping_add(1));
    let base = read_word(nes, zp as u16, zp.wrapping_add(1) as u16);
    Operand::Memory(base.wrapping_add(y as u16))
}

/// The indirect JMP keeps the 6502's page wrap: when the pointer ends a page,
/// the high byte of the target comes from the start of that page.
fn jmp_indirect_operand(nes: &mut Nes, pc: u16) -> (r: Operand)
    requires
        old(nes).wf(),
    ensures
        final(nes).wf(),
        (r, *final(nes)) == jmp_indirect_operand_of(*old(nes), pc),
{
    let ptr = read_word(nes, pc.wrapping_add(1), pc.wrapping_add(2));
    let hi_addr = ptr - ptr % 256 + (ptr % 256 + 1) % 256;
    assert(hi_addr == page_wrapped_next(ptr));
    Operand::Memory(read_word(nes, ptr, hi_addr))
}

/// Resolves the addressing mode of the instruction at `pc`, reading its
/// operand bytes and, for the indirect modes, the pointer they name.
fn resolve_operand(nes: &mut Nes, mode: AddrMode, pc: u16) -> (r: Operand)
    requires
        old(nes).wf(),
    ensures
        final(nes).wf(),
        (r, *final(nes)) == operand_of(*old(nes), mode, pc),
{
    match mode {
        AddrMode::Implied => Operand::Implied,
        AddrMode::Accumulator => Operand::Accumulator,
        AddrMode::Immediate => Operand::Memory(pc.wrapping_add(1)),
        AddrMode::ZeroPage => zero_page_operand(nes, pc, 0),
        AddrMode::ZeroPageX => {
            let x = nes.cpu.x;
            zero_page_operand(nes, pc, x)
        },
        AddrMode::ZeroPageY => {
            let y = nes.cpu.y;
            zero_page_operand(nes, pc, y)
        },
        AddrMode::Relative => relative_operand(nes, pc),
        AddrMode::Absolute => absolute_operand(nes, pc, 0),
        AddrMode::AbsoluteX => {
            let x = nes.cpu.x;
            absolute_operand(nes, pc, x)
        },
        AddrMode::AbsoluteY => {
            let y = nes.cpu.y;
            absolute_operand(nes, pc, y)
        },
        AddrMode::IndirectX => indexed_indirect_operand(nes, pc),
        AddrMode::IndirectY => indirect_indexed_operand(nes, pc),
        AddrMode::Indirect => jmp_indirect_operand(nes, pc),
    }
}

/// The byte on the stack that the next pull returns.
pub open spec fn stack_top(nes: Nes, s: u8) -> u8 {
    nes.ram@[stack_addr(s_after_pop(s)) as int]
}

/// RAM after pushing the bytes `hi`, then `lo`, with stack pointer `s`.
pub open spec fn ram_after_push2(ram: Seq<u8>, s: u8, hi: u8, lo: u8) -> Seq<u8> {
    ram.update(stack_addr(s) as int, hi).update(stack_addr(s_after_push(s)) as int, lo)
}

/// The effect of a store of `v` to the operand.
pub open spec fn store_effect(o: Nes, n: Nes, operand: Operand, v: u8) -> bool {
    operand matches Operand::Memory(a) ==> write_effect(o, n, a, v)
}

/// The effect of ASL, LSR, ROL, ROR, INC or DEC.
pub open spec fn rmw_effect(o: Nes, n: Nes, ins: Instruction, operand: Operand) -> bool {
    let c = o.cpu;
    &&& operand matches Operand::Memory(a) ==> ({
        let (v, p) = rmw_result(ins, c.p, cpu_read_value(o, a));
        write_effect(Nes { cpu: Cpu { p, ..c }, ..after_cpu_read(o, a) }, n, a, v)
    })
    &&& operand is Accumulator ==> ({
        let (v, p) = rmw_result(ins, c.p, c.a);
        n == Nes { cpu: Cpu { a: v, p, ..c }, ..o }
    })
}

/// The effect of PHA (`v` is A) or PHP (`v` is the flags with B and U set).
pub open spec fn push_effect(o: Nes, n: Nes, v: u8) -> bool {
    &&& n.ram@ == o.ram@.update(stack_addr(o.cpu.s) as int, v)
    &&& n == Nes { ram: n.ram, cpu: Cpu { s: s_after_push(o.cpu.s), ..o.cpu }, ..o }
}

pub open spec fn jsr_effect(o: Nes, n: Nes, operand: Operand) -> bool {
    let c = o.cpu;
    let ret = ((c.pc as int - 1 + 0x10000) % 0x10000) as u16;
    operand matches Operand::Memory(a) ==> {
        &&& n.ram@ == ram_after_push2(o.ram@, c.s, (ret / 256) as u8, (ret % 256) as u8)
        &&& n == Nes { ram: n.ram, cpu: Cpu { pc: a, s: s_after_push(s_after_push(c.s)), ..c }, ..o }
    }
}

pub open spec fn rts_effect(o: Nes, n: Nes) -> bool {
    let c = o.cpu;
    let ret = stack_top(o, c.s) as int + 256 * stack_top(o, s_after_pop(c.s)) as int;
    n == Nes { cpu: Cpu { pc: ((ret + 1) % 0x10000) as u16, s: s_after_pop(s_after_pop(c.s)), ..c }, ..o }
}

pub open spec fn rti_effect(o: Nes, n: Nes) -> bool {
    let c = o.cpu;
    let s1 = s_after_pop(c.s);
    let ret = stack_top(o, s1) as int + 256 * stack_top(o, s_after_pop(s1)) as int;
    n == Nes {
        cpu: Cpu { pc: ret as u16, p: pulled_flags(c.p, stack_top(o, c.s)), s: s_after_pop(s_after_pop(s1)), ..c },
        ..o
    }
}

/// BRK pushes the address two past its opcode and the flags with B and U
/// set, sets I, and jumps through the vector at $FFFE.
pub open spec fn brk_effect(o: Nes, n: Nes) -> bool {
    let c = o.cpu;
    let ret = ((c.pc as int + 1) % 0x10000) as u16;
    &&& n.ram@ == ram_after_push2(o.ram@, c.s, (ret / 256) as u8, (ret % 256) as u8).update(
        stack_addr(s_after_push(s_after_push(c.s))) as int,
        pushed_flags(c.p, true),
    )
    &&& n.cpu.s == s_after_push(s_after_push(s_after_push(c.s)))
    &&& n.cpu.p == with_flag(c.p, FLAG_I, true)
    &&& n.cpu.pc == word(cpu_read_value(o, 0xfffe), cpu_read_value(after_cpu_read(o, 0xfffe), 0xffff))
    &&& n == Nes { ram: n.ram, cpu: Cpu { pc: n.cpu.pc, s: n.cpu.s, p: n.cpu.p, ..c }, ..o }
}

pub open spec fn branch_effect(o: Nes, n: Nes, ins: Instruction, operand: Operand) -> bool {
    operand matches Operand::Branch(t) ==> n == Nes {
        cpu: Cpu { pc: if branch_taken(ins, o.cpu.p) { t } else { o.cpu.pc }, ..o.cpu },
        ..o
    }
}

/// `n` follows from `o` by running `ins` on `operand`; `o.cpu.pc` already
/// points past the instruction.
#[verifier::opaque]
pub open spec fn execute_effect(o: Nes, n: Nes, ins: Instruction, operand: Operand) -> bool {
    let c = o.cpu;
    match ins {
        Instruction::Adc | Instruction::Sbc | Instruction::And | Instruction::Ora | Instruction::Eor
        | Instruction::Bit | Instruction::Cmp | Instruction::Cpx | Instruction::Cpy | Instruction::Lda
        | Instruction::Ldx | Instruction::Ldy => operand matches Operand::Memory(a) ==> n == Nes {
            cpu: read_result(ins, c, cpu_read_value(o, a)),
            ..after_cpu_read(o, a)
        },
        Instruction::Sta => store_effect(o, n, operand, c.a),
        Instruction::Stx => store_effect(o, n, operand, c.x),
        Instruction::Sty => store_effect(o, n, operand, c.y),
        Instruction::Asl | Instruction::Lsr | Instruction::Rol | Instruction::Ror | Instruction::Inc
        | Instruction::Dec => rmw_effect(o, n, ins, operand),
        Instruction::Jmp => operand matches Operand::Memory(a) ==> n == Nes { cpu: Cpu { pc: a, ..c }, ..o },
        Instruction::Pha => push_effect(o, n, c.a),
        Instruction::Php => push_effect(o, n, pushed_flags(c.p, true)),
        Instruction::Pla => {
            let v = stack_top(o, c.s);
            n == Nes { cpu: Cpu { a: v, p: with_nz(c.p, v), s: s_after_pop(c.s), ..c }, ..o }
        },
        Instruction::Plp => n == Nes {
            cpu: Cpu { p: pulled_flags(c.p, stack_top(o, c.s)), s: s_after_pop(c.s), ..c },
            ..o
        },
        Instruction::Jsr => jsr_effect(o, n, operand),
        Instruction::Rts => rts_effect(o, n),
        Instruction::Rti => rti_effect(o, n),
        Instruction::Brk => brk_effect(o, n),
        Instruction::Bcc | Instruction::Bcs | Instruction::Beq | Instruction::Bne | Instruction::Bmi
        | Instruction::Bpl | Instruction::Bvc | Instruction::Bvs => branch_effect(o, n, ins, operand),
        _ => n == Nes { cpu: register_result(ins, c), ..o },
    }
}

fn exec_read(nes: &mut Nes, ins: Instruction, addr: u16)
    requires
        old(nes).wf(),
        is_read_instruction(ins),
    ensures
        final(nes).wf(),
        *final(nes) == (Nes {
            cpu: read_result(ins, old(nes).cpu, cpu_read_value(*old(nes), addr)),
            ..after_cpu_read(*old(nes), addr)
        }),
{
    let m = nes.read_u8(addr);
    nes.cpu = read_op(ins, nes.cpu, m);
}

fn exec_rmw(nes: &mut Nes, ins: Instruction, addr: u16)
    requires
        old(nes).wf(),
        is_rmw_instruction(ins),
    ensures
        final(nes).wf(),
        ({
            let (v, p) = rmw_result(ins, old(nes).cpu.p, cpu_read_value(*old(nes), addr));
            write_effect(Nes { cpu: Cpu { p, ..old(nes).cpu }, ..after_cpu_read(*old(nes), addr) }, *final(nes), addr, v)
        }),
{
    let m = nes.read_u8(addr);
    let (v, p) = rmw_op(ins, nes.cpu.p, m);
    nes.cpu.p = p;
    nes.write_u8(addr, v);
}

fn exec_brk(nes: &mut Nes)
    requires
        old(nes).wf(),
    ensures
        final(nes).wf(),
        brk_effect(*old(nes), *final(nes)),
{
    reveal(word_read);
    let ret = nes.cpu.pc.wrapping_add(1);
    nes.push_u16(ret);
    let p = nes.cpu.p;
    nes.push_u8(p | (FLAG_B | FLAG_U));
    let ghost pushed = *nes;
    nes.cpu.p = set_flag(p, FLAG_I, true);
    let ghost flagged = *nes;
    let target = read_word(nes, 0xfffe, 0xffff);
    proof {
        lemma_read_frame(flagged, 0xfffe);
        lemma_read_frame(after_cpu_read(flagged, 0xfffe), 0xffff);
    }
    assert(cpu_read_value(flagged, 0xfffe) == cpu_read_value(pushed, 0xfffe));
    assert(cpu_read_value(after_cpu_read(flagged, 0xfffe), 0xffff) == cpu_read_value(after_cpu_read(pushed, 0xfffe), 0xffff));
    nes.cpu.pc = target;
}

fn exec_push(nes: &mut Nes, ins: Instruction)
    requires
        old(nes).wf(),
        ins is Pha || ins is Php,
    ensures
        final(nes).wf(),
        execute_effect(*old(nes), *final(nes), ins, Operand::Implied),
{
    reveal(execute_effect);
    let v = if ins == Instruction::Pha {
        nes.cpu.a
    } else {
        nes.cpu.p | (FLAG_B | FLAG_U)
    };
    nes.push_u8(v);
}

fn exec_pull(nes: &mut Nes, ins: Instruction)
    requires
        old(nes).wf(),
        ins is Pla || ins is Plp,
    ensures
        final(nes).wf(),
        execute_effect(*old(nes), *final(nes), ins, Operand::Implied),
{
    reveal(execute_effect);
    let v = nes.pop_u8();
    if ins == Instruction::Pla {
        nes.cpu.a = v;
        nes.cpu.p = set_nz(nes.cpu.p, v);
    } else {
        nes.cpu.p = (v & 0xcf) | (nes.cpu.p & 0x30);
    }
}

fn exec_jsr(nes: &mut Nes, target: u16)
    requires
        old(nes).wf(),
    ensures
        final(nes).wf(),
        jsr_effect(*old(nes), *final(nes), Operand::Memory(target)),
{
    let ret = nes.cpu.pc.wrapping_sub(1);
    nes.push_u16(ret);
    nes.cpu.pc = target;
}

fn exec_return(nes: &mut Nes, ins: Instruction)
    requires
        old(nes).wf(),
        ins is Rts || ins is Rti,
    ensures
        final(nes).wf(),
        execute_effect(*old(nes), *final(nes), ins, Operand::Implied),
{
    reveal(execute_effect);
    if ins == Instruction::Rts {
        let ret = nes.pop_u16();
        nes.cpu.pc = ret.wrapping_add(1);
    } else {
        let v = nes.pop_u8();
        nes.cpu.p = (v & 0xcf) | (nes.cpu.p & 0x30);
        nes.cpu.pc = nes.pop_u16();
    }
}

fn branch_condition(ins: Instruction, p: u8) -> (r: bool)
    ensures
        r == branch_taken(ins, p),
{
    match ins {
        Instruction::Bcc => p & FLAG_C == 0,
        Instruction::Bcs => p & FLAG_C != 0,
        Instruction::Bne => p & FLAG_Z == 0,
        Instruction::Beq => p & FLAG_Z != 0,
        Instruction::Bpl => p & FLAG_N == 0,
        Instruction::Bmi => p & FLAG_N != 0,
        Instruction::Bvc => p & FLAG_V == 0,
        Instruction::Bvs => p & FLAG_V != 0,
        _ => false,
    }
}

/// Runs `ins` on `operand`; `pc` already points past the instruction.
fn execute(nes: &mut Nes, ins: Instruction, operand: Operand)
    requires
        old(nes).wf(),
    ensures
        final(nes).wf(),
        execute_effect(*old(nes), *final(nes), ins, operand),
{
    reveal(execute_effect);
    if ins == Instruction::Nop || ins == Instruction::Clc || ins == Instruction::Cld || ins == Instruction::Cli
        || ins == Instruction::Clv || ins == Instruction::Sec || ins == Instruction::Sed || ins == Instruction::Sei
        || ins == Instruction::Dex || ins == Instruction::Dey || ins == Instruction::Inx || ins == Instruction::Iny
        || ins == Instruction::Tax || ins == Instruction::Tay || ins == Instruction::Tsx || ins == Instruction::Txa
        || ins == Instruction::Tya || ins == Instruction::Txs {
        nes.cpu = register_op(ins, nes.cpu);
    } else if ins == Instruction::Adc || ins == Instruction::Sbc || ins == Instruction::And || ins == Instruction::Ora
        || ins == Instruction::Eor || ins == Instruction::Bit || ins == Instruction::Cmp || ins == Instruction::Cpx
        || ins == Instruction::Cpy || ins == Instruction::Lda || ins == Instruction::Ldx || ins == Instruction::Ldy {
        if let Operand::Memory(a) = operand {
            exec_read(nes, ins, a);
        }
    } else if ins == Instruction::Sta || ins == Instruction::Stx || ins == Instruction::Sty {
        if let Operand::Memory(a) = operand {
            let v = if ins == Instruction::Sta {
                nes.cpu.a
            } else if ins == Instruction::Stx {
                nes.cpu.x
            } else {
                nes.cpu.y
            };
            nes.write_u8(a, v);
        }
    } else if ins == Instruction::Asl || ins == Instruction::Lsr || ins == Instruction::Rol || ins == Instruction::Ror
        || ins == Instruction::Inc || ins == Instruction::Dec {
        match operand {
            Operand::Memory(a) => exec_rmw(nes, ins, a),
            Operand::Accumulator => {
                let (v, p) = rmw_op(ins, nes.cpu.p, nes.cpu.a);
                nes.cpu.a = v;
                nes.cpu.p = p;
            },
            _ => {},
        }
    } else if ins == Instruction::Jmp {
        if let Operand::Memory(a) = operand {
            nes.cpu.pc = a;
        }
    } else if ins == Instruction::Pha || ins == Instruction::Php || ins == Instruction::Pla || ins == Instruction::Plp
        || ins == Instruction::Jsr || ins == Instruction::Rts || ins == Instruction::Rti {
        if ins == Instruction::Pha || ins == Instruction::Php {
            exec_push(nes, ins);
        } else if ins == Instruction::Pla || ins == Instruction::Plp {
            exec_pull(nes, ins);
        } else if ins == Instruction::Jsr {
            if let Operand::Memory(a) = operand {
                exec_jsr(nes, a);
            }
        } else {
            exec_return(nes, ins);
        }
    } else if ins == Instruction::Brk {
        exec_brk(nes);
    } else {
        if let Operand::Branch(t) = operand {
            if branch_condition(ins, nes.cpu.p) {
                nes.cpu.pc = t;
            }
        }
    }
}

/// NMI entry from `o`: the pending NMI is taken, `pc` and the flags (B clear,
/// U set) are pushed, I is set, and `pc` comes from the vector at $FFFA.
pub open spec fn nmi_effect(o: Nes, n: Nes) -> bool {
    let c = o.cpu;
    &&& n.ram@ == ram_after_push2(o.ram@, c.s, (c.pc / 256) as u8, (c.pc % 256) as u8).update(
        stack_addr(s_after_push(s_after_push(c.s))) as int,
        pushed_flags(c.p, false),
    )
    &&& n.cpu.s == s_after_push(s_after_push(s_after_push(c.s)))
    &&& n.cpu.p == with_flag(c.p, FLAG_I, true)
    &&& n.cpu.pc == word(cpu_read_value(o, 0xfffa), cpu_read_value(after_cpu_read(o, 0xfffa), 0xfffb))
    &&& n == Nes {
        ram: n.ram,
        cpu: Cpu { pc: n.cpu.pc, s: n.cpu.s, p: n.cpu.p, ..c },
        ppu: Ppu { nmi_pending: false, ..o.ppu },
        ..o
    }
}

fn enter_nmi(nes: &mut Nes)
    requires
        old(nes).wf(),
    ensures
        final(nes).wf(),
        nmi_effect(*old(nes), *final(nes)),
{
    reveal(word_read);
    let ghost o = *nes;
    nes.ppu.nmi_pending = false;
    let ghost cleared = *nes;
    let pc = nes.cpu.pc;
    nes.push_u16(pc);
    let p = nes.cpu.p;
    nes.push_u8((p & !FLAG_B) | FLAG_U);
    nes.cpu.p = set_flag(p, FLAG_I, true);
    let ghost flagged = *nes;
    let target = read_word(nes, 0xfffa, 0xfffb);
    proof {
        lemma_read_frame(flagged, 0xfffa);
        lemma_read_frame(after_cpu_read(flagged, 0xfffa), 0xfffb);
        lemma_read_frame(o, 0xfffa);
    }
    assert(cpu_read_value(flagged, 0xfffa) == cpu_read_value(o, 0xfffa));
    assert(cpu_read_value(after_cpu_read(flagged, 0xfffa), 0xfffb) == cpu_read_value(after_cpu_read(o, 0xfffa), 0xfffb));
    nes.cpu.pc = target;
}

/// The console after the opcode fetch of an instruction decoded as `op` at
/// `pc`, once its operand is resolved and `pc` moved past it.
pub open spec fn before_execute(fetched: Nes, op: Opcode, pc: u16) -> Nes {
    let moved = operand_of(fetched, op.mode, pc).1;
    Nes { cpu: Cpu { pc: ((pc as int + mode_len(op.mode)) % 0x10000) as u16, ..moved.cpu }, ..moved }
}

/// Resolves the operand of `op`, fetched at `pc`, moves `pc` past it and
/// runs it.
fn run_instruction(nes: &mut Nes, pc: u16, op: Opcode)
    requires
        old(nes).wf(),
    ensures
        final(nes).wf(),
        execute_effect(before_execute(*old(nes), op, pc), *final(nes), op.instruction, operand_of(*old(nes), op.mode, pc).0),
{
    let operand = resolve_operand(nes, op.mode, pc);
    nes.cpu.pc = pc.wrapping_add(instruction_len(op.mode));
    execute(nes, op.instruction, operand);
}

/// What a CPU step from `o` reports when no access in it faults: the NMI
/// entry, the instruction decoded at `pc`, or the unknown opcode.
pub open spec fn step_outcome(o: Nes) -> Result<CpuStep, NesError> {
    let pc = o.cpu.pc;
    let byte = cpu_read_value(o, pc);
    if o.ppu.nmi_pending {
        Ok(CpuStep::Nmi { pc })
    } else {
        match decode(byte) {
            None => Err(NesError::UnimplementedOpcode { pc, opcode: byte }),
            Some(op) => Ok(CpuStep::Instruction { pc, op }),
        }
    }
}

/// How a CPU step takes the console from `o` to `n`: the NMI entry, the
/// opcode fetch alone for an unknown opcode, or the instruction's effect.
pub open spec fn step_state_effect(o: Nes, n: Nes) -> bool {
    let pc = o.cpu.pc;
    let fetched = after_cpu_read(o, pc);
    if o.ppu.nmi_pending {
        nmi_effect(o, n)
    } else {
        match decode(cpu_read_value(o, pc)) {
            None => n == fetched,
            Some(op) => execute_effect(
                before_execute(fetched, op, pc),
                n,
                op.instruction,
                operand_of(fetched, op.mode, pc).0,
            ),
        }
    }
}

/// What one CPU step does: from `o` to `n`, with result `r`. A fault already
/// recorded stops the console; one recorded during the step is its result.
pub open spec fn cpu_step_effect(o: Nes, n: Nes, r: Result<CpuStep, NesError>) -> bool {
    match o.fault {
        Some(e) => r == Err::<CpuStep, NesError>(e) && n == o,
        None => step_state_effect(o, n) && r == match n.fault {
            Some(e) => Err(e),
            None => step_outcome(o),
        },
    }
}

fn step_unchecked(nes: &mut Nes) -> (r: Result<CpuStep, NesError>)
    requires
        old(nes).wf(),
    ensures
        final(nes).wf(),
        step_state_effect(*old(nes), *final(nes)),
        r == step_outcome(*old(nes)),
{
    let pc = nes.cpu.pc;
    if nes.ppu.nmi_pending {
        enter_nmi(nes);
        return Ok(CpuStep::Nmi { pc });
    }
    let byte = nes.read_u8(pc);
    match decode_opcode(byte) {
        Some(op) => {
            run_instruction(nes, pc, op);
            Ok(CpuStep::Instruction { pc, op })
        },
        None => Err(NesError::UnimplementedOpcode { pc, opcode: byte }),
    }
}

impl Cpu {
    /// Runs one instruction at `pc`, or enters the NMI handler when an NMI is
    /// pending. An opcode outside the table is an error, with the state left
    /// as the opcode fetch left it. A bus access that nothing answers is an
    /// error too: the one recorded before the step stops it, the one recorded
    /// during it is its result.
    pub fn step(nes: &mut Nes) -> (r: Result<CpuStep, NesError>)
        requires
            old(nes).wf(),
        ensures
            final(nes).wf(),
            cpu_step_effect(*old(nes), *final(nes), r),
    {
        if let Some(e) = nes.fault {
            return Err(e);
        }
        let r = step_unchecked(nes);
        match nes.fault {
            Some(e) => Err(e),
            None => r,
        }
    }
}

/// PHP and BRK push the flags with U (and B) set; an interrupt pushes them
/// with U set and B clear.
pub proof fn lemma_pushed_flags(p: u8)
    ensures
        pushed_flags(p, true) & FLAG_U == FLAG_U,
        pushed_flags(p, true) & FLAG_B == FLAG_B,
        pushed_flags(p, false) & FLAG_U == FLAG_U,
        pushed_flags(p, false) & FLAG_B == 0,
{
    assert((p | (0x10u8 | 0x20u8)) & 0x20 == 0x20) by (bit_vector);
    assert((p | (0x10u8 | 0x20u8)) & 0x10 == 0x10) by (bit_vector);
    assert(((p & !0x10u8) | 0x20u8) & 0x20 == 0x20) by (bit_vector);
    assert(((p & !0x10u8) | 0x20u8) & 0x10 == 0) by (bit_vector);
}

/// A CPU step that runs PHP pushes the flags with U and B set and the other
/// bits as they were, at $0100 | s, and leaves s one lower.
pub proof fn lemma_php_step_pushes_u(o: Nes, n: Nes, r: Result<CpuStep, NesError>)
    requires
        o.wf(),
        o.fault is None,
        !o.ppu.nmi_pending,
        cpu_read_value(o, o.cpu.pc) == 0x08,
        cpu_step_effect(o, n, r),
    ensures
        n.ram@[stack_addr(o.cpu.s) as int] & FLAG_U == FLAG_U,
        n.ram@[stack_addr(o.cpu.s) as int] & FLAG_B == FLAG_B,
        n.ram@[stack_addr(o.cpu.s) as int] & 0xcf == o.cpu.p & 0xcf,
        n.cpu.s == s_after_push(o.cpu.s),
{
    reveal(execute_effect);
    lemma_read_frame(o, o.cpu.pc);
    let p = o.cpu.p;
    assert((p | (0x10u8 | 0x20u8)) & 0x20 == 0x20) by (bit_vector);
    assert((p | (0x10u8 | 0x20u8)) & 0x10 == 0x10) by (bit_vector);
    assert((p | (0x10u8 | 0x20u8)) & 0xcf == p & 0xcf) by (bit_vector);
}

/// A CPU step that runs BRK pushes, below the two bytes of the return
/// address, the flags with U and B set, and leaves s three lower.
pub proof fn lemma_brk_step_pushes_u(o: Nes, n: Nes, r: Result<CpuStep, NesError>)
    requires
        o.wf(),
        o.fault is None,
        !o.ppu.nmi_pending,
        cpu_read_value(o, o.cpu.pc) == 0x00,
        cpu_step_effect(o, n, r),
    ensures
        n.ram@[stack_addr(s_after_push(s_after_push(o.cpu.s))) as int] & FLAG_U == FLAG_U,
        n.ram@[stack_addr(s_after_push(s_after_push(o.cpu.s))) as int] & FLAG_B == FLAG_B,
        n.cpu.s == s_after_push(s_after_push(s_after_push(o.cpu.s))),
{
    reveal(execute_effect);
    lemma_read_frame(o, o.cpu.pc);
    let p = o.cpu.p;
    assert((p | (0x10u8 | 0x20u8)) & 0x20 == 0x20) by (bit_vector);
    assert((p | (0x10u8 | 0x20u8)) & 0x10 == 0x10) by (bit_vector);
}

} // verus!
