use vstd::prelude::*;

verus! {

/// The addressing modes of the NMOS 6502.
#[derive(Clone, Copy, PartialEq, Eq, Structural)]
pub enum Mode {
    Implied,
    Accumulator,
    Immediate,
    ZeroPage,
    ZeroPageX,
    ZeroPageY,
    Absolute,
    AbsoluteX,
    AbsoluteY,
    /// `JMP (abs)` only.
    Indirect,
    /// `(zp,X)`.
    IndexedIndirect,
    /// `(zp),Y`.
    IndirectIndexed,
    Relative,
}

/// The documented operations, plus `Undefined` for a byte that encodes none of them.
#[derive(Clone, Copy, PartialEq, Eq, Structural)]
pub enum Operation {
    Adc, And, Asl, Bcc, Bcs, Beq, Bit, Bmi, Bne, Bpl, Brk, Bvc, Bvs, Clc,
    Cld, Cli, Clv, Cmp, Cpx, Cpy, Dec, Dex, Dey, Eor, Inc, Inx, Iny, Jmp,
    Jsr, Lda, Ldx, Ldy, Lsr, Nop, Ora, Pha, Php, Pla, Plp, Rol, Ror, Rti,
    Rts, Sbc, Sec, Sed, Sei, Sta, Stx, Sty, Tax, Tay, Tsx, Txa, Txs, Tya,
    Undefined,
}

/// A decoded opcode byte: what it does, how it finds its operand, and its base cycle count.
#[derive(Clone, Copy, PartialEq, Eq, Structural)]
pub struct Instruction {
    pub operation: Operation,
    pub mode: Mode,
    pub cycles: u8,
}

impl Instruction {
    /// The number of bytes the instruction occupies, which is what the program counter
    /// advances by after the fetch. BRK counts its padding byte.
    pub open spec fn spec_length(self) -> u16 {
        match self.mode {
            Mode::Implied | Mode::Accumulator => if self.operation is Brk {
                2
            } else {
                1
            },
            Mode::Immediate | Mode::ZeroPage | Mode::ZeroPageX | Mode::ZeroPageY
            | Mode::IndexedIndirect | Mode::IndirectIndexed | Mode::Relative => 2,
            Mode::Absolute | Mode::AbsoluteX | Mode::AbsoluteY | Mode::Indirect => 3,
        }
    }

    pub fn length(&self) -> (r: u16)
        ensures
            r == self.spec_length(),
    {
        match self.mode {
            Mode::Implied | Mode::Accumulator => if matches!(self.operation, Operation::Brk) {
                2
            } else {
                1
            },
            Mode::Immediate | Mode::ZeroPage | Mode::ZeroPageX | Mode::ZeroPageY
            | Mode::IndexedIndirect | Mode::IndirectIndexed | Mode::Relative => 2,
            Mode::Absolute | Mode::AbsoluteX | Mode::AbsoluteY | Mode::Indirect => 3,
        }
    }
}

/// The instruction an opcode byte encodes. The five two-byte undocumented no-ops
/// (0x80, 0x82, 0x89, 0xC2, 0xE2) decode as an immediate `Nop`; every other byte
/// outside the documented set decodes as `Undefined`, a one-byte no-op.
pub open spec fn decode_spec(byte: u8) -> Instruction {
    match byte {
        0x00 => Instruction { operation: Operation::Brk, mode: Mode::Implied, cycles: 7 },
        0x01 => Instruction { operation: Operation::Ora, mode: Mode::IndexedIndirect, cycles: 6 },
        0x05 => Instruction { operation: Operation::Ora, mode: Mode::ZeroPage, cycles: 3 },
        0x06 => Instruction { operation: Operation::Asl, mode: Mode::ZeroPage, cycles: 5 },
        0x08 => Instruction { operation: Operation::Php, mode: Mode::Implied, cycles: 3 },
        0x09 => Instruction { operation: Operation::Ora, mode: Mode::Immediate, cycles: 2 },
        0x0A => Instruction { operation: Operation::Asl, mode: Mode::Accumulator, cycles: 2 },
        0x0D => Instruction { operation: Operation::Ora, mode: Mode::Absolute, cycles: 4 },
        0x0E => Instruction { operation: Operation::Asl, mode: Mode::Absolute, cycles: 6 },
        0x10 => Instruction { operation: Operation::Bpl, mode: Mode::Relative, cycles: 2 },
        0x11 => Instruction { operation: Operation::Ora, mode: Mode::IndirectIndexed, cycles: 5 },
        0x15 => Instruction { operation: Operation::Ora, mode: Mode::ZeroPageX, cycles: 4 },
        0x16 => Instruction { operation: Operation::Asl, mode: Mode::ZeroPageX, cycles: 6 },
        0x18 => Instruction { operation: Operation::Clc, mode: Mode::Implied, cycles: 2 },
        0x19 => Instruction { operation: Operation::Ora, mode: Mode::AbsoluteY, cycles: 4 },
        0x1D => Instruction { operation: Operation::Ora, mode: Mode::AbsoluteX, cycles: 4 },
        0x1E => Instruction { operation: Operation::Asl, mode: Mode::AbsoluteX, cycles: 7 },
        0x20 => Instruction { operation: Operation::Jsr, mode: Mode::Absolute, cycles: 6 },
        0x21 => Instruction { operation: Operation::And, mode: Mode::IndexedIndirect, cycles: 6 },
        0x24 => Instruction { operation: Operation::Bit, mode: Mode::ZeroPage, cycles: 3 },
        0x25 => Instruction { operation: Operation::And, mode: Mode::ZeroPage, cycles: 3 },
        0x26 => Instruction { operation: Operation::Rol, mode: Mode::ZeroPage, cycles: 5 },
        0x28 => Instruction { operation: Operation::Plp, mode: Mode::Implied, cycles: 4 },
        0x29 => Instruction { operation: Operation::And, mode: Mode::Immediate, cycles: 2 },
        0x2A => Instruction { operation: Operation::Rol, mode: Mode::Accumulator, cycles: 2 },
        0x2C => Instruction { operation: Operation::Bit, mode: Mode::Absolute, cycles: 4 },
        0x2D => Instruction { operation: Operation::And, mode: Mode::Absolute, cycles: 4 },
        0x2E => Instruction { operation: Operation::Rol, mode: Mode::Absolute, cycles: 6 },
        0x30 => Instruction { operation: Operation::Bmi, mode: Mode::Relative, cycles: 2 },
        0x31 => Instruction { operation: Operation::And, mode: Mode::IndirectIndexed, cycles: 5 },
        0x35 => Instruction { operation: Operation::And, mode: Mode::ZeroPageX, cycles: 4 },
        0x36 => Instruction { operation: Operation::Rol, mode: Mode::ZeroPageX, cycles: 6 },
        0x38 => Instruction { operation: Operation::Sec, mode: Mode::Implied, cycles: 2 },
        0x39 => Instruction { operation: Operation::And, mode: Mode::AbsoluteY, cycles: 4 },
        0x3D => Instruction { operation: Operation::And, mode: Mode::AbsoluteX, cycles: 4 },
        0x3E => Instruction { operation: Operation::Rol, mode: Mode::AbsoluteX, cycles: 7 },
        0x40 => Instruction { operation: Operation::Rti, mode: Mode::Implied, cycles: 6 },
        0x41 => Instruction { operation: Operation::Eor, mode: Mode::IndexedIndirect, cycles: 6 },
        0x45 => Instruction { operation: Operation::Eor, mode: Mode::ZeroPage, cycles: 3 },
        0x46 => Instruction { operation: Operation::Lsr, mode: Mode::ZeroPage, cycles: 5 },
        0x48 => Instruction { operation: Operation::Pha, mode: Mode::Implied, cycles: 3 },
        0x49 => Instruction { operation: Operation::Eor, mode: Mode::Immediate, cycles: 2 },
        0x4A => Instruction { operation: Operation::Lsr, mode: Mode::Accumulator, cycles: 2 },
        0x4C => Instruction { operation: Operation::Jmp, mode: Mode::Absolute, cycles: 3 },
        0x4D => Instruction { operation: Operation::Eor, mode: Mode::Absolute, cycles: 4 },
        0x4E => Instruction { operation: Operation::Lsr, mode: Mode::Absolute, cycles: 6 },
        0x50 => Instruction { operation: Operation::Bvc, mode: Mode::Relative, cycles: 2 },
        0x51 => Instruction { operation: Operation::Eor, mode: Mode::IndirectIndexed, cycles: 5 },
        0x55 => Instruction { operation: Operation::Eor, mode: Mode::ZeroPageX, cycles: 4 },
        0x56 => Instruction { operation: Operation::Lsr, mode: Mode::ZeroPageX, cycles: 6 },
        0x58 => Instruction { operation: Operation::Cli, mode: Mode::Implied, cycles: 2 },
        0x59 => Instruction { operation: Operation::Eor, mode: Mode::AbsoluteY, cycles: 4 },
        0x5D => Instruction { operation: Operation::Eor, mode: Mode::AbsoluteX, cycles: 4 },
        0x5E => Instruction { operation: Operation::Lsr, mode: Mode::AbsoluteX, cycles: 7 },
        0x60 => Instruction { operation: Operation::Rts, mode: Mode::Implied, cycles: 6 },
        0x61 => Instruction { operation: Operation::Adc, mode: Mode::IndexedIndirect, cycles: 6 },
        0x65 => Instruction { operation: Operation::Adc, mode: Mode::ZeroPage, cycles: 3 },
        0x66 => Instruction { operation: Operation::Ror, mode: Mode::ZeroPage, cycles: 5 },
        0x68 => Instruction { operation: Operation::Pla, mode: Mode::Implied, cycles: 4 },
        0x69 => Instruction { operation: Operation::Adc, mode: Mode::Immediate, cycles: 2 },
        0x6A => Instruction { operation: Operation::Ror, mode: Mode::Accumulator, cycles: 2 },
        0x6C => Instruction { operation: Operation::Jmp, mode: Mode::Indirect, cycles: 5 },
        0x6D => Instruction { operation: Operation::Adc, mode: Mode::Absolute, cycles: 4 },
        0x6E => Instruction { operation: Operation::Ror, mode: Mode::Absolute, cycles: 6 },
        0x70 => Instruction { operation: Operation::Bvs, mode: Mode::Relative, cycles: 2 },
        0x71 => Instruction { operation: Operation::Adc, mode: Mode::IndirectIndexed, cycles: 5 },
        0x75 => Instruction { operation: Operation::Adc, mode: Mode::ZeroPageX, cycles: 4 },
        0x76 => Instruction { operation: Operation::Ror, mode: Mode::ZeroPageX, cycles: 6 },
        0x78 => Instruction { operation: Operation::Sei, mode: Mode::Implied, cycles: 2 },
        0x79 => Instruction { operation: Operation::Adc, mode: Mode::AbsoluteY, cycles: 4 },
        0x7D => Instruction { operation: Operation::Adc, mode: Mode::AbsoluteX, cycles: 4 },
        0x7E => Instruction { operation: Operation::Ror, mode: Mode::AbsoluteX, cycles: 7 },
        0x80 => Instruction { operation: Operation::Nop, mode: Mode::Immediate, cycles: 2 },
        0x81 => Instruction { operation: Operation::Sta, mode: Mode::IndexedIndirect, cycles: 6 },
        0x82 => Instruction { operation: Operation::Nop, mode: Mode::Immediate, cycles: 2 },
        0x84 => Instruction { operation: Operation::Sty, mode: Mode::ZeroPage, cycles: 3 },
        0x85 => Instruction { operation: Operation::Sta, mode: Mode::ZeroPage, cycles: 3 },
        0x86 => Instruction { operation: Operation::Stx, mode: Mode::ZeroPage, cycles: 3 },
        0x88 => Instruction { operation: Operation::Dey, mode: Mode::Implied, cycles: 2 },
        0x89 => Instruction { operation: Operation::Nop, mode: Mode::Immediate, cycles: 2 },
        0x8A => Instruction { operation: Operation::Txa, mode: Mode::Implied, cycles: 2 },
        0x8C => Instruction { operation: Operation::Sty, mode: Mode::Absolute, cycles: 4 },
        0x8D => Instruction { operation: Operation::Sta, mode: Mode::Absolute, cycles: 4 },
        0x8E => Instruction { operation: Operation::Stx, mode: Mode::Absolute, cycles: 4 },
        0x90 => Instruction { operation: Operation::Bcc, mode: Mode::Relative, cycles: 2 },
        0x91 => Instruction { operation: Operation::Sta, mode: Mode::IndirectIndexed, cycles: 6 },
        0x94 => Instruction { operation: Operation::Sty, mode: Mode::ZeroPageX, cycles: 4 },
        0x95 => Instruction { operation: Operation::Sta, mode: Mode::ZeroPageX, cycles: 4 },
        0x96 => Instruction { operation: Operation::Stx, mode: Mode::ZeroPageY, cycles: 4 },
        0x98 => Instruction { operation: Operation::Tya, mode: Mode::Implied, cycles: 2 },
        0x99 => Instruction { operation: Operation::Sta, mode: Mode::AbsoluteY, cycles: 5 },
        0x9A => Instruction { operation: Operation::Txs, mode: Mode::Implied, cycles: 2 },
        0x9D => Instruction { operation: Operation::Sta, mode: Mode::AbsoluteX, cycles: 5 },
        0xA0 => Instruction { operation: Operation::Ldy, mode: Mode::Immediate, cycles: 2 },
        0xA1 => Instruction { operation: Operation::Lda, mode: Mode::IndexedIndirect, cycles: 6 },
        0xA2 => Instruction { operation: Operation::Ldx, mode: Mode::Immediate, cycles: 2 },
        0xA4 => Instruction { operation: Operation::Ldy, mode: Mode::ZeroPage, cycles: 3 },
        0xA5 => Instruction { operation: Operation::Lda, mode: Mode::ZeroPage, cycles: 3 },
        0xA6 => Instruction { operation: Operation::Ldx, mode: Mode::ZeroPage, cycles: 3 },
        0xA8 => Instruction { operation: Operation::Tay, mode: Mode::Implied, cycles: 2 },
        0xA9 => Instruction { operation: Operation::Lda, mode: Mode::Immediate, cycles: 2 },
        0xAA => Instruction { operation: Operation::Tax, mode: Mode::Implied, cycles: 2 },
        0xAC => Instruction { operation: Operation::Ldy, mode: Mode::Absolute, cycles: 4 },
        0xAD => Instruction { operation: Operation::Lda, mode: Mode::Absolute, cycles: 4 },
        0xAE => Instruction { operation: Operation::Ldx, mode: Mode::Absolute, cycles: 4 },
        0xB0 => Instruction { operation: Operation::Bcs, mode: Mode::Relative, cycles: 2 },
        0xB1 => Instruction { operation: Operation::Lda, mode: Mode::IndirectIndexed, cycles: 5 },
        0xB4 => Instruction { operation: Operation::Ldy, mode: Mode::ZeroPageX, cycles: 4 },
        0xB5 => Instruction { operation: Operation::Lda, mode: Mode::ZeroPageX, cycles: 4 },
        0xB6 => Instruction { operation: Operation::Ldx, mode: Mode::ZeroPageY, cycles: 4 },
        0xB8 => Instruction { operation: Operation::Clv, mode: Mode::Implied, cycles: 2 },
        0xB9 => Instruction { operation: Operation::Lda, mode: Mode::AbsoluteY, cycles: 4 },
        0xBA => Instruction { operation: Operation::Tsx, mode: Mode::Implied, cycles: 2 },
        0xBC => Instruction { operation: Operation::Ldy, mode: Mode::AbsoluteX, cycles: 4 },
        0xBD => Instruction { operation: Operation::Lda, mode: Mode::AbsoluteX, cycles: 4 },
        0xBE => Instruction { operation: Operation::Ldx, mode: Mode::AbsoluteY, cycles: 4 },
        0xC0 => Instruction { operation: Operation::Cpy, mode: Mode::Immediate, cycles: 2 },
        0xC1 => Instruction { operation: Operation::Cmp, mode: Mode::IndexedIndirect, cycles: 6 },
        0xC2 => Instruction { operation: Operation::Nop, mode: Mode::Immediate, cycles: 2 },
        0xC4 => Instruction { operation: Operation::Cpy, mode: Mode::ZeroPage, cycles: 3 },
        0xC5 => Instruction { operation: Operation::Cmp, mode: Mode::ZeroPage, cycles: 3 },
        0xC6 => Instruction { operation: Operation::Dec, mode: Mode::ZeroPage, cycles: 5 },
        0xC8 => Instruction { operation: Operation::Iny, mode: Mode::Implied, cycles: 2 },
        0xC9 => Instruction { operation: Operation::Cmp, mode: Mode::Immediate, cycles: 2 },
        0xCA => Instruction { operation: Operation::Dex, mode: Mode::Implied, cycles: 2 },
        0xCC => Instruction { operation: Operation::Cpy, mode: Mode::Absolute, cycles: 4 },
        0xCD => Instruction { operation: Operation::Cmp, mode: Mode::Absolute, cycles: 4 },
        0xCE => Instruction { operation: Operation::Dec, mode: Mode::Absolute, cycles: 6 },
        0xD0 => Instruction { operation: Operation::Bne, mode: Mode::Relative, cycles: 2 },
        0xD1 => Instruction { operation: Operation::Cmp, mode: Mode::IndirectIndexed, cycles: 5 },
        0xD5 => Instruction { operation: Operation::Cmp, mode: Mode::ZeroPageX, cycles: 4 },
        0xD6 => Instruction { operation: Operation::Dec, mode: Mode::ZeroPageX, cycles: 6 },
        0xD8 => Instruction { operation: Operation::Cld, mode: Mode::Implied, cycles: 2 },
        0xD9 => Instruction { operation: Operation::Cmp, mode: Mode::AbsoluteY, cycles: 4 },
        0xDD => Instruction { operation: Operation::Cmp, mode: Mode::AbsoluteX, cycles: 4 },
        0xDE => Instruction { operation: Operation::Dec, mode: Mode::AbsoluteX, cycles: 7 },
        0xE0 => Instruction { operation: Operation::Cpx, mode: Mode::Immediate, cycles: 2 },
        0xE1 => Instruction { operation: Operation::Sbc, mode: Mode::IndexedIndirect, cycles: 6 },
        0xE2 => Instruction { operation: Operation::Nop, mode: Mode::Immediate, cycles: 2 },
        0xE4 => Instruction { operation: Operation::Cpx, mode: Mode::ZeroPage, cycles: 3 },
        0xE5 => Instruction { operation: Operation::Sbc, mode: Mode::ZeroPage, cycles: 3 },
        0xE6 => Instruction { operation: Operation::Inc, mode: Mode::ZeroPage, cycles: 5 },
        0xE8 => Instruction { operation: Operation::Inx, mode: Mode::Implied, cycles: 2 },
        0xE9 => Instruction { operation: Operation::Sbc, mode: Mode::Immediate, cycles: 2 },
        0xEA => Instruction { operation: Operation::Nop, mode: Mode::Implied, cycles: 2 },
        0xEC => Instruction { operation: Operation::Cpx, mode: Mode::Absolute, cycles: 4 },
        0xED => Instruction { operation: Operation::Sbc, mode: Mode::Absolute, cycles: 4 },
        0xEE => Instruction { operation: Operation::Inc, mode: Mode::Absolute, cycles: 6 },
        0xF0 => Instruction { operation: Operation::Beq, mode: Mode::Relative, cycles: 2 },
        0xF1 => Instruction { operation: Operation::Sbc, mode: Mode::IndirectIndexed, cycles: 5 },
        0xF5 => Instruction { operation: Operation::Sbc, mode: Mode::ZeroPageX, cycles: 4 },
        0xF6 => Instruction { operation: Operation::Inc, mode: Mode::ZeroPageX, cycles: 6 },
        0xF8 => Instruction { operation: Operation::Sed, mode: Mode::Implied, cycles: 2 },
        0xF9 => Instruction { operation: Operation::Sbc, mode: Mode::AbsoluteY, cycles: 4 },
        0xFD => Instruction { operation: Operation::Sbc, mode: Mode::AbsoluteX, cycles: 4 },
        0xFE => Instruction { operation: Operation::Inc, mode: Mode::AbsoluteX, cycles: 7 },
        _ => Instruction { operation: Operation::Undefined, mode: Mode::Implied, cycles: 2 },
    }
}

/// Decodes an opcode byte.
pub fn decode(byte: u8) -> (r: Instruction)
    ensures
        r == decode_spec(byte),
{
    match byte {
        0x00 => Instruction { operation: Operation::Brk, mode: Mode::Implied, cycles: 7 },
        0x01 => Instruction { operation: Operation::Ora, mode: Mode::IndexedIndirect, cycles: 6 },
        0x05 => Instruction { operation: Operation::Ora, mode: Mode::ZeroPage, cycles: 3 },
        0x06 => Instruction { operation: Operation::Asl, mode: Mode::ZeroPage, cycles: 5 },
        0x08 => Instruction { operation: Operation::Php, mode: Mode::Implied, cycles: 3 },
        0x09 => Instruction { operation: Operation::Ora, mode: Mode::Immediate, cycles: 2 },
        0x0A => Instruction { operation: Operation::Asl, mode: Mode::Accumulator, cycles: 2 },
        0x0D => Instruction { operation: Operation::Ora, mode: Mode::Absolute, cycles: 4 },
        0x0E => Instruction { operation: Operation::Asl, mode: Mode::Absolute, cycles: 6 },
        0x10 => Instruction { operation: Operation::Bpl, mode: Mode::Relative, cycles: 2 },
        0x11 => Instruction { operation: Operation::Ora, mode: Mode::IndirectIndexed, cycles: 5 },
        0x15 => Instruction { operation: Operation::Ora, mode: Mode::ZeroPageX, cycles: 4 },
        0x16 => Instruction { operation: Operation::Asl, mode: Mode::ZeroPageX, cycles: 6 },
        0x18 => Instruction { operation: Operation::Clc, mode: Mode::Implied, cycles: 2 },
        0x19 => Instruction { operation: Operation::Ora, mode: Mode::AbsoluteY, cycles: 4 },
        0x1D => Instruction { operation: Operation::Ora, mode: Mode::AbsoluteX, cycles: 4 },
        0x1E => Instruction { operation: Operation::Asl, mode: Mode::AbsoluteX, cycles: 7 },
        0x20 => Instruction { operation: Operation::Jsr, mode: Mode::Absolute, cycles: 6 },
        0x21 => Instruction { operation: Operation::And, mode: Mode::IndexedIndirect, cycles: 6 },
        0x24 => Instruction { operation: Operation::Bit, mode: Mode::ZeroPage, cycles: 3 },
        0x25 => Instruction { operation: Operation::And, mode: Mode::ZeroPage, cycles: 3 },
        0x26 => Instruction { operation: Operation::Rol, mode: Mode::ZeroPage, cycles: 5 },
        0x28 => Instruction { operation: Operation::Plp, mode: Mode::Implied, cycles: 4 },
        0x29 => Instruction { operation: Operation::And, mode: Mode::Immediate, cycles: 2 },
        0x2A => Instruction { operation: Operation::Rol, mode: Mode::Accumulator, cycles: 2 },
        0x2C => Instruction { operation: Operation::Bit, mode: Mode::Absolute, cycles: 4 },
        0x2D => Instruction { operation: Operation::And, mode: Mode::Absolute, cycles: 4 },
        0x2E => Instruction { operation: Operation::Rol, mode: Mode::Absolute, cycles: 6 },
        0x30 => Instruction { operation: Operation::Bmi, mode: Mode::Relative, cycles: 2 },
        0x31 => Instruction { operation: Operation::And, mode: Mode::IndirectIndexed, cycles: 5 },
        0x35 => Instruction { operation: Operation::And, mode: Mode::ZeroPageX, cycles: 4 },
        0x36 => Instruction { operation: Operation::Rol, mode: Mode::ZeroPageX, cycles: 6 },
        0x38 => Instruction { operation: Operation::Sec, mode: Mode::Implied, cycles: 2 },
        0x39 => Instruction { operation: Operation::And, mode: Mode::AbsoluteY, cycles: 4 },
        0x3D => Instruction { operation: Operation::And, mode: Mode::AbsoluteX, cycles: 4 },
        0x3E => Instruction { operation: Operation::Rol, mode: Mode::AbsoluteX, cycles: 7 },
        0x40 => Instruction { operation: Operation::Rti, mode: Mode::Implied, cycles: 6 },
        0x41 => Instruction { operation: Operation::Eor, mode: Mode::IndexedIndirect, cycles: 6 },
        0x45 => Instruction { operation: Operation::Eor, mode: Mode::ZeroPage, cycles: 3 },
        0x46 => Instruction { operation: Operation::Lsr, mode: Mode::ZeroPage, cycles: 5 },
        0x48 => Instruction { operation: Operation::Pha, mode: Mode::Implied, cycles: 3 },
        0x49 => Instruction { operation: Operation::Eor, mode: Mode::Immediate, cycles: 2 },
        0x4A => Instruction { operation: Operation::Lsr, mode: Mode::Accumulator, cycles: 2 },
        0x4C => Instruction { operation: Operation::Jmp, mode: Mode::Absolute, cycles: 3 },
        0x4D => Instruction { operation: Operation::Eor, mode: Mode::Absolute, cycles: 4 },
        0x4E => Instruction { operation: Operation::Lsr, mode: Mode::Absolute, cycles: 6 },
        0x50 => Instruction { operation: Operation::Bvc, mode: Mode::Relative, cycles: 2 },
        0x51 => Instruction { operation: Operation::Eor, mode: Mode::IndirectIndexed, cycles: 5 },
        0x55 => Instruction { operation: Operation::Eor, mode: Mode::ZeroPageX, cycles: 4 },
        0x56 => Instruction { operation: Operation::Lsr, mode: Mode::ZeroPageX, cycles: 6 },
        0x58 => Instruction { operation: Operation::Cli, mode: Mode::Implied, cycles: 2 },
        0x59 => Instruction { operation: Operation::Eor, mode: Mode::AbsoluteY, cycles: 4 },
        0x5D => Instruction { operation: Operation::Eor, mode: Mode::AbsoluteX, cycles: 4 },
        0x5E => Instruction { operation: Operation::Lsr, mode: Mode::AbsoluteX, cycles: 7 },
        0x60 => Instruction { operation: Operation::Rts, mode: Mode::Implied, cycles: 6 },
        0x61 => Instruction { operation: Operation::Adc, mode: Mode::IndexedIndirect, cycles: 6 },
        0x65 => Instruction { operation: Operation::Adc, mode: Mode::ZeroPage, cycles: 3 },
        0x66 => Instruction { operation: Operation::Ror, mode: Mode::ZeroPage, cycles: 5 },
        0x68 => Instruction { operation: Operation::Pla, mode: Mode::Implied, cycles: 4 },
        0x69 => Instruction { operation: Operation::Adc, mode: Mode::Immediate, cycles: 2 },
        0x6A => Instruction { operation: Operation::Ror, mode: Mode::Accumulator, cycles: 2 },
        0x6C => Instruction { operation: Operation::Jmp, mode: Mode::Indirect, cycles: 5 },
        0x6D => Instruction { operation: Operation::Adc, mode: Mode::Absolute, cycles: 4 },
        0x6E => Instruction { operation: Operation::Ror, mode: Mode::Absolute, cycles: 6 },
        0x70 => Instruction { operation: Operation::Bvs, mode: Mode::Relative, cycles: 2 },
        0x71 => Instruction { operation: Operation::Adc, mode: Mode::IndirectIndexed, cycles: 5 },
        0x75 => Instruction { operation: Operation::Adc, mode: Mode::ZeroPageX, cycles: 4 },
        0x76 => Instruction { operation: Operation::Ror, mode: Mode::ZeroPageX, cycles: 6 },
        0x78 => Instruction { operation: Operation::Sei, mode: Mode::Implied, cycles: 2 },
        0x79 => Instruction { operation: Operation::Adc, mode: Mode::AbsoluteY, cycles: 4 },
        0x7D => Instruction { operation: Operation::Adc, mode: Mode::AbsoluteX, cycles: 4 },
        0x7E => Instruction { operation: Operation::Ror, mode: Mode::AbsoluteX, cycles: 7 },
        0x80 => Instruction { operation: Operation::Nop, mode: Mode::Immediate, cycles: 2 },
        0x81 => Instruction { operation: Operation::Sta, mode: Mode::IndexedIndirect, cycles: 6 },
        0x82 => Instruction { operation: Operation::Nop, mode: Mode::Immediate, cycles: 2 },
        0x84 => Instruction { operation: Operation::Sty, mode: Mode::ZeroPage, cycles: 3 },
        0x85 => Instruction { operation: Operation::Sta, mode: Mode::ZeroPage, cycles: 3 },
        0x86 => Instruction { operation: Operation::Stx, mode: Mode::ZeroPage, cycles: 3 },
        0x88 => Instruction { operation: Operation::Dey, mode: Mode::Implied, cycles: 2 },
        0x89 => Instruction { operation: Operation::Nop, mode: Mode::Immediate, cycles: 2 },
        0x8A => Instruction { operation: Operation::Txa, mode: Mode::Implied, cycles: 2 },
        0x8C => Instruction { operation: Operation::Sty, mode: Mode::Absolute, cycles: 4 },
        0x8D => Instruction { operation: Operation::Sta, mode: Mode::Absolute, cycles: 4 },
        0x8E => Instruction { operation: Operation::Stx, mode: Mode::Absolute, cycles: 4 },
        0x90 => Instruction { operation: Operation::Bcc, mode: Mode::Relative, cycles: 2 },
        0x91 => Instruction { operation: Operation::Sta, mode: Mode::IndirectIndexed, cycles: 6 },
        0x94 => Instruction { operation: Operation::Sty, mode: Mode::ZeroPageX, cycles: 4 },
        0x95 => Instruction { operation: Operation::Sta, mode: Mode::ZeroPageX, cycles: 4 },
        0x96 => Instruction { operation: Operation::Stx, mode: Mode::ZeroPageY, cycles: 4 },
        0x98 => Instruction { operation: Operation::Tya, mode: Mode::Implied, cycles: 2 },
        0x99 => Instruction { operation: Operation::Sta, mode: Mode::AbsoluteY, cycles: 5 },
        0x9A => Instruction { operation: Operation::Txs, mode: Mode::Implied, cycles: 2 },
        0x9D => Instruction { operation: Operation::Sta, mode: Mode::AbsoluteX, cycles: 5 },
        0xA0 => Instruction { operation: Operation::Ldy, mode: Mode::Immediate, cycles: 2 },
        0xA1 => Instruction { operation: Operation::Lda, mode: Mode::IndexedIndirect, cycles: 6 },
        0xA2 => Instruction { operation: Operation::Ldx, mode: Mode::Immediate, cycles: 2 },
        0xA4 => Instruction { operation: Operation::Ldy, mode: Mode::ZeroPage, cycles: 3 },
        0xA5 => Instruction { operation: Operation::Lda, mode: Mode::ZeroPage, cycles: 3 },
        0xA6 => Instruction { operation: Operation::Ldx, mode: Mode::ZeroPage, cycles: 3 },
        0xA8 => Instruction { operation: Operation::Tay, mode: Mode::Implied, cycles: 2 },
        0xA9 => Instruction { operation: Operation::Lda, mode: Mode::Immediate, cycles: 2 },
        0xAA => Instruction { operation: Operation::Tax, mode: Mode::Implied, cycles: 2 },
        0xAC => Instruction { operation: Operation::Ldy, mode: Mode::Absolute, cycles: 4 },
        0xAD => Instruction { operation: Operation::Lda, mode: Mode::Absolute, cycles: 4 },
        0xAE => Instruction { operation: Operation::Ldx, mode: Mode::Absolute, cycles: 4 },
        0xB0 => Instruction { operation: Operation::Bcs, mode: Mode::Relative, cycles: 2 },
        0xB1 => Instruction { operation: Operation::Lda, mode: Mode::IndirectIndexed, cycles: 5 },
        0xB4 => Instruction { operation: Operation::Ldy, mode: Mode::ZeroPageX, cycles: 4 },
        0xB5 => Instruction { operation: Operation::Lda, mode: Mode::ZeroPageX, cycles: 4 },
        0xB6 => Instruction { operation: Operation::Ldx, mode: Mode::ZeroPageY, cycles: 4 },
        0xB8 => Instruction { operation: Operation::Clv, mode: Mode::Implied, cycles: 2 },
        0xB9 => Instruction { operation: Operation::Lda, mode: Mode::AbsoluteY, cycles: 4 },
        0xBA => Instruction { operation: Operation::Tsx, mode: Mode::Implied, cycles: 2 },
        0xBC => Instruction { operation: Operation::Ldy, mode: Mode::AbsoluteX, cycles: 4 },
        0xBD => Instruction { operation: Operation::Lda, mode: Mode::AbsoluteX, cycles: 4 },
        0xBE => Instruction { operation: Operation::Ldx, mode: Mode::AbsoluteY, cycles: 4 },
        0xC0 => Instruction { operation: Operation::Cpy, mode: Mode::Immediate, cycles: 2 },
        0xC1 => Instruction { operation: Operation::Cmp, mode: Mode::IndexedIndirect, cycles: 6 },
        0xC2 => Instruction { operation: Operation::Nop, mode: Mode::Immediate, cycles: 2 },
        0xC4 => Instruction { operation: Operation::Cpy, mode: Mode::ZeroPage, cycles: 3 },
        0xC5 => Instruction { operation: Operation::Cmp, mode: Mode::ZeroPage, cycles: 3 },
        0xC6 => Instruction { operation: Operation::Dec, mode: Mode::ZeroPage, cycles: 5 },
        0xC8 => Instruction { operation: Operation::Iny, mode: Mode::Implied, cycles: 2 },
        0xC9 => Instruction { operation: Operation::Cmp, mode: Mode::Immediate, cycles: 2 },
        0xCA => Instruction { operation: Operation::Dex, mode: Mode::Implied, cycles: 2 },
        0xCC => Instruction { operation: Operation::Cpy, mode: Mode::Absolute, cycles: 4 },
        0xCD => Instruction { operation: Operation::Cmp, mode: Mode::Absolute, cycles: 4 },
        0xCE => Instruction { operation: Operation::Dec, mode: Mode::Absolute, cycles: 6 },
        0xD0 => Instruction { operation: Operation::Bne, mode: Mode::Relative, cycles: 2 },
        0xD1 => Instruction { operation: Operation::Cmp, mode: Mode::IndirectIndexed, cycles: 5 },
        0xD5 => Instruction { operation: Operation::Cmp, mode: Mode::ZeroPageX, cycles: 4 },
        0xD6 => Instruction { operation: Operation::Dec, mode: Mode::ZeroPageX, cycles: 6 },
        0xD8 => Instruction { operation: Operation::Cld, mode: Mode::Implied, cycles: 2 },
        0xD9 => Instruction { operation: Operation::Cmp, mode: Mode::AbsoluteY, cycles: 4 },
        0xDD => Instruction { operation: Operation::Cmp, mode: Mode::AbsoluteX, cycles: 4 },
        0xDE => Instruction { operation: Operation::Dec, mode: Mode::AbsoluteX, cycles: 7 },
        0xE0 => Instruction { operation: Operation::Cpx, mode: Mode::Immediate, cycles: 2 },
        0xE1 => Instruction { operation: Operation::Sbc, mode: Mode::IndexedIndirect, cycles: 6 },
        0xE2 => Instruction { operation: Operation::Nop, mode: Mode::Immediate, cycles: 2 },
        0xE4 => Instruction { operation: Operation::Cpx, mode: Mode::ZeroPage, cycles: 3 },
        0xE5 => Instruction { operation: Operation::Sbc, mode: Mode::ZeroPage, cycles: 3 },
        0xE6 => Instruction { operation: Operation::Inc, mode: Mode::ZeroPage, cycles: 5 },
        0xE8 => Instruction { operation: Operation::Inx, mode: Mode::Implied, cycles: 2 },
        0xE9 => Instruction { operation: Operation::Sbc, mode: Mode::Immediate, cycles: 2 },
        0xEA => Instruction { operation: Operation::Nop, mode: Mode::Implied, cycles: 2 },
        0xEC => Instruction { operation: Operation::Cpx, mode: Mode::Absolute, cycles: 4 },
        0xED => Instruction { operation: Operation::Sbc, mode: Mode::Absolute, cycles: 4 },
        0xEE => Instruction { operation: Operation::Inc, mode: Mode::Absolute, cycles: 6 },
        0xF0 => Instruction { operation: Operation::Beq, mode: Mode::Relative, cycles: 2 },
        0xF1 => Instruction { operation: Operation::Sbc, mode: Mode::IndirectIndexed, cycles: 5 },
        0xF5 => Instruction { operation: Operation::Sbc, mode: Mode::ZeroPageX, cycles: 4 },
        0xF6 => Instruction { operation: Operation::Inc, mode: Mode::ZeroPageX, cycles: 6 },
        0xF8 => Instruction { operation: Operation::Sed, mode: Mode::Implied, cycles: 2 },
        0xF9 => Instruction { operation: Operation::Sbc, mode: Mode::AbsoluteY, cycles: 4 },
        0xFD => Instruction { operation: Operation::Sbc, mode: Mode::AbsoluteX, cycles: 4 },
        0xFE => Instruction { operation: Operation::Inc, mode: Mode::AbsoluteX, cycles: 7 },
        _ => Instruction { operation: Operation::Undefined, mode: Mode::Implied, cycles: 2 },
    }
}

} // verus!
