use vstd::prelude::*;

use crate::bus::Bus;
use crate::bus::write_ok;
use crate::bus::write_rel;
use crate::fault::Fault;

verus! {

/// Processor core: architectural registers, the six status flags, and the
/// halted latch. The program counter and the stack pointer wrap modulo
/// their width on every increment and decrement.
#[derive(Debug, Clone, Copy, PartialEq, Eq, Structural)]
pub struct Cpu {
    pub program_counter: u16,
    pub a: u8,
    pub x: u8,
    pub y: u8,
    pub stack_pointer: u8,
    pub flag_carry: bool,
    pub flag_zero: bool,
    pub flag_interrupt_disable: bool,
    pub flag_decimal: bool,
    pub flag_overflow: bool,
    pub flag_negative: bool,
    pub halted: bool,
}

/// Addressing mode: the rule for computing an operand's location from the
/// instruction's trailing bytes and the index registers.
#[derive(Debug, Clone, Copy, PartialEq, Eq, Structural)]
pub enum Mode {
    Implied,
    Accumulator,
    Immediate,
    ZeroPage,
    ZeroPageX,
    ZeroPageY,
    Absolute,
    AbsoluteX,
    AbsoluteY,
    Indirect,
    IndirectX,
    IndirectY,
    Relative,
}

/// The operation an opcode selects, independent of its addressing mode.
#[derive(Debug, Clone, Copy, PartialEq, Eq, Structural)]
pub enum Operation {
    Adc,
    And,
    Asl,
    Bcc,
    Bcs,
    Beq,
    Bit,
    Bmi,
    Bne,
    Bpl,
    Brk,
    Bvc,
    Bvs,
    Clc,
    Cld,
    Cli,
    Clv,
    Cmp,
    Cpx,
    Cpy,
    Dec,
    Dex,
    Dey,
    Eor,
    Hlt,
    Inc,
    Inx,
    Iny,
    Jmp,
    Jsr,
    Lda,
    Ldx,
    Ldy,
    Lsr,
    Nop,
    Ora,
    Pha,
    Php,
    Pla,
    Plp,
    Rol,
    Ror,
    Rti,
    Rts,
    Sbc,
    Sec,
    Sed,
    Sei,
    Sta,
    Stx,
    Sty,
    Tax,
    Tay,
    Tsx,
    Txa,
    Txs,
    Tya,
}

/// One row of the opcode table: operation, addressing mode and base cycle
/// cost. The decoder and the tracer both consume this single table, so the
/// two cannot diverge.
#[derive(Debug, Clone, Copy, PartialEq, Eq, Structural)]
pub struct OpInfo {
    pub operation: Operation,
    pub mode: Mode,
    pub cycles: u8,
}

/// Truncation to the 16-bit program-counter space.
pub open spec fn wrap16(x: int) -> u16 {
    (x % 0x10000) as u16
}

/// A 16-bit word from its little-endian bytes.
pub open spec fn word(lo: u8, hi: u8) -> u16 {
    (hi as int * 256 + lo as int) as u16
}

/// The two's-complement reading of a byte, in -128..=127.
pub open spec fn signed8(b: u8) -> int {
    if b < 128 {
        b as int
    } else {
        b as int - 256
    }
}

/// Stack-pointer decrement, wrapping modulo 256.
pub open spec fn sp_dec(sp: u8) -> u8 {
    if sp == 0 {
        255
    } else {
        (sp - 1) as u8
    }
}

/// Stack-pointer increment, wrapping modulo 256.
pub open spec fn sp_inc(sp: u8) -> u8 {
    if sp == 255 {
        0
    } else {
        (sp + 1) as u8
    }
}

/// 1 for a set flag, 0 for a clear one.
pub open spec fn bool_bit(b: bool) -> int {
    if b {
        1
    } else {
        0
    }
}

/// The copy of `c` whose program counter is `pc`.
pub open spec fn with_pc(c: Cpu, pc: u16) -> Cpu {
    Cpu { program_counter: pc, ..c }
}

/// The copy of `c` whose stack pointer is `sp`.
pub open spec fn with_sp(c: Cpu, sp: u8) -> Cpu {
    Cpu { stack_pointer: sp, ..c }
}

/// The stack page address for a stack-pointer value.
pub open spec fn stack_addr(sp: u8) -> u16 {
    (0x100 + sp as int) as u16
}

/// The packed status byte, low to high bit: carry, zero, interrupt-disable,
/// decimal, the transient break bit as pushed, the reserved bit forced to 1,
/// overflow, negative.
pub open spec fn status_byte(c: Cpu, flag_break: bool) -> u8 {
    (bool_bit(c.flag_carry) + 2 * bool_bit(c.flag_zero) + 4 * bool_bit(c.flag_interrupt_disable)
        + 8 * bool_bit(c.flag_decimal) + 16 * bool_bit(flag_break) + 32 + 64 * bool_bit(
        c.flag_overflow,
    ) + 128 * bool_bit(c.flag_negative)) as u8
}

/// The processor after restoring flags from a packed status byte: the six
/// architectural flags are taken from their bits, the transient break and
/// reserved bits are ignored, and no other state changes.
pub open spec fn status_restored(c: Cpu, data: u8) -> Cpu {
    Cpu {
        flag_carry: data % 2 == 1,
        flag_zero: (data / 2) % 2 == 1,
        flag_interrupt_disable: (data / 4) % 2 == 1,
        flag_decimal: (data / 8) % 2 == 1,
        flag_overflow: (data / 64) % 2 == 1,
        flag_negative: (data / 128) % 2 == 1,
        ..c
    }
}

/// The first of two optional faults, in program order.
pub open spec fn first_of(a: Option<Fault>, b: Option<Fault>) -> Option<Fault> {
    if a is Some {
        a
    } else {
        b
    }
}

/// The fault a read of `addr` reports, if it does not resolve.
pub open spec fn read_at(bus: Bus, addr: u16) -> Option<Fault> {
    if bus.read_ok(addr) {
        None
    } else {
        Some(bus.read_fault(addr))
    }
}

/// The fault a write to `addr` reports, if the window is not writable.
pub open spec fn write_at(addr: u16) -> Option<Fault> {
    if write_ok(addr) {
        None
    } else {
        Some(Fault::UnmappedAccess(addr))
    }
}

/// The address an indirect pointer's high byte is fetched from: the low
/// byte increments within the pointer's own page, reproducing the
/// hardware's page-wrap quirk.
pub open spec fn quirk_next(ptr: u16) -> u16 {
    ((ptr / 256) * 256 + (ptr % 256 + 1) % 256) as u16
}

/// The first fault an instruction's operand fetch hits, in program order,
/// with `cpu.program_counter` at the first operand byte. Zero-page pointer
/// reads land in RAM and cannot fault.
pub open spec fn operand_fault(cpu: Cpu, bus: Bus, mode: Mode) -> Option<Fault> {
    let pc1 = cpu.program_counter;
    let pc2 = wrap16(pc1 + 1);
    match mode {
        Mode::Implied | Mode::Accumulator => None,
        Mode::Immediate | Mode::ZeroPage | Mode::ZeroPageX | Mode::ZeroPageY | Mode::IndirectX
            | Mode::IndirectY | Mode::Relative => read_at(bus, pc1),
        Mode::Absolute | Mode::AbsoluteX | Mode::AbsoluteY => first_of(
            read_at(bus, pc1),
            read_at(bus, pc2),
        ),
        Mode::Indirect => {
            if read_at(bus, pc1) is Some {
                read_at(bus, pc1)
            } else if read_at(bus, pc2) is Some {
                read_at(bus, pc2)
            } else {
                let ptr = word(bus.spec_read(pc1), bus.spec_read(pc2));
                first_of(read_at(bus, ptr), read_at(bus, quirk_next(ptr)))
            }
        },
    }
}

/// The effective address an operand resolves to when no fault occurs, with
/// `cpu.program_counter` at the first operand byte. For immediate and
/// relative modes it is the literal byte's own address; zero-page indexing
/// wraps within page 0; absolute indexing and post-indexing may cross a
/// page; the indirect mode reproduces the page-wrap fetch quirk.
pub open spec fn operand_ea(cpu: Cpu, bus: Bus, mode: Mode) -> u16
    recommends
        operand_fault(cpu, bus, mode) is None,
{
    let pc1 = cpu.program_counter;
    let pc2 = wrap16(pc1 + 1);
    match mode {
        Mode::Implied | Mode::Accumulator => 0,
        Mode::Immediate | Mode::Relative => pc1,
        Mode::ZeroPage => bus.spec_read(pc1) as u16,
        Mode::ZeroPageX => (((bus.spec_read(pc1) + cpu.x) % 256) as u16),
        Mode::ZeroPageY => (((bus.spec_read(pc1) + cpu.y) % 256) as u16),
        Mode::Absolute => word(bus.spec_read(pc1), bus.spec_read(pc2)),
        Mode::AbsoluteX => wrap16(word(bus.spec_read(pc1), bus.spec_read(pc2)) + cpu.x),
        Mode::AbsoluteY => wrap16(word(bus.spec_read(pc1), bus.spec_read(pc2)) + cpu.y),
        Mode::IndirectX => {
            let p = ((bus.spec_read(pc1) + cpu.x) % 256) as u16;
            word(bus.spec_read(p), bus.spec_read(((p + 1) % 256) as u16))
        },
        Mode::IndirectY => {
            let base = bus.spec_read(pc1) as u16;
            wrap16(word(bus.spec_read(base), bus.spec_read(((base + 1) % 256) as u16)) + cpu.y)
        },
        Mode::Indirect => {
            let ptr = word(bus.spec_read(pc1), bus.spec_read(pc2));
            word(bus.spec_read(ptr), bus.spec_read(quirk_next(ptr)))
        },
    }
}

/// The opcode table. Every implemented opcode maps to its operation,
/// addressing mode and base cycle cost; anything else is an illegal opcode.
/// Opaque: callers learn a row through `decode`, which returns it.
#[verifier::opaque]
pub open spec fn decode_spec(op: u8) -> Option<OpInfo> {
    match op {
        0x00 => Some(OpInfo { operation: Operation::Brk, mode: Mode::Implied, cycles: 7 }),
        0x01 => Some(OpInfo { operation: Operation::Ora, mode: Mode::IndirectX, cycles: 6 }),
        0x02 => Some(OpInfo { operation: Operation::Hlt, mode: Mode::Implied, cycles: 0 }),
        0x05 => Some(OpInfo { operation: Operation::Ora, mode: Mode::ZeroPage, cycles: 3 }),
        0x06 => Some(OpInfo { operation: Operation::Asl, mode: Mode::ZeroPage, cycles: 5 }),
        0x08 => Some(OpInfo { operation: Operation::Php, mode: Mode::Implied, cycles: 3 }),
        0x09 => Some(OpInfo { operation: Operation::Ora, mode: Mode::Immediate, cycles: 2 }),
        0x0A => Some(OpInfo { operation: Operation::Asl, mode: Mode::Accumulator, cycles: 2 }),
        0x0D => Some(OpInfo { operation: Operation::Ora, mode: Mode::Absolute, cycles: 4 }),
        0x0E => Some(OpInfo { operation: Operation::Asl, mode: Mode::Absolute, cycles: 6 }),
        0x10 => Some(OpInfo { operation: Operation::Bpl, mode: Mode::Relative, cycles: 2 }),
        0x11 => Some(OpInfo { operation: Operation::Ora, mode: Mode::IndirectY, cycles: 5 }),
        0x15 => Some(OpInfo { operation: Operation::Ora, mode: Mode::ZeroPageX, cycles: 4 }),
        0x16 => Some(OpInfo { operation: Operation::Asl, mode: Mode::ZeroPageX, cycles: 6 }),
        0x18 => Some(OpInfo { operation: Operation::Clc, mode: Mode::Implied, cycles: 2 }),
        0x19 => Some(OpInfo { operation: Operation::Ora, mode: Mode::AbsoluteY, cycles: 4 }),
        0x1D => Some(OpInfo { operation: Operation::Ora, mode: Mode::AbsoluteX, cycles: 4 }),
        0x1E => Some(OpInfo { operation: Operation::Asl, mode: Mode::AbsoluteX, cycles: 7 }),
        0x20 => Some(OpInfo { operation: Operation::Jsr, mode: Mode::Absolute, cycles: 6 }),
        0x21 => Some(OpInfo { operation: Operation::And, mode: Mode::IndirectX, cycles: 6 }),
        0x24 => Some(OpInfo { operation: Operation::Bit, mode: Mode::ZeroPage, cycles: 3 }),
        0x25 => Some(OpInfo { operation: Operation::And, mode: Mode::ZeroPage, cycles: 3 }),
        0x26 => Some(OpInfo { operation: Operation::Rol, mode: Mode::ZeroPage, cycles: 5 }),
        0x28 => Some(OpInfo { operation: Operation::Plp, mode: Mode::Implied, cycles: 4 }),
        0x29 => Some(OpInfo { operation: Operation::And, mode: Mode::Immediate, cycles: 2 }),
        0x2A => Some(OpInfo { operation: Operation::Rol, mode: Mode::Accumulator, cycles: 2 }),
        0x2C => Some(OpInfo { operation: Operation::Bit, mode: Mode::Absolute, cycles: 4 }),
        0x2D => Some(OpInfo { operation: Operation::And, mode: Mode::Absolute, cycles: 4 }),
        0x2E => Some(OpInfo { operation: Operation::Rol, mode: Mode::Absolute, cycles: 6 }),
        0x30 => Some(OpInfo { operation: Operation::Bmi, mode: Mode::Relative, cycles: 2 }),
        0x31 => Some(OpInfo { operation: Operation::And, mode: Mode::IndirectY, cycles: 5 }),
        0x35 => Some(OpInfo { operation: Operation::And, mode: Mode::ZeroPageX, cycles: 4 }),
        0x36 => Some(OpInfo { operation: Operation::Rol, mode: Mode::ZeroPageX, cycles: 6 }),
        0x38 => Some(OpInfo { operation: Operation::Sec, mode: Mode::Implied, cycles: 2 }),
        0x39 => Some(OpInfo { operation: Operation::And, mode: Mode::AbsoluteY, cycles: 4 }),
        0x3D => Some(OpInfo { operation: Operation::And, mode: Mode::AbsoluteX, cycles: 4 }),
        0x3E => Some(OpInfo { operation: Operation::Rol, mode: Mode::AbsoluteX, cycles: 7 }),
        0x40 => Some(OpInfo { operation: Operation::Rti, mode: Mode::Implied, cycles: 6 }),
        0x41 => Some(OpInfo { operation: Operation::Eor, mode: Mode::IndirectX, cycles: 6 }),
        0x45 => Some(OpInfo { operation: Operation::Eor, mode: Mode::ZeroPage, cycles: 3 }),
        0x46 => Some(OpInfo { operation: Operation::Lsr, mode: Mode::ZeroPage, cycles: 5 }),
        0x48 => Some(OpInfo { operation: Operation::Pha, mode: Mode::Implied, cycles: 3 }),
        0x49 => Some(OpInfo { operation: Operation::Eor, mode: Mode::Immediate, cycles: 2 }),
        0x4A => Some(OpInfo { operation: Operation::Lsr, mode: Mode::Accumulator, cycles: 2 }),
        0x4C => Some(OpInfo { operation: Operation::Jmp, mode: Mode::Absolute, cycles: 3 }),
        0x4D => Some(OpInfo { operation: Operation::Eor, mode: Mode::Absolute, cycles: 4 }),
        0x4E => Some(OpInfo { operation: Operation::Lsr, mode: Mode::Absolute, cycles: 6 }),
        0x50 => Some(OpInfo { operation: Operation::Bvc, mode: Mode::Relative, cycles: 2 }),
        0x51 => Some(OpInfo { operation: Operation::Eor, mode: Mode::IndirectY, cycles: 5 }),
        0x55 => Some(OpInfo { operation: Operation::Eor, mode: Mode::ZeroPageX, cycles: 4 }),
        0x56 => Some(OpInfo { operation: Operation::Lsr, mode: Mode::ZeroPageX, cycles: 6 }),
        0x58 => Some(OpInfo { operation: Operation::Cli, mode: Mode::Implied, cycles: 2 }),
        0x59 => Some(OpInfo { operation: Operation::Eor, mode: Mode::AbsoluteY, cycles: 4 }),
        0x5D => Some(OpInfo { operation: Operation::Eor, mode: Mode::AbsoluteX, cycles: 4 }),
        0x5E => Some(OpInfo { operation: Operation::Lsr, mode: Mode::AbsoluteX, cycles: 7 }),
        0x60 => Some(OpInfo { operation: Operation::Rts, mode: Mode::Implied, cycles: 6 }),
        0x61 => Some(OpInfo { operation: Operation::Adc, mode: Mode::IndirectX, cycles: 6 }),
        0x65 => Some(OpInfo { operation: Operation::Adc, mode: Mode::ZeroPage, cycles: 3 }),
        0x66 => Some(OpInfo { operation: Operation::Ror, mode: Mode::ZeroPage, cycles: 5 }),
        0x68 => Some(OpInfo { operation: Operation::Pla, mode: Mode::Implied, cycles: 4 }),
        0x69 => Some(OpInfo { operation: Operation::Adc, mode: Mode::Immediate, cycles: 2 }),
        0x6A => Some(OpInfo { operation: Operation::Ror, mode: Mode::Accumulator, cycles: 2 }),
        0x6C => Some(OpInfo { operation: Operation::Jmp, mode: Mode::Indirect, cycles: 5 }),
        0x6D => Some(OpInfo { operation: Operation::Adc, mode: Mode::Absolute, cycles: 4 }),
        0x6E => Some(OpInfo { operation: Operation::Ror, mode: Mode::Absolute, cycles: 6 }),
        0x70 => Some(OpInfo { operation: Operation::Bvs, mode: Mode::Relative, cycles: 2 }),
        0x71 => Some(OpInfo { operation: Operation::Adc, mode: Mode::IndirectY, cycles: 5 }),
        0x75 => Some(OpInfo { operation: Operation::Adc, mode: Mode::ZeroPageX, cycles: 4 }),
        0x76 => Some(OpInfo { operation: Operation::Ror, mode: Mode::ZeroPageX, cycles: 6 }),
        0x78 => Some(OpInfo { operation: Operation::Sei, mode: Mode::Implied, cycles: 2 }),
        0x79 => Some(OpInfo { operation: Operation::Adc, mode: Mode::AbsoluteY, cycles: 4 }),
        0x7D => Some(OpInfo { operation: Operation::Adc, mode: Mode::AbsoluteX, cycles: 4 }),
        0x7E => Some(OpInfo { operation: Operation::Ror, mode: Mode::AbsoluteX, cycles: 7 }),
        0x81 => Some(OpInfo { operation: Operation::Sta, mode: Mode::IndirectX, cycles: 6 }),
        0x84 => Some(OpInfo { operation: Operation::Sty, mode: Mode::ZeroPage, cycles: 3 }),
        0x85 => Some(OpInfo { operation: Operation::Sta, mode: Mode::ZeroPage, cycles: 3 }),
        0x86 => Some(OpInfo { operation: Operation::Stx, mode: Mode::ZeroPage, cycles: 3 }),
        0x88 => Some(OpInfo { operation: Operation::Dey, mode: Mode::Implied, cycles: 2 }),
        0x8A => Some(OpInfo { operation: Operation::Txa, mode: Mode::Implied, cycles: 2 }),
        0x8C => Some(OpInfo { operation: Operation::Sty, mode: Mode::Absolute, cycles: 4 }),
        0x8D => Some(OpInfo { operation: Operation::Sta, mode: Mode::Absolute, cycles: 4 }),
        0x8E => Some(OpInfo { operation: Operation::Stx, mode: Mode::Absolute, cycles: 4 }),
        0x90 => Some(OpInfo { operation: Operation::Bcc, mode: Mode::Relative, cycles: 2 }),
        0x91 => Some(OpInfo { operation: Operation::Sta, mode: Mode::IndirectY, cycles: 6 }),
        0x94 => Some(OpInfo { operation: Operation::Sty, mode: Mode::ZeroPageX, cycles: 4 }),
        0x95 => Some(OpInfo { operation: Operation::Sta, mode: Mode::ZeroPageX, cycles: 4 }),
        0x96 => Some(OpInfo { operation: Operation::Stx, mode: Mode::ZeroPageY, cycles: 4 }),
        0x98 => Some(OpInfo { operation: Operation::Tya, mode: Mode::Implied, cycles: 2 }),
        0x99 => Some(OpInfo { operation: Operation::Sta, mode: Mode::AbsoluteY, cycles: 5 }),
        0x9A => Some(OpInfo { operation: Operation::Txs, mode: Mode::Implied, cycles: 2 }),
        0x9D => Some(OpInfo { operation: Operation::Sta, mode: Mode::AbsoluteX, cycles: 5 }),
        0xA0 => Some(OpInfo { operation: Operation::Ldy, mode: Mode::Immediate, cycles: 2 }),
        0xA1 => Some(OpInfo { operation: Operation::Lda, mode: Mode::IndirectX, cycles: 6 }),
        0xA2 => Some(OpInfo { operation: Operation::Ldx, mode: Mode::Immediate, cycles: 2 }),
        0xA4 => Some(OpInfo { operation: Operation::Ldy, mode: Mode::ZeroPage, cycles: 3 }),
        0xA5 => Some(OpInfo { operation: Operation::Lda, mode: Mode::ZeroPage, cycles: 3 }),
        0xA6 => Some(OpInfo { operation: Operation::Ldx, mode: Mode::ZeroPage, cycles: 3 }),
        0xA8 => Some(OpInfo { operation: Operation::Tay, mode: Mode::Implied, cycles: 2 }),
        0xA9 => Some(OpInfo { operation: Operation::Lda, mode: Mode::Immediate, cycles: 2 }),
        0xAA => Some(OpInfo { operation: Operation::Tax, mode: Mode::Implied, cycles: 2 }),
        0xAC => Some(OpInfo { operation: Operation::Ldy, mode: Mode::Absolute, cycles: 4 }),
        0xAD => Some(OpInfo { operation: Operation::Lda, mode: Mode::Absolute, cycles: 4 }),
        0xAE => Some(OpInfo { operation: Operation::Ldx, mode: Mode::Absolute, cycles: 4 }),
        0xB0 => Some(OpInfo { operation: Operation::Bcs, mode: Mode::Relative, cycles: 2 }),
        0xB1 => Some(OpInfo { operation: Operation::Lda, mode: Mode::IndirectY, cycles: 5 }),
        0xB4 => Some(OpInfo { operation: Operation::Ldy, mode: Mode::ZeroPageX, cycles: 4 }),
        0xB5 => Some(OpInfo { operation: Operation::Lda, mode: Mode::ZeroPageX, cycles: 4 }),
        0xB6 => Some(OpInfo { operation: Operation::Ldx, mode: Mode::ZeroPageY, cycles: 4 }),
        0xB8 => Some(OpInfo { operation: Operation::Clv, mode: Mode::Implied, cycles: 2 }),
        0xB9 => Some(OpInfo { operation: Operation::Lda, mode: Mode::AbsoluteY, cycles: 4 }),
        0xBA => Some(OpInfo { operation: Operation::Tsx, mode: Mode::Implied, cycles: 2 }),
        0xBC => Some(OpInfo { operation: Operation::Ldy, mode: Mode::AbsoluteX, cycles: 4 }),
        0xBD => Some(OpInfo { operation: Operation::Lda, mode: Mode::AbsoluteX, cycles: 4 }),
        0xBE => Some(OpInfo { operation: Operation::Ldx, mode: Mode::AbsoluteY, cycles: 4 }),
        0xC0 => Some(OpInfo { operation: Operation::Cpy, mode: Mode::Immediate, cycles: 2 }),
        0xC1 => Some(OpInfo { operation: Operation::Cmp, mode: Mode::IndirectX, cycles: 6 }),
        0xC4 => Some(OpInfo { operation: Operation::Cpy, mode: Mode::ZeroPage, cycles: 3 }),
        0xC5 => Some(OpInfo { operation: Operation::Cmp, mode: Mode::ZeroPage, cycles: 3 }),
        0xC6 => Some(OpInfo { operation: Operation::Dec, mode: Mode::ZeroPage, cycles: 5 }),
        0xC8 => Some(OpInfo { operation: Operation::Iny, mode: Mode::Implied, cycles: 2 }),
        0xC9 => Some(OpInfo { operation: Operation::Cmp, mode: Mode::Immediate, cycles: 2 }),
        0xCA => Some(OpInfo { operation: Operation::Dex, mode: Mode::Implied, cycles: 2 }),
        0xCC => Some(OpInfo { operation: Operation::Cpy, mode: Mode::Absolute, cycles: 4 }),
        0xCD => Some(OpInfo { operation: Operation::Cmp, mode: Mode::Absolute, cycles: 4 }),
        0xCE => Some(OpInfo { operation: Operation::Dec, mode: Mode::Absolute, cycles: 6 }),
        0xD0 => Some(OpInfo { operation: Operation::Bne, mode: Mode::Relative, cycles: 2 }),
        0xD1 => Some(OpInfo { operation: Operation::Cmp, mode: Mode::IndirectY, cycles: 5 }),
        0xD5 => Some(OpInfo { operation: Operation::Cmp, mode: Mode::ZeroPageX, cycles: 4 }),
        0xD6 => Some(OpInfo { operation: Operation::Dec, mode: Mode::ZeroPageX, cycles: 6 }),
        0xD8 => Some(OpInfo { operation: Operation::Cld, mode: Mode::Implied, cycles: 2 }),
        0xD9 => Some(OpInfo { operation: Operation::Cmp, mode: Mode::AbsoluteY, cycles: 4 }),
        0xDD => Some(OpInfo { operation: Operation::Cmp, mode: Mode::AbsoluteX, cycles: 4 }),
        0xDE => Some(OpInfo { operation: Operation::Dec, mode: Mode::AbsoluteX, cycles: 7 }),
        0xE0 => Some(OpInfo { operation: Operation::Cpx, mode: Mode::Immediate, cycles: 2 }),
        0xE1 => Some(OpInfo { operation: Operation::Sbc, mode: Mode::IndirectX, cycles: 6 }),
        0xE4 => Some(OpInfo { operation: Operation::Cpx, mode: Mode::ZeroPage, cycles: 3 }),
        0xE5 => Some(OpInfo { operation: Operation::Sbc, mode: Mode::ZeroPage, cycles: 3 }),
        0xE6 => Some(OpInfo { operation: Operation::Inc, mode: Mode::ZeroPage, cycles: 5 }),
        0xE8 => Some(OpInfo { operation: Operation::Inx, mode: Mode::Implied, cycles: 2 }),
        0xE9 => Some(OpInfo { operation: Operation::Sbc, mode: Mode::Immediate, cycles: 2 }),
        0xEA => Some(OpInfo { operation: Operation::Nop, mode: Mode::Implied, cycles: 2 }),
        0xEC => Some(OpInfo { operation: Operation::Cpx, mode: Mode::Absolute, cycles: 4 }),
        0xED => Some(OpInfo { operation: Operation::Sbc, mode: Mode::Absolute, cycles: 4 }),
        0xEE => Some(OpInfo { operation: Operation::Inc, mode: Mode::Absolute, cycles: 6 }),
        0xF0 => Some(OpInfo { operation: Operation::Beq, mode: Mode::Relative, cycles: 2 }),
        0xF1 => Some(OpInfo { operation: Operation::Sbc, mode: Mode::IndirectY, cycles: 5 }),
        0xF5 => Some(OpInfo { operation: Operation::Sbc, mode: Mode::ZeroPageX, cycles: 4 }),
        0xF6 => Some(OpInfo { operation: Operation::Inc, mode: Mode::ZeroPageX, cycles: 6 }),
        0xF8 => Some(OpInfo { operation: Operation::Sed, mode: Mode::Implied, cycles: 2 }),
        0xF9 => Some(OpInfo { operation: Operation::Sbc, mode: Mode::AbsoluteY, cycles: 4 }),
        0xFD => Some(OpInfo { operation: Operation::Sbc, mode: Mode::AbsoluteX, cycles: 4 }),
        0xFE => Some(OpInfo { operation: Operation::Inc, mode: Mode::AbsoluteX, cycles: 7 }),
        _ => None,
    }
}

/// Bytes an instruction occupies, from its addressing mode.
pub open spec fn mode_len(mode: Mode) -> int {
    match mode {
        Mode::Implied | Mode::Accumulator => 1,
        Mode::Immediate | Mode::ZeroPage | Mode::ZeroPageX | Mode::ZeroPageY | Mode::IndirectX
            | Mode::IndirectY | Mode::Relative => 2,
        Mode::Absolute | Mode::AbsoluteX | Mode::AbsoluteY | Mode::Indirect => 3,
    }
}

/// Documented instruction length of an opcode; an undecodable byte counts
/// as one byte.
pub open spec fn instr_len(op: u8) -> int {
    match decode_spec(op) {
        Some(info) => mode_len(info.mode),
        None => 1,
    }
}

/// Looks one opcode up in the table. Decode and trace both go through this
/// function, proven equal to the table `decode_spec`.
pub fn decode(op: u8) -> (r: Option<OpInfo>)
    ensures
        r == decode_spec(op),
{
    proof {
        reveal(decode_spec);
    }
    match op {
        0x00 => Some(OpInfo { operation: Operation::Brk, mode: Mode::Implied, cycles: 7 }),
        0x01 => Some(OpInfo { operation: Operation::Ora, mode: Mode::IndirectX, cycles: 6 }),
        0x02 => Some(OpInfo { operation: Operation::Hlt, mode: Mode::Implied, cycles: 0 }),
        0x05 => Some(OpInfo { operation: Operation::Ora, mode: Mode::ZeroPage, cycles: 3 }),
        0x06 => Some(OpInfo { operation: Operation::Asl, mode: Mode::ZeroPage, cycles: 5 }),
        0x08 => Some(OpInfo { operation: Operation::Php, mode: Mode::Implied, cycles: 3 }),
        0x09 => Some(OpInfo { operation: Operation::Ora, mode: Mode::Immediate, cycles: 2 }),
        0x0A => Some(OpInfo { operation: Operation::Asl, mode: Mode::Accumulator, cycles: 2 }),
        0x0D => Some(OpInfo { operation: Operation::Ora, mode: Mode::Absolute, cycles: 4 }),
        0x0E => Some(OpInfo { operation: Operation::Asl, mode: Mode::Absolute, cycles: 6 }),
        0x10 => Some(OpInfo { operation: Operation::Bpl, mode: Mode::Relative, cycles: 2 }),
        0x11 => Some(OpInfo { operation: Operation::Ora, mode: Mode::IndirectY, cycles: 5 }),
        0x15 => Some(OpInfo { operation: Operation::Ora, mode: Mode::ZeroPageX, cycles: 4 }),
        0x16 => Some(OpInfo { operation: Operation::Asl, mode: Mode::ZeroPageX, cycles: 6 }),
        0x18 => Some(OpInfo { operation: Operation::Clc, mode: Mode::Implied, cycles: 2 }),
        0x19 => Some(OpInfo { operation: Operation::Ora, mode: Mode::AbsoluteY, cycles: 4 }),
        0x1D => Some(OpInfo { operation: Operation::Ora, mode: Mode::AbsoluteX, cycles: 4 }),
        0x1E => Some(OpInfo { operation: Operation::Asl, mode: Mode::AbsoluteX, cycles: 7 }),
        0x20 => Some(OpInfo { operation: Operation::Jsr, mode: Mode::Absolute, cycles: 6 }),
        0x21 => Some(OpInfo { operation: Operation::And, mode: Mode::IndirectX, cycles: 6 }),
        0x24 => Some(OpInfo { operation: Operation::Bit, mode: Mode::ZeroPage, cycles: 3 }),
        0x25 => Some(OpInfo { operation: Operation::And, mode: Mode::ZeroPage, cycles: 3 }),
        0x26 => Some(OpInfo { operation: Operation::Rol, mode: Mode::ZeroPage, cycles: 5 }),
        0x28 => Some(OpInfo { operation: Operation::Plp, mode: Mode::Implied, cycles: 4 }),
        0x29 => Some(OpInfo { operation: Operation::And, mode: Mode::Immediate, cycles: 2 }),
        0x2A => Some(OpInfo { operation: Operation::Rol, mode: Mode::Accumulator, cycles: 2 }),
        0x2C => Some(OpInfo { operation: Operation::Bit, mode: Mode::Absolute, cycles: 4 }),
        0x2D => Some(OpInfo { operation: Operation::And, mode: Mode::Absolute, cycles: 4 }),
        0x2E => Some(OpInfo { operation: Operation::Rol, mode: Mode::Absolute, cycles: 6 }),
        0x30 => Some(OpInfo { operation: Operation::Bmi, mode: Mode::Relative, cycles: 2 }),
        0x31 => Some(OpInfo { operation: Operation::And, mode: Mode::IndirectY, cycles: 5 }),
        0x35 => Some(OpInfo { operation: Operation::And, mode: Mode::ZeroPageX, cycles: 4 }),
        0x36 => Some(OpInfo { operation: Operation::Rol, mode: Mode::ZeroPageX, cycles: 6 }),
        0x38 => Some(OpInfo { operation: Operation::Sec, mode: Mode::Implied, cycles: 2 }),
        0x39 => Some(OpInfo { operation: Operation::And, mode: Mode::AbsoluteY, cycles: 4 }),
        0x3D => Some(OpInfo { operation: Operation::And, mode: Mode::AbsoluteX, cycles: 4 }),
        0x3E => Some(OpInfo { operation: Operation::Rol, mode: Mode::AbsoluteX, cycles: 7 }),
        0x40 => Some(OpInfo { operation: Operation::Rti, mode: Mode::Implied, cycles: 6 }),
        0x41 => Some(OpInfo { operation: Operation::Eor, mode: Mode::IndirectX, cycles: 6 }),
        0x45 => Some(OpInfo { operation: Operation::Eor, mode: Mode::ZeroPage, cycles: 3 }),
        0x46 => Some(OpInfo { operation: Operation::Lsr, mode: Mode::ZeroPage, cycles: 5 }),
        0x48 => Some(OpInfo { operation: Operation::Pha, mode: Mode::Implied, cycles: 3 }),
        0x49 => Some(OpInfo { operation: Operation::Eor, mode: Mode::Immediate, cycles: 2 }),
        0x4A => Some(OpInfo { operation: Operation::Lsr, mode: Mode::Accumulator, cycles: 2 }),
        0x4C => Some(OpInfo { operation: Operation::Jmp, mode: Mode::Absolute, cycles: 3 }),
        0x4D => Some(OpInfo { operation: Operation::Eor, mode: Mode::Absolute, cycles: 4 }),
        0x4E => Some(OpInfo { operation: Operation::Lsr, mode: Mode::Absolute, cycles: 6 }),
        0x50 => Some(OpInfo { operation: Operation::Bvc, mode: Mode::Relative, cycles: 2 }),
        0x51 => Some(OpInfo { operation: Operation::Eor, mode: Mode::IndirectY, cycles: 5 }),
        0x55 => Some(OpInfo { operation: Operation::Eor, mode: Mode::ZeroPageX, cycles: 4 }),
        0x56 => Some(OpInfo { operation: Operation::Lsr, mode: Mode::ZeroPageX, cycles: 6 }),
        0x58 => Some(OpInfo { operation: Operation::Cli, mode: Mode::Implied, cycles: 2 }),
        0x59 => Some(OpInfo { operation: Operation::Eor, mode: Mode::AbsoluteY, cycles: 4 }),
        0x5D => Some(OpInfo { operation: Operation::Eor, mode: Mode::AbsoluteX, cycles: 4 }),
        0x5E => Some(OpInfo { operation: Operation::Lsr, mode: Mode::AbsoluteX, cycles: 7 }),
        0x60 => Some(OpInfo { operation: Operation::Rts, mode: Mode::Implied, cycles: 6 }),
        0x61 => Some(OpInfo { operation: Operation::Adc, mode: Mode::IndirectX, cycles: 6 }),
        0x65 => Some(OpInfo { operation: Operation::Adc, mode: Mode::ZeroPage, cycles: 3 }),
        0x66 => Some(OpInfo { operation: Operation::Ror, mode: Mode::ZeroPage, cycles: 5 }),
        0x68 => Some(OpInfo { operation: Operation::Pla, mode: Mode::Implied, cycles: 4 }),
        0x69 => Some(OpInfo { operation: Operation::Adc, mode: Mode::Immediate, cycles: 2 }),
        0x6A => Some(OpInfo { operation: Operation::Ror, mode: Mode::Accumulator, cycles: 2 }),
        0x6C => Some(OpInfo { operation: Operation::Jmp, mode: Mode::Indirect, cycles: 5 }),
        0x6D => Some(OpInfo { operation: Operation::Adc, mode: Mode::Absolute, cycles: 4 }),
        0x6E => Some(OpInfo { operation: Operation::Ror, mode: Mode::Absolute, cycles: 6 }),
        0x70 => Some(OpInfo { operation: Operation::Bvs, mode: Mode::Relative, cycles: 2 }),
        0x71 => Some(OpInfo { operation: Operation::Adc, mode: Mode::IndirectY, cycles: 5 }),
        0x75 => Some(OpInfo { operation: Operation::Adc, mode: Mode::ZeroPageX, cycles: 4 }),
        0x76 => Some(OpInfo { operation: Operation::Ror, mode: Mode::ZeroPageX, cycles: 6 }),
        0x78 => Some(OpInfo { operation: Operation::Sei, mode: Mode::Implied, cycles: 2 }),
        0x79 => Some(OpInfo { operation: Operation::Adc, mode: Mode::AbsoluteY, cycles: 4 }),
        0x7D => Some(OpInfo { operation: Operation::Adc, mode: Mode::AbsoluteX, cycles: 4 }),
        0x7E => Some(OpInfo { operation: Operation::Ror, mode: Mode::AbsoluteX, cycles: 7 }),
        0x81 => Some(OpInfo { operation: Operation::Sta, mode: Mode::IndirectX, cycles: 6 }),
        0x84 => Some(OpInfo { operation: Operation::Sty, mode: Mode::ZeroPage, cycles: 3 }),
        0x85 => Some(OpInfo { operation: Operation::Sta, mode: Mode::ZeroPage, cycles: 3 }),
        0x86 => Some(OpInfo { operation: Operation::Stx, mode: Mode::ZeroPage, cycles: 3 }),
        0x88 => Some(OpInfo { operation: Operation::Dey, mode: Mode::Implied, cycles: 2 }),
        0x8A => Some(OpInfo { operation: Operation::Txa, mode: Mode::Implied, cycles: 2 }),
        0x8C => Some(OpInfo { operation: Operation::Sty, mode: Mode::Absolute, cycles: 4 }),
        0x8D => Some(OpInfo { operation: Operation::Sta, mode: Mode::Absolute, cycles: 4 }),
        0x8E => Some(OpInfo { operation: Operation::Stx, mode: Mode::Absolute, cycles: 4 }),
        0x90 => Some(OpInfo { operation: Operation::Bcc, mode: Mode::Relative, cycles: 2 }),
        0x91 => Some(OpInfo { operation: Operation::Sta, mode: Mode::IndirectY, cycles: 6 }),
        0x94 => Some(OpInfo { operation: Operation::Sty, mode: Mode::ZeroPageX, cycles: 4 }),
        0x95 => Some(OpInfo { operation: Operation::Sta, mode: Mode::ZeroPageX, cycles: 4 }),
        0x96 => Some(OpInfo { operation: Operation::Stx, mode: Mode::ZeroPageY, cycles: 4 }),
        0x98 => Some(OpInfo { operation: Operation::Tya, mode: Mode::Implied, cycles: 2 }),
        0x99 => Some(OpInfo { operation: Operation::Sta, mode: Mode::AbsoluteY, cycles: 5 }),
        0x9A => Some(OpInfo { operation: Operation::Txs, mode: Mode::Implied, cycles: 2 }),
        0x9D => Some(OpInfo { operation: Operation::Sta, mode: Mode::AbsoluteX, cycles: 5 }),
        0xA0 => Some(OpInfo { operation: Operation::Ldy, mode: Mode::Immediate, cycles: 2 }),
        0xA1 => Some(OpInfo { operation: Operation::Lda, mode: Mode::IndirectX, cycles: 6 }),
        0xA2 => Some(OpInfo { operation: Operation::Ldx, mode: Mode::Immediate, cycles: 2 }),
        0xA4 => Some(OpInfo { operation: Operation::Ldy, mode: Mode::ZeroPage, cycles: 3 }),
        0xA5 => Some(OpInfo { operation: Operation::Lda, mode: Mode::ZeroPage, cycles: 3 }),
        0xA6 => Some(OpInfo { operation: Operation::Ldx, mode: Mode::ZeroPage, cycles: 3 }),
        0xA8 => Some(OpInfo { operation: Operation::Tay, mode: Mode::Implied, cycles: 2 }),
        0xA9 => Some(OpInfo { operation: Operation::Lda, mode: Mode::Immediate, cycles: 2 }),
        0xAA => Some(OpInfo { operation: Operation::Tax, mode: Mode::Implied, cycles: 2 }),
        0xAC => Some(OpInfo { operation: Operation::Ldy, mode: Mode::Absolute, cycles: 4 }),
        0xAD => Some(OpInfo { operation: Operation::Lda, mode: Mode::Absolute, cycles: 4 }),
        0xAE => Some(OpInfo { operation: Operation::Ldx, mode: Mode::Absolute, cycles: 4 }),
        0xB0 => Some(OpInfo { operation: Operation::Bcs, mode: Mode::Relative, cycles: 2 }),
        0xB1 => Some(OpInfo { operation: Operation::Lda, mode: Mode::IndirectY, cycles: 5 }),
        0xB4 => Some(OpInfo { operation: Operation::Ldy, mode: Mode::ZeroPageX, cycles: 4 }),
        0xB5 => Some(OpInfo { operation: Operation::Lda, mode: Mode::ZeroPageX, cycles: 4 }),
        0xB6 => Some(OpInfo { operation: Operation::Ldx, mode: Mode::ZeroPageY, cycles: 4 }),
        0xB8 => Some(OpInfo { operation: Operation::Clv, mode: Mode::Implied, cycles: 2 }),
        0xB9 => Some(OpInfo { operation: Operation::Lda, mode: Mode::AbsoluteY, cycles: 4 }),
        0xBA => Some(OpInfo { operation: Operation::Tsx, mode: Mode::Implied, cycles: 2 }),
        0xBC => Some(OpInfo { operation: Operation::Ldy, mode: Mode::AbsoluteX, cycles: 4 }),
        0xBD => Some(OpInfo { operation: Operation::Lda, mode: Mode::AbsoluteX, cycles: 4 }),
        0xBE => Some(OpInfo { operation: Operation::Ldx, mode: Mode::AbsoluteY, cycles: 4 }),
        0xC0 => Some(OpInfo { operation: Operation::Cpy, mode: Mode::Immediate, cycles: 2 }),
        0xC1 => Some(OpInfo { operation: Operation::Cmp, mode: Mode::IndirectX, cycles: 6 }),
        0xC4 => Some(OpInfo { operation: Operation::Cpy, mode: Mode::ZeroPage, cycles: 3 }),
        0xC5 => Some(OpInfo { operation: Operation::Cmp, mode: Mode::ZeroPage, cycles: 3 }),
        0xC6 => Some(OpInfo { operation: Operation::Dec, mode: Mode::ZeroPage, cycles: 5 }),
        0xC8 => Some(OpInfo { operation: Operation::Iny, mode: Mode::Implied, cycles: 2 }),
        0xC9 => Some(OpInfo { operation: Operation::Cmp, mode: Mode::Immediate, cycles: 2 }),
        0xCA => Some(OpInfo { operation: Operation::Dex, mode: Mode::Implied, cycles: 2 }),
        0xCC => Some(OpInfo { operation: Operation::Cpy, mode: Mode::Absolute, cycles: 4 }),
        0xCD => Some(OpInfo { operation: Operation::Cmp, mode: Mode::Absolute, cycles: 4 }),
        0xCE => Some(OpInfo { operation: Operation::Dec, mode: Mode::Absolute, cycles: 6 }),
        0xD0 => Some(OpInfo { operation: Operation::Bne, mode: Mode::Relative, cycles: 2 }),
        0xD1 => Some(OpInfo { operation: Operation::Cmp, mode: Mode::IndirectY, cycles: 5 }),
        0xD5 => Some(OpInfo { operation: Operation::Cmp, mode: Mode::ZeroPageX, cycles: 4 }),
        0xD6 => Some(OpInfo { operation: Operation::Dec, mode: Mode::ZeroPageX, cycles: 6 }),
        0xD8 => Some(OpInfo { operation: Operation::Cld, mode: Mode::Implied, cycles: 2 }),
        0xD9 => Some(OpInfo { operation: Operation::Cmp, mode: Mode::AbsoluteY, cycles: 4 }),
        0xDD => Some(OpInfo { operation: Operation::Cmp, mode: Mode::AbsoluteX, cycles: 4 }),
        0xDE => Some(OpInfo { operation: Operation::Dec, mode: Mode::AbsoluteX, cycles: 7 }),
        0xE0 => Some(OpInfo { operation: Operation::Cpx, mode: Mode::Immediate, cycles: 2 }),
        0xE1 => Some(OpInfo { operation: Operation::Sbc, mode: Mode::IndirectX, cycles: 6 }),
        0xE4 => Some(OpInfo { operation: Operation::Cpx, mode: Mode::ZeroPage, cycles: 3 }),
        0xE5 => Some(OpInfo { operation: Operation::Sbc, mode: Mode::ZeroPage, cycles: 3 }),
        0xE6 => Some(OpInfo { operation: Operation::Inc, mode: Mode::ZeroPage, cycles: 5 }),
        0xE8 => Some(OpInfo { operation: Operation::Inx, mode: Mode::Implied, cycles: 2 }),
        0xE9 => Some(OpInfo { operation: Operation::Sbc, mode: Mode::Immediate, cycles: 2 }),
        0xEA => Some(OpInfo { operation: Operation::Nop, mode: Mode::Implied, cycles: 2 }),
        0xEC => Some(OpInfo { operation: Operation::Cpx, mode: Mode::Absolute, cycles: 4 }),
        0xED => Some(OpInfo { operation: Operation::Sbc, mode: Mode::Absolute, cycles: 4 }),
        0xEE => Some(OpInfo { operation: Operation::Inc, mode: Mode::Absolute, cycles: 6 }),
        0xF0 => Some(OpInfo { operation: Operation::Beq, mode: Mode::Relative, cycles: 2 }),
        0xF1 => Some(OpInfo { operation: Operation::Sbc, mode: Mode::IndirectY, cycles: 5 }),
        0xF5 => Some(OpInfo { operation: Operation::Sbc, mode: Mode::ZeroPageX, cycles: 4 }),
        0xF6 => Some(OpInfo { operation: Operation::Inc, mode: Mode::ZeroPageX, cycles: 6 }),
        0xF8 => Some(OpInfo { operation: Operation::Sed, mode: Mode::Implied, cycles: 2 }),
        0xF9 => Some(OpInfo { operation: Operation::Sbc, mode: Mode::AbsoluteY, cycles: 4 }),
        0xFD => Some(OpInfo { operation: Operation::Sbc, mode: Mode::AbsoluteX, cycles: 4 }),
        0xFE => Some(OpInfo { operation: Operation::Inc, mode: Mode::AbsoluteX, cycles: 7 }),
        _ => None,
    }
}

impl Cpu {
    /// A processor with every register, flag and latch cleared. `reset`
    /// loads the program counter and stack pointer before execution.
    pub fn new() -> (c: Cpu)
        ensures
            c == (Cpu {
                program_counter: 0,
                a: 0,
                x: 0,
                y: 0,
                stack_pointer: 0,
                flag_carry: false,
                flag_zero: false,
                flag_interrupt_disable: false,
                flag_decimal: false,
                flag_overflow: false,
                flag_negative: false,
                halted: false,
            }),
    {
        Cpu {
            program_counter: 0,
            a: 0,
            x: 0,
            y: 0,
            stack_pointer: 0,
            halted: false,
            flag_carry: false,
            flag_overflow: false,
            flag_negative: false,
            flag_zero: false,
            flag_decimal: false,
            flag_interrupt_disable: false,
        }
    }

    /// Documented length in bytes of the instruction an opcode selects,
    /// read from the shared opcode table; an undecodable byte counts as
    /// one byte.
    pub fn get_operand_mode(&self, opcode: u8) -> (len: u8)
        ensures
            len == instr_len(opcode),
    {
        match decode(opcode) {
            Some(info) => match info.mode {
                Mode::Implied | Mode::Accumulator => 1,
                Mode::Immediate | Mode::ZeroPage | Mode::ZeroPageX | Mode::ZeroPageY
                    | Mode::IndirectX | Mode::IndirectY | Mode::Relative => 2,
                Mode::Absolute | Mode::AbsoluteX | Mode::AbsoluteY | Mode::Indirect => 3,
            },
            None => 1,
        }
    }

    /// Loads the program counter from the reset vector at 0xFFFC/0xFFFD,
    /// sets the interrupt-disable flag, and sets the stack pointer to its
    /// architectural reset value 0xFD. Fails without effect when the
    /// vector does not resolve (a program image smaller than 32KB).
    pub fn reset(&mut self, bus: &Bus) -> (r: Result<(), Fault>)
        requires
            bus.wf(),
        ensures
            r is Ok <==> first_of(read_at(*bus, 0xFFFC), read_at(*bus, 0xFFFD)) is None,
            r matches Err(e) ==> Some(e) == first_of(read_at(*bus, 0xFFFC), read_at(*bus, 0xFFFD))
                && *final(self) == *old(self),
            r is Ok ==> *final(self) == (Cpu {
                program_counter: word(bus.spec_read(0xFFFC), bus.spec_read(0xFFFD)),
                flag_interrupt_disable: true,
                stack_pointer: 0xFD,
                ..*old(self)
            }),
    {
        let pc_low = match bus.read(0xFFFC) {
            Ok(v) => v,
            Err(f) => return Err(f),
        };
        let pc_high = match bus.read(0xFFFD) {
            Ok(v) => v,
            Err(f) => return Err(f),
        };
        self.program_counter = pc_high as u16 * 0x100 + pc_low as u16;
        self.flag_interrupt_disable = true;
        self.stack_pointer = 0xFD;
        Ok(())
    }

    /// Reads the byte at the program counter and advances past it: the
    /// immediate operand, a zero-page operand byte, or a branch offset.
    fn read_immediate_addressed(&mut self, bus: &Bus) -> (r: Result<u8, Fault>)
        requires
            bus.wf(),
        ensures
            r is Ok <==> read_at(*bus, old(self).program_counter) is None,
            r matches Err(e) ==> Some(e) == read_at(*bus, old(self).program_counter)
                && *final(self) == *old(self),
            r matches Ok(v) ==> v == bus.spec_read(old(self).program_counter) && *final(self)
                == with_pc(*old(self), wrap16(old(self).program_counter + 1)),
    {
        let value = match bus.read(self.program_counter) {
            Ok(v) => v,
            Err(f) => return Err(f),
        };
        self.program_counter = self.program_counter.wrapping_add(1);
        Ok(value)
    }

    /// Resolves a two-byte little-endian absolute operand.
    fn read_absolute_addressed(&mut self, bus: &Bus) -> (r: Result<u16, Fault>)
        requires
            bus.wf(),
        ensures
            r is Ok <==> operand_fault(*old(self), *bus, Mode::Absolute) is None,
            r matches Err(e) ==> Some(e) == operand_fault(*old(self), *bus, Mode::Absolute),
            r matches Ok(a) ==> a == operand_ea(*old(self), *bus, Mode::Absolute) && *final(self)
                == with_pc(*old(self), wrap16(old(self).program_counter + 2)),
    {
        let value_low = match bus.read(self.program_counter) {
            Ok(v) => v,
            Err(f) => return Err(f),
        };
        self.program_counter = self.program_counter.wrapping_add(1);
        let value_high = match bus.read(self.program_counter) {
            Ok(v) => v,
            Err(f) => return Err(f),
        };
        self.program_counter = self.program_counter.wrapping_add(1);
        Ok(value_high as u16 * 256 + value_low as u16)
    }

    /// Resolves an absolute operand indexed by X; the index may cross a
    /// page.
    fn read_absolute_addressed_x_indexed(&mut self, bus: &Bus) -> (r: Result<u16, Fault>)
        requires
            bus.wf(),
        ensures
            r is Ok <==> operand_fault(*old(self), *bus, Mode::AbsoluteX) is None,
            r matches Err(e) ==> Some(e) == operand_fault(*old(self), *bus, Mode::AbsoluteX),
            r matches Ok(a) ==> a == operand_ea(*old(self), *bus, Mode::AbsoluteX) && *final(self)
                == with_pc(*old(self), wrap16(old(self).program_counter + 2)),
    {
        let base = match self.read_absolute_addressed(bus) {
            Ok(a) => a,
            Err(f) => return Err(f),
        };
        Ok(base.wrapping_add(self.x as u16))
    }

    /// Resolves an absolute operand indexed by Y; the index may cross a
    /// page.
    fn read_absolute_addressed_y_indexed(&mut self, bus: &Bus) -> (r: Result<u16, Fault>)
        requires
            bus.wf(),
        ensures
            r is Ok <==> operand_fault(*old(self), *bus, Mode::AbsoluteY) is None,
            r matches Err(e) ==> Some(e) == operand_fault(*old(self), *bus, Mode::AbsoluteY),
            r matches Ok(a) ==> a == operand_ea(*old(self), *bus, Mode::AbsoluteY) && *final(self)
                == with_pc(*old(self), wrap16(old(self).program_counter + 2)),
    {
        let base = match self.read_absolute_addressed(bus) {
            Ok(a) => a,
            Err(f) => return Err(f),
        };
        Ok(base.wrapping_add(self.y as u16))
    }

    /// Resolves a zero-page operand indexed by X; the sum wraps within
    /// page 0.
    fn read_zero_page_addressed_x_indexed(&mut self, bus: &Bus) -> (r: Result<u16, Fault>)
        requires
            bus.wf(),
        ensures
            r is Ok <==> operand_fault(*old(self), *bus, Mode::ZeroPageX) is None,
            r matches Err(e) ==> Some(e) == operand_fault(*old(self), *bus, Mode::ZeroPageX),
            r matches Ok(a) ==> a == operand_ea(*old(self), *bus, Mode::ZeroPageX) && *final(self)
                == with_pc(*old(self), wrap16(old(self).program_counter + 1)),
    {
        let address = match self.read_immediate_addressed(bus) {
            Ok(v) => v,
            Err(f) => return Err(f),
        };
        Ok(address.wrapping_add(self.x) as u16)
    }

    /// Resolves a zero-page operand indexed by Y; the sum wraps within
    /// page 0.
    fn read_zero_page_addressed_y_indexed(&mut self, bus: &Bus) -> (r: Result<u16, Fault>)
        requires
            bus.wf(),
        ensures
            r is Ok <==> operand_fault(*old(self), *bus, Mode::ZeroPageY) is None,
            r matches Err(e) ==> Some(e) == operand_fault(*old(self), *bus, Mode::ZeroPageY),
            r matches Ok(a) ==> a == operand_ea(*old(self), *bus, Mode::ZeroPageY) && *final(self)
                == with_pc(*old(self), wrap16(old(self).program_counter + 1)),
    {
        let address = match self.read_immediate_addressed(bus) {
            Ok(v) => v,
            Err(f) => return Err(f),
        };
        Ok(address.wrapping_add(self.y) as u16)
    }

    /// Resolves an indirect (pointer) operand, reproducing the hardware
    /// quirk: the pointer's high byte is re-read from the same page rather
    /// than crossing into the next one.
    fn read_indirect_addressed(&mut self, bus: &Bus) -> (r: Result<u16, Fault>)
        requires
            bus.wf(),
        ensures
            r is Ok <==> operand_fault(*old(self), *bus, Mode::Indirect) is None,
            r matches Err(e) ==> Some(e) == operand_fault(*old(self), *bus, Mode::Indirect),
            r matches Ok(a) ==> a == operand_ea(*old(self), *bus, Mode::Indirect) && *final(self)
                == with_pc(*old(self), wrap16(old(self).program_counter + 2)),
    {
        let address = match self.read_absolute_addressed(bus) {
            Ok(a) => a,
            Err(f) => return Err(f),
        };
        let value_low = match bus.read(address) {
            Ok(v) => v,
            Err(f) => return Err(f),
        };
        let high_address = (address / 256) * 256 + (address % 256 + 1) % 256;
        let value_high = match bus.read(high_address) {
            Ok(v) => v,
            Err(f) => return Err(f),
        };
        Ok(value_high as u16 * 256 + value_low as u16)
    }

    /// Resolves an indirect operand pre-indexed by X: the zero-page pointer
    /// is offset by X (wrapping in page 0) before it is dereferenced.
    #[verifier::rlimit(60)]
    fn read_indirect_addressed_x_indexed(&mut self, bus: &Bus) -> (r: Result<u16, Fault>)
        requires
            bus.wf(),
        ensures
            r is Ok <==> operand_fault(*old(self), *bus, Mode::IndirectX) is None,
            r matches Err(e) ==> Some(e) == operand_fault(*old(self), *bus, Mode::IndirectX),
            r matches Ok(a) ==> a == operand_ea(*old(self), *bus, Mode::IndirectX) && *final(self)
                == with_pc(*old(self), wrap16(old(self).program_counter + 1)),
    {
        let base = match self.read_immediate_addressed(bus) {
            Ok(v) => v,
            Err(f) => return Err(f),
        };
        let address = base.wrapping_add(self.x);
        let value_low = match bus.read(address as u16) {
            Ok(v) => v,
            Err(f) => return Err(f),
        };
        let value_high = match bus.read(address.wrapping_add(1) as u16) {
            Ok(v) => v,
            Err(f) => return Err(f),
        };
        Ok(value_high as u16 * 256 + value_low as u16)
    }

    /// Resolves an indirect operand post-indexed by Y: the zero-page
    /// pointer is dereferenced, then offset by Y; the sum may cross a page.
    #[verifier::rlimit(60)]
    fn read_indirect_addressed_y_indexed(&mut self, bus: &Bus) -> (r: Result<u16, Fault>)
        requires
            bus.wf(),
        ensures
            r is Ok <==> operand_fault(*old(self), *bus, Mode::IndirectY) is None,
            r matches Err(e) ==> Some(e) == operand_fault(*old(self), *bus, Mode::IndirectY),
            r matches Ok(a) ==> a == operand_ea(*old(self), *bus, Mode::IndirectY) && *final(self)
                == with_pc(*old(self), wrap16(old(self).program_counter + 1)),
    {
        let base = match self.read_immediate_addressed(bus) {
            Ok(v) => v,
            Err(f) => return Err(f),
        };
        let value_low = match bus.read(base as u16) {
            Ok(v) => v,
            Err(f) => return Err(f),
        };
        let value_high = match bus.read(base.wrapping_add(1) as u16) {
            Ok(v) => v,
            Err(f) => return Err(f),
        };
        Ok((value_high as u16 * 256 + value_low as u16).wrapping_add(self.y as u16))
    }

    /// Resolves the effective address for any operand-taking mode through
    /// the mode's own resolver.
    fn resolve_operand(&mut self, bus: &Bus, mode: Mode) -> (r: Result<u16, Fault>)
        requires
            bus.wf(),
            mode != Mode::Implied,
            mode != Mode::Accumulator,
        ensures
            r is Ok <==> operand_fault(*old(self), *bus, mode) is None,
            r matches Err(e) ==> Some(e) == operand_fault(*old(self), *bus, mode),
            r matches Ok(a) ==> a == operand_ea(*old(self), *bus, mode) && *final(self) == with_pc(
                *old(self),
                wrap16(old(self).program_counter + (mode_len(mode) - 1)),
            ),
    {
        match mode {
            Mode::Immediate | Mode::Relative => {
                let address = self.program_counter;
                match bus.read(address) {
                    Ok(_) => {
                        self.program_counter = self.program_counter.wrapping_add(1);
                        Ok(address)
                    },
                    Err(f) => Err(f),
                }
            },
            Mode::ZeroPage => {
                let address = match self.read_immediate_addressed(bus) {
                    Ok(v) => v,
                    Err(f) => return Err(f),
                };
                Ok(address as u16)
            },
            Mode::ZeroPageX => self.read_zero_page_addressed_x_indexed(bus),
            Mode::ZeroPageY => self.read_zero_page_addressed_y_indexed(bus),
            Mode::Absolute => self.read_absolute_addressed(bus),
            Mode::AbsoluteX => self.read_absolute_addressed_x_indexed(bus),
            Mode::AbsoluteY => self.read_absolute_addressed_y_indexed(bus),
            Mode::Indirect => self.read_indirect_addressed(bus),
            Mode::IndirectX => self.read_indirect_addressed_x_indexed(bus),
            Mode::IndirectY => self.read_indirect_addressed_y_indexed(bus),
            Mode::Implied | Mode::Accumulator => Ok(0),
        }
    }

    /// Pushes one byte: writes to the stack page at the stack pointer, then
    /// decrements the pointer, wrapping modulo 256.
    fn push(&mut self, bus: &mut Bus, value: u8)
        requires
            old(bus).wf(),
        ensures
            final(bus).wf(),
            *final(self) == with_sp(*old(self), sp_dec(old(self).stack_pointer)),
            final(bus).ram@ == old(bus).ram@.update(0x100 + old(self).stack_pointer as int, value),
            final(bus).ppu == old(bus).ppu,
            final(bus).rom == old(bus).rom,
    {
        let _ = bus.write(0x100 + self.stack_pointer as u16, value);
        self.stack_pointer = self.stack_pointer.wrapping_sub(1);
    }

    /// Pulls one byte: increments the stack pointer, wrapping modulo 256,
    /// then reads the stack page at the new pointer.
    fn pull(&mut self, bus: &Bus) -> (r: u8)
        requires
            bus.wf(),
        ensures
            *final(self) == with_sp(*old(self), sp_inc(old(self).stack_pointer)),
            r == bus.spec_read(stack_addr(sp_inc(old(self).stack_pointer))),
    {
        self.stack_pointer = self.stack_pointer.wrapping_add(1);
        match bus.read(0x100 + self.stack_pointer as u16) {
            Ok(v) => v,
            Err(_) => 0,
        }
    }

    /// Packs the status byte with the transient break bit as requested and
    /// the reserved bit forced to 1.
    fn get_status_register(&self, flag_break: bool) -> (r: u8)
        ensures
            r == status_byte(*self, flag_break),
    {
        let c: u8 = if self.flag_carry {
            1
        } else {
            0
        };
        let z: u8 = if self.flag_zero {
            1
        } else {
            0
        };
        let i: u8 = if self.flag_interrupt_disable {
            1
        } else {
            0
        };
        let d: u8 = if self.flag_decimal {
            1
        } else {
            0
        };
        let b: u8 = if flag_break {
            1
        } else {
            0
        };
        let v: u8 = if self.flag_overflow {
            1
        } else {
            0
        };
        let n: u8 = if self.flag_negative {
            1
        } else {
            0
        };
        c + 2 * z + 4 * i + 8 * d + 16 * b + 32 + 64 * v + 128 * n
    }

    /// Restores the six architectural flags from a packed status byte; the
    /// break and reserved bits are not architectural state and are ignored.
    fn set_status_register(&mut self, data: u8)
        ensures
            *final(self) == status_restored(*old(self), data),
    {
        self.flag_carry = data % 2 == 1;
        self.flag_zero = (data / 2) % 2 == 1;
        self.flag_interrupt_disable = (data / 4) % 2 == 1;
        self.flag_decimal = (data / 8) % 2 == 1;
        self.flag_overflow = (data / 64) % 2 == 1;
        self.flag_negative = (data / 128) % 2 == 1;
    }
}

/// A left shift by one, dropping into 8 bits.
pub open spec fn asl_of(v: u8) -> u8 {
    ((v * 2) % 256) as u8
}

/// A right shift by one.
pub open spec fn lsr_of(v: u8) -> u8 {
    v / 2
}

/// A rotate left through carry.
pub open spec fn rol_of(v: u8, carry: bool) -> u8 {
    ((v * 2) % 256 + bool_bit(carry)) as u8
}

/// A rotate right through carry.
pub open spec fn ror_of(v: u8, carry: bool) -> u8 {
    (v / 2 + 128 * bool_bit(carry)) as u8
}

/// An increment, wrapping modulo 256.
pub open spec fn inc_of(v: u8) -> u8 {
    ((v + 1) % 256) as u8
}

/// A decrement, wrapping modulo 256.
pub open spec fn dec_of(v: u8) -> u8 {
    ((v + 255) % 256) as u8
}

/// The wide sum of an add-with-carry: both operands plus the incoming
/// carry, before truncation.
pub open spec fn adc_sum(a: u8, v: u8, carry: bool) -> int {
    a + v + bool_bit(carry)
}

/// Signed overflow of an add-with-carry: the two's-complement sum leaves
/// -128..=127.
pub open spec fn adc_overflow(a: u8, v: u8, carry: bool) -> bool {
    !(-128 <= signed8(a) + signed8(v) + bool_bit(carry) <= 127)
}

/// The wide difference of a subtract-with-carry: the accumulator minus the
/// operand minus the borrow (a clear carry), before truncation.
pub open spec fn sbc_diff(a: u8, v: u8, carry: bool) -> int {
    a - v - (1 - bool_bit(carry))
}

/// Signed overflow of a subtract-with-carry: the two's-complement
/// difference leaves -128..=127.
pub open spec fn sbc_overflow(a: u8, v: u8, carry: bool) -> bool {
    !(-128 <= signed8(a) - signed8(v) - (1 - bool_bit(carry)) <= 127)
}

/// The first fault of a read-modify-write access at `addr`, in program
/// order.
pub open spec fn rmw_fault(bus: Bus, addr: u16) -> Option<Fault> {
    first_of(read_at(bus, addr), write_at(addr))
}

/// The branch target: the post-branch program counter plus the sign-read
/// offset, wrapping in the 16-bit space.
pub open spec fn branch_target(pc: u16, offset: u8) -> u16 {
    wrap16(pc + signed8(offset))
}

impl Cpu {
    /// Shifts the byte at `address` left by one: the old bit 7 becomes the
    /// carry, zero and negative follow the shifted value.
    fn shift_left(&mut self, bus: &mut Bus, address: u16) -> (r: Result<(), Fault>)
        requires
            old(bus).wf(),
        ensures
            final(bus).wf(),
            r is Ok <==> rmw_fault(*old(bus), address) is None,
            r matches Err(e) ==> Some(e) == rmw_fault(*old(bus), address) && *final(bus) == *old(
                bus,
            ) && *final(self) == *old(self),
            r is Ok ==> ({
                let v = old(bus).spec_read(address);
                &&& crate::bus::write_rel(*old(bus), *final(bus), address, asl_of(v), Ok(()))
                &&& *final(self) == (Cpu {
                    flag_carry: v >= 128,
                    flag_zero: asl_of(v) == 0,
                    flag_negative: asl_of(v) >= 128,
                    ..*old(self)
                })
            }),
    {
        let value = match bus.read(address) {
            Ok(v) => v,
            Err(f) => return Err(f),
        };
        let shifted = ((value as u16 * 2) % 256) as u8;
        match bus.write(address, shifted) {
            Ok(_) => {},
            Err(f) => return Err(f),
        }
        self.flag_carry = value >= 128;
        self.flag_zero = shifted == 0;
        self.flag_negative = shifted >= 128;
        Ok(())
    }

    /// Shifts the byte at `address` right by one: the old bit 0 becomes
    /// the carry, zero and negative follow the shifted value.
    fn shift_right(&mut self, bus: &mut Bus, address: u16) -> (r: Result<(), Fault>)
        requires
            old(bus).wf(),
        ensures
            final(bus).wf(),
            r is Ok <==> rmw_fault(*old(bus), address) is None,
            r matches Err(e) ==> Some(e) == rmw_fault(*old(bus), address) && *final(bus) == *old(
                bus,
            ) && *final(self) == *old(self),
            r is Ok ==> ({
                let v = old(bus).spec_read(address);
                &&& crate::bus::write_rel(*old(bus), *final(bus), address, lsr_of(v), Ok(()))
                &&& *final(self) == (Cpu {
                    flag_carry: v % 2 == 1,
                    flag_zero: lsr_of(v) == 0,
                    flag_negative: lsr_of(v) >= 128,
                    ..*old(self)
                })
            }),
    {
        let value = match bus.read(address) {
            Ok(v) => v,
            Err(f) => return Err(f),
        };
        let shifted = value / 2;
        match bus.write(address, shifted) {
            Ok(_) => {},
            Err(f) => return Err(f),
        }
        self.flag_carry = value % 2 == 1;
        self.flag_zero = shifted == 0;
        self.flag_negative = shifted >= 128;
        Ok(())
    }

    /// Rotates the byte at `address` left through the carry.
    fn rotate_left(&mut self, bus: &mut Bus, address: u16) -> (r: Result<(), Fault>)
        requires
            old(bus).wf(),
        ensures
            final(bus).wf(),
            r is Ok <==> rmw_fault(*old(bus), address) is None,
            r matches Err(e) ==> Some(e) == rmw_fault(*old(bus), address) && *final(bus) == *old(
                bus,
            ) && *final(self) == *old(self),
            r is Ok ==> ({
                let v = old(bus).spec_read(address);
                let rotated = rol_of(v, old(self).flag_carry);
                &&& crate::bus::write_rel(*old(bus), *final(bus), address, rotated, Ok(()))
                &&& *final(self) == (Cpu {
                    flag_carry: v >= 128,
                    flag_zero: rotated == 0,
                    flag_negative: rotated >= 128,
                    ..*old(self)
                })
            }),
    {
        let value = match bus.read(address) {
            Ok(v) => v,
            Err(f) => return Err(f),
        };
        let rotated = ((value as u16 * 2) % 256) as u8 + if self.flag_carry {
            1
        } else {
            0
        };
        match bus.write(address, rotated) {
            Ok(_) => {},
            Err(f) => return Err(f),
        }
        self.flag_carry = value >= 128;
        self.flag_zero = rotated == 0;
        self.flag_negative = rotated >= 128;
        Ok(())
    }

    /// Rotates the byte at `address` right through the carry.
    fn rotate_right(&mut self, bus: &mut Bus, address: u16) -> (r: Result<(), Fault>)
        requires
            old(bus).wf(),
        ensures
            final(bus).wf(),
            r is Ok <==> rmw_fault(*old(bus), address) is None,
            r matches Err(e) ==> Some(e) == rmw_fault(*old(bus), address) && *final(bus) == *old(
                bus,
            ) && *final(self) == *old(self),
            r is Ok ==> ({
                let v = old(bus).spec_read(address);
                let rotated = ror_of(v, old(self).flag_carry);
                &&& crate::bus::write_rel(*old(bus), *final(bus), address, rotated, Ok(()))
                &&& *final(self) == (Cpu {
                    flag_carry: v % 2 == 1,
                    flag_zero: rotated == 0,
                    flag_negative: rotated >= 128,
                    ..*old(self)
                })
            }),
    {
        let value = match bus.read(address) {
            Ok(v) => v,
            Err(f) => return Err(f),
        };
        let rotated = value / 2 + if self.flag_carry {
            128
        } else {
            0
        };
        match bus.write(address, rotated) {
            Ok(_) => {},
            Err(f) => return Err(f),
        }
        self.flag_carry = value % 2 == 1;
        self.flag_zero = rotated == 0;
        self.flag_negative = rotated >= 128;
        Ok(())
    }

    /// Increments the byte at `address`, wrapping modulo 256; zero and
    /// negative follow the new value, the carry is untouched.
    fn increment(&mut self, bus: &mut Bus, address: u16) -> (r: Result<(), Fault>)
        requires
            old(bus).wf(),
        ensures
            final(bus).wf(),
            r is Ok <==> rmw_fault(*old(bus), address) is None,
            r matches Err(e) ==> Some(e) == rmw_fault(*old(bus), address) && *final(bus) == *old(
                bus,
            ) && *final(self) == *old(self),
            r is Ok ==> ({
                let v = old(bus).spec_read(address);
                &&& crate::bus::write_rel(*old(bus), *final(bus), address, inc_of(v), Ok(()))
                &&& *final(self) == (Cpu {
                    flag_zero: inc_of(v) == 0,
                    flag_negative: inc_of(v) >= 128,
                    ..*old(self)
                })
            }),
    {
        let value = match bus.read(address) {
            Ok(v) => v,
            Err(f) => return Err(f),
        };
        let bumped = value.wrapping_add(1);
        match bus.write(address, bumped) {
            Ok(_) => {},
            Err(f) => return Err(f),
        }
        self.flag_zero = bumped == 0;
        self.flag_negative = bumped >= 128;
        Ok(())
    }

    /// Decrements the byte at `address`, wrapping modulo 256; zero and
    /// negative follow the new value, the carry is untouched.
    fn decrement(&mut self, bus: &mut Bus, address: u16) -> (r: Result<(), Fault>)
        requires
            old(bus).wf(),
        ensures
            final(bus).wf(),
            r is Ok <==> rmw_fault(*old(bus), address) is None,
            r matches Err(e) ==> Some(e) == rmw_fault(*old(bus), address) && *final(bus) == *old(
                bus,
            ) && *final(self) == *old(self),
            r is Ok ==> ({
                let v = old(bus).spec_read(address);
                &&& crate::bus::write_rel(*old(bus), *final(bus), address, dec_of(v), Ok(()))
                &&& *final(self) == (Cpu {
                    flag_zero: dec_of(v) == 0,
                    flag_negative: dec_of(v) >= 128,
                    ..*old(self)
                })
            }),
    {
        let value = match bus.read(address) {
            Ok(v) => v,
            Err(f) => return Err(f),
        };
        let bumped = value.wrapping_sub(1);
        match bus.write(address, bumped) {
            Ok(_) => {},
            Err(f) => return Err(f),
        }
        self.flag_zero = bumped == 0;
        self.flag_negative = bumped >= 128;
        Ok(())
    }

    /// ORs the byte at `address` into the accumulator; zero and negative
    /// follow the result.
    fn bitwise_or(&mut self, bus: &Bus, address: u16) -> (r: Result<(), Fault>)
        requires
            bus.wf(),
        ensures
            r is Ok <==> read_at(*bus, address) is None,
            r matches Err(e) ==> Some(e) == read_at(*bus, address) && *final(self) == *old(self),
            r is Ok ==> ({
                let v = old(self).a | bus.spec_read(address);
                *final(self) == (Cpu {
                    a: v,
                    flag_zero: v == 0,
                    flag_negative: v >= 128,
                    ..*old(self)
                })
            }),
    {
        let value = match bus.read(address) {
            Ok(v) => v,
            Err(f) => return Err(f),
        };
        self.a = self.a | value;
        self.flag_zero = self.a == 0;
        self.flag_negative = self.a >= 128;
        Ok(())
    }

    /// ANDs the byte at `address` into the accumulator; zero and negative
    /// follow the result.
    fn bitwise_and(&mut self, bus: &Bus, address: u16) -> (r: Result<(), Fault>)
        requires
            bus.wf(),
        ensures
            r is Ok <==> read_at(*bus, address) is None,
            r matches Err(e) ==> Some(e) == read_at(*bus, address) && *final(self) == *old(self),
            r is Ok ==> ({
                let v = old(self).a & bus.spec_read(address);
                *final(self) == (Cpu {
                    a: v,
                    flag_zero: v == 0,
                    flag_negative: v >= 128,
                    ..*old(self)
                })
            }),
    {
        let value = match bus.read(address) {
            Ok(v) => v,
            Err(f) => return Err(f),
        };
        self.a = self.a & value;
        self.flag_zero = self.a == 0;
        self.flag_negative = self.a >= 128;
        Ok(())
    }

    /// XORs the byte at `address` into the accumulator; zero and negative
    /// follow the result.
    fn bitwise_eor(&mut self, bus: &Bus, address: u16) -> (r: Result<(), Fault>)
        requires
            bus.wf(),
        ensures
            r is Ok <==> read_at(*bus, address) is None,
            r matches Err(e) ==> Some(e) == read_at(*bus, address) && *final(self) == *old(self),
            r is Ok ==> ({
                let v = old(self).a ^ bus.spec_read(address);
                *final(self) == (Cpu {
                    a: v,
                    flag_zero: v == 0,
                    flag_negative: v >= 128,
                    ..*old(self)
                })
            }),
    {
        let value = match bus.read(address) {
            Ok(v) => v,
            Err(f) => return Err(f),
        };
        self.a = self.a ^ value;
        self.flag_zero = self.a == 0;
        self.flag_negative = self.a >= 128;
        Ok(())
    }

    /// Add with carry: the accumulator takes the truncated sum; carry is
    /// an unsigned sum over 255, overflow a two's-complement sum leaving
    /// -128..=127, zero and negative follow the result.
    fn add_carry(&mut self, value: u8)
        ensures
            *final(self) == (Cpu {
                a: (adc_sum(old(self).a, value, old(self).flag_carry) % 256) as u8,
                flag_carry: adc_sum(old(self).a, value, old(self).flag_carry) > 255,
                flag_zero: adc_sum(old(self).a, value, old(self).flag_carry) % 256 == 0,
                flag_negative: adc_sum(old(self).a, value, old(self).flag_carry) % 256 >= 128,
                flag_overflow: adc_overflow(old(self).a, value, old(self).flag_carry),
                ..*old(self)
            }),
    {
        let carry_in: u16 = if self.flag_carry {
            1
        } else {
            0
        };
        let sum: u16 = self.a as u16 + value as u16 + carry_in;
        let result: u8 = (sum % 256) as u8;
        let a_negative = self.a >= 128;
        let value_negative = value >= 128;
        let result_negative = result >= 128;
        self.flag_overflow = a_negative == value_negative && a_negative != result_negative;
        self.flag_carry = sum > 0xFF;
        self.a = result;
        self.flag_zero = result == 0;
        self.flag_negative = result_negative;
    }

    /// Subtract with carry: the accumulator takes the truncated difference
    /// (a clear carry borrows one); carry set means no borrow occurred,
    /// overflow is a two's-complement difference leaving -128..=127, zero
    /// and negative follow the result.
    fn sub_carry(&mut self, value: u8)
        ensures
            *final(self) == (Cpu {
                a: (sbc_diff(old(self).a, value, old(self).flag_carry) % 256) as u8,
                flag_carry: sbc_diff(old(self).a, value, old(self).flag_carry) >= 0,
                flag_zero: sbc_diff(old(self).a, value, old(self).flag_carry) % 256 == 0,
                flag_negative: sbc_diff(old(self).a, value, old(self).flag_carry) % 256 >= 128,
                flag_overflow: sbc_overflow(old(self).a, value, old(self).flag_carry),
                ..*old(self)
            }),
    {
        let borrow: u16 = if self.flag_carry {
            0
        } else {
            1
        };
        let result: u8 = (((self.a as u16 + 256) - (value as u16 + borrow)) % 256) as u8;
        let a_negative = self.a >= 128;
        let value_negative = value >= 128;
        let result_negative = result >= 128;
        self.flag_overflow = a_negative != value_negative && result_negative != a_negative;
        self.flag_carry = self.a as u16 >= value as u16 + borrow;
        self.a = result;
        self.flag_zero = result == 0;
        self.flag_negative = result_negative;
    }

    /// Compares a register with a value: carry for no borrow, zero for
    /// equality, negative from bit 7 of the wrapped difference.
    fn compare(&mut self, register: u8, value: u8)
        ensures
            *final(self) == (Cpu {
                flag_carry: register >= value,
                flag_zero: register == value,
                flag_negative: (register - value) % 256 >= 128,
                ..*old(self)
            }),
    {
        self.flag_carry = register >= value;
        self.flag_zero = register == value;
        self.flag_negative = register.wrapping_sub(value) >= 128;
    }

    /// Compares the accumulator with a value.
    fn compare_a(&mut self, value: u8)
        ensures
            *final(self) == (Cpu {
                flag_carry: old(self).a >= value,
                flag_zero: old(self).a == value,
                flag_negative: (old(self).a - value) % 256 >= 128,
                ..*old(self)
            }),
    {
        let register = self.a;
        self.compare(register, value);
    }

    /// Compares the X register with a value.
    fn compare_x(&mut self, value: u8)
        ensures
            *final(self) == (Cpu {
                flag_carry: old(self).x >= value,
                flag_zero: old(self).x == value,
                flag_negative: (old(self).x - value) % 256 >= 128,
                ..*old(self)
            }),
    {
        let register = self.x;
        self.compare(register, value);
    }

    /// Compares the Y register with a value.
    fn compare_y(&mut self, value: u8)
        ensures
            *final(self) == (Cpu {
                flag_carry: old(self).y >= value,
                flag_zero: old(self).y == value,
                flag_negative: (old(self).y - value) % 256 >= 128,
                ..*old(self)
            }),
    {
        let register = self.y;
        self.compare(register, value);
    }

    /// Bit test: zero from the accumulator AND the value, negative from
    /// the value's bit 7, overflow from its bit 6.
    fn bit_test(&mut self, value: u8)
        ensures
            *final(self) == (Cpu {
                flag_zero: old(self).a & value == 0,
                flag_negative: value >= 128,
                flag_overflow: (value / 64) % 2 == 1,
                ..*old(self)
            }),
    {
        self.flag_zero = self.a & value == 0;
        self.flag_negative = value >= 128;
        self.flag_overflow = (value / 64) % 2 == 1;
    }

    /// One flag-conditioned branch: 2 cycles untaken; taken, 3 cycles when
    /// the target stays in the post-branch program counter's 256-byte page
    /// and 4 when the page changes.
    fn branch(&mut self, condition: bool, offset: u8) -> (cycles: u8)
        ensures
            !condition ==> *final(self) == *old(self) && cycles == 2,
            condition ==> ({
                let target = branch_target(old(self).program_counter, offset);
                &&& *final(self) == with_pc(*old(self), target)
                &&& cycles == if target / 256 == old(self).program_counter / 256 {
                    3u8
                } else {
                    4u8
                }
            }),
    {
        if condition {
            let new_program_counter = if offset < 128 {
                self.program_counter.wrapping_add(offset as u16)
            } else {
                self.program_counter.wrapping_add(offset as u16).wrapping_add(0xFF00)
            };
            let cycles: u8 = if new_program_counter / 256 == self.program_counter / 256 {
                3
            } else {
                4
            };
            self.program_counter = new_program_counter;
            cycles
        } else {
            2
        }
    }
}

/// Whether an operation reads its resolved operand from memory.
pub open spec fn is_read_op(operation: Operation) -> bool {
    match operation {
        Operation::Adc | Operation::And | Operation::Bit | Operation::Cmp | Operation::Cpx
            | Operation::Cpy | Operation::Eor | Operation::Lda | Operation::Ldx | Operation::Ldy
            | Operation::Ora | Operation::Sbc => true,
        _ => false,
    }
}

/// Whether an operation stores a register to its resolved operand.
pub open spec fn is_store_op(operation: Operation) -> bool {
    match operation {
        Operation::Sta | Operation::Stx | Operation::Sty => true,
        _ => false,
    }
}

/// Whether an operation rewrites its resolved operand in place.
pub open spec fn is_rmw_op(operation: Operation) -> bool {
    match operation {
        Operation::Asl | Operation::Lsr | Operation::Rol | Operation::Ror | Operation::Inc
            | Operation::Dec => true,
        _ => false,
    }
}

/// Whether an operation is one of the eight flag-conditioned branches.
pub open spec fn is_branch_op(operation: Operation) -> bool {
    match operation {
        Operation::Bcc | Operation::Bcs | Operation::Beq | Operation::Bmi | Operation::Bne
            | Operation::Bpl | Operation::Bvc | Operation::Bvs => true,
        _ => false,
    }
}

/// Whether an operation transfers control instead of falling through to
/// the next instruction.
pub open spec fn is_control_op(operation: Operation) -> bool {
    ||| is_branch_op(operation)
    ||| operation == Operation::Jmp
    ||| operation == Operation::Jsr
    ||| operation == Operation::Brk
    ||| operation == Operation::Rts
    ||| operation == Operation::Rti
}

/// Whether an opcode halts the processor.
pub open spec fn is_halt(op: u8) -> bool {
    decode_spec(op) matches Some(info) && info.operation == Operation::Hlt
}

/// Whether a branch operation's condition holds of the flags in `c`.
pub open spec fn branch_taken(c: Cpu, operation: Operation) -> bool {
    match operation {
        Operation::Bpl => !c.flag_negative,
        Operation::Bmi => c.flag_negative,
        Operation::Bvc => !c.flag_overflow,
        Operation::Bvs => c.flag_overflow,
        Operation::Bcc => !c.flag_carry,
        Operation::Bcs => c.flag_carry,
        Operation::Bne => !c.flag_zero,
        Operation::Beq => c.flag_zero,
        _ => false,
    }
}

/// Consistency of a table row: the addressing mode fits the operation's
/// access shape. Every row of the opcode table satisfies this
/// (`lemma_table_wf`).
pub open spec fn info_wf(info: OpInfo) -> bool {
    &&& (is_read_op(info.operation) || is_store_op(info.operation)) ==> info.mode != Mode::Implied
        && info.mode != Mode::Accumulator && info.mode != Mode::Relative && info.mode
        != Mode::Indirect
    &&& is_rmw_op(info.operation) ==> info.mode != Mode::Implied && info.mode != Mode::Relative
        && info.mode != Mode::Indirect
    &&& is_branch_op(info.operation) ==> info.mode == Mode::Relative
    &&& info.operation == Operation::Jmp ==> (info.mode == Mode::Absolute || info.mode
        == Mode::Indirect)
    &&& info.operation == Operation::Jsr ==> info.mode == Mode::Absolute
    &&& (!is_read_op(info.operation) && !is_store_op(info.operation) && !is_rmw_op(info.operation)
        && !is_branch_op(info.operation) && info.operation != Operation::Jmp && info.operation
        != Operation::Jsr) ==> info.mode == Mode::Implied
}

/// Every row of the opcode table pairs its operation with a fitting
/// addressing mode.
pub proof fn lemma_table_wf(op: u8)
    ensures
        decode_spec(op) matches Some(info) ==> info_wf(info),
{
    reveal(decode_spec);
}

/// Truncating an already-truncated value and an increment together is the
/// same as truncating the whole sum.
pub proof fn lemma_wrap16_add(x: int, k: int)
    ensures
        wrap16(wrap16(x) as int + k) == wrap16(x + k),
{
    assert((k + (x % 0x10000)) % 0x10000 == (k + x) % 0x10000) by {
        vstd::arithmetic::div_mod::lemma_add_mod_noop_right(k, x, 0x10000);
    }
}

/// The first fault one instruction hits after its opcode fetch, in program
/// order, with `c.program_counter` at the first operand byte: operand
/// resolution first, then the data read, then the data write. Stack
/// accesses stay in RAM and cannot fault; the interrupt vector read of a
/// break can.
pub open spec fn exec_fault(c: Cpu, bus: Bus, info: OpInfo) -> Option<Fault> {
    let mf = operand_fault(c, bus, info.mode);
    let ea = operand_ea(c, bus, info.mode);
    if is_read_op(info.operation) {
        first_of(mf, read_at(bus, ea))
    } else if is_store_op(info.operation) {
        first_of(mf, write_at(ea))
    } else if is_rmw_op(info.operation) {
        if info.mode == Mode::Accumulator {
            None
        } else {
            first_of(mf, first_of(read_at(bus, ea), write_at(ea)))
        }
    } else if is_branch_op(info.operation) || info.operation == Operation::Jmp || info.operation
        == Operation::Jsr {
        mf
    } else if info.operation == Operation::Brk {
        first_of(read_at(bus, 0xFFFE), read_at(bus, 0xFFFF))
    } else {
        None
    }
}

/// The control-transfer target of a jump, branch, call or return, with
/// `c.program_counter` at the first operand byte.
pub open spec fn exec_target(c: Cpu, bus: Bus, info: OpInfo) -> u16
    recommends
        is_control_op(info.operation),
        exec_fault(c, bus, info) is None,
{
    if is_branch_op(info.operation) {
        let after = wrap16(c.program_counter + 1);
        if branch_taken(c, info.operation) {
            wrap16(c.program_counter + 1 + signed8(bus.spec_read(c.program_counter)))
        } else {
            after
        }
    } else if info.operation == Operation::Jmp || info.operation == Operation::Jsr {
        operand_ea(c, bus, info.mode)
    } else if info.operation == Operation::Brk {
        word(bus.spec_read(0xFFFE), bus.spec_read(0xFFFF))
    } else if info.operation == Operation::Rts {
        wrap16(
            word(
                bus.spec_read(stack_addr(sp_inc(c.stack_pointer))),
                bus.spec_read(stack_addr(sp_inc(sp_inc(c.stack_pointer)))),
            ) + 1,
        )
    } else {
        word(
            bus.spec_read(stack_addr(sp_inc(sp_inc(c.stack_pointer)))),
            bus.spec_read(stack_addr(sp_inc(sp_inc(sp_inc(c.stack_pointer))))),
        )
    }
}

/// The cycle count of one instruction, with `c.program_counter` at the
/// first operand byte: the table's base cost, except that a branch costs 2
/// untaken, 3 taken within the post-branch page, 4 across pages.
pub open spec fn exec_cycles(c: Cpu, bus: Bus, info: OpInfo) -> u8 {
    if is_branch_op(info.operation) {
        let after = wrap16(c.program_counter + 1);
        if branch_taken(c, info.operation) {
            let target = wrap16(c.program_counter + 1 + signed8(bus.spec_read(c.program_counter)));
            if target / 256 == after / 256 {
                3
            } else {
                4
            }
        } else {
            2
        }
    } else {
        info.cycles
    }
}

/// The exact outcome of one processor step from `cpu` over `bus`: the
/// fault of an unreadable opcode fetch, an illegal-opcode fault, the first
/// memory fault the instruction hits, or the elapsed cycle count.
pub open spec fn step_result(cpu: Cpu, bus: Bus) -> Result<u8, Fault>
    recommends
        bus.wf(),
{
    if !bus.read_ok(cpu.program_counter) {
        Err(bus.read_fault(cpu.program_counter))
    } else {
        let op = bus.spec_read(cpu.program_counter);
        match decode_spec(op) {
            None => Err(Fault::IllegalOpcode(op)),
            Some(info) => {
                let c1 = with_pc(cpu, wrap16(cpu.program_counter + 1));
                match exec_fault(c1, bus, info) {
                    Some(f) => Err(f),
                    None => Ok(exec_cycles(c1, bus, info)),
                }
            },
        }
    }
}

/// The program counter after a successful step: the computed target for a
/// jump, branch, call or return, and the next instruction otherwise.
pub open spec fn step_pc(cpu: Cpu, bus: Bus) -> u16
    recommends
        bus.wf(),
        step_result(cpu, bus) is Ok,
{
    let op = bus.spec_read(cpu.program_counter);
    match decode_spec(op) {
        Some(info) => {
            let c1 = with_pc(cpu, wrap16(cpu.program_counter + 1));
            if is_control_op(info.operation) {
                exec_target(c1, bus, info)
            } else {
                wrap16(cpu.program_counter + mode_len(info.mode))
            }
        },
        None => cpu.program_counter,
    }
}


/// The copy of `c` whose zero and negative flags follow a result byte.
pub open spec fn with_zn(c: Cpu, v: u8) -> Cpu {
    Cpu { flag_zero: v == 0, flag_negative: v >= 128, ..c }
}

/// The processor after an operand-reading operation consumes the byte `v`,
/// with the program counter already past the instruction.
pub open spec fn read_op_cpu(c: Cpu, operation: Operation, v: u8) -> Cpu {
    match operation {
        Operation::Ora => Cpu { a: c.a | v, ..with_zn(c, c.a | v) },
        Operation::And => Cpu { a: c.a & v, ..with_zn(c, c.a & v) },
        Operation::Eor => Cpu { a: c.a ^ v, ..with_zn(c, c.a ^ v) },
        Operation::Adc => Cpu {
            a: (adc_sum(c.a, v, c.flag_carry) % 256) as u8,
            flag_carry: adc_sum(c.a, v, c.flag_carry) > 255,
            flag_overflow: adc_overflow(c.a, v, c.flag_carry),
            ..with_zn(c, (adc_sum(c.a, v, c.flag_carry) % 256) as u8)
        },
        Operation::Sbc => Cpu {
            a: (sbc_diff(c.a, v, c.flag_carry) % 256) as u8,
            flag_carry: sbc_diff(c.a, v, c.flag_carry) >= 0,
            flag_overflow: sbc_overflow(c.a, v, c.flag_carry),
            ..with_zn(c, (sbc_diff(c.a, v, c.flag_carry) % 256) as u8)
        },
        Operation::Lda => Cpu { a: v, ..with_zn(c, v) },
        Operation::Ldx => Cpu { x: v, ..with_zn(c, v) },
        Operation::Ldy => Cpu { y: v, ..with_zn(c, v) },
        Operation::Cmp => Cpu {
            flag_carry: c.a >= v,
            flag_zero: c.a == v,
            flag_negative: (c.a - v) % 256 >= 128,
            ..c
        },
        Operation::Cpx => Cpu {
            flag_carry: c.x >= v,
            flag_zero: c.x == v,
            flag_negative: (c.x - v) % 256 >= 128,
            ..c
        },
        Operation::Cpy => Cpu {
            flag_carry: c.y >= v,
            flag_zero: c.y == v,
            flag_negative: (c.y - v) % 256 >= 128,
            ..c
        },
        Operation::Bit => Cpu {
            flag_zero: c.a & v == 0,
            flag_negative: v >= 128,
            flag_overflow: (v / 64) % 2 == 1,
            ..c
        },
        _ => c,
    }
}

/// The register a store operation writes to memory.
pub open spec fn store_value(c: Cpu, operation: Operation) -> u8 {
    match operation {
        Operation::Sta => c.a,
        Operation::Stx => c.x,
        Operation::Sty => c.y,
        _ => 0,
    }
}

/// The byte a read-modify-write operation writes back over the value `v`.
pub open spec fn rmw_value(operation: Operation, v: u8, carry: bool) -> u8 {
    match operation {
        Operation::Asl => asl_of(v),
        Operation::Lsr => lsr_of(v),
        Operation::Rol => rol_of(v, carry),
        Operation::Ror => ror_of(v, carry),
        Operation::Inc => inc_of(v),
        Operation::Dec => dec_of(v),
        _ => v,
    }
}

/// The carry flag after a read-modify-write operation over the value `v`:
/// shifts and rotates move the outgoing bit into the carry, increments and
/// decrements leave it alone.
pub open spec fn rmw_carry(operation: Operation, v: u8, carry: bool) -> bool {
    match operation {
        Operation::Asl | Operation::Rol => v >= 128,
        Operation::Lsr | Operation::Ror => v % 2 == 1,
        _ => carry,
    }
}

/// The processor flags after a read-modify-write operation rewrites the
/// value `v` in memory.
pub open spec fn rmw_cpu(c: Cpu, operation: Operation, v: u8) -> Cpu {
    Cpu {
        flag_carry: rmw_carry(operation, v, c.flag_carry),
        ..with_zn(c, rmw_value(operation, v, c.flag_carry))
    }
}

/// The processor after a read-modify-write operation on the accumulator.
pub open spec fn acc_rmw_cpu(c: Cpu, operation: Operation) -> Cpu {
    Cpu { a: rmw_value(operation, c.a, c.flag_carry), ..rmw_cpu(c, operation, c.a) }
}

/// The processor after a jump, call, return or break, with
/// `c.program_counter` at the first operand byte.
pub open spec fn control_cpu(c: Cpu, bus: Bus, info: OpInfo) -> Cpu
    recommends
        is_control_op(info.operation),
        exec_fault(c, bus, info) is None,
{
    let target = exec_target(c, bus, info);
    if info.operation == Operation::Jsr {
        Cpu {
            program_counter: target,
            stack_pointer: sp_dec(sp_dec(c.stack_pointer)),
            ..c
        }
    } else if info.operation == Operation::Brk {
        Cpu {
            program_counter: target,
            stack_pointer: sp_dec(sp_dec(sp_dec(c.stack_pointer))),
            flag_interrupt_disable: true,
            ..c
        }
    } else if info.operation == Operation::Rts {
        Cpu { program_counter: target, stack_pointer: sp_inc(sp_inc(c.stack_pointer)), ..c }
    } else if info.operation == Operation::Rti {
        Cpu {
            program_counter: target,
            stack_pointer: sp_inc(sp_inc(sp_inc(c.stack_pointer))),
            ..status_restored(c, bus.spec_read(stack_addr(sp_inc(c.stack_pointer))))
        }
    } else {
        with_pc(c, target)
    }
}

/// The bus after a jump, call, return or break: a call pushes the address
/// of its last byte high-then-low, a break pushes the padded return
/// address and the status byte with the break bit set; the others leave
/// the bus alone.
pub open spec fn control_bus_rel(c: Cpu, pre: Bus, post: Bus, info: OpInfo) -> bool {
    if info.operation == Operation::Jsr {
        let ret = wrap16(c.program_counter + 1);
        &&& post.ram@ == pre.ram@.update(
            0x100 + c.stack_pointer as int,
            (ret / 256) as u8,
        ).update(0x100 + sp_dec(c.stack_pointer) as int, (ret as int % 256) as u8)
        &&& post.ppu == pre.ppu
        &&& post.rom == pre.rom
    } else if info.operation == Operation::Brk {
        let ret = wrap16(c.program_counter + 1);
        &&& post.ram@ == pre.ram@.update(
            0x100 + c.stack_pointer as int,
            (ret / 256) as u8,
        ).update(0x100 + sp_dec(c.stack_pointer) as int, (ret as int % 256) as u8).update(
            0x100 + sp_dec(sp_dec(c.stack_pointer)) as int,
            status_byte(c, true),
        )
        &&& post.ppu == pre.ppu
        &&& post.rom == pre.rom
    } else {
        post == pre
    }
}

/// The processor after an implied-mode operation: flag changes, register
/// transfers, stack pushes and pulls, the no-op, and the halt.
pub open spec fn implied_cpu(c: Cpu, bus: Bus, operation: Operation) -> Cpu {
    match operation {
        Operation::Php | Operation::Pha => with_sp(c, sp_dec(c.stack_pointer)),
        Operation::Plp => Cpu {
            stack_pointer: sp_inc(c.stack_pointer),
            ..status_restored(c, bus.spec_read(stack_addr(sp_inc(c.stack_pointer))))
        },
        Operation::Pla => Cpu {
            a: bus.spec_read(stack_addr(sp_inc(c.stack_pointer))),
            stack_pointer: sp_inc(c.stack_pointer),
            ..with_zn(c, bus.spec_read(stack_addr(sp_inc(c.stack_pointer))))
        },
        Operation::Clc => Cpu { flag_carry: false, ..c },
        Operation::Sec => Cpu { flag_carry: true, ..c },
        Operation::Cli => Cpu { flag_interrupt_disable: false, ..c },
        Operation::Sei => Cpu { flag_interrupt_disable: true, ..c },
        Operation::Clv => Cpu { flag_overflow: false, ..c },
        Operation::Cld => Cpu { flag_decimal: false, ..c },
        Operation::Sed => Cpu { flag_decimal: true, ..c },
        Operation::Inx => Cpu { x: inc_of(c.x), ..with_zn(c, inc_of(c.x)) },
        Operation::Iny => Cpu { y: inc_of(c.y), ..with_zn(c, inc_of(c.y)) },
        Operation::Dex => Cpu { x: dec_of(c.x), ..with_zn(c, dec_of(c.x)) },
        Operation::Dey => Cpu { y: dec_of(c.y), ..with_zn(c, dec_of(c.y)) },
        Operation::Tax => Cpu { x: c.a, ..with_zn(c, c.a) },
        Operation::Tay => Cpu { y: c.a, ..with_zn(c, c.a) },
        Operation::Txa => Cpu { a: c.x, ..with_zn(c, c.x) },
        Operation::Tya => Cpu { a: c.y, ..with_zn(c, c.y) },
        Operation::Tsx => Cpu { x: c.stack_pointer, ..with_zn(c, c.stack_pointer) },
        Operation::Txs => Cpu { stack_pointer: c.x, ..c },
        Operation::Hlt => Cpu { halted: true, ..c },
        _ => c,
    }
}

/// The bus after an implied-mode operation: only a push writes, onto the
/// stack page at the stack pointer.
pub open spec fn implied_bus_rel(c: Cpu, pre: Bus, post: Bus, operation: Operation) -> bool {
    if operation == Operation::Php {
        &&& post.ram@ == pre.ram@.update(0x100 + c.stack_pointer as int, status_byte(c, true))
        &&& post.ppu == pre.ppu
        &&& post.rom == pre.rom
    } else if operation == Operation::Pha {
        &&& post.ram@ == pre.ram@.update(0x100 + c.stack_pointer as int, c.a)
        &&& post.ppu == pre.ppu
        &&& post.rom == pre.rom
    } else {
        post == pre
    }
}

/// The processor after one successful step from `cpu` over `bus`: the
/// exact value of every register and flag.
pub open spec fn step_cpu(cpu: Cpu, bus: Bus) -> Cpu
    recommends
        bus.wf(),
        step_result(cpu, bus) is Ok,
{
    let op = bus.spec_read(cpu.program_counter);
    match decode_spec(op) {
        Some(info) => {
            let c1 = with_pc(cpu, wrap16(cpu.program_counter + 1));
            let c2 = with_pc(cpu, wrap16(cpu.program_counter + mode_len(info.mode)));
            let ea = operand_ea(c1, bus, info.mode);
            if is_read_op(info.operation) {
                read_op_cpu(c2, info.operation, bus.spec_read(ea))
            } else if is_store_op(info.operation) {
                c2
            } else if is_rmw_op(info.operation) {
                if info.mode == Mode::Accumulator {
                    acc_rmw_cpu(c2, info.operation)
                } else {
                    rmw_cpu(c2, info.operation, bus.spec_read(ea))
                }
            } else if is_branch_op(info.operation) {
                with_pc(c1, exec_target(c1, bus, info))
            } else if is_control_op(info.operation) {
                control_cpu(c1, bus, info)
            } else {
                implied_cpu(c1, bus, info.operation)
            }
        },
        None => cpu,
    }
}

/// The bus after one successful step from `cpu`: the exact effect of the
/// instruction's single store, read-modify-write, or stack traffic; every
/// other instruction leaves the bus untouched.
pub open spec fn step_bus_rel(cpu: Cpu, pre: Bus, post: Bus) -> bool
    recommends
        pre.wf(),
        step_result(cpu, pre) is Ok,
{
    let op = pre.spec_read(cpu.program_counter);
    match decode_spec(op) {
        Some(info) => {
            let c1 = with_pc(cpu, wrap16(cpu.program_counter + 1));
            let ea = operand_ea(c1, pre, info.mode);
            if is_store_op(info.operation) {
                write_rel(pre, post, ea, store_value(cpu, info.operation), Ok(()))
            } else if is_rmw_op(info.operation) && info.mode != Mode::Accumulator {
                write_rel(
                    pre,
                    post,
                    ea,
                    rmw_value(info.operation, pre.spec_read(ea), cpu.flag_carry),
                    Ok(()),
                )
            } else if info.operation == Operation::Jsr || info.operation == Operation::Brk {
                control_bus_rel(c1, pre, post, info)
            } else if info.operation == Operation::Php || info.operation == Operation::Pha {
                implied_bus_rel(c1, pre, post, info.operation)
            } else {
                post == pre
            }
        },
        None => post == pre,
    }
}

/// The stack pointer after a sequence of stack operations, `true` for a
/// push and `false` for a pull, applied in order.
pub open spec fn sp_after(sp: u8, ops: Seq<bool>) -> u8
    decreases ops.len(),
{
    if ops.len() == 0 {
        sp
    } else {
        sp_after(
            if ops[0] {
                sp_dec(sp)
            } else {
                sp_inc(sp)
            },
            ops.drop_first(),
        )
    }
}

/// How many of a sequence of stack operations are pushes.
pub open spec fn count_pushes(ops: Seq<bool>) -> int
    decreases ops.len(),
{
    if ops.len() == 0 {
        0
    } else {
        bool_bit(ops[0]) + count_pushes(ops.drop_first())
    }
}

/// The stack pointer moves by pulls minus pushes, modulo 256: each push
/// decrements it by one and each pull increments it by one, wrapping
/// without faulting.
pub proof fn lemma_sp_after(sp: u8, ops: Seq<bool>)
    ensures
        sp_after(sp, ops) == ((sp + (ops.len() - count_pushes(ops)) - count_pushes(ops)) % 256)
            as u8,
    decreases ops.len(),
{
    if ops.len() == 0 {
        assert(sp as int % 256 == sp);
    } else {
        let sp1 = if ops[0] {
            sp_dec(sp)
        } else {
            sp_inc(sp)
        };
        lemma_sp_after(sp1, ops.drop_first());
        let rest = ops.drop_first();
        let k = (rest.len() - count_pushes(rest)) - count_pushes(rest);
        assert(sp1 == ((sp + if ops[0] {
            -1int
        } else {
            1int
        }) % 256) as u8);
        assert((k + (sp + if ops[0] {
            -1int
        } else {
            1int
        }) % 256) % 256 == (k + sp + if ops[0] {
            -1int
        } else {
            1int
        }) % 256) by {
            vstd::arithmetic::div_mod::lemma_add_mod_noop_right(
                k,
                sp + if ops[0] {
                    -1int
                } else {
                    1int
                },
                256,
            );
        }
    }
}

/// Stack-balance law: a sequence with equal numbers of pushes and pulls
/// returns the stack pointer to its original value; the arithmetic wraps
/// modulo 256 without faulting.
pub proof fn lemma_stack_balance(sp: u8, ops: Seq<bool>)
    requires
        2 * count_pushes(ops) == ops.len(),
    ensures
        sp_after(sp, ops) == sp,
{
    lemma_sp_after(sp, ops);
    assert(sp as int % 256 == sp);
}

impl Cpu {
    /// Performs one operand-reading operation: resolves the address, reads the
    /// byte, and updates the target register and flags. The bus is untouched.
    #[verifier::rlimit(100)]
    fn execute_read(&mut self, bus: &mut Bus, info: OpInfo) -> (r: Result<u8, Fault>)
        requires
            old(bus).wf(),
            info_wf(info),
            is_read_op(info.operation),
        ensures
            *final(bus) == *old(bus),
            r is Ok <==> exec_fault(*old(self), *old(bus), info) is None,
            r matches Err(e) ==> Some(e) == exec_fault(*old(self), *old(bus), info),
            r matches Ok(c) ==> c == exec_cycles(*old(self), *old(bus), info),
            r is Ok ==> final(self).program_counter == wrap16(
                old(self).program_counter + (mode_len(info.mode) - 1),
            ),
            r is Ok ==> final(self).halted == old(self).halted,
            r is Ok ==> *final(self) == read_op_cpu(
                with_pc(
                    *old(self),
                    wrap16(old(self).program_counter + (mode_len(info.mode) - 1)),
                ),
                info.operation,
                old(bus).spec_read(operand_ea(*old(self), *old(bus), info.mode)),
            ),
    {
        match info.operation {
            Operation::Ora => {
                let address = match self.resolve_operand(bus, info.mode) {
                    Ok(a) => a,
                    Err(f) => return Err(f),
                };
                match self.bitwise_or(bus, address) {
                    Ok(_) => {},
                    Err(f) => return Err(f),
                }
                Ok(info.cycles)
            },
            Operation::And => {
                let address = match self.resolve_operand(bus, info.mode) {
                    Ok(a) => a,
                    Err(f) => return Err(f),
                };
                match self.bitwise_and(bus, address) {
                    Ok(_) => {},
                    Err(f) => return Err(f),
                }
                Ok(info.cycles)
            },
            Operation::Eor => {
                let address = match self.resolve_operand(bus, info.mode) {
                    Ok(a) => a,
                    Err(f) => return Err(f),
                };
                match self.bitwise_eor(bus, address) {
                    Ok(_) => {},
                    Err(f) => return Err(f),
                }
                Ok(info.cycles)
            },
            Operation::Adc => {
                let address = match self.resolve_operand(bus, info.mode) {
                    Ok(a) => a,
                    Err(f) => return Err(f),
                };
                let value = match bus.read(address) {
                    Ok(v) => v,
                    Err(f) => return Err(f),
                };
                self.add_carry(value);
                Ok(info.cycles)
            },
            Operation::Sbc => {
                let address = match self.resolve_operand(bus, info.mode) {
                    Ok(a) => a,
                    Err(f) => return Err(f),
                };
                let value = match bus.read(address) {
                    Ok(v) => v,
                    Err(f) => return Err(f),
                };
                self.sub_carry(value);
                Ok(info.cycles)
            },
            Operation::Cmp => {
                let address = match self.resolve_operand(bus, info.mode) {
                    Ok(a) => a,
                    Err(f) => return Err(f),
                };
                let value = match bus.read(address) {
                    Ok(v) => v,
                    Err(f) => return Err(f),
                };
                self.compare_a(value);
                Ok(info.cycles)
            },
            Operation::Cpx => {
                let address = match self.resolve_operand(bus, info.mode) {
                    Ok(a) => a,
                    Err(f) => return Err(f),
                };
                let value = match bus.read(address) {
                    Ok(v) => v,
                    Err(f) => return Err(f),
                };
                self.compare_x(value);
                Ok(info.cycles)
            },
            Operation::Cpy => {
                let address = match self.resolve_operand(bus, info.mode) {
                    Ok(a) => a,
                    Err(f) => return Err(f),
                };
                let value = match bus.read(address) {
                    Ok(v) => v,
                    Err(f) => return Err(f),
                };
                self.compare_y(value);
                Ok(info.cycles)
            },
            Operation::Bit => {
                let address = match self.resolve_operand(bus, info.mode) {
                    Ok(a) => a,
                    Err(f) => return Err(f),
                };
                let value = match bus.read(address) {
                    Ok(v) => v,
                    Err(f) => return Err(f),
                };
                self.bit_test(value);
                Ok(info.cycles)
            },
            Operation::Lda => {
                let address = match self.resolve_operand(bus, info.mode) {
                    Ok(a) => a,
                    Err(f) => return Err(f),
                };
                let value = match bus.read(address) {
                    Ok(v) => v,
                    Err(f) => return Err(f),
                };
                self.a = value;
                self.flag_zero = value == 0;
                self.flag_negative = value >= 128;
                Ok(info.cycles)
            },
            Operation::Ldx => {
                let address = match self.resolve_operand(bus, info.mode) {
                    Ok(a) => a,
                    Err(f) => return Err(f),
                };
                let value = match bus.read(address) {
                    Ok(v) => v,
                    Err(f) => return Err(f),
                };
                self.x = value;
                self.flag_zero = value == 0;
                self.flag_negative = value >= 128;
                Ok(info.cycles)
            },
            Operation::Ldy => {
                let address = match self.resolve_operand(bus, info.mode) {
                    Ok(a) => a,
                    Err(f) => return Err(f),
                };
                let value = match bus.read(address) {
                    Ok(v) => v,
                    Err(f) => return Err(f),
                };
                self.y = value;
                self.flag_zero = value == 0;
                self.flag_negative = value >= 128;
                Ok(info.cycles)
            },
            _ => Ok(info.cycles),
        }
    }

    /// Performs one store: resolves the address and writes the register there.
    #[verifier::rlimit(100)]
    fn execute_store(&mut self, bus: &mut Bus, info: OpInfo) -> (r: Result<u8, Fault>)
        requires
            old(bus).wf(),
            info_wf(info),
            is_store_op(info.operation),
        ensures
            final(bus).wf(),
            r is Ok <==> exec_fault(*old(self), *old(bus), info) is None,
            r matches Err(e) ==> Some(e) == exec_fault(*old(self), *old(bus), info) && *final(bus)
                == *old(bus),
            r matches Ok(c) ==> c == exec_cycles(*old(self), *old(bus), info),
            r is Ok ==> final(self).program_counter == wrap16(
                old(self).program_counter + (mode_len(info.mode) - 1),
            ),
            r is Ok ==> final(self).halted == old(self).halted,
            r is Ok ==> final(bus).rom == old(bus).rom,
            r is Ok ==> *final(self) == with_pc(
                *old(self),
                wrap16(old(self).program_counter + (mode_len(info.mode) - 1)),
            ),
            r is Ok ==> write_rel(
                *old(bus),
                *final(bus),
                operand_ea(*old(self), *old(bus), info.mode),
                store_value(*old(self), info.operation),
                Ok(()),
            ),
    {
        match info.operation {
            Operation::Sta => {
                let address = match self.resolve_operand(bus, info.mode) {
                    Ok(a) => a,
                    Err(f) => return Err(f),
                };
                match bus.write(address, self.a) {
                    Ok(_) => {},
                    Err(f) => return Err(f),
                }
                Ok(info.cycles)
            },
            Operation::Stx => {
                let address = match self.resolve_operand(bus, info.mode) {
                    Ok(a) => a,
                    Err(f) => return Err(f),
                };
                match bus.write(address, self.x) {
                    Ok(_) => {},
                    Err(f) => return Err(f),
                }
                Ok(info.cycles)
            },
            Operation::Sty => {
                let address = match self.resolve_operand(bus, info.mode) {
                    Ok(a) => a,
                    Err(f) => return Err(f),
                };
                match bus.write(address, self.y) {
                    Ok(_) => {},
                    Err(f) => return Err(f),
                }
                Ok(info.cycles)
            },
            _ => Ok(info.cycles),
        }
    }

    /// Performs one read-modify-write operation, on the accumulator or on the
    /// resolved operand in place.
    #[verifier::rlimit(100)]
    fn execute_rmw(&mut self, bus: &mut Bus, info: OpInfo) -> (r: Result<u8, Fault>)
        requires
            old(bus).wf(),
            info_wf(info),
            is_rmw_op(info.operation),
        ensures
            final(bus).wf(),
            r is Ok <==> exec_fault(*old(self), *old(bus), info) is None,
            r matches Err(e) ==> Some(e) == exec_fault(*old(self), *old(bus), info) && *final(bus)
                == *old(bus),
            r matches Ok(c) ==> c == exec_cycles(*old(self), *old(bus), info),
            r is Ok ==> final(self).program_counter == wrap16(
                old(self).program_counter + (mode_len(info.mode) - 1),
            ),
            r is Ok ==> final(self).halted == old(self).halted,
            r is Ok ==> final(bus).rom == old(bus).rom,
            r is Ok ==> ({
                let c2 = with_pc(
                    *old(self),
                    wrap16(old(self).program_counter + (mode_len(info.mode) - 1)),
                );
                let ea = operand_ea(*old(self), *old(bus), info.mode);
                if info.mode == Mode::Accumulator {
                    &&& *final(self) == acc_rmw_cpu(c2, info.operation)
                    &&& *final(bus) == *old(bus)
                } else {
                    &&& *final(self) == rmw_cpu(c2, info.operation, old(bus).spec_read(ea))
                    &&& write_rel(
                        *old(bus),
                        *final(bus),
                        ea,
                        rmw_value(
                            info.operation,
                            old(bus).spec_read(ea),
                            old(self).flag_carry,
                        ),
                        Ok(()),
                    )
                }
            }),
    {
        match info.operation {
            Operation::Asl => {
                if info.mode == Mode::Accumulator {
                    let value = self.a;
                    self.flag_carry = value >= 128;
                    self.a = ((value as u16 * 2) % 256) as u8;
                    self.flag_zero = self.a == 0;
                    self.flag_negative = self.a >= 128;
                    Ok(info.cycles)
                } else {
                    let address = match self.resolve_operand(bus, info.mode) {
                        Ok(a) => a,
                        Err(f) => return Err(f),
                    };
                    match self.shift_left(bus, address) {
                        Ok(_) => {},
                        Err(f) => return Err(f),
                    }
                    Ok(info.cycles)
                }
            },
            Operation::Lsr => {
                if info.mode == Mode::Accumulator {
                    let value = self.a;
                    self.flag_carry = value % 2 == 1;
                    self.a = value / 2;
                    self.flag_zero = self.a == 0;
                    self.flag_negative = self.a >= 128;
                    Ok(info.cycles)
                } else {
                    let address = match self.resolve_operand(bus, info.mode) {
                        Ok(a) => a,
                        Err(f) => return Err(f),
                    };
                    match self.shift_right(bus, address) {
                        Ok(_) => {},
                        Err(f) => return Err(f),
                    }
                    Ok(info.cycles)
                }
            },
            Operation::Rol => {
                if info.mode == Mode::Accumulator {
                    let value = self.a;
                    let old_carry = self.flag_carry;
                    self.flag_carry = value >= 128;
                    self.a = ((value as u16 * 2) % 256) as u8 + if old_carry {
                        1
                    } else {
                        0
                    };
                    self.flag_zero = self.a == 0;
                    self.flag_negative = self.a >= 128;
                    Ok(info.cycles)
                } else {
                    let address = match self.resolve_operand(bus, info.mode) {
                        Ok(a) => a,
                        Err(f) => return Err(f),
                    };
                    match self.rotate_left(bus, address) {
                        Ok(_) => {},
                        Err(f) => return Err(f),
                    }
                    Ok(info.cycles)
                }
            },
            Operation::Ror => {
                if info.mode == Mode::Accumulator {
                    let value = self.a;
                    let old_carry = self.flag_carry;
                    self.flag_carry = value % 2 == 1;
                    self.a = value / 2 + if old_carry {
                        128
                    } else {
                        0
                    };
                    self.flag_zero = self.a == 0;
                    self.flag_negative = self.a >= 128;
                    Ok(info.cycles)
                } else {
                    let address = match self.resolve_operand(bus, info.mode) {
                        Ok(a) => a,
                        Err(f) => return Err(f),
                    };
                    match self.rotate_right(bus, address) {
                        Ok(_) => {},
                        Err(f) => return Err(f),
                    }
                    Ok(info.cycles)
                }
            },
            Operation::Inc => {
                if info.mode == Mode::Accumulator {
                    self.a = self.a.wrapping_add(1);
                    self.flag_zero = self.a == 0;
                    self.flag_negative = self.a >= 128;
                    Ok(info.cycles)
                } else {
                    let address = match self.resolve_operand(bus, info.mode) {
                        Ok(a) => a,
                        Err(f) => return Err(f),
                    };
                    match self.increment(bus, address) {
                        Ok(_) => {},
                        Err(f) => return Err(f),
                    }
                    Ok(info.cycles)
                }
            },
            Operation::Dec => {
                if info.mode == Mode::Accumulator {
                    self.a = self.a.wrapping_sub(1);
                    self.flag_zero = self.a == 0;
                    self.flag_negative = self.a >= 128;
                    Ok(info.cycles)
                } else {
                    let address = match self.resolve_operand(bus, info.mode) {
                        Ok(a) => a,
                        Err(f) => return Err(f),
                    };
                    match self.decrement(bus, address) {
                        Ok(_) => {},
                        Err(f) => return Err(f),
                    }
                    Ok(info.cycles)
                }
            },
            _ => Ok(info.cycles),
        }
    }

    /// Performs one flag-conditioned branch: all eight share one timing rule
    /// through `branch`. The bus is untouched.
    #[verifier::rlimit(100)]
    fn execute_branch(&mut self, bus: &mut Bus, info: OpInfo) -> (r: Result<u8, Fault>)
        requires
            old(bus).wf(),
            info_wf(info),
            is_branch_op(info.operation),
        ensures
            *final(bus) == *old(bus),
            r is Ok <==> exec_fault(*old(self), *old(bus), info) is None,
            r matches Err(e) ==> Some(e) == exec_fault(*old(self), *old(bus), info),
            r matches Ok(c) ==> c == exec_cycles(*old(self), *old(bus), info),
            r is Ok ==> final(self).program_counter == exec_target(*old(self), *old(bus), info),
            r is Ok ==> final(self).halted == old(self).halted,
            r is Ok ==> *final(self) == with_pc(
                *old(self),
                exec_target(*old(self), *old(bus), info),
            ),
    {
        match info.operation {
            Operation::Bpl => {
                let offset = match self.read_immediate_addressed(bus) {
                    Ok(v) => v,
                    Err(f) => return Err(f),
                };
                let condition = !self.flag_negative;
                let cycles = self.branch(condition, offset);
                proof {
                    lemma_wrap16_add(old(self).program_counter + 1, signed8(offset));
                }
                Ok(cycles)
            },
            Operation::Bmi => {
                let offset = match self.read_immediate_addressed(bus) {
                    Ok(v) => v,
                    Err(f) => return Err(f),
                };
                let condition = self.flag_negative;
                let cycles = self.branch(condition, offset);
                proof {
                    lemma_wrap16_add(old(self).program_counter + 1, signed8(offset));
                }
                Ok(cycles)
            },
            Operation::Bvc => {
                let offset = match self.read_immediate_addressed(bus) {
                    Ok(v) => v,
                    Err(f) => return Err(f),
                };
                let condition = !self.flag_overflow;
                let cycles = self.branch(condition, offset);
                proof {
                    lemma_wrap16_add(old(self).program_counter + 1, signed8(offset));
                }
                Ok(cycles)
            },
            Operation::Bvs => {
                let offset = match self.read_immediate_addressed(bus) {
                    Ok(v) => v,
                    Err(f) => return Err(f),
                };
                let condition = self.flag_overflow;
                let cycles = self.branch(condition, offset);
                proof {
                    lemma_wrap16_add(old(self).program_counter + 1, signed8(offset));
                }
                Ok(cycles)
            },
            Operation::Bcc => {
                let offset = match self.read_immediate_addressed(bus) {
                    Ok(v) => v,
                    Err(f) => return Err(f),
                };
                let condition = !self.flag_carry;
                let cycles = self.branch(condition, offset);
                proof {
                    lemma_wrap16_add(old(self).program_counter + 1, signed8(offset));
                }
                Ok(cycles)
            },
            Operation::Bcs => {
                let offset = match self.read_immediate_addressed(bus) {
                    Ok(v) => v,
                    Err(f) => return Err(f),
                };
                let condition = self.flag_carry;
                let cycles = self.branch(condition, offset);
                proof {
                    lemma_wrap16_add(old(self).program_counter + 1, signed8(offset));
                }
                Ok(cycles)
            },
            Operation::Bne => {
                let offset = match self.read_immediate_addressed(bus) {
                    Ok(v) => v,
                    Err(f) => return Err(f),
                };
                let condition = !self.flag_zero;
                let cycles = self.branch(condition, offset);
                proof {
                    lemma_wrap16_add(old(self).program_counter + 1, signed8(offset));
                }
                Ok(cycles)
            },
            Operation::Beq => {
                let offset = match self.read_immediate_addressed(bus) {
                    Ok(v) => v,
                    Err(f) => return Err(f),
                };
                let condition = self.flag_zero;
                let cycles = self.branch(condition, offset);
                proof {
                    lemma_wrap16_add(old(self).program_counter + 1, signed8(offset));
                }
                Ok(cycles)
            },
            _ => Ok(info.cycles),
        }
    }

    /// Jump to subroutine: reads the absolute target, pushes the address
    /// of the call's last byte high-then-low, and jumps.
    #[verifier::rlimit(100)]
    fn op_jsr(&mut self, bus: &mut Bus, info: OpInfo) -> (r: Result<u8, Fault>)
        requires
            old(bus).wf(),
            info.operation == Operation::Jsr,
            info.mode == Mode::Absolute,
        ensures
            final(bus).wf(),
            r is Ok <==> exec_fault(*old(self), *old(bus), info) is None,
            r matches Err(e) ==> Some(e) == exec_fault(*old(self), *old(bus), info) && *final(bus)
                == *old(bus),
            r matches Ok(c) ==> c == exec_cycles(*old(self), *old(bus), info),
            r is Ok ==> final(self).program_counter == exec_target(*old(self), *old(bus), info),
            r is Ok ==> final(self).halted == old(self).halted,
            r is Ok ==> final(bus).rom == old(bus).rom,
            r is Ok ==> *final(self) == control_cpu(*old(self), *old(bus), info),
            r is Ok ==> control_bus_rel(*old(self), *old(bus), *final(bus), info),
    {
        let address = match self.read_absolute_addressed(bus) {
            Ok(a) => a,
            Err(f) => return Err(f),
        };
        let return_address = self.program_counter.wrapping_sub(1);
        self.push(bus, (return_address / 256) as u8);
        self.push(bus, (return_address % 256) as u8);
        self.program_counter = address;
        Ok(info.cycles)
    }

    /// Break: reads the interrupt vector, pushes the padded return address
    /// and the status byte with the break bit set, raises the
    /// interrupt-disable flag, and jumps through the vector.
    #[verifier::rlimit(100)]
    fn op_brk(&mut self, bus: &mut Bus, info: OpInfo) -> (r: Result<u8, Fault>)
        requires
            old(bus).wf(),
            info.operation == Operation::Brk,
            info.mode == Mode::Implied,
        ensures
            final(bus).wf(),
            r is Ok <==> exec_fault(*old(self), *old(bus), info) is None,
            r matches Err(e) ==> Some(e) == exec_fault(*old(self), *old(bus), info) && *final(bus)
                == *old(bus),
            r matches Ok(c) ==> c == exec_cycles(*old(self), *old(bus), info),
            r is Ok ==> final(self).program_counter == exec_target(*old(self), *old(bus), info),
            r is Ok ==> final(self).halted == old(self).halted,
            r is Ok ==> final(bus).rom == old(bus).rom,
            r is Ok ==> *final(self) == control_cpu(*old(self), *old(bus), info),
            r is Ok ==> control_bus_rel(*old(self), *old(bus), *final(bus), info),
    {
        let destination_low = match bus.read(0xFFFE) {
            Ok(v) => v,
            Err(f) => return Err(f),
        };
        let destination_high = match bus.read(0xFFFF) {
            Ok(v) => v,
            Err(f) => return Err(f),
        };
        self.program_counter = self.program_counter.wrapping_add(1);
        let pushed = self.program_counter;
        self.push(bus, (pushed / 256) as u8);
        self.push(bus, (pushed % 256) as u8);
        let status = self.get_status_register(true);
        self.push(bus, status);
        self.flag_interrupt_disable = true;
        self.program_counter = destination_high as u16 * 256 + destination_low as u16;
        Ok(info.cycles)
    }

    /// Performs one jump, call, return or break: the program counter takes the
    /// computed target.
    #[verifier::rlimit(100)]
    fn execute_control(&mut self, bus: &mut Bus, info: OpInfo) -> (r: Result<u8, Fault>)
        requires
            old(bus).wf(),
            info_wf(info),
            info.operation == Operation::Jmp || info.operation == Operation::Jsr
                || info.operation == Operation::Brk || info.operation == Operation::Rts
                || info.operation == Operation::Rti,
        ensures
            final(bus).wf(),
            r is Ok <==> exec_fault(*old(self), *old(bus), info) is None,
            r matches Err(e) ==> Some(e) == exec_fault(*old(self), *old(bus), info) && *final(bus)
                == *old(bus),
            r matches Ok(c) ==> c == exec_cycles(*old(self), *old(bus), info),
            r is Ok ==> final(self).program_counter == exec_target(*old(self), *old(bus), info),
            r is Ok ==> final(self).halted == old(self).halted,
            r is Ok ==> final(bus).rom == old(bus).rom,
            r is Ok ==> *final(self) == control_cpu(*old(self), *old(bus), info),
            r is Ok ==> control_bus_rel(*old(self), *old(bus), *final(bus), info),
    {
        match info.operation {
            Operation::Jmp => {
                let address = match self.resolve_operand(bus, info.mode) {
                    Ok(a) => a,
                    Err(f) => return Err(f),
                };
                self.program_counter = address;
                Ok(info.cycles)
            },
            Operation::Jsr => self.op_jsr(bus, info),
            Operation::Brk => self.op_brk(bus, info),
            Operation::Rts => {
                let return_low = self.pull(bus);
                let return_high = self.pull(bus);
                self.program_counter = (return_high as u16 * 256 + return_low as u16).wrapping_add(
                    1,
                );
                Ok(info.cycles)
            },
            Operation::Rti => {
                let status = self.pull(bus);
                self.set_status_register(status);
                let return_low = self.pull(bus);
                let return_high = self.pull(bus);
                self.program_counter = return_high as u16 * 256 + return_low as u16;
                Ok(info.cycles)
            },
            _ => Ok(info.cycles),
        }
    }

    /// Performs one implied-mode operation: flag changes, register transfers,
    /// stack pushes and pulls, the no-op, and the halt. These never fault.
    #[verifier::rlimit(100)]
    fn execute_implied(&mut self, bus: &mut Bus, info: OpInfo) -> (r: Result<u8, Fault>)
        requires
            old(bus).wf(),
            info_wf(info),
            !is_read_op(info.operation),
            !is_store_op(info.operation),
            !is_rmw_op(info.operation),
            !is_branch_op(info.operation),
            !is_control_op(info.operation),
        ensures
            final(bus).wf(),
            r is Ok,
            r matches Ok(c) ==> c == exec_cycles(*old(self), *old(bus), info),
            r is Ok ==> final(self).program_counter == old(self).program_counter,
            r is Ok ==> final(self).halted == (old(self).halted || info.operation
                == Operation::Hlt),
            r is Ok ==> final(bus).rom == old(bus).rom,
            r is Ok ==> *final(self) == implied_cpu(*old(self), *old(bus), info.operation),
            r is Ok ==> implied_bus_rel(*old(self), *old(bus), *final(bus), info.operation),
    {
        match info.operation {
            Operation::Php => {
                let status = self.get_status_register(true);
                self.push(bus, status);
                Ok(info.cycles)
            },
            Operation::Plp => {
                let status = self.pull(bus);
                self.set_status_register(status);
                Ok(info.cycles)
            },
            Operation::Pha => {
                let value = self.a;
                self.push(bus, value);
                Ok(info.cycles)
            },
            Operation::Pla => {
                let value = self.pull(bus);
                self.a = value;
                self.flag_zero = value == 0;
                self.flag_negative = value >= 128;
                Ok(info.cycles)
            },
            Operation::Clc => {
                self.flag_carry = false;
                Ok(info.cycles)
            },
            Operation::Sec => {
                self.flag_carry = true;
                Ok(info.cycles)
            },
            Operation::Cli => {
                self.flag_interrupt_disable = false;
                Ok(info.cycles)
            },
            Operation::Sei => {
                self.flag_interrupt_disable = true;
                Ok(info.cycles)
            },
            Operation::Clv => {
                self.flag_overflow = false;
                Ok(info.cycles)
            },
            Operation::Cld => {
                self.flag_decimal = false;
                Ok(info.cycles)
            },
            Operation::Sed => {
                self.flag_decimal = true;
                Ok(info.cycles)
            },
            Operation::Inx => {
                self.x = self.x.wrapping_add(1);
                self.flag_zero = self.x == 0;
                self.flag_negative = self.x >= 128;
                Ok(info.cycles)
            },
            Operation::Iny => {
                self.y = self.y.wrapping_add(1);
                self.flag_zero = self.y == 0;
                self.flag_negative = self.y >= 128;
                Ok(info.cycles)
            },
            Operation::Dex => {
                self.x = self.x.wrapping_sub(1);
                self.flag_zero = self.x == 0;
                self.flag_negative = self.x >= 128;
                Ok(info.cycles)
            },
            Operation::Dey => {
                self.y = self.y.wrapping_sub(1);
                self.flag_zero = self.y == 0;
                self.flag_negative = self.y >= 128;
                Ok(info.cycles)
            },
            Operation::Tax => {
                self.x = self.a;
                self.flag_zero = self.x == 0;
                self.flag_negative = self.x >= 128;
                Ok(info.cycles)
            },
            Operation::Tay => {
                self.y = self.a;
                self.flag_zero = self.y == 0;
                self.flag_negative = self.y >= 128;
                Ok(info.cycles)
            },
            Operation::Txa => {
                self.a = self.x;
                self.flag_zero = self.a == 0;
                self.flag_negative = self.a >= 128;
                Ok(info.cycles)
            },
            Operation::Tya => {
                self.a = self.y;
                self.flag_zero = self.a == 0;
                self.flag_negative = self.a >= 128;
                Ok(info.cycles)
            },
            Operation::Tsx => {
                self.x = self.stack_pointer;
                self.flag_zero = self.x == 0;
                self.flag_negative = self.x >= 128;
                Ok(info.cycles)
            },
            Operation::Txs => {
                self.stack_pointer = self.x;
                Ok(info.cycles)
            },
            Operation::Nop => Ok(info.cycles),
            Operation::Hlt => {
                self.halted = true;
                Ok(info.cycles)
            },
            _ => Ok(info.cycles),
        }
    }

    /// Performs one decoded instruction, with the program counter already
    /// past the opcode byte, dispatching by the operation's access shape.
    /// On a fault the bus is untouched; the caller restores the processor.
    #[verifier::rlimit(100)]
    fn execute(&mut self, bus: &mut Bus, info: OpInfo) -> (r: Result<u8, Fault>)
        requires
            old(bus).wf(),
            info_wf(info),
        ensures
            final(bus).wf(),
            r is Ok <==> exec_fault(*old(self), *old(bus), info) is None,
            r matches Err(e) ==> Some(e) == exec_fault(*old(self), *old(bus), info) && *final(bus)
                == *old(bus),
            r matches Ok(c) ==> c == exec_cycles(*old(self), *old(bus), info),
            r is Ok ==> final(self).program_counter == (if is_control_op(info.operation) {
                exec_target(*old(self), *old(bus), info)
            } else {
                wrap16(old(self).program_counter + (mode_len(info.mode) - 1))
            }),
            r is Ok ==> final(self).halted == (old(self).halted || info.operation
                == Operation::Hlt),
            r is Ok ==> final(bus).rom == old(bus).rom,
            r is Ok ==> ({
                let c2 = with_pc(
                    *old(self),
                    wrap16(old(self).program_counter + (mode_len(info.mode) - 1)),
                );
                let ea = operand_ea(*old(self), *old(bus), info.mode);
                if is_read_op(info.operation) {
                    *final(self) == read_op_cpu(c2, info.operation, old(bus).spec_read(ea))
                } else if is_store_op(info.operation) {
                    *final(self) == c2
                } else if is_rmw_op(info.operation) {
                    if info.mode == Mode::Accumulator {
                        *final(self) == acc_rmw_cpu(c2, info.operation)
                    } else {
                        *final(self) == rmw_cpu(c2, info.operation, old(bus).spec_read(ea))
                    }
                } else if is_branch_op(info.operation) {
                    *final(self) == with_pc(*old(self), exec_target(*old(self), *old(bus), info))
                } else if is_control_op(info.operation) {
                    *final(self) == control_cpu(*old(self), *old(bus), info)
                } else {
                    *final(self) == implied_cpu(*old(self), *old(bus), info.operation)
                }
            }),
            r is Ok ==> ({
                let ea = operand_ea(*old(self), *old(bus), info.mode);
                if is_store_op(info.operation) {
                    write_rel(
                        *old(bus),
                        *final(bus),
                        ea,
                        store_value(*old(self), info.operation),
                        Ok(()),
                    )
                } else if is_rmw_op(info.operation) && info.mode != Mode::Accumulator {
                    write_rel(
                        *old(bus),
                        *final(bus),
                        ea,
                        rmw_value(
                            info.operation,
                            old(bus).spec_read(ea),
                            old(self).flag_carry,
                        ),
                        Ok(()),
                    )
                } else if info.operation == Operation::Jsr || info.operation == Operation::Brk {
                    control_bus_rel(*old(self), *old(bus), *final(bus), info)
                } else if info.operation == Operation::Php || info.operation == Operation::Pha {
                    implied_bus_rel(*old(self), *old(bus), *final(bus), info.operation)
                } else {
                    *final(bus) == *old(bus)
                }
            }),
    {
        match info.operation {
            Operation::Ora | Operation::And | Operation::Eor | Operation::Adc | Operation::Sbc
                | Operation::Cmp | Operation::Cpx | Operation::Cpy | Operation::Bit
                | Operation::Lda | Operation::Ldx | Operation::Ldy => {
                proof {
                    assert(!is_control_op(info.operation));
                }
                self.execute_read(bus, info)
            },
            Operation::Sta | Operation::Stx | Operation::Sty => {
                proof {
                    assert(!is_control_op(info.operation));
                }
                self.execute_store(bus, info)
            },
            Operation::Asl | Operation::Lsr | Operation::Rol | Operation::Ror | Operation::Inc
                | Operation::Dec => {
                proof {
                    assert(!is_control_op(info.operation));
                }
                self.execute_rmw(bus, info)
            },
            Operation::Bpl | Operation::Bmi | Operation::Bvc | Operation::Bvs | Operation::Bcc
                | Operation::Bcs | Operation::Bne | Operation::Beq => self.execute_branch(
                bus,
                info,
            ),
            Operation::Jmp | Operation::Jsr | Operation::Brk | Operation::Rts | Operation::Rti => {
                self.execute_control(bus, info)
            },
            _ => self.execute_implied(bus, info),
        }
    }

    /// Executes one instruction: fetches the opcode at the program counter,
    /// decodes it through the shared table, performs it, and returns the
    /// elapsed cycle count. An undecodable opcode or an unresolvable
    /// memory access is returned as a typed fault that leaves the
    /// processor and the bus exactly as they were, so a host can halt the
    /// guest, log, or substitute a safe default.
    #[verifier::rlimit(100)]
    pub fn emulate_cpu(&mut self, bus: &mut Bus) -> (r: Result<u8, Fault>)
        requires
            old(bus).wf(),
        ensures
            final(bus).wf(),
            r == step_result(*old(self), *old(bus)),
            r is Err ==> *final(self) == *old(self) && *final(bus) == *old(bus),
            r is Ok ==> final(self).program_counter == step_pc(*old(self), *old(bus)),
            r is Ok ==> final(self).halted == (old(self).halted || is_halt(
                old(bus).spec_read(old(self).program_counter),
            )),
            r is Ok ==> final(bus).rom == old(bus).rom,
            r is Ok ==> *final(self) == step_cpu(*old(self), *old(bus)),
            r is Ok ==> step_bus_rel(*old(self), *old(bus), *final(bus)),
    {
        let saved = *self;
        let opcode = match bus.read(self.program_counter) {
            Ok(v) => v,
            Err(f) => return Err(f),
        };
        let info = match decode(opcode) {
            Some(i) => i,
            None => return Err(Fault::IllegalOpcode(opcode)),
        };
        proof {
            lemma_table_wf(opcode);
        }
        self.program_counter = self.program_counter.wrapping_add(1);
        proof {
            assert(*self == with_pc(saved, wrap16(saved.program_counter + 1)));
            lemma_wrap16_add(saved.program_counter + 1, mode_len(info.mode) - 1);
        }
        match self.execute(bus, info) {
            Ok(cycles) => Ok(cycles),
            Err(f) => {
                *self = saved;
                Err(f)
            },
        }
    }
}

/// Status round-trip law at the machine level: a status push followed by a
/// status pull restores the processor. After a PHP instruction executes
/// and a PLP instruction follows it, all six architectural flags and the
/// stack pointer equal their original values; the transient break and
/// reserved bits of the pushed byte do not survive the trip.
pub proof fn lemma_php_then_plp(cpu: Cpu, bus: Bus, cpu1: Cpu, bus1: Bus)
    requires
        bus.wf(),
        bus.read_ok(cpu.program_counter),
        bus.spec_read(cpu.program_counter) == 0x08,
        cpu1 == step_cpu(cpu, bus),
        step_bus_rel(cpu, bus, bus1),
        bus1.read_ok(cpu1.program_counter),
        bus1.spec_read(cpu1.program_counter) == 0x28,
    ensures
        step_result(cpu, bus) is Ok,
        step_result(cpu1, bus1) is Ok,
        ({
            let cpu2 = step_cpu(cpu1, bus1);
            &&& cpu2.flag_carry == cpu.flag_carry
            &&& cpu2.flag_zero == cpu.flag_zero
            &&& cpu2.flag_interrupt_disable == cpu.flag_interrupt_disable
            &&& cpu2.flag_decimal == cpu.flag_decimal
            &&& cpu2.flag_overflow == cpu.flag_overflow
            &&& cpu2.flag_negative == cpu.flag_negative
            &&& cpu2.stack_pointer == cpu.stack_pointer
        }),
{
    reveal(decode_spec);
    let sp = cpu.stack_pointer;
    let pushed = status_byte(cpu, true);
    assert(bus1.ram@ == bus.ram@.update(0x100 + sp as int, pushed));
    assert(cpu1.stack_pointer == sp_dec(sp));
    assert(sp_inc(sp_dec(sp)) == sp);
    assert(stack_addr(sp) as int % 0x800 == 0x100 + sp as int);
    assert(bus1.spec_read(stack_addr(sp)) == pushed);
    let cpu2 = step_cpu(cpu1, bus1);
    assert(cpu2 == Cpu {
        stack_pointer: sp,
        ..status_restored(with_pc(cpu1, wrap16(cpu1.program_counter + 1)), pushed)
    });
}

/// Status round-trip law: restoring from a packed status byte recovers the
/// processor exactly, whatever the transient break bit was pushed as — the
/// six architectural flags survive the round trip and nothing else changes.
pub proof fn lemma_status_round_trip(c: Cpu, flag_break: bool)
    ensures
        status_restored(c, status_byte(c, flag_break)) == c,
{
}

/// The three-letter mnemonic of an operation, as the diagnostic trace
/// prints it.
pub open spec fn mnemonic(operation: Operation) -> Seq<char> {
    match operation {
        Operation::Adc => seq!['A', 'D', 'C'],
        Operation::And => seq!['A', 'N', 'D'],
        Operation::Asl => seq!['A', 'S', 'L'],
        Operation::Bcc => seq!['B', 'C', 'C'],
        Operation::Bcs => seq!['B', 'C', 'S'],
        Operation::Beq => seq!['B', 'E', 'Q'],
        Operation::Bit => seq!['B', 'I', 'T'],
        Operation::Bmi => seq!['B', 'M', 'I'],
        Operation::Bne => seq!['B', 'N', 'E'],
        Operation::Bpl => seq!['B', 'P', 'L'],
        Operation::Brk => seq!['B', 'R', 'K'],
        Operation::Bvc => seq!['B', 'V', 'C'],
        Operation::Bvs => seq!['B', 'V', 'S'],
        Operation::Clc => seq!['C', 'L', 'C'],
        Operation::Cld => seq!['C', 'L', 'D'],
        Operation::Cli => seq!['C', 'L', 'I'],
        Operation::Clv => seq!['C', 'L', 'V'],
        Operation::Cmp => seq!['C', 'M', 'P'],
        Operation::Cpx => seq!['C', 'P', 'X'],
        Operation::Cpy => seq!['C', 'P', 'Y'],
        Operation::Dec => seq!['D', 'E', 'C'],
        Operation::Dex => seq!['D', 'E', 'X'],
        Operation::Dey => seq!['D', 'E', 'Y'],
        Operation::Eor => seq!['E', 'O', 'R'],
        Operation::Hlt => seq!['H', 'L', 'T'],
        Operation::Inc => seq!['I', 'N', 'C'],
        Operation::Inx => seq!['I', 'N', 'X'],
        Operation::Iny => seq!['I', 'N', 'Y'],
        Operation::Jmp => seq!['J', 'M', 'P'],
        Operation::Jsr => seq!['J', 'S', 'R'],
        Operation::Lda => seq!['L', 'D', 'A'],
        Operation::Ldx => seq!['L', 'D', 'X'],
        Operation::Ldy => seq!['L', 'D', 'Y'],
        Operation::Lsr => seq!['L', 'S', 'R'],
        Operation::Nop => seq!['N', 'O', 'P'],
        Operation::Ora => seq!['O', 'R', 'A'],
        Operation::Pha => seq!['P', 'H', 'A'],
        Operation::Php => seq!['P', 'H', 'P'],
        Operation::Pla => seq!['P', 'L', 'A'],
        Operation::Plp => seq!['P', 'L', 'P'],
        Operation::Rol => seq!['R', 'O', 'L'],
        Operation::Ror => seq!['R', 'O', 'R'],
        Operation::Rti => seq!['R', 'T', 'I'],
        Operation::Rts => seq!['R', 'T', 'S'],
        Operation::Sbc => seq!['S', 'B', 'C'],
        Operation::Sec => seq!['S', 'E', 'C'],
        Operation::Sed => seq!['S', 'E', 'D'],
        Operation::Sei => seq!['S', 'E', 'I'],
        Operation::Sta => seq!['S', 'T', 'A'],
        Operation::Stx => seq!['S', 'T', 'X'],
        Operation::Sty => seq!['S', 'T', 'Y'],
        Operation::Tax => seq!['T', 'A', 'X'],
        Operation::Tay => seq!['T', 'A', 'Y'],
        Operation::Tsx => seq!['T', 'S', 'X'],
        Operation::Txa => seq!['T', 'X', 'A'],
        Operation::Txs => seq!['T', 'X', 'S'],
        Operation::Tya => seq!['T', 'Y', 'A'],
    }
}

/// The mnemonic the trace shows for an opcode byte: the table row's
/// operation, or a placeholder for an undecodable byte.
pub open spec fn opcode_mnemonic(code: u8) -> Seq<char> {
    match decode_spec(code) {
        Some(info) => mnemonic(info.operation),
        None => seq!['?', '?', '?'],
    }
}

/// The three-letter mnemonic of an operation, proven equal to `mnemonic`.
fn mnemonic_of(operation: Operation) -> (r: (char, char, char))
    ensures
        seq![r.0, r.1, r.2] == mnemonic(operation),
{
    match operation {
        Operation::Adc => ('A', 'D', 'C'),
        Operation::And => ('A', 'N', 'D'),
        Operation::Asl => ('A', 'S', 'L'),
        Operation::Bcc => ('B', 'C', 'C'),
        Operation::Bcs => ('B', 'C', 'S'),
        Operation::Beq => ('B', 'E', 'Q'),
        Operation::Bit => ('B', 'I', 'T'),
        Operation::Bmi => ('B', 'M', 'I'),
        Operation::Bne => ('B', 'N', 'E'),
        Operation::Bpl => ('B', 'P', 'L'),
        Operation::Brk => ('B', 'R', 'K'),
        Operation::Bvc => ('B', 'V', 'C'),
        Operation::Bvs => ('B', 'V', 'S'),
        Operation::Clc => ('C', 'L', 'C'),
        Operation::Cld => ('C', 'L', 'D'),
        Operation::Cli => ('C', 'L', 'I'),
        Operation::Clv => ('C', 'L', 'V'),
        Operation::Cmp => ('C', 'M', 'P'),
        Operation::Cpx => ('C', 'P', 'X'),
        Operation::Cpy => ('C', 'P', 'Y'),
        Operation::Dec => ('D', 'E', 'C'),
        Operation::Dex => ('D', 'E', 'X'),
        Operation::Dey => ('D', 'E', 'Y'),
        Operation::Eor => ('E', 'O', 'R'),
        Operation::Hlt => ('H', 'L', 'T'),
        Operation::Inc => ('I', 'N', 'C'),
        Operation::Inx => ('I', 'N', 'X'),
        Operation::Iny => ('I', 'N', 'Y'),
        Operation::Jmp => ('J', 'M', 'P'),
        Operation::Jsr => ('J', 'S', 'R'),
        Operation::Lda => ('L', 'D', 'A'),
        Operation::Ldx => ('L', 'D', 'X'),
        Operation::Ldy => ('L', 'D', 'Y'),
        Operation::Lsr => ('L', 'S', 'R'),
        Operation::Nop => ('N', 'O', 'P'),
        Operation::Ora => ('O', 'R', 'A'),
        Operation::Pha => ('P', 'H', 'A'),
        Operation::Php => ('P', 'H', 'P'),
        Operation::Pla => ('P', 'L', 'A'),
        Operation::Plp => ('P', 'L', 'P'),
        Operation::Rol => ('R', 'O', 'L'),
        Operation::Ror => ('R', 'O', 'R'),
        Operation::Rti => ('R', 'T', 'I'),
        Operation::Rts => ('R', 'T', 'S'),
        Operation::Sbc => ('S', 'B', 'C'),
        Operation::Sec => ('S', 'E', 'C'),
        Operation::Sed => ('S', 'E', 'D'),
        Operation::Sei => ('S', 'E', 'I'),
        Operation::Sta => ('S', 'T', 'A'),
        Operation::Stx => ('S', 'T', 'X'),
        Operation::Sty => ('S', 'T', 'Y'),
        Operation::Tax => ('T', 'A', 'X'),
        Operation::Tay => ('T', 'A', 'Y'),
        Operation::Tsx => ('T', 'S', 'X'),
        Operation::Txa => ('T', 'X', 'A'),
        Operation::Txs => ('T', 'X', 'S'),
        Operation::Tya => ('T', 'Y', 'A'),
    }
}

/// The uppercase hexadecimal digit for a value below 16.
pub open spec fn hex_digit(n: int) -> char
    recommends
        0 <= n < 16,
{
    if n == 0 {
        '0'
    }     else if n == 1 {
        '1'
    }     else if n == 2 {
        '2'
    }     else if n == 3 {
        '3'
    }     else if n == 4 {
        '4'
    }     else if n == 5 {
        '5'
    }     else if n == 6 {
        '6'
    }     else if n == 7 {
        '7'
    }     else if n == 8 {
        '8'
    }     else if n == 9 {
        '9'
    }     else if n == 10 {
        'A'
    }     else if n == 11 {
        'B'
    }     else if n == 12 {
        'C'
    }     else if n == 13 {
        'D'
    }     else if n == 14 {
        'E'
    } else {
        'F'
    }
}

/// Two uppercase hexadecimal digits of a byte.
pub open spec fn hex2(b: u8) -> Seq<char> {
    seq![hex_digit(b as int / 16), hex_digit(b as int % 16)]
}

/// Four uppercase hexadecimal digits of a 16-bit word.
pub open spec fn hex4(w: u16) -> Seq<char> {
    seq![
        hex_digit(w as int / 4096),
        hex_digit((w as int / 256) % 16),
        hex_digit((w as int / 16) % 16),
        hex_digit(w as int % 16),
    ]
}

/// The uppercase hexadecimal digit for a value below 16.
fn hex_digit_of(n: u8) -> (c: char)
    requires
        n < 16,
    ensures
        c == hex_digit(n as int),
{
    if n == 0 {
        '0'
    }     else if n == 1 {
        '1'
    }     else if n == 2 {
        '2'
    }     else if n == 3 {
        '3'
    }     else if n == 4 {
        '4'
    }     else if n == 5 {
        '5'
    }     else if n == 6 {
        '6'
    }     else if n == 7 {
        '7'
    }     else if n == 8 {
        '8'
    }     else if n == 9 {
        '9'
    }     else if n == 10 {
        'A'
    }     else if n == 11 {
        'B'
    }     else if n == 12 {
        'C'
    }     else if n == 13 {
        'D'
    }     else if n == 14 {
        'E'
    } else {
        'F'
    }
}

/// Appends the two hexadecimal digits of a byte.
fn push_hex2(line: &mut Vec<char>, b: u8)
    ensures
        final(line)@ == old(line)@ + hex2(b),
{
    line.push(hex_digit_of(b / 16));
    line.push(hex_digit_of(b % 16));
    proof {
        assert(final(line)@ =~= old(line)@ + hex2(b));
    }
}

/// Appends the four hexadecimal digits of a 16-bit word.
fn push_hex4(line: &mut Vec<char>, w: u16)
    ensures
        final(line)@ == old(line)@ + hex4(w),
{
    line.push(hex_digit_of((w / 4096) as u8));
    line.push(hex_digit_of(((w / 256) % 16) as u8));
    line.push(hex_digit_of(((w / 16) % 16) as u8));
    line.push(hex_digit_of((w % 16) as u8));
    proof {
        assert(final(line)@ =~= old(line)@ + hex4(w));
    }
}

/// Collects the characters of a diagnostic line into a `String`. Relies on
/// `String`'s `FromIterator` implementation: collecting characters yields
/// the string of exactly those characters, in order.
#[verifier::external_body]
fn chars_to_string(chars: &Vec<char>) -> (r: String)
    ensures
        r@ == chars@,
{
    chars.iter().collect()
}

/// The instruction bytes the tracer shows, starting at the program counter.
pub open spec fn trace_bytes(cpu: Cpu, bus: Bus) -> Seq<u8>
    recommends
        bus.wf(),
        trace_fault(cpu, bus) is None,
{
    let op = bus.spec_read(cpu.program_counter);
    if instr_len(op) == 1 {
        seq![op]
    } else if instr_len(op) == 2 {
        seq![op, bus.spec_read(wrap16(cpu.program_counter + 1))]
    } else {
        seq![
            op,
            bus.spec_read(wrap16(cpu.program_counter + 1)),
            bus.spec_read(wrap16(cpu.program_counter + 2)),
        ]
    }
}

/// The first fault the tracer's reads hit, in program order.
pub open spec fn trace_fault(cpu: Cpu, bus: Bus) -> Option<Fault> {
    let f0 = read_at(bus, cpu.program_counter);
    if f0 is Some {
        f0
    } else {
        let op = bus.spec_read(cpu.program_counter);
        let f1 = if instr_len(op) > 1 {
            read_at(bus, wrap16(cpu.program_counter + 1))
        } else {
            None
        };
        if f1 is Some {
            f1
        } else if instr_len(op) > 2 {
            read_at(bus, wrap16(cpu.program_counter + 2))
        } else {
            None
        }
    }
}

/// The space-separated instruction hex bytes, left-justified to the trace's
/// fixed 8-character field.
pub open spec fn hex_dump_field(bytes: Seq<u8>) -> Seq<char>
    recommends
        1 <= bytes.len() <= 3,
{
    if bytes.len() == 1 {
        hex2(bytes[0]) + seq![' ', ' ', ' ', ' ', ' ', ' ']
    } else if bytes.len() == 2 {
        hex2(bytes[0]) + seq![' '] + hex2(bytes[1]) + seq![' ', ' ', ' ']
    } else {
        hex2(bytes[0]) + seq![' '] + hex2(bytes[1]) + seq![' '] + hex2(bytes[2])
    }
}

/// The register tail of the diagnostic line, with the status byte's bits
/// 4-5 forced to the canonical pattern for comparison against reference
/// traces.
pub open spec fn register_tail(cpu: Cpu) -> Seq<char> {
    seq![' ', 'A', ':'] + hex2(cpu.a) + seq![' ', 'X', ':'] + hex2(cpu.x) + seq![' ', 'Y', ':']
        + hex2(cpu.y) + seq![' ', 'P', ':'] + hex2(status_byte(cpu, true))
        + seq![' ', 'S', 'P', ':'] + hex2(cpu.stack_pointer)
}

/// The full fixed-width diagnostic line: 4-hex-digit program counter, the
/// instruction hex bytes, the right-aligned mnemonic, then the registers.
pub open spec fn trace_line(cpu: Cpu, bus: Bus) -> Seq<char>
    recommends
        bus.wf(),
        trace_fault(cpu, bus) is None,
{
    let op = bus.spec_read(cpu.program_counter);
    hex4(cpu.program_counter) + seq![' ', ' '] + hex_dump_field(trace_bytes(cpu, bus))
        + seq![' ', ' '] + opcode_mnemonic(op) + register_tail(cpu)
}

/// Appends the register tail of the diagnostic line.
fn push_registers(line: &mut Vec<char>, cpu: &Cpu)
    ensures
        final(line)@ == old(line)@ + register_tail(*cpu),
{
    line.push(' ');
    line.push('A');
    line.push(':');
    push_hex2(line, cpu.a);
    line.push(' ');
    line.push('X');
    line.push(':');
    push_hex2(line, cpu.x);
    line.push(' ');
    line.push('Y');
    line.push(':');
    push_hex2(line, cpu.y);
    line.push(' ');
    line.push('P');
    line.push(':');
    let status = cpu.get_status_register(true);
    push_hex2(line, status);
    line.push(' ');
    line.push('S');
    line.push('P');
    line.push(':');
    push_hex2(line, cpu.stack_pointer);
    proof {
        assert(final(line)@ =~= old(line)@ + register_tail(*cpu));
    }
}

impl Cpu {
    /// Formats the diagnostic trace line for the next instruction without
    /// mutating any state, using the same opcode table the decoder uses.
    /// Fails without effect when an instruction byte does not resolve.
    #[verifier::rlimit(100)]
    pub fn trace(&self, bus: &Bus) -> (r: Result<String, Fault>)
        requires
            bus.wf(),
        ensures
            r is Ok <==> trace_fault(*self, *bus) is None,
            r matches Err(e) ==> Some(e) == trace_fault(*self, *bus),
            r matches Ok(s) ==> s@ == trace_line(*self, *bus),
    {
        let code = match bus.read(self.program_counter) {
            Ok(v) => v,
            Err(f) => return Err(f),
        };
        let length = self.get_operand_mode(code);

        let mut line: Vec<char> = Vec::new();
        push_hex4(&mut line, self.program_counter);
        line.push(' ');
        line.push(' ');
        push_hex2(&mut line, code);
        if length > 1 {
            let operand = match bus.read(self.program_counter.wrapping_add(1)) {
                Ok(v) => v,
                Err(f) => return Err(f),
            };
            line.push(' ');
            push_hex2(&mut line, operand);
        }
        if length > 2 {
            let operand = match bus.read(self.program_counter.wrapping_add(2)) {
                Ok(v) => v,
                Err(f) => return Err(f),
            };
            line.push(' ');
            push_hex2(&mut line, operand);
        }
        if length == 1 {
            line.push(' ');
            line.push(' ');
            line.push(' ');
        }
        if length <= 2 {
            line.push(' ');
            line.push(' ');
            line.push(' ');
        }

        proof {
            assert(line@ =~= hex4(self.program_counter) + seq![' ', ' '] + hex_dump_field(
                trace_bytes(*self, *bus),
            ));
        }

        line.push(' ');
        line.push(' ');
        let mn = match decode(code) {
            Some(info) => mnemonic_of(info.operation),
            None => ('?', '?', '?'),
        };
        line.push(mn.0);
        line.push(mn.1);
        line.push(mn.2);
        proof {
            assert(line@ =~= hex4(self.program_counter) + seq![' ', ' '] + hex_dump_field(
                trace_bytes(*self, *bus),
            ) + seq![' ', ' '] + opcode_mnemonic(code));
        }

        push_registers(&mut line, self);

        proof {
            assert(line@ =~= trace_line(*self, *bus));
        }
        Ok(chars_to_string(&line))
    }
}

} // verus!
