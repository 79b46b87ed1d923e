use vstd::prelude::*;

use crate::memory::{bus_after_read, bus_after_write, bus_read_value, Bus, BusModel, ReadView, WriteView};

verus! {

/// Address of the reset vector.
pub const RESET_VECTOR_ADDR: u16 = 0xFFFC;

/// Address of the IRQ vector.
pub const IRQ_VECTOR_ADDR: u16 = 0xFFFE;

/// Cycles taken by the entry into an interrupt handler.
pub const IRQ_CYCLES: i8 = 7;

/// The processor status flags.
#[derive(Clone, Copy, PartialEq, Eq, Structural, Debug)]
pub struct StatusRegister {
    pub negative_flag: bool,
    pub overflow_flag: bool,
    pub break_flag: bool,
    pub decimal_mode_flag: bool,
    pub interrupt_disable_flag: bool,
    pub zero_flag: bool,
    pub carry_flag: bool,
}

/// Register file and scheduling state of the processor.
#[derive(Clone, Copy, PartialEq, Eq, Structural, Debug)]
pub struct Mos6510 {
    pub program_counter: u16,
    pub stack_pointer: u8,
    pub accumulator: u8,
    pub index_x: u8,
    pub index_y: u8,
    pub status: StatusRegister,
    /// Cycles left before the next instruction is dispatched.
    pub wait_cycles: i8,
    /// IRQ line level seen at the last tick.
    pub irq: bool,
}

/// Side effect of an instruction that a debugger may watch.
#[derive(Clone, Copy, PartialEq, Eq, Structural, Debug)]
pub enum Effect {
    WriteMem { addr: u16, value: u8 },
}

/// Addressing modes.
#[derive(Clone, Copy, PartialEq, Eq, Structural, Debug)]
pub enum Mode {
    Implied,
    Accumulator,
    Immediate,
    ZeroPage,
    ZeroPageX,
    Absolute,
    AbsoluteX,
    AbsoluteY,
    Indirect,
    IndirectY,
    Relative,
}

/// Instruction mnemonics.
#[derive(Clone, Copy, PartialEq, Eq, Structural, Debug)]
pub enum Op {
    Lda, Ldx, Ldy, Sta, Stx, Sty,
    Tax, Tay, Txa, Tya, Txs, Tsx,
    Pha, Pla, Php, Plp,
    Adc, Sbc, Ora, And, Eor,
    Asl, Lsr, Rol, Ror,
    Bit, Cmp, Cpx, Cpy,
    Inc, Dec, Inx, Dex, Iny, Dey,
    Clc, Sec, Cli, Sei, Cld,
    Jmp, Jsr, Rts, Rti,
    Bpl, Bmi, Bvs, Bcc, Bcs, Bne, Beq,
}

/// An opcode's table entry: mnemonic, addressing mode and base cycle count.
#[derive(Clone, Copy, PartialEq, Eq, Structural, Debug)]
pub struct Decoded {
    pub op: Op,
    pub mode: Mode,
    pub cycles: i8,
}

/// An executed instruction as a trace shows it: mnemonic, addressing mode,
/// and its operand (the immediate value, the address or vector as written in
/// the instruction, or a branch target).
#[derive(Clone, Copy, PartialEq, Eq, Structural, Debug)]
pub struct Instruction {
    pub op: Op,
    pub mode: Mode,
    pub operand: u16,
}

/// A fatal decode error.
#[derive(Clone, Copy, PartialEq, Eq, Structural, Debug)]
pub enum CpuError {
    UnknownOpcode { opcode: u8, pc: u16 },
}

/// Operand address of a memory addressing mode: the effective address, whether
/// indexing crossed a page, and the address or vector written in the
/// instruction.
#[derive(Clone, Copy, PartialEq, Eq, Structural, Debug)]
pub struct Resolved {
    pub addr: u16,
    pub crossed: bool,
    pub base: u16,
}

/// The opcode table.
pub open spec fn decode(opcode: u8) -> Option<Decoded> {
    match opcode {
        0x05 => Some(Decoded { op: Op::Ora, mode: Mode::ZeroPage, cycles: 3 }),
        0x06 => Some(Decoded { op: Op::Asl, mode: Mode::ZeroPage, cycles: 5 }),
        0x08 => Some(Decoded { op: Op::Php, mode: Mode::Implied, cycles: 3 }),
        0x09 => Some(Decoded { op: Op::Ora, mode: Mode::Immediate, cycles: 2 }),
        0x0A => Some(Decoded { op: Op::Asl, mode: Mode::Accumulator, cycles: 2 }),
        0x0D => Some(Decoded { op: Op::Ora, mode: Mode::Absolute, cycles: 4 }),
        0x10 => Some(Decoded { op: Op::Bpl, mode: Mode::Relative, cycles: 2 }),
        0x16 => Some(Decoded { op: Op::Asl, mode: Mode::ZeroPageX, cycles: 6 }),
        0x18 => Some(Decoded { op: Op::Clc, mode: Mode::Implied, cycles: 2 }),
        0x20 => Some(Decoded { op: Op::Jsr, mode: Mode::Absolute, cycles: 6 }),
        0x24 => Some(Decoded { op: Op::Bit, mode: Mode::ZeroPage, cycles: 3 }),
        0x28 => Some(Decoded { op: Op::Plp, mode: Mode::Implied, cycles: 4 }),
        0x29 => Some(Decoded { op: Op::And, mode: Mode::Immediate, cycles: 2 }),
        0x2A => Some(Decoded { op: Op::Rol, mode: Mode::Accumulator, cycles: 2 }),
        0x2C => Some(Decoded { op: Op::Bit, mode: Mode::Absolute, cycles: 4 }),
        0x30 => Some(Decoded { op: Op::Bmi, mode: Mode::Relative, cycles: 2 }),
        0x38 => Some(Decoded { op: Op::Sec, mode: Mode::Implied, cycles: 2 }),
        0x40 => Some(Decoded { op: Op::Rti, mode: Mode::Implied, cycles: 6 }),
        0x45 => Some(Decoded { op: Op::Eor, mode: Mode::ZeroPage, cycles: 3 }),
        0x46 => Some(Decoded { op: Op::Lsr, mode: Mode::ZeroPage, cycles: 5 }),
        0x48 => Some(Decoded { op: Op::Pha, mode: Mode::Implied, cycles: 3 }),
        0x49 => Some(Decoded { op: Op::Eor, mode: Mode::Immediate, cycles: 2 }),
        0x4A => Some(Decoded { op: Op::Lsr, mode: Mode::Accumulator, cycles: 2 }),
        0x4C => Some(Decoded { op: Op::Jmp, mode: Mode::Absolute, cycles: 3 }),
        0x56 => Some(Decoded { op: Op::Lsr, mode: Mode::ZeroPageX, cycles: 6 }),
        0x58 => Some(Decoded { op: Op::Cli, mode: Mode::Implied, cycles: 2 }),
        0x60 => Some(Decoded { op: Op::Rts, mode: Mode::Implied, cycles: 6 }),
        0x65 => Some(Decoded { op: Op::Adc, mode: Mode::ZeroPage, cycles: 3 }),
        0x66 => Some(Decoded { op: Op::Ror, mode: Mode::ZeroPage, cycles: 5 }),
        0x68 => Some(Decoded { op: Op::Pla, mode: Mode::Implied, cycles: 4 }),
        0x69 => Some(Decoded { op: Op::Adc, mode: Mode::Immediate, cycles: 2 }),
        0x6A => Some(Decoded { op: Op::Ror, mode: Mode::Accumulator, cycles: 2 }),
        0x6C => Some(Decoded { op: Op::Jmp, mode: Mode::Indirect, cycles: 5 }),
        0x70 => Some(Decoded { op: Op::Bvs, mode: Mode::Relative, cycles: 2 }),
        0x76 => Some(Decoded { op: Op::Ror, mode: Mode::ZeroPageX, cycles: 6 }),
        0x78 => Some(Decoded { op: Op::Sei, mode: Mode::Implied, cycles: 2 }),
        0x79 => Some(Decoded { op: Op::Adc, mode: Mode::AbsoluteY, cycles: 4 }),
        0x84 => Some(Decoded { op: Op::Sty, mode: Mode::ZeroPage, cycles: 3 }),
        0x85 => Some(Decoded { op: Op::Sta, mode: Mode::ZeroPage, cycles: 3 }),
        0x86 => Some(Decoded { op: Op::Stx, mode: Mode::ZeroPage, cycles: 3 }),
        0x88 => Some(Decoded { op: Op::Dey, mode: Mode::Implied, cycles: 2 }),
        0x8A => Some(Decoded { op: Op::Txa, mode: Mode::Implied, cycles: 2 }),
        0x8C => Some(Decoded { op: Op::Sty, mode: Mode::Absolute, cycles: 4 }),
        0x8D => Some(Decoded { op: Op::Sta, mode: Mode::Absolute, cycles: 4 }),
        0x8E => Some(Decoded { op: Op::Stx, mode: Mode::Absolute, cycles: 4 }),
        0x90 => Some(Decoded { op: Op::Bcc, mode: Mode::Relative, cycles: 2 }),
        0x91 => Some(Decoded { op: Op::Sta, mode: Mode::IndirectY, cycles: 6 }),
        0x94 => Some(Decoded { op: Op::Sty, mode: Mode::ZeroPageX, cycles: 4 }),
        0x95 => Some(Decoded { op: Op::Sta, mode: Mode::ZeroPageX, cycles: 4 }),
        0x98 => Some(Decoded { op: Op::Tya, mode: Mode::Implied, cycles: 2 }),
        0x99 => Some(Decoded { op: Op::Sta, mode: Mode::AbsoluteY, cycles: 5 }),
        0x9A => Some(Decoded { op: Op::Txs, mode: Mode::Implied, cycles: 2 }),
        0x9D => Some(Decoded { op: Op::Sta, mode: Mode::AbsoluteX, cycles: 5 }),
        0xA0 => Some(Decoded { op: Op::Ldy, mode: Mode::Immediate, cycles: 2 }),
        0xA2 => Some(Decoded { op: Op::Ldx, mode: Mode::Immediate, cycles: 2 }),
        0xA4 => Some(Decoded { op: Op::Ldy, mode: Mode::ZeroPage, cycles: 3 }),
        0xA5 => Some(Decoded { op: Op::Lda, mode: Mode::ZeroPage, cycles: 3 }),
        0xA6 => Some(Decoded { op: Op::Ldx, mode: Mode::ZeroPage, cycles: 3 }),
        0xA8 => Some(Decoded { op: Op::Tay, mode: Mode::Implied, cycles: 2 }),
        0xA9 => Some(Decoded { op: Op::Lda, mode: Mode::Immediate, cycles: 2 }),
        0xAA => Some(Decoded { op: Op::Tax, mode: Mode::Implied, cycles: 2 }),
        0xAC => Some(Decoded { op: Op::Ldy, mode: Mode::Absolute, cycles: 4 }),
        0xAD => Some(Decoded { op: Op::Lda, mode: Mode::Absolute, cycles: 4 }),
        0xAE => Some(Decoded { op: Op::Ldx, mode: Mode::Absolute, cycles: 4 }),
        0xB0 => Some(Decoded { op: Op::Bcs, mode: Mode::Relative, cycles: 2 }),
        0xB1 => Some(Decoded { op: Op::Lda, mode: Mode::IndirectY, cycles: 5 }),
        0xB4 => Some(Decoded { op: Op::Ldy, mode: Mode::ZeroPageX, cycles: 4 }),
        0xB5 => Some(Decoded { op: Op::Lda, mode: Mode::ZeroPageX, cycles: 4 }),
        0xB9 => Some(Decoded { op: Op::Lda, mode: Mode::AbsoluteY, cycles: 4 }),
        0xBA => Some(Decoded { op: Op::Tsx, mode: Mode::Implied, cycles: 2 }),
        0xBD => Some(Decoded { op: Op::Lda, mode: Mode::AbsoluteX, cycles: 4 }),
        0xC0 => Some(Decoded { op: Op::Cpy, mode: Mode::Immediate, cycles: 2 }),
        0xC4 => Some(Decoded { op: Op::Cpy, mode: Mode::ZeroPage, cycles: 3 }),
        0xC5 => Some(Decoded { op: Op::Cmp, mode: Mode::ZeroPage, cycles: 3 }),
        0xC6 => Some(Decoded { op: Op::Dec, mode: Mode::ZeroPage, cycles: 5 }),
        0xC8 => Some(Decoded { op: Op::Iny, mode: Mode::Implied, cycles: 2 }),
        0xC9 => Some(Decoded { op: Op::Cmp, mode: Mode::Immediate, cycles: 2 }),
        0xCA => Some(Decoded { op: Op::Dex, mode: Mode::Implied, cycles: 2 }),
        0xCD => Some(Decoded { op: Op::Cmp, mode: Mode::Absolute, cycles: 4 }),
        0xD0 => Some(Decoded { op: Op::Bne, mode: Mode::Relative, cycles: 2 }),
        0xD1 => Some(Decoded { op: Op::Cmp, mode: Mode::IndirectY, cycles: 5 }),
        0xD8 => Some(Decoded { op: Op::Cld, mode: Mode::Implied, cycles: 2 }),
        0xDD => Some(Decoded { op: Op::Cmp, mode: Mode::AbsoluteX, cycles: 4 }),
        0xE0 => Some(Decoded { op: Op::Cpx, mode: Mode::Immediate, cycles: 2 }),
        0xE4 => Some(Decoded { op: Op::Cpx, mode: Mode::ZeroPage, cycles: 3 }),
        0xE5 => Some(Decoded { op: Op::Sbc, mode: Mode::ZeroPage, cycles: 3 }),
        0xE6 => Some(Decoded { op: Op::Inc, mode: Mode::ZeroPage, cycles: 5 }),
        0xE8 => Some(Decoded { op: Op::Inx, mode: Mode::Implied, cycles: 2 }),
        0xE9 => Some(Decoded { op: Op::Sbc, mode: Mode::Immediate, cycles: 2 }),
        0xEC => Some(Decoded { op: Op::Cpx, mode: Mode::Absolute, cycles: 4 }),
        0xF0 => Some(Decoded { op: Op::Beq, mode: Mode::Relative, cycles: 2 }),
        _ => None,
    }
}

/// Whether two addresses lie in the same 256-byte page.
pub open spec fn same_page_spec(a: u16, b: u16) -> bool {
    a & 0xFF00 == b & 0xFF00
}

/// Little-endian word from two bytes.
pub open spec fn word(lo: u8, hi: u8) -> u16 {
    ((hi as u16) << 8u16) | (lo as u16)
}

/// Number of bytes an instruction in `mode` occupies.
pub open spec fn mode_length_spec(mode: Mode) -> u16 {
    match mode {
        Mode::Implied | Mode::Accumulator => 1,
        Mode::Absolute | Mode::AbsoluteX | Mode::AbsoluteY | Mode::Indirect => 3,
        _ => 2,
    }
}

/// Stack page address for a stack pointer value.
pub open spec fn stack_addr(sp: u8) -> u16 {
    (0x100 + sp) as u16
}

/// The N and Z flags derived from a result byte.
pub open spec fn with_nz(s: StatusRegister, v: u8) -> StatusRegister {
    StatusRegister { negative_flag: v & 0x80 != 0, zero_flag: v == 0, ..s }
}

/// The status register as a byte: C=bit0, Z=1, I=2, D=3, B=4, V=6, N=7.
pub open spec fn status_byte(s: StatusRegister) -> u8 {
    (if s.carry_flag { 0x01u8 } else { 0 }) | (if s.zero_flag { 0x02u8 } else { 0 }) | (
    if s.interrupt_disable_flag {
        0x04u8
    } else {
        0
    }) | (if s.decimal_mode_flag { 0x08u8 } else { 0 }) | (if s.break_flag {
        0x10u8
    } else {
        0
    }) | (if s.overflow_flag { 0x40u8 } else { 0 }) | (if s.negative_flag {
        0x80u8
    } else {
        0
    })
}

/// The status register a byte stands for.
pub open spec fn status_from_byte(v: u8) -> StatusRegister {
    StatusRegister {
        carry_flag: v & 0x01 != 0,
        zero_flag: v & 0x02 != 0,
        interrupt_disable_flag: v & 0x04 != 0,
        decimal_mode_flag: v & 0x08 != 0,
        break_flag: v & 0x10 != 0,
        overflow_flag: v & 0x40 != 0,
        negative_flag: v & 0x80 != 0,
    }
}

/// 9-bit sum of an addition with carry.
pub open spec fn adc_sum(a: u8, m: u8, carry: bool) -> u16 {
    (a + m + (if carry { 1int } else { 0 })) as u16
}

/// Signed difference of a subtraction with borrow.
pub open spec fn sbc_difference(a: u8, m: u8, carry: bool) -> int {
    (a as i8) - (m as i8) - (if carry { 0int } else { 1 })
}

/// Flags and accumulator after `ADC m`: A = low 8 bits of the sum, C = bit 8,
/// V set when both operands have the same sign and the result another.
pub open spec fn add_with_carry_spec(c: Mos6510, m: u8) -> Mos6510 {
    let sum = adc_sum(c.accumulator, m, c.status.carry_flag);
    let r = (sum & 0xFF) as u8;
    Mos6510 {
        accumulator: r,
        status: with_nz(
            StatusRegister {
                carry_flag: sum > 0xFF,
                overflow_flag: (c.accumulator ^ r) & (m ^ r) & 0x80 != 0,
                ..c.status
            },
            r,
        ),
        ..c
    }
}

/// Flags and accumulator after `SBC m`: A = low 8 bits of A - M - (1 - C),
/// C = A >= M, V set when the signed difference leaves -128..127.
pub open spec fn subtract_with_carry_spec(c: Mos6510, m: u8) -> Mos6510 {
    let borrow: u8 = if c.status.carry_flag { 0 } else { 1 };
    let r = c.accumulator.wrapping_sub(m).wrapping_sub(borrow);
    let d = sbc_difference(c.accumulator, m, c.status.carry_flag);
    Mos6510 {
        accumulator: r,
        status: with_nz(
            StatusRegister {
                carry_flag: c.accumulator >= m,
                overflow_flag: d < -128 || d > 127,
                ..c.status
            },
            r,
        ),
        ..c
    }
}

/// Flags after comparing a register with `m`.
pub open spec fn compare_spec(s: StatusRegister, reg: u8, m: u8) -> StatusRegister {
    with_nz(StatusRegister { carry_flag: reg >= m, ..s }, reg.wrapping_sub(m))
}

/// The processor after an instruction that reads operand `v` (loads,
/// logic, arithmetic, compares, bit test); program counter and cycles aside.
pub open spec fn apply_read(op: Op, c: Mos6510, v: u8) -> Mos6510 {
    match op {
        Op::Lda => Mos6510 { accumulator: v, status: with_nz(c.status, v), ..c },
        Op::Ldx => Mos6510 { index_x: v, status: with_nz(c.status, v), ..c },
        Op::Ldy => Mos6510 { index_y: v, status: with_nz(c.status, v), ..c },
        Op::Ora => Mos6510 {
            accumulator: c.accumulator | v,
            status: with_nz(c.status, c.accumulator | v),
            ..c
        },
        Op::And => Mos6510 {
            accumulator: c.accumulator & v,
            status: with_nz(c.status, c.accumulator & v),
            ..c
        },
        Op::Eor => Mos6510 {
            accumulator: c.accumulator ^ v,
            status: with_nz(c.status, c.accumulator ^ v),
            ..c
        },
        Op::Adc => add_with_carry_spec(c, v),
        Op::Sbc => subtract_with_carry_spec(c, v),
        Op::Cmp => Mos6510 { status: compare_spec(c.status, c.accumulator, v), ..c },
        Op::Cpx => Mos6510 { status: compare_spec(c.status, c.index_x, v), ..c },
        Op::Cpy => Mos6510 { status: compare_spec(c.status, c.index_y, v), ..c },
        _ => Mos6510 {
            status: StatusRegister {
                zero_flag: c.accumulator & v == 0,
                negative_flag: v & 0x80 != 0,
                overflow_flag: v & 0x40 != 0,
                ..c.status
            },
            ..c
        },
    }
}

/// Result byte and carry of a shift, rotate, increment or decrement of `v`.
pub open spec fn modify_value(op: Op, v: u8, carry: bool) -> (u8, bool) {
    match op {
        Op::Asl => (v << 1u8, v & 0x80 != 0),
        Op::Lsr => (v >> 1u8, v & 0x01 != 0),
        Op::Rol => ((v << 1u8) | (if carry { 1u8 } else { 0 }), v & 0x80 != 0),
        Op::Ror => ((v >> 1u8) | (if carry { 0x80u8 } else { 0 }), v & 0x01 != 0),
        Op::Inc => (v.wrapping_add(1), carry),
        _ => (v.wrapping_sub(1), carry),
    }
}

/// The processor after an instruction that only touches registers and flags.
pub open spec fn apply_implied(op: Op, c: Mos6510) -> Mos6510 {
    match op {
        Op::Tax => Mos6510 { index_x: c.accumulator, status: with_nz(c.status, c.accumulator), ..c },
        Op::Tay => Mos6510 { index_y: c.accumulator, status: with_nz(c.status, c.accumulator), ..c },
        Op::Txa => Mos6510 { accumulator: c.index_x, status: with_nz(c.status, c.index_x), ..c },
        Op::Tya => Mos6510 { accumulator: c.index_y, status: with_nz(c.status, c.index_y), ..c },
        Op::Txs => Mos6510 { stack_pointer: c.index_x, ..c },
        Op::Tsx => Mos6510 {
            index_x: c.stack_pointer,
            status: with_nz(c.status, c.stack_pointer),
            ..c
        },
        Op::Inx => Mos6510 {
            index_x: c.index_x.wrapping_add(1),
            status: with_nz(c.status, c.index_x.wrapping_add(1)),
            ..c
        },
        Op::Dex => Mos6510 {
            index_x: c.index_x.wrapping_sub(1),
            status: with_nz(c.status, c.index_x.wrapping_sub(1)),
            ..c
        },
        Op::Iny => Mos6510 {
            index_y: c.index_y.wrapping_add(1),
            status: with_nz(c.status, c.index_y.wrapping_add(1)),
            ..c
        },
        Op::Dey => Mos6510 {
            index_y: c.index_y.wrapping_sub(1),
            status: with_nz(c.status, c.index_y.wrapping_sub(1)),
            ..c
        },
        Op::Clc => Mos6510 { status: StatusRegister { carry_flag: false, ..c.status }, ..c },
        Op::Sec => Mos6510 { status: StatusRegister { carry_flag: true, ..c.status }, ..c },
        Op::Cli => Mos6510 {
            status: StatusRegister { interrupt_disable_flag: false, ..c.status },
            ..c
        },
        Op::Sei => Mos6510 {
            status: StatusRegister { interrupt_disable_flag: true, ..c.status },
            ..c
        },
        _ => Mos6510 { status: StatusRegister { decimal_mode_flag: false, ..c.status }, ..c },
    }
}

/// Whether a branch instruction is taken.
pub open spec fn branch_taken(op: Op, s: StatusRegister) -> bool {
    match op {
        Op::Bpl => !s.negative_flag,
        Op::Bmi => s.negative_flag,
        Op::Bvs => s.overflow_flag,
        Op::Bcc => !s.carry_flag,
        Op::Bcs => s.carry_flag,
        Op::Bne => !s.zero_flag,
        _ => s.zero_flag,
    }
}

/// A read through the CPU's view: the byte and the bus afterwards.
pub open spec fn rd(m: BusModel, addr: u16) -> (u8, BusModel) {
    (bus_read_value(m, addr), bus_after_read(m, addr))
}

/// A little-endian word read at `addr` and `addr + 1`.
pub open spec fn read_word(m: BusModel, addr: u16) -> (u16, BusModel) {
    let (lo, m1) = rd(m, addr);
    let (hi, m2) = rd(m1, addr.wrapping_add(1));
    (word(lo, hi), m2)
}

/// Operand address of the instruction at the program counter. For the
/// immediate mode it is the address of the operand byte itself.
pub open spec fn resolve(c: Mos6510, m: BusModel, mode: Mode) -> (Resolved, BusModel) {
    let pc1 = c.program_counter.wrapping_add(1);
    match mode {
        Mode::ZeroPage => {
            let (z, m1) = rd(m, pc1);
            (Resolved { addr: z as u16, crossed: false, base: z as u16 }, m1)
        },
        Mode::ZeroPageX => {
            let (z, m1) = rd(m, pc1);
            (Resolved { addr: z.wrapping_add(c.index_x) as u16, crossed: false, base: z as u16 }, m1)
        },
        Mode::Absolute => {
            let (w, m1) = read_word(m, pc1);
            (Resolved { addr: w, crossed: false, base: w }, m1)
        },
        Mode::AbsoluteX => {
            let (w, m1) = read_word(m, pc1);
            let a = w.wrapping_add(c.index_x as u16);
            (Resolved { addr: a, crossed: !same_page_spec(w, a), base: w }, m1)
        },
        Mode::AbsoluteY => {
            let (w, m1) = read_word(m, pc1);
            let a = w.wrapping_add(c.index_y as u16);
            (Resolved { addr: a, crossed: !same_page_spec(w, a), base: w }, m1)
        },
        Mode::IndirectY => {
            let (z, m1) = rd(m, pc1);
            let (lo, m2) = rd(m1, z as u16);
            let (hi, m3) = rd(m2, z.wrapping_add(1) as u16);
            let p = word(lo, hi);
            let a = p.wrapping_add(c.index_y as u16);
            (Resolved { addr: a, crossed: !same_page_spec(p, a), base: z as u16 }, m3)
        },
        Mode::Indirect => {
            let (v, m1) = read_word(m, pc1);
            let (t, m2) = read_word(m1, v);
            (Resolved { addr: t, crossed: false, base: v }, m2)
        },
        _ => (Resolved { addr: pc1, crossed: false, base: pc1 }, m),
    }
}

/// Operand a trace shows: the value for immediate mode, else the address or
/// vector written in the instruction.
pub open spec fn trace_operand(mode: Mode, v: u8, r: Resolved) -> u16 {
    if mode == Mode::Immediate {
        v as u16
    } else {
        r.base
    }
}

/// Cycle count: the base count, plus one where indexing crossed a page.
pub open spec fn cycles_with(cycles: i8, crossed: bool) -> i8 {
    if crossed {
        (cycles + 1) as i8
    } else {
        cycles
    }
}

/// What an executed instruction leaves behind.
pub struct Outcome {
    pub cpu: Mos6510,
    pub mem: BusModel,
    pub effect: Option<Effect>,
    pub operand: u16,
}

/// Push of one byte: written at 0x0100+SP, then SP decremented.
pub open spec fn push8_spec(c: Mos6510, m: BusModel, v: u8) -> (Mos6510, BusModel) {
    (
        Mos6510 { stack_pointer: c.stack_pointer.wrapping_sub(1), ..c },
        bus_after_write(m, stack_addr(c.stack_pointer), v),
    )
}

/// Push of a word, high byte first.
pub open spec fn push16_spec(c: Mos6510, m: BusModel, w: u16) -> (Mos6510, BusModel) {
    let (c1, m1) = push8_spec(c, m, (w >> 8u16) as u8);
    push8_spec(c1, m1, (w & 0xFF) as u8)
}

/// Pop of one byte: SP incremented, then 0x0100+SP read.
pub open spec fn pop8_spec(c: Mos6510, m: BusModel) -> (u8, Mos6510, BusModel) {
    let sp = c.stack_pointer.wrapping_add(1);
    let (v, m1) = rd(m, stack_addr(sp));
    (v, Mos6510 { stack_pointer: sp, ..c }, m1)
}

/// Pop of a word, low byte first.
pub open spec fn pop16_spec(c: Mos6510, m: BusModel) -> (u16, Mos6510, BusModel) {
    let (lo, c1, m1) = pop8_spec(c, m);
    let (hi, c2, m2) = pop8_spec(c1, m1);
    (word(lo, hi), c2, m2)
}

/// Loads, logic, arithmetic, compares and bit tests.
pub open spec fn exec_read(c: Mos6510, m: BusModel, op: Op, mode: Mode, cycles: i8) -> Outcome {
    let (r, m1) = resolve(c, m, mode);
    let (v, m2) = rd(m1, r.addr);
    let c1 = apply_read(op, c, v);
    Outcome {
        cpu: Mos6510 {
            program_counter: c.program_counter.wrapping_add(mode_length_spec(mode)),
            wait_cycles: cycles_with(cycles, r.crossed),
            ..c1
        },
        mem: m2,
        effect: None,
        operand: trace_operand(mode, v, r),
    }
}

/// The register a store instruction writes.
pub open spec fn stored_register(op: Op, c: Mos6510) -> u8 {
    match op {
        Op::Stx => c.index_x,
        Op::Sty => c.index_y,
        _ => c.accumulator,
    }
}

/// Stores.
pub open spec fn exec_store(c: Mos6510, m: BusModel, op: Op, mode: Mode, cycles: i8) -> Outcome {
    let (r, m1) = resolve(c, m, mode);
    let v = stored_register(op, c);
    Outcome {
        cpu: Mos6510 {
            program_counter: c.program_counter.wrapping_add(mode_length_spec(mode)),
            wait_cycles: cycles,
            ..c
        },
        mem: bus_after_write(m1, r.addr, v),
        effect: Some(Effect::WriteMem { addr: r.addr, value: v }),
        operand: r.base,
    }
}

/// Shifts, rotates, increments and decrements, of the accumulator or of memory.
pub open spec fn exec_modify(c: Mos6510, m: BusModel, op: Op, mode: Mode, cycles: i8) -> Outcome {
    let pc = c.program_counter.wrapping_add(mode_length_spec(mode));
    if mode == Mode::Accumulator {
        let (v, carry) = modify_value(op, c.accumulator, c.status.carry_flag);
        Outcome {
            cpu: Mos6510 {
                accumulator: v,
                status: with_nz(StatusRegister { carry_flag: carry, ..c.status }, v),
                program_counter: pc,
                wait_cycles: cycles,
                ..c
            },
            mem: m,
            effect: None,
            operand: 0,
        }
    } else {
        let (r, m1) = resolve(c, m, mode);
        let (old_v, m2) = rd(m1, r.addr);
        let (v, carry) = modify_value(op, old_v, c.status.carry_flag);
        Outcome {
            cpu: Mos6510 {
                status: with_nz(StatusRegister { carry_flag: carry, ..c.status }, v),
                program_counter: pc,
                wait_cycles: cycles,
                ..c
            },
            mem: bus_after_write(m2, r.addr, v),
            effect: Some(Effect::WriteMem { addr: r.addr, value: v }),
            operand: r.base,
        }
    }
}

/// Register transfers, increments and decrements of index registers, and flag
/// instructions.
pub open spec fn exec_implied(c: Mos6510, m: BusModel, op: Op, cycles: i8) -> Outcome {
    let c1 = apply_implied(op, c);
    Outcome {
        cpu: Mos6510 {
            program_counter: c.program_counter.wrapping_add(1),
            wait_cycles: cycles,
            ..c1
        },
        mem: m,
        effect: None,
        operand: 0,
    }
}

/// Pushes and pulls of the accumulator and the status register.
pub open spec fn exec_stack(c: Mos6510, m: BusModel, op: Op, cycles: i8) -> Outcome {
    let (c1, m1) = match op {
        Op::Pha => push8_spec(c, m, c.accumulator),
        Op::Php => push8_spec(c, m, status_byte(c.status)),
        Op::Pla => {
            let (v, c2, m2) = pop8_spec(c, m);
            (Mos6510 { accumulator: v, status: with_nz(c2.status, v), ..c2 }, m2)
        },
        _ => {
            let (v, c2, m2) = pop8_spec(c, m);
            (Mos6510 { status: status_from_byte(v), ..c2 }, m2)
        },
    };
    Outcome {
        cpu: Mos6510 {
            program_counter: c.program_counter.wrapping_add(1),
            wait_cycles: cycles,
            ..c1
        },
        mem: m1,
        effect: None,
        operand: 0,
    }
}

/// Jumps, subroutine calls and returns. `JSR` pushes the address of its own
/// last byte; `RTS` pulls it and adds one.
pub open spec fn exec_jump(c: Mos6510, m: BusModel, op: Op, mode: Mode, cycles: i8) -> Outcome {
    match op {
        Op::Jmp => {
            let (r, m1) = resolve(c, m, mode);
            Outcome {
                cpu: Mos6510 { program_counter: r.addr, wait_cycles: cycles, ..c },
                mem: m1,
                effect: None,
                operand: r.base,
            }
        },
        Op::Jsr => {
            let (r, m1) = resolve(c, m, mode);
            let (c1, m2) = push16_spec(c, m1, c.program_counter.wrapping_add(2));
            Outcome {
                cpu: Mos6510 { program_counter: r.addr, wait_cycles: cycles, ..c1 },
                mem: m2,
                effect: None,
                operand: r.addr,
            }
        },
        Op::Rts => {
            let (w, c1, m1) = pop16_spec(c, m);
            Outcome {
                cpu: Mos6510 { program_counter: w.wrapping_add(1), wait_cycles: cycles, ..c1 },
                mem: m1,
                effect: None,
                operand: 0,
            }
        },
        _ => {
            let (p, c1, m1) = pop8_spec(c, m);
            let (w, c2, m2) = pop16_spec(c1, m1);
            Outcome {
                cpu: Mos6510 {
                    program_counter: w,
                    status: status_from_byte(p),
                    wait_cycles: cycles,
                    ..c2
                },
                mem: m2,
                effect: None,
                operand: 0,
            }
        },
    }
}

/// Conditional branches: the target is the address after the instruction plus
/// the signed offset; a taken branch costs one cycle more, two when the target
/// lies in another page than the next instruction.
pub open spec fn exec_branch(c: Mos6510, m: BusModel, op: Op, cycles: i8) -> Outcome {
    let (offset, m1) = rd(m, c.program_counter.wrapping_add(1));
    let next = c.program_counter.wrapping_add(2);
    let target = next.wrapping_add_signed(offset as i8 as i16);
    let taken = branch_taken(op, c.status);
    Outcome {
        cpu: Mos6510 {
            program_counter: if taken { target } else { next },
            wait_cycles: if !taken {
                cycles
            } else if same_page_spec(next, target) {
                (cycles + 1) as i8
            } else {
                (cycles + 2) as i8
            },
            ..c
        },
        mem: m1,
        effect: None,
        operand: target,
    }
}

/// The instruction group an opcode belongs to, executed on the processor `c`
/// whose program counter still points at the opcode.
pub open spec fn execute(c: Mos6510, m: BusModel, d: Decoded) -> Outcome {
    match d.op {
        Op::Lda | Op::Ldx | Op::Ldy | Op::Ora | Op::And | Op::Eor | Op::Adc | Op::Sbc | Op::Cmp
        | Op::Cpx | Op::Cpy | Op::Bit => exec_read(c, m, d.op, d.mode, d.cycles),
        Op::Sta | Op::Stx | Op::Sty => exec_store(c, m, d.op, d.mode, d.cycles),
        Op::Asl | Op::Lsr | Op::Rol | Op::Ror | Op::Inc | Op::Dec => exec_modify(
            c,
            m,
            d.op,
            d.mode,
            d.cycles,
        ),
        Op::Pha | Op::Php | Op::Pla | Op::Plp => exec_stack(c, m, d.op, d.cycles),
        Op::Jmp | Op::Jsr | Op::Rts | Op::Rti => exec_jump(c, m, d.op, d.mode, d.cycles),
        Op::Bpl | Op::Bmi | Op::Bvs | Op::Bcc | Op::Bcs | Op::Bne | Op::Beq => exec_branch(
            c,
            m,
            d.op,
            d.cycles,
        ),
        _ => exec_implied(c, m, d.op, d.cycles),
    }
}

/// One fetch-decode-execute step: the processor, the bus, and the executed
/// instruction with its side effect, or the decode error (which leaves the
/// processor as it was).
pub open spec fn step(c: Mos6510, m: BusModel) -> (Mos6510, BusModel, Result<(Instruction, Option<Effect>), CpuError>) {
    let (opcode, m1) = rd(m, c.program_counter);
    match decode(opcode) {
        None => (c, m1, Err(CpuError::UnknownOpcode { opcode, pc: c.program_counter })),
        Some(d) => {
            let o = execute(c, m1, d);
            (o.cpu, o.mem, Ok((Instruction { op: d.op, mode: d.mode, operand: o.operand }, o.effect)))
        },
    }
}

/// Entry into the interrupt handler: PC and then P (with B clear) pushed, I
/// set, PC loaded from the IRQ vector.
pub open spec fn irq_entry(c: Mos6510, m: BusModel) -> (Mos6510, BusModel) {
    let (c1, m1) = push16_spec(c, m, c.program_counter);
    let (c2, m2) = push8_spec(c1, m1, status_byte(StatusRegister { break_flag: false, ..c.status }));
    let (target, m3) = read_word(m2, IRQ_VECTOR_ADDR);
    (
        Mos6510 {
            program_counter: target,
            status: StatusRegister { interrupt_disable_flag: true, ..c.status },
            wait_cycles: IRQ_CYCLES,
            ..c2
        },
        m3,
    )
}

/// Wait cycles after the countdown of one tick.
pub open spec fn counted_down(w: i8) -> i8 {
    if w > 0 {
        (w - 1) as i8
    } else {
        w
    }
}

/// One system cycle of the processor: count down; once the count is spent,
/// enter the interrupt handler if the IRQ line is asserted and I is clear,
/// else execute the next instruction.
pub open spec fn tick_spec(c: Mos6510, m: BusModel, irq: bool) -> (Mos6510, BusModel, Result<(Option<Instruction>, Option<Effect>), CpuError>) {
    let c0 = Mos6510 { irq, wait_cycles: counted_down(c.wait_cycles), ..c };
    if c0.wait_cycles > 0 {
        (c0, m, Ok((None, None)))
    } else if irq && !c.status.interrupt_disable_flag {
        let (c1, m1) = irq_entry(c0, m);
        (c1, m1, Ok((None, None)))
    } else {
        let (c1, m1, r) = step(c0, m);
        (c1, m1, match r {
            Ok((i, e)) => Ok((Some(i), e)),
            Err(e) => Err(e),
        })
    }
}

/// The processor at power-on.
pub open spec fn power_on() -> Mos6510 {
    Mos6510 {
        program_counter: 0,
        stack_pointer: 0,
        accumulator: 0,
        index_x: 0,
        index_y: 0,
        status: StatusRegister {
            negative_flag: false,
            overflow_flag: false,
            break_flag: false,
            decimal_mode_flag: false,
            interrupt_disable_flag: false,
            zero_flag: false,
            carry_flag: false,
        },
        wait_cycles: 0,
        irq: false,
    }
}

/// Reset: PC loaded from the little-endian vector at 0xFFFC/0xFFFD, cycle
/// count cleared, everything else kept.
pub open spec fn reset_spec(c: Mos6510, m: BusModel) -> (Mos6510, BusModel) {
    let (w, m1) = read_word(m, RESET_VECTOR_ADDR);
    (Mos6510 { program_counter: w, wait_cycles: 0, ..c }, m1)
}

/// Whether two addresses lie in the same 256-byte page.
pub fn same_page(a: u16, b: u16) -> (r: bool)
    ensures
        r == same_page_spec(a, b),
{
    a & 0xFF00 == b & 0xFF00
}

fn mode_length(mode: Mode) -> (r: u16)
    ensures
        r == mode_length_spec(mode),
{
    match mode {
        Mode::Implied | Mode::Accumulator => 1,
        Mode::Absolute | Mode::AbsoluteX | Mode::AbsoluteY | Mode::Indirect => 3,
        _ => 2,
    }
}

/// Looks an opcode up in the opcode table.
pub fn decode_opcode(opcode: u8) -> (r: Option<Decoded>)
    ensures
        r == decode(opcode),
        r matches Some(d) ==> 2 <= d.cycles <= 6,
{
    match opcode {
        0x05 => Some(Decoded { op: Op::Ora, mode: Mode::ZeroPage, cycles: 3 }),
        0x06 => Some(Decoded { op: Op::Asl, mode: Mode::ZeroPage, cycles: 5 }),
        0x08 => Some(Decoded { op: Op::Php, mode: Mode::Implied, cycles: 3 }),
        0x09 => Some(Decoded { op: Op::Ora, mode: Mode::Immediate, cycles: 2 }),
        0x0A => Some(Decoded { op: Op::Asl, mode: Mode::Accumulator, cycles: 2 }),
        0x0D => Some(Decoded { op: Op::Ora, mode: Mode::Absolute, cycles: 4 }),
        0x10 => Some(Decoded { op: Op::Bpl, mode: Mode::Relative, cycles: 2 }),
        0x16 => Some(Decoded { op: Op::Asl, mode: Mode::ZeroPageX, cycles: 6 }),
        0x18 => Some(Decoded { op: Op::Clc, mode: Mode::Implied, cycles: 2 }),
        0x20 => Some(Decoded { op: Op::Jsr, mode: Mode::Absolute, cycles: 6 }),
        0x24 => Some(Decoded { op: Op::Bit, mode: Mode::ZeroPage, cycles: 3 }),
        0x28 => Some(Decoded { op: Op::Plp, mode: Mode::Implied, cycles: 4 }),
        0x29 => Some(Decoded { op: Op::And, mode: Mode::Immediate, cycles: 2 }),
        0x2A => Some(Decoded { op: Op::Rol, mode: Mode::Accumulator, cycles: 2 }),
        0x2C => Some(Decoded { op: Op::Bit, mode: Mode::Absolute, cycles: 4 }),
        0x30 => Some(Decoded { op: Op::Bmi, mode: Mode::Relative, cycles: 2 }),
        0x38 => Some(Decoded { op: Op::Sec, mode: Mode::Implied, cycles: 2 }),
        0x40 => Some(Decoded { op: Op::Rti, mode: Mode::Implied, cycles: 6 }),
        0x45 => Some(Decoded { op: Op::Eor, mode: Mode::ZeroPage, cycles: 3 }),
        0x46 => Some(Decoded { op: Op::Lsr, mode: Mode::ZeroPage, cycles: 5 }),
        0x48 => Some(Decoded { op: Op::Pha, mode: Mode::Implied, cycles: 3 }),
        0x49 => Some(Decoded { op: Op::Eor, mode: Mode::Immediate, cycles: 2 }),
        0x4A => Some(Decoded { op: Op::Lsr, mode: Mode::Accumulator, cycles: 2 }),
        0x4C => Some(Decoded { op: Op::Jmp, mode: Mode::Absolute, cycles: 3 }),
        0x56 => Some(Decoded { op: Op::Lsr, mode: Mode::ZeroPageX, cycles: 6 }),
        0x58 => Some(Decoded { op: Op::Cli, mode: Mode::Implied, cycles: 2 }),
        0x60 => Some(Decoded { op: Op::Rts, mode: Mode::Implied, cycles: 6 }),
        0x65 => Some(Decoded { op: Op::Adc, mode: Mode::ZeroPage, cycles: 3 }),
        0x66 => Some(Decoded { op: Op::Ror, mode: Mode::ZeroPage, cycles: 5 }),
        0x68 => Some(Decoded { op: Op::Pla, mode: Mode::Implied, cycles: 4 }),
        0x69 => Some(Decoded { op: Op::Adc, mode: Mode::Immediate, cycles: 2 }),
        0x6A => Some(Decoded { op: Op::Ror, mode: Mode::Accumulator, cycles: 2 }),
        0x6C => Some(Decoded { op: Op::Jmp, mode: Mode::Indirect, cycles: 5 }),
        0x70 => Some(Decoded { op: Op::Bvs, mode: Mode::Relative, cycles: 2 }),
        0x76 => Some(Decoded { op: Op::Ror, mode: Mode::ZeroPageX, cycles: 6 }),
        0x78 => Some(Decoded { op: Op::Sei, mode: Mode::Implied, cycles: 2 }),
        0x79 => Some(Decoded { op: Op::Adc, mode: Mode::AbsoluteY, cycles: 4 }),
        0x84 => Some(Decoded { op: Op::Sty, mode: Mode::ZeroPage, cycles: 3 }),
        0x85 => Some(Decoded { op: Op::Sta, mode: Mode::ZeroPage, cycles: 3 }),
        0x86 => Some(Decoded { op: Op::Stx, mode: Mode::ZeroPage, cycles: 3 }),
        0x88 => Some(Decoded { op: Op::Dey, mode: Mode::Implied, cycles: 2 }),
        0x8A => Some(Decoded { op: Op::Txa, mode: Mode::Implied, cycles: 2 }),
        0x8C => Some(Decoded { op: Op::Sty, mode: Mode::Absolute, cycles: 4 }),
        0x8D => Some(Decoded { op: Op::Sta, mode: Mode::Absolute, cycles: 4 }),
        0x8E => Some(Decoded { op: Op::Stx, mode: Mode::Absolute, cycles: 4 }),
        0x90 => Some(Decoded { op: Op::Bcc, mode: Mode::Relative, cycles: 2 }),
        0x91 => Some(Decoded { op: Op::Sta, mode: Mode::IndirectY, cycles: 6 }),
        0x94 => Some(Decoded { op: Op::Sty, mode: Mode::ZeroPageX, cycles: 4 }),
        0x95 => Some(Decoded { op: Op::Sta, mode: Mode::ZeroPageX, cycles: 4 }),
        0x98 => Some(Decoded { op: Op::Tya, mode: Mode::Implied, cycles: 2 }),
        0x99 => Some(Decoded { op: Op::Sta, mode: Mode::AbsoluteY, cycles: 5 }),
        0x9A => Some(Decoded { op: Op::Txs, mode: Mode::Implied, cycles: 2 }),
        0x9D => Some(Decoded { op: Op::Sta, mode: Mode::AbsoluteX, cycles: 5 }),
        0xA0 => Some(Decoded { op: Op::Ldy, mode: Mode::Immediate, cycles: 2 }),
        0xA2 => Some(Decoded { op: Op::Ldx, mode: Mode::Immediate, cycles: 2 }),
        0xA4 => Some(Decoded { op: Op::Ldy, mode: Mode::ZeroPage, cycles: 3 }),
        0xA5 => Some(Decoded { op: Op::Lda, mode: Mode::ZeroPage, cycles: 3 }),
        0xA6 => Some(Decoded { op: Op::Ldx, mode: Mode::ZeroPage, cycles: 3 }),
        0xA8 => Some(Decoded { op: Op::Tay, mode: Mode::Implied, cycles: 2 }),
        0xA9 => Some(Decoded { op: Op::Lda, mode: Mode::Immediate, cycles: 2 }),
        0xAA => Some(Decoded { op: Op::Tax, mode: Mode::Implied, cycles: 2 }),
        0xAC => Some(Decoded { op: Op::Ldy, mode: Mode::Absolute, cycles: 4 }),
        0xAD => Some(Decoded { op: Op::Lda, mode: Mode::Absolute, cycles: 4 }),
        0xAE => Some(Decoded { op: Op::Ldx, mode: Mode::Absolute, cycles: 4 }),
        0xB0 => Some(Decoded { op: Op::Bcs, mode: Mode::Relative, cycles: 2 }),
        0xB1 => Some(Decoded { op: Op::Lda, mode: Mode::IndirectY, cycles: 5 }),
        0xB4 => Some(Decoded { op: Op::Ldy, mode: Mode::ZeroPageX, cycles: 4 }),
        0xB5 => Some(Decoded { op: Op::Lda, mode: Mode::ZeroPageX, cycles: 4 }),
        0xB9 => Some(Decoded { op: Op::Lda, mode: Mode::AbsoluteY, cycles: 4 }),
        0xBA => Some(Decoded { op: Op::Tsx, mode: Mode::Implied, cycles: 2 }),
        0xBD => Some(Decoded { op: Op::Lda, mode: Mode::AbsoluteX, cycles: 4 }),
        0xC0 => Some(Decoded { op: Op::Cpy, mode: Mode::Immediate, cycles: 2 }),
        0xC4 => Some(Decoded { op: Op::Cpy, mode: Mode::ZeroPage, cycles: 3 }),
        0xC5 => Some(Decoded { op: Op::Cmp, mode: Mode::ZeroPage, cycles: 3 }),
        0xC6 => Some(Decoded { op: Op::Dec, mode: Mode::ZeroPage, cycles: 5 }),
        0xC8 => Some(Decoded { op: Op::Iny, mode: Mode::Implied, cycles: 2 }),
        0xC9 => Some(Decoded { op: Op::Cmp, mode: Mode::Immediate, cycles: 2 }),
        0xCA => Some(Decoded { op: Op::Dex, mode: Mode::Implied, cycles: 2 }),
        0xCD => Some(Decoded { op: Op::Cmp, mode: Mode::Absolute, cycles: 4 }),
        0xD0 => Some(Decoded { op: Op::Bne, mode: Mode::Relative, cycles: 2 }),
        0xD1 => Some(Decoded { op: Op::Cmp, mode: Mode::IndirectY, cycles: 5 }),
        0xD8 => Some(Decoded { op: Op::Cld, mode: Mode::Implied, cycles: 2 }),
        0xDD => Some(Decoded { op: Op::Cmp, mode: Mode::AbsoluteX, cycles: 4 }),
        0xE0 => Some(Decoded { op: Op::Cpx, mode: Mode::Immediate, cycles: 2 }),
        0xE4 => Some(Decoded { op: Op::Cpx, mode: Mode::ZeroPage, cycles: 3 }),
        0xE5 => Some(Decoded { op: Op::Sbc, mode: Mode::ZeroPage, cycles: 3 }),
        0xE6 => Some(Decoded { op: Op::Inc, mode: Mode::ZeroPage, cycles: 5 }),
        0xE8 => Some(Decoded { op: Op::Inx, mode: Mode::Implied, cycles: 2 }),
        0xE9 => Some(Decoded { op: Op::Sbc, mode: Mode::Immediate, cycles: 2 }),
        0xEC => Some(Decoded { op: Op::Cpx, mode: Mode::Absolute, cycles: 4 }),
        0xF0 => Some(Decoded { op: Op::Beq, mode: Mode::Relative, cycles: 2 }),
        _ => None,
    }
}

fn status_value(s: StatusRegister) -> (r: u8)
    ensures
        r == status_byte(s),
{
    (if s.carry_flag { 0x01u8 } else { 0 }) | (if s.zero_flag { 0x02u8 } else { 0 }) | (
    if s.interrupt_disable_flag {
        0x04u8
    } else {
        0
    }) | (if s.decimal_mode_flag { 0x08u8 } else { 0 }) | (if s.break_flag {
        0x10u8
    } else {
        0
    }) | (if s.overflow_flag { 0x40u8 } else { 0 }) | (if s.negative_flag {
        0x80u8
    } else {
        0
    })
}

fn modify(op: Op, v: u8, carry: bool) -> (r: (u8, bool))
    ensures
        r == modify_value(op, v, carry),
{
    match op {
        Op::Asl => (v << 1u8, v & 0x80 != 0),
        Op::Lsr => (v >> 1u8, v & 0x01 != 0),
        Op::Rol => ((v << 1u8) | (if carry { 1u8 } else { 0 }), v & 0x80 != 0),
        Op::Ror => ((v >> 1u8) | (if carry { 0x80u8 } else { 0 }), v & 0x01 != 0),
        Op::Inc => (v.wrapping_add(1), carry),
        _ => (v.wrapping_sub(1), carry),
    }
}

fn taken(op: Op, s: StatusRegister) -> (r: bool)
    ensures
        r == branch_taken(op, s),
{
    match op {
        Op::Bpl => !s.negative_flag,
        Op::Bmi => s.negative_flag,
        Op::Bvs => s.overflow_flag,
        Op::Bcc => !s.carry_flag,
        Op::Bcs => s.carry_flag,
        Op::Bne => !s.zero_flag,
        _ => s.zero_flag,
    }
}

fn fetch_word(mem: &mut Bus, addr: u16) -> (r: u16)
    ensures
        (r, final(mem)@) == read_word(old(mem)@, addr),
{
    let lo = mem.read(addr);
    let hi = mem.read(addr.wrapping_add(1));
    ((hi as u16) << 8u16) | (lo as u16)
}

impl Mos6510 {
    /// The processor at power-on: registers, flags and counters all zero.
    pub fn new() -> (r: Mos6510)
        ensures
            r == power_on(),
    {
        Mos6510 {
            program_counter: 0,
            stack_pointer: 0,
            accumulator: 0,
            index_x: 0,
            index_y: 0,
            status: StatusRegister {
                negative_flag: false,
                overflow_flag: false,
                break_flag: false,
                decimal_mode_flag: false,
                interrupt_disable_flag: false,
                zero_flag: false,
                carry_flag: false,
            },
            wait_cycles: 0,
            irq: false,
        }
    }

    /// Loads the program counter from the reset vector and clears the cycle
    /// count.
    pub fn reset(&mut self, mem: &mut Bus)
        ensures
            (*final(self), final(mem)@) == reset_spec(*old(self), old(mem)@),
    {
        self.program_counter = fetch_word(mem, RESET_VECTOR_ADDR);
        self.wait_cycles = 0;
    }

    pub fn get_pc(&self) -> (r: u16)
        ensures
            r == self.program_counter,
    {
        self.program_counter
    }

    fn effective_stack_pointer(&self) -> (r: u16)
        ensures
            r == stack_addr(self.stack_pointer),
    {
        0x100u16 + self.stack_pointer as u16
    }

    fn push8(&mut self, mem: &mut Bus, value: u8)
        ensures
            (*final(self), final(mem)@) == push8_spec(*old(self), old(mem)@, value),
    {
        mem.write(self.effective_stack_pointer(), value);
        self.stack_pointer = self.stack_pointer.wrapping_sub(1);
    }

    fn push16(&mut self, mem: &mut Bus, value: u16)
        ensures
            (*final(self), final(mem)@) == push16_spec(*old(self), old(mem)@, value),
    {
        self.push8(mem, (value >> 8u16) as u8);
        self.push8(mem, (value & 0xFF) as u8);
    }

    fn pop8(&mut self, mem: &mut Bus) -> (r: u8)
        ensures
            (r, *final(self), final(mem)@) == pop8_spec(*old(self), old(mem)@),
    {
        self.stack_pointer = self.stack_pointer.wrapping_add(1);
        mem.read(self.effective_stack_pointer())
    }

    fn pop16(&mut self, mem: &mut Bus) -> (r: u16)
        ensures
            (r, *final(self), final(mem)@) == pop16_spec(*old(self), old(mem)@),
    {
        let lo = self.pop8(mem);
        let hi = self.pop8(mem);
        ((hi as u16) << 8u16) | (lo as u16)
    }

    /// Operand address of the instruction at the program counter.
    fn resolve_operand(&self, mem: &mut Bus, mode: Mode) -> (r: Resolved)
        ensures
            (r, final(mem)@) == resolve(*self, old(mem)@, mode),
    {
        let pc1 = self.program_counter.wrapping_add(1);
        match mode {
            Mode::ZeroPage => {
                let z = mem.read(pc1);
                Resolved { addr: z as u16, crossed: false, base: z as u16 }
            },
            Mode::ZeroPageX => {
                let z = mem.read(pc1);
                Resolved { addr: z.wrapping_add(self.index_x) as u16, crossed: false, base: z as u16 }
            },
            Mode::Absolute => {
                let w = fetch_word(mem, pc1);
                Resolved { addr: w, crossed: false, base: w }
            },
            Mode::AbsoluteX => {
                let w = fetch_word(mem, pc1);
                let a = w.wrapping_add(self.index_x as u16);
                Resolved { addr: a, crossed: !same_page(w, a), base: w }
            },
            Mode::AbsoluteY => {
                let w = fetch_word(mem, pc1);
                let a = w.wrapping_add(self.index_y as u16);
                Resolved { addr: a, crossed: !same_page(w, a), base: w }
            },
            Mode::IndirectY => {
                let z = mem.read(pc1);
                let lo = mem.read(z as u16);
                let hi = mem.read(z.wrapping_add(1) as u16);
                let p = ((hi as u16) << 8u16) | (lo as u16);
                let a = p.wrapping_add(self.index_y as u16);
                Resolved { addr: a, crossed: !same_page(p, a), base: z as u16 }
            },
            Mode::Indirect => {
                let v = fetch_word(mem, pc1);
                let t = fetch_word(mem, v);
                Resolved { addr: t, crossed: false, base: v }
            },
            _ => Resolved { addr: pc1, crossed: false, base: pc1 },
        }
    }

    fn set_negative_flag(&mut self, value: u8)
        ensures
            *final(self) == (Mos6510 {
                status: StatusRegister { negative_flag: value & 0x80 != 0, ..old(self).status },
                ..*old(self)
            }),
    {
        self.status.negative_flag = value & 0x80 != 0;
    }

    fn set_zero_flag(&mut self, value: u8)
        ensures
            *final(self) == (Mos6510 {
                status: StatusRegister { zero_flag: value == 0, ..old(self).status },
                ..*old(self)
            }),
    {
        self.status.zero_flag = value == 0;
    }

    fn set_nz(&mut self, value: u8)
        ensures
            *final(self) == (Mos6510 { status: with_nz(old(self).status, value), ..*old(self) }),
    {
        self.set_negative_flag(value);
        self.set_zero_flag(value);
    }

    fn compare(&mut self, operand1: u8, operand2: u8)
        ensures
            *final(self) == (Mos6510 {
                status: compare_spec(old(self).status, operand1, operand2),
                ..*old(self)
            }),
    {
        self.status.carry_flag = operand1 >= operand2;
        self.set_nz(operand1.wrapping_sub(operand2));
    }

    fn add_with_carry(&mut self, operand: u8)
        ensures
            *final(self) == add_with_carry_spec(*old(self), operand),
    {
        let accumulator = self.accumulator;
        let sum: u16 = accumulator as u16 + operand as u16 + (if self.status.carry_flag {
            1u16
        } else {
            0u16
        });
        let value = (sum & 0xFF) as u8;
        self.accumulator = value;
        self.status.carry_flag = sum > 0xFF;
        self.status.overflow_flag = (accumulator ^ value) & (operand ^ value) & 0x80 != 0;
        self.set_nz(value);
    }

    fn subtract_with_carry(&mut self, operand: u8)
        ensures
            *final(self) == subtract_with_carry_spec(*old(self), operand),
    {
        let accumulator = self.accumulator;
        let borrow: u8 = if self.status.carry_flag { 0 } else { 1 };
        let value = accumulator.wrapping_sub(operand).wrapping_sub(borrow);
        let difference: i16 = (accumulator as i8) as i16 - (operand as i8) as i16 - borrow as i16;
        self.accumulator = value;
        self.status.carry_flag = accumulator >= operand;
        self.status.overflow_flag = difference < -128 || difference > 127;
        self.set_nz(value);
    }

    fn status_register_value(&self) -> (r: u8)
        ensures
            r == status_byte(self.status),
    {
        status_value(self.status)
    }

    fn set_status_register(&mut self, value: u8)
        ensures
            *final(self) == (Mos6510 { status: status_from_byte(value), ..*old(self) }),
    {
        self.status.carry_flag = value & 0x01 != 0;
        self.status.zero_flag = value & 0x02 != 0;
        self.status.interrupt_disable_flag = value & 0x04 != 0;
        self.status.decimal_mode_flag = value & 0x08 != 0;
        self.status.break_flag = value & 0x10 != 0;
        self.status.overflow_flag = value & 0x40 != 0;
        self.status.negative_flag = value & 0x80 != 0;
    }

    fn apply_operand(&mut self, op: Op, v: u8)
        ensures
            *final(self) == apply_read(op, *old(self), v),
    {
        match op {
            Op::Lda => {
                self.accumulator = v;
                self.set_nz(v);
            },
            Op::Ldx => {
                self.index_x = v;
                self.set_nz(v);
            },
            Op::Ldy => {
                self.index_y = v;
                self.set_nz(v);
            },
            Op::Ora => {
                let r = self.accumulator | v;
                self.accumulator = r;
                self.set_nz(r);
            },
            Op::And => {
                let r = self.accumulator & v;
                self.accumulator = r;
                self.set_nz(r);
            },
            Op::Eor => {
                let r = self.accumulator ^ v;
                self.accumulator = r;
                self.set_nz(r);
            },
            Op::Adc => self.add_with_carry(v),
            Op::Sbc => self.subtract_with_carry(v),
            Op::Cmp => {
                let a = self.accumulator;
                self.compare(a, v);
            },
            Op::Cpx => {
                let x = self.index_x;
                self.compare(x, v);
            },
            Op::Cpy => {
                let y = self.index_y;
                self.compare(y, v);
            },
            _ => {
                self.status.zero_flag = self.accumulator & v == 0;
                self.status.negative_flag = v & 0x80 != 0;
                self.status.overflow_flag = v & 0x40 != 0;
            },
        }
    }

    fn apply_register_op(&mut self, op: Op)
        ensures
            *final(self) == apply_implied(op, *old(self)),
    {
        match op {
            Op::Tax => {
                self.index_x = self.accumulator;
                self.set_nz(self.accumulator);
            },
            Op::Tay => {
                self.index_y = self.accumulator;
                self.set_nz(self.accumulator);
            },
            Op::Txa => {
                self.accumulator = self.index_x;
                self.set_nz(self.index_x);
            },
            Op::Tya => {
                self.accumulator = self.index_y;
                self.set_nz(self.index_y);
            },
            Op::Txs => {
                self.stack_pointer = self.index_x;
            },
            Op::Tsx => {
                self.index_x = self.stack_pointer;
                self.set_nz(self.stack_pointer);
            },
            Op::Inx => {
                self.index_x = self.index_x.wrapping_add(1);
                self.set_nz(self.index_x);
            },
            Op::Dex => {
                self.index_x = self.index_x.wrapping_sub(1);
                self.set_nz(self.index_x);
            },
            Op::Iny => {
                self.index_y = self.index_y.wrapping_add(1);
                self.set_nz(self.index_y);
            },
            Op::Dey => {
                self.index_y = self.index_y.wrapping_sub(1);
                self.set_nz(self.index_y);
            },
            Op::Clc => {
                self.status.carry_flag = false;
            },
            Op::Sec => {
                self.status.carry_flag = true;
            },
            Op::Cli => {
                self.status.interrupt_disable_flag = false;
            },
            Op::Sei => {
                self.status.interrupt_disable_flag = true;
            },
            _ => {
                self.status.decimal_mode_flag = false;
            },
        }
    }

    fn run_read(&mut self, mem: &mut Bus, op: Op, mode: Mode, cycles: i8) -> (r: (Option<Effect>, u16))
        requires
            2 <= cycles <= 6,
        ensures
            (Outcome { cpu: *final(self), mem: final(mem)@, effect: r.0, operand: r.1 })
                == exec_read(*old(self), old(mem)@, op, mode, cycles),
    {
        let res = self.resolve_operand(mem, mode);
        let v = mem.read(res.addr);
        let pc = self.program_counter.wrapping_add(mode_length(mode));
        self.apply_operand(op, v);
        self.program_counter = pc;
        self.wait_cycles = if res.crossed { cycles + 1 } else { cycles };
        let operand = if mode == Mode::Immediate { v as u16 } else { res.base };
        (None, operand)
    }

    fn run_store(&mut self, mem: &mut Bus, op: Op, mode: Mode, cycles: i8) -> (r: (Option<Effect>, u16))
        ensures
            (Outcome { cpu: *final(self), mem: final(mem)@, effect: r.0, operand: r.1 })
                == exec_store(*old(self), old(mem)@, op, mode, cycles),
    {
        let res = self.resolve_operand(mem, mode);
        let value = match op {
            Op::Stx => self.index_x,
            Op::Sty => self.index_y,
            _ => self.accumulator,
        };
        mem.write(res.addr, value);
        self.program_counter = self.program_counter.wrapping_add(mode_length(mode));
        self.wait_cycles = cycles;
        (Some(Effect::WriteMem { addr: res.addr, value }), res.base)
    }

    fn run_modify(&mut self, mem: &mut Bus, op: Op, mode: Mode, cycles: i8) -> (r: (Option<Effect>, u16))
        ensures
            (Outcome { cpu: *final(self), mem: final(mem)@, effect: r.0, operand: r.1 })
                == exec_modify(*old(self), old(mem)@, op, mode, cycles),
    {
        let pc = self.program_counter.wrapping_add(mode_length(mode));
        if mode == Mode::Accumulator {
            let (v, carry) = modify(op, self.accumulator, self.status.carry_flag);
            self.accumulator = v;
            self.status.carry_flag = carry;
            self.set_nz(v);
            self.program_counter = pc;
            self.wait_cycles = cycles;
            (None, 0)
        } else {
            let res = self.resolve_operand(mem, mode);
            let operand = mem.read(res.addr);
            let (v, carry) = modify(op, operand, self.status.carry_flag);
            mem.write(res.addr, v);
            self.status.carry_flag = carry;
            self.set_nz(v);
            self.program_counter = pc;
            self.wait_cycles = cycles;
            (Some(Effect::WriteMem { addr: res.addr, value: v }), res.base)
        }
    }

    fn run_implied(&mut self, mem: &mut Bus, op: Op, cycles: i8) -> (r: (Option<Effect>, u16))
        ensures
            (Outcome { cpu: *final(self), mem: final(mem)@, effect: r.0, operand: r.1 })
                == exec_implied(*old(self), old(mem)@, op, cycles),
    {
        let pc = self.program_counter.wrapping_add(1);
        self.apply_register_op(op);
        self.program_counter = pc;
        self.wait_cycles = cycles;
        (None, 0)
    }

    fn run_stack(&mut self, mem: &mut Bus, op: Op, cycles: i8) -> (r: (Option<Effect>, u16))
        ensures
            (Outcome { cpu: *final(self), mem: final(mem)@, effect: r.0, operand: r.1 })
                == exec_stack(*old(self), old(mem)@, op, cycles),
    {
        let pc = self.program_counter.wrapping_add(1);
        match op {
            Op::Pha => {
                let a = self.accumulator;
                self.push8(mem, a);
            },
            Op::Php => {
                let p = self.status_register_value();
                self.push8(mem, p);
            },
            Op::Pla => {
                let v = self.pop8(mem);
                self.accumulator = v;
                self.set_nz(v);
            },
            _ => {
                let v = self.pop8(mem);
                self.set_status_register(v);
            },
        }
        self.program_counter = pc;
        self.wait_cycles = cycles;
        (None, 0)
    }

    fn run_jump(&mut self, mem: &mut Bus, op: Op, mode: Mode, cycles: i8) -> (r: (Option<Effect>, u16))
        ensures
            (Outcome { cpu: *final(self), mem: final(mem)@, effect: r.0, operand: r.1 })
                == exec_jump(*old(self), old(mem)@, op, mode, cycles),
    {
        match op {
            Op::Jmp => {
                let res = self.resolve_operand(mem, mode);
                self.program_counter = res.addr;
                self.wait_cycles = cycles;
                (None, res.base)
            },
            Op::Jsr => {
                let res = self.resolve_operand(mem, mode);
                let ret = self.program_counter.wrapping_add(2);
                self.push16(mem, ret);
                self.program_counter = res.addr;
                self.wait_cycles = cycles;
                (None, res.addr)
            },
            Op::Rts => {
                let w = self.pop16(mem);
                self.program_counter = w.wrapping_add(1);
                self.wait_cycles = cycles;
                (None, 0)
            },
            _ => {
                let p = self.pop8(mem);
                let w = self.pop16(mem);
                self.program_counter = w;
                self.set_status_register(p);
                self.wait_cycles = cycles;
                (None, 0)
            },
        }
    }

    fn run_branch(&mut self, mem: &mut Bus, op: Op, cycles: i8) -> (r: (Option<Effect>, u16))
        requires
            2 <= cycles <= 6,
        ensures
            (Outcome { cpu: *final(self), mem: final(mem)@, effect: r.0, operand: r.1 })
                == exec_branch(*old(self), old(mem)@, op, cycles),
    {
        let offset = mem.read(self.program_counter.wrapping_add(1));
        let next = self.program_counter.wrapping_add(2);
        let target = next.wrapping_add_signed(offset as i8 as i16);
        if taken(op, self.status) {
            self.program_counter = target;
            self.wait_cycles = if same_page(next, target) { cycles + 1 } else { cycles + 2 };
        } else {
            self.program_counter = next;
            self.wait_cycles = cycles;
        }
        (None, target)
    }

    fn execute(&mut self, mem: &mut Bus, d: Decoded) -> (r: (Option<Effect>, u16))
        requires
            2 <= d.cycles <= 6,
        ensures
            (Outcome { cpu: *final(self), mem: final(mem)@, effect: r.0, operand: r.1 })
                == execute(*old(self), old(mem)@, d),
    {
        match d.op {
            Op::Lda | Op::Ldx | Op::Ldy | Op::Ora | Op::And | Op::Eor | Op::Adc | Op::Sbc
            | Op::Cmp | Op::Cpx | Op::Cpy | Op::Bit => self.run_read(mem, d.op, d.mode, d.cycles),
            Op::Sta | Op::Stx | Op::Sty => self.run_store(mem, d.op, d.mode, d.cycles),
            Op::Asl | Op::Lsr | Op::Rol | Op::Ror | Op::Inc | Op::Dec => self.run_modify(
                mem,
                d.op,
                d.mode,
                d.cycles,
            ),
            Op::Pha | Op::Php | Op::Pla | Op::Plp => self.run_stack(mem, d.op, d.cycles),
            Op::Jmp | Op::Jsr | Op::Rts | Op::Rti => self.run_jump(mem, d.op, d.mode, d.cycles),
            Op::Bpl | Op::Bmi | Op::Bvs | Op::Bcc | Op::Bcs | Op::Bne | Op::Beq => self.run_branch(
                mem,
                d.op,
                d.cycles,
            ),
            _ => self.run_implied(mem, d.op, d.cycles),
        }
    }

    /// Fetches, decodes and executes the instruction at the program counter.
    pub fn run_instruction(&mut self, mem: &mut Bus) -> (r: Result<(Instruction, Option<Effect>), CpuError>)
        ensures
            (*final(self), final(mem)@, r) == step(*old(self), old(mem)@),
            r is Ok ==> final(self).wait_cycles >= 2,
    {
        let pc = self.program_counter;
        let opcode = mem.read(pc);
        match decode_opcode(opcode) {
            None => Err(CpuError::UnknownOpcode { opcode, pc }),
            Some(d) => {
                let (effect, operand) = self.execute(mem, d);
                Ok((Instruction { op: d.op, mode: d.mode, operand }, effect))
            },
        }
    }

    fn enter_irq(&mut self, mem: &mut Bus)
        ensures
            (*final(self), final(mem)@) == irq_entry(*old(self), old(mem)@),
    {
        let pc = self.program_counter;
        let pushed = status_value(StatusRegister { break_flag: false, ..self.status });
        let status = self.status;
        self.push16(mem, pc);
        self.push8(mem, pushed);
        self.program_counter = fetch_word(mem, IRQ_VECTOR_ADDR);
        self.status = StatusRegister { interrupt_disable_flag: true, ..status };
        self.wait_cycles = IRQ_CYCLES;
    }

    /// Advances the processor by one system cycle with the IRQ line at level
    /// `irq`. Returns the instruction executed on this cycle, if any, and its
    /// side effect.
    pub fn tick(&mut self, mem: &mut Bus, irq: bool) -> (r: Result<(Option<Instruction>, Option<Effect>), CpuError>)
        ensures
            (*final(self), final(mem)@, r) == tick_spec(*old(self), old(mem)@, irq),
    {
        self.irq = irq;
        if self.wait_cycles > 0 {
            self.wait_cycles = self.wait_cycles - 1;
        }
        if self.wait_cycles > 0 {
            Ok((None, None))
        } else if irq && !self.status.interrupt_disable_flag {
            self.enter_irq(mem);
            Ok((None, None))
        } else {
            match self.run_instruction(mem) {
                Ok((i, e)) => Ok((Some(i), e)),
                Err(e) => Err(e),
            }
        }
    }
}

} // verus!

verus! {

/// A little-endian word is its low byte plus 256 times its high byte.
pub proof fn lemma_word_value(lo: u8, hi: u8)
    ensures
        word(lo, hi) as int == lo as int + 256 * (hi as int),
{
    assert((((hi as u16) << 8u16) | (lo as u16)) as int == lo as int + 256 * (hi as int))
        by (bit_vector);
}

/// A word split into its high and low bytes is rebuilt by `word`.
proof fn lemma_word_split(w: u16)
    ensures
        word((w & 0xFF) as u8, (w >> 8u16) as u8) == w,
{
    assert((((((w >> 8u16) as u8) as u16) << 8u16) | (((w & 0xFF) as u8) as u16)) == w)
        by (bit_vector);
}

/// Reset law: after a reset the program counter holds the little-endian word
/// stored at 0xFFFC/0xFFFD, and the cycle count is zero.
pub proof fn lemma_reset_vector(c: Mos6510, m: BusModel)
    requires
        m.ram.len() == 65536,
    ensures
        reset_spec(c, m).0.program_counter as int == m.ram[0xFFFC] as int + 256 * (
        m.ram[0xFFFD] as int),
        reset_spec(c, m).0.wait_cycles == 0,
{
    lemma_word_value(m.ram[0xFFFC], m.ram[0xFFFD]);
}

/// Stack page addresses are plain RAM.
proof fn lemma_stack_is_ram(sp: u8)
    ensures
        0x100 <= stack_addr(sp) < 0x200,
        crate::memory::is_ram(stack_addr(sp)),
{
}

/// Subroutine law: when `JSR` is executed and the subroutine ends in `RTS`
/// with the stack pointer as `JSR` left it and the two bytes `JSR` pushed
/// still in place, control returns to the instruction right after the `JSR`
/// (three bytes on), with the stack pointer it had before the call.
pub proof fn lemma_jsr_rts(c: Mos6510, m: BusModel, c2: Mos6510, m2: BusModel)
    requires
        m.ram.len() == 65536,
        m2.ram.len() == 65536,
        bus_read_value(m, c.program_counter) == 0x20,
        c2.stack_pointer == step(c, m).0.stack_pointer,
        m2.ram[stack_addr(c.stack_pointer) as int] == step(c, m).1.ram[stack_addr(
            c.stack_pointer,
        ) as int],
        m2.ram[stack_addr(c.stack_pointer.wrapping_sub(1)) as int] == step(c, m).1.ram[stack_addr(
            c.stack_pointer.wrapping_sub(1),
        ) as int],
        bus_read_value(m2, c2.program_counter) == 0x60,
    ensures
        step(c2, m2).0.program_counter == c.program_counter.wrapping_add(3),
        step(c2, m2).0.stack_pointer == c.stack_pointer,
{
    let sp = c.stack_pointer;
    let sp1 = sp.wrapping_sub(1);
    let ret = c.program_counter.wrapping_add(2);
    lemma_stack_is_ram(sp);
    lemma_stack_is_ram(sp1);
    assert(stack_addr(sp) != stack_addr(sp1));
    let (opcode, m1) = rd(m, c.program_counter);
    let (r, ma) = resolve(c, m1, Mode::Absolute);
    assert(ma.ram == m.ram);
    let (ca, mb) = push8_spec(c, ma, (ret >> 8u16) as u8);
    let (cb, mc) = push8_spec(ca, mb, (ret & 0xFF) as u8);
    assert(mc.ram[stack_addr(sp) as int] == (ret >> 8u16) as u8);
    assert(mc.ram[stack_addr(sp1) as int] == (ret & 0xFF) as u8);
    assert(step(c, m).1 == mc);
    assert(cb.stack_pointer == sp1.wrapping_sub(1));
    let (o2, n1) = rd(m2, c2.program_counter);
    assert(n1.ram == m2.ram);
    assert(c2.stack_pointer.wrapping_add(1) == sp1);
    assert(sp1.wrapping_add(1) == sp);
    lemma_word_split(ret);
    assert(ret.wrapping_add(1) == c.program_counter.wrapping_add(3));
}

/// The processor and bus after pushing `vals`, first element first.
pub open spec fn push_all(c: Mos6510, m: BusModel, vals: Seq<u8>) -> (Mos6510, BusModel)
    decreases vals.len(),
{
    if vals.len() == 0 {
        (c, m)
    } else {
        let (c1, m1) = push8_spec(c, m, vals[0]);
        push_all(c1, m1, vals.drop_first())
    }
}

/// The bytes pulled by `n` pops, in pull order, with the processor and bus
/// afterwards.
pub open spec fn pop_all(c: Mos6510, m: BusModel, n: nat) -> (Seq<u8>, Mos6510, BusModel)
    decreases n,
{
    if n == 0 {
        (Seq::empty(), c, m)
    } else {
        let (v, c1, m1) = pop8_spec(c, m);
        let (vs, c2, m2) = pop_all(c1, m1, (n - 1) as nat);
        (seq![v] + vs, c2, m2)
    }
}

/// How many pushes before the stack slot at `addr` was written, counting
/// from a stack pointer `sp`.
pub open spec fn slot_index(sp: u8, addr: int) -> int {
    (sp - (addr - 0x100)) % 256
}

/// Whether `addr` is one of the `n` stack slots that pushes from `sp` fill.
pub open spec fn is_pushed_slot(sp: u8, n: nat, addr: int) -> bool {
    0x100 <= addr < 0x200 && slot_index(sp, addr) < n
}

proof fn lemma_wrapping_sub_one(sp: u8)
    ensures
        sp.wrapping_sub(1) as int == (sp - 1) % 256,
        stack_addr(sp) as int == 0x100 + sp,
{
}

proof fn lemma_push_all(c: Mos6510, m: BusModel, vals: Seq<u8>)
    requires
        m.ram.len() == 65536,
        vals.len() <= 256,
    ensures
        push_all(c, m, vals).0 == (Mos6510 {
            stack_pointer: ((c.stack_pointer - vals.len()) % 256) as u8,
            ..c
        }),
        push_all(c, m, vals).1 == (BusModel { ram: push_all(c, m, vals).1.ram, ..m }),
        push_all(c, m, vals).1.ram.len() == 65536,
        forall|a: int|
            0 <= a < 65536 ==> #[trigger] push_all(c, m, vals).1.ram[a] == if is_pushed_slot(
                c.stack_pointer,
                vals.len(),
                a,
            ) {
                vals[slot_index(c.stack_pointer, a)]
            } else {
                m.ram[a]
            },
    decreases vals.len(),
{
    let sp = c.stack_pointer;
    if vals.len() > 0 {
        lemma_wrapping_sub_one(sp);
        lemma_stack_is_ram(sp);
        let (c1, m1) = push8_spec(c, m, vals[0]);
        let rest = vals.drop_first();
        assert(m1 == (BusModel { ram: m.ram.update(0x100 + sp, vals[0]), ..m }));
        lemma_push_all(c1, m1, rest);
        let sp1 = c1.stack_pointer;
        assert(sp1 as int == (sp - 1) % 256);
        assert forall|a: int| 0 <= a < 65536 implies #[trigger] push_all(c, m, vals).1.ram[a]
            == if is_pushed_slot(sp, vals.len(), a) {
            vals[slot_index(sp, a)]
        } else {
            m.ram[a]
        } by {
            if 0x100 <= a < 0x200 {
                let k = slot_index(sp, a);
                let k1 = slot_index(sp1, a);
                assert(0 <= k < 256);
                if a == 0x100 + sp {
                    assert(k == 0);
                    assert(k1 == 255);
                } else {
                    assert(k1 == k - 1);
                }
            }
        }
        assert((sp1 - rest.len()) % 256 == (sp - vals.len()) % 256);
    } else {
        assert(((sp - 0) % 256) as u8 == sp);
        assert(m == (BusModel { ram: m.ram, ..m }));
    }
}

proof fn lemma_pop_all(c: Mos6510, m: BusModel, n: nat)
    requires
        m.ram.len() == 65536,
    ensures
        pop_all(c, m, n).2 == m,
        pop_all(c, m, n).1 == (Mos6510 { stack_pointer: ((c.stack_pointer + n) % 256) as u8, ..c }),
        pop_all(c, m, n).0.len() == n,
        forall|j: int|
            0 <= j < n ==> #[trigger] pop_all(c, m, n).0[j] == m.ram[0x100 + (c.stack_pointer + 1
                + j) % 256],
    decreases n,
{
    let sp = c.stack_pointer;
    if n > 0 {
        let (v, c1, m1) = pop8_spec(c, m);
        let sp1 = sp.wrapping_add(1);
        lemma_stack_is_ram(sp1);
        assert(sp1 as int == (sp + 1) % 256);
        assert(m1 == m);
        assert(v == m.ram[0x100 + (sp + 1) % 256]);
        lemma_pop_all(c1, m1, (n - 1) as nat);
        let out = pop_all(c, m, n).0;
        assert forall|j: int| 0 <= j < n implies #[trigger] out[j] == m.ram[0x100 + (sp + 1 + j)
            % 256] by {
            if j > 0 {
                assert(out[j] == pop_all(c1, m1, (n - 1) as nat).0[j - 1]);
                assert((sp1 + 1 + (j - 1)) % 256 == (sp + 1 + j) % 256);
            }
        }
        assert((sp1 + (n - 1)) % 256 == (sp + n) % 256);
    } else {
        assert(((sp + 0) % 256) as u8 == sp);
    }
}

proof fn lemma_slot_arith(sp: u8, n: int, j: int)
    requires
        0 <= n <= 256,
        0 <= j < n,
    ensures
        slot_index(sp, 0x100 + (((sp - n) % 256) + 1 + j) % 256) == n - 1 - j,
        0x100 <= 0x100 + (((sp - n) % 256) + 1 + j) % 256 < 0x200,
{
}

proof fn lemma_pointer_back(sp: u8, n: int)
    requires
        0 <= n <= 256,
    ensures
        (((sp - n) % 256) + n) % 256 == sp,
{
}

/// Stack law: pushing a sequence of up to 256 bytes from stack pointer `s`
/// and pulling as many again gives the bytes back in reverse order, returns
/// the stack pointer to `s`, and leaves every address outside the slots the
/// pushes filled as it was.
pub proof fn lemma_stack_discipline(c: Mos6510, m: BusModel, vals: Seq<u8>)
    requires
        m.ram.len() == 65536,
        vals.len() <= 256,
    ensures
        ({
            let (c1, m1) = push_all(c, m, vals);
            let (out, c2, m2) = pop_all(c1, m1, vals.len());
            &&& out == vals.reverse()
            &&& c2.stack_pointer == c.stack_pointer
            &&& forall|a: int|
                0 <= a < 65536 && !is_pushed_slot(c.stack_pointer, vals.len(), a)
                    ==> #[trigger] m2.ram[a] == m.ram[a]
        }),
{
    let sp = c.stack_pointer;
    let n = vals.len();
    lemma_push_all(c, m, vals);
    let (c1, m1) = push_all(c, m, vals);
    lemma_pop_all(c1, m1, n);
    let (out, c2, m2) = pop_all(c1, m1, n);
    let sp1 = c1.stack_pointer;
    assert(sp1 as int == (sp - n) % 256);
    assert forall|j: int| 0 <= j < n implies #[trigger] out[j] == vals.reverse()[j] by {
        lemma_slot_arith(sp, n as int, j);
        let a = 0x100 + (sp1 + 1 + j) % 256;
        assert(out[j] == m1.ram[a]);
        assert(is_pushed_slot(sp, n, a));
    }
    assert(out =~= vals.reverse());
    lemma_pointer_back(sp, n as int);
}

/// The byte an instruction's N and Z flags derive from, where the
/// instruction stores it: the register it loads, transfers, computes,
/// increments or decrements, or the byte it writes back to memory.
pub open spec fn stored_result(i: Instruction, c: Mos6510, e: Option<Effect>) -> Option<u8> {
    match i.op {
        Op::Lda | Op::Pla | Op::Txa | Op::Tya | Op::Ora | Op::And | Op::Eor | Op::Adc
        | Op::Sbc => Some(c.accumulator),
        Op::Ldx | Op::Tax | Op::Tsx | Op::Inx | Op::Dex => Some(c.index_x),
        Op::Ldy | Op::Tay | Op::Iny | Op::Dey => Some(c.index_y),
        Op::Asl | Op::Lsr | Op::Rol | Op::Ror | Op::Inc | Op::Dec => {
            if i.mode == Mode::Accumulator {
                Some(c.accumulator)
            } else {
                match e {
                    Some(Effect::WriteMem { addr, value }) => Some(value),
                    None => None,
                }
            }
        },
        _ => None,
    }
}

/// The N and Z flags derived from a byte.
pub open spec fn flags_match(s: StatusRegister, v: u8) -> bool {
    s.zero_flag == (v == 0) && s.negative_flag == (v & 0x80 != 0)
}

/// The flag law for one instruction group, given what it left behind.
pub open spec fn outcome_flags_match(op: Op, mode: Mode, o: Outcome) -> bool {
    stored_result(Instruction { op, mode, operand: o.operand }, o.cpu, o.effect) matches Some(v)
        ==> flags_match(o.cpu.status, v)
}

proof fn lemma_read_flags(c: Mos6510, m: BusModel, op: Op, mode: Mode, cycles: i8)
    requires
        op == Op::Lda || op == Op::Ldx || op == Op::Ldy || op == Op::Ora || op == Op::And || op
            == Op::Eor || op == Op::Adc || op == Op::Sbc || op == Op::Cmp || op == Op::Cpx || op
            == Op::Cpy || op == Op::Bit,
    ensures
        outcome_flags_match(op, mode, exec_read(c, m, op, mode, cycles)),
{
}

proof fn lemma_modify_flags(c: Mos6510, m: BusModel, op: Op, mode: Mode, cycles: i8)
    requires
        op == Op::Asl || op == Op::Lsr || op == Op::Rol || op == Op::Ror || op == Op::Inc || op
            == Op::Dec,
    ensures
        outcome_flags_match(op, mode, exec_modify(c, m, op, mode, cycles)),
{
}

proof fn lemma_stack_flags(c: Mos6510, m: BusModel, op: Op, mode: Mode, cycles: i8)
    requires
        op == Op::Pha || op == Op::Php || op == Op::Pla || op == Op::Plp,
    ensures
        outcome_flags_match(op, mode, exec_stack(c, m, op, cycles)),
{
}

proof fn lemma_implied_flags(c: Mos6510, m: BusModel, op: Op, mode: Mode, cycles: i8)
    requires
        op == Op::Tax || op == Op::Tay || op == Op::Txa || op == Op::Tya || op == Op::Txs || op
            == Op::Tsx || op == Op::Inx || op == Op::Dex || op == Op::Iny || op == Op::Dey || op
            == Op::Clc || op == Op::Sec || op == Op::Cli || op == Op::Sei || op == Op::Cld,
    ensures
        outcome_flags_match(op, mode, exec_implied(c, m, op, cycles)),
{
}

/// Flag law: right after an instruction that stores its result byte `r`,
/// Z == (r == 0) and N == (bit 7 of r).
pub proof fn lemma_flag_derivation(c: Mos6510, m: BusModel)
    ensures
        ({
            let (c1, m1, r) = step(c, m);
            r matches Ok((i, e)) ==> (stored_result(i, c1, e) matches Some(v) ==> flags_match(
                c1.status,
                v,
            ))
        }),
{
    let (opcode, m1) = rd(m, c.program_counter);
    if let Some(d) = decode(opcode) {
        let o = execute(c, m1, d);
        match d.op {
            Op::Lda | Op::Ldx | Op::Ldy | Op::Ora | Op::And | Op::Eor | Op::Adc | Op::Sbc
            | Op::Cmp | Op::Cpx | Op::Cpy | Op::Bit => {
                lemma_read_flags(c, m1, d.op, d.mode, d.cycles);
            },
            Op::Asl | Op::Lsr | Op::Rol | Op::Ror | Op::Inc | Op::Dec => {
                lemma_modify_flags(c, m1, d.op, d.mode, d.cycles);
            },
            Op::Pha | Op::Php | Op::Pla | Op::Plp => {
                lemma_stack_flags(c, m1, d.op, d.mode, d.cycles);
            },
            Op::Sta | Op::Stx | Op::Sty | Op::Jmp | Op::Jsr | Op::Rts | Op::Rti | Op::Bpl
            | Op::Bmi | Op::Bvs | Op::Bcc | Op::Bcs | Op::Bne | Op::Beq => {},
            _ => {
                lemma_implied_flags(c, m1, d.op, d.mode, d.cycles);
            },
        }
        assert(outcome_flags_match(d.op, d.mode, o));
    }
}

} // verus!
