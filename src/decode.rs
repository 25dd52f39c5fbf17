//! Decoding the byte stream at `PC` into an instruction, through the
//! unprefixed table and the `0xED`, `0xDD` and `0xFD` tables.
use vstd::prelude::*;

use crate::cpu::CPU;
use crate::flags::signed_value;
use crate::registers::{join, pair_value, ID_HL, ID_IX, ID_IY};

verus! {

/// The eight accumulator operations of the arithmetic and logic group.
#[derive(Clone, Copy, Debug, PartialEq, Eq, Structural)]
pub enum AluOp {
    Add,
    Adc,
    Sub,
    Sbc,
    And,
    Xor,
    Or,
    Cp,
}

/// An 8-bit operand: a register, an immediate, the byte at `HL`, `IX + d`
/// or `IY + d`, or a byte half of `IX` or `IY` (which index prefixes put in
/// the place of `H` and `L`).
#[derive(Clone, Copy, Debug, PartialEq, Eq, Structural)]
pub enum Operand {
    Reg(u8),
    Imm(u8),
    AtHl,
    AtIx(i8),
    AtIy(i8),
    IxHigh,
    IxLow,
    IyHigh,
    IyLow,
}

/// A decoded instruction with its operands. Register operands use the
/// identifier spaces of `registers`; `i8` operands are index displacements.
#[derive(Clone, Copy, Debug, PartialEq, Eq, Structural)]
pub enum Instr {
    LdRR(u8, u8),
    LdRN(u8, u8),
    LdRHl(u8),
    LdRIx(u8, i8),
    LdRIy(u8, i8),
    LdHlR(u8),
    LdHlN(u8),
    LdIxR(u8, i8),
    LdIyR(u8, i8),
    LdIxN(i8, u8),
    LdIyN(i8, u8),
    LdABc,
    LdADe,
    LdANn(u16),
    LdBcA,
    LdDeA,
    LdNnA(u16),
    LdAI,
    LdAR,
    LdIA,
    LdRA,
    LdDdNn(u8, u16),
    LdIxNn(u16),
    LdIyNn(u16),
    LdHlAddrNn(u16),
    LdDdAddrNn(u8, u16),
    LdIxAddrNn(u16),
    LdIyAddrNn(u16),
    LdAddrNnHl(u16),
    LdAddrNnDd(u8, u16),
    LdAddrNnIx(u16),
    LdAddrNnIy(u16),
    LdSpHl,
    LdSpIx,
    LdSpIy,
    Nop,
    Halt,
    Di,
    Ei,
    Im(u8),
    ExAf,
    Exx,
    ExDeHl,
    Jp(u16),
    JpHl,
    JpIx,
    JpIy,
    Alu(AluOp, Operand),
    Inc(Operand),
    Dec(Operand),
    Neg,
    Push(u8),
    Pop(u8),
    PushIx,
    PushIy,
    PopIx,
    PopIy,
    JpCc(u8, u16),
    Jr(i8),
    JrCc(u8, i8),
    Djnz(i8),
    Call(u16),
    CallCc(u8, u16),
    Ret,
    RetCc(u8),
    Rst(u8),
    Rot(u8, Operand),
    BitTest(u8, Operand),
    ResBit(u8, Operand),
    SetBit(u8, Operand),
    RotA(u8),
    Cpl,
    Scf,
    Ccf,
    Daa,
    Inc16(u8),
    Dec16(u8),
    Add16(u8, u8),
    AdcHl(u8),
    SbcHl(u8),
    ExSp(u8),
    Retn,
    Ldi,
    Ldd,
    Ldir,
    Lddr,
    LdHalf(Operand, Operand),
    CbCopy(u8, u8, Operand, u8),
    Cpi,
    Cpd,
    Cpir,
    Cpdr,
    Rld,
    Rrd,
    /// An opcode of the `0xED` table that the processor defines as doing
    /// nothing: two bytes, eight T-states.
    EdNop,
}

/// The operation selected by the three `ooo` bits of an arithmetic opcode.
pub open spec fn alu_op(k: u8) -> AluOp {
    if k == 0 {
        AluOp::Add
    } else if k == 1 {
        AluOp::Adc
    } else if k == 2 {
        AluOp::Sub
    } else if k == 3 {
        AluOp::Sbc
    } else if k == 4 {
        AluOp::And
    } else if k == 5 {
        AluOp::Xor
    } else if k == 6 {
        AluOp::Or
    } else {
        AluOp::Cp
    }
}

/// An instruction of the `0xCB` table: `group` is its top two bits, `k`
/// the three bits above the operand field.
pub open spec fn cb_instr(group: u8, k: u8, o: Operand) -> Instr {
    if group == 0 {
        Instr::Rot(k, o)
    } else if group == 1 {
        Instr::BitTest(k, o)
    } else if group == 2 {
        Instr::ResBit(k, o)
    } else {
        Instr::SetBit(k, o)
    }
}

fn cb_instr_of(group: u8, k: u8, o: Operand) -> (ins: Instr)
    ensures
        ins == cb_instr(group, k, o),
{
    match group {
        0 => Instr::Rot(k, o),
        1 => Instr::BitTest(k, o),
        2 => Instr::ResBit(k, o),
        _ => Instr::SetBit(k, o),
    }
}

/// The operand selected by a three-bit `r` field, where `0b110` means `(HL)`.
pub open spec fn reg_or_hl(x: u8) -> Operand {
    if x == 6 {
        Operand::AtHl
    } else {
        Operand::Reg(x)
    }
}

fn alu_op_of(k: u8) -> (op: AluOp)
    ensures
        op == alu_op(k),
{
    match k {
        0 => AluOp::Add,
        1 => AluOp::Adc,
        2 => AluOp::Sub,
        3 => AluOp::Sbc,
        4 => AluOp::And,
        5 => AluOp::Xor,
        6 => AluOp::Or,
        _ => AluOp::Cp,
    }
}

fn reg_or_hl_of(x: u8) -> (o: Operand)
    ensures
        o == reg_or_hl(x),
{
    if x == 6 {
        Operand::AtHl
    } else {
        Operand::Reg(x)
    }
}

/// The byte `k` places after `pc`, wrapping at 64KB.
pub open spec fn fetch(mem: Seq<u8>, pc: u16, k: int) -> u8 {
    mem[(pc as int + k) % 65536]
}

/// The little-endian word at `k` and `k + 1` places after `pc`.
pub open spec fn fetch_word(mem: Seq<u8>, pc: u16, k: int) -> u16 {
    pair_value(fetch(mem, pc, k + 1), fetch(mem, pc, k))
}

/// The displacement byte `k` places after `pc`, read as signed.
pub open spec fn fetch_disp(mem: Seq<u8>, pc: u16, k: int) -> i8 {
    signed_value(fetch(mem, pc, k)) as i8
}

/// Whether the second byte of an `0xED` instruction is one of the opcodes
/// the processor runs as a no-op.
pub open spec fn ed_noop(op: u8) -> bool {
    ||| op < 0x40
    ||| op >= 0xc0
    ||| op == 0x77 || op == 0x7f
    ||| (0x80 <= op < 0xc0 && (op < 0xa0 || op % 8 >= 4))
}

/// The operand that the three-bit `r` field `x` selects under an index
/// prefix: `H` and `L` become the halves of `IX` (`ix`) or `IY`.
pub open spec fn half_or_reg(x: u8, ix: bool) -> Operand {
    if x == 4 {
        if ix {
            Operand::IxHigh
        } else {
            Operand::IyHigh
        }
    } else if x == 5 {
        if ix {
            Operand::IxLow
        } else {
            Operand::IyLow
        }
    } else {
        Operand::Reg(x)
    }
}

fn half_or_reg_of(x: u8, ix: bool) -> (o: Operand)
    ensures
        o == half_or_reg(x, ix),
{
    if x == 4 {
        if ix {
            Operand::IxHigh
        } else {
            Operand::IyHigh
        }
    } else if x == 5 {
        if ix {
            Operand::IxLow
        } else {
            Operand::IyLow
        }
    } else {
        Operand::Reg(x)
    }
}

/// The instruction at `pc`, or `None` for the input and output group, which
/// this core does not provide.
pub open spec fn decode(mem: Seq<u8>, pc: u16) -> Option<Instr> {
    let op = fetch(mem, pc, 0);
    if op == 0xdd {
        decode_indexed(mem, pc, true)
    } else if op == 0xfd {
        decode_indexed(mem, pc, false)
    } else if op == 0xed {
        decode_ed(mem, pc)
    } else if op == 0xcb {
        let op2 = fetch(mem, pc, 1);
        Some(cb_instr(op2 / 64, ((op2 / 8) % 8) as u8, reg_or_hl((op2 % 8) as u8)))
    } else {
        decode_main(mem, pc, op)
    }
}

/// The unprefixed table; `op` is the byte at `pc`.
pub open spec fn decode_main(mem: Seq<u8>, pc: u16, op: u8) -> Option<Instr> {
    let n = fetch(mem, pc, 1);
    let nn = fetch_word(mem, pc, 1);
    if op == 0x76 {
        Some(Instr::Halt)
    } else if 0x40 <= op < 0x80 {
        let dst = ((op / 8) % 8) as u8;
        let src = (op % 8) as u8;
        if src == 6 {
            Some(Instr::LdRHl(dst))
        } else if dst == 6 {
            Some(Instr::LdHlR(src))
        } else {
            Some(Instr::LdRR(dst, src))
        }
    } else if op < 0x40 && op % 8 == 6 {
        if op / 8 == 6 {
            Some(Instr::LdHlN(n))
        } else {
            Some(Instr::LdRN((op / 8) as u8, n))
        }
    } else if op < 0x40 && op % 16 == 1 {
        Some(Instr::LdDdNn((op / 16) as u8, nn))
    } else if 0x80 <= op < 0xc0 {
        Some(Instr::Alu(alu_op(((op - 0x80) / 8) as u8), reg_or_hl((op % 8) as u8)))
    } else if op < 0x40 && op % 8 == 4 {
        Some(Instr::Inc(reg_or_hl((op / 8) as u8)))
    } else if op < 0x40 && op % 8 == 5 {
        Some(Instr::Dec(reg_or_hl((op / 8) as u8)))
    } else if op >= 0xc0 && op % 8 == 6 {
        Some(Instr::Alu(alu_op(((op - 0xc0) / 8) as u8), Operand::Imm(n)))
    } else if op >= 0xc0 && op % 16 == 5 {
        Some(Instr::Push(((op - 0xc0) / 16) as u8))
    } else if op >= 0xc0 && op % 16 == 1 {
        Some(Instr::Pop(((op - 0xc0) / 16) as u8))
    } else if op >= 0xc0 && op % 8 == 2 {
        Some(Instr::JpCc(((op - 0xc0) / 8) as u8, nn))
    } else if op >= 0xc0 && op % 8 == 4 {
        Some(Instr::CallCc(((op - 0xc0) / 8) as u8, nn))
    } else if op >= 0xc0 && op % 8 == 0 {
        Some(Instr::RetCc(((op - 0xc0) / 8) as u8))
    } else if op >= 0xc0 && op % 8 == 7 {
        Some(Instr::Rst((op - 0xc7) as u8))
    } else if op == 0x18 {
        Some(Instr::Jr(fetch_disp(mem, pc, 1)))
    } else if op == 0x20 || op == 0x28 || op == 0x30 || op == 0x38 {
        Some(Instr::JrCc(((op - 0x20) / 8) as u8, fetch_disp(mem, pc, 1)))
    } else if op == 0x10 {
        Some(Instr::Djnz(fetch_disp(mem, pc, 1)))
    } else if op == 0xcd {
        Some(Instr::Call(nn))
    } else if op == 0xc9 {
        Some(Instr::Ret)
    } else if op < 0x20 && op % 8 == 7 {
        Some(Instr::RotA((op / 8) as u8))
    } else if op < 0x40 && op % 16 == 3 {
        Some(Instr::Inc16((op / 16) as u8))
    } else if op < 0x40 && op % 16 == 0xb {
        Some(Instr::Dec16((op / 16) as u8))
    } else if op < 0x40 && op % 16 == 9 {
        Some(Instr::Add16(ID_HL, (op / 16) as u8))
    } else if op == 0x27 {
        Some(Instr::Daa)
    } else if op == 0x2f {
        Some(Instr::Cpl)
    } else if op == 0x37 {
        Some(Instr::Scf)
    } else if op == 0x3f {
        Some(Instr::Ccf)
    } else if op == 0xe3 {
        Some(Instr::ExSp(ID_HL))
    } else if op == 0x00 {
        Some(Instr::Nop)
    } else if op == 0x02 {
        Some(Instr::LdBcA)
    } else if op == 0x12 {
        Some(Instr::LdDeA)
    } else if op == 0x0a {
        Some(Instr::LdABc)
    } else if op == 0x1a {
        Some(Instr::LdADe)
    } else if op == 0x22 {
        Some(Instr::LdAddrNnHl(nn))
    } else if op == 0x2a {
        Some(Instr::LdHlAddrNn(nn))
    } else if op == 0x32 {
        Some(Instr::LdNnA(nn))
    } else if op == 0x3a {
        Some(Instr::LdANn(nn))
    } else if op == 0x08 {
        Some(Instr::ExAf)
    } else if op == 0xd9 {
        Some(Instr::Exx)
    } else if op == 0xeb {
        Some(Instr::ExDeHl)
    } else if op == 0xf3 {
        Some(Instr::Di)
    } else if op == 0xfb {
        Some(Instr::Ei)
    } else if op == 0xc3 {
        Some(Instr::Jp(nn))
    } else if op == 0xe9 {
        Some(Instr::JpHl)
    } else if op == 0xf9 {
        Some(Instr::LdSpHl)
    } else {
        None
    }
}

/// The `0xED` table.
pub open spec fn decode_ed(mem: Seq<u8>, pc: u16) -> Option<Instr> {
    let op = fetch(mem, pc, 1);
    let nn = fetch_word(mem, pc, 2);
    if op == 0x47 {
        Some(Instr::LdIA)
    } else if op == 0x4f {
        Some(Instr::LdRA)
    } else if op == 0x57 {
        Some(Instr::LdAI)
    } else if op == 0x5f {
        Some(Instr::LdAR)
    } else if ed_noop(op) {
        Some(Instr::EdNop)
    } else if 0x40 <= op < 0x80 && op % 8 == 4 {
        Some(Instr::Neg)
    } else if 0x40 <= op < 0x80 && op % 8 == 5 {
        Some(Instr::Retn)
    } else if op == 0xa0 {
        Some(Instr::Ldi)
    } else if op == 0xa8 {
        Some(Instr::Ldd)
    } else if op == 0xb0 {
        Some(Instr::Ldir)
    } else if op == 0xb8 {
        Some(Instr::Lddr)
    } else if op == 0xa1 {
        Some(Instr::Cpi)
    } else if op == 0xa9 {
        Some(Instr::Cpd)
    } else if op == 0xb1 {
        Some(Instr::Cpir)
    } else if op == 0xb9 {
        Some(Instr::Cpdr)
    } else if op == 0x6f {
        Some(Instr::Rld)
    } else if op == 0x67 {
        Some(Instr::Rrd)
    } else if 0x40 <= op < 0x80 && op % 16 == 2 {
        Some(Instr::SbcHl(((op - 0x40) / 16) as u8))
    } else if 0x40 <= op < 0x80 && op % 16 == 0xa {
        Some(Instr::AdcHl(((op - 0x40) / 16) as u8))
    } else if 0x40 <= op < 0x80 && op % 16 == 3 {
        Some(Instr::LdAddrNnDd(((op - 0x40) / 16) as u8, nn))
    } else if 0x40 <= op < 0x80 && op % 16 == 0xb {
        Some(Instr::LdDdAddrNn(((op - 0x40) / 16) as u8, nn))
    } else if op == 0x46 || op == 0x4e || op == 0x66 || op == 0x6e {
        Some(Instr::Im(0))
    } else if op == 0x56 || op == 0x76 {
        Some(Instr::Im(1))
    } else if op == 0x5e || op == 0x7e {
        Some(Instr::Im(2))
    } else {
        None
    }
}

/// The `0xDD` (`ix`) and `0xFD` tables: the displacement byte comes right
/// after the opcode, before any immediate.
pub open spec fn decode_indexed(mem: Seq<u8>, pc: u16, ix: bool) -> Option<Instr> {
    let op = fetch(mem, pc, 1);
    let d = fetch_disp(mem, pc, 2);
    let nn = fetch_word(mem, pc, 2);
    let at = if ix {
        Operand::AtIx(d)
    } else {
        Operand::AtIy(d)
    };
    let id = if ix {
        ID_IX
    } else {
        ID_IY
    };
    if op == 0x23 {
        Some(Instr::Inc16(id))
    } else if op == 0x2b {
        Some(Instr::Dec16(id))
    } else if op < 0x40 && op % 16 == 9 {
        Some(Instr::Add16(id, if op == 0x29 { id } else { (op / 16) as u8 }))
    } else if op == 0xe3 {
        Some(Instr::ExSp(id))
    } else if op == 0x21 {
        Some(if ix { Instr::LdIxNn(nn) } else { Instr::LdIyNn(nn) })
    } else if op == 0x22 {
        Some(if ix { Instr::LdAddrNnIx(nn) } else { Instr::LdAddrNnIy(nn) })
    } else if op == 0x2a {
        Some(if ix { Instr::LdIxAddrNn(nn) } else { Instr::LdIyAddrNn(nn) })
    } else if op == 0x36 {
        let n = fetch(mem, pc, 3);
        Some(if ix { Instr::LdIxN(d, n) } else { Instr::LdIyN(d, n) })
    } else if 0x40 <= op < 0x80 && op != 0x76 && op % 8 == 6 {
        let r = ((op / 8) % 8) as u8;
        Some(if ix { Instr::LdRIx(r, d) } else { Instr::LdRIy(r, d) })
    } else if 0x70 <= op < 0x78 && op != 0x76 {
        let r = (op % 8) as u8;
        Some(if ix { Instr::LdIxR(r, d) } else { Instr::LdIyR(r, d) })
    } else if 0x80 <= op < 0xc0 && op % 8 == 6 {
        Some(Instr::Alu(alu_op(((op - 0x80) / 8) as u8), at))
    } else if op == 0x34 {
        Some(Instr::Inc(at))
    } else if op == 0x35 {
        Some(Instr::Dec(at))
    } else if op == 0xcb {
        // Indexed bit operations: displacement, then the opcode. Every
        // `BIT` pattern tests the indexed byte; the other operations store
        // their result there and, when the opcode names a register, in it.
        let op3 = fetch(mem, pc, 3);
        if op3 / 64 == 1 || op3 % 8 == 6 {
            Some(cb_instr(op3 / 64, ((op3 / 8) % 8) as u8, at))
        } else {
            Some(Instr::CbCopy(op3 / 64, ((op3 / 8) % 8) as u8, at, (op3 % 8) as u8))
        }
    } else if op == 0xe5 {
        Some(if ix { Instr::PushIx } else { Instr::PushIy })
    } else if op == 0xe1 {
        Some(if ix { Instr::PopIx } else { Instr::PopIy })
    } else if op == 0xe9 {
        Some(if ix { Instr::JpIx } else { Instr::JpIy })
    } else if op == 0xf9 {
        Some(if ix { Instr::LdSpIx } else { Instr::LdSpIy })
    } else if op == 0x24 || op == 0x2c {
        Some(Instr::Inc(half_or_reg((op / 8) as u8, ix)))
    } else if op == 0x25 || op == 0x2d {
        Some(Instr::Dec(half_or_reg((op / 8) as u8, ix)))
    } else if op == 0x26 || op == 0x2e {
        Some(Instr::LdHalf(half_or_reg((op / 8) as u8, ix), Operand::Imm(fetch(mem, pc, 2))))
    } else if 0x40 <= op < 0x80 && op != 0x76 && (op % 8 == 4 || op % 8 == 5 || (op / 8) % 8 == 4
        || (op / 8) % 8 == 5) {
        Some(Instr::LdHalf(half_or_reg(((op / 8) % 8) as u8, ix), half_or_reg((op % 8) as u8, ix)))
    } else if 0x80 <= op < 0xc0 && (op % 8 == 4 || op % 8 == 5) {
        Some(Instr::Alu(alu_op(((op - 0x80) / 8) as u8), half_or_reg((op % 8) as u8, ix)))
    } else {
        // Before an opcode that names none of `H`, `L`, `HL`, `(HL)` the
        // prefix changes nothing: it runs as a no-op and the next byte is
        // decoded as an instruction of its own.
        Some(Instr::Nop)
    }
}

fn ed_noop_of(op: u8) -> (b: bool)
    ensures
        b == ed_noop(op),
{
    op < 0x40 || op >= 0xc0 || op == 0x77 || op == 0x7f || (0x80 <= op && op < 0xc0 && (op < 0xa0
        || op % 8 >= 4))
}

fn to_disp(b: u8) -> (d: i8)
    ensures
        d as int == signed_value(b),
{
    if b < 128 {
        b as i8
    } else {
        (b as i16 - 256) as i8
    }
}

impl CPU {
    /// The byte `k` places after `PC`.
    fn fetch(&self, k: u16) -> (b: u8)
        requires
            k < 4,
        ensures
            b == fetch(self.ram@, self.reg.pc, k as int),
    {
        self.ram[((self.reg.pc as u32 + k as u32) % 65536) as usize]
    }

    fn fetch_word(&self, k: u16) -> (w: u16)
        requires
            k < 3,
        ensures
            w == fetch_word(self.ram@, self.reg.pc, k as int),
    {
        join(self.fetch(k + 1), self.fetch(k))
    }

    /// Decodes the instruction at `PC`.
    pub fn decode(&self) -> (ins: Option<Instr>)
        ensures
            ins == decode(self.ram@, self.reg.pc),
    {
        let op = self.fetch(0);
        if op == 0xdd {
            self.decode_indexed(true)
        } else if op == 0xfd {
            self.decode_indexed(false)
        } else if op == 0xed {
            self.decode_ed()
        } else if op == 0xcb {
            let op2 = self.fetch(1);
            Some(cb_instr_of(op2 / 64, (op2 / 8) % 8, reg_or_hl_of(op2 % 8)))
        } else {
            self.decode_main(op)
        }
    }

    fn decode_main(&self, op: u8) -> (ins: Option<Instr>)
        requires
            op == fetch(self.ram@, self.reg.pc, 0),
        ensures
            ins == decode_main(self.ram@, self.reg.pc, op),
    {
        let n = self.fetch(1);
        let nn = self.fetch_word(1);
        if op == 0x76 {
            Some(Instr::Halt)
        } else if 0x40 <= op && op < 0x80 {
            let dst = (op / 8) % 8;
            let src = op % 8;
            if src == 6 {
                Some(Instr::LdRHl(dst))
            } else if dst == 6 {
                Some(Instr::LdHlR(src))
            } else {
                Some(Instr::LdRR(dst, src))
            }
        } else if op < 0x40 && op % 8 == 6 {
            if op / 8 == 6 {
                Some(Instr::LdHlN(n))
            } else {
                Some(Instr::LdRN(op / 8, n))
            }
        } else if op < 0x40 && op % 16 == 1 {
            Some(Instr::LdDdNn(op / 16, nn))
        } else if 0x80 <= op && op < 0xc0 {
            Some(Instr::Alu(alu_op_of((op - 0x80) / 8), reg_or_hl_of(op % 8)))
        } else if op < 0x40 && op % 8 == 4 {
            Some(Instr::Inc(reg_or_hl_of(op / 8)))
        } else if op < 0x40 && op % 8 == 5 {
            Some(Instr::Dec(reg_or_hl_of(op / 8)))
        } else if op >= 0xc0 && op % 8 == 6 {
            Some(Instr::Alu(alu_op_of((op - 0xc0) / 8), Operand::Imm(n)))
        } else if op >= 0xc0 && op % 16 == 5 {
            Some(Instr::Push((op - 0xc0) / 16))
        } else if op >= 0xc0 && op % 16 == 1 {
            Some(Instr::Pop((op - 0xc0) / 16))
        } else if op >= 0xc0 && op % 8 == 2 {
            Some(Instr::JpCc((op - 0xc0) / 8, nn))
        } else if op >= 0xc0 && op % 8 == 4 {
            Some(Instr::CallCc((op - 0xc0) / 8, nn))
        } else if op >= 0xc0 && op % 8 == 0 {
            Some(Instr::RetCc((op - 0xc0) / 8))
        } else if op >= 0xc0 && op % 8 == 7 {
            Some(Instr::Rst(op - 0xc7))
        } else if op == 0x18 {
            Some(Instr::Jr(to_disp(n)))
        } else if op == 0x20 || op == 0x28 || op == 0x30 || op == 0x38 {
            Some(Instr::JrCc((op - 0x20) / 8, to_disp(n)))
        } else if op == 0x10 {
            Some(Instr::Djnz(to_disp(n)))
        } else if op == 0xcd {
            Some(Instr::Call(nn))
        } else if op == 0xc9 {
            Some(Instr::Ret)
        } else if op < 0x20 && op % 8 == 7 {
            Some(Instr::RotA(op / 8))
        } else if op < 0x40 && op % 16 == 3 {
            Some(Instr::Inc16(op / 16))
        } else if op < 0x40 && op % 16 == 0xb {
            Some(Instr::Dec16(op / 16))
        } else if op < 0x40 && op % 16 == 9 {
            Some(Instr::Add16(ID_HL, op / 16))
        } else {
            match op {
                0x27 => Some(Instr::Daa),
                0x2f => Some(Instr::Cpl),
                0x37 => Some(Instr::Scf),
                0x3f => Some(Instr::Ccf),
                0xe3 => Some(Instr::ExSp(ID_HL)),
                0x00 => Some(Instr::Nop),
                0x02 => Some(Instr::LdBcA),
                0x12 => Some(Instr::LdDeA),
                0x0a => Some(Instr::LdABc),
                0x1a => Some(Instr::LdADe),
                0x22 => Some(Instr::LdAddrNnHl(nn)),
                0x2a => Some(Instr::LdHlAddrNn(nn)),
                0x32 => Some(Instr::LdNnA(nn)),
                0x3a => Some(Instr::LdANn(nn)),
                0x08 => Some(Instr::ExAf),
                0xd9 => Some(Instr::Exx),
                0xeb => Some(Instr::ExDeHl),
                0xf3 => Some(Instr::Di),
                0xfb => Some(Instr::Ei),
                0xc3 => Some(Instr::Jp(nn)),
                0xe9 => Some(Instr::JpHl),
                0xf9 => Some(Instr::LdSpHl),
                _ => None,
            }
        }
    }

    fn decode_ed(&self) -> (ins: Option<Instr>)
        ensures
            ins == decode_ed(self.ram@, self.reg.pc),
    {
        let op = self.fetch(1);
        let nn = self.fetch_word(2);
        if op == 0x47 {
            Some(Instr::LdIA)
        } else if op == 0x4f {
            Some(Instr::LdRA)
        } else if op == 0x57 {
            Some(Instr::LdAI)
        } else if op == 0x5f {
            Some(Instr::LdAR)
        } else if ed_noop_of(op) {
            Some(Instr::EdNop)
        } else if 0x40 <= op && op < 0x80 && op % 8 == 4 {
            Some(Instr::Neg)
        } else if 0x40 <= op && op < 0x80 && op % 8 == 5 {
            Some(Instr::Retn)
        } else if op == 0xa0 {
            Some(Instr::Ldi)
        } else if op == 0xa8 {
            Some(Instr::Ldd)
        } else if op == 0xb0 {
            Some(Instr::Ldir)
        } else if op == 0xb8 {
            Some(Instr::Lddr)
        } else if op == 0xa1 {
            Some(Instr::Cpi)
        } else if op == 0xa9 {
            Some(Instr::Cpd)
        } else if op == 0xb1 {
            Some(Instr::Cpir)
        } else if op == 0xb9 {
            Some(Instr::Cpdr)
        } else if op == 0x6f {
            Some(Instr::Rld)
        } else if op == 0x67 {
            Some(Instr::Rrd)
        } else if 0x40 <= op && op < 0x80 && op % 16 == 2 {
            Some(Instr::SbcHl((op - 0x40) / 16))
        } else if 0x40 <= op && op < 0x80 && op % 16 == 0xa {
            Some(Instr::AdcHl((op - 0x40) / 16))
        } else if 0x40 <= op && op < 0x80 && op % 16 == 3 {
            Some(Instr::LdAddrNnDd((op - 0x40) / 16, nn))
        } else if 0x40 <= op && op < 0x80 && op % 16 == 0xb {
            Some(Instr::LdDdAddrNn((op - 0x40) / 16, nn))
        } else if op == 0x46 || op == 0x4e || op == 0x66 || op == 0x6e {
            Some(Instr::Im(0))
        } else if op == 0x56 || op == 0x76 {
            Some(Instr::Im(1))
        } else if op == 0x5e || op == 0x7e {
            Some(Instr::Im(2))
        } else {
            None
        }
    }

    fn decode_indexed(&self, ix: bool) -> (ins: Option<Instr>)
        ensures
            ins == decode_indexed(self.ram@, self.reg.pc, ix),
    {
        let op = self.fetch(1);
        let d = to_disp(self.fetch(2));
        let nn = self.fetch_word(2);
        let at = if ix {
            Operand::AtIx(d)
        } else {
            Operand::AtIy(d)
        };
        let id = if ix {
            ID_IX
        } else {
            ID_IY
        };
        if op == 0x23 {
            Some(Instr::Inc16(id))
        } else if op == 0x2b {
            Some(Instr::Dec16(id))
        } else if op < 0x40 && op % 16 == 9 {
            Some(Instr::Add16(id, if op == 0x29 { id } else { op / 16 }))
        } else if op == 0xe3 {
            Some(Instr::ExSp(id))
        } else if op == 0x21 {
            Some(if ix { Instr::LdIxNn(nn) } else { Instr::LdIyNn(nn) })
        } else if op == 0x22 {
            Some(if ix { Instr::LdAddrNnIx(nn) } else { Instr::LdAddrNnIy(nn) })
        } else if op == 0x2a {
            Some(if ix { Instr::LdIxAddrNn(nn) } else { Instr::LdIyAddrNn(nn) })
        } else if op == 0x36 {
            let n = self.fetch(3);
            Some(if ix { Instr::LdIxN(d, n) } else { Instr::LdIyN(d, n) })
        } else if 0x40 <= op && op < 0x80 && op != 0x76 && op % 8 == 6 {
            let r = (op / 8) % 8;
            Some(if ix { Instr::LdRIx(r, d) } else { Instr::LdRIy(r, d) })
        } else if 0x70 <= op && op < 0x78 && op != 0x76 {
            let r = op % 8;
            Some(if ix { Instr::LdIxR(r, d) } else { Instr::LdIyR(r, d) })
        } else if 0x80 <= op && op < 0xc0 && op % 8 == 6 {
            Some(Instr::Alu(alu_op_of((op - 0x80) / 8), at))
        } else if op == 0x34 {
            Some(Instr::Inc(at))
        } else if op == 0x35 {
            Some(Instr::Dec(at))
        } else if op == 0xcb {
            let op3 = self.fetch(3);
            if op3 / 64 == 1 || op3 % 8 == 6 {
                Some(cb_instr_of(op3 / 64, (op3 / 8) % 8, at))
            } else {
                Some(Instr::CbCopy(op3 / 64, (op3 / 8) % 8, at, op3 % 8))
            }
        } else if op == 0xe5 {
            Some(if ix { Instr::PushIx } else { Instr::PushIy })
        } else if op == 0xe1 {
            Some(if ix { Instr::PopIx } else { Instr::PopIy })
        } else if op == 0xe9 {
            Some(if ix { Instr::JpIx } else { Instr::JpIy })
        } else if op == 0xf9 {
            Some(if ix { Instr::LdSpIx } else { Instr::LdSpIy })
        } else if op == 0x24 || op == 0x2c {
            Some(Instr::Inc(half_or_reg_of(op / 8, ix)))
        } else if op == 0x25 || op == 0x2d {
            Some(Instr::Dec(half_or_reg_of(op / 8, ix)))
        } else if op == 0x26 || op == 0x2e {
            Some(Instr::LdHalf(half_or_reg_of(op / 8, ix), Operand::Imm(self.fetch(2))))
        } else if 0x40 <= op && op < 0x80 && op != 0x76 && (op % 8 == 4 || op % 8 == 5 || (op / 8) % 8
            == 4 || (op / 8) % 8 == 5) {
            Some(Instr::LdHalf(half_or_reg_of((op / 8) % 8, ix), half_or_reg_of(op % 8, ix)))
        } else if 0x80 <= op && op < 0xc0 && (op % 8 == 4 || op % 8 == 5) {
            Some(Instr::Alu(alu_op_of((op - 0x80) / 8), half_or_reg_of(op % 8, ix)))
        } else {
            Some(Instr::Nop)
        }
    }
}

} // verus!
