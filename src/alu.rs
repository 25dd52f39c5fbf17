//! The 8-bit arithmetic and logic group: each handler computes its result
//! and asks the flag engine for the whole flag byte.
use vstd::prelude::*;

use crate::cpu::{indexed_addr, offset_addr, ProgramCounter, CPU};
use crate::decode::{AluOp, Operand};
use crate::bits::{rot_carry, rot_value, rotate8};
use crate::flags::{
    carry_op, carry_op_flags, cpl, cpl_flags, daa, daa_flags, daa_value, rota, rota_flags,
    add_bytes, sub_bytes, add8, add8_flags, carry_of, cp8, cp8_flags, dec8, dec8_flags, inc8, inc8_flags, logic8,
    logic8_flags, sub8, sub8_flags,
};
use crate::registers::{hi_byte, high, is_reg8_id, join, lo_byte, low, pair_value, Registers};

verus! {

/// Whether the operand's register identifier, if any, names an 8-bit register.
pub open spec fn operand_valid(o: Operand) -> bool {
    match o {
        Operand::Reg(x) => is_reg8_id(x),
        _ => true,
    }
}

/// The address of a memory operand.
pub open spec fn operand_addr(r: Registers, o: Operand) -> u16 {
    match o {
        Operand::AtIx(d) => indexed_addr(r.ix, d),
        Operand::AtIy(d) => indexed_addr(r.iy, d),
        _ => r.spec_hl(),
    }
}

/// Whether the operand is a byte of memory.
pub open spec fn is_mem_operand(o: Operand) -> bool {
    o is AtHl || o is AtIx || o is AtIy
}

/// Whether the operand is a byte half of `IX` or `IY`.
pub open spec fn is_half(o: Operand) -> bool {
    o is IxHigh || o is IxLow || o is IyHigh || o is IyLow
}

/// The value an operand reads.
pub open spec fn operand_value(r: Registers, mem: Seq<u8>, o: Operand) -> u8 {
    match o {
        Operand::Reg(x) => r.reg8(x),
        Operand::Imm(n) => n,
        Operand::IxHigh => hi_byte(r.ix),
        Operand::IxLow => lo_byte(r.ix),
        Operand::IyHigh => hi_byte(r.iy),
        Operand::IyLow => lo_byte(r.iy),
        _ => mem[operand_addr(r, o) as int],
    }
}

/// The register file after writing `v` to the operand.
pub open spec fn operand_regs(r: Registers, o: Operand, v: u8) -> Registers {
    match o {
        Operand::Reg(x) => r.with_reg8(x, v),
        Operand::IxHigh => Registers { ix: pair_value(v, lo_byte(r.ix)), ..r },
        Operand::IxLow => Registers { ix: pair_value(hi_byte(r.ix), v), ..r },
        Operand::IyHigh => Registers { iy: pair_value(v, lo_byte(r.iy)), ..r },
        Operand::IyLow => Registers { iy: pair_value(hi_byte(r.iy), v), ..r },
        _ => r,
    }
}

/// Memory after writing `v` to the operand.
pub open spec fn operand_mem(r: Registers, mem: Seq<u8>, o: Operand, v: u8) -> Seq<u8> {
    if is_mem_operand(o) {
        mem.update(operand_addr(r, o) as int, v)
    } else {
        mem
    }
}

/// Bytes an instruction on this operand takes, prefix and operand bytes included.
pub open spec fn operand_len(o: Operand) -> u8 {
    match o {
        Operand::Reg(_) | Operand::AtHl => 1,
        Operand::AtIx(_) | Operand::AtIy(_) => 3,
        _ => 2,
    }
}

/// The accumulator after `op` with operand `v` and flags `f`.
pub open spec fn alu_value(op: AluOp, a: u8, v: u8, f: u8) -> u8 {
    let c: int = if carry_of(f) { 1 } else { 0 };
    match op {
        AluOp::Add => ((a + v) % 256) as u8,
        AluOp::Adc => ((a + v + c) % 256) as u8,
        AluOp::Sub => ((a - v) % 256) as u8,
        AluOp::Sbc => ((a - v - c) % 256) as u8,
        AluOp::And => a & v,
        AluOp::Xor => a ^ v,
        AluOp::Or => a | v,
        AluOp::Cp => a,
    }
}

/// The flag byte after `op` with operand `v` and flags `f`.
pub open spec fn alu_flags(op: AluOp, a: u8, v: u8, f: u8) -> u8 {
    match op {
        AluOp::Add => add8_flags(a, v, false),
        AluOp::Adc => add8_flags(a, v, carry_of(f)),
        AluOp::Sub => sub8_flags(a, v, false),
        AluOp::Sbc => sub8_flags(a, v, carry_of(f)),
        AluOp::And => logic8_flags(a & v, true),
        AluOp::Xor => logic8_flags(a ^ v, false),
        AluOp::Or => logic8_flags(a | v, false),
        AluOp::Cp => cp8_flags(a, v),
    }
}

/// `(v + 1) mod 256`.
pub open spec fn inc_value(v: u8) -> u8 {
    ((v + 1) % 256) as u8
}

/// `(v - 1) mod 256`.
pub open spec fn dec_value(v: u8) -> u8 {
    ((v - 1) % 256) as u8
}

/// The accumulator and flag byte after `op` with operand `v` and flags `f`.
pub fn alu8(op: AluOp, a: u8, v: u8, f: u8) -> (r: (u8, u8))
    ensures
        r == (alu_value(op, a, v, f), alu_flags(op, a, v, f)),
{
    let carry = f % 2 == 1;
    match op {
        AluOp::Add => (add_bytes(a, v, false), add8(a, v, false)),
        AluOp::Adc => (add_bytes(a, v, carry), add8(a, v, carry)),
        AluOp::Sub => (sub_bytes(a, v, false), sub8(a, v, false)),
        AluOp::Sbc => (sub_bytes(a, v, carry), sub8(a, v, carry)),
        AluOp::And => (a & v, logic8(a & v, true)),
        AluOp::Xor => (a ^ v, logic8(a ^ v, false)),
        AluOp::Or => (a | v, logic8(a | v, false)),
        AluOp::Cp => (a, cp8(a, v)),
    }
}

fn operand_length(o: Operand) -> (n: u8)
    ensures
        n == operand_len(o),
{
    match o {
        Operand::Reg(_) | Operand::AtHl => 1,
        Operand::AtIx(_) | Operand::AtIy(_) => 3,
        _ => 2,
    }
}

impl CPU {
    fn operand_addr(&self, o: Operand) -> (a: u16)
        ensures
            a == operand_addr(self.reg, o),
    {
        match o {
            Operand::AtIx(d) => offset_addr(self.reg.ix, d),
            Operand::AtIy(d) => offset_addr(self.reg.iy, d),
            _ => self.reg.hl(),
        }
    }

    pub(crate) fn read_operand(&self, o: Operand) -> (v: u8)
        requires
            operand_valid(o),
        ensures
            v == operand_value(self.reg, self.ram@, o),
    {
        match o {
            Operand::Reg(x) => self.get8(x),
            Operand::Imm(n) => n,
            Operand::IxHigh => high(self.reg.ix),
            Operand::IxLow => low(self.reg.ix),
            Operand::IyHigh => high(self.reg.iy),
            Operand::IyLow => low(self.reg.iy),
            _ => self.ram[self.operand_addr(o) as usize],
        }
    }

    pub(crate) fn write_operand(&mut self, o: Operand, v: u8)
        requires
            operand_valid(o),
        ensures
            final(self).reg == operand_regs(old(self).reg, o, v),
            final(self).ram@ == operand_mem(old(self).reg, old(self).ram@, o, v),
            final(self).ctl == old(self).ctl,
            final(self).clock == old(self).clock,
    {
        match o {
            Operand::Reg(x) => self.set8(x, v),
            Operand::Imm(_) => {},
            Operand::IxHigh => self.reg.ix = join(v, low(self.reg.ix)),
            Operand::IxLow => self.reg.ix = join(high(self.reg.ix), v),
            Operand::IyHigh => self.reg.iy = join(v, low(self.reg.iy)),
            Operand::IyLow => self.reg.iy = join(high(self.reg.iy), v),
            _ => {
                let a = self.operand_addr(o);
                self.ram[a as usize] = v;
            },
        }
    }

    /// `ADD`, `ADC`, `SUB`, `SBC`, `AND`, `XOR`, `OR` or `CP` of the
    /// accumulator with `src`.
    pub fn alu(&mut self, op: AluOp, src: Operand) -> (pc: ProgramCounter)
        requires
            operand_valid(src),
        ensures
            ({
                let r = old(self).reg;
                let v = operand_value(r, old(self).ram@, src);
                old(self).regs_become(
                    *final(self),
                    Registers { a: alu_value(op, r.a, v, r.f), f: alu_flags(op, r.a, v, r.f), ..r },
                )
            }),
            pc == ProgramCounter::Next(operand_len(src)),
    {
        let v = self.read_operand(src);
        let (a, f) = alu8(op, self.reg.a, v, self.reg.f);
        self.reg.a = a;
        self.reg.f = f;
        ProgramCounter::Next(operand_length(src))
    }

    /// `INC` of a register or memory operand; the carry is kept.
    pub fn inc(&mut self, dst: Operand) -> (pc: ProgramCounter)
        requires
            operand_valid(dst),
            !(dst is Imm),
        ensures
            ({
                let r = old(self).reg;
                let v = operand_value(r, old(self).ram@, dst);
                &&& final(self).reg == (Registers {
                    f: inc8_flags(v, r.f),
                    ..operand_regs(r, dst, inc_value(v))
                })
                &&& final(self).ram@ == operand_mem(r, old(self).ram@, dst, inc_value(v))
                &&& final(self).ctl == old(self).ctl
                &&& final(self).clock == old(self).clock
            }),
            pc == ProgramCounter::Next(operand_len(dst)),
    {
        let v = self.read_operand(dst);
        let f = inc8(v, self.reg.f);
        self.write_operand(dst, add_bytes(v, 1, false));
        self.reg.f = f;
        ProgramCounter::Next(operand_length(dst))
    }

    /// `DEC` of a register or memory operand; the carry is kept.
    pub fn dec(&mut self, dst: Operand) -> (pc: ProgramCounter)
        requires
            operand_valid(dst),
            !(dst is Imm),
        ensures
            ({
                let r = old(self).reg;
                let v = operand_value(r, old(self).ram@, dst);
                &&& final(self).reg == (Registers {
                    f: dec8_flags(v, r.f),
                    ..operand_regs(r, dst, dec_value(v))
                })
                &&& final(self).ram@ == operand_mem(r, old(self).ram@, dst, dec_value(v))
                &&& final(self).ctl == old(self).ctl
                &&& final(self).clock == old(self).clock
            }),
            pc == ProgramCounter::Next(operand_len(dst)),
    {
        let v = self.read_operand(dst);
        let f = dec8(v, self.reg.f);
        self.write_operand(dst, sub_bytes(v, 1, false));
        self.reg.f = f;
        ProgramCounter::Next(operand_length(dst))
    }

    /// `RLCA`, `RRCA`, `RLA` or `RRA` (`kind` 0 to 3): the rotate of the
    /// `0xCB` table of the same kind, on `A`, keeping `S`, `Z` and `P/V`.
    /// One byte.
    pub fn rotate_a(&mut self, kind: u8) -> (pc: ProgramCounter)
        requires
            kind < 4,
        ensures
            ({
                let r = old(self).reg;
                let res = rot_value(kind, r.a, carry_of(r.f));
                old(self).regs_become(
                    *final(self),
                    Registers { a: res, f: rota_flags(r.f, res, rot_carry(kind, r.a)), ..r },
                )
            }),
            pc == ProgramCounter::Next(1),
    {
        let (res, carry) = rotate8(kind, self.reg.a, self.reg.f % 2 == 1);
        self.reg.f = rota(self.reg.f, res, carry);
        self.reg.a = res;
        ProgramCounter::Next(1)
    }

    /// `CPL`: the accumulator's ones' complement. One byte.
    pub fn cpl(&mut self) -> (pc: ProgramCounter)
        ensures
            ({
                let r = old(self).reg;
                old(self).regs_become(
                    *final(self),
                    Registers { a: (255 - r.a) as u8, f: cpl_flags(r.f, (255 - r.a) as u8), ..r },
                )
            }),
            pc == ProgramCounter::Next(1),
    {
        let res = 255 - self.reg.a;
        self.reg.f = cpl(self.reg.f, res);
        self.reg.a = res;
        ProgramCounter::Next(1)
    }

    /// `SCF`: sets the carry. One byte.
    pub fn scf(&mut self) -> (pc: ProgramCounter)
        ensures
            old(self).regs_become(
                *final(self),
                Registers { f: carry_op_flags(old(self).reg.f, old(self).reg.a, false), ..old(self).reg },
            ),
            pc == ProgramCounter::Next(1),
    {
        self.reg.f = carry_op(self.reg.f, self.reg.a, false);
        ProgramCounter::Next(1)
    }

    /// `CCF`: complements the carry. One byte.
    pub fn ccf(&mut self) -> (pc: ProgramCounter)
        ensures
            old(self).regs_become(
                *final(self),
                Registers { f: carry_op_flags(old(self).reg.f, old(self).reg.a, true), ..old(self).reg },
            ),
            pc == ProgramCounter::Next(1),
    {
        self.reg.f = carry_op(self.reg.f, self.reg.a, true);
        ProgramCounter::Next(1)
    }

    /// `DAA`: decimal correction of the accumulator after a BCD addition
    /// or subtraction. One byte.
    pub fn daa(&mut self) -> (pc: ProgramCounter)
        ensures
            ({
                let r = old(self).reg;
                old(self).regs_become(
                    *final(self),
                    Registers { a: daa_value(r.a, r.f), f: daa_flags(r.a, r.f), ..r },
                )
            }),
            pc == ProgramCounter::Next(1),
    {
        let (a, f) = daa(self.reg.a, self.reg.f);
        self.reg.a = a;
        self.reg.f = f;
        ProgramCounter::Next(1)
    }

    /// `LD` between registers and byte halves of an index register, or of an
    /// immediate into a half. Two bytes, three with an immediate.
    pub fn ld_half(&mut self, dst: Operand, src: Operand) -> (pc: ProgramCounter)
        requires
            dst is Reg || is_half(dst),
            operand_valid(dst),
            src is Reg || src is Imm || is_half(src),
            operand_valid(src),
        ensures
            old(self).regs_become(
                *final(self),
                operand_regs(old(self).reg, dst, operand_value(old(self).reg, old(self).ram@, src)),
            ),
            pc == ProgramCounter::Next(if src is Imm { 3 } else { 2 }),
    {
        let v = self.read_operand(src);
        self.write_operand(dst, v);
        ProgramCounter::Next(
            match src {
                Operand::Imm(_) => 3,
                _ => 2,
            },
        )
    }

    /// `NEG`: the accumulator becomes `0 - A`, flagged as that subtraction.
    /// Two bytes.
    pub fn neg(&mut self) -> (pc: ProgramCounter)
        ensures
            old(self).regs_become(
                *final(self),
                Registers {
                    a: ((0 - old(self).reg.a) % 256) as u8,
                    f: sub8_flags(0, old(self).reg.a, false),
                    ..old(self).reg
                },
            ),
            pc == ProgramCounter::Next(2),
    {
        let a = self.reg.a;
        self.reg.a = sub_bytes(0, a, false);
        self.reg.f = sub8(0, a, false);
        ProgramCounter::Next(2)
    }
}

} // verus!
