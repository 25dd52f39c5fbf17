//! The `0xCB` table: rotates and shifts of any 8-bit operand, and the
//! single-bit test, reset and set operations.
use vstd::prelude::*;

use crate::alu::{is_half, operand_mem, operand_regs, operand_valid, operand_value};
use crate::cpu::{ProgramCounter, CPU};
use crate::decode::Operand;
use crate::flags::{bit8, bit8_flags, carry_of, has_bit, shift8, shift8_flags};
use crate::registers::{is_reg8_id, Registers};

verus! {

/// The one-bit mask of bit `b`.
pub open spec fn bit_mask(b: u8) -> u8 {
    if b == 0 {
        0x01
    } else if b == 1 {
        0x02
    } else if b == 2 {
        0x04
    } else if b == 3 {
        0x08
    } else if b == 4 {
        0x10
    } else if b == 5 {
        0x20
    } else if b == 6 {
        0x40
    } else {
        0x80
    }
}

/// Result of the rotate or shift `kind` (`RLC`, `RRC`, `RL`, `RR`, `SLA`,
/// `SRA`, `SLL`, `SRL`) of `v`, with `c` the carry before.
pub open spec fn rot_value(kind: u8, v: u8, c: bool) -> u8 {
    let ci: int = if c { 1 } else { 0 };
    let w = v as int;
    (if kind == 0 {
        (w * 2) % 256 + w / 128
    } else if kind == 1 {
        w / 2 + (w % 2) * 128
    } else if kind == 2 {
        (w * 2) % 256 + ci
    } else if kind == 3 {
        w / 2 + ci * 128
    } else if kind == 4 {
        (w * 2) % 256
    } else if kind == 5 {
        w / 2 + (w / 128) * 128
    } else if kind == 6 {
        (w * 2) % 256 + 1
    } else {
        w / 2
    }) as u8
}

/// The bit that the rotate or shift `kind` moves out of `v` into the carry.
pub open spec fn rot_carry(kind: u8, v: u8) -> bool {
    if kind % 2 == 0 {
        v >= 128
    } else {
        v % 2 == 1
    }
}

/// `v` with bit `b` cleared.
pub open spec fn res_value(v: u8, b: u8) -> u8 {
    if has_bit(v, bit_mask(b)) {
        (v - bit_mask(b)) as u8
    } else {
        v
    }
}

/// `v` with bit `b` set.
pub open spec fn set_value(v: u8, b: u8) -> u8 {
    if has_bit(v, bit_mask(b)) {
        v
    } else {
        (v + bit_mask(b)) as u8
    }
}

/// The result of the `0xCB` operation group `op` (0 rotate or shift of
/// `kind`, 2 `RES` of bit `kind`, 3 `SET`) on `v`, with flags `f` before.
pub open spec fn cb_result(op: u8, kind: u8, v: u8, f: u8) -> u8 {
    if op == 0 {
        rot_value(kind, v, carry_of(f))
    } else if op == 2 {
        res_value(v, kind)
    } else {
        set_value(v, kind)
    }
}

/// Bytes an instruction of the `0xCB` table takes on this operand.
pub open spec fn cb_len(o: Operand) -> u8 {
    match o {
        Operand::AtIx(_) | Operand::AtIy(_) => 4,
        _ => 2,
    }
}

/// The operands of the `0xCB` table: a register or a byte of memory.
pub open spec fn cb_operand(o: Operand) -> bool {
    operand_valid(o) && !(o is Imm) && !is_half(o)
}

fn mask_of(b: u8) -> (m: u8)
    ensures
        m == bit_mask(b),
{
    match b {
        0 => 0x01,
        1 => 0x02,
        2 => 0x04,
        3 => 0x08,
        4 => 0x10,
        5 => 0x20,
        6 => 0x40,
        _ => 0x80,
    }
}

/// The rotate or shift `kind` of `v`: the result and the bit shifted out.
pub fn rotate8(kind: u8, v: u8, c: bool) -> (r: (u8, bool))
    ensures
        r == (rot_value(kind, v, c), rot_carry(kind, v)),
{
    let ci: u8 = if c { 1 } else { 0 };
    let low: u8 = ((v as u16 * 2) % 256) as u8;
    let res: u8 = match kind {
        0 => low + v / 128,
        1 => v / 2 + (v % 2) * 128,
        2 => low + ci,
        3 => v / 2 + ci * 128,
        4 => low,
        5 => v / 2 + (v / 128) * 128,
        6 => low + 1,
        _ => v / 2,
    };
    let carry = if kind % 2 == 0 {
        v >= 128
    } else {
        v % 2 == 1
    };
    (res, carry)
}

fn cb_length(o: Operand) -> (n: u8)
    ensures
        n == cb_len(o),
{
    match o {
        Operand::AtIx(_) | Operand::AtIy(_) => 4,
        _ => 2,
    }
}

impl CPU {
    /// `RLC`, `RRC`, `RL`, `RR`, `SLA`, `SRA`, `SLL` or `SRL` (by `kind`)
    /// of a register or memory operand.
    pub fn rotate(&mut self, kind: u8, o: Operand) -> (pc: ProgramCounter)
        requires
            cb_operand(o),
        ensures
            ({
                let r = old(self).reg;
                let v = operand_value(r, old(self).ram@, o);
                let res = rot_value(kind, v, carry_of(r.f));
                &&& final(self).reg == (Registers {
                    f: shift8_flags(res, rot_carry(kind, v)),
                    ..operand_regs(r, o, res)
                })
                &&& final(self).ram@ == operand_mem(r, old(self).ram@, o, res)
                &&& final(self).ctl == old(self).ctl
                &&& final(self).clock == old(self).clock
            }),
            pc == ProgramCounter::Next(cb_len(o)),
    {
        let v = self.read_operand(o);
        let (res, carry) = rotate8(kind, v, self.reg.f % 2 == 1);
        self.write_operand(o, res);
        self.reg.f = shift8(res, carry);
        ProgramCounter::Next(cb_length(o))
    }

    /// `BIT b`: tests bit `b` of a register or memory operand.
    pub fn bit_test(&mut self, b: u8, o: Operand) -> (pc: ProgramCounter)
        requires
            cb_operand(o),
        ensures
            ({
                let r = old(self).reg;
                let v = operand_value(r, old(self).ram@, o);
                old(self).regs_become(*final(self), Registers { f: bit8_flags(v, bit_mask(b), r.f), ..r })
            }),
            pc == ProgramCounter::Next(cb_len(o)),
    {
        let v = self.read_operand(o);
        self.reg.f = bit8(v, mask_of(b), self.reg.f);
        ProgramCounter::Next(cb_length(o))
    }

    /// `RES b`: clears bit `b` of a register or memory operand.
    pub fn res_bit(&mut self, b: u8, o: Operand) -> (pc: ProgramCounter)
        requires
            cb_operand(o),
        ensures
            ({
                let r = old(self).reg;
                let v = operand_value(r, old(self).ram@, o);
                &&& final(self).reg == operand_regs(r, o, res_value(v, b))
                &&& final(self).ram@ == operand_mem(r, old(self).ram@, o, res_value(v, b))
                &&& final(self).ctl == old(self).ctl
                &&& final(self).clock == old(self).clock
            }),
            pc == ProgramCounter::Next(cb_len(o)),
    {
        let v = self.read_operand(o);
        let m = mask_of(b);
        let res = if (v / m) % 2 == 1 {
            v - m
        } else {
            v
        };
        self.write_operand(o, res);
        ProgramCounter::Next(cb_length(o))
    }

    /// `SET b`: sets bit `b` of a register or memory operand.
    pub fn set_bit(&mut self, b: u8, o: Operand) -> (pc: ProgramCounter)
        requires
            cb_operand(o),
        ensures
            ({
                let r = old(self).reg;
                let v = operand_value(r, old(self).ram@, o);
                &&& final(self).reg == operand_regs(r, o, set_value(v, b))
                &&& final(self).ram@ == operand_mem(r, old(self).ram@, o, set_value(v, b))
                &&& final(self).ctl == old(self).ctl
                &&& final(self).clock == old(self).clock
            }),
            pc == ProgramCounter::Next(cb_len(o)),
    {
        let v = self.read_operand(o);
        let m = mask_of(b);
        let res = if (v / m) % 2 == 1 {
            v
        } else {
            v + m
        };
        self.write_operand(o, res);
        ProgramCounter::Next(cb_length(o))
    }

    /// An indexed rotate, shift, `RES` or `SET` whose opcode names a
    /// register: the byte at `o` changes as for the plain form (`op` 0 for
    /// a rotate or shift of `kind`, 2 for `RES`, 3 for `SET`, with `kind`
    /// the bit), and the register `x` receives the same result. Four bytes.
    pub fn cb_copy(&mut self, op: u8, kind: u8, o: Operand, x: u8) -> (pc: ProgramCounter)
        requires
            o is AtIx || o is AtIy,
            is_reg8_id(x),
        ensures
            ({
                let r = old(self).reg;
                let v = operand_value(r, old(self).ram@, o);
                let res = cb_result(op, kind, v, r.f);
                &&& final(self).reg == (Registers {
                    f: if op == 0 {
                        shift8_flags(res, rot_carry(kind, v))
                    } else {
                        r.f
                    },
                    ..r.with_reg8(x, res)
                })
                &&& final(self).ram@ == operand_mem(r, old(self).ram@, o, res)
                &&& final(self).ctl == old(self).ctl
                &&& final(self).clock == old(self).clock
            }),
            pc == ProgramCounter::Next(4),
    {
        let v = self.read_operand(o);
        let m = mask_of(kind);
        let (res, carry) = if op == 0 {
            rotate8(kind, v, self.reg.f % 2 == 1)
        } else if op == 2 {
            (if (v / m) % 2 == 1 {
                v - m
            } else {
                v
            }, false)
        } else {
            (if (v / m) % 2 == 1 {
                v
            } else {
                v + m
            }, false)
        };
        self.write_operand(o, res);
        self.set8(x, res);
        if op == 0 {
            self.reg.f = shift8(res, carry);
        }
        ProgramCounter::Next(4)
    }
}

} // verus!
