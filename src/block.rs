//! The block transfer and search group: `LDI`, `LDD`, `CPI`, `CPD` and
//! their repeating forms, and the digit rotates `RLD` and `RRD`.
use vstd::prelude::*;

use crate::cpu::{ProgramCounter, CPU};
use crate::flags::{block_cp, block_cp_flags, block_ld, block_ld_flags, digit, digit_flags};
use crate::registers::{Registers, ID_BC, ID_DE, ID_HL};
use crate::wide::wrap16;

verus! {

/// The register file after one block move: `HL` and `DE` one step up (or
/// down, with `down`), `BC` one less, flags from the byte `n` moved.
pub open spec fn block_regs(r: Registers, n: u8, down: bool) -> Registers {
    let step: int = if down { -1 } else { 1 };
    let bc = wrap16(r.spec_bc() - 1);
    Registers {
        f: block_ld_flags(r.f, n, r.a, bc != 0),
        ..r.with_reg16(ID_HL, wrap16(r.spec_hl() + step)).with_reg16(ID_DE, wrap16(r.spec_de() + step)).with_reg16(ID_BC, bc)
    }
}

/// `v` one up, or one down with `down`, wrapping.
fn step16(v: u16, down: bool) -> (r: u16)
    ensures
        r == wrap16(v + (if down { -1int } else { 1int })),
{
    if down {
        if v == 0 {
            0xffff
        } else {
            v - 1
        }
    } else if v == 0xffff {
        0
    } else {
        v + 1
    }
}

/// The register file after one block compare of `A` with `n`: `HL` one
/// step up (or down, with `down`), `BC` one less.
pub open spec fn block_cp_regs(r: Registers, n: u8, down: bool) -> Registers {
    let step: int = if down { -1 } else { 1 };
    let bc = wrap16(r.spec_bc() - 1);
    Registers {
        f: block_cp_flags(r.f, r.a, n, bc != 0),
        ..r.with_reg16(ID_HL, wrap16(r.spec_hl() + step)).with_reg16(ID_BC, bc)
    }
}

/// Whether `CPIR` or `CPDR` runs again: `BC` not yet zero and `n` not equal
/// to `A`.
pub open spec fn block_cp_repeats(r: Registers, n: u8) -> bool {
    wrap16(r.spec_bc() - 1) != 0 && r.a != n
}

/// `A` and the byte at `HL` after `RLD`: the three digits, low digit of
/// `A` first, rotate one digit left through the byte.
pub open spec fn rld_values(a: u8, m: u8) -> (u8, u8) {
    (((a as int / 16) * 16 + m as int / 16) as u8, ((m as int % 16) * 16 + a as int % 16) as u8)
}

/// `A` and the byte at `HL` after `RRD`: the same digits rotate right.
pub open spec fn rrd_values(a: u8, m: u8) -> (u8, u8) {
    (((a as int / 16) * 16 + m as int % 16) as u8, ((a as int % 16) * 16 + m as int / 16) as u8)
}

impl CPU {
    /// One move of a byte from `(HL)` to `(DE)`.
    fn block_move(&mut self, down: bool)
        ensures
            ({
                let r = old(self).reg;
                let n = old(self).byte(r.spec_hl());
                &&& final(self).reg == block_regs(r, n, down)
                &&& final(self).ram@ == old(self).ram@.update(r.spec_de() as int, n)
                &&& final(self).ctl == old(self).ctl
                &&& final(self).clock == old(self).clock
            }),
    {
        let hl = self.reg.hl();
        let de = self.reg.de();
        let bc = self.reg.bc();
        let n = self.ram[hl as usize];
        self.ram[de as usize] = n;
        let left = step16(bc, true);
        let f = block_ld(self.reg.f, n, self.reg.a, left != 0);
        self.reg.set_hl(step16(hl, down));
        self.reg.set_de(step16(de, down));
        self.reg.set_bc(left);
        self.reg.f = f;
    }

    /// `LDI`. Two bytes.
    pub fn ldi(&mut self) -> (pc: ProgramCounter)
        ensures
            final(self).reg == block_regs(old(self).reg, old(self).byte(old(self).reg.spec_hl()), false),
            final(self).ram@ == old(self).ram@.update(
                old(self).reg.spec_de() as int,
                old(self).byte(old(self).reg.spec_hl()),
            ),
            final(self).ctl == old(self).ctl,
            final(self).clock == old(self).clock,
            pc == ProgramCounter::Next(2),
    {
        self.block_move(false);
        ProgramCounter::Next(2)
    }

    /// `LDD`. Two bytes.
    pub fn ldd(&mut self) -> (pc: ProgramCounter)
        ensures
            final(self).reg == block_regs(old(self).reg, old(self).byte(old(self).reg.spec_hl()), true),
            final(self).ram@ == old(self).ram@.update(
                old(self).reg.spec_de() as int,
                old(self).byte(old(self).reg.spec_hl()),
            ),
            final(self).ctl == old(self).ctl,
            final(self).clock == old(self).clock,
            pc == ProgramCounter::Next(2),
    {
        self.block_move(true);
        ProgramCounter::Next(2)
    }

    /// `LDIR`: `LDI`, then run again from the same address while `BC` is
    /// not zero.
    pub fn ldir(&mut self) -> (pc: ProgramCounter)
        ensures
            final(self).reg == block_regs(old(self).reg, old(self).byte(old(self).reg.spec_hl()), false),
            final(self).ram@ == old(self).ram@.update(
                old(self).reg.spec_de() as int,
                old(self).byte(old(self).reg.spec_hl()),
            ),
            final(self).ctl == old(self).ctl,
            final(self).clock == old(self).clock,
            pc == if wrap16(old(self).reg.spec_bc() - 1) != 0 {
                ProgramCounter::Jump(old(self).reg.pc)
            } else {
                ProgramCounter::Next(2)
            },
    {
        let bc = self.reg.bc();
        self.block_move(false);
        if bc != 1 {
            ProgramCounter::Jump(self.reg.pc)
        } else {
            ProgramCounter::Next(2)
        }
    }

    /// `LDDR`: `LDD`, then run again from the same address while `BC` is
    /// not zero.
    pub fn lddr(&mut self) -> (pc: ProgramCounter)
        ensures
            final(self).reg == block_regs(old(self).reg, old(self).byte(old(self).reg.spec_hl()), true),
            final(self).ram@ == old(self).ram@.update(
                old(self).reg.spec_de() as int,
                old(self).byte(old(self).reg.spec_hl()),
            ),
            final(self).ctl == old(self).ctl,
            final(self).clock == old(self).clock,
            pc == if wrap16(old(self).reg.spec_bc() - 1) != 0 {
                ProgramCounter::Jump(old(self).reg.pc)
            } else {
                ProgramCounter::Next(2)
            },
    {
        let bc = self.reg.bc();
        self.block_move(true);
        if bc != 1 {
            ProgramCounter::Jump(self.reg.pc)
        } else {
            ProgramCounter::Next(2)
        }
    }

    /// One compare of `A` with the byte at `HL`.
    fn block_compare(&mut self, down: bool)
        ensures
            final(self).reg == block_cp_regs(old(self).reg, old(self).byte(old(self).reg.spec_hl()), down),
            final(self).ram@ == old(self).ram@,
            final(self).ctl == old(self).ctl,
            final(self).clock == old(self).clock,
    {
        let hl = self.reg.hl();
        let bc = self.reg.bc();
        let n = self.ram[hl as usize];
        let left = step16(bc, true);
        let f = block_cp(self.reg.f, self.reg.a, n, left != 0);
        self.reg.set_hl(step16(hl, down));
        self.reg.set_bc(left);
        self.reg.f = f;
    }

    /// `CPI`. Two bytes.
    pub fn cpi(&mut self) -> (pc: ProgramCounter)
        ensures
            old(self).regs_become(
                *final(self),
                block_cp_regs(old(self).reg, old(self).byte(old(self).reg.spec_hl()), false),
            ),
            pc == ProgramCounter::Next(2),
    {
        self.block_compare(false);
        ProgramCounter::Next(2)
    }

    /// `CPD`. Two bytes.
    pub fn cpd(&mut self) -> (pc: ProgramCounter)
        ensures
            old(self).regs_become(
                *final(self),
                block_cp_regs(old(self).reg, old(self).byte(old(self).reg.spec_hl()), true),
            ),
            pc == ProgramCounter::Next(2),
    {
        self.block_compare(true);
        ProgramCounter::Next(2)
    }

    /// `CPIR`: `CPI`, then run again from the same address while `BC` is
    /// not zero and no match was found.
    pub fn cpir(&mut self) -> (pc: ProgramCounter)
        ensures
            old(self).regs_become(
                *final(self),
                block_cp_regs(old(self).reg, old(self).byte(old(self).reg.spec_hl()), false),
            ),
            pc == if block_cp_repeats(old(self).reg, old(self).byte(old(self).reg.spec_hl())) {
                ProgramCounter::Jump(old(self).reg.pc)
            } else {
                ProgramCounter::Next(2)
            },
    {
        let bc = self.reg.bc();
        let n = self.ram[self.reg.hl() as usize];
        self.block_compare(false);
        if bc != 1 && self.reg.a != n {
            ProgramCounter::Jump(self.reg.pc)
        } else {
            ProgramCounter::Next(2)
        }
    }

    /// `CPDR`: `CPD`, then run again from the same address while `BC` is
    /// not zero and no match was found.
    pub fn cpdr(&mut self) -> (pc: ProgramCounter)
        ensures
            old(self).regs_become(
                *final(self),
                block_cp_regs(old(self).reg, old(self).byte(old(self).reg.spec_hl()), true),
            ),
            pc == if block_cp_repeats(old(self).reg, old(self).byte(old(self).reg.spec_hl())) {
                ProgramCounter::Jump(old(self).reg.pc)
            } else {
                ProgramCounter::Next(2)
            },
    {
        let bc = self.reg.bc();
        let n = self.ram[self.reg.hl() as usize];
        self.block_compare(true);
        if bc != 1 && self.reg.a != n {
            ProgramCounter::Jump(self.reg.pc)
        } else {
            ProgramCounter::Next(2)
        }
    }

    /// `RLD` (`left`) or `RRD`: rotates a digit between `A` and the byte at
    /// `HL`. Two bytes.
    pub fn rotate_digit(&mut self, left: bool) -> (pc: ProgramCounter)
        ensures
            ({
                let r = old(self).reg;
                let m = old(self).byte(r.spec_hl());
                let (a, v) = if left {
                    rld_values(r.a, m)
                } else {
                    rrd_values(r.a, m)
                };
                &&& final(self).reg == (Registers { a: a, f: digit_flags(r.f, a), ..r })
                &&& final(self).ram@ == old(self).ram@.update(r.spec_hl() as int, v)
                &&& final(self).ctl == old(self).ctl
                &&& final(self).clock == old(self).clock
            }),
            pc == ProgramCounter::Next(2),
    {
        let hl = self.reg.hl();
        let m = self.ram[hl as usize];
        let a = self.reg.a;
        let (na, nm) = if left {
            ((a / 16) * 16 + m / 16, (m % 16) * 16 + a % 16)
        } else {
            ((a / 16) * 16 + m % 16, (a % 16) * 16 + m / 16)
        };
        self.ram[hl as usize] = nm;
        self.reg.a = na;
        self.reg.f = digit(self.reg.f, na);
        ProgramCounter::Next(2)
    }
}

} // verus!
