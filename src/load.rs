//! The 8-bit and 16-bit load groups. Each handler changes registers or
//! memory and reports how far the program counter moves; it never writes
//! `PC` itself.
use vstd::prelude::*;

use crate::cpu::{indexed_addr, load_word, offset_addr, store_word, ProgramCounter, CPU};
use crate::flags::{ld_a_ir, ld_a_ir_flags};
use crate::registers::{is_dd_id, is_reg8_id, Registers, ID_HL};

verus! {

#[allow(non_snake_case)]
impl CPU {
    /// `LD r,r'`: copies register `ry` into `rx`. One byte.
    pub fn ld_x_y(&mut self, rx: u8, ry: u8) -> (pc: ProgramCounter)
        requires
            is_reg8_id(rx),
            is_reg8_id(ry),
        ensures
            old(self).regs_become(*final(self), old(self).reg.with_reg8(rx, old(self).reg.reg8(ry))),
            pc == ProgramCounter::Next(1),
    {
        let v = self.get8(ry);
        self.set8(rx, v);
        ProgramCounter::Next(1)
    }

    /// `LD r,n`: loads the immediate `n` into `r`. Two bytes.
    pub fn ld_r_n(&mut self, r: u8, n: u8) -> (pc: ProgramCounter)
        requires
            is_reg8_id(r),
        ensures
            old(self).regs_become(*final(self), old(self).reg.with_reg8(r, n)),
            pc == ProgramCounter::Next(2),
    {
        self.set8(r, n);
        ProgramCounter::Next(2)
    }

    /// `LD r,(HL)`: loads the byte at `HL` into `r`. One byte.
    pub fn ld_r_HL(&mut self, r: u8) -> (pc: ProgramCounter)
        requires
            is_reg8_id(r),
        ensures
            old(self).regs_become(
                *final(self),
                old(self).reg.with_reg8(r, old(self).byte(old(self).reg.spec_hl())),
            ),
            pc == ProgramCounter::Next(1),
    {
        let v = self.ram[self.reg.hl() as usize];
        self.set8(r, v);
        ProgramCounter::Next(1)
    }

    /// `LD r,(IX+d)`: loads the byte at `IX + d` into `r`. Three bytes.
    pub fn ld_r_IX(&mut self, r: u8, d: i8) -> (pc: ProgramCounter)
        requires
            is_reg8_id(r),
        ensures
            old(self).regs_become(
                *final(self),
                old(self).reg.with_reg8(r, old(self).byte(indexed_addr(old(self).reg.ix, d))),
            ),
            pc == ProgramCounter::Next(3),
    {
        let v = self.ram[offset_addr(self.reg.ix, d) as usize];
        self.set8(r, v);
        ProgramCounter::Next(3)
    }

    /// `LD r,(IY+d)`: loads the byte at `IY + d` into `r`. Three bytes.
    pub fn ld_r_IY(&mut self, r: u8, d: i8) -> (pc: ProgramCounter)
        requires
            is_reg8_id(r),
        ensures
            old(self).regs_become(
                *final(self),
                old(self).reg.with_reg8(r, old(self).byte(indexed_addr(old(self).reg.iy, d))),
            ),
            pc == ProgramCounter::Next(3),
    {
        let v = self.ram[offset_addr(self.reg.iy, d) as usize];
        self.set8(r, v);
        ProgramCounter::Next(3)
    }

    /// `LD (HL),r`: stores `r` at `HL`. One byte.
    pub fn ld_HL_r(&mut self, r: u8) -> (pc: ProgramCounter)
        requires
            is_reg8_id(r),
        ensures
            old(self).mem_becomes(
                *final(self),
                old(self).ram@.update(old(self).reg.spec_hl() as int, old(self).reg.reg8(r)),
            ),
            pc == ProgramCounter::Next(1),
    {
        let v = self.get8(r);
        self.ram[self.reg.hl() as usize] = v;
        ProgramCounter::Next(1)
    }

    /// `LD (HL),n`: stores the immediate `n` at `HL`. Two bytes.
    pub fn ld_HL_n(&mut self, n: u8) -> (pc: ProgramCounter)
        ensures
            old(self).mem_becomes(*final(self), old(self).ram@.update(old(self).reg.spec_hl() as int, n)),
            pc == ProgramCounter::Next(2),
    {
        self.ram[self.reg.hl() as usize] = n;
        ProgramCounter::Next(2)
    }

    /// `LD (IX+d),r`: stores `r` at `IX + d`. Three bytes.
    pub fn ld_IX_r(&mut self, r: u8, d: i8) -> (pc: ProgramCounter)
        requires
            is_reg8_id(r),
        ensures
            old(self).mem_becomes(
                *final(self),
                old(self).ram@.update(indexed_addr(old(self).reg.ix, d) as int, old(self).reg.reg8(r)),
            ),
            pc == ProgramCounter::Next(3),
    {
        let v = self.get8(r);
        self.ram[offset_addr(self.reg.ix, d) as usize] = v;
        ProgramCounter::Next(3)
    }

    /// `LD (IY+d),r`: stores `r` at `IY + d`. Three bytes.
    pub fn ld_IY_r(&mut self, r: u8, d: i8) -> (pc: ProgramCounter)
        requires
            is_reg8_id(r),
        ensures
            old(self).mem_becomes(
                *final(self),
                old(self).ram@.update(indexed_addr(old(self).reg.iy, d) as int, old(self).reg.reg8(r)),
            ),
            pc == ProgramCounter::Next(3),
    {
        let v = self.get8(r);
        self.ram[offset_addr(self.reg.iy, d) as usize] = v;
        ProgramCounter::Next(3)
    }

    /// `LD (IX+d),n`: stores the immediate `n` at `IX + d`; the displacement
    /// precedes the immediate in the stream. Four bytes.
    pub fn ld_IX_n(&mut self, d: i8, n: u8) -> (pc: ProgramCounter)
        ensures
            old(self).mem_becomes(
                *final(self),
                old(self).ram@.update(indexed_addr(old(self).reg.ix, d) as int, n),
            ),
            pc == ProgramCounter::Next(4),
    {
        self.ram[offset_addr(self.reg.ix, d) as usize] = n;
        ProgramCounter::Next(4)
    }

    /// `LD (IY+d),n`: stores the immediate `n` at `IY + d`. Four bytes.
    pub fn ld_IY_n(&mut self, d: i8, n: u8) -> (pc: ProgramCounter)
        ensures
            old(self).mem_becomes(
                *final(self),
                old(self).ram@.update(indexed_addr(old(self).reg.iy, d) as int, n),
            ),
            pc == ProgramCounter::Next(4),
    {
        self.ram[offset_addr(self.reg.iy, d) as usize] = n;
        ProgramCounter::Next(4)
    }

    /// `LD A,(BC)`. One byte.
    pub fn ld_A_BC(&mut self) -> (pc: ProgramCounter)
        ensures
            old(self).regs_become(
                *final(self),
                Registers { a: old(self).byte(old(self).reg.spec_bc()), ..old(self).reg },
            ),
            pc == ProgramCounter::Next(1),
    {
        self.reg.a = self.ram[self.reg.bc() as usize];
        ProgramCounter::Next(1)
    }

    /// `LD A,(DE)`. One byte.
    pub fn ld_A_DE(&mut self) -> (pc: ProgramCounter)
        ensures
            old(self).regs_become(
                *final(self),
                Registers { a: old(self).byte(old(self).reg.spec_de()), ..old(self).reg },
            ),
            pc == ProgramCounter::Next(1),
    {
        self.reg.a = self.ram[self.reg.de() as usize];
        ProgramCounter::Next(1)
    }

    /// `LD A,(nn)`. Three bytes.
    pub fn ld_A_nn(&mut self, nn: u16) -> (pc: ProgramCounter)
        ensures
            old(self).regs_become(*final(self), Registers { a: old(self).byte(nn), ..old(self).reg }),
            pc == ProgramCounter::Next(3),
    {
        self.reg.a = self.ram[nn as usize];
        ProgramCounter::Next(3)
    }

    /// `LD (BC),A`. One byte.
    pub fn ld_BC_A(&mut self) -> (pc: ProgramCounter)
        ensures
            old(self).mem_becomes(
                *final(self),
                old(self).ram@.update(old(self).reg.spec_bc() as int, old(self).reg.a),
            ),
            pc == ProgramCounter::Next(1),
    {
        self.ram[self.reg.bc() as usize] = self.reg.a;
        ProgramCounter::Next(1)
    }

    /// `LD (DE),A`. One byte.
    pub fn ld_DE_A(&mut self) -> (pc: ProgramCounter)
        ensures
            old(self).mem_becomes(
                *final(self),
                old(self).ram@.update(old(self).reg.spec_de() as int, old(self).reg.a),
            ),
            pc == ProgramCounter::Next(1),
    {
        self.ram[self.reg.de() as usize] = self.reg.a;
        ProgramCounter::Next(1)
    }

    /// `LD (nn),A`. Three bytes.
    pub fn ld_nn_A(&mut self, nn: u16) -> (pc: ProgramCounter)
        ensures
            old(self).mem_becomes(*final(self), old(self).ram@.update(nn as int, old(self).reg.a)),
            pc == ProgramCounter::Next(3),
    {
        self.ram[nn as usize] = self.reg.a;
        ProgramCounter::Next(3)
    }

    /// `LD A,I`: the one load besides `LD A,R` that sets flags. Two bytes.
    pub fn ld_A_I(&mut self) -> (pc: ProgramCounter)
        ensures
            old(self).regs_become(
                *final(self),
                Registers {
                    a: old(self).reg.i,
                    f: ld_a_ir_flags(old(self).reg.i, old(self).ctl.iff2, old(self).reg.f),
                    ..old(self).reg
                },
            ),
            pc == ProgramCounter::Next(2),
    {
        self.reg.a = self.reg.i;
        self.reg.f = ld_a_ir(self.reg.i, self.ctl.iff2, self.reg.f);
        ProgramCounter::Next(2)
    }

    /// `LD A,R`. Two bytes.
    pub fn ld_A_R(&mut self) -> (pc: ProgramCounter)
        ensures
            old(self).regs_become(
                *final(self),
                Registers {
                    a: old(self).reg.r,
                    f: ld_a_ir_flags(old(self).reg.r, old(self).ctl.iff2, old(self).reg.f),
                    ..old(self).reg
                },
            ),
            pc == ProgramCounter::Next(2),
    {
        self.reg.a = self.reg.r;
        self.reg.f = ld_a_ir(self.reg.r, self.ctl.iff2, self.reg.f);
        ProgramCounter::Next(2)
    }

    /// `LD I,A`. Two bytes.
    pub fn ld_I_A(&mut self) -> (pc: ProgramCounter)
        ensures
            old(self).regs_become(*final(self), Registers { i: old(self).reg.a, ..old(self).reg }),
            pc == ProgramCounter::Next(2),
    {
        self.reg.i = self.reg.a;
        ProgramCounter::Next(2)
    }

    /// `LD R,A`. Two bytes.
    pub fn ld_R_A(&mut self) -> (pc: ProgramCounter)
        ensures
            old(self).regs_become(*final(self), Registers { r: old(self).reg.a, ..old(self).reg }),
            pc == ProgramCounter::Next(2),
    {
        self.reg.r = self.reg.a;
        ProgramCounter::Next(2)
    }

    /// `LD dd,nn`: loads the immediate `nn` into the pair `dd`. Three bytes.
    pub fn ld_dd_nn(&mut self, dd: u8, nn: u16) -> (pc: ProgramCounter)
        requires
            is_dd_id(dd),
        ensures
            old(self).regs_become(*final(self), old(self).reg.with_reg16(dd, nn)),
            pc == ProgramCounter::Next(3),
    {
        self.set16(dd, nn);
        ProgramCounter::Next(3)
    }

    /// `LD IX,nn`. Four bytes.
    pub fn ld_IX_nn(&mut self, nn: u16) -> (pc: ProgramCounter)
        ensures
            old(self).regs_become(*final(self), Registers { ix: nn, ..old(self).reg }),
            pc == ProgramCounter::Next(4),
    {
        self.reg.ix = nn;
        ProgramCounter::Next(4)
    }

    /// `LD IY,nn`. Four bytes.
    pub fn ld_IY_nn(&mut self, nn: u16) -> (pc: ProgramCounter)
        ensures
            old(self).regs_become(*final(self), Registers { iy: nn, ..old(self).reg }),
            pc == ProgramCounter::Next(4),
    {
        self.reg.iy = nn;
        ProgramCounter::Next(4)
    }

    /// `LD HL,(nn)`: `L` from `nn`, `H` from `nn + 1`. Three bytes.
    pub fn ld_HL_addr_nn(&mut self, nn: u16) -> (pc: ProgramCounter)
        ensures
            old(self).regs_become(
                *final(self),
                old(self).reg.with_reg16(ID_HL, load_word(old(self).ram@, nn)),
            ),
            pc == ProgramCounter::Next(3),
    {
        let v = self.read_word(nn);
        self.set16(ID_HL, v);
        ProgramCounter::Next(3)
    }

    /// `LD dd,(nn)`: low byte from `nn`, high byte from `nn + 1`. Four bytes.
    pub fn ld_dd_addr_nn(&mut self, dd: u8, nn: u16) -> (pc: ProgramCounter)
        requires
            is_dd_id(dd),
        ensures
            old(self).regs_become(
                *final(self),
                old(self).reg.with_reg16(dd, load_word(old(self).ram@, nn)),
            ),
            pc == ProgramCounter::Next(4),
    {
        let v = self.read_word(nn);
        self.set16(dd, v);
        ProgramCounter::Next(4)
    }

    /// `LD IX,(nn)`. Four bytes.
    pub fn ld_IX_addr_nn(&mut self, nn: u16) -> (pc: ProgramCounter)
        ensures
            old(self).regs_become(
                *final(self),
                Registers { ix: load_word(old(self).ram@, nn), ..old(self).reg },
            ),
            pc == ProgramCounter::Next(4),
    {
        self.reg.ix = self.read_word(nn);
        ProgramCounter::Next(4)
    }

    /// `LD IY,(nn)`. Four bytes.
    pub fn ld_IY_addr_nn(&mut self, nn: u16) -> (pc: ProgramCounter)
        ensures
            old(self).regs_become(
                *final(self),
                Registers { iy: load_word(old(self).ram@, nn), ..old(self).reg },
            ),
            pc == ProgramCounter::Next(4),
    {
        self.reg.iy = self.read_word(nn);
        ProgramCounter::Next(4)
    }

    /// `LD (nn),HL`: `L` to `nn`, `H` to `nn + 1`. Three bytes.
    pub fn ld_addr_nn_HL(&mut self, nn: u16) -> (pc: ProgramCounter)
        ensures
            old(self).mem_becomes(
                *final(self),
                store_word(old(self).ram@, nn, old(self).reg.spec_hl()),
            ),
            pc == ProgramCounter::Next(3),
    {
        let v = self.reg.hl();
        self.write_word(nn, v);
        ProgramCounter::Next(3)
    }

    /// `LD (nn),dd`: low byte to `nn`, high byte to `nn + 1`. Four bytes.
    pub fn ld_addr_nn_dd(&mut self, dd: u8, nn: u16) -> (pc: ProgramCounter)
        requires
            is_dd_id(dd),
        ensures
            old(self).mem_becomes(
                *final(self),
                store_word(old(self).ram@, nn, old(self).reg.reg16(dd)),
            ),
            pc == ProgramCounter::Next(4),
    {
        let v = self.get16(dd);
        self.write_word(nn, v);
        ProgramCounter::Next(4)
    }

    /// `LD (nn),IX`. Four bytes.
    pub fn ld_addr_nn_IX(&mut self, nn: u16) -> (pc: ProgramCounter)
        ensures
            old(self).mem_becomes(*final(self), store_word(old(self).ram@, nn, old(self).reg.ix)),
            pc == ProgramCounter::Next(4),
    {
        let v = self.reg.ix;
        self.write_word(nn, v);
        ProgramCounter::Next(4)
    }

    /// `LD (nn),IY`. Four bytes.
    pub fn ld_addr_nn_IY(&mut self, nn: u16) -> (pc: ProgramCounter)
        ensures
            old(self).mem_becomes(*final(self), store_word(old(self).ram@, nn, old(self).reg.iy)),
            pc == ProgramCounter::Next(4),
    {
        let v = self.reg.iy;
        self.write_word(nn, v);
        ProgramCounter::Next(4)
    }

    /// `LD SP,HL`. One byte.
    pub fn ld_SP_HL(&mut self) -> (pc: ProgramCounter)
        ensures
            old(self).regs_become(*final(self), Registers { sp: old(self).reg.spec_hl(), ..old(self).reg }),
            pc == ProgramCounter::Next(1),
    {
        self.reg.sp = self.reg.hl();
        ProgramCounter::Next(1)
    }

    /// `LD SP,IX`. Two bytes.
    pub fn ld_SP_IX(&mut self) -> (pc: ProgramCounter)
        ensures
            old(self).regs_become(*final(self), Registers { sp: old(self).reg.ix, ..old(self).reg }),
            pc == ProgramCounter::Next(2),
    {
        self.reg.sp = self.reg.ix;
        ProgramCounter::Next(2)
    }

    /// `LD SP,IY`. Two bytes.
    pub fn ld_SP_IY(&mut self) -> (pc: ProgramCounter)
        ensures
            old(self).regs_become(*final(self), Registers { sp: old(self).reg.iy, ..old(self).reg }),
            pc == ProgramCounter::Next(2),
    {
        self.reg.sp = self.reg.iy;
        ProgramCounter::Next(2)
    }
}

} // verus!
