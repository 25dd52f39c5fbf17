//! The stack group and the jump, call and return groups. Handlers that
//! transfer control report `ProgramCounter::Jump`; `PC` itself holds the
//! address of the instruction being run.
use vstd::prelude::*;

use crate::cpu::{load_word, store_word, ProgramCounter, CPU};
use crate::flags::has_bit;
use crate::machine::pushed_sp;
use crate::cpu::Signals;
use crate::registers::{is_qq_id, Registers, ID_BC, ID_DE, ID_HL};
use crate::wide::{is_acc16_id, wide_len};

verus! {

/// Condition `cc` of the jump, call and return groups: `NZ`, `Z`, `NC`,
/// `C`, `PO`, `PE`, `P`, `M`.
pub open spec fn cond_holds(f: u8, cc: u8) -> bool {
    if cc == 0 {
        !has_bit(f, 0x40)
    } else if cc == 1 {
        has_bit(f, 0x40)
    } else if cc == 2 {
        !has_bit(f, 0x01)
    } else if cc == 3 {
        has_bit(f, 0x01)
    } else if cc == 4 {
        !has_bit(f, 0x04)
    } else if cc == 5 {
        has_bit(f, 0x04)
    } else if cc == 6 {
        !has_bit(f, 0x80)
    } else {
        has_bit(f, 0x80)
    }
}

/// The stack pointer after popping a word.
pub open spec fn popped_sp(sp: u16) -> u16 {
    ((sp as int + 2) % 65536) as u16
}

/// `pc + len + d`, wrapping: the target of a relative jump of `len` bytes.
pub open spec fn rel_target(pc: u16, len: int, d: i8) -> u16 {
    ((pc as int + len + d as int) % 65536) as u16
}

/// `pc + len`, wrapping: the address after an instruction of `len` bytes.
pub open spec fn after(pc: u16, len: int) -> u16 {
    ((pc as int + len) % 65536) as u16
}

/// Whether condition `cc` holds of the flags `f`.
pub fn cond(f: u8, cc: u8) -> (b: bool)
    ensures
        b == cond_holds(f, cc),
{
    match cc {
        0 => (f / 0x40) % 2 == 0,
        1 => (f / 0x40) % 2 == 1,
        2 => f % 2 == 0,
        3 => f % 2 == 1,
        4 => (f / 0x04) % 2 == 0,
        5 => (f / 0x04) % 2 == 1,
        6 => (f / 0x80) % 2 == 0,
        _ => (f / 0x80) % 2 == 1,
    }
}

fn add_pc(pc: u16, len: u16) -> (r: u16)
    requires
        len <= 4,
    ensures
        r == after(pc, len as int),
{
    ((pc as u32 + len as u32) % 65536) as u16
}

fn rel_pc(pc: u16, d: i8) -> (r: u16)
    ensures
        r == rel_target(pc, 2, d),
{
    let t: i32 = pc as i32 + 2 + d as i32;
    if t < 0 {
        (t + 65536) as u16
    } else if t >= 65536 {
        (t - 65536) as u16
    } else {
        t as u16
    }
}

#[allow(non_snake_case)]
impl CPU {
    /// Pushes `v`: `SP` moves down two bytes, then `v` is stored
    /// little-endian at the new `SP`.
    pub(crate) fn push(&mut self, v: u16)
        ensures
            final(self).reg == (Registers { sp: pushed_sp(old(self).reg.sp), ..old(self).reg }),
            final(self).ram@ == store_word(old(self).ram@, pushed_sp(old(self).reg.sp), v),
            final(self).ctl == old(self).ctl,
            final(self).clock == old(self).clock,
    {
        let sp = self.reg.sp;
        self.reg.sp = if sp < 2 {
            sp + 65534
        } else {
            sp - 2
        };
        let new_sp = self.reg.sp;
        self.write_word(new_sp, v);
    }

    /// Pops the little-endian word at `SP`; `SP` moves up two bytes.
    fn pop(&mut self) -> (v: u16)
        ensures
            v == load_word(old(self).ram@, old(self).reg.sp),
            old(self).regs_become(*final(self), Registers { sp: popped_sp(old(self).reg.sp), ..old(self).reg }),
    {
        let sp = self.reg.sp;
        let v = self.read_word(sp);
        self.reg.sp = if sp >= 65534 {
            sp - 65534
        } else {
            sp + 2
        };
        v
    }

    /// `PUSH qq`. One byte.
    pub fn push_qq(&mut self, qq: u8) -> (pc: ProgramCounter)
        requires
            is_qq_id(qq),
        ensures
            final(self).reg == (Registers { sp: pushed_sp(old(self).reg.sp), ..old(self).reg }),
            final(self).ram@ == store_word(old(self).ram@, pushed_sp(old(self).reg.sp), old(self).reg.qq(qq)),
            final(self).ctl == old(self).ctl,
            final(self).clock == old(self).clock,
            pc == ProgramCounter::Next(1),
    {
        let v = match qq {
            ID_BC => self.reg.bc(),
            ID_DE => self.reg.de(),
            ID_HL => self.reg.hl(),
            _ => self.reg.af(),
        };
        self.push(v);
        ProgramCounter::Next(1)
    }

    /// `POP qq`: low byte from `SP`, high byte from `SP + 1`. One byte.
    pub fn pop_qq(&mut self, qq: u8) -> (pc: ProgramCounter)
        requires
            is_qq_id(qq),
        ensures
            old(self).regs_become(
                *final(self),
                Registers { sp: popped_sp(old(self).reg.sp), ..old(self).reg }.with_qq(
                    qq,
                    load_word(old(self).ram@, old(self).reg.sp),
                ),
            ),
            pc == ProgramCounter::Next(1),
    {
        let v = self.pop();
        match qq {
            ID_BC => self.reg.set_bc(v),
            ID_DE => self.reg.set_de(v),
            ID_HL => self.reg.set_hl(v),
            _ => self.reg.set_af(v),
        }
        ProgramCounter::Next(1)
    }

    /// `PUSH IX`. Two bytes.
    pub fn push_IX(&mut self) -> (pc: ProgramCounter)
        ensures
            final(self).reg == (Registers { sp: pushed_sp(old(self).reg.sp), ..old(self).reg }),
            final(self).ram@ == store_word(old(self).ram@, pushed_sp(old(self).reg.sp), old(self).reg.ix),
            final(self).ctl == old(self).ctl,
            final(self).clock == old(self).clock,
            pc == ProgramCounter::Next(2),
    {
        let v = self.reg.ix;
        self.push(v);
        ProgramCounter::Next(2)
    }

    /// `PUSH IY`. Two bytes.
    pub fn push_IY(&mut self) -> (pc: ProgramCounter)
        ensures
            final(self).reg == (Registers { sp: pushed_sp(old(self).reg.sp), ..old(self).reg }),
            final(self).ram@ == store_word(old(self).ram@, pushed_sp(old(self).reg.sp), old(self).reg.iy),
            final(self).ctl == old(self).ctl,
            final(self).clock == old(self).clock,
            pc == ProgramCounter::Next(2),
    {
        let v = self.reg.iy;
        self.push(v);
        ProgramCounter::Next(2)
    }

    /// `POP IX`. Two bytes.
    pub fn pop_IX(&mut self) -> (pc: ProgramCounter)
        ensures
            old(self).regs_become(
                *final(self),
                Registers {
                    sp: popped_sp(old(self).reg.sp),
                    ix: load_word(old(self).ram@, old(self).reg.sp),
                    ..old(self).reg
                },
            ),
            pc == ProgramCounter::Next(2),
    {
        self.reg.ix = self.pop();
        ProgramCounter::Next(2)
    }

    /// `POP IY`. Two bytes.
    pub fn pop_IY(&mut self) -> (pc: ProgramCounter)
        ensures
            old(self).regs_become(
                *final(self),
                Registers {
                    sp: popped_sp(old(self).reg.sp),
                    iy: load_word(old(self).ram@, old(self).reg.sp),
                    ..old(self).reg
                },
            ),
            pc == ProgramCounter::Next(2),
    {
        self.reg.iy = self.pop();
        ProgramCounter::Next(2)
    }

    /// `JP cc,nn`. Three bytes when not taken.
    pub fn jp_cc(&mut self, cc: u8, nn: u16) -> (pc: ProgramCounter)
        ensures
            old(self).unchanged(*final(self)),
            pc == if cond_holds(old(self).reg.f, cc) {
                ProgramCounter::Jump(nn)
            } else {
                ProgramCounter::Next(3)
            },
    {
        if cond(self.reg.f, cc) {
            ProgramCounter::Jump(nn)
        } else {
            ProgramCounter::Next(3)
        }
    }

    /// `JR e`: relative to the address after its two bytes.
    pub fn jr(&mut self, d: i8) -> (pc: ProgramCounter)
        ensures
            old(self).unchanged(*final(self)),
            pc == ProgramCounter::Jump(rel_target(old(self).reg.pc, 2, d)),
    {
        ProgramCounter::Jump(rel_pc(self.reg.pc, d))
    }

    /// `JR cc,e`, for the conditions `NZ`, `Z`, `NC` and `C`.
    pub fn jr_cc(&mut self, cc: u8, d: i8) -> (pc: ProgramCounter)
        ensures
            old(self).unchanged(*final(self)),
            pc == if cond_holds(old(self).reg.f, cc) {
                ProgramCounter::Jump(rel_target(old(self).reg.pc, 2, d))
            } else {
                ProgramCounter::Next(2)
            },
    {
        if cond(self.reg.f, cc) {
            ProgramCounter::Jump(rel_pc(self.reg.pc, d))
        } else {
            ProgramCounter::Next(2)
        }
    }

    /// `DJNZ e`: decrements `B` and jumps while it is not zero.
    pub fn djnz(&mut self, d: i8) -> (pc: ProgramCounter)
        ensures
            old(self).regs_become(
                *final(self),
                Registers { b: ((old(self).reg.b - 1) % 256) as u8, ..old(self).reg },
            ),
            pc == if old(self).reg.b != 1 {
                ProgramCounter::Jump(rel_target(old(self).reg.pc, 2, d))
            } else {
                ProgramCounter::Next(2)
            },
    {
        let b = self.reg.b;
        self.reg.b = if b == 0 {
            255
        } else {
            b - 1
        };
        if b != 1 {
            ProgramCounter::Jump(rel_pc(self.reg.pc, d))
        } else {
            ProgramCounter::Next(2)
        }
    }

    /// `CALL nn`: pushes the address after its three bytes.
    pub fn call(&mut self, nn: u16) -> (pc: ProgramCounter)
        ensures
            final(self).reg == (Registers { sp: pushed_sp(old(self).reg.sp), ..old(self).reg }),
            final(self).ram@ == store_word(
                old(self).ram@,
                pushed_sp(old(self).reg.sp),
                after(old(self).reg.pc, 3),
            ),
            final(self).ctl == old(self).ctl,
            final(self).clock == old(self).clock,
            pc == ProgramCounter::Jump(nn),
    {
        let ret = add_pc(self.reg.pc, 3);
        self.push(ret);
        ProgramCounter::Jump(nn)
    }

    /// `CALL cc,nn`.
    pub fn call_cc(&mut self, cc: u8, nn: u16) -> (pc: ProgramCounter)
        ensures
            cond_holds(old(self).reg.f, cc) ==> {
                &&& final(self).reg == (Registers { sp: pushed_sp(old(self).reg.sp), ..old(self).reg })
                &&& final(self).ram@ == store_word(
                    old(self).ram@,
                    pushed_sp(old(self).reg.sp),
                    after(old(self).reg.pc, 3),
                )
                &&& final(self).ctl == old(self).ctl
                &&& final(self).clock == old(self).clock
                &&& pc == ProgramCounter::Jump(nn)
            },
            !cond_holds(old(self).reg.f, cc) ==> old(self).unchanged(*final(self)) && pc
                == ProgramCounter::Next(3),
    {
        if cond(self.reg.f, cc) {
            self.call(nn)
        } else {
            ProgramCounter::Next(3)
        }
    }

    /// `RET`: pops the return address.
    pub fn ret(&mut self) -> (pc: ProgramCounter)
        ensures
            old(self).regs_become(*final(self), Registers { sp: popped_sp(old(self).reg.sp), ..old(self).reg }),
            pc == ProgramCounter::Jump(load_word(old(self).ram@, old(self).reg.sp)),
    {
        let a = self.pop();
        ProgramCounter::Jump(a)
    }

    /// `RET cc`.
    pub fn ret_cc(&mut self, cc: u8) -> (pc: ProgramCounter)
        ensures
            cond_holds(old(self).reg.f, cc) ==> old(self).regs_become(
                *final(self),
                Registers { sp: popped_sp(old(self).reg.sp), ..old(self).reg },
            ) && pc == ProgramCounter::Jump(load_word(old(self).ram@, old(self).reg.sp)),
            !cond_holds(old(self).reg.f, cc) ==> old(self).unchanged(*final(self)) && pc
                == ProgramCounter::Next(1),
    {
        if cond(self.reg.f, cc) {
            self.ret()
        } else {
            ProgramCounter::Next(1)
        }
    }

    /// `EX (SP),HL`, `EX (SP),IX`, `EX (SP),IY`: swaps the pair `id` with
    /// the word on top of the stack.
    pub fn ex_sp(&mut self, id: u8) -> (pc: ProgramCounter)
        requires
            is_acc16_id(id),
        ensures
            final(self).reg == old(self).reg.with_reg16(id, load_word(old(self).ram@, old(self).reg.sp)),
            final(self).ram@ == store_word(old(self).ram@, old(self).reg.sp, old(self).reg.reg16(id)),
            final(self).ctl == old(self).ctl,
            final(self).clock == old(self).clock,
            pc == ProgramCounter::Next(wide_len(id)),
    {
        let sp = self.reg.sp;
        let top = self.read_word(sp);
        let v = self.get16(id);
        self.write_word(sp, v);
        self.set16(id, top);
        ProgramCounter::Next(if id == ID_HL {
            1
        } else {
            2
        })
    }

    /// `RETN` and `RETI`: return, and restore `IFF1` from `IFF2`.
    pub fn retn(&mut self) -> (pc: ProgramCounter)
        ensures
            final(self).reg == (Registers { sp: popped_sp(old(self).reg.sp), ..old(self).reg }),
            final(self).ram@ == old(self).ram@,
            final(self).ctl == (Signals { iff1: old(self).ctl.iff2, ..old(self).ctl }),
            final(self).clock == old(self).clock,
            pc == ProgramCounter::Jump(load_word(old(self).ram@, old(self).reg.sp)),
    {
        let a = self.pop();
        self.ctl.iff1 = self.ctl.iff2;
        ProgramCounter::Jump(a)
    }

    /// `RST p`: a one-byte call of the address `p`.
    pub fn rst(&mut self, p: u8) -> (pc: ProgramCounter)
        ensures
            final(self).reg == (Registers { sp: pushed_sp(old(self).reg.sp), ..old(self).reg }),
            final(self).ram@ == store_word(
                old(self).ram@,
                pushed_sp(old(self).reg.sp),
                after(old(self).reg.pc, 1),
            ),
            final(self).ctl == old(self).ctl,
            final(self).clock == old(self).clock,
            pc == ProgramCounter::Jump(p as u16),
    {
        let ret = add_pc(self.reg.pc, 1);
        self.push(ret);
        ProgramCounter::Jump(p as u16)
    }
}

} // verus!
