//! The 16-bit arithmetic group.
use vstd::prelude::*;

use crate::cpu::{ProgramCounter, CPU};
use crate::flags::{adc16, adc16_flags, add16, add16_flags, carry_of, sbc16, sbc16_flags};
use crate::registers::{is_dd_id, is_reg16_id, Registers, ID_HL, ID_IX, ID_IY};

verus! {

/// `v` modulo 2^16.
pub open spec fn wrap16(v: int) -> u16 {
    (v % 65536) as u16
}

/// Whether `id` is `HL`, `IX` or `IY`: the pairs that 16-bit additions
/// accumulate into.
pub open spec fn is_acc16_id(id: u8) -> bool {
    id == ID_HL || id == ID_IX || id == ID_IY
}

/// Bytes of a 16-bit instruction on `id`: one more under an index prefix.
pub open spec fn wide_len(id: u8) -> u8 {
    if id == ID_IX || id == ID_IY {
        2
    } else {
        1
    }
}

fn wide_length(id: u8) -> (n: u8)
    ensures
        n == wide_len(id),
{
    if id == ID_IX || id == ID_IY {
        2
    } else {
        1
    }
}

fn add_words(a: u16, b: u16, c: bool) -> (r: u16)
    ensures
        r == wrap16(a + b + (if c { 1int } else { 0int })),
{
    ((a as u32 + b as u32 + if c { 1 } else { 0 }) % 65536) as u16
}

fn sub_words(a: u16, b: u16, c: bool) -> (r: u16)
    ensures
        r == wrap16(a - b - (if c { 1int } else { 0int })),
{
    let d: i32 = a as i32 - b as i32 - if c { 1 } else { 0 };
    if d < 0 {
        (d + 65536) as u16
    } else {
        d as u16
    }
}

impl CPU {
    /// `INC ss`, `INC IX`, `INC IY`: no flags change.
    pub fn inc16(&mut self, id: u8) -> (pc: ProgramCounter)
        requires
            is_reg16_id(id),
        ensures
            old(self).regs_become(
                *final(self),
                old(self).reg.with_reg16(id, wrap16(old(self).reg.reg16(id) + 1)),
            ),
            pc == ProgramCounter::Next(wide_len(id)),
    {
        let v = self.get16(id);
        self.set16(id, add_words(v, 1, false));
        ProgramCounter::Next(wide_length(id))
    }

    /// `DEC ss`, `DEC IX`, `DEC IY`: no flags change.
    pub fn dec16(&mut self, id: u8) -> (pc: ProgramCounter)
        requires
            is_reg16_id(id),
        ensures
            old(self).regs_become(
                *final(self),
                old(self).reg.with_reg16(id, wrap16(old(self).reg.reg16(id) - 1)),
            ),
            pc == ProgramCounter::Next(wide_len(id)),
    {
        let v = self.get16(id);
        self.set16(id, sub_words(v, 1, false));
        ProgramCounter::Next(wide_length(id))
    }

    /// `ADD HL,ss`, `ADD IX,pp`, `ADD IY,rr`: adds the pair `src` into `dst`.
    pub fn add16(&mut self, dst: u8, src: u8) -> (pc: ProgramCounter)
        requires
            is_acc16_id(dst),
            is_reg16_id(src),
        ensures
            ({
                let r = old(self).reg;
                let (a, b) = (r.reg16(dst), r.reg16(src));
                old(self).regs_become(
                    *final(self),
                    Registers { f: add16_flags(r.f, a, b), ..r.with_reg16(dst, wrap16(a + b)) },
                )
            }),
            pc == ProgramCounter::Next(wide_len(dst)),
    {
        let a = self.get16(dst);
        let b = self.get16(src);
        let f = add16(self.reg.f, a, b);
        self.set16(dst, add_words(a, b, false));
        self.reg.f = f;
        ProgramCounter::Next(wide_length(dst))
    }

    /// `ADC HL,ss`. Two bytes.
    pub fn adc_hl(&mut self, src: u8) -> (pc: ProgramCounter)
        requires
            is_dd_id(src),
        ensures
            ({
                let r = old(self).reg;
                let (a, b, c) = (r.spec_hl(), r.reg16(src), carry_of(r.f));
                old(self).regs_become(
                    *final(self),
                    Registers {
                        f: adc16_flags(a, b, c),
                        ..r.with_reg16(ID_HL, wrap16(a + b + (if c { 1int } else { 0int })))
                    },
                )
            }),
            pc == ProgramCounter::Next(2),
    {
        let a = self.reg.hl();
        let b = self.get16(src);
        let c = self.reg.f % 2 == 1;
        let f = adc16(a, b, c);
        self.reg.set_hl(add_words(a, b, c));
        self.reg.f = f;
        ProgramCounter::Next(2)
    }

    /// `SBC HL,ss`. Two bytes.
    pub fn sbc_hl(&mut self, src: u8) -> (pc: ProgramCounter)
        requires
            is_dd_id(src),
        ensures
            ({
                let r = old(self).reg;
                let (a, b, c) = (r.spec_hl(), r.reg16(src), carry_of(r.f));
                old(self).regs_become(
                    *final(self),
                    Registers {
                        f: sbc16_flags(a, b, c),
                        ..r.with_reg16(ID_HL, wrap16(a - b - (if c { 1int } else { 0int })))
                    },
                )
            }),
            pc == ProgramCounter::Next(2),
    {
        let a = self.reg.hl();
        let b = self.get16(src);
        let c = self.reg.f % 2 == 1;
        let f = sbc16(a, b, c);
        self.reg.set_hl(sub_words(a, b, c));
        self.reg.f = f;
        ProgramCounter::Next(2)
    }
}

} // verus!
