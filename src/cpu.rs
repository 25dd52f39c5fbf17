use vstd::prelude::*;

use crate::registers::{
    hi_byte, high, is_reg16_id, is_reg8_id, join, lo_byte, low, pair_value, Registers, ID_A, ID_B,
    ID_BC, ID_C, ID_D, ID_DE, ID_E, ID_H, ID_HL, ID_IX, ID_IY, ID_L, ID_SP,
};

verus! {

/// How an instruction moves the program counter: past its own bytes, or to
/// an absolute address.
#[derive(Clone, Copy, Debug, PartialEq, Eq, Structural)]
pub enum ProgramCounter {
    Next(u8),
    Jump(u16),
}

/// The control signals: halt state, interrupt enables and mode, and the
/// interrupt lines latched by the driver.
#[derive(Clone, Copy, Debug, PartialEq, Eq, Structural)]
pub struct Signals {
    pub halt: bool,
    pub iff1: bool,
    pub iff2: bool,
    /// Set by `EI`: a maskable interrupt is not accepted before the next
    /// instruction has run.
    pub ei: bool,
    pub im: u8,
    pub nmi: bool,
    pub int: bool,
    /// The byte an interrupting device places on the bus.
    pub data_bus: u8,
}

/// A Z80 with its 64KB address space.
pub struct CPU {
    pub reg: Registers,
    pub ram: [u8; 65536],
    /// T-states elapsed.
    pub clock: u64,
    pub ctl: Signals,
}

/// `a + 1`, wrapping at 64KB.
pub open spec fn next_addr(a: u16) -> u16 {
    ((a as int + 1) % 65536) as u16
}

/// `base + d` for a signed displacement, wrapping at 64KB.
pub open spec fn indexed_addr(base: u16, d: i8) -> u16 {
    ((base as int + d as int) % 65536) as u16
}

/// Memory after storing `v` little-endian at `addr` and the address after it.
pub open spec fn store_word(mem: Seq<u8>, addr: u16, v: u16) -> Seq<u8> {
    mem.update(addr as int, lo_byte(v)).update(next_addr(addr) as int, hi_byte(v))
}

/// The 16-bit value stored little-endian at `addr`.
pub open spec fn load_word(mem: Seq<u8>, addr: u16) -> u16 {
    pair_value(mem[next_addr(addr) as int], mem[addr as int])
}

/// The address after `a`, wrapping at 64KB.
pub fn inc_addr(a: u16) -> (r: u16)
    ensures
        r == next_addr(a),
{
    if a == 0xffff {
        0
    } else {
        a + 1
    }
}

/// `base + d`, wrapping at 64KB.
pub fn offset_addr(base: u16, d: i8) -> (r: u16)
    ensures
        r == indexed_addr(base, d),
{
    let t: i32 = base as i32 + d as i32;
    if t < 0 {
        (t + 65536) as u16
    } else if t >= 65536 {
        (t - 65536) as u16
    } else {
        t as u16
    }
}

impl CPU {
    /// Byte at `addr`.
    pub open spec fn byte(self, addr: u16) -> u8 {
        self.ram@[addr as int]
    }

    /// Only the register file changed, to `reg`.
    pub open spec fn regs_become(self, next: CPU, reg: Registers) -> bool {
        &&& next.reg == reg
        &&& next.ram@ == self.ram@
        &&& next.clock == self.clock
        &&& next.ctl == self.ctl
    }

    /// Only memory changed, to `mem`.
    pub open spec fn mem_becomes(self, next: CPU, mem: Seq<u8>) -> bool {
        &&& next.reg == self.reg
        &&& next.ram@ == mem
        &&& next.clock == self.clock
        &&& next.ctl == self.ctl
    }

    /// Nothing changed.
    pub open spec fn unchanged(self, next: CPU) -> bool {
        self.regs_become(next, self.reg)
    }

    /// A CPU with every register, flag, signal and memory cell zero.
    pub fn new() -> (cpu: CPU)
        ensures
            cpu.reg == Registers::zeroed(),
            forall|a: int| 0 <= a < 65536 ==> cpu.ram@[a] == 0,
            cpu.clock == 0,
            cpu.ctl == (Signals {
                halt: false,
                iff1: false,
                iff2: false,
                ei: false,
                im: 0,
                nmi: false,
                int: false,
                data_bus: 0,
            }),
    {
        CPU {
            reg: Registers::new(),
            ram: [0u8; 65536],
            clock: 0,
            ctl: Signals {
                halt: false,
                iff1: false,
                iff2: false,
                ei: false,
                im: 0,
                nmi: false,
                int: false,
                data_bus: 0,
            },
        }
    }

    /// Reads memory directly, outside instruction semantics.
    pub fn read_mem(&self, addr: u16) -> (v: u8)
        ensures
            v == self.byte(addr),
    {
        self.ram[addr as usize]
    }

    /// Writes memory directly, outside instruction semantics.
    pub fn write_mem(&mut self, addr: u16, v: u8)
        ensures
            old(self).mem_becomes(*final(self), old(self).ram@.update(addr as int, v)),
    {
        self.ram[addr as usize] = v;
    }

    /// Reads the little-endian word at `addr`.
    pub fn read_word(&self, addr: u16) -> (v: u16)
        ensures
            v == load_word(self.ram@, addr),
    {
        join(self.ram[inc_addr(addr) as usize], self.ram[addr as usize])
    }

    /// Writes `v` little-endian at `addr`: low byte first.
    pub fn write_word(&mut self, addr: u16, v: u16)
        ensures
            old(self).mem_becomes(*final(self), store_word(old(self).ram@, addr, v)),
    {
        self.ram[addr as usize] = low(v);
        self.ram[inc_addr(addr) as usize] = high(v);
    }

    pub(crate) fn get8(&self, id: u8) -> (v: u8)
        requires
            is_reg8_id(id),
        ensures
            v == self.reg.reg8(id),
    {
        match id {
            ID_A => self.reg.a,
            ID_B => self.reg.b,
            ID_C => self.reg.c,
            ID_D => self.reg.d,
            ID_E => self.reg.e,
            ID_H => self.reg.h,
            _ => self.reg.l,
        }
    }

    pub(crate) fn set8(&mut self, id: u8, v: u8)
        requires
            is_reg8_id(id),
        ensures
            old(self).regs_become(*final(self), old(self).reg.with_reg8(id, v)),
    {
        match id {
            ID_A => self.reg.a = v,
            ID_B => self.reg.b = v,
            ID_C => self.reg.c = v,
            ID_D => self.reg.d = v,
            ID_E => self.reg.e = v,
            ID_H => self.reg.h = v,
            _ => self.reg.l = v,
        }
    }

    pub(crate) fn get16(&self, id: u8) -> (v: u16)
        requires
            is_reg16_id(id),
        ensures
            v == self.reg.reg16(id),
    {
        match id {
            ID_BC => self.reg.bc(),
            ID_DE => self.reg.de(),
            ID_HL => self.reg.hl(),
            ID_SP => self.reg.sp,
            ID_IX => self.reg.ix,
            _ => self.reg.iy,
        }
    }

    pub(crate) fn set16(&mut self, id: u8, v: u16)
        requires
            is_reg16_id(id),
        ensures
            old(self).regs_become(*final(self), old(self).reg.with_reg16(id, v)),
    {
        match id {
            ID_BC => self.reg.set_bc(v),
            ID_DE => self.reg.set_de(v),
            ID_HL => self.reg.set_hl(v),
            ID_SP => self.reg.sp = v,
            ID_IX => self.reg.ix = v,
            _ => self.reg.iy = v,
        }
    }

    /// Loads `content` into the 8-bit register `reg_id`; `false`, and no
    /// change, when `reg_id` names no 8-bit register.
    pub fn write_to_reg(&mut self, reg_id: u8, content: u8) -> (ok: bool)
        ensures
            ok == is_reg8_id(reg_id),
            ok ==> old(self).regs_become(*final(self), old(self).reg.with_reg8(reg_id, content)),
            !ok ==> old(self).unchanged(*final(self)),
    {
        if is_reg8(reg_id) {
            self.set8(reg_id, content);
            true
        } else {
            false
        }
    }

    /// Content of the 8-bit register `reg_id`, or `None` when it names none.
    pub fn load_from_reg(&self, reg_id: u8) -> (r: Option<u8>)
        ensures
            r == (if is_reg8_id(reg_id) {
                Some(self.reg.reg8(reg_id))
            } else {
                None
            }),
    {
        if is_reg8(reg_id) {
            Some(self.get8(reg_id))
        } else {
            None
        }
    }

    /// Loads the byte at `address` into the 8-bit register `reg_id`.
    pub fn load_mem_to_reg(&mut self, reg_id: u8, address: u16) -> (ok: bool)
        ensures
            ok == is_reg8_id(reg_id),
            ok ==> old(self).regs_become(
                *final(self),
                old(self).reg.with_reg8(reg_id, old(self).byte(address)),
            ),
            !ok ==> old(self).unchanged(*final(self)),
    {
        let v = self.ram[address as usize];
        self.write_to_reg(reg_id, v)
    }

    /// Stores the 8-bit register `reg_id` at `address`; no change when
    /// `reg_id` names no 8-bit register.
    pub fn write_reg_to_mem(&mut self, reg_id: u8, address: u16)
        ensures
            is_reg8_id(reg_id) ==> old(self).mem_becomes(
                *final(self),
                old(self).ram@.update(address as int, old(self).reg.reg8(reg_id)),
            ),
            !is_reg8_id(reg_id) ==> old(self).unchanged(*final(self)),
    {
        match self.load_from_reg(reg_id) {
            Some(val) => self.ram[address as usize] = val,
            None => {},
        }
    }

    /// Loads `content` into the 16-bit register `reg_id`; `false`, and no
    /// change, when `reg_id` names no 16-bit register.
    pub fn write_nn_to_reg(&mut self, reg_id: u8, content: u16) -> (ok: bool)
        ensures
            ok == is_reg16_id(reg_id),
            ok ==> old(self).regs_become(*final(self), old(self).reg.with_reg16(reg_id, content)),
            !ok ==> old(self).unchanged(*final(self)),
    {
        if reg_id <= ID_IY {
            self.set16(reg_id, content);
            true
        } else {
            false
        }
    }

    /// Content of the 16-bit register `reg_id`, or `None` when it names none.
    pub fn load_nn_from_reg(&self, reg_id: u8) -> (r: Option<u16>)
        ensures
            r == (if is_reg16_id(reg_id) {
                Some(self.reg.reg16(reg_id))
            } else {
                None
            }),
    {
        if reg_id <= ID_IY {
            Some(self.get16(reg_id))
        } else {
            None
        }
    }

    /// Loads the little-endian word at `addr` into the 16-bit register `reg_id`.
    pub fn write_nn_mem_to_reg(&mut self, reg_id: u8, addr: u16) -> (ok: bool)
        ensures
            ok == is_reg16_id(reg_id),
            ok ==> old(self).regs_become(
                *final(self),
                old(self).reg.with_reg16(reg_id, load_word(old(self).ram@, addr)),
            ),
            !ok ==> old(self).unchanged(*final(self)),
    {
        let content = self.read_word(addr);
        self.write_nn_to_reg(reg_id, content)
    }

    /// Stores the 16-bit register `reg_id` little-endian at `addr`; no change
    /// when `reg_id` names no 16-bit register.
    pub fn write_nn_reg_to_mem(&mut self, reg_id: u8, addr: u16)
        ensures
            is_reg16_id(reg_id) ==> old(self).mem_becomes(
                *final(self),
                store_word(old(self).ram@, addr, old(self).reg.reg16(reg_id)),
            ),
            !is_reg16_id(reg_id) ==> old(self).unchanged(*final(self)),
    {
        match self.load_nn_from_reg(reg_id) {
            Some(content) => self.write_word(addr, content),
            None => {},
        }
    }
}

fn is_reg8(id: u8) -> (r: bool)
    ensures
        r == is_reg8_id(id),
{
    id == ID_A || id == ID_B || id == ID_C || id == ID_D || id == ID_E || id == ID_H || id == ID_L
}

} // verus!
