use vstd::prelude::*;

verus! {

/// 8-bit register identifiers, as encoded in the opcode's `r` fields.
pub const ID_A: u8 = 0b111;
pub const ID_B: u8 = 0b000;
pub const ID_C: u8 = 0b001;
pub const ID_D: u8 = 0b010;
pub const ID_E: u8 = 0b011;
pub const ID_H: u8 = 0b100;
pub const ID_L: u8 = 0b101;

/// 16-bit register identifiers: a code space of its own, distinct from the
/// 8-bit one (`ID_SP` has the bit pattern of `ID_E`, `ID_IX` that of `ID_H`).
pub const ID_BC: u8 = 0b000;
pub const ID_DE: u8 = 0b001;
pub const ID_HL: u8 = 0b010;
pub const ID_SP: u8 = 0b011;
pub const ID_IX: u8 = 0b100;
pub const ID_IY: u8 = 0b101;

/// `AF` in the `qq` space of `PUSH` and `POP`, where it takes the place of `SP`.
pub const ID_AF: u8 = 0b011;

/// The 16-bit value whose high byte is `hi` and low byte is `lo`.
pub open spec fn pair_value(hi: u8, lo: u8) -> u16 {
    (hi as int * 256 + lo as int) as u16
}

/// High-order byte of a 16-bit value.
pub open spec fn hi_byte(v: u16) -> u8 {
    (v as int / 256) as u8
}

/// Low-order byte of a 16-bit value.
pub open spec fn lo_byte(v: u16) -> u8 {
    (v as int % 256) as u8
}

/// Whether `id` names an 8-bit register.
pub open spec fn is_reg8_id(id: u8) -> bool {
    id == ID_A || id == ID_B || id == ID_C || id == ID_D || id == ID_E || id == ID_H || id
        == ID_L
}

/// Whether `id` names a 16-bit register: `BC`, `DE`, `HL`, `SP`, `IX`, `IY`.
pub open spec fn is_reg16_id(id: u8) -> bool {
    id <= ID_IY
}

/// The `qq` pairs of the stack group: `BC`, `DE`, `HL`, `AF`.
pub open spec fn is_qq_id(id: u8) -> bool {
    id <= ID_AF
}

/// The `dd` pairs of the 16-bit load group: `BC`, `DE`, `HL`, `SP`.
pub open spec fn is_dd_id(id: u8) -> bool {
    id <= ID_SP
}

/// The architectural register file. The pairs `AF`, `BC`, `DE` and `HL`
/// have no storage of their own: they are views of their byte halves.
#[derive(Clone, Copy, Debug, PartialEq, Eq, Structural)]
pub struct Registers {
    pub a: u8,
    pub f: u8,
    pub b: u8,
    pub c: u8,
    pub d: u8,
    pub e: u8,
    pub h: u8,
    pub l: u8,
    pub a_alt: u8,
    pub f_alt: u8,
    pub b_alt: u8,
    pub c_alt: u8,
    pub d_alt: u8,
    pub e_alt: u8,
    pub h_alt: u8,
    pub l_alt: u8,
    pub i: u8,
    pub r: u8,
    pub ix: u16,
    pub iy: u16,
    pub pc: u16,
    pub sp: u16,
}

impl Registers {
    /// `AF` as the view of `A` and `F`.
    pub open spec fn spec_af(self) -> u16 {
        pair_value(self.a, self.f)
    }

    /// `BC` as the view of `B` and `C`.
    pub open spec fn spec_bc(self) -> u16 {
        pair_value(self.b, self.c)
    }

    /// `DE` as the view of `D` and `E`.
    pub open spec fn spec_de(self) -> u16 {
        pair_value(self.d, self.e)
    }

    /// `HL` as the view of `H` and `L`.
    pub open spec fn spec_hl(self) -> u16 {
        pair_value(self.h, self.l)
    }

    /// Value of the 8-bit register `id`.
    pub open spec fn reg8(self, id: u8) -> u8 {
        if id == ID_A {
            self.a
        } else if id == ID_B {
            self.b
        } else if id == ID_C {
            self.c
        } else if id == ID_D {
            self.d
        } else if id == ID_E {
            self.e
        } else if id == ID_H {
            self.h
        } else {
            self.l
        }
    }

    /// The register file with the 8-bit register `id` set to `v`.
    pub open spec fn with_reg8(self, id: u8, v: u8) -> Registers {
        if id == ID_A {
            Registers { a: v, ..self }
        } else if id == ID_B {
            Registers { b: v, ..self }
        } else if id == ID_C {
            Registers { c: v, ..self }
        } else if id == ID_D {
            Registers { d: v, ..self }
        } else if id == ID_E {
            Registers { e: v, ..self }
        } else if id == ID_H {
            Registers { h: v, ..self }
        } else {
            Registers { l: v, ..self }
        }
    }

    /// Value of the 16-bit register `id`.
    pub open spec fn reg16(self, id: u8) -> u16 {
        if id == ID_BC {
            self.spec_bc()
        } else if id == ID_DE {
            self.spec_de()
        } else if id == ID_HL {
            self.spec_hl()
        } else if id == ID_SP {
            self.sp
        } else if id == ID_IX {
            self.ix
        } else {
            self.iy
        }
    }

    /// The register file with the 16-bit register `id` set to `v`.
    pub open spec fn with_reg16(self, id: u8, v: u16) -> Registers {
        if id == ID_BC {
            Registers { b: hi_byte(v), c: lo_byte(v), ..self }
        } else if id == ID_DE {
            Registers { d: hi_byte(v), e: lo_byte(v), ..self }
        } else if id == ID_HL {
            Registers { h: hi_byte(v), l: lo_byte(v), ..self }
        } else if id == ID_SP {
            Registers { sp: v, ..self }
        } else if id == ID_IX {
            Registers { ix: v, ..self }
        } else {
            Registers { iy: v, ..self }
        }
    }

    /// Value of the pair `qq` of the stack group.
    pub open spec fn qq(self, qq: u8) -> u16 {
        if qq == ID_AF {
            self.spec_af()
        } else {
            self.reg16(qq)
        }
    }

    /// The register file with the stack-group pair `qq` set to `v`.
    pub open spec fn with_qq(self, qq: u8, v: u16) -> Registers {
        if qq == ID_AF {
            Registers { a: hi_byte(v), f: lo_byte(v), ..self }
        } else {
            self.with_reg16(qq, v)
        }
    }

    /// The register file after `EX AF,AF'`.
    pub open spec fn spec_exchanged_af(self) -> Registers {
        Registers { a: self.a_alt, f: self.f_alt, a_alt: self.a, f_alt: self.f, ..self }
    }

    /// The register file after `EXX`.
    pub open spec fn spec_exchanged_main(self) -> Registers {
        Registers {
            b: self.b_alt,
            c: self.c_alt,
            d: self.d_alt,
            e: self.e_alt,
            h: self.h_alt,
            l: self.l_alt,
            b_alt: self.b,
            c_alt: self.c,
            d_alt: self.d,
            e_alt: self.e,
            h_alt: self.h,
            l_alt: self.l,
            ..self
        }
    }

    /// All registers zero.
    pub open spec fn zeroed() -> Registers {
        Registers {
            a: 0,
            f: 0,
            b: 0,
            c: 0,
            d: 0,
            e: 0,
            h: 0,
            l: 0,
            a_alt: 0,
            f_alt: 0,
            b_alt: 0,
            c_alt: 0,
            d_alt: 0,
            e_alt: 0,
            h_alt: 0,
            l_alt: 0,
            i: 0,
            r: 0,
            ix: 0,
            iy: 0,
            pc: 0,
            sp: 0,
        }
    }

    /// All registers zero.
    pub fn new() -> (r: Registers)
        ensures
            r == Registers::zeroed(),
    {
        Registers {
            a: 0,
            f: 0,
            b: 0,
            c: 0,
            d: 0,
            e: 0,
            h: 0,
            l: 0,
            a_alt: 0,
            f_alt: 0,
            b_alt: 0,
            c_alt: 0,
            d_alt: 0,
            e_alt: 0,
            h_alt: 0,
            l_alt: 0,
            i: 0,
            r: 0,
            ix: 0,
            iy: 0,
            pc: 0,
            sp: 0,
        }
    }

    /// Reads `AF`.
    pub fn af(&self) -> (v: u16)
        ensures
            v == self.spec_af(),
    {
        join(self.a, self.f)
    }

    /// Reads `BC`.
    pub fn bc(&self) -> (v: u16)
        ensures
            v == self.spec_bc(),
    {
        join(self.b, self.c)
    }

    /// Reads `DE`.
    pub fn de(&self) -> (v: u16)
        ensures
            v == self.spec_de(),
    {
        join(self.d, self.e)
    }

    /// Reads `HL`.
    pub fn hl(&self) -> (v: u16)
        ensures
            v == self.spec_hl(),
    {
        join(self.h, self.l)
    }

    /// Writes `AF`: the high byte to `A`, the low byte to `F`.
    pub fn set_af(&mut self, v: u16)
        ensures
            *final(self) == (Registers { a: hi_byte(v), f: lo_byte(v), ..*old(self) }),
    {
        self.a = high(v);
        self.f = low(v);
    }

    /// Writes `BC`: the high byte to `B`, the low byte to `C`.
    pub fn set_bc(&mut self, v: u16)
        ensures
            *final(self) == old(self).with_reg16(ID_BC, v),
    {
        self.b = high(v);
        self.c = low(v);
    }

    /// Writes `DE`: the high byte to `D`, the low byte to `E`.
    pub fn set_de(&mut self, v: u16)
        ensures
            *final(self) == old(self).with_reg16(ID_DE, v),
    {
        self.d = high(v);
        self.e = low(v);
    }

    /// Writes `HL`: the high byte to `H`, the low byte to `L`.
    pub fn set_hl(&mut self, v: u16)
        ensures
            *final(self) == old(self).with_reg16(ID_HL, v),
    {
        self.h = high(v);
        self.l = low(v);
    }

    /// Swaps `A`, `F` with their alternates.
    pub fn exchange_af(&mut self)
        ensures
            *final(self) == old(self).spec_exchanged_af(),
    {
        let a = self.a;
        let f = self.f;
        self.a = self.a_alt;
        self.f = self.f_alt;
        self.a_alt = a;
        self.f_alt = f;
    }

    /// Swaps `B`, `C`, `D`, `E`, `H`, `L` with their alternates.
    pub fn exchange_main(&mut self)
        ensures
            *final(self) == old(self).spec_exchanged_main(),
    {
        let (b, c, d, e, h, l) = (self.b, self.c, self.d, self.e, self.h, self.l);
        self.b = self.b_alt;
        self.c = self.c_alt;
        self.d = self.d_alt;
        self.e = self.e_alt;
        self.h = self.h_alt;
        self.l = self.l_alt;
        self.b_alt = b;
        self.c_alt = c;
        self.d_alt = d;
        self.e_alt = e;
        self.h_alt = h;
        self.l_alt = l;
    }
}

/// Joins two bytes into a 16-bit value, `hi` first.
pub fn join(hi: u8, lo: u8) -> (v: u16)
    ensures
        v == pair_value(hi, lo),
{
    hi as u16 * 256 + lo as u16
}

/// The high-order byte of `v`.
pub fn high(v: u16) -> (b: u8)
    ensures
        b == hi_byte(v),
{
    (v / 256) as u8
}

/// The low-order byte of `v`.
pub fn low(v: u16) -> (b: u8)
    ensures
        b == lo_byte(v),
{
    (v % 256) as u8
}

} // verus!
