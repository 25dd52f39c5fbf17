//! Properties that hold of every state and value.
use vstd::prelude::*;

use crate::flags::{
    bit8_flags, block_cp_flags, block_ld_flags, carry_of, carry_op_flags, cpl_flags, dec8_flags,
    digit_flags, has_bit, inc8_flags, ld_a_ir_flags, add16_flags, rota_flags, CF, PF, SF, ZF,
};
use crate::decode::{decode, Instr};
use crate::machine::{instr_regs, operands_valid};
use crate::registers::{hi_byte, lo_byte, pair_value, Registers, ID_BC, ID_DE, ID_HL};

verus! {

/// A pair is its high byte shifted left by eight, or-ed with its low byte.
pub proof fn lemma_pair_bits(hi: u8, lo: u8)
    ensures
        pair_value(hi, lo) == ((hi as u16) << 8u16) | (lo as u16),
{
    assert(pair_value(hi, lo) == hi as u16 * 256 + lo as u16);
    assert(((hi as u16) << 8u16) | (lo as u16) == hi as u16 * 256 + lo as u16) by (bit_vector);
}

/// In every state, `AF`, `BC`, `DE` and `HL` read as `(high << 8) | low`
/// of their byte halves: the pairs are views of the bytes, with no storage
/// of their own, so no handler can make them disagree.
pub proof fn lemma_pairs_are_views(r: Registers)
    ensures
        r.spec_af() == ((r.a as u16) << 8u16) | (r.f as u16),
        r.spec_bc() == ((r.b as u16) << 8u16) | (r.c as u16),
        r.spec_de() == ((r.d as u16) << 8u16) | (r.e as u16),
        r.spec_hl() == ((r.h as u16) << 8u16) | (r.l as u16),
{
    lemma_pair_bits(r.a, r.f);
    lemma_pair_bits(r.b, r.c);
    lemma_pair_bits(r.d, r.e);
    lemma_pair_bits(r.h, r.l);
}

/// Splitting a word into its bytes and joining them again gives the word;
/// the high byte is `v >> 8`, the low byte `v & 0xFF`.
pub proof fn lemma_bytes_of_word(v: u16)
    ensures
        pair_value(hi_byte(v), lo_byte(v)) == v,
        hi_byte(v) == (v >> 8u16) as u8,
        lo_byte(v) == (v & 0xffu16) as u8,
{
    assert(hi_byte(v) == v / 256);
    assert(lo_byte(v) == v % 256);
    assert((v >> 8u16) == v / 256) by (bit_vector);
    assert((v & 0xffu16) == v % 256) by (bit_vector);
}

/// Writing a 16-bit value to `BC`, `DE` or `HL` and reading the byte halves
/// gives its high byte in the first register and its low byte in the
/// second; reading the pair gives the value back.
pub proof fn lemma_pair_round_trip(r: Registers, v: u16)
    ensures
        r.with_reg16(ID_BC, v).b == (v >> 8u16) as u8,
        r.with_reg16(ID_BC, v).c == (v & 0xffu16) as u8,
        r.with_reg16(ID_BC, v).spec_bc() == v,
        r.with_reg16(ID_DE, v).d == (v >> 8u16) as u8,
        r.with_reg16(ID_DE, v).e == (v & 0xffu16) as u8,
        r.with_reg16(ID_DE, v).spec_de() == v,
        r.with_reg16(ID_HL, v).h == (v >> 8u16) as u8,
        r.with_reg16(ID_HL, v).l == (v & 0xffu16) as u8,
        r.with_reg16(ID_HL, v).spec_hl() == v,
{
    lemma_bytes_of_word(v);
}

/// The flag bytes that take the previous `F` as an input (`INC`, `DEC`,
/// `LD A,I`, `LD A,R`) depend on it through its carry bit alone, and keep
/// that bit; every other flag function takes no previous flags at all.
pub proof fn lemma_flags_keep_only_carry(v: u8, iff2: bool, f1: u8, f2: u8)
    requires
        carry_of(f1) == carry_of(f2),
    ensures
        inc8_flags(v, f1) == inc8_flags(v, f2),
        dec8_flags(v, f1) == dec8_flags(v, f2),
        ld_a_ir_flags(v, iff2, f1) == ld_a_ir_flags(v, iff2, f2),
        carry_of(inc8_flags(v, f1)) == carry_of(f1),
        carry_of(dec8_flags(v, f1)) == carry_of(f1),
        carry_of(ld_a_ir_flags(v, iff2, f1)) == carry_of(f1),
{
}

/// The flag functions that keep more of the previous flags than the carry
/// read exactly the bits they keep: two flag bytes that agree on those bits
/// give the same result. `RLCA`-style rotates, `ADD HL` and `SCF` keep `S`,
/// `Z` and `P/V`; `CCF` and `CPL` those and `C`; the block moves `S`, `Z`
/// and `C`; `BIT`, the block compares and the digit rotates `C` alone.
pub proof fn lemma_flags_keep_named_bits(
    f1: u8,
    f2: u8,
    v: u8,
    n: u8,
    a: u16,
    b: u16,
    carry: bool,
    mask: u8,
)
    ensures
        has_bit(f1, SF) == has_bit(f2, SF) && has_bit(f1, ZF) == has_bit(f2, ZF) && has_bit(f1, PF)
            == has_bit(f2, PF) ==> {
            &&& rota_flags(f1, v, carry) == rota_flags(f2, v, carry)
            &&& add16_flags(f1, a, b) == add16_flags(f2, a, b)
            &&& carry_op_flags(f1, v, false) == carry_op_flags(f2, v, false)
            &&& (has_bit(f1, CF) == has_bit(f2, CF) ==> carry_op_flags(f1, v, true)
                == carry_op_flags(f2, v, true) && cpl_flags(f1, v) == cpl_flags(f2, v))
        },
        has_bit(f1, SF) == has_bit(f2, SF) && has_bit(f1, ZF) == has_bit(f2, ZF) && has_bit(f1, CF)
            == has_bit(f2, CF) ==> block_ld_flags(f1, v, n, carry) == block_ld_flags(f2, v, n, carry),
        has_bit(f1, CF) == has_bit(f2, CF) ==> {
            &&& bit8_flags(v, mask, f1) == bit8_flags(v, mask, f2)
            &&& block_cp_flags(f1, v, n, carry) == block_cp_flags(f2, v, n, carry)
            &&& digit_flags(f1, v) == digit_flags(f2, v)
        },
{
    assert(f1 as int / 1 == f1 as int);
    assert(f2 as int / 1 == f2 as int);
}

/// No instruction handler writes the program counter: every change of
/// control flow goes through the `ProgramCounter` it returns, which `step`
/// alone applies.
pub proof fn lemma_handlers_leave_pc(r: Registers, mem: Seq<u8>, iff2: bool, ins: Instr)
    ensures
        instr_regs(r, mem, iff2, ins).pc == r.pc,
{
}

/// The decode tables are closed: every instruction they yield names only
/// registers of the identifier space its operands use, so no invalid
/// register identifier ever reaches the register file from `step`.
pub proof fn lemma_decoded_operands_valid(mem: Seq<u8>, pc: u16)
    ensures
        decode(mem, pc) matches Some(ins) ==> operands_valid(ins),
{
}

} // verus!
