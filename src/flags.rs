use vstd::prelude::*;

verus! {

/// Bits of the flag register `F`, high to low: `S Z Y H X P/V N C`.
pub const SF: u8 = 0x80;
pub const ZF: u8 = 0x40;
pub const YF: u8 = 0x20;
pub const HF: u8 = 0x10;
pub const XF: u8 = 0x08;
pub const PF: u8 = 0x04;
pub const NF: u8 = 0x02;
pub const CF: u8 = 0x01;

/// `mask` when `b` holds, else zero.
pub open spec fn flag(b: bool, mask: u8) -> int {
    if b {
        mask as int
    } else {
        0
    }
}

/// Whether the bit selected by the one-bit `mask` is set in `v`.
pub open spec fn has_bit(v: u8, mask: u8) -> bool {
    (v as int / mask as int) % 2 == 1
}

/// The carry bit of a flag byte.
pub open spec fn carry_of(f: u8) -> bool {
    f as int % 2 == 1
}

/// Value of a byte read as a two's complement number.
pub open spec fn signed_value(v: u8) -> int {
    if v < 128 {
        v as int
    } else {
        v as int - 256
    }
}

/// Number of set bits in `v`.
pub open spec fn ones(v: nat) -> nat
    decreases v,
{
    if v == 0 {
        0
    } else {
        (v % 2) + ones(v / 2)
    }
}

/// Sign, zero and the two undocumented copies (bits 5 and 3) taken from `v`.
pub open spec fn szyx(v: u8) -> int {
    flag(v >= 128, SF) + flag(v == 0, ZF) + flag(has_bit(v, 0x20), YF) + flag(has_bit(v, 0x08), XF)
}

/// Flags after `ADD`/`ADC`: `a + b + carry`.
pub open spec fn add8_flags(a: u8, b: u8, carry: bool) -> u8 {
    let c: int = if carry { 1 } else { 0 };
    let res = ((a + b + c) % 256) as u8;
    let sv = signed_value(a) + signed_value(b) + c;
    (szyx(res) + flag(a as int % 16 + b as int % 16 + c >= 16, HF) + flag(sv < -128 || sv > 127, PF)
        + flag(a + b + c >= 256, CF)) as u8
}

/// Flags after `SUB`/`SBC`: `a - b - carry`.
pub open spec fn sub8_flags(a: u8, b: u8, carry: bool) -> u8 {
    let c: int = if carry { 1 } else { 0 };
    let res = ((a - b - c) % 256) as u8;
    let sv = signed_value(a) - signed_value(b) - c;
    (szyx(res) + flag(a as int % 16 < b as int % 16 + c, HF) + flag(sv < -128 || sv > 127, PF)
        + NF + flag(a < b + c, CF)) as u8
}

/// Flags after `CP`: those of `a - b`, except that bits 5 and 3 are copied
/// from the operand `b`, not from the discarded difference.
pub open spec fn cp8_flags(a: u8, b: u8) -> u8 {
    let res = ((a - b) % 256) as u8;
    let sv = signed_value(a) - signed_value(b);
    (flag(res >= 128, SF) + flag(res == 0, ZF) + flag(has_bit(b, 0x20), YF) + flag(has_bit(b, 0x08), XF)
        + flag(a as int % 16 < b as int % 16, HF) + flag(sv < -128 || sv > 127, PF) + NF + flag(
        a < b,
        CF,
    )) as u8
}

/// Flags after `INC` of `v`; the carry of `f` is kept.
pub open spec fn inc8_flags(v: u8, f: u8) -> u8 {
    let res = ((v + 1) % 256) as u8;
    (szyx(res) + flag(v as int % 16 == 15, HF) + flag(v == 0x7f, PF) + flag(carry_of(f), CF)) as u8
}

/// Flags after `DEC` of `v`; the carry of `f` is kept.
pub open spec fn dec8_flags(v: u8, f: u8) -> u8 {
    let res = ((v - 1) % 256) as u8;
    (szyx(res) + flag(v as int % 16 == 0, HF) + flag(v == 0x80, PF) + NF + flag(carry_of(f), CF)) as u8
}

/// Flags after `AND`, `OR` or `XOR` produced `res`: `H` is set by `AND`
/// alone, `P/V` is the parity of the result, `N` and `C` are cleared.
pub open spec fn logic8_flags(res: u8, is_and: bool) -> u8 {
    (szyx(res) + flag(is_and, HF) + flag(ones(res as nat) % 2 == 0, PF)) as u8
}

/// The bit `mask` of `f`, kept in place.
pub open spec fn kept(f: u8, mask: u8) -> int {
    flag(has_bit(f, mask), mask)
}

/// Bits 5 and 3 copied from `v`.
pub open spec fn yx(v: u8) -> int {
    flag(has_bit(v, 0x20), YF) + flag(has_bit(v, 0x08), XF)
}

/// Flags after `RLCA`, `RRCA`, `RLA` or `RRA` produced `res` with carry
/// out `carry`: `S`, `Z` and `P/V` kept, `H` and `N` cleared.
pub open spec fn rota_flags(f: u8, res: u8, carry: bool) -> u8 {
    (kept(f, SF) + kept(f, ZF) + yx(res) + kept(f, PF) + flag(carry, CF)) as u8
}

/// Flags after `CPL` produced `res`: `H` and `N` set, the rest kept but for
/// bits 5 and 3, copied from `res`.
pub open spec fn cpl_flags(f: u8, res: u8) -> u8 {
    (kept(f, SF) + kept(f, ZF) + yx(res) + HF + kept(f, PF) + NF + kept(f, CF)) as u8
}

/// Flags after `SCF` (`complement` false) or `CCF` (true) with accumulator
/// `a`: `S`, `Z`, `P/V` kept, `N` cleared, `H` the carry before for `CCF`.
pub open spec fn carry_op_flags(f: u8, a: u8, complement: bool) -> u8 {
    (kept(f, SF) + kept(f, ZF) + yx(a) + flag(complement && carry_of(f), HF) + kept(f, PF) + flag(
        !complement || !carry_of(f),
        CF,
    )) as u8
}

/// Value of a word read as a two's complement number.
pub open spec fn signed16(v: u16) -> int {
    if v < 32768 {
        v as int
    } else {
        v as int - 65536
    }
}

/// Flags after `ADD HL,ss` (or into `IX`, `IY`): `S`, `Z`, `P/V` kept,
/// `H` the carry out of bit 11, `C` out of bit 15, bits 5 and 3 from the
/// high byte of the result.
pub open spec fn add16_flags(f: u8, a: u16, b: u16) -> u8 {
    let res = ((a + b) % 65536) as u16;
    (kept(f, SF) + kept(f, ZF) + yx((res as int / 256) as u8) + flag(
        a as int % 4096 + b as int % 4096 >= 4096,
        HF,
    ) + kept(f, PF) + flag(a + b >= 65536, CF)) as u8
}

/// Flags after `ADC HL,ss`.
pub open spec fn adc16_flags(a: u16, b: u16, carry: bool) -> u8 {
    let c: int = if carry { 1 } else { 0 };
    let res = ((a + b + c) % 65536) as u16;
    let sv = signed16(a) + signed16(b) + c;
    (flag(res >= 32768, SF) + flag(res == 0, ZF) + yx((res as int / 256) as u8) + flag(
        a as int % 4096 + b as int % 4096 + c >= 4096,
        HF,
    ) + flag(sv < -32768 || sv > 32767, PF) + flag(a + b + c >= 65536, CF)) as u8
}

/// Flags after `SBC HL,ss`.
pub open spec fn sbc16_flags(a: u16, b: u16, carry: bool) -> u8 {
    let c: int = if carry { 1 } else { 0 };
    let res = ((a - b - c) % 65536) as u16;
    let sv = signed16(a) - signed16(b) - c;
    (flag(res >= 32768, SF) + flag(res == 0, ZF) + yx((res as int / 256) as u8) + flag(
        a as int % 4096 < b as int % 4096 + c,
        HF,
    ) + flag(sv < -32768 || sv > 32767, PF) + NF + flag(a < b + c, CF)) as u8
}

/// The correction `DAA` adds to (or, after a subtraction, takes from) `a`.
pub open spec fn daa_diff(a: u8, f: u8) -> int {
    (if carry_of(f) || a > 0x99 { 0x60int } else { 0 }) + (if has_bit(f, HF) || a as int % 16 > 9 {
        0x06int
    } else {
        0
    })
}

/// The accumulator after `DAA`.
pub open spec fn daa_value(a: u8, f: u8) -> u8 {
    (if has_bit(f, NF) {
        (a - daa_diff(a, f)) % 256
    } else {
        (a + daa_diff(a, f)) % 256
    }) as u8
}

/// Flags after `DAA`: `C` set when the high digit was corrected, `H` from
/// the low digit, `N` kept, `P/V` parity of the result.
pub open spec fn daa_flags(a: u8, f: u8) -> u8 {
    let res = daa_value(a, f);
    let h = if has_bit(f, NF) {
        has_bit(f, HF) && (a as int % 16) < 6
    } else {
        a as int % 16 > 9
    };
    (szyx(res) + flag(h, HF) + flag(ones(res as nat) % 2 == 0, PF) + kept(f, NF) + flag(
        carry_of(f) || a > 0x99,
        CF,
    )) as u8
}

/// Flags after `LDI` or `LDD` moved `n` with accumulator `a`: `S`, `Z`, `C`
/// kept, `H` and `N` cleared, `P/V` set while `BC` is not zero, bits 5 and
/// 3 from bits 1 and 3 of `n + a`.
pub open spec fn block_ld_flags(f: u8, n: u8, a: u8, bc_nonzero: bool) -> u8 {
    let t = ((n + a) % 256) as u8;
    (kept(f, SF) + kept(f, ZF) + flag(has_bit(t, 0x02), YF) + flag(has_bit(t, 0x08), XF) + flag(
        bc_nonzero,
        PF,
    ) + kept(f, CF)) as u8
}

/// Flags after `CPI` or `CPD` compared `a` with `n`: `S`, `Z` and `H` of
/// `a - n`, `P/V` set while `BC` is not zero, `N` set, `C` kept, bits 5 and
/// 3 from bits 1 and 3 of `a - n - H`.
pub open spec fn block_cp_flags(f: u8, a: u8, n: u8, bc_nonzero: bool) -> u8 {
    let res = ((a - n) % 256) as u8;
    let h = a as int % 16 < n as int % 16;
    let t = ((res - (if h { 1int } else { 0int })) % 256) as u8;
    (flag(res >= 128, SF) + flag(res == 0, ZF) + flag(has_bit(t, 0x02), YF) + flag(h, HF) + flag(
        has_bit(t, 0x08),
        XF,
    ) + flag(bc_nonzero, PF) + NF + kept(f, CF)) as u8
}

/// Flags after `RLD` or `RRD` left `a` in the accumulator: `H` and `N`
/// cleared, `P/V` parity, `C` kept.
pub open spec fn digit_flags(f: u8, a: u8) -> u8 {
    (szyx(a) + flag(ones(a as nat) % 2 == 0, PF) + kept(f, CF)) as u8
}

/// Flags after a rotate or shift of the `0xCB` table produced `res`,
/// with `carry` the bit shifted out: `H` and `N` cleared, `P/V` parity.
pub open spec fn shift8_flags(res: u8, carry: bool) -> u8 {
    (szyx(res) + flag(ones(res as nat) % 2 == 0, PF) + flag(carry, CF)) as u8
}

/// Flags after `BIT` tested the bit `mask` of `v`: `Z` and `P/V` set when
/// the bit is clear, `S` when it is bit 7 and set, `H` set, `N` cleared,
/// the carry of `f` kept, bits 5 and 3 copied from `v`.
pub open spec fn bit8_flags(v: u8, mask: u8, f: u8) -> u8 {
    let set = has_bit(v, mask);
    (flag(mask == 0x80 && set, SF) + flag(!set, ZF) + flag(has_bit(v, 0x20), YF) + HF + flag(
        has_bit(v, 0x08),
        XF,
    ) + flag(!set, PF) + flag(carry_of(f), CF)) as u8
}

/// Flags after `LD A,I` or `LD A,R` moved `v`: `P/V` mirrors `IFF2`, the
/// carry of `f` is kept, `H` and `N` are cleared.
pub open spec fn ld_a_ir_flags(v: u8, iff2: bool, f: u8) -> u8 {
    (szyx(v) + flag(iff2, PF) + flag(carry_of(f), CF)) as u8
}

fn mask_if(b: bool, mask: u8) -> (r: u8)
    ensures
        r == flag(b, mask),
{
    if b {
        mask
    } else {
        0
    }
}

/// Sign, zero, and bits 5 and 3 of `v`, in their flag positions.
pub fn sign_zero_xy(v: u8) -> (r: u8)
    ensures
        r == szyx(v),
{
    mask_if(v >= 128, SF) + mask_if(v == 0, ZF) + mask_if((v / 32) % 2 == 1, YF) + mask_if(
        (v / 8) % 2 == 1,
        XF,
    )
}

fn signed(v: u8) -> (r: i16)
    ensures
        r as int == signed_value(v),
{
    if v < 128 {
        v as i16
    } else {
        v as i16 - 256
    }
}

/// `a + b + c` modulo 256.
pub fn add_bytes(a: u8, b: u8, c: bool) -> (r: u8)
    ensures
        r == ((a + b + (if c { 1int } else { 0int })) % 256) as u8,
{
    let s: u16 = a as u16 + b as u16 + if c { 1 } else { 0 };
    (s % 256) as u8
}

/// `a - b - c` modulo 256.
pub fn sub_bytes(a: u8, b: u8, c: bool) -> (r: u8)
    ensures
        r == ((a - b - (if c { 1int } else { 0int })) % 256) as u8,
{
    let d: i16 = a as i16 - b as i16 - if c { 1 } else { 0 };
    if d < 0 {
        (d + 256) as u8
    } else {
        d as u8
    }
}

/// The flag byte after an 8-bit addition with carry in.
pub fn add8(a: u8, b: u8, carry: bool) -> (f: u8)
    ensures
        f == add8_flags(a, b, carry),
{
    let c: u16 = if carry { 1 } else { 0 };
    let sum: u16 = a as u16 + b as u16 + c;
    let res: u8 = (sum % 256) as u8;
    let sv: i16 = signed(a) + signed(b) + c as i16;
    sign_zero_xy(res) + mask_if(a % 16 + b % 16 + c as u8 >= 16, HF) + mask_if(
        sv < -128 || sv > 127,
        PF,
    ) + mask_if(sum >= 256, CF)
}

/// The flag byte after an 8-bit subtraction with borrow in.
pub fn sub8(a: u8, b: u8, carry: bool) -> (f: u8)
    ensures
        f == sub8_flags(a, b, carry),
{
    let c: i16 = if carry { 1 } else { 0 };
    let diff: i16 = a as i16 - b as i16 - c;
    let res: u8 = sub_bytes(a, b, carry);
    let sv: i16 = signed(a) - signed(b) - c;
    sign_zero_xy(res) + mask_if(((a % 16) as i16) < (b % 16) as i16 + c, HF) + mask_if(
        sv < -128 || sv > 127,
        PF,
    ) + NF + mask_if(diff < 0, CF)
}

/// The flag byte after comparing `a` with `b`.
pub fn cp8(a: u8, b: u8) -> (f: u8)
    ensures
        f == cp8_flags(a, b),
{
    let diff: i16 = a as i16 - b as i16;
    let res: u8 = if diff < 0 {
        (diff + 256) as u8
    } else {
        diff as u8
    };
    let sv: i16 = signed(a) - signed(b);
    mask_if(res >= 128, SF) + mask_if(res == 0, ZF) + mask_if((b / 32) % 2 == 1, YF) + mask_if(
        (b / 8) % 2 == 1,
        XF,
    ) + mask_if(a % 16 < b % 16, HF) + mask_if(sv < -128 || sv > 127, PF) + NF + mask_if(a < b, CF)
}

/// The flag byte after incrementing `v`, given the flags `f` before.
pub fn inc8(v: u8, f: u8) -> (r: u8)
    ensures
        r == inc8_flags(v, f),
{
    let res: u8 = if v == 255 {
        0
    } else {
        v + 1
    };
    sign_zero_xy(res) + mask_if(v % 16 == 15, HF) + mask_if(v == 0x7f, PF) + mask_if(
        f % 2 == 1,
        CF,
    )
}

/// The flag byte after decrementing `v`, given the flags `f` before.
pub fn dec8(v: u8, f: u8) -> (r: u8)
    ensures
        r == dec8_flags(v, f),
{
    let res: u8 = if v == 0 {
        255
    } else {
        v - 1
    };
    sign_zero_xy(res) + mask_if(v % 16 == 0, HF) + mask_if(v == 0x80, PF) + NF + mask_if(
        f % 2 == 1,
        CF,
    )
}

proof fn lemma_ones_bounded(v: nat)
    ensures
        ones(v) <= v,
    decreases v,
{
    if v > 0 {
        lemma_ones_bounded(v / 2);
    }
}

/// Whether `v` has an even number of set bits.
pub fn parity_even(v: u8) -> (r: bool)
    ensures
        r == (ones(v as nat) % 2 == 0),
{
    let mut rest: u8 = v;
    let mut count: u8 = 0;
    proof {
        lemma_ones_bounded(v as nat);
    }
    while rest > 0
        invariant
            count as nat + ones(rest as nat) == ones(v as nat),
            ones(v as nat) <= 255,
        decreases rest,
    {
        count = count + (rest % 2);
        rest = rest / 2;
    }
    count % 2 == 0
}

/// The flag byte after `AND` (`is_and`), `OR` or `XOR` produced `res`.
pub fn logic8(res: u8, is_and: bool) -> (f: u8)
    ensures
        f == logic8_flags(res, is_and),
{
    sign_zero_xy(res) + mask_if(is_and, HF) + mask_if(parity_even(res), PF)
}

fn keep(f: u8, mask: u8) -> (r: u8)
    requires
        mask > 0,
    ensures
        r == kept(f, mask),
{
    mask_if((f / mask) % 2 == 1, mask)
}

fn copy_yx(v: u8) -> (r: u8)
    ensures
        r == yx(v),
{
    mask_if((v / 0x20) % 2 == 1, YF) + mask_if((v / 0x08) % 2 == 1, XF)
}

/// The flag byte after an accumulator rotate.
pub fn rota(f: u8, res: u8, carry: bool) -> (r: u8)
    ensures
        r == rota_flags(f, res, carry),
{
    keep(f, SF) + keep(f, ZF) + copy_yx(res) + keep(f, PF) + mask_if(carry, CF)
}

/// The flag byte after `CPL`.
pub fn cpl(f: u8, res: u8) -> (r: u8)
    ensures
        r == cpl_flags(f, res),
{
    keep(f, SF) + keep(f, ZF) + copy_yx(res) + HF + keep(f, PF) + NF + keep(f, CF)
}

/// The flag byte after `SCF` or, with `complement`, `CCF`.
pub fn carry_op(f: u8, a: u8, complement: bool) -> (r: u8)
    ensures
        r == carry_op_flags(f, a, complement),
{
    let c = f % 2 == 1;
    keep(f, SF) + keep(f, ZF) + copy_yx(a) + mask_if(complement && c, HF) + keep(f, PF) + mask_if(
        !complement || !c,
        CF,
    )
}

/// The flag byte after `ADD` of two words.
pub fn add16(f: u8, a: u16, b: u16) -> (r: u8)
    ensures
        r == add16_flags(f, a, b),
{
    let sum: u32 = a as u32 + b as u32;
    let res: u16 = (sum % 65536) as u16;
    keep(f, SF) + keep(f, ZF) + copy_yx((res / 256) as u8) + mask_if(
        a % 4096 + b % 4096 >= 4096,
        HF,
    ) + keep(f, PF) + mask_if(sum >= 65536, CF)
}

fn signed_word(v: u16) -> (r: i32)
    ensures
        r as int == signed16(v),
{
    if v < 32768 {
        v as i32
    } else {
        v as i32 - 65536
    }
}

/// The flag byte after `ADC` of two words.
pub fn adc16(a: u16, b: u16, carry: bool) -> (r: u8)
    ensures
        r == adc16_flags(a, b, carry),
{
    let c: u32 = if carry { 1 } else { 0 };
    let sum: u32 = a as u32 + b as u32 + c;
    let res: u16 = (sum % 65536) as u16;
    let sv: i32 = signed_word(a) + signed_word(b) + c as i32;
    mask_if(res >= 32768, SF) + mask_if(res == 0, ZF) + copy_yx((res / 256) as u8) + mask_if(
        a % 4096 + b % 4096 + c as u16 >= 4096,
        HF,
    ) + mask_if(sv < -32768 || sv > 32767, PF) + mask_if(sum >= 65536, CF)
}

/// The flag byte after `SBC` of two words.
pub fn sbc16(a: u16, b: u16, carry: bool) -> (r: u8)
    ensures
        r == sbc16_flags(a, b, carry),
{
    let c: i32 = if carry { 1 } else { 0 };
    let diff: i32 = a as i32 - b as i32 - c;
    let res: u16 = if diff < 0 {
        (diff + 65536) as u16
    } else {
        diff as u16
    };
    let sv: i32 = signed_word(a) - signed_word(b) - c;
    mask_if(res >= 32768, SF) + mask_if(res == 0, ZF) + copy_yx((res / 256) as u8) + mask_if(
        ((a % 4096) as i32) < (b % 4096) as i32 + c,
        HF,
    ) + mask_if(sv < -32768 || sv > 32767, PF) + NF + mask_if(diff < 0, CF)
}

/// The accumulator and flag byte after `DAA`.
pub fn daa(a: u8, f: u8) -> (r: (u8, u8))
    ensures
        r == (daa_value(a, f), daa_flags(a, f)),
{
    let hi: u8 = if f % 2 == 1 || a > 0x99 {
        0x60
    } else {
        0
    };
    let lo: u8 = if (f / HF) % 2 == 1 || a % 16 > 9 {
        0x06
    } else {
        0
    };
    let diff: u8 = hi + lo;
    let subtract = (f / NF) % 2 == 1;
    let res: u8 = if subtract {
        sub_bytes(a, diff, false)
    } else {
        add_bytes(a, diff, false)
    };
    let h = if subtract {
        (f / HF) % 2 == 1 && a % 16 < 6
    } else {
        a % 16 > 9
    };
    let flags = sign_zero_xy(res) + mask_if(h, HF) + mask_if(parity_even(res), PF) + keep(f, NF)
        + mask_if(f % 2 == 1 || a > 0x99, CF);
    (res, flags)
}

/// The flag byte after `LDI` or `LDD` moved `n`, with accumulator `a`.
pub fn block_ld(f: u8, n: u8, a: u8, bc_nonzero: bool) -> (r: u8)
    ensures
        r == block_ld_flags(f, n, a, bc_nonzero),
{
    let t = add_bytes(n, a, false);
    keep(f, SF) + keep(f, ZF) + mask_if((t / 0x02) % 2 == 1, YF) + mask_if((t / 0x08) % 2 == 1, XF)
        + mask_if(bc_nonzero, PF) + keep(f, CF)
}

/// The flag byte after `CPI` or `CPD` compared `a` with `n`.
pub fn block_cp(f: u8, a: u8, n: u8, bc_nonzero: bool) -> (r: u8)
    ensures
        r == block_cp_flags(f, a, n, bc_nonzero),
{
    let res = sub_bytes(a, n, false);
    let h = a % 16 < n % 16;
    let t = sub_bytes(res, 0, h);
    mask_if(res >= 128, SF) + mask_if(res == 0, ZF) + mask_if((t / 0x02) % 2 == 1, YF) + mask_if(
        h,
        HF,
    ) + mask_if((t / 0x08) % 2 == 1, XF) + mask_if(bc_nonzero, PF) + NF + keep(f, CF)
}

/// The flag byte after `RLD` or `RRD` left `a` in the accumulator.
pub fn digit(f: u8, a: u8) -> (r: u8)
    ensures
        r == digit_flags(f, a),
{
    sign_zero_xy(a) + mask_if(parity_even(a), PF) + keep(f, CF)
}

/// The flag byte after a rotate or shift produced `res` and shifted out `carry`.
pub fn shift8(res: u8, carry: bool) -> (f: u8)
    ensures
        f == shift8_flags(res, carry),
{
    sign_zero_xy(res) + mask_if(parity_even(res), PF) + mask_if(carry, CF)
}

/// The flag byte after `BIT` tested the bit `mask` of `v`, given flags `f`.
pub fn bit8(v: u8, mask: u8, f: u8) -> (r: u8)
    requires
        mask > 0,
    ensures
        r == bit8_flags(v, mask, f),
{
    let set = (v / mask) % 2 == 1;
    mask_if(mask == 0x80 && set, SF) + mask_if(!set, ZF) + mask_if((v / 0x20) % 2 == 1, YF) + HF
        + mask_if((v / 0x08) % 2 == 1, XF) + mask_if(!set, PF) + mask_if(f % 2 == 1, CF)
}

/// The flag byte after `LD A,I` or `LD A,R` moved `v` into `A`.
pub fn ld_a_ir(v: u8, iff2: bool, f: u8) -> (r: u8)
    ensures
        r == ld_a_ir_flags(v, iff2, f),
{
    sign_zero_xy(v) + mask_if(iff2, PF) + mask_if(f % 2 == 1, CF)
}

} // verus!
