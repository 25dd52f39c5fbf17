//! Executing one instruction, or accepting one interrupt, per `step`.
use vstd::prelude::*;

use crate::alu::{
    alu_flags, alu_value, dec_value, inc_value, is_half, operand_len, operand_mem, operand_regs,
    operand_valid, operand_value,
};
use crate::block::{block_cp_regs, block_cp_repeats, block_regs, rld_values, rrd_values};
use crate::bits::{
    bit_mask, cb_len, cb_operand, cb_result, res_value, rot_carry, rot_value, set_value,
};
use crate::cpu::{indexed_addr, load_word, store_word, ProgramCounter, Signals, CPU};
use crate::decode::{decode, Instr, Operand};
use crate::flags::{
    adc16_flags, add16_flags, bit8_flags, carry_of, carry_op_flags, cpl_flags, daa_flags,
    daa_value, dec8_flags, digit_flags, inc8_flags, ld_a_ir_flags, rota_flags, sbc16_flags,
    shift8_flags, sub8_flags,
};
use crate::flow::{after, cond, cond_holds, popped_sp, rel_target};
use crate::registers::{
    is_dd_id, is_qq_id, is_reg16_id, is_reg8_id, join, pair_value, Registers, ID_HL, ID_IX,
    ID_IY,
};
use crate::wide::{is_acc16_id, wide_len, wrap16};

verus! {

/// `step` met an opcode that this core does not provide (input and output,
/// the undocumented halves of the index registers); nothing was changed.
#[derive(Clone, Copy, Debug, PartialEq, Eq, Structural)]
pub struct Unsupported {
    pub pc: u16,
}

/// Whether the operands of `ins` lie in their identifier spaces.
pub open spec fn operands_valid(ins: Instr) -> bool {
    match ins {
        Instr::LdRR(x, y) => is_reg8_id(x) && is_reg8_id(y),
        Instr::LdRN(x, _) => is_reg8_id(x),
        Instr::LdRHl(x) => is_reg8_id(x),
        Instr::LdRIx(x, _) => is_reg8_id(x),
        Instr::LdRIy(x, _) => is_reg8_id(x),
        Instr::LdHlR(x) => is_reg8_id(x),
        Instr::LdIxR(x, _) => is_reg8_id(x),
        Instr::LdIyR(x, _) => is_reg8_id(x),
        Instr::LdDdNn(dd, _) => is_dd_id(dd),
        Instr::LdDdAddrNn(dd, _) => is_dd_id(dd),
        Instr::LdAddrNnDd(dd, _) => is_dd_id(dd),
        Instr::Im(m) => m <= 2,
        Instr::Alu(_, o) => operand_valid(o),
        Instr::Inc(o) | Instr::Dec(o) => operand_valid(o) && !(o is Imm),
        Instr::Push(q) | Instr::Pop(q) => is_qq_id(q),
        Instr::Rot(_, o) | Instr::BitTest(_, o) | Instr::ResBit(_, o) | Instr::SetBit(_, o) => cb_operand(o),
        Instr::RotA(k) => k < 4,
        Instr::Inc16(id) | Instr::Dec16(id) => is_reg16_id(id),
        Instr::Add16(d, src) => is_acc16_id(d) && is_reg16_id(src),
        Instr::AdcHl(src) | Instr::SbcHl(src) => is_dd_id(src),
        Instr::ExSp(id) => is_acc16_id(id),
        Instr::LdHalf(d, src) => (d is Reg || is_half(d)) && operand_valid(d) && (src is Reg
            || src is Imm || is_half(src)) && operand_valid(src),
        Instr::CbCopy(_, _, o, x) => (o is AtIx || o is AtIy) && is_reg8_id(x),
        _ => true,
    }
}

/// The register file after `ins`, before the program counter moves.
pub open spec fn instr_regs(r: Registers, mem: Seq<u8>, iff2: bool, ins: Instr) -> Registers {
    match ins {
        Instr::LdRR(x, y) => r.with_reg8(x, r.reg8(y)),
        Instr::LdRN(x, n) => r.with_reg8(x, n),
        Instr::LdRHl(x) => r.with_reg8(x, mem[r.spec_hl() as int]),
        Instr::LdRIx(x, d) => r.with_reg8(x, mem[indexed_addr(r.ix, d) as int]),
        Instr::LdRIy(x, d) => r.with_reg8(x, mem[indexed_addr(r.iy, d) as int]),
        Instr::LdABc => Registers { a: mem[r.spec_bc() as int], ..r },
        Instr::LdADe => Registers { a: mem[r.spec_de() as int], ..r },
        Instr::LdANn(nn) => Registers { a: mem[nn as int], ..r },
        Instr::LdAI => Registers { a: r.i, f: ld_a_ir_flags(r.i, iff2, r.f), ..r },
        Instr::LdAR => Registers { a: r.r, f: ld_a_ir_flags(r.r, iff2, r.f), ..r },
        Instr::LdIA => Registers { i: r.a, ..r },
        Instr::LdRA => Registers { r: r.a, ..r },
        Instr::LdDdNn(dd, nn) => r.with_reg16(dd, nn),
        Instr::LdIxNn(nn) => Registers { ix: nn, ..r },
        Instr::LdIyNn(nn) => Registers { iy: nn, ..r },
        Instr::LdHlAddrNn(nn) => r.with_reg16(ID_HL, load_word(mem, nn)),
        Instr::LdDdAddrNn(dd, nn) => r.with_reg16(dd, load_word(mem, nn)),
        Instr::LdIxAddrNn(nn) => Registers { ix: load_word(mem, nn), ..r },
        Instr::LdIyAddrNn(nn) => Registers { iy: load_word(mem, nn), ..r },
        Instr::LdSpHl => Registers { sp: r.spec_hl(), ..r },
        Instr::LdSpIx => Registers { sp: r.ix, ..r },
        Instr::LdSpIy => Registers { sp: r.iy, ..r },
        Instr::ExAf => r.spec_exchanged_af(),
        Instr::Exx => r.spec_exchanged_main(),
        Instr::ExDeHl => Registers { d: r.h, e: r.l, h: r.d, l: r.e, ..r },
        Instr::Alu(op, o) => {
            let v = operand_value(r, mem, o);
            Registers { a: alu_value(op, r.a, v, r.f), f: alu_flags(op, r.a, v, r.f), ..r }
        },
        Instr::Inc(o) => {
            let v = operand_value(r, mem, o);
            Registers { f: inc8_flags(v, r.f), ..operand_regs(r, o, inc_value(v)) }
        },
        Instr::Dec(o) => {
            let v = operand_value(r, mem, o);
            Registers { f: dec8_flags(v, r.f), ..operand_regs(r, o, dec_value(v)) }
        },
        Instr::Neg => Registers { a: ((0 - r.a) % 256) as u8, f: sub8_flags(0, r.a, false), ..r },
        Instr::Push(_) | Instr::PushIx | Instr::PushIy | Instr::Call(_) | Instr::Rst(_) => Registers {
            sp: pushed_sp(r.sp),
            ..r
        },
        Instr::CallCc(cc, _) => if cond_holds(r.f, cc) {
            Registers { sp: pushed_sp(r.sp), ..r }
        } else {
            r
        },
        Instr::Pop(q) => Registers { sp: popped_sp(r.sp), ..r }.with_qq(q, load_word(mem, r.sp)),
        Instr::PopIx => Registers { sp: popped_sp(r.sp), ix: load_word(mem, r.sp), ..r },
        Instr::PopIy => Registers { sp: popped_sp(r.sp), iy: load_word(mem, r.sp), ..r },
        Instr::Ret => Registers { sp: popped_sp(r.sp), ..r },
        Instr::RetCc(cc) => if cond_holds(r.f, cc) {
            Registers { sp: popped_sp(r.sp), ..r }
        } else {
            r
        },
        Instr::Djnz(_) => Registers { b: ((r.b - 1) % 256) as u8, ..r },
        Instr::Rot(k, o) => {
            let v = operand_value(r, mem, o);
            let res = rot_value(k, v, carry_of(r.f));
            Registers { f: shift8_flags(res, rot_carry(k, v)), ..operand_regs(r, o, res) }
        },
        Instr::BitTest(b, o) => Registers {
            f: bit8_flags(operand_value(r, mem, o), bit_mask(b), r.f),
            ..r
        },
        Instr::ResBit(b, o) => operand_regs(r, o, res_value(operand_value(r, mem, o), b)),
        Instr::SetBit(b, o) => operand_regs(r, o, set_value(operand_value(r, mem, o), b)),
        Instr::RotA(k) => {
            let res = rot_value(k, r.a, carry_of(r.f));
            Registers { a: res, f: rota_flags(r.f, res, rot_carry(k, r.a)), ..r }
        },
        Instr::Cpl => Registers { a: (255 - r.a) as u8, f: cpl_flags(r.f, (255 - r.a) as u8), ..r },
        Instr::Scf => Registers { f: carry_op_flags(r.f, r.a, false), ..r },
        Instr::Ccf => Registers { f: carry_op_flags(r.f, r.a, true), ..r },
        Instr::Daa => Registers { a: daa_value(r.a, r.f), f: daa_flags(r.a, r.f), ..r },
        Instr::Inc16(id) => r.with_reg16(id, wrap16(r.reg16(id) + 1)),
        Instr::Dec16(id) => r.with_reg16(id, wrap16(r.reg16(id) - 1)),
        Instr::Add16(d, src) => Registers {
            f: add16_flags(r.f, r.reg16(d), r.reg16(src)),
            ..r.with_reg16(d, wrap16(r.reg16(d) + r.reg16(src)))
        },
        Instr::AdcHl(src) => {
            let c: int = if carry_of(r.f) { 1 } else { 0 };
            Registers {
                f: adc16_flags(r.spec_hl(), r.reg16(src), carry_of(r.f)),
                ..r.with_reg16(ID_HL, wrap16(r.spec_hl() + r.reg16(src) + c))
            }
        },
        Instr::SbcHl(src) => {
            let c: int = if carry_of(r.f) { 1 } else { 0 };
            Registers {
                f: sbc16_flags(r.spec_hl(), r.reg16(src), carry_of(r.f)),
                ..r.with_reg16(ID_HL, wrap16(r.spec_hl() - r.reg16(src) - c))
            }
        },
        Instr::ExSp(id) => r.with_reg16(id, load_word(mem, r.sp)),
        Instr::Retn => Registers { sp: popped_sp(r.sp), ..r },
        Instr::Ldi | Instr::Ldir => block_regs(r, mem[r.spec_hl() as int], false),
        Instr::Ldd | Instr::Lddr => block_regs(r, mem[r.spec_hl() as int], true),
        Instr::LdHalf(d, src) => operand_regs(r, d, operand_value(r, mem, src)),
        Instr::CbCopy(op, k, o, x) => {
            let v = operand_value(r, mem, o);
            let res = cb_result(op, k, v, r.f);
            Registers {
                f: if op == 0 {
                    shift8_flags(res, rot_carry(k, v))
                } else {
                    r.f
                },
                ..r.with_reg8(x, res)
            }
        },
        Instr::Cpi | Instr::Cpir => block_cp_regs(r, mem[r.spec_hl() as int], false),
        Instr::Cpd | Instr::Cpdr => block_cp_regs(r, mem[r.spec_hl() as int], true),
        Instr::Rld => {
            let a = rld_values(r.a, mem[r.spec_hl() as int]).0;
            Registers { a: a, f: digit_flags(r.f, a), ..r }
        },
        Instr::Rrd => {
            let a = rrd_values(r.a, mem[r.spec_hl() as int]).0;
            Registers { a: a, f: digit_flags(r.f, a), ..r }
        },
        _ => r,
    }
}

/// Memory after `ins`.
pub open spec fn instr_mem(r: Registers, mem: Seq<u8>, ins: Instr) -> Seq<u8> {
    match ins {
        Instr::LdHlR(x) => mem.update(r.spec_hl() as int, r.reg8(x)),
        Instr::LdHlN(n) => mem.update(r.spec_hl() as int, n),
        Instr::LdIxR(x, d) => mem.update(indexed_addr(r.ix, d) as int, r.reg8(x)),
        Instr::LdIyR(x, d) => mem.update(indexed_addr(r.iy, d) as int, r.reg8(x)),
        Instr::LdIxN(d, n) => mem.update(indexed_addr(r.ix, d) as int, n),
        Instr::LdIyN(d, n) => mem.update(indexed_addr(r.iy, d) as int, n),
        Instr::LdBcA => mem.update(r.spec_bc() as int, r.a),
        Instr::LdDeA => mem.update(r.spec_de() as int, r.a),
        Instr::LdNnA(nn) => mem.update(nn as int, r.a),
        Instr::LdAddrNnHl(nn) => store_word(mem, nn, r.spec_hl()),
        Instr::LdAddrNnDd(dd, nn) => store_word(mem, nn, r.reg16(dd)),
        Instr::LdAddrNnIx(nn) => store_word(mem, nn, r.ix),
        Instr::LdAddrNnIy(nn) => store_word(mem, nn, r.iy),
        Instr::Inc(o) => operand_mem(r, mem, o, inc_value(operand_value(r, mem, o))),
        Instr::Dec(o) => operand_mem(r, mem, o, dec_value(operand_value(r, mem, o))),
        Instr::Push(q) => store_word(mem, pushed_sp(r.sp), r.qq(q)),
        Instr::PushIx => store_word(mem, pushed_sp(r.sp), r.ix),
        Instr::PushIy => store_word(mem, pushed_sp(r.sp), r.iy),
        Instr::Call(_) => store_word(mem, pushed_sp(r.sp), after(r.pc, 3)),
        Instr::CallCc(cc, _) => if cond_holds(r.f, cc) {
            store_word(mem, pushed_sp(r.sp), after(r.pc, 3))
        } else {
            mem
        },
        Instr::Rst(_) => store_word(mem, pushed_sp(r.sp), after(r.pc, 1)),
        Instr::Rot(k, o) => operand_mem(
            r,
            mem,
            o,
            rot_value(k, operand_value(r, mem, o), carry_of(r.f)),
        ),
        Instr::ResBit(b, o) => operand_mem(r, mem, o, res_value(operand_value(r, mem, o), b)),
        Instr::SetBit(b, o) => operand_mem(r, mem, o, set_value(operand_value(r, mem, o), b)),
        Instr::ExSp(id) => store_word(mem, r.sp, r.reg16(id)),
        Instr::Ldi | Instr::Ldd | Instr::Ldir | Instr::Lddr => mem.update(
            r.spec_de() as int,
            mem[r.spec_hl() as int],
        ),
        Instr::CbCopy(op, k, o, _) => operand_mem(
            r,
            mem,
            o,
            cb_result(op, k, operand_value(r, mem, o), r.f),
        ),
        Instr::Rld => mem.update(r.spec_hl() as int, rld_values(r.a, mem[r.spec_hl() as int]).1),
        Instr::Rrd => mem.update(r.spec_hl() as int, rrd_values(r.a, mem[r.spec_hl() as int]).1),
        _ => mem,
    }
}

/// Control signals after `ins`.
pub open spec fn instr_ctl(c: Signals, ins: Instr) -> Signals {
    match ins {
        Instr::Halt => Signals { halt: true, ..c },
        Instr::Di => Signals { iff1: false, iff2: false, ..c },
        Instr::Ei => Signals { iff1: true, iff2: true, ei: true, ..c },
        Instr::Im(m) => Signals { im: m, ..c },
        Instr::Retn => Signals { iff1: c.iff2, ..c },
        _ => c,
    }
}

/// How `ins` moves the program counter.
pub open spec fn instr_pc(r: Registers, mem: Seq<u8>, ins: Instr) -> ProgramCounter {
    match ins {
        Instr::LdRR(..) | Instr::LdRHl(_) | Instr::LdHlR(_) | Instr::LdABc | Instr::LdADe
        | Instr::LdBcA | Instr::LdDeA | Instr::LdSpHl | Instr::Nop | Instr::Halt | Instr::Di
        | Instr::Ei | Instr::ExAf | Instr::Exx | Instr::ExDeHl => ProgramCounter::Next(1),
        Instr::LdRN(..) | Instr::LdHlN(_) | Instr::LdAI | Instr::LdAR | Instr::LdIA | Instr::LdRA
        | Instr::LdSpIx | Instr::LdSpIy | Instr::Im(_) => ProgramCounter::Next(2),
        Instr::LdRIx(..) | Instr::LdRIy(..) | Instr::LdIxR(..) | Instr::LdIyR(..)
        | Instr::LdANn(_) | Instr::LdNnA(_) | Instr::LdDdNn(..) | Instr::LdHlAddrNn(_)
        | Instr::LdAddrNnHl(_) => ProgramCounter::Next(3),
        Instr::LdIxN(..) | Instr::LdIyN(..) | Instr::LdIxNn(_) | Instr::LdIyNn(_)
        | Instr::LdDdAddrNn(..) | Instr::LdIxAddrNn(_) | Instr::LdIyAddrNn(_)
        | Instr::LdAddrNnDd(..) | Instr::LdAddrNnIx(_) | Instr::LdAddrNnIy(_) => ProgramCounter::Next(4),
        Instr::Jp(nn) => ProgramCounter::Jump(nn),
        Instr::JpHl => ProgramCounter::Jump(r.spec_hl()),
        Instr::JpIx => ProgramCounter::Jump(r.ix),
        Instr::JpIy => ProgramCounter::Jump(r.iy),
        Instr::Alu(_, o) | Instr::Inc(o) | Instr::Dec(o) => ProgramCounter::Next(operand_len(o)),
        Instr::Push(_) | Instr::Pop(_) => ProgramCounter::Next(1),
        Instr::Neg | Instr::PushIx | Instr::PushIy | Instr::PopIx | Instr::PopIy => ProgramCounter::Next(2),
        Instr::JpCc(cc, nn) => if cond_holds(r.f, cc) {
            ProgramCounter::Jump(nn)
        } else {
            ProgramCounter::Next(3)
        },
        Instr::Jr(d) => ProgramCounter::Jump(rel_target(r.pc, 2, d)),
        Instr::JrCc(cc, d) => if cond_holds(r.f, cc) {
            ProgramCounter::Jump(rel_target(r.pc, 2, d))
        } else {
            ProgramCounter::Next(2)
        },
        Instr::Djnz(d) => if r.b != 1 {
            ProgramCounter::Jump(rel_target(r.pc, 2, d))
        } else {
            ProgramCounter::Next(2)
        },
        Instr::Call(nn) => ProgramCounter::Jump(nn),
        Instr::CallCc(cc, nn) => if cond_holds(r.f, cc) {
            ProgramCounter::Jump(nn)
        } else {
            ProgramCounter::Next(3)
        },
        Instr::Ret => ProgramCounter::Jump(load_word(mem, r.sp)),
        Instr::RetCc(cc) => if cond_holds(r.f, cc) {
            ProgramCounter::Jump(load_word(mem, r.sp))
        } else {
            ProgramCounter::Next(1)
        },
        Instr::Rst(p) => ProgramCounter::Jump(p as u16),
        Instr::Rot(_, o) | Instr::BitTest(_, o) | Instr::ResBit(_, o) | Instr::SetBit(_, o) => {
            ProgramCounter::Next(cb_len(o))
        },
        Instr::RotA(_) | Instr::Cpl | Instr::Scf | Instr::Ccf | Instr::Daa => ProgramCounter::Next(1),
        Instr::Inc16(id) | Instr::Dec16(id) | Instr::Add16(id, _) | Instr::ExSp(id) => {
            ProgramCounter::Next(wide_len(id))
        },
        Instr::AdcHl(_) | Instr::SbcHl(_) | Instr::Ldi | Instr::Ldd | Instr::EdNop | Instr::Cpi
        | Instr::Cpd | Instr::Rld | Instr::Rrd => ProgramCounter::Next(2),
        Instr::Cpir | Instr::Cpdr => if block_cp_repeats(r, mem[r.spec_hl() as int]) {
            ProgramCounter::Jump(r.pc)
        } else {
            ProgramCounter::Next(2)
        },
        Instr::LdHalf(_, src) => ProgramCounter::Next(if src is Imm { 3 } else { 2 }),
        Instr::CbCopy(..) => ProgramCounter::Next(4),
        Instr::Retn => ProgramCounter::Jump(load_word(mem, r.sp)),
        Instr::Ldir | Instr::Lddr => if wrap16(r.spec_bc() - 1) != 0 {
            ProgramCounter::Jump(r.pc)
        } else {
            ProgramCounter::Next(2)
        },
    }
}

/// T-states taken by `ins`.
pub open spec fn instr_cycles(r: Registers, mem: Seq<u8>, ins: Instr) -> u32 {
    match ins {
        Instr::LdRR(..) | Instr::Nop | Instr::Halt | Instr::Di | Instr::Ei | Instr::ExAf
        | Instr::Exx | Instr::ExDeHl | Instr::JpHl => 4,
        Instr::LdSpHl => 6,
        Instr::LdRN(..) | Instr::LdRHl(_) | Instr::LdHlR(_) | Instr::LdABc | Instr::LdADe
        | Instr::LdBcA | Instr::LdDeA => 7,
        Instr::Im(_) | Instr::JpIx | Instr::JpIy => 8,
        Instr::LdAI | Instr::LdAR | Instr::LdIA | Instr::LdRA => 9,
        Instr::LdHlN(_) | Instr::LdDdNn(..) | Instr::LdSpIx | Instr::LdSpIy | Instr::Jp(_) => 10,
        Instr::LdANn(_) | Instr::LdNnA(_) => 13,
        Instr::LdIxNn(_) | Instr::LdIyNn(_) => 14,
        Instr::LdHlAddrNn(_) | Instr::LdAddrNnHl(_) => 16,
        Instr::LdRIx(..) | Instr::LdRIy(..) | Instr::LdIxR(..) | Instr::LdIyR(..)
        | Instr::LdIxN(..) | Instr::LdIyN(..) => 19,
        Instr::LdDdAddrNn(..) | Instr::LdIxAddrNn(_) | Instr::LdIyAddrNn(_)
        | Instr::LdAddrNnDd(..) | Instr::LdAddrNnIx(_) | Instr::LdAddrNnIy(_) => 20,
        Instr::Alu(_, o) => match o {
            Operand::Reg(_) => 4,
            Operand::Imm(_) | Operand::AtHl => 7,
            Operand::AtIx(_) | Operand::AtIy(_) => 19,
            _ => 8,
        },
        Instr::Inc(o) | Instr::Dec(o) => match o {
            Operand::Reg(_) => 4,
            Operand::AtHl => 11,
            Operand::AtIx(_) | Operand::AtIy(_) => 23,
            _ => 8,
        },
        Instr::LdHalf(_, src) => if src is Imm {
            11
        } else {
            8
        },
        Instr::CbCopy(..) => 23,
        Instr::Neg => 8,
        Instr::Pop(_) | Instr::Ret => 10,
        Instr::Push(_) | Instr::Rst(_) => 11,
        Instr::PopIx | Instr::PopIy => 14,
        Instr::PushIx | Instr::PushIy => 15,
        Instr::JpCc(..) => 10,
        Instr::Jr(_) => 12,
        Instr::JrCc(cc, _) => if cond_holds(r.f, cc) {
            12
        } else {
            7
        },
        Instr::Djnz(_) => if r.b != 1 {
            13
        } else {
            8
        },
        Instr::Call(_) => 17,
        Instr::CallCc(cc, _) => if cond_holds(r.f, cc) {
            17
        } else {
            10
        },
        Instr::RetCc(cc) => if cond_holds(r.f, cc) {
            11
        } else {
            5
        },
        Instr::Rot(_, o) | Instr::ResBit(_, o) | Instr::SetBit(_, o) => match o {
            Operand::Reg(_) => 8,
            Operand::AtHl => 15,
            _ => 23,
        },
        Instr::BitTest(_, o) => match o {
            Operand::Reg(_) => 8,
            Operand::AtHl => 12,
            _ => 20,
        },
        Instr::RotA(_) | Instr::Cpl | Instr::Scf | Instr::Ccf | Instr::Daa => 4,
        Instr::Inc16(id) | Instr::Dec16(id) => if id == ID_IX || id == ID_IY {
            10
        } else {
            6
        },
        Instr::Add16(id, _) => if id == ID_IX || id == ID_IY {
            15
        } else {
            11
        },
        Instr::AdcHl(_) | Instr::SbcHl(_) => 15,
        Instr::ExSp(id) => if id == ID_IX || id == ID_IY {
            23
        } else {
            19
        },
        Instr::Retn => 14,
        Instr::EdNop => 8,
        Instr::Ldi | Instr::Ldd => 16,
        Instr::Ldir | Instr::Lddr => if wrap16(r.spec_bc() - 1) != 0 {
            21
        } else {
            16
        },
        Instr::Cpi | Instr::Cpd => 16,
        Instr::Cpir | Instr::Cpdr => if block_cp_repeats(r, mem[r.spec_hl() as int]) {
            21
        } else {
            16
        },
        Instr::Rld | Instr::Rrd => 18,
    }
}

/// The program counter after an instruction at `pc` returned `o`.
pub open spec fn advance(pc: u16, o: ProgramCounter) -> u16 {
    match o {
        ProgramCounter::Next(n) => ((pc as int + n as int) % 65536) as u16,
        ProgramCounter::Jump(a) => a,
    }
}

/// `c + n`, wrapping at 2^64.
pub open spec fn clock_plus(c: u64, n: u32) -> u64 {
    ((c as int + n as int) % 0x1_0000_0000_0000_0000) as u64
}

/// The stack pointer after pushing a word.
pub open spec fn pushed_sp(sp: u16) -> u16 {
    ((sp as int - 2) % 65536) as u16
}

/// Vector of a maskable interrupt in mode `im`: in mode 0 the byte on the
/// bus is taken as a restart instruction, in mode 1 the target is fixed,
/// in mode 2 it is read from the table at `I` and the bus byte, after the
/// return address has been pushed.
pub open spec fn int_target(im: u8, i: u8, bus: u8, mem_after_push: Seq<u8>) -> u16 {
    if im == 0 {
        ((bus as int / 8) % 8 * 8) as u16
    } else if im == 1 {
        0x38
    } else {
        load_word(mem_after_push, pair_value(i, bus))
    }
}

/// T-states taken to accept a maskable interrupt in mode `im`.
pub open spec fn int_cycles(im: u8) -> u32 {
    if im == 0 || im == 1 {
        13
    } else {
        19
    }
}

impl CPU {
    /// A non-maskable interrupt is pending; it is taken before any fetch.
    pub open spec fn takes_nmi(self) -> bool {
        self.ctl.nmi
    }

    /// A maskable interrupt is pending and accepted: interrupts are enabled
    /// and the previous instruction was not `EI`.
    pub open spec fn takes_int(self) -> bool {
        !self.ctl.nmi && self.ctl.int && self.ctl.iff1 && !self.ctl.ei
    }

    /// `EX AF,AF'`. One byte.
    pub fn ex_af_af(&mut self) -> (pc: ProgramCounter)
        ensures
            old(self).regs_become(*final(self), old(self).reg.spec_exchanged_af()),
            pc == ProgramCounter::Next(1),
    {
        self.reg.exchange_af();
        ProgramCounter::Next(1)
    }

    /// `EXX`. One byte.
    pub fn exx(&mut self) -> (pc: ProgramCounter)
        ensures
            old(self).regs_become(*final(self), old(self).reg.spec_exchanged_main()),
            pc == ProgramCounter::Next(1),
    {
        self.reg.exchange_main();
        ProgramCounter::Next(1)
    }

    /// `EX DE,HL`. One byte.
    pub fn ex_de_hl(&mut self) -> (pc: ProgramCounter)
        ensures
            old(self).regs_become(
                *final(self),
                Registers { d: old(self).reg.h, e: old(self).reg.l, h: old(self).reg.d, l: old(self).reg.e, ..old(self).reg },
            ),
            pc == ProgramCounter::Next(1),
    {
        let (d, e) = (self.reg.d, self.reg.e);
        self.reg.d = self.reg.h;
        self.reg.e = self.reg.l;
        self.reg.h = d;
        self.reg.l = e;
        ProgramCounter::Next(1)
    }

    /// `HALT`: no further fetch until an interrupt or a reset. One byte.
    pub fn halt(&mut self) -> (pc: ProgramCounter)
        ensures
            final(self).reg == old(self).reg,
            final(self).ram@ == old(self).ram@,
            final(self).clock == old(self).clock,
            final(self).ctl == (Signals { halt: true, ..old(self).ctl }),
            pc == ProgramCounter::Next(1),
    {
        self.ctl.halt = true;
        ProgramCounter::Next(1)
    }

    /// `DI`. One byte.
    pub fn di(&mut self) -> (pc: ProgramCounter)
        ensures
            final(self).reg == old(self).reg,
            final(self).ram@ == old(self).ram@,
            final(self).clock == old(self).clock,
            final(self).ctl == (Signals { iff1: false, iff2: false, ..old(self).ctl }),
            pc == ProgramCounter::Next(1),
    {
        self.ctl.iff1 = false;
        self.ctl.iff2 = false;
        ProgramCounter::Next(1)
    }

    /// `EI`: interrupts are enabled once the next instruction has run. One byte.
    pub fn ei(&mut self) -> (pc: ProgramCounter)
        ensures
            final(self).reg == old(self).reg,
            final(self).ram@ == old(self).ram@,
            final(self).clock == old(self).clock,
            final(self).ctl == (Signals { iff1: true, iff2: true, ei: true, ..old(self).ctl }),
            pc == ProgramCounter::Next(1),
    {
        self.ctl.iff1 = true;
        self.ctl.iff2 = true;
        self.ctl.ei = true;
        ProgramCounter::Next(1)
    }

    /// `IM m`. Two bytes.
    pub fn im(&mut self, m: u8) -> (pc: ProgramCounter)
        requires
            m <= 2,
        ensures
            final(self).reg == old(self).reg,
            final(self).ram@ == old(self).ram@,
            final(self).clock == old(self).clock,
            final(self).ctl == (Signals { im: m, ..old(self).ctl }),
            pc == ProgramCounter::Next(2),
    {
        self.ctl.im = m;
        ProgramCounter::Next(2)
    }

    /// Runs the handler of `ins`; the program counter is left to the caller.
    pub fn execute(&mut self, ins: Instr) -> (pc: ProgramCounter)
        requires
            operands_valid(ins),
        ensures
            final(self).reg == instr_regs(old(self).reg, old(self).ram@, old(self).ctl.iff2, ins),
            final(self).ram@ == instr_mem(old(self).reg, old(self).ram@, ins),
            final(self).ctl == instr_ctl(old(self).ctl, ins),
            final(self).clock == old(self).clock,
            pc == instr_pc(old(self).reg, old(self).ram@, ins),
    {
        match ins {
            Instr::LdRR(x, y) => self.ld_x_y(x, y),
            Instr::LdRN(x, n) => self.ld_r_n(x, n),
            Instr::LdRHl(x) => self.ld_r_HL(x),
            Instr::LdRIx(x, d) => self.ld_r_IX(x, d),
            Instr::LdRIy(x, d) => self.ld_r_IY(x, d),
            Instr::LdHlR(x) => self.ld_HL_r(x),
            Instr::LdHlN(n) => self.ld_HL_n(n),
            Instr::LdIxR(x, d) => self.ld_IX_r(x, d),
            Instr::LdIyR(x, d) => self.ld_IY_r(x, d),
            Instr::LdIxN(d, n) => self.ld_IX_n(d, n),
            Instr::LdIyN(d, n) => self.ld_IY_n(d, n),
            Instr::LdABc => self.ld_A_BC(),
            Instr::LdADe => self.ld_A_DE(),
            Instr::LdANn(nn) => self.ld_A_nn(nn),
            Instr::LdBcA => self.ld_BC_A(),
            Instr::LdDeA => self.ld_DE_A(),
            Instr::LdNnA(nn) => self.ld_nn_A(nn),
            Instr::LdAI => self.ld_A_I(),
            Instr::LdAR => self.ld_A_R(),
            Instr::LdIA => self.ld_I_A(),
            Instr::LdRA => self.ld_R_A(),
            Instr::LdDdNn(dd, nn) => self.ld_dd_nn(dd, nn),
            Instr::LdIxNn(nn) => self.ld_IX_nn(nn),
            Instr::LdIyNn(nn) => self.ld_IY_nn(nn),
            Instr::LdHlAddrNn(nn) => self.ld_HL_addr_nn(nn),
            Instr::LdDdAddrNn(dd, nn) => self.ld_dd_addr_nn(dd, nn),
            Instr::LdIxAddrNn(nn) => self.ld_IX_addr_nn(nn),
            Instr::LdIyAddrNn(nn) => self.ld_IY_addr_nn(nn),
            Instr::LdAddrNnHl(nn) => self.ld_addr_nn_HL(nn),
            Instr::LdAddrNnDd(dd, nn) => self.ld_addr_nn_dd(dd, nn),
            Instr::LdAddrNnIx(nn) => self.ld_addr_nn_IX(nn),
            Instr::LdAddrNnIy(nn) => self.ld_addr_nn_IY(nn),
            Instr::LdSpHl => self.ld_SP_HL(),
            Instr::LdSpIx => self.ld_SP_IX(),
            Instr::LdSpIy => self.ld_SP_IY(),
            Instr::Nop => ProgramCounter::Next(1),
            Instr::Halt => self.halt(),
            Instr::Di => self.di(),
            Instr::Ei => self.ei(),
            Instr::Im(m) => self.im(m),
            Instr::ExAf => self.ex_af_af(),
            Instr::Exx => self.exx(),
            Instr::ExDeHl => self.ex_de_hl(),
            Instr::Jp(nn) => ProgramCounter::Jump(nn),
            Instr::JpHl => ProgramCounter::Jump(self.reg.hl()),
            Instr::JpIx => ProgramCounter::Jump(self.reg.ix),
            Instr::JpIy => ProgramCounter::Jump(self.reg.iy),
            Instr::Alu(op, o) => self.alu(op, o),
            Instr::Inc(o) => self.inc(o),
            Instr::Dec(o) => self.dec(o),
            Instr::Neg => self.neg(),
            Instr::Push(q) => self.push_qq(q),
            Instr::Pop(q) => self.pop_qq(q),
            Instr::PushIx => self.push_IX(),
            Instr::PushIy => self.push_IY(),
            Instr::PopIx => self.pop_IX(),
            Instr::PopIy => self.pop_IY(),
            Instr::JpCc(cc, nn) => self.jp_cc(cc, nn),
            Instr::Jr(d) => self.jr(d),
            Instr::JrCc(cc, d) => self.jr_cc(cc, d),
            Instr::Djnz(d) => self.djnz(d),
            Instr::Call(nn) => self.call(nn),
            Instr::CallCc(cc, nn) => self.call_cc(cc, nn),
            Instr::Ret => self.ret(),
            Instr::RetCc(cc) => self.ret_cc(cc),
            Instr::Rst(p) => self.rst(p),
            Instr::Rot(k, o) => self.rotate(k, o),
            Instr::BitTest(b, o) => self.bit_test(b, o),
            Instr::ResBit(b, o) => self.res_bit(b, o),
            Instr::SetBit(b, o) => self.set_bit(b, o),
            Instr::RotA(k) => self.rotate_a(k),
            Instr::Cpl => self.cpl(),
            Instr::Scf => self.scf(),
            Instr::Ccf => self.ccf(),
            Instr::Daa => self.daa(),
            Instr::Inc16(id) => self.inc16(id),
            Instr::Dec16(id) => self.dec16(id),
            Instr::Add16(d, src) => self.add16(d, src),
            Instr::AdcHl(src) => self.adc_hl(src),
            Instr::SbcHl(src) => self.sbc_hl(src),
            Instr::ExSp(id) => self.ex_sp(id),
            Instr::Retn => self.retn(),
            Instr::Ldi => self.ldi(),
            Instr::Ldd => self.ldd(),
            Instr::Ldir => self.ldir(),
            Instr::Lddr => self.lddr(),
            Instr::EdNop => ProgramCounter::Next(2),
            Instr::LdHalf(d, src) => self.ld_half(d, src),
            Instr::CbCopy(op, k, o, x) => self.cb_copy(op, k, o, x),
            Instr::Cpi => self.cpi(),
            Instr::Cpd => self.cpd(),
            Instr::Cpir => self.cpir(),
            Instr::Cpdr => self.cpdr(),
            Instr::Rld => self.rotate_digit(true),
            Instr::Rrd => self.rotate_digit(false),
        }
    }
    /// Adds `n` T-states to the clock.
    fn tick(&mut self, n: u32)
        ensures
            final(self).reg == old(self).reg,
            final(self).ram@ == old(self).ram@,
            final(self).ctl == old(self).ctl,
            final(self).clock == clock_plus(old(self).clock, n),
    {
        if self.clock > u64::MAX - n as u64 {
            self.clock = self.clock - (u64::MAX - n as u64) - 1;
        } else {
            self.clock = self.clock + n as u64;
        }
    }

    /// Runs one instruction, or accepts one pending interrupt, and returns
    /// the T-states it took. A pending `NMI` comes first, then an accepted
    /// `INT`; a halted CPU with neither idles for four T-states. An opcode of
    /// a group this core does not provide changes nothing and comes back as
    /// `Unsupported`. Fetches do not advance the refresh register `R`.
    pub fn step(&mut self) -> (res: Result<u32, Unsupported>)
        ensures
            old(self).takes_nmi() ==> {
                let sp = pushed_sp(old(self).reg.sp);
                &&& final(self).reg == (Registers { sp: sp, pc: 0x66, ..old(self).reg })
                &&& final(self).ram@ == store_word(old(self).ram@, sp, old(self).reg.pc)
                &&& final(self).ctl == (Signals {
                    nmi: false,
                    halt: false,
                    iff1: false,
                    iff2: old(self).ctl.iff1,
                    ei: false,
                    ..old(self).ctl
                })
                &&& final(self).clock == clock_plus(old(self).clock, 11)
                &&& res == Ok::<u32, Unsupported>(11)
            },
            old(self).takes_int() ==> {
                let sp = pushed_sp(old(self).reg.sp);
                let mem = store_word(old(self).ram@, sp, old(self).reg.pc);
                let c = old(self).ctl;
                &&& final(self).reg == (Registers {
                    sp: sp,
                    pc: int_target(c.im, old(self).reg.i, c.data_bus, mem),
                    ..old(self).reg
                })
                &&& final(self).ram@ == mem
                &&& final(self).ctl == (Signals {
                    int: false,
                    halt: false,
                    iff1: false,
                    iff2: false,
                    ..c
                })
                &&& final(self).clock == clock_plus(old(self).clock, int_cycles(c.im))
                &&& res == Ok::<u32, Unsupported>(int_cycles(c.im))
            },
            !old(self).takes_nmi() && !old(self).takes_int() && old(self).ctl.halt ==> {
                &&& final(self).reg == old(self).reg
                &&& final(self).ram@ == old(self).ram@
                &&& final(self).ctl == old(self).ctl
                &&& final(self).clock == clock_plus(old(self).clock, 4)
                &&& res == Ok::<u32, Unsupported>(4)
            },
            !old(self).takes_nmi() && !old(self).takes_int() && !old(self).ctl.halt ==> {
                let r = old(self).reg;
                let mem = old(self).ram@;
                match decode(mem, r.pc) {
                    None => old(self).unchanged(*final(self)) && res == Err::<u32, Unsupported>(
                        Unsupported { pc: r.pc },
                    ),
                    Some(ins) => {
                        &&& final(self).reg == (Registers {
                            pc: advance(r.pc, instr_pc(r, mem, ins)),
                            ..instr_regs(r, mem, old(self).ctl.iff2, ins)
                        })
                        &&& final(self).ram@ == instr_mem(r, mem, ins)
                        &&& final(self).ctl == instr_ctl(Signals { ei: false, ..old(self).ctl }, ins)
                        &&& final(self).clock == clock_plus(old(self).clock, instr_cycles(r, mem, ins))
                        &&& res == Ok::<u32, Unsupported>(instr_cycles(r, mem, ins))
                    },
                }
            },
    {
        if self.ctl.nmi {
            let pc = self.reg.pc;
            self.push(pc);
            self.reg.pc = 0x66;
            self.ctl.nmi = false;
            self.ctl.halt = false;
            self.ctl.iff2 = self.ctl.iff1;
            self.ctl.iff1 = false;
            self.ctl.ei = false;
            self.tick(11);
            return Ok(11);
        }
        if self.ctl.int && self.ctl.iff1 && !self.ctl.ei {
            let pc = self.reg.pc;
            self.push(pc);
            let im = self.ctl.im;
            let bus = self.ctl.data_bus;
            self.reg.pc = if im == 0 {
                ((bus / 8) % 8 * 8) as u16
            } else if im == 1 {
                0x38
            } else {
                self.read_word(join(self.reg.i, bus))
            };
            self.ctl.int = false;
            self.ctl.halt = false;
            self.ctl.iff1 = false;
            self.ctl.iff2 = false;
            let cycles: u32 = if im == 0 || im == 1 {
                13
            } else {
                19
            };
            self.tick(cycles);
            return Ok(cycles);
        }
        if self.ctl.halt {
            self.tick(4);
            return Ok(4);
        }
        match self.decode() {
            None => Err(Unsupported { pc: self.reg.pc }),
            Some(ins) => {
                let pc = self.reg.pc;
                let cycles = ins.cycles(self);
                self.ctl.ei = false;
                let outcome = self.execute(ins);
                self.reg.pc = match outcome {
                    ProgramCounter::Next(n) => ((pc as u32 + n as u32) % 65536) as u16,
                    ProgramCounter::Jump(a) => a,
                };
                self.tick(cycles);
                Ok(cycles)
            },
        }
    }

    /// Reset: `PC`, `I` and `R` cleared, `AF` and `SP` set to `0xFFFF`,
    /// interrupts disabled in mode 0, halt and pending lines cleared. Other
    /// registers, memory and the clock are kept.
    pub fn reset(&mut self)
        ensures
            final(self).reg == (Registers {
                pc: 0,
                i: 0,
                r: 0,
                a: 0xff,
                f: 0xff,
                sp: 0xffff,
                ..old(self).reg
            }),
            final(self).ram@ == old(self).ram@,
            final(self).clock == old(self).clock,
            final(self).ctl == (Signals {
                halt: false,
                iff1: false,
                iff2: false,
                ei: false,
                im: 0,
                nmi: false,
                int: false,
                ..old(self).ctl
            }),
    {
        self.reg.pc = 0;
        self.reg.i = 0;
        self.reg.r = 0;
        self.reg.a = 0xff;
        self.reg.f = 0xff;
        self.reg.sp = 0xffff;
        self.ctl.halt = false;
        self.ctl.iff1 = false;
        self.ctl.iff2 = false;
        self.ctl.ei = false;
        self.ctl.im = 0;
        self.ctl.nmi = false;
        self.ctl.int = false;
    }

    /// Latches a non-maskable interrupt.
    pub fn assert_nmi(&mut self)
        ensures
            final(self).reg == old(self).reg,
            final(self).ram@ == old(self).ram@,
            final(self).clock == old(self).clock,
            final(self).ctl == (Signals { nmi: true, ..old(self).ctl }),
    {
        self.ctl.nmi = true;
    }

    /// Latches a maskable interrupt; `vector` is the byte the device puts on
    /// the bus, `None` for a floating bus, which reads `0xFF`.
    pub fn assert_int(&mut self, vector: Option<u8>)
        ensures
            final(self).reg == old(self).reg,
            final(self).ram@ == old(self).ram@,
            final(self).clock == old(self).clock,
            final(self).ctl == (Signals {
                int: true,
                data_bus: match vector {
                    Some(v) => v,
                    None => 0xff,
                },
                ..old(self).ctl
            }),
    {
        self.ctl.int = true;
        self.ctl.data_bus = match vector {
            Some(v) => v,
            None => 0xff,
        };
    }
}

impl Instr {
    /// T-states this instruction takes.
    pub fn cycles(&self, cpu: &CPU) -> (c: u32)
        ensures
            c == instr_cycles(cpu.reg, cpu.ram@, *self),
    {
        let r = &cpu.reg;
        match self {
            Instr::LdRR(..) | Instr::Nop | Instr::Halt | Instr::Di | Instr::Ei | Instr::ExAf
            | Instr::Exx | Instr::ExDeHl | Instr::JpHl => 4,
            Instr::LdSpHl => 6,
            Instr::LdRN(..) | Instr::LdRHl(_) | Instr::LdHlR(_) | Instr::LdABc | Instr::LdADe
            | Instr::LdBcA | Instr::LdDeA => 7,
            Instr::Im(_) | Instr::JpIx | Instr::JpIy => 8,
            Instr::LdAI | Instr::LdAR | Instr::LdIA | Instr::LdRA => 9,
            Instr::LdHlN(_) | Instr::LdDdNn(..) | Instr::LdSpIx | Instr::LdSpIy | Instr::Jp(_) => 10,
            Instr::LdANn(_) | Instr::LdNnA(_) => 13,
            Instr::LdIxNn(_) | Instr::LdIyNn(_) => 14,
            Instr::LdHlAddrNn(_) | Instr::LdAddrNnHl(_) => 16,
            Instr::LdRIx(..) | Instr::LdRIy(..) | Instr::LdIxR(..) | Instr::LdIyR(..)
            | Instr::LdIxN(..) | Instr::LdIyN(..) => 19,
            Instr::LdDdAddrNn(..) | Instr::LdIxAddrNn(_) | Instr::LdIyAddrNn(_)
            | Instr::LdAddrNnDd(..) | Instr::LdAddrNnIx(_) | Instr::LdAddrNnIy(_) => 20,
            Instr::Alu(_, o) => match o {
                Operand::Reg(_) => 4,
                Operand::Imm(_) | Operand::AtHl => 7,
                Operand::AtIx(_) | Operand::AtIy(_) => 19,
                _ => 8,
            },
            Instr::Inc(o) | Instr::Dec(o) => match o {
                Operand::Reg(_) => 4,
                Operand::AtHl => 11,
                Operand::AtIx(_) | Operand::AtIy(_) => 23,
                _ => 8,
            },
            Instr::LdHalf(_, src) => match src {
                Operand::Imm(_) => 11,
                _ => 8,
            },
            Instr::CbCopy(..) => 23,
            Instr::Neg => 8,
            Instr::Pop(_) | Instr::Ret => 10,
            Instr::Push(_) | Instr::Rst(_) => 11,
            Instr::PopIx | Instr::PopIy => 14,
            Instr::PushIx | Instr::PushIy => 15,
            Instr::JpCc(..) => 10,
            Instr::Jr(_) => 12,
            Instr::JrCc(cc, _) => if cond(r.f, *cc) {
                12
            } else {
                7
            },
            Instr::Djnz(_) => if r.b != 1 {
                13
            } else {
                8
            },
            Instr::Call(_) => 17,
            Instr::CallCc(cc, _) => if cond(r.f, *cc) {
                17
            } else {
                10
            },
            Instr::RetCc(cc) => if cond(r.f, *cc) {
                11
            } else {
                5
            },
            Instr::Rot(_, o) | Instr::ResBit(_, o) | Instr::SetBit(_, o) => match o {
                Operand::Reg(_) => 8,
                Operand::AtHl => 15,
                _ => 23,
            },
            Instr::BitTest(_, o) => match o {
                Operand::Reg(_) => 8,
                Operand::AtHl => 12,
                _ => 20,
            },
            Instr::RotA(_) | Instr::Cpl | Instr::Scf | Instr::Ccf | Instr::Daa => 4,
            Instr::Inc16(id) | Instr::Dec16(id) => if *id == ID_IX || *id == ID_IY {
                10
            } else {
                6
            },
            Instr::Add16(id, _) => if *id == ID_IX || *id == ID_IY {
                15
            } else {
                11
            },
            Instr::AdcHl(_) | Instr::SbcHl(_) => 15,
            Instr::ExSp(id) => if *id == ID_IX || *id == ID_IY {
                23
            } else {
                19
            },
            Instr::Retn => 14,
            Instr::EdNop => 8,
            Instr::Ldi | Instr::Ldd => 16,
            Instr::Ldir | Instr::Lddr => if r.bc() != 1 {
                21
            } else {
                16
            },
            Instr::Cpi | Instr::Cpd => 16,
            Instr::Cpir | Instr::Cpdr => if r.bc() != 1 && r.a != cpu.read_mem(r.hl()) {
                21
            } else {
                16
            },
            Instr::Rld | Instr::Rrd => 18,
        }
    }
}

} // verus!
