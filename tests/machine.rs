use z80::cpu::{ProgramCounter, CPU};
use z80::decode::{AluOp, Instr, Operand};
use z80::machine::Unsupported;
use z80::registers::{Registers, ID_AF, ID_B, ID_BC, ID_DE};

fn cpu_with(program: &[u8], at: u16) -> CPU {
    let mut cpu = CPU::new();
    for (k, b) in program.iter().enumerate() {
        cpu.write_mem(at.wrapping_add(k as u16), *b);
    }
    cpu.reg.pc = at;
    cpu
}

#[test]
fn pair_views_follow_their_bytes() {
    let mut r = Registers::new();
    r.set_bc(0x1234);
    assert_eq!((r.b, r.c), (0x12, 0x34));
    assert_eq!(r.bc(), 0x1234);
    r.b = 0xab;
    assert_eq!(r.bc(), 0xab34);
    assert_eq!(r.bc(), ((r.b as u16) << 8) | r.c as u16);
    r.a = 0x01;
    r.f = 0x80;
    assert_eq!(r.af(), 0x0180);
}

#[test]
fn pair_round_trip() {
    let mut r = Registers::new();
    for v in [0x0000u16, 0x00ff, 0xff00, 0xabcd, 0xffff] {
        r.set_de(v);
        assert_eq!(r.d, (v >> 8) as u8);
        assert_eq!(r.e, (v & 0xff) as u8);
        assert_eq!(r.de(), v);
        r.set_hl(v);
        assert_eq!((r.h, r.l), ((v >> 8) as u8, (v & 0xff) as u8));
        r.set_af(v);
        assert_eq!(r.af(), v);
    }
}

#[test]
fn exchanges_swap_with_alternates() {
    let mut cpu = cpu_with(&[0x08, 0xd9, 0xeb], 0);
    cpu.reg.a = 1;
    cpu.reg.f = 2;
    cpu.reg.a_alt = 3;
    cpu.reg.f_alt = 4;
    cpu.reg.set_bc(0x1111);
    cpu.reg.b_alt = 0x22;
    cpu.reg.l_alt = 0x33;
    assert_eq!(cpu.step(), Ok(4));
    assert_eq!((cpu.reg.a, cpu.reg.f, cpu.reg.a_alt, cpu.reg.f_alt), (3, 4, 1, 2));
    assert_eq!(cpu.step(), Ok(4));
    assert_eq!((cpu.reg.b, cpu.reg.l, cpu.reg.b_alt, cpu.reg.c_alt), (0x22, 0x33, 0x11, 0x11));
    cpu.reg.set_de(0xaaaa);
    assert_eq!(cpu.step(), Ok(4));
    assert_eq!(cpu.reg.hl(), 0xaaaa);
    assert_eq!(cpu.reg.de(), 0x0033);
    assert_eq!(cpu.reg.pc, 3);
}

#[test]
fn add_register_by_step() {
    let mut cpu = cpu_with(&[0x80], 0);
    cpu.reg.a = 0x7f;
    cpu.reg.b = 0x01;
    assert_eq!(cpu.step(), Ok(4));
    assert_eq!((cpu.reg.a, cpu.reg.f, cpu.reg.pc), (0x80, 0x94, 1));
}

#[test]
fn adc_immediate_by_step() {
    let mut cpu = cpu_with(&[0xce, 0x05], 0);
    cpu.reg.a = 0x10;
    cpu.reg.f = 0x01;
    assert_eq!(cpu.step(), Ok(7));
    assert_eq!((cpu.reg.a, cpu.reg.f, cpu.reg.pc), (0x16, 0x00, 2));
}

#[test]
fn sub_memory_by_step() {
    let mut cpu = cpu_with(&[0x96], 0);
    cpu.reg.a = 0x00;
    cpu.reg.set_hl(0x5000);
    cpu.write_mem(0x5000, 0x01);
    assert_eq!(cpu.step(), Ok(7));
    assert_eq!((cpu.reg.a, cpu.reg.f), (0xff, 0xbb));
}

#[test]
fn sbc_register_by_step() {
    let mut cpu = cpu_with(&[0x99], 0);
    cpu.reg.a = 0x10;
    cpu.reg.c = 0x0f;
    cpu.reg.f = 0x01;
    assert_eq!(cpu.step(), Ok(4));
    assert_eq!((cpu.reg.a, cpu.reg.f), (0x00, 0x52));
}

#[test]
fn logic_operations_by_step() {
    let mut cpu = cpu_with(&[0xe6, 0x0f, 0xaf, 0xdd, 0xb6, 0x02], 0);
    cpu.reg.a = 0xf3;
    assert_eq!(cpu.step(), Ok(7));
    assert_eq!((cpu.reg.a, cpu.reg.f), (0x03, 0x14));
    assert_eq!(cpu.step(), Ok(4));
    assert_eq!((cpu.reg.a, cpu.reg.f), (0x00, 0x44));
    cpu.reg.a = 0x01;
    cpu.reg.ix = 0x6000;
    cpu.write_mem(0x6002, 0x80);
    assert_eq!(cpu.step(), Ok(19));
    assert_eq!((cpu.reg.a, cpu.reg.f, cpu.reg.pc), (0x81, 0x84, 6));
}

#[test]
fn compare_keeps_accumulator() {
    let mut cpu = cpu_with(&[0xfe, 0x28], 0);
    cpu.reg.a = 0x10;
    assert_eq!(cpu.step(), Ok(7));
    assert_eq!((cpu.reg.a, cpu.reg.f), (0x10, 0xbb));
}

#[test]
fn increment_and_decrement_by_step() {
    let mut cpu = cpu_with(&[0x34, 0x05, 0xfd, 0x34, 0xff], 0);
    cpu.reg.set_hl(0x7000);
    cpu.write_mem(0x7000, 0x7f);
    cpu.reg.f = 0x01;
    assert_eq!(cpu.step(), Ok(11));
    assert_eq!((cpu.read_mem(0x7000), cpu.reg.f), (0x80, 0x95));
    cpu.reg.b = 0x01;
    assert_eq!(cpu.step(), Ok(4));
    assert_eq!((cpu.reg.b, cpu.reg.f), (0x00, 0x43));
    cpu.reg.iy = 0x0100;
    cpu.write_mem(0x00ff, 0xff);
    cpu.reg.f = 0x00;
    assert_eq!(cpu.step(), Ok(23));
    assert_eq!((cpu.read_mem(0x00ff), cpu.reg.f, cpu.reg.pc), (0x00, 0x50, 5));
}

#[test]
fn negate_by_step() {
    let mut cpu = cpu_with(&[0xed, 0x44], 0);
    cpu.reg.a = 0x01;
    assert_eq!(cpu.step(), Ok(8));
    assert_eq!((cpu.reg.a, cpu.reg.f, cpu.reg.pc), (0xff, 0xbb, 2));
}

#[test]
fn alu_handler_direct() {
    let mut cpu = CPU::new();
    cpu.reg.a = 0x0f;
    assert_eq!(cpu.alu(AluOp::Or, Operand::Imm(0xf0)), ProgramCounter::Next(2));
    assert_eq!((cpu.reg.a, cpu.reg.f), (0xff, 0xac));
    cpu.reg.d = 0xff;
    assert_eq!(cpu.alu(AluOp::Xor, Operand::Reg(0b010)), ProgramCounter::Next(1));
    assert_eq!((cpu.reg.a, cpu.reg.f), (0x00, 0x44));
}

#[test]
fn push_and_pop_pairs() {
    let mut cpu = cpu_with(&[0xc5, 0xd1, 0xf5, 0xf1], 0);
    cpu.reg.sp = 0x8000;
    cpu.reg.set_bc(0x1234);
    assert_eq!(cpu.step(), Ok(11));
    assert_eq!(cpu.reg.sp, 0x7ffe);
    assert_eq!((cpu.read_mem(0x7ffe), cpu.read_mem(0x7fff)), (0x34, 0x12));
    assert_eq!(cpu.step(), Ok(10));
    assert_eq!((cpu.reg.de(), cpu.reg.sp), (0x1234, 0x8000));
    cpu.reg.set_af(0xa55a);
    assert_eq!(cpu.step(), Ok(11));
    cpu.reg.set_af(0);
    assert_eq!(cpu.step(), Ok(10));
    assert_eq!(cpu.reg.af(), 0xa55a);
}

#[test]
fn push_and_pop_handlers() {
    let mut cpu = CPU::new();
    cpu.reg.sp = 0x0001;
    cpu.reg.set_de(0xbeef);
    assert_eq!(cpu.push_qq(ID_DE), ProgramCounter::Next(1));
    assert_eq!(cpu.reg.sp, 0xffff);
    assert_eq!((cpu.read_mem(0xffff), cpu.read_mem(0x0000)), (0xef, 0xbe));
    assert_eq!(cpu.pop_qq(ID_BC), ProgramCounter::Next(1));
    assert_eq!((cpu.reg.bc(), cpu.reg.sp), (0xbeef, 0x0001));
    cpu.reg.ix = 0x1357;
    assert_eq!(cpu.push_IX(), ProgramCounter::Next(2));
    assert_eq!(cpu.pop_IY(), ProgramCounter::Next(2));
    assert_eq!(cpu.reg.iy, 0x1357);
    assert_eq!(cpu.push_IY(), ProgramCounter::Next(2));
    assert_eq!(cpu.pop_IX(), ProgramCounter::Next(2));
    assert_eq!(cpu.reg.ix, 0x1357);
    cpu.reg.set_af(0x0102);
    cpu.push_qq(ID_AF);
    cpu.pop_qq(ID_BC);
    assert_eq!(cpu.reg.bc(), 0x0102);
}

#[test]
fn call_and_return() {
    let mut cpu = cpu_with(&[0xcd, 0x00, 0x02], 0x0100);
    cpu.write_mem(0x0200, 0xc9);
    cpu.reg.sp = 0xfffe;
    assert_eq!(cpu.step(), Ok(17));
    assert_eq!((cpu.reg.pc, cpu.reg.sp), (0x0200, 0xfffc));
    assert_eq!((cpu.read_mem(0xfffc), cpu.read_mem(0xfffd)), (0x03, 0x01));
    assert_eq!(cpu.step(), Ok(10));
    assert_eq!((cpu.reg.pc, cpu.reg.sp), (0x0103, 0xfffe));
}

#[test]
fn relative_jumps() {
    let mut cpu = cpu_with(&[0x18, 0xfe], 0x0010);
    assert_eq!(cpu.step(), Ok(12));
    assert_eq!(cpu.reg.pc, 0x0010);
    let mut cpu = cpu_with(&[0x20, 0x05], 0x0010);
    cpu.reg.f = 0x40;
    assert_eq!(cpu.step(), Ok(7));
    assert_eq!(cpu.reg.pc, 0x0012);
    let mut cpu = cpu_with(&[0x38, 0x05], 0x0010);
    cpu.reg.f = 0x01;
    assert_eq!(cpu.step(), Ok(12));
    assert_eq!(cpu.reg.pc, 0x0017);
}

#[test]
fn djnz_counts_down() {
    let mut cpu = cpu_with(&[0x10, 0xfe], 0);
    cpu.reg.b = 3;
    assert_eq!(cpu.step(), Ok(13));
    assert_eq!((cpu.reg.b, cpu.reg.pc), (2, 0));
    assert_eq!(cpu.step(), Ok(13));
    assert_eq!(cpu.step(), Ok(8));
    assert_eq!((cpu.reg.b, cpu.reg.pc), (0, 2));
}

#[test]
fn conditional_jump_call_return() {
    let mut cpu = cpu_with(&[0xca, 0x34, 0x12], 0);
    cpu.reg.f = 0x40;
    assert_eq!(cpu.step(), Ok(10));
    assert_eq!(cpu.reg.pc, 0x1234);
    let mut cpu = cpu_with(&[0xdc, 0x00, 0x10, 0xd0], 0);
    cpu.reg.f = 0x01;
    cpu.reg.sp = 0x9000;
    assert_eq!(cpu.step(), Ok(17));
    assert_eq!((cpu.reg.pc, cpu.reg.sp), (0x1000, 0x8ffe));
    cpu.reg.pc = 3;
    assert_eq!(cpu.step(), Ok(5));
    assert_eq!((cpu.reg.pc, cpu.reg.sp), (4, 0x8ffe));
    cpu.reg.f = 0x00;
    cpu.reg.pc = 0;
    assert_eq!(cpu.step(), Ok(10));
    assert_eq!((cpu.reg.pc, cpu.reg.sp), (3, 0x8ffe));
    assert_eq!(cpu.step(), Ok(11));
    assert_eq!((cpu.reg.pc, cpu.reg.sp), (0x0003, 0x9000));
}

#[test]
fn parity_and_sign_conditions() {
    let mut cpu = cpu_with(&[0xe2, 0x00, 0x20], 0);
    cpu.reg.f = 0x04;
    assert_eq!(cpu.step(), Ok(10));
    assert_eq!(cpu.reg.pc, 3);
    let mut cpu = cpu_with(&[0xfa, 0x00, 0x20], 0);
    cpu.reg.f = 0x80;
    assert_eq!(cpu.step(), Ok(10));
    assert_eq!(cpu.reg.pc, 0x2000);
}

#[test]
fn restart_pushes_next_address() {
    let mut cpu = cpu_with(&[0xff], 0x0050);
    cpu.reg.sp = 0x4000;
    assert_eq!(cpu.step(), Ok(11));
    assert_eq!(cpu.reg.pc, 0x38);
    assert_eq!((cpu.read_mem(0x3ffe), cpu.read_mem(0x3fff)), (0x51, 0x00));
}

#[test]
fn absolute_and_indirect_jumps() {
    let mut cpu = cpu_with(&[0xc3, 0x00, 0x30], 0);
    assert_eq!(cpu.step(), Ok(10));
    assert_eq!(cpu.reg.pc, 0x3000);
    cpu.write_mem(0x3000, 0xe9);
    cpu.reg.set_hl(0x4000);
    assert_eq!(cpu.step(), Ok(4));
    assert_eq!(cpu.reg.pc, 0x4000);
    cpu.write_mem(0x4000, 0xdd);
    cpu.write_mem(0x4001, 0xe9);
    cpu.reg.ix = 0x5000;
    assert_eq!(cpu.step(), Ok(8));
    assert_eq!(cpu.reg.pc, 0x5000);
}

#[test]
fn halted_cpu_only_counts_cycles() {
    let mut cpu = cpu_with(&[0x76], 0);
    cpu.write_mem(0x1000, 0x5a);
    assert_eq!(cpu.step(), Ok(4));
    assert!(cpu.ctl.halt);
    assert_eq!(cpu.reg.pc, 1);
    let reg = cpu.reg;
    let ctl = cpu.ctl;
    for k in 1..=5u64 {
        assert_eq!(cpu.step(), Ok(4));
        assert_eq!(cpu.reg, reg);
        assert_eq!(cpu.ctl, ctl);
        assert_eq!(cpu.clock, 4 + 4 * k);
    }
    assert_eq!(cpu.read_mem(0x1000), 0x5a);
    assert_eq!(cpu.read_mem(0x0001), 0x00);
}

#[test]
fn nmi_leaves_halt() {
    let mut cpu = cpu_with(&[0x76], 0);
    cpu.reg.sp = 0x8000;
    cpu.ctl.iff1 = true;
    cpu.ctl.iff2 = true;
    cpu.step().unwrap();
    cpu.assert_nmi();
    assert_eq!(cpu.step(), Ok(11));
    assert_eq!(cpu.reg.pc, 0x66);
    assert_eq!(cpu.reg.sp, 0x7ffe);
    assert_eq!((cpu.read_mem(0x7ffe), cpu.read_mem(0x7fff)), (0x01, 0x00));
    assert!(!cpu.ctl.halt);
    assert!(!cpu.ctl.iff1);
    assert!(cpu.ctl.iff2);
    assert!(!cpu.ctl.nmi);
}

#[test]
fn interrupt_waits_one_instruction_after_ei() {
    let mut cpu = cpu_with(&[0xfb, 0x00, 0x00], 0);
    cpu.reg.sp = 0x8000;
    cpu.ctl.im = 1;
    cpu.assert_int(None);
    assert_eq!(cpu.step(), Ok(4));
    assert_eq!(cpu.reg.pc, 1);
    assert!(cpu.ctl.ei);
    assert_eq!(cpu.step(), Ok(4));
    assert_eq!(cpu.reg.pc, 2);
    assert_eq!(cpu.step(), Ok(13));
    assert_eq!(cpu.reg.pc, 0x38);
    assert_eq!((cpu.read_mem(0x7ffe), cpu.read_mem(0x7fff)), (0x02, 0x00));
    assert!(!cpu.ctl.iff1 && !cpu.ctl.iff2 && !cpu.ctl.int);
}

#[test]
fn interrupt_mode_two_reads_vector_table() {
    let mut cpu = cpu_with(&[0xed, 0x5e, 0x00], 0);
    cpu.reg.sp = 0xf000;
    cpu.reg.i = 0x80;
    cpu.write_mem(0x8010, 0x00);
    cpu.write_mem(0x8011, 0x90);
    assert_eq!(cpu.step(), Ok(8));
    assert_eq!(cpu.ctl.im, 2);
    cpu.ctl.iff1 = true;
    cpu.assert_int(Some(0x10));
    assert_eq!(cpu.step(), Ok(19));
    assert_eq!(cpu.reg.pc, 0x9000);
}

#[test]
fn interrupt_mode_zero_runs_restart_from_bus() {
    let mut cpu = cpu_with(&[0x00], 0x0100);
    cpu.reg.sp = 0xf000;
    cpu.ctl.iff1 = true;
    cpu.assert_int(Some(0xcf));
    assert_eq!(cpu.step(), Ok(13));
    assert_eq!(cpu.reg.pc, 0x08);
    assert_eq!((cpu.read_mem(0xeffe), cpu.read_mem(0xefff)), (0x00, 0x01));
}

#[test]
fn masked_interrupt_stays_pending() {
    let mut cpu = cpu_with(&[0x00, 0xf3], 0);
    cpu.assert_int(Some(0xff));
    assert_eq!(cpu.step(), Ok(4));
    assert_eq!(cpu.reg.pc, 1);
    assert!(cpu.ctl.int);
    // Once IFF1 is set the latched request is taken before the next fetch.
    cpu.ctl.iff1 = true;
    assert_eq!(cpu.step(), Ok(13));
    assert_eq!(cpu.reg.pc, 0x38);
}

#[test]
fn unsupported_opcode_changes_nothing() {
    let mut cpu = cpu_with(&[0xed, 0x40], 0x0300);
    cpu.reg.a = 0x12;
    let reg = cpu.reg;
    assert_eq!(cpu.step(), Err(Unsupported { pc: 0x0300 }));
    assert_eq!(cpu.reg, reg);
    assert_eq!(cpu.clock, 0);
}

#[test]
fn reset_keeps_memory() {
    let mut cpu = cpu_with(&[0x3e, 0x42], 0);
    cpu.reg.pc = 0x1234;
    cpu.reg.b = 0x77;
    cpu.ctl.iff1 = true;
    cpu.ctl.im = 2;
    cpu.assert_nmi();
    cpu.reset();
    assert_eq!((cpu.reg.pc, cpu.reg.sp, cpu.reg.af()), (0, 0xffff, 0xffff));
    assert_eq!(cpu.reg.b, 0x77);
    assert!(!cpu.ctl.iff1 && !cpu.ctl.nmi);
    assert_eq!(cpu.ctl.im, 0);
    assert_eq!(cpu.read_mem(0), 0x3e);
}

#[test]
fn clock_wraps() {
    let mut cpu = cpu_with(&[0x00], 0);
    cpu.clock = u64::MAX - 1;
    assert_eq!(cpu.step(), Ok(4));
    assert_eq!(cpu.clock, 2);
}

#[test]
fn decode_and_execute_directly() {
    let cpu = cpu_with(&[0xdd, 0x36, 0x01, 0x99], 0);
    assert_eq!(cpu.decode(), Some(Instr::LdIxN(1, 0x99)));
    let cpu = cpu_with(&[0x06, 0x07], 0);
    assert_eq!(cpu.decode(), Some(Instr::LdRN(ID_B, 0x07)));
    let mut cpu = cpu_with(&[0x00], 0);
    assert_eq!(cpu.execute(Instr::Inc(Operand::Reg(ID_B))), ProgramCounter::Next(1));
    assert_eq!(cpu.reg.b, 1);
    assert_eq!(Instr::Djnz(-2).cycles(&cpu), 8);
}
