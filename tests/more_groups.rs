use z80::cpu::{ProgramCounter, CPU};
use z80::decode::Operand;
use z80::machine::Unsupported;
use z80::registers::{ID_BC, ID_HL, ID_IX, ID_SP};

fn cpu_with(program: &[u8], at: u16) -> CPU {
    let mut cpu = CPU::new();
    for (k, b) in program.iter().enumerate() {
        cpu.write_mem(at.wrapping_add(k as u16), *b);
    }
    cpu.reg.pc = at;
    cpu
}

#[test]
fn accumulator_rotates() {
    let mut cpu = cpu_with(&[0x07, 0x1f], 0);
    cpu.reg.a = 0x81;
    cpu.reg.f = 0xc4;
    assert_eq!(cpu.step(), Ok(4));
    assert_eq!((cpu.reg.a, cpu.reg.f), (0x03, 0xc5));
    cpu.reg.a = 0x01;
    cpu.reg.f = 0x00;
    assert_eq!(cpu.step(), Ok(4));
    assert_eq!((cpu.reg.a, cpu.reg.f), (0x00, 0x01));
}

#[test]
fn complement_and_carry_flag_operations() {
    let mut cpu = cpu_with(&[0x2f, 0x37, 0x3f], 0);
    cpu.reg.a = 0x5a;
    assert_eq!(cpu.step(), Ok(4));
    assert_eq!((cpu.reg.a, cpu.reg.f), (0xa5, 0x32));
    cpu.reg.a = 0x28;
    cpu.reg.f = 0x00;
    assert_eq!(cpu.step(), Ok(4));
    assert_eq!(cpu.reg.f, 0x29);
    cpu.reg.a = 0x00;
    assert_eq!(cpu.step(), Ok(4));
    assert_eq!(cpu.reg.f, 0x10);
}

#[test]
fn decimal_adjust_after_add_and_sub() {
    let mut cpu = cpu_with(&[0x3e, 0x15, 0xc6, 0x27, 0x27], 0);
    cpu.step().unwrap();
    cpu.step().unwrap();
    assert_eq!(cpu.step(), Ok(4));
    assert_eq!((cpu.reg.a, cpu.reg.f), (0x42, 0x14));
    let mut cpu = cpu_with(&[0x3e, 0x42, 0xd6, 0x15, 0x27], 0);
    cpu.step().unwrap();
    cpu.step().unwrap();
    assert_eq!(cpu.step(), Ok(4));
    assert_eq!((cpu.reg.a, cpu.reg.f), (0x27, 0x26));
}

#[test]
fn sixteen_bit_increment_and_decrement() {
    let mut cpu = cpu_with(&[0x03, 0x3b, 0xdd, 0x23], 0);
    cpu.reg.set_bc(0xffff);
    cpu.reg.f = 0xff;
    assert_eq!(cpu.step(), Ok(6));
    assert_eq!((cpu.reg.bc(), cpu.reg.f), (0, 0xff));
    assert_eq!(cpu.step(), Ok(6));
    assert_eq!(cpu.reg.sp, 0xffff);
    cpu.reg.ix = 0x00ff;
    assert_eq!(cpu.step(), Ok(10));
    assert_eq!((cpu.reg.ix, cpu.reg.pc), (0x0100, 4));
    assert_eq!(cpu.dec16(ID_IX), ProgramCounter::Next(2));
    assert_eq!(cpu.inc16(ID_SP), ProgramCounter::Next(1));
    assert_eq!((cpu.reg.ix, cpu.reg.sp), (0x00ff, 0));
}

#[test]
fn sixteen_bit_additions() {
    let mut cpu = cpu_with(&[0x19, 0x29, 0xdd, 0x29], 0);
    cpu.reg.set_hl(0x0fff);
    cpu.reg.set_de(0x0001);
    assert_eq!(cpu.step(), Ok(11));
    assert_eq!((cpu.reg.hl(), cpu.reg.f), (0x1000, 0x10));
    cpu.reg.set_hl(0x8000);
    cpu.reg.f = 0;
    assert_eq!(cpu.step(), Ok(11));
    assert_eq!((cpu.reg.hl(), cpu.reg.f), (0x0000, 0x01));
    cpu.reg.ix = 0x1234;
    assert_eq!(cpu.step(), Ok(15));
    assert_eq!(cpu.reg.ix, 0x2468);
    assert_eq!(cpu.add16(ID_HL, ID_BC), ProgramCounter::Next(1));
}

#[test]
fn sixteen_bit_add_and_subtract_with_carry() {
    let mut cpu = cpu_with(&[0xed, 0x4a, 0xed, 0x52], 0);
    cpu.reg.set_hl(0x7fff);
    cpu.reg.set_bc(0);
    cpu.reg.f = 0x01;
    assert_eq!(cpu.step(), Ok(15));
    assert_eq!((cpu.reg.hl(), cpu.reg.f), (0x8000, 0x94));
    cpu.reg.set_hl(0x1000);
    cpu.reg.set_de(0x1000);
    cpu.reg.f = 0;
    assert_eq!(cpu.step(), Ok(15));
    assert_eq!((cpu.reg.hl(), cpu.reg.f), (0x0000, 0x42));
}

#[test]
fn exchange_with_top_of_stack() {
    let mut cpu = cpu_with(&[0xe3], 0);
    cpu.reg.sp = 0x8000;
    cpu.write_mem(0x8000, 0x34);
    cpu.write_mem(0x8001, 0x12);
    cpu.reg.set_hl(0xabcd);
    assert_eq!(cpu.step(), Ok(19));
    assert_eq!(cpu.reg.hl(), 0x1234);
    assert_eq!((cpu.read_mem(0x8000), cpu.read_mem(0x8001)), (0xcd, 0xab));
    assert_eq!(cpu.reg.sp, 0x8000);
}

#[test]
fn return_from_nmi_restores_iff1() {
    let mut cpu = cpu_with(&[0xed, 0x45], 0);
    cpu.reg.sp = 0x8000;
    cpu.write_mem(0x8000, 0x00);
    cpu.write_mem(0x8001, 0x01);
    cpu.ctl.iff2 = true;
    assert_eq!(cpu.step(), Ok(14));
    assert_eq!((cpu.reg.pc, cpu.reg.sp), (0x0100, 0x8002));
    assert!(cpu.ctl.iff1);
}

#[test]
fn block_copy_repeats_until_bc_is_zero() {
    let mut cpu = cpu_with(&[0xed, 0xb0], 0);
    for (k, b) in [1u8, 2, 3].iter().enumerate() {
        cpu.write_mem(0x1000 + k as u16, *b);
    }
    cpu.reg.set_hl(0x1000);
    cpu.reg.set_de(0x2000);
    cpu.reg.set_bc(3);
    assert_eq!(cpu.step(), Ok(21));
    assert_eq!((cpu.reg.pc, cpu.reg.bc()), (0, 2));
    assert_eq!(cpu.reg.f & 0x04, 0x04);
    assert_eq!(cpu.step(), Ok(21));
    assert_eq!(cpu.step(), Ok(16));
    assert_eq!((cpu.reg.pc, cpu.reg.bc()), (2, 0));
    assert_eq!((cpu.reg.hl(), cpu.reg.de()), (0x1003, 0x2003));
    assert_eq!(
        (cpu.read_mem(0x2000), cpu.read_mem(0x2001), cpu.read_mem(0x2002)),
        (1, 2, 3)
    );
    assert_eq!(cpu.reg.f, 0x20);
}

#[test]
fn block_copy_downwards() {
    let mut cpu = cpu_with(&[0xed, 0xa8], 0);
    cpu.write_mem(0x1002, 0x77);
    cpu.reg.set_hl(0x1002);
    cpu.reg.set_de(0x2002);
    cpu.reg.set_bc(1);
    assert_eq!(cpu.step(), Ok(16));
    assert_eq!(cpu.read_mem(0x2002), 0x77);
    assert_eq!((cpu.reg.hl(), cpu.reg.de(), cpu.reg.bc()), (0x1001, 0x2001, 0));
    assert_eq!(cpu.reg.f & 0x04, 0);
}

#[test]
fn block_handlers_direct() {
    let mut cpu = CPU::new();
    cpu.reg.set_bc(2);
    cpu.reg.set_hl(0x10);
    cpu.reg.set_de(0x20);
    cpu.write_mem(0x10, 9);
    assert_eq!(cpu.ldi(), ProgramCounter::Next(2));
    assert_eq!(cpu.read_mem(0x20), 9);
    assert_eq!(cpu.ldd(), ProgramCounter::Next(2));
    assert_eq!((cpu.reg.hl(), cpu.reg.de(), cpu.reg.bc()), (0x10, 0x20, 0));
    cpu.reg.set_bc(2);
    cpu.reg.pc = 0x40;
    assert_eq!(cpu.ldir(), ProgramCounter::Jump(0x40));
    assert_eq!(cpu.lddr(), ProgramCounter::Next(2));
}

#[test]
fn rotates_and_shifts_of_the_cb_table() {
    let mut cpu = cpu_with(&[0xcb, 0x00, 0xcb, 0x3e, 0xcb, 0x2f, 0xcb, 0x11, 0xcb, 0x32], 0);
    cpu.reg.b = 0x80;
    assert_eq!(cpu.step(), Ok(8));
    assert_eq!((cpu.reg.b, cpu.reg.f, cpu.reg.pc), (0x01, 0x01, 2));
    cpu.reg.set_hl(0x3000);
    cpu.write_mem(0x3000, 0x01);
    assert_eq!(cpu.step(), Ok(15));
    assert_eq!((cpu.read_mem(0x3000), cpu.reg.f), (0x00, 0x45));
    cpu.reg.a = 0x81;
    assert_eq!(cpu.step(), Ok(8));
    assert_eq!((cpu.reg.a, cpu.reg.f), (0xc0, 0x85));
    cpu.reg.c = 0x80;
    cpu.reg.f = 0x01;
    assert_eq!(cpu.step(), Ok(8));
    assert_eq!((cpu.reg.c, cpu.reg.f), (0x01, 0x01));
    cpu.reg.d = 0x01;
    assert_eq!(cpu.step(), Ok(8));
    assert_eq!((cpu.reg.d, cpu.reg.f), (0x03, 0x04));
}

#[test]
fn bit_test_reset_and_set() {
    let mut cpu = cpu_with(&[0xcb, 0x7c, 0xcb, 0x46, 0xdd, 0xcb, 0x02, 0xde, 0xcb, 0xbf], 0);
    cpu.reg.h = 0x80;
    cpu.reg.f = 0x01;
    assert_eq!(cpu.step(), Ok(8));
    assert_eq!(cpu.reg.f, 0x91);
    cpu.reg.set_hl(0x3000);
    cpu.write_mem(0x3000, 0xfe);
    cpu.reg.f = 0x00;
    assert_eq!(cpu.step(), Ok(12));
    assert_eq!(cpu.reg.f, 0x7c);
    cpu.reg.ix = 0x4000;
    assert_eq!(cpu.step(), Ok(23));
    assert_eq!((cpu.read_mem(0x4002), cpu.reg.pc), (0x08, 8));
    cpu.reg.a = 0xff;
    assert_eq!(cpu.step(), Ok(8));
    assert_eq!(cpu.reg.a, 0x7f);
}

#[test]
fn indexed_bit_test_by_step() {
    let mut cpu = cpu_with(&[0xfd, 0xcb, 0xff, 0x4e], 0);
    cpu.reg.iy = 0x5001;
    cpu.write_mem(0x5000, 0x02);
    assert_eq!(cpu.step(), Ok(20));
    assert_eq!(cpu.reg.f & 0x40, 0);
    assert_eq!(cpu.reg.pc, 4);
}

#[test]
fn bit_handlers_direct() {
    let mut cpu = CPU::new();
    cpu.reg.e = 0x10;
    assert_eq!(cpu.res_bit(4, Operand::Reg(0b011)), ProgramCounter::Next(2));
    assert_eq!(cpu.reg.e, 0);
    assert_eq!(cpu.set_bit(0, Operand::Reg(0b011)), ProgramCounter::Next(2));
    assert_eq!(cpu.reg.e, 1);
    assert_eq!(cpu.bit_test(0, Operand::Reg(0b011)), ProgramCounter::Next(2));
    assert_eq!(cpu.reg.f & 0x40, 0);
    assert_eq!(cpu.rotate(7, Operand::Reg(0b011)), ProgramCounter::Next(2));
    assert_eq!((cpu.reg.e, cpu.reg.f & 1), (0, 1));
}

#[test]
fn index_prefix_before_other_opcodes_is_a_no_op() {
    let mut cpu = cpu_with(&[0xdd, 0x3e, 0x05], 0);
    assert_eq!(cpu.step(), Ok(4));
    assert_eq!(cpu.reg.pc, 1);
    assert_eq!(cpu.step(), Ok(7));
    assert_eq!((cpu.reg.a, cpu.reg.pc), (0x05, 3));
}

#[test]
fn undefined_ed_opcodes_are_no_ops() {
    let mut cpu = cpu_with(&[0xed, 0x00, 0xed, 0x4c], 0);
    cpu.reg.a = 0x02;
    let reg = cpu.reg;
    assert_eq!(cpu.step(), Ok(8));
    assert_eq!(cpu.reg.pc, 2);
    assert_eq!(cpu.reg.a, reg.a);
    assert_eq!(cpu.step(), Ok(8));
    assert_eq!(cpu.reg.a, 0xfe);
}

#[test]
fn groups_not_provided_are_reported() {
    for program in [[0xedu8, 0x40, 0], [0xdb, 0x10, 0], [0xd3, 0x10, 0], [0xed, 0xa2, 0]] {
        let mut cpu = cpu_with(&program, 0x0400);
        assert_eq!(cpu.step(), Err(Unsupported { pc: 0x0400 }));
        assert_eq!(cpu.reg.pc, 0x0400);
    }
}

#[test]
fn block_search_stops_on_match() {
    let mut cpu = cpu_with(&[0xed, 0xb1], 0);
    for (k, b) in [1u8, 2, 3, 4].iter().enumerate() {
        cpu.write_mem(0x1000 + k as u16, *b);
    }
    cpu.reg.a = 0x03;
    cpu.reg.set_hl(0x1000);
    cpu.reg.set_bc(10);
    assert_eq!(cpu.step(), Ok(21));
    assert_eq!(cpu.step(), Ok(21));
    assert_eq!(cpu.step(), Ok(16));
    assert_eq!((cpu.reg.pc, cpu.reg.hl(), cpu.reg.bc()), (2, 0x1003, 7));
    assert_eq!(cpu.reg.f, 0x46);
}

#[test]
fn block_compare_downwards() {
    let mut cpu = cpu_with(&[0xed, 0xa9], 0);
    cpu.reg.a = 0x10;
    cpu.reg.set_hl(0x2000);
    cpu.write_mem(0x2000, 0x01);
    cpu.reg.set_bc(1);
    assert_eq!(cpu.step(), Ok(16));
    assert_eq!((cpu.reg.hl(), cpu.reg.bc(), cpu.reg.f), (0x1fff, 0, 0x3a));
    assert_eq!(cpu.reg.a, 0x10);
}

#[test]
fn block_compare_handlers_direct() {
    let mut cpu = CPU::new();
    cpu.reg.set_hl(0x10);
    cpu.reg.set_bc(3);
    cpu.reg.pc = 0x80;
    assert_eq!(cpu.cpi(), ProgramCounter::Next(2));
    assert_eq!(cpu.cpd(), ProgramCounter::Next(2));
    assert_eq!(cpu.reg.hl(), 0x10);
    cpu.write_mem(0x10, 0x55);
    cpu.reg.set_bc(3);
    assert_eq!(cpu.cpir(), ProgramCounter::Jump(0x80));
    cpu.reg.a = 0x00;
    cpu.write_mem(0x11, 0x00);
    assert_eq!(cpu.cpdr(), ProgramCounter::Next(2));
}

#[test]
fn digit_rotates() {
    let mut cpu = cpu_with(&[0xed, 0x6f, 0xed, 0x67], 0);
    cpu.reg.set_hl(0x3000);
    cpu.write_mem(0x3000, 0x31);
    cpu.reg.a = 0x7a;
    cpu.reg.f = 0x01;
    assert_eq!(cpu.step(), Ok(18));
    assert_eq!((cpu.reg.a, cpu.read_mem(0x3000), cpu.reg.f), (0x73, 0x1a, 0x21));
    cpu.reg.a = 0x84;
    cpu.write_mem(0x3000, 0x20);
    cpu.reg.f = 0x00;
    assert_eq!(cpu.step(), Ok(18));
    assert_eq!((cpu.reg.a, cpu.read_mem(0x3000), cpu.reg.f), (0x80, 0x42, 0x80));
}

#[test]
fn index_register_halves() {
    let mut cpu = cpu_with(&[0xdd, 0x44, 0xdd, 0x26, 0x99, 0xfd, 0x6c, 0xdd, 0x7d], 0);
    cpu.reg.ix = 0x1234;
    assert_eq!(cpu.step(), Ok(8));
    assert_eq!((cpu.reg.b, cpu.reg.pc), (0x12, 2));
    assert_eq!(cpu.step(), Ok(11));
    assert_eq!((cpu.reg.ix, cpu.reg.pc), (0x9934, 5));
    cpu.reg.iy = 0xab00;
    assert_eq!(cpu.step(), Ok(8));
    assert_eq!(cpu.reg.iy, 0xabab);
    assert_eq!(cpu.step(), Ok(8));
    assert_eq!(cpu.reg.a, 0x34);
    assert_eq!(cpu.reg.hl(), 0);
}

#[test]
fn arithmetic_on_index_register_halves() {
    let mut cpu = cpu_with(&[0xdd, 0x24, 0xfd, 0x2d, 0xdd, 0x84], 0);
    cpu.reg.ix = 0x7f00;
    assert_eq!(cpu.step(), Ok(8));
    assert_eq!((cpu.reg.ix, cpu.reg.f), (0x8000, 0x94));
    cpu.reg.iy = 0x0001;
    cpu.reg.f = 0;
    assert_eq!(cpu.step(), Ok(8));
    assert_eq!((cpu.reg.iy, cpu.reg.f), (0x0000, 0x42));
    cpu.reg.a = 1;
    cpu.reg.ix = 0x0200;
    assert_eq!(cpu.step(), Ok(8));
    assert_eq!((cpu.reg.a, cpu.reg.f, cpu.reg.pc), (3, 0x00, 6));
}

#[test]
fn half_load_handler_direct() {
    let mut cpu = CPU::new();
    cpu.reg.c = 0x5c;
    assert_eq!(cpu.ld_half(Operand::IyLow, Operand::Reg(0b001)), ProgramCounter::Next(2));
    assert_eq!(cpu.reg.iy, 0x005c);
    assert_eq!(cpu.ld_half(Operand::IxHigh, Operand::Imm(0x81)), ProgramCounter::Next(3));
    assert_eq!(cpu.reg.ix, 0x8100);
}

#[test]
fn indexed_bit_operations_copy_into_register() {
    let mut cpu = cpu_with(&[0xdd, 0xcb, 0x01, 0x00, 0xfd, 0xcb, 0x00, 0xc7, 0xdd, 0xcb, 0x01, 0x87], 0);
    cpu.reg.ix = 0x3000;
    cpu.reg.iy = 0x4000;
    cpu.write_mem(0x3001, 0x80);
    assert_eq!(cpu.step(), Ok(23));
    assert_eq!((cpu.read_mem(0x3001), cpu.reg.b, cpu.reg.f, cpu.reg.pc), (0x01, 0x01, 0x01, 4));
    assert_eq!(cpu.step(), Ok(23));
    assert_eq!((cpu.read_mem(0x4000), cpu.reg.a, cpu.reg.f), (0x01, 0x01, 0x01));
    assert_eq!(cpu.step(), Ok(23));
    assert_eq!((cpu.read_mem(0x3001), cpu.reg.a), (0x00, 0x00));
}

#[test]
fn cb_copy_handler_direct() {
    let mut cpu = CPU::new();
    cpu.reg.iy = 0x10;
    cpu.write_mem(0x0f, 0x03);
    assert_eq!(cpu.cb_copy(0, 7, Operand::AtIy(-1), 0b010), ProgramCounter::Next(4));
    assert_eq!((cpu.read_mem(0x0f), cpu.reg.d, cpu.reg.f), (0x01, 0x01, 0x01));
}
