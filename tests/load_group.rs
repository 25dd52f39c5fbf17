use z80::cpu::{ProgramCounter, CPU};
use z80::registers::{ID_A, ID_B, ID_BC, ID_C, ID_D, ID_DE, ID_H, ID_HL, ID_IX, ID_IY, ID_L, ID_SP};

fn cpu_with(program: &[u8], at: u16) -> CPU {
    let mut cpu = CPU::new();
    for (k, b) in program.iter().enumerate() {
        cpu.write_mem(at.wrapping_add(k as u16), *b);
    }
    cpu.reg.pc = at;
    cpu
}

#[test]
fn immediate_load_into_a_by_step() {
    let mut cpu = cpu_with(&[0x3e, 0x42], 0);
    cpu.reset();
    let flags = cpu.reg.f;
    assert_eq!(cpu.step(), Ok(7));
    assert_eq!(cpu.reg.a, 0x42);
    assert_eq!(cpu.reg.pc, 2);
    assert_eq!(cpu.reg.f, flags);
}

#[test]
fn load_b_from_hl_by_step() {
    let mut cpu = cpu_with(&[0x46], 0x0100);
    cpu.reg.set_hl(0x1234);
    cpu.write_mem(0x1234, 0x99);
    assert_eq!(cpu.step(), Ok(7));
    assert_eq!(cpu.reg.b, 0x99);
    assert_eq!(cpu.reg.pc, 0x0101);
}

#[test]
fn indexed_load_into_c_by_step() {
    let mut cpu = cpu_with(&[0xdd, 0x4e, 0x05], 0x0200);
    cpu.reg.ix = 0x2000;
    cpu.write_mem(0x2005, 0x7f);
    assert_eq!(cpu.step(), Ok(19));
    assert_eq!(cpu.reg.c, 0x7f);
    assert_eq!(cpu.reg.pc, 0x0203);
}

#[test]
fn indexed_load_handler_reports_three_bytes() {
    let mut cpu = CPU::new();
    cpu.reg.ix = 0x2000;
    cpu.write_mem(0x2005, 0x7f);
    assert_eq!(cpu.ld_r_IX(ID_C, 5), ProgramCounter::Next(3));
    assert_eq!(cpu.reg.c, 0x7f);
}

#[test]
fn indexed_negative_displacement_and_wrap() {
    let mut cpu = CPU::new();
    cpu.reg.iy = 0x0002;
    cpu.write_mem(0xfffe, 0x5a);
    assert_eq!(cpu.ld_r_IY(ID_A, -4), ProgramCounter::Next(3));
    assert_eq!(cpu.reg.a, 0x5a);
    cpu.reg.ix = 0xfff0;
    cpu.reg.b = 0x11;
    assert_eq!(cpu.ld_IX_r(ID_B, 0x7f), ProgramCounter::Next(3));
    assert_eq!(cpu.read_mem(0x006f), 0x11);
}

#[test]
fn ld_a_i_sets_flags_from_i_and_iff2() {
    let mut cpu = CPU::new();
    cpu.reg.i = 0x00;
    cpu.ctl.iff2 = true;
    cpu.reg.a = 0x33;
    cpu.reg.f = 0xff;
    assert_eq!(cpu.ld_A_I(), ProgramCounter::Next(2));
    assert_eq!(cpu.reg.a, 0);
    // Z and P/V set, S, H, N clear, C kept.
    assert_eq!(cpu.reg.f, 0x45);
    cpu.reg.f = 0x00;
    cpu.ld_A_I();
    assert_eq!(cpu.reg.f, 0x44);
}

#[test]
fn ld_a_i_by_step() {
    let mut cpu = cpu_with(&[0xed, 0x57], 0);
    cpu.reg.i = 0x00;
    cpu.ctl.iff2 = true;
    cpu.reg.f = 0x01;
    assert_eq!(cpu.step(), Ok(9));
    assert_eq!(cpu.reg.a, 0);
    assert_eq!(cpu.reg.f, 0x45);
    assert_eq!(cpu.reg.pc, 2);
}

#[test]
fn ld_a_r_negative_value_sets_sign() {
    let mut cpu = CPU::new();
    cpu.reg.r = 0x80;
    cpu.ctl.iff2 = false;
    cpu.reg.f = 0x00;
    cpu.ld_A_R();
    assert_eq!(cpu.reg.a, 0x80);
    assert_eq!(cpu.reg.f, 0x80);
}

#[test]
fn store_hl_absolute() {
    let mut cpu = CPU::new();
    cpu.reg.set_hl(0xbeef);
    assert_eq!(cpu.ld_addr_nn_HL(0x4000), ProgramCounter::Next(3));
    assert_eq!(cpu.read_mem(0x4000), 0xef);
    assert_eq!(cpu.read_mem(0x4001), 0xbe);
}

#[test]
fn store_hl_absolute_by_step() {
    let mut cpu = cpu_with(&[0x22, 0x00, 0x40], 0);
    cpu.reg.set_hl(0xbeef);
    assert_eq!(cpu.step(), Ok(16));
    assert_eq!(cpu.read_mem(0x4000), 0xef);
    assert_eq!(cpu.read_mem(0x4001), 0xbe);
    assert_eq!(cpu.reg.pc, 3);
}

#[test]
fn word_store_wraps_at_top_of_memory() {
    let mut cpu = CPU::new();
    cpu.reg.sp = 0x1234;
    assert_eq!(cpu.ld_addr_nn_dd(ID_SP, 0xffff), ProgramCounter::Next(4));
    assert_eq!(cpu.read_mem(0xffff), 0x34);
    assert_eq!(cpu.read_mem(0x0000), 0x12);
    assert_eq!(cpu.ld_dd_addr_nn(ID_BC, 0xffff), ProgramCounter::Next(4));
    assert_eq!(cpu.reg.bc(), 0x1234);
}

#[test]
fn sixteen_bit_loads_from_memory() {
    let mut cpu = CPU::new();
    cpu.write_mem(0x3000, 0x78);
    cpu.write_mem(0x3001, 0x56);
    assert_eq!(cpu.ld_HL_addr_nn(0x3000), ProgramCounter::Next(3));
    assert_eq!((cpu.reg.h, cpu.reg.l), (0x56, 0x78));
    assert_eq!(cpu.ld_IX_addr_nn(0x3000), ProgramCounter::Next(4));
    assert_eq!(cpu.reg.ix, 0x5678);
    assert_eq!(cpu.ld_IY_addr_nn(0x3000), ProgramCounter::Next(4));
    assert_eq!(cpu.reg.iy, 0x5678);
}

#[test]
fn sixteen_bit_stores_of_index_registers() {
    let mut cpu = CPU::new();
    cpu.reg.ix = 0xa1b2;
    cpu.reg.iy = 0xc3d4;
    assert_eq!(cpu.ld_addr_nn_IX(0x10), ProgramCounter::Next(4));
    assert_eq!(cpu.ld_addr_nn_IY(0x20), ProgramCounter::Next(4));
    assert_eq!((cpu.read_mem(0x10), cpu.read_mem(0x11)), (0xb2, 0xa1));
    assert_eq!((cpu.read_mem(0x20), cpu.read_mem(0x21)), (0xd4, 0xc3));
}

#[test]
fn register_to_register_and_immediates() {
    let mut cpu = CPU::new();
    assert_eq!(cpu.ld_r_n(ID_H, 0x12), ProgramCounter::Next(2));
    assert_eq!(cpu.ld_x_y(ID_L, ID_H), ProgramCounter::Next(1));
    assert_eq!(cpu.reg.hl(), 0x1212);
    assert_eq!(cpu.ld_dd_nn(ID_DE, 0xcafe), ProgramCounter::Next(3));
    assert_eq!((cpu.reg.d, cpu.reg.e), (0xca, 0xfe));
    assert_eq!(cpu.ld_IX_nn(0x1111), ProgramCounter::Next(4));
    assert_eq!(cpu.ld_IY_nn(0x2222), ProgramCounter::Next(4));
    assert_eq!((cpu.reg.ix, cpu.reg.iy), (0x1111, 0x2222));
}

#[test]
fn accumulator_indirect_loads_and_stores() {
    let mut cpu = CPU::new();
    cpu.reg.set_bc(0x0100);
    cpu.reg.set_de(0x0200);
    cpu.write_mem(0x0100, 0xaa);
    cpu.write_mem(0x0200, 0xbb);
    cpu.write_mem(0x0300, 0xcc);
    assert_eq!(cpu.ld_A_BC(), ProgramCounter::Next(1));
    assert_eq!(cpu.reg.a, 0xaa);
    assert_eq!(cpu.ld_A_DE(), ProgramCounter::Next(1));
    assert_eq!(cpu.reg.a, 0xbb);
    assert_eq!(cpu.ld_A_nn(0x0300), ProgramCounter::Next(3));
    assert_eq!(cpu.reg.a, 0xcc);
    assert_eq!(cpu.ld_BC_A(), ProgramCounter::Next(1));
    assert_eq!(cpu.ld_DE_A(), ProgramCounter::Next(1));
    assert_eq!(cpu.ld_nn_A(0x0400), ProgramCounter::Next(3));
    assert_eq!(cpu.read_mem(0x0100), 0xcc);
    assert_eq!(cpu.read_mem(0x0200), 0xcc);
    assert_eq!(cpu.read_mem(0x0400), 0xcc);
}

#[test]
fn hl_indirect_forms() {
    let mut cpu = CPU::new();
    cpu.reg.set_hl(0x4444);
    cpu.reg.d = 0x9d;
    assert_eq!(cpu.ld_HL_r(ID_D), ProgramCounter::Next(1));
    assert_eq!(cpu.read_mem(0x4444), 0x9d);
    assert_eq!(cpu.ld_HL_n(0x17), ProgramCounter::Next(2));
    assert_eq!(cpu.read_mem(0x4444), 0x17);
    assert_eq!(cpu.ld_r_HL(ID_A), ProgramCounter::Next(1));
    assert_eq!(cpu.reg.a, 0x17);
}

#[test]
fn indexed_immediate_stores() {
    let mut cpu = CPU::new();
    cpu.reg.ix = 0x1000;
    cpu.reg.iy = 0x2000;
    assert_eq!(cpu.ld_IX_n(-1, 0x5e), ProgramCounter::Next(4));
    assert_eq!(cpu.ld_IY_n(3, 0x6f), ProgramCounter::Next(4));
    assert_eq!(cpu.read_mem(0x0fff), 0x5e);
    assert_eq!(cpu.read_mem(0x2003), 0x6f);
    cpu.reg.a = 0x42;
    assert_eq!(cpu.ld_IY_r(ID_A, 0), ProgramCounter::Next(3));
    assert_eq!(cpu.read_mem(0x2000), 0x42);
}

#[test]
fn indexed_immediate_store_by_step() {
    // LD (IY-2),0x99: displacement before the immediate.
    let mut cpu = cpu_with(&[0xfd, 0x36, 0xfe, 0x99], 0);
    cpu.reg.iy = 0x3000;
    assert_eq!(cpu.step(), Ok(19));
    assert_eq!(cpu.read_mem(0x2ffe), 0x99);
    assert_eq!(cpu.reg.pc, 4);
}

#[test]
fn interrupt_and_refresh_transfers() {
    let mut cpu = CPU::new();
    cpu.reg.a = 0x3c;
    assert_eq!(cpu.ld_I_A(), ProgramCounter::Next(2));
    assert_eq!(cpu.ld_R_A(), ProgramCounter::Next(2));
    assert_eq!((cpu.reg.i, cpu.reg.r), (0x3c, 0x3c));
}

#[test]
fn stack_pointer_loads() {
    let mut cpu = CPU::new();
    cpu.reg.set_hl(0x8000);
    cpu.reg.ix = 0x9000;
    cpu.reg.iy = 0xa000;
    assert_eq!(cpu.ld_SP_HL(), ProgramCounter::Next(1));
    assert_eq!(cpu.reg.sp, 0x8000);
    assert_eq!(cpu.ld_SP_IX(), ProgramCounter::Next(2));
    assert_eq!(cpu.reg.sp, 0x9000);
    assert_eq!(cpu.ld_SP_IY(), ProgramCounter::Next(2));
    assert_eq!(cpu.reg.sp, 0xa000);
}

#[test]
fn register_access_by_identifier() {
    let mut cpu = CPU::new();
    assert!(cpu.write_to_reg(ID_B, 0x12));
    assert_eq!(cpu.load_from_reg(ID_B), Some(0x12));
    assert!(cpu.write_nn_to_reg(ID_IY, 0xfeed));
    assert_eq!(cpu.load_nn_from_reg(ID_IY), Some(0xfeed));
    cpu.write_mem(0x10, 0x77);
    assert!(cpu.load_mem_to_reg(ID_L, 0x10));
    assert_eq!(cpu.reg.l, 0x77);
    cpu.write_reg_to_mem(ID_B, 0x11);
    assert_eq!(cpu.read_mem(0x11), 0x12);
    assert!(cpu.write_nn_mem_to_reg(ID_HL, 0x10));
    assert_eq!(cpu.reg.hl(), 0x1277);
    cpu.write_nn_reg_to_mem(ID_IX, 0x20);
    assert_eq!(cpu.read_mem(0x20), 0x00);
    assert!(cpu.write_nn_to_reg(ID_IX, 0x0102));
    cpu.write_nn_reg_to_mem(ID_IX, 0x20);
    assert_eq!((cpu.read_mem(0x20), cpu.read_mem(0x21)), (0x02, 0x01));
}

#[test]
fn invalid_register_identifiers_are_refused() {
    let mut cpu = CPU::new();
    cpu.reg.a = 0x55;
    assert!(!cpu.write_to_reg(0b110, 0x99));
    assert_eq!(cpu.load_from_reg(0b110), None);
    assert_eq!(cpu.load_from_reg(8), None);
    assert!(!cpu.load_mem_to_reg(0b110, 0));
    cpu.write_reg_to_mem(0b110, 0x30);
    assert_eq!(cpu.read_mem(0x30), 0);
    assert!(!cpu.write_nn_to_reg(6, 0x1234));
    assert_eq!(cpu.load_nn_from_reg(6), None);
    assert!(!cpu.write_nn_mem_to_reg(7, 0));
    cpu.write_nn_reg_to_mem(6, 0x40);
    assert_eq!(cpu.read_mem(0x40), 0);
    assert_eq!(cpu.reg.a, 0x55);
    assert_eq!(cpu.reg.bc(), 0);
}

#[test]
fn sixteen_bit_and_eight_bit_codes_differ() {
    // The pattern of A in the 8-bit space is not a pair; that of E is SP.
    let mut cpu = CPU::new();
    assert!(cpu.write_nn_to_reg(ID_SP, 0x4321));
    assert_eq!(cpu.reg.sp, 0x4321);
    assert_eq!(cpu.reg.e, 0);
    assert_eq!(cpu.load_nn_from_reg(ID_A), None);
    assert!(cpu.write_to_reg(ID_A, 1));
    assert_eq!(cpu.reg.a, 1);
}
