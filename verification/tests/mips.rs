use utopia::mips::instruction::arithmetic::{
    add, addi, addiu, addu, dadd, daddiu, dsubu, slt, slti, sltiu, sltu, sub, subu,
};
use utopia::mips::instruction::shift::{dsll32, dsra, dsrl32, sll, sllv, sra, srl};
use utopia::mips::instruction::store::{sb, sd, sdl, sdr, sh, sw, swl, swr, Store};
use utopia::mips::instruction::trap::{teq, tne};
use utopia::mips::opcode::{IType, JType, RType};
use utopia::mips::{Core, CoreConfig, InitialState};

fn core64() -> Core {
    let mut regs = [0u64; 32];
    regs[1] = 0x0000_0000_7fff_fffe;
    regs[2] = 0xffff_ffff_ffff_fff0;
    regs[3] = 5;
    regs[4] = 0x1234_5678_9abc_def0;
    Core::new(CoreConfig { pc_mask: 0xffff_ffff, enable_64_bit: true }, InitialState { pc: 0xa400_0040, regs })
}

fn itype(rs: u32, rt: u32, imm: u16) -> u32 {
    (rs << 21) | (rt << 16) | imm as u32
}

fn rtype(rs: u32, rt: u32, rd: u32, sa: u32) -> u32 {
    (rs << 21) | (rt << 16) | (rd << 11) | (sa << 6)
}

#[test]
fn pipeline_starts_at_initial_pc() {
    let mut core = core64();
    assert_eq!(core.pc(), 0xa400_0040);
    core.advance();
    assert_eq!(core.pc(), 0xa400_0044);
    core.branch_if(false, true, 0x100);
    core.advance();
    assert_eq!(core.pc(), 0xa400_0048);
    core.advance();
    assert_eq!(core.pc(), 0xa400_0148);
}

#[test]
fn pc_mask_applies() {
    let core = Core::new(CoreConfig { pc_mask: 0xfff, enable_64_bit: false }, InitialState { pc: 0x1ffc, regs: [0; 32] });
    assert_eq!(core.pc(), 0xffc);
    let mut core = core;
    core.advance();
    assert_eq!(core.pc(), 0x000);
}

#[test]
fn register_zero_ignores_writes() {
    let mut core = core64();
    core.setw(0, 5);
    core.setd(0, 5);
    assert_eq!(core.getd(0), 0);
    core.setw(7, 0x8000_0000);
    assert_eq!(core.getd(7), 0xffff_ffff_8000_0000);
}

#[test]
fn narrow_core_keeps_32_bits() {
    let mut core = Core::new(CoreConfig { pc_mask: 0xfff, enable_64_bit: false }, InitialState { pc: 0, regs: [0; 32] });
    core.setd(5, 0x1234_5678_8000_0001);
    assert_eq!(core.getd(5), 0xffff_ffff_8000_0001);
}

#[test]
fn immediate_arithmetic() {
    let mut core = core64();
    addiu(&mut core, itype(3, 5, 0xffff));
    assert_eq!(core.getd(5), 4);
    addiu(&mut core, itype(1, 6, 0x0002));
    assert_eq!(core.getd(6), 0xffff_ffff_8000_0000);
    addi(&mut core, itype(3, 7, 0xfffb));
    assert_eq!(core.getd(7), 0);
    daddiu(&mut core, itype(2, 8, 0x0010));
    assert_eq!(core.getd(8), 0);
    slti(&mut core, itype(2, 9, 0x0000));
    assert_eq!(core.getd(9), 1);
    sltiu(&mut core, itype(3, 10, 0xffff));
    assert_eq!(core.getd(10), 1);
}

#[test]
fn register_arithmetic() {
    let mut core = core64();
    addu(&mut core, rtype(1, 1, 5, 0));
    assert_eq!(core.getd(5), 0xffff_ffff_ffff_fffc);
    subu(&mut core, rtype(3, 1, 6, 0));
    assert_eq!(core.getd(6), 0xffff_ffff_8000_0007);
    add(&mut core, rtype(3, 3, 7, 0));
    assert_eq!(core.getd(7), 10);
    sub(&mut core, rtype(3, 2, 8, 0));
    assert_eq!(core.getd(8), 21);
    dadd(&mut core, rtype(4, 3, 9, 0));
    assert_eq!(core.getd(9), 0x1234_5678_9abc_def5);
    dsubu(&mut core, rtype(3, 4, 10, 0));
    assert_eq!(core.getd(10), 0xedcb_a987_6543_2115);
    slt(&mut core, rtype(2, 3, 11, 0));
    assert_eq!(core.getd(11), 1);
    sltu(&mut core, rtype(2, 3, 12, 0));
    assert_eq!(core.getd(12), 0);
}

#[test]
fn shifts() {
    let mut core = core64();
    sll(&mut core, rtype(0, 3, 5, 30));
    assert_eq!(core.getd(5), 0x4000_0000);
    sll(&mut core, rtype(0, 3, 5, 31));
    assert_eq!(core.getd(5), 0xffff_ffff_8000_0000);
    srl(&mut core, rtype(0, 2, 6, 4));
    assert_eq!(core.getd(6), 0x0fff_ffff);
    sra(&mut core, rtype(0, 2, 7, 4));
    assert_eq!(core.getd(7), 0xffff_ffff_ffff_ffff);
    sllv(&mut core, rtype(3, 3, 8, 0));
    assert_eq!(core.getd(8), 160);
    dsll32(&mut core, rtype(0, 3, 9, 1));
    assert_eq!(core.getd(9), 0x0000_000a_0000_0000);
    dsrl32(&mut core, rtype(0, 4, 10, 0));
    assert_eq!(core.getd(10), 0x1234_5678);
    dsra(&mut core, rtype(0, 2, 11, 2));
    assert_eq!(core.getd(11), 0xffff_ffff_ffff_fffc);
}

#[test]
fn stores_name_their_accesses() {
    let mut core = core64();
    core.setd(20, 0x100);
    assert_eq!(sb(&core, itype(20, 4, 0x0003)), vec![Store::Byte(0x103, 0xf0)]);
    assert_eq!(sh(&core, itype(20, 4, 0xfffe)), vec![Store::Half(0xfe, 0xdef0)]);
    assert_eq!(sw(&core, itype(20, 4, 0)), vec![Store::Word(0x100, 0x9abc_def0)]);
    assert_eq!(
        sd(&core, itype(20, 4, 8)),
        vec![Store::Word(0x108, 0x1234_5678), Store::Word(0x10c, 0x9abc_def0)],
    );
}

#[test]
fn unaligned_word_stores() {
    let mut core = core64();
    core.setd(20, 0x101);
    assert_eq!(
        swl(&core, itype(20, 4, 0)),
        vec![Store::Byte(0x101, 0x9a), Store::Byte(0x102, 0xbc), Store::Byte(0x103, 0xde)],
    );
    assert_eq!(
        swr(&core, itype(20, 4, 0)),
        vec![Store::Byte(0x101, 0xf0), Store::Byte(0x100, 0xde)],
    );
    core.setd(20, 0x106);
    assert_eq!(sdl(&core, itype(20, 4, 0)), vec![Store::Byte(0x106, 0x12), Store::Byte(0x107, 0x34)]);
    assert_eq!(sdr(&core, itype(20, 4, 0)).len(), 7);
    assert_eq!(sdr(&core, itype(20, 4, 0))[0], Store::Byte(0x106, 0xf0));
}

#[test]
fn traps_that_do_not_fire() {
    let mut core = core64();
    teq(&mut core, rtype(1, 2, 0, 0));
    tne(&mut core, rtype(3, 3, 0, 0));
    assert_eq!(core.getd(3), 5);
}

#[test]
fn instruction_formats() {
    let word = 0x0123_4567u32;
    let r = RType::from(word);
    assert_eq!((r.opcode, r.rs, r.rt, r.rd, r.sa, r.func), (0, 9, 3, 8, 21, 0x27));
    let i = IType::from(word);
    assert_eq!((i.opcode, i.rs, i.rt, i.imm), (0, 9, 3, 0x4567));
    let j = JType::from(0x0c00_0010u32);
    assert_eq!((j.opcode, j.imm), (3, 0x10));
}
