use riscv_interp::{
    Exception, GuestMemory, RiscvBlock, RiscvInstr, RiscvInt, RiscvArgs, RiscvOp, Trap, Xlen,
};

fn hart() -> RiscvInt {
    let mut h = RiscvInt::init_systemmode(Xlen::X64, GuestMemory::new(0x1000, 2).unwrap());
    h.cache_enabled = true;
    h
}

#[test]
fn a_block_ends_with_the_first_instruction_that_ends_one() {
    let mut h = hart();
    {
        let m = &mut h.memsource.guest_mem;
        m.write_u32(0x1000, 0x0050_0093); // addi
        m.write_u16(0x1004, 0x4285); // c.li
        m.write_u32(0x1006, 0x0020_9463); // bne
        m.write_u32(0x100a, 0x0050_0093); // addi, past the end of the block
    }
    assert_eq!(h.build_exec(0x1000), Ok(()));
    assert!(h.stop_translating);
    let b = h.check_block(0x1000).unwrap();
    assert_eq!(b.begin, 0x1000);
    assert_eq!(b.end, 0x1006);
    let ops: Vec<RiscvOp> = b.instrs.iter().map(|i| i.func).collect();
    assert_eq!(ops, vec![RiscvOp::Addi, RiscvOp::CLi, RiscvOp::Bne]);
    assert_eq!(b.begin & !0xfff, b.end & !0xfff);
    assert_eq!(h.current_block.begin, 0x1000);
    assert_eq!(h.current_block.end, 0x1006);
    assert_eq!(h.current_block.instrs, b.instrs);
    assert_eq!(h.regs, [0; 32]);
    assert_eq!(h.pc, 0);
}

#[test]
fn a_word_that_decodes_to_nothing_ends_the_block_as_illegal() {
    let mut h = hart();
    h.memsource.guest_mem.write_u32(0x1000, 0x0050_0093);
    h.memsource.guest_mem.write_u32(0x1004, 0xffff_ffff);
    assert_eq!(h.build_exec(0x1000), Ok(()));
    let b = h.check_block(0x1000).unwrap();
    assert_eq!(b.instrs.len(), 2);
    assert_eq!(
        b.instrs[1],
        RiscvInstr {
            inc_by: 4,
            args: RiscvArgs { rd: 0, rs1: 0, rs2: 0, imm: 0 },
            func: RiscvOp::Illegal
        }
    );
    assert_eq!(b.end, 0x1004);
    assert!(h.stop_translating);
    assert_eq!(h.trap, None);

    let mut h = hart();
    assert_eq!(h.build_exec(0x1800), Ok(()));
    let b = h.check_block(0x1800).unwrap();
    assert_eq!(b.instrs.len(), 1);
    assert_eq!(b.instrs[0].inc_by, 2);
    assert_eq!(b.instrs[0].func, RiscvOp::Illegal);
    assert_eq!(b.end, 0x1800);
}

#[test]
fn a_block_stays_in_its_page() {
    let mut h = hart();
    for a in (0x1ff0..0x2010).step_by(4) {
        h.memsource.guest_mem.write_u32(a, 0x0050_0093);
    }
    assert_eq!(h.build_exec(0x1ff0), Ok(()));
    let b = h.check_block(0x1ff0).unwrap();
    assert_eq!(b.instrs.len(), 4);
    assert_eq!(b.end, 0x1ffc);
    assert!(!h.stop_translating);
    assert_eq!(b.begin & !0xfff, b.end & !0xfff);

    // a 32-bit instruction that would cross the page is left out
    let mut h = hart();
    for a in (0x1ff2..0x2010).step_by(4) {
        h.memsource.guest_mem.write_u32(a, 0x0050_0093);
    }
    assert_eq!(h.build_exec(0x1ff2), Ok(()));
    let b = h.check_block(0x1ff2).unwrap();
    assert_eq!(b.instrs.len(), 3);
    assert_eq!(b.end, 0x1ffa);
    assert_eq!(b.begin & !0xfff, b.end & !0xfff);

    // a compressed one in the last two bytes is taken
    let mut h = hart();
    h.memsource.guest_mem.write_u32(0x1ffa, 0x0050_0093);
    h.memsource.guest_mem.write_u16(0x1ffe, 0x4285);
    h.memsource.guest_mem.write_u16(0x2000, 0x4285);
    assert_eq!(h.build_exec(0x1ffa), Ok(()));
    let b = h.check_block(0x1ffa).unwrap();
    assert_eq!(b.instrs.len(), 2);
    assert_eq!(b.end, 0x1ffe);
}

#[test]
fn a_block_without_instructions() {
    let mut h = hart();
    h.memsource.guest_mem.write_u32(0x1ffe, 0x0050_0093);
    assert_eq!(h.build_exec(0x1ffe), Ok(()));
    let b = h.check_block(0x1ffe).unwrap();
    assert!(b.instrs.is_empty());
    assert_eq!(b.begin, 0x1ffe);
    assert_eq!(b.end, 0x1ffe);
    assert!(!h.stop_translating);
    // running it does nothing but clear `stop_exec`
    h.stop_exec = true;
    h.pc = 0x1ffe;
    h.exec_block_inner(b);
    assert!(!h.stop_exec);
    assert_eq!(h.pc, 0x1ffe);
    let e = RiscvBlock::empty();
    assert_eq!((e.begin, e.end, e.instrs.len()), (0, 0, 0));
}

#[test]
fn a_page_outside_memory_builds_nothing() {
    let mut h = hart();
    assert_eq!(
        h.build_exec(0x8000),
        Err(Trap { ttype: Exception::InstructionAccessFault, val: 0x8000 })
    );
    assert!(h.instr.is_empty());
    assert!(h.current_block.instrs.is_empty());
    assert_eq!(h.current_block.begin, 0x8000);
    assert!(h.check_block(0x8000).is_none());
    assert_eq!(h.trap, None);
}

#[test]
fn several_blocks_in_one_page() {
    let mut h = hart();
    for a in (0x1000..0x1010).step_by(4) {
        h.memsource.guest_mem.write_u32(a, 0x0050_0093);
    }
    h.memsource.guest_mem.write_u32(0x1010, 0x0000_0073);
    assert_eq!(h.build_exec(0x1000), Ok(()));
    assert_eq!(h.build_exec(0x1008), Ok(()));
    assert_eq!(h.instr.len(), 1);
    assert_eq!(h.instr[&1].len(), 2);
    assert_eq!(h.check_block(0x1000).unwrap().instrs.len(), 5);
    assert_eq!(h.check_block(0x1008).unwrap().instrs.len(), 3);
    assert!(h.check_block(0x1004).is_none());
    assert!(h.check_block(0x2000).is_none());
    // a second build at one address adds a second block; the first is found
    assert_eq!(h.build_exec(0x1000), Ok(()));
    assert_eq!(h.instr[&1].len(), 3);
    assert_eq!(h.check_block(0x1000).unwrap().end, 0x1010);
    h.flush_cache();
    assert!(h.instr.is_empty());
    assert!(h.check_block(0x1000).is_none());
}

#[test]
fn running_a_block() {
    let mut h = hart();
    {
        let m = &mut h.memsource.guest_mem;
        m.write_u32(0x1000, 0x0050_0093); // addi x1, x0, 5
        m.write_u32(0x1004, 0x0003_2283); // lw x5, 0(x6): x6 = 0 is outside memory
        m.write_u32(0x1008, 0xfff0_8113); // addi x2, x1, -1
        m.write_u32(0x100c, 0x0000_0073);
    }
    h.pc = 0x1000;
    h.stop_exec = true;
    h.exec_block_at(0x1000);
    assert_eq!(h.regs[1], 5);
    assert_eq!(h.regs[2], 0);
    assert_eq!(h.trap, Some(Trap { ttype: Exception::LoadAccessFault, val: 0 }));
    assert_eq!(h.trap_pc, 0x1004);
    assert!(h.stop_exec);
    assert_eq!(h.pc, 0x1008);
    assert_eq!(h.check_block(0x1000).unwrap().instrs.len(), 4);
}

#[test]
fn a_pass_with_the_cache_goes_from_block_to_block() {
    let mut h = hart();
    {
        let m = &mut h.memsource.guest_mem;
        m.write_u32(0x1000, 0x0050_0093); // addi x1, x0, 5
        m.write_u32(0x1004, 0x0020_9463); // bne x1, x2, +8: taken
        m.write_u32(0x100c, 0xfff0_8113); // addi x2, x1, -1
        m.write_u32(0x1010, 0x0020_8463); // beq x1, x2, +8: not taken
        m.write_u32(0x1014, 0x0010_8093); // addi x1, x1, 1
        m.write_u32(0x1018, 0x0000_0073); // ecall
    }
    h.pc = 0x1000;
    assert_eq!(h.exec_cached_int(0), Ok(()));
    assert_eq!(h.pc, 0x1000);
    assert_eq!(h.exec_cached_int(5), Ok(()));
    assert_eq!(h.want_pc, Some(0x100c));
    assert_eq!(h.pc, 0x1008);
    assert!(h.stop_exec);
    assert!(h.cache_enabled);
    h.pc = 0x100c;
    h.want_pc = None;
    // one round runs the block up to the branch that is not taken
    assert_eq!(h.exec_cached_int(1), Ok(()));
    assert_eq!(h.pc, 0x1014);
    assert!(!h.stop_exec);
    assert_eq!(h.regs[2], 4);
    assert_eq!(h.exec_cached_int(5), Ok(()));
    assert_eq!(h.regs[1], 6);
    assert_eq!(h.pc, 0x101c);
    assert_eq!(
        h.trap,
        Some(Trap { ttype: Exception::EnvironmentCallFromMMode, val: 0 })
    );
    assert!(h.check_block(0x1000).is_some());
    assert!(h.check_block(0x100c).is_some());
    assert!(h.check_block(0x1014).is_some());
}

#[test]
fn a_pass_without_the_cache_counts_instructions() {
    let mut h = hart();
    h.cache_enabled = false;
    for a in (0x1000..0x1020).step_by(4) {
        h.memsource.guest_mem.write_u32(a, 0x0010_8093); // addi x1, x1, 1
    }
    h.pc = 0x1000;
    assert_eq!(h.exec_one_by_one(0), Ok(()));
    assert_eq!(h.regs[1], 0);
    assert_eq!(h.exec_one_by_one(3), Ok(()));
    assert_eq!(h.regs[1], 3);
    assert_eq!(h.pc, 0x100c);
    assert!(!h.stop_exec);
    // with `stop_exec` set beforehand the pass is one instruction long
    h.stop_exec = true;
    assert_eq!(h.exec_one_by_one(3), Ok(()));
    assert_eq!(h.regs[1], 4);
    assert!(h.instr.is_empty());
}
