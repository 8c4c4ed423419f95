use riscv_interp::defs::{
    CSR_MEPC_ADDRESS, CSR_MSTATUS_ADDRESS, CSR_MTVEC_ADDRESS, CSR_SEPC_ADDRESS,
    CSR_SSTATUS_ADDRESS,
};
use riscv_interp::semantics::Effect;
use riscv_interp::{
    Exception, GuestMemory, Priv, RiscvArgs, RiscvInstr, RiscvInt, RiscvOp, Trap, Xlen,
};

fn hart(xlen: Xlen) -> RiscvInt {
    let mut h = RiscvInt::init_systemmode(xlen, GuestMemory::new(0x1000, 2).unwrap());
    h.pc = 0x1000;
    h
}

fn ins(func: RiscvOp, rd: u8, rs1: u8, rs2: u8, imm: u64) -> RiscvInstr {
    RiscvInstr { inc_by: 4, args: RiscvArgs { rd, rs1, rs2, imm }, func }
}

fn cins(func: RiscvOp, rd: u8, rs1: u8, rs2: u8, imm: u64) -> RiscvInstr {
    RiscvInstr { inc_by: 2, args: RiscvArgs { rd, rs1, rs2, imm }, func }
}

fn neg(v: u64) -> u64 {
    v.wrapping_neg()
}

fn alu(op: RiscvOp, a: u64, b: u64) -> u64 {
    let mut h = hart(Xlen::X64);
    h.regs[1] = a;
    h.regs[2] = b;
    h.exec_instr(&ins(op, 3, 1, 2, 0));
    assert_eq!(h.pc, 0x1004);
    assert!(!h.stop_exec);
    h.regs[3]
}

fn alu_imm(op: RiscvOp, a: u64, imm: u64) -> u64 {
    let mut h = hart(Xlen::X64);
    h.regs[1] = a;
    h.exec_instr(&ins(op, 3, 1, 0, imm));
    h.regs[3]
}

#[test]
fn register_arithmetic() {
    assert_eq!(alu(RiscvOp::Add, 5, 7), 12);
    assert_eq!(alu(RiscvOp::Add, u64::MAX, 2), 1);
    assert_eq!(alu(RiscvOp::Sub, 5, 7), neg(2));
    assert_eq!(alu(RiscvOp::Sub, 7, 5), 2);
    assert_eq!(alu(RiscvOp::Slt, neg(1), 1), 1);
    assert_eq!(alu(RiscvOp::Slt, 1, neg(1)), 0);
    assert_eq!(alu(RiscvOp::Slt, 3, 3), 0);
    assert_eq!(alu(RiscvOp::Sltu, neg(1), 1), 0);
    assert_eq!(alu(RiscvOp::Sltu, 1, neg(1)), 1);
    assert_eq!(alu(RiscvOp::Xor, 0b1100, 0b1010), 0b0110);
    assert_eq!(alu(RiscvOp::Or, 0b1100, 0b1010), 0b1110);
    assert_eq!(alu(RiscvOp::And, 0b1100, 0b1010), 0b1000);
}

#[test]
fn immediate_arithmetic() {
    assert_eq!(alu_imm(RiscvOp::Addi, 5, neg(1)), 4);
    assert_eq!(alu_imm(RiscvOp::Addi, 0, neg(2048)), neg(2048));
    assert_eq!(alu_imm(RiscvOp::Slti, neg(5), neg(1)), 1);
    assert_eq!(alu_imm(RiscvOp::Slti, 5, neg(1)), 0);
    assert_eq!(alu_imm(RiscvOp::Sltiu, 5, neg(1)), 1);
    assert_eq!(alu_imm(RiscvOp::Sltiu, 5, 5), 0);
    assert_eq!(alu_imm(RiscvOp::Xori, 0xff, neg(1)), !0xffu64);
    assert_eq!(alu_imm(RiscvOp::Ori, 0xf0, 0x0f), 0xff);
    assert_eq!(alu_imm(RiscvOp::Andi, 0xff, 0x3c), 0x3c);
}

#[test]
fn shifts() {
    let top = 0x8000_0000_0000_0000u64;
    assert_eq!(alu(RiscvOp::Sll, 1, 63), top);
    assert_eq!(alu(RiscvOp::Sll, 1, 64), 1);
    assert_eq!(alu(RiscvOp::Sll, 0xff, 0xffff_ffff_ffff_ff04), 0xff0);
    assert_eq!(alu(RiscvOp::Srl, top, 63), 1);
    assert_eq!(alu(RiscvOp::Srl, neg(1), 60), 0xf);
    assert_eq!(alu(RiscvOp::Sra, top, 63), u64::MAX);
    assert_eq!(alu(RiscvOp::Sra, top >> 1, 62), 1);
    assert_eq!(alu(RiscvOp::Sra, neg(16), 2), neg(4));
    assert_eq!(alu_imm(RiscvOp::Slli, 0xf, 4), 0xf0);
    assert_eq!(alu_imm(RiscvOp::Slli, 1, 63), top);
    assert_eq!(alu_imm(RiscvOp::Srli, top, 63), 1);
    assert_eq!(alu_imm(RiscvOp::Srai, neg(16), 0x404), neg(1));
    assert_eq!(alu_imm(RiscvOp::Srai, 0x70, 0x404), 7);
}

#[test]
fn word_operations() {
    assert_eq!(alu(RiscvOp::Addw, 0x7fff_ffff, 1), 0xffff_ffff_8000_0000);
    assert_eq!(alu(RiscvOp::Addw, 0x1_0000_0001, 0x2_0000_0002), 3);
    assert_eq!(alu(RiscvOp::Subw, 0, 1), u64::MAX);
    assert_eq!(alu(RiscvOp::Subw, 0x1_0000_0005, 2), 3);
    assert_eq!(alu(RiscvOp::Sllw, 1, 31), 0xffff_ffff_8000_0000);
    assert_eq!(alu(RiscvOp::Sllw, 1, 32), 1);
    assert_eq!(alu(RiscvOp::Srlw, 0xffff_ffff_8000_0000, 31), 1);
    assert_eq!(alu(RiscvOp::Srlw, 0xffff_ffff_8000_0000, 0), 0xffff_ffff_8000_0000);
    assert_eq!(alu(RiscvOp::Sraw, 0x8000_0000, 31), u64::MAX);
    assert_eq!(alu(RiscvOp::Sraw, 0x1_4000_0000, 30), 1);
    assert_eq!(alu_imm(RiscvOp::Addiw, 0xffff_ffff, 0), u64::MAX);
    assert_eq!(alu_imm(RiscvOp::Addiw, 0x1_0000_0000, neg(1)), u64::MAX);
    assert_eq!(alu_imm(RiscvOp::Slliw, 0x1_0000_0001, 4), 0x10);
    assert_eq!(alu_imm(RiscvOp::Srliw, 0x1_0000_0010, 4), 1);
    assert_eq!(alu_imm(RiscvOp::Sraiw, 0x8000_0000, 0x404), 0xffff_ffff_f800_0000);
}

#[test]
fn shifts_with_32_bit_registers() {
    let run = |op: RiscvOp, a: u64, b: u64| {
        let mut h = hart(Xlen::X32);
        h.regs[1] = a;
        h.regs[2] = b;
        h.exec_instr(&ins(op, 3, 1, 2, 0));
        assert_eq!(h.trap, None);
        h.regs[3]
    };
    assert_eq!(run(RiscvOp::Sll, 1, 31), 0xffff_ffff_8000_0000);
    assert_eq!(run(RiscvOp::Sll, 1, 32), 1);
    assert_eq!(run(RiscvOp::Srl, 0xffff_ffff_8000_0000, 31), 1);
    assert_eq!(run(RiscvOp::Srl, 0xffff_ffff_8000_0000, 0), 0xffff_ffff_8000_0000);
    assert_eq!(run(RiscvOp::Sra, 0xffff_ffff_8000_0000, 31), u64::MAX);
    assert_eq!(run(RiscvOp::Sra, 0x4000_0000, 30), 1);
    // a shift by an immediate of 32 or more, and every word operation, is illegal
    for i in [
        ins(RiscvOp::Slli, 3, 1, 0, 32),
        ins(RiscvOp::Srli, 3, 1, 0, 63),
        ins(RiscvOp::Srai, 3, 1, 0, 0x420),
        ins(RiscvOp::Addw, 3, 1, 2, 0),
        ins(RiscvOp::Addiw, 3, 1, 0, 1),
        ins(RiscvOp::Sraiw, 3, 1, 0, 0x401),
    ] {
        let mut h = hart(Xlen::X32);
        h.regs[1] = 5;
        h.exec_instr(&i);
        assert_eq!(
            h.trap,
            Some(Trap { ttype: Exception::IllegalInstruction, val: 0x1000 }),
            "{:?}",
            i.func
        );
        assert_eq!(h.regs[3], 0);
    }
    let mut h = hart(Xlen::X32);
    h.regs[1] = 0x4000_0000;
    h.exec_instr(&ins(RiscvOp::Slli, 3, 1, 0, 1));
    assert_eq!(h.regs[3], 0xffff_ffff_8000_0000);
    h.exec_instr(&ins(RiscvOp::Srai, 4, 3, 0, 0x41f));
    assert_eq!(h.regs[4], u64::MAX);
    assert_eq!(h.trap, None);
}

#[test]
fn results_fit_the_register_width() {
    let mut h = hart(Xlen::X32);
    h.regs[1] = 0x7fff_ffff;
    h.exec_instr(&ins(RiscvOp::Addi, 3, 1, 0, 1));
    assert_eq!(h.regs[3], 0xffff_ffff_8000_0000);
    h.regs[1] = 0xffff_ffff;
    h.regs[2] = 1;
    h.exec_instr(&ins(RiscvOp::Add, 3, 1, 2, 0));
    assert_eq!(h.regs[3], 0);
    h.exec_instr(&ins(RiscvOp::Lui, 4, 0, 0, 0xffff_ffff_8000_0000));
    assert_eq!(h.regs[4], 0xffff_ffff_8000_0000);
    let mut h = hart(Xlen::X64);
    h.regs[1] = 0x7fff_ffff;
    h.exec_instr(&ins(RiscvOp::Addi, 3, 1, 0, 1));
    assert_eq!(h.regs[3], 0x8000_0000);
}

#[test]
fn upper_immediates() {
    let mut h = hart(Xlen::X64);
    h.exec_instr(&ins(RiscvOp::Lui, 5, 0, 0, 0x1234_5000));
    assert_eq!(h.regs[5], 0x1234_5000);
    h.exec_instr(&ins(RiscvOp::Auipc, 6, 0, 0, 0x2000));
    assert_eq!(h.regs[6], 0x1004 + 0x2000);
    h.exec_instr(&ins(RiscvOp::Auipc, 7, 0, 0, neg(0x1000)));
    assert_eq!(h.regs[7], 0x8);
    assert_eq!(h.pc, 0x100c);
}

#[test]
fn compressed_operations() {
    let mut h = hart(Xlen::X64);
    h.exec_instr(&cins(RiscvOp::CLi, 5, 0, 0, neg(3)));
    assert_eq!(h.regs[5], neg(3));
    assert_eq!(h.pc, 0x1002);
    assert!(h.is_compressed);
    h.exec_instr(&cins(RiscvOp::CAddi, 5, 5, 0, 4));
    assert_eq!(h.regs[5], 1);
    h.exec_instr(&cins(RiscvOp::CMv, 6, 0, 5, 0));
    assert_eq!(h.regs[6], 1);
    h.exec_instr(&cins(RiscvOp::CAdd, 6, 6, 5, 0));
    assert_eq!(h.regs[6], 2);
    assert_eq!(h.pc, 0x1008);
    h.exec_instr(&ins(RiscvOp::Addi, 7, 0, 0, 1));
    assert!(!h.is_compressed);
}

#[test]
fn jumps_link_and_defer_the_target() {
    let mut h = hart(Xlen::X64);
    h.exec_instr(&ins(RiscvOp::Jal, 1, 0, 0, 0x100));
    assert_eq!(h.regs[1], 0x1004);
    assert_eq!(h.want_pc, Some(0x1100));
    assert!(h.stop_exec);
    assert_eq!(h.pc, 0x1004);

    let mut h = hart(Xlen::X64);
    h.regs[5] = 0x2001;
    h.exec_instr(&ins(RiscvOp::Jalr, 1, 5, 0, 6));
    assert_eq!(h.regs[1], 0x1004);
    assert_eq!(h.want_pc, Some(0x2006));

    let mut h = hart(Xlen::X64);
    h.regs[1] = 0x2000;
    h.exec_instr(&cins(RiscvOp::CJr, 0, 1, 0, 0));
    assert_eq!(h.want_pc, Some(0x2000));
    assert_eq!(h.regs[0], 0);
    assert_eq!(h.regs[1], 0x2000);

    let mut h = hart(Xlen::X64);
    h.regs[5] = 0x2000;
    h.exec_instr(&cins(RiscvOp::CJalr, 1, 5, 0, 0));
    assert_eq!(h.want_pc, Some(0x2000));
    assert_eq!(h.regs[1], 0x1002);

    let mut h = hart(Xlen::X64);
    h.exec_instr(&cins(RiscvOp::CJ, 0, 0, 0, neg(0x10)));
    assert_eq!(h.want_pc, Some(0xff0));
    assert_eq!(h.pc, 0x1002);
}

#[test]
fn branches() {
    let cases = [
        (RiscvOp::Beq, 3u64, 3u64, true),
        (RiscvOp::Beq, 3, 4, false),
        (RiscvOp::Bne, 3, 4, true),
        (RiscvOp::Bne, 3, 3, false),
        (RiscvOp::Blt, neg(1), 0, true),
        (RiscvOp::Blt, 0, neg(1), false),
        (RiscvOp::Bge, 0, neg(1), true),
        (RiscvOp::Bge, 5, 5, true),
        (RiscvOp::Bge, neg(1), 0, false),
        (RiscvOp::Bltu, 0, neg(1), true),
        (RiscvOp::Bltu, neg(1), 0, false),
        (RiscvOp::Bgeu, neg(1), 0, true),
        (RiscvOp::Bgeu, 0, neg(1), false),
    ];
    for (op, a, b, taken) in cases {
        let mut h = hart(Xlen::X64);
        h.regs[1] = a;
        h.regs[2] = b;
        h.exec_instr(&ins(op, 0, 1, 2, neg(8)));
        assert_eq!(h.pc, 0x1004);
        if taken {
            assert_eq!(h.want_pc, Some(0xff8), "{:?}", op);
            assert!(h.stop_exec);
        } else {
            assert_eq!(h.want_pc, None, "{:?}", op);
            assert!(!h.stop_exec);
        }
    }
}

#[test]
fn loads_extend_what_they_read() {
    let mut h = hart(Xlen::X64);
    h.memsource.guest_mem.write_u64(0x1800, 0x8899_aabb_ccdd_eeff);
    h.regs[1] = 0x1810;
    let cases = [
        (RiscvOp::Lb, 0xffff_ffff_ffff_ffffu64),
        (RiscvOp::Lbu, 0xff),
        (RiscvOp::Lh, 0xffff_ffff_ffff_eeff),
        (RiscvOp::Lhu, 0xeeff),
        (RiscvOp::Lw, 0xffff_ffff_ccdd_eeff),
        (RiscvOp::Lwu, 0xccdd_eeff),
        (RiscvOp::Ld, 0x8899_aabb_ccdd_eeff),
    ];
    for (op, want) in cases {
        h.exec_instr(&ins(op, 3, 1, 0, neg(0x10)));
        assert_eq!(h.regs[3], want, "{:?}", op);
        assert_eq!(h.trap, None);
    }
    h.memsource.guest_mem.write_u64(0x1800, 0x0000_0000_7fdd_7e7f);
    for (op, want) in
        [(RiscvOp::Lb, 0x7fu64), (RiscvOp::Lh, 0x7e7f), (RiscvOp::Lw, 0x7fdd_7e7f)]
    {
        h.exec_instr(&ins(op, 3, 1, 0, neg(0x10)));
        assert_eq!(h.regs[3], want, "{:?}", op);
    }
}

#[test]
fn stores_write_the_low_bytes() {
    let mut h = hart(Xlen::X64);
    h.regs[1] = 0x1800;
    h.regs[2] = 0x1122_3344_5566_7788;
    h.is_reservation = true;
    h.exec_instr(&ins(RiscvOp::Sb, 0, 1, 2, 0));
    assert!(!h.is_reservation);
    h.exec_instr(&ins(RiscvOp::Sh, 0, 1, 2, 8));
    h.exec_instr(&ins(RiscvOp::Sw, 0, 1, 2, 16));
    h.exec_instr(&ins(RiscvOp::Sd, 0, 1, 2, 24));
    let m = &h.memsource.guest_mem;
    assert_eq!(m.read_u64(0x1800), 0x88);
    assert_eq!(m.read_u64(0x1808), 0x7788);
    assert_eq!(m.read_u64(0x1810), 0x5566_7788);
    assert_eq!(m.read_u64(0x1818), 0x1122_3344_5566_7788);
    assert_eq!(h.trap, None);
    assert!(!h.stop_exec);
    assert_eq!(h.pc, 0x1010);
}

#[test]
fn failed_data_accesses_trap() {
    let mut h = hart(Xlen::X64);
    h.regs[1] = 0x1801;
    h.regs[3] = 0x55;
    h.exec_instr(&ins(RiscvOp::Lw, 3, 1, 0, 0));
    assert_eq!(h.trap, Some(Trap { ttype: Exception::LoadAddressMisaligned, val: 0x1801 }));
    assert_eq!(h.trap_pc, 0x1000);
    assert_eq!(h.regs[3], 0x55);
    assert!(h.stop_exec);

    let mut h = hart(Xlen::X64);
    h.regs[1] = 0x8000;
    h.exec_instr(&ins(RiscvOp::Sd, 0, 1, 2, 0));
    assert_eq!(h.trap, Some(Trap { ttype: Exception::StoreAccessFault, val: 0x8000 }));

    let mut h = hart(Xlen::X64);
    h.regs[1] = 0x1802;
    h.exec_instr(&ins(RiscvOp::Sw, 0, 1, 2, 0));
    assert_eq!(h.trap, Some(Trap { ttype: Exception::StoreAddressMisaligned, val: 0x1802 }));

    let mut h = hart(Xlen::X64);
    h.regs[1] = 0;
    h.exec_instr(&ins(RiscvOp::Lb, 3, 1, 0, neg(1)));
    assert_eq!(h.trap, Some(Trap { ttype: Exception::LoadAccessFault, val: u64::MAX }));
}

#[test]
fn addresses_have_the_width_of_the_registers() {
    let mut h = RiscvInt::init_systemmode(Xlen::X32, GuestMemory::new(0x8000_0000, 1).unwrap());
    h.pc = 0x8000_0000;
    h.memsource.guest_mem.write_u32(0x8000_0010, 0x1234_5678);
    // registers hold sign-extended values; addresses are their low 32 bits
    h.regs[1] = 0xffff_ffff_8000_0000;
    h.exec_instr(&ins(RiscvOp::Lw, 3, 1, 0, 0x10));
    assert_eq!(h.trap, None);
    assert_eq!(h.regs[3], 0x1234_5678);
    h.regs[2] = 0x9abc_def0;
    h.exec_instr(&ins(RiscvOp::Sw, 0, 1, 2, 0x20));
    assert_eq!(h.trap, None);
    assert_eq!(h.memsource.guest_mem.read_u32(0x8000_0020), 0x9abc_def0);
    h.exec_instr(&ins(RiscvOp::Jalr, 5, 1, 0, 0x41));
    assert_eq!(h.want_pc, Some(0x8000_0040));
    assert_eq!(h.regs[5], 0xffff_ffff_8000_000c);
    h.regs[1] = 0xffff_fff0;
    h.exec_instr(&ins(RiscvOp::Lw, 3, 1, 0, 0x20));
    assert_eq!(h.trap, Some(Trap { ttype: Exception::LoadAccessFault, val: 0x10 }));

    let mut h = RiscvInt::init_systemmode(Xlen::X64, GuestMemory::new(0x8000_0000, 1).unwrap());
    h.regs[1] = 0xffff_ffff_8000_0000;
    h.exec_instr(&ins(RiscvOp::Lw, 3, 1, 0, 0x10));
    assert_eq!(
        h.trap,
        Some(Trap { ttype: Exception::LoadAccessFault, val: 0xffff_ffff_8000_0010 })
    );
}

#[test]
fn wide_accesses_need_wide_registers() {
    for op in [RiscvOp::Ld, RiscvOp::Lwu, RiscvOp::Sd] {
        let mut h = hart(Xlen::X32);
        h.regs[1] = 0x1800;
        h.exec_instr(&ins(op, 3, 1, 2, 0));
        assert_eq!(
            h.trap,
            Some(Trap { ttype: Exception::IllegalInstruction, val: 0x1000 }),
            "{:?}",
            op
        );
    }
    let mut h = hart(Xlen::X32);
    h.regs[1] = 0x1800;
    h.exec_instr(&ins(RiscvOp::Lw, 3, 1, 2, 0));
    assert_eq!(h.trap, None);
}

#[test]
fn environment_call_names_the_privilege() {
    for (prv, cause) in [
        (Priv::User, Exception::EnvironmentCallFromUMode),
        (Priv::Supervisor, Exception::EnvironmentCallFromSMode),
        (Priv::Machine, Exception::EnvironmentCallFromMMode),
    ] {
        let mut h = hart(Xlen::X64);
        h.prvmode = prv;
        h.exec_instr(&ins(RiscvOp::Ecall, 0, 0, 0, 0));
        assert_eq!(h.trap, Some(Trap { ttype: cause, val: 0 }));
        assert_eq!(h.trap_pc, 0x1000);
        assert_eq!(h.pc, 0x1004);
    }
}

#[test]
fn breakpoints() {
    let mut h = hart(Xlen::X64);
    h.exec_instr(&ins(RiscvOp::Ebreak, 0, 0, 0, 0));
    assert_eq!(h.trap, Some(Trap { ttype: Exception::Breakpoint, val: 0x1000 }));
    let mut h = hart(Xlen::X64);
    h.exec_instr(&cins(RiscvOp::CEbreak, 0, 0, 0, 0));
    assert_eq!(h.trap, Some(Trap { ttype: Exception::Breakpoint, val: 0x1000 }));
    assert_eq!(h.pc, 0x1002);
}

#[test]
fn the_illegal_instruction() {
    let mut h = hart(Xlen::X64);
    h.exec_instr(&cins(RiscvOp::Illegal, 0, 0, 0, 0));
    assert_eq!(h.trap, Some(Trap { ttype: Exception::IllegalInstruction, val: 0x1000 }));
    assert!(h.stop_exec);
    assert!(h.stop_translating);
    assert_eq!(h.pc, 0x1002);
}

#[test]
fn csr_instructions() {
    let mut h = hart(Xlen::X64);
    h.regs[5] = 0x8000_0100;
    h.csr[CSR_MTVEC_ADDRESS] = 0x44;
    h.exec_instr(&ins(RiscvOp::Csrrw, 6, 5, 0, CSR_MTVEC_ADDRESS as u64));
    assert_eq!(h.regs[6], 0x44);
    assert_eq!(h.csr[CSR_MTVEC_ADDRESS], 0x8000_0100);
    assert!(!h.stop_exec);
    h.regs[5] = 0x3;
    h.exec_instr(&ins(RiscvOp::Csrrs, 6, 5, 0, CSR_MTVEC_ADDRESS as u64));
    assert_eq!(h.regs[6], 0x8000_0100);
    assert_eq!(h.csr[CSR_MTVEC_ADDRESS], 0x8000_0103);
    h.regs[5] = 0x101;
    h.exec_instr(&ins(RiscvOp::Csrrc, 6, 5, 0, CSR_MTVEC_ADDRESS as u64));
    assert_eq!(h.regs[6], 0x8000_0103);
    assert_eq!(h.csr[CSR_MTVEC_ADDRESS], 0x8000_0002);
    // with x0 as the source, set and clear only read
    h.exec_instr(&ins(RiscvOp::Csrrs, 7, 0, 0, CSR_MTVEC_ADDRESS as u64));
    assert_eq!(h.regs[7], 0x8000_0002);
    assert_eq!(h.csr[CSR_MTVEC_ADDRESS], 0x8000_0002);
    // a write of mstatus is fixed up
    h.regs[5] = u64::MAX;
    h.exec_instr(&ins(RiscvOp::Csrrw, 0, 5, 0, CSR_MSTATUS_ADDRESS as u64));
    assert_eq!(h.csr[CSR_MSTATUS_ADDRESS], 0xffff_ffca_ffff_ffbf);
    assert_eq!(h.regs[0], 0);
    assert_eq!(h.trap, None);
}

#[test]
fn csr_instructions_with_an_immediate() {
    let mut h = hart(Xlen::X64);
    h.regs[9] = 0xdead;
    h.exec_instr(&ins(RiscvOp::Csrrwi, 6, 9, 0, CSR_MTVEC_ADDRESS as u64));
    assert_eq!(h.csr[CSR_MTVEC_ADDRESS], 9);
    assert_eq!(h.regs[6], 0);
    h.exec_instr(&ins(RiscvOp::Csrrsi, 6, 0x14, 0, CSR_MTVEC_ADDRESS as u64));
    assert_eq!(h.regs[6], 9);
    assert_eq!(h.csr[CSR_MTVEC_ADDRESS], 0x1d);
    h.exec_instr(&ins(RiscvOp::Csrrci, 6, 0x11, 0, CSR_MTVEC_ADDRESS as u64));
    assert_eq!(h.regs[6], 0x1d);
    assert_eq!(h.csr[CSR_MTVEC_ADDRESS], 0xc);
    // the immediate 0 only reads, even a read-only register
    h.csr[0xf14] = 3;
    h.exec_instr(&ins(RiscvOp::Csrrci, 7, 0, 0, 0xf14));
    assert_eq!(h.regs[7], 3);
    assert_eq!(h.trap, None);
    h.exec_instr(&ins(RiscvOp::Csrrwi, 7, 0, 0, 0xf14));
    assert_eq!(h.trap, Some(Trap { ttype: Exception::IllegalInstruction, val: 0x1010 }));
}

#[test]
fn csr_access_needs_privilege() {
    let mut h = hart(Xlen::X64);
    h.prvmode = Priv::User;
    h.regs[5] = 1;
    h.exec_instr(&ins(RiscvOp::Csrrw, 6, 5, 0, CSR_MTVEC_ADDRESS as u64));
    assert_eq!(h.trap, Some(Trap { ttype: Exception::IllegalInstruction, val: 0x1000 }));
    assert_eq!(h.csr[CSR_MTVEC_ADDRESS], 0);

    let mut h = hart(Xlen::X64);
    h.prvmode = Priv::Supervisor;
    h.regs[5] = 1;
    h.exec_instr(&ins(RiscvOp::Csrrw, 6, 5, 0, CSR_SSTATUS_ADDRESS as u64));
    assert_eq!(h.trap, None);
    assert_eq!(h.csr[CSR_SSTATUS_ADDRESS], 1);
    h.exec_instr(&ins(RiscvOp::Csrrs, 6, 0, 0, CSR_MSTATUS_ADDRESS as u64));
    assert_eq!(h.trap, Some(Trap { ttype: Exception::IllegalInstruction, val: 0x1004 }));

    // a read-only register can be read and not written
    let mut h = hart(Xlen::X64);
    h.csr[0xf14] = 7;
    h.exec_instr(&ins(RiscvOp::Csrrs, 6, 0, 0, 0xf14));
    assert_eq!(h.regs[6], 7);
    assert_eq!(h.trap, None);
    h.regs[5] = 1;
    h.exec_instr(&ins(RiscvOp::Csrrw, 6, 5, 0, 0xf14));
    assert_eq!(h.trap, Some(Trap { ttype: Exception::IllegalInstruction, val: 0x1004 }));
    assert_eq!(h.csr[0xf14], 7);
}

#[test]
fn return_from_machine_mode() {
    let mut h = hart(Xlen::X64);
    h.csr[CSR_MEPC_ADDRESS] = 0x1800;
    h.csr[CSR_MSTATUS_ADDRESS] = 0x0880; // MPP = supervisor, MPIE set
    h.exec_instr(&ins(RiscvOp::Mret, 0, 0, 0, 0));
    assert_eq!(h.prvmode, Priv::Supervisor);
    assert_eq!(h.want_pc, Some(0x1800));
    assert!(h.stop_exec);
    assert_eq!(h.csr[CSR_MSTATUS_ADDRESS], 0x88); // MIE = old MPIE, MPIE set, MPP = user
    let mut h = hart(Xlen::X64);
    h.csr[CSR_MSTATUS_ADDRESS] = 0x1808; // MPP = machine, MIE set, MPIE clear
    h.exec_instr(&ins(RiscvOp::Mret, 0, 0, 0, 0));
    assert_eq!(h.prvmode, Priv::Machine);
    assert_eq!(h.csr[CSR_MSTATUS_ADDRESS], 0x80);
    let mut h = hart(Xlen::X64);
    h.prvmode = Priv::Supervisor;
    h.exec_instr(&ins(RiscvOp::Mret, 0, 0, 0, 0));
    assert_eq!(h.trap, Some(Trap { ttype: Exception::IllegalInstruction, val: 0x1000 }));
    assert_eq!(h.prvmode, Priv::Supervisor);
}

#[test]
fn return_from_supervisor_mode() {
    let mut h = hart(Xlen::X64);
    h.prvmode = Priv::Supervisor;
    h.csr[CSR_SEPC_ADDRESS] = 0x1900;
    h.csr[CSR_SSTATUS_ADDRESS] = 0x120; // SPP = supervisor, SPIE set
    h.exec_instr(&ins(RiscvOp::Sret, 0, 0, 0, 0));
    assert_eq!(h.prvmode, Priv::Supervisor);
    assert_eq!(h.want_pc, Some(0x1900));
    assert_eq!(h.csr[CSR_SSTATUS_ADDRESS], 0x22);
    h.csr[CSR_SSTATUS_ADDRESS] = 0x2; // SPP = user, SIE set, SPIE clear
    h.exec_instr(&ins(RiscvOp::Sret, 0, 0, 0, 0));
    assert_eq!(h.prvmode, Priv::User);
    assert_eq!(h.csr[CSR_SSTATUS_ADDRESS], 0x20);
    h.trap = None;
    h.exec_instr(&ins(RiscvOp::Sret, 0, 0, 0, 0));
    assert_eq!(h.trap, Some(Trap { ttype: Exception::IllegalInstruction, val: 0x1008 }));
}

#[test]
fn fences_and_wait() {
    let mut h = hart(Xlen::X64);
    h.cache_enabled = true;
    assert_eq!(h.build_exec(0x1000), Ok(()));
    h.exec_instr(&ins(RiscvOp::Fence, 0, 0, 0, 0xff));
    assert!(h.check_block(0x1000).is_some());
    assert!(!h.stop_exec);
    h.exec_instr(&ins(RiscvOp::FenceI, 0, 0, 0, 0));
    assert!(h.instr.is_empty());
    assert!(!h.stop_exec);
    assert_eq!(h.pc, 0x1008);
    h.exec_instr(&ins(RiscvOp::Wfi, 0, 0, 0, 0));
    assert!(h.wfi);
    assert!(h.stop_exec);
    assert_eq!(h.regs, [0; 32]);
}

#[test]
fn effects_are_computed_before_they_are_committed() {
    let mut h = hart(Xlen::X64);
    h.regs[1] = 40;
    let e = h.compute_effect(&ins(RiscvOp::Addi, 3, 1, 0, 2));
    assert_eq!(e, Effect::WriteReg { rd: 3, val: 42 });
    assert_eq!(h.regs[3], 0);
    h.commit_effect(e);
    assert_eq!(h.regs[3], 42);
    assert_eq!(h.pc, 0x1000);
    assert_eq!(h.reg(3), 42);
    h.regs[0] = 9;
    assert_eq!(h.reg(0), 0);
    let e = h.compute_effect(&ins(RiscvOp::Sw, 0, 1, 3, 0x1800 - 40));
    assert_eq!(e, Effect::Store { paddr: 0x1800, val: 42, size: 4 });
    let e = h.compute_effect(&ins(RiscvOp::Beq, 0, 1, 3, 8));
    assert_eq!(e, Effect::Nothing);
    let e = h.compute_effect(&ins(RiscvOp::Bne, 0, 1, 3, 8));
    assert_eq!(e, Effect::Jump { rd: 0, link: 0, target: 0x1008 });
}

#[test]
fn fetching_and_stepping() {
    let mut h = hart(Xlen::X64);
    h.memsource.guest_mem.write_u32(0x1000, 0x0050_0093);
    h.memsource.guest_mem.write_u16(0x1004, 0x4285);
    assert_eq!(h.fetch(), Ok(ins(RiscvOp::Addi, 1, 0, 0, 5)));
    assert_eq!(h.pc, 0x1000);
    assert_eq!(h.step(), Ok(()));
    assert_eq!(h.regs[1], 5);
    assert_eq!(h.fetch(), Ok(cins(RiscvOp::CLi, 5, 0, 0, 1)));
    assert_eq!(h.step(), Ok(()));
    assert_eq!(h.pc, 0x1006);
    // the word 0 is the illegal 16-bit instruction
    assert_eq!(h.fetch(), Ok(cins(RiscvOp::Illegal, 0, 0, 0, 0)));
    // an undefined 32-bit word is the illegal 32-bit instruction
    h.memsource.guest_mem.write_u32(0x1008, 0xffff_ffff);
    h.pc = 0x1008;
    assert_eq!(h.fetch(), Ok(ins(RiscvOp::Illegal, 0, 0, 0, 0)));
    // the second half of a word that lies outside memory
    h.memsource.guest_mem.write_u16(0x2ffe, 0x0093);
    h.pc = 0x2ffe;
    let t = Trap { ttype: Exception::InstructionAccessFault, val: 0x3000 };
    assert_eq!(h.fetch(), Err(t));
    assert_eq!(h.trap, Some(t));
    assert_eq!(h.trap_pc, 0x2ffe);
    // a compressed instruction there needs no second half
    h.trap = None;
    h.memsource.guest_mem.write_u16(0x2ffe, 0x4285);
    assert_eq!(h.fetch(), Ok(cins(RiscvOp::CLi, 5, 0, 0, 1)));
    assert_eq!(h.step(), Ok(()));
    assert_eq!(h.pc, 0x3000);
    assert_eq!(h.step(), Err(Trap { ttype: Exception::InstructionAccessFault, val: 0x3000 }));
    assert_eq!(h.pc, 0x3000);
}
