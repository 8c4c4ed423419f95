use riscv_interp::defs::{
    get_cause_code, get_privilege_encoding, get_trap_cause, xlen2bits, xlen2misa,
    CSR_MCAUSE_ADDRESS, CSR_MEDELEG_ADDRESS, CSR_MEPC_ADDRESS, CSR_MIDELEG_ADDRESS,
    CSR_MSTATUS_ADDRESS, CSR_MTVAL_ADDRESS, CSR_MTVEC_ADDRESS, CSR_SCAUSE_ADDRESS,
    CSR_SEPC_ADDRESS, CSR_SSTATUS_ADDRESS, CSR_STVAL_ADDRESS, CSR_STVEC_ADDRESS,
};
use riscv_interp::{Exception, GuestMemory, Priv, RiscvInt, Trap, UserModeRuntime, Xlen};

fn hart(xlen: Xlen) -> RiscvInt {
    RiscvInt::init_systemmode(xlen, GuestMemory::new(0x8000_0000, 1).unwrap())
}

#[test]
fn a_new_system_hart() {
    let h = hart(Xlen::X64);
    assert_eq!(h.regs, [0; 32]);
    assert_eq!(h.fregs, [0; 32]);
    assert!(h.csr.iter().all(|c| *c == 0));
    assert_eq!(h.pc, 0);
    assert_eq!(h.want_pc, None);
    assert_eq!(h.trap, None);
    assert_eq!(h.trap_pc, 0);
    assert_eq!(h.prvmode, Priv::Machine);
    assert_eq!(h.xlen, Xlen::X64);
    assert!(!h.usermode);
    assert!(!h.cache_enabled);
    assert!(!h.stop_exec);
    assert!(!h.stop_translating);
    assert!(!h.wfi);
    assert!(!h.is_reservation);
    assert!(h.instr.is_empty());
    assert_eq!(h.memsource.guest_mem.base, 0x8000_0000);
    assert_eq!(h.memsource.guest_mem.bytes.len(), 4096);
    assert!(!h.memsource.paging);
}

#[test]
fn a_new_user_hart() {
    let h = RiscvInt::init_usermode(Xlen::X32, UserModeRuntime { brk: 0x5000, mmap_base: 0x7000 });
    assert!(h.usermode);
    assert_eq!(h.prvmode, Priv::Machine);
    assert_eq!(h.xlen, Xlen::X32);
    assert_eq!(h.user_struct, UserModeRuntime { brk: 0x5000, mmap_base: 0x7000 });
    assert_eq!(h.memsource.guest_mem.bytes.len(), 0);
    assert!(h.memsource.usermode);
    assert!(h.csr.iter().all(|c| *c == 0));
    assert_eq!(h.regs, [0; 32]);
}

#[test]
fn user_runtime_is_reachable() {
    let mut h = RiscvInt::init_usermode(Xlen::X64, UserModeRuntime { brk: 1, mmap_base: 2 });
    h.get_ume().brk = 0x9000;
    assert_eq!(h.user_struct, UserModeRuntime { brk: 0x9000, mmap_base: 2 });
}

#[test]
fn encodings() {
    assert_eq!(xlen2bits(Xlen::X32), 32);
    assert_eq!(xlen2bits(Xlen::X64), 64);
    assert_eq!(xlen2misa(Xlen::X32), 1);
    assert_eq!(xlen2misa(Xlen::X64), 2);
    assert_eq!(get_privilege_encoding(Priv::User), 0);
    assert_eq!(get_privilege_encoding(Priv::Supervisor), 1);
    assert_eq!(get_privilege_encoding(Priv::Machine), 3);
    assert_eq!(get_cause_code(Exception::InstructionAddressMisaligned), 0);
    assert_eq!(get_cause_code(Exception::IllegalInstruction), 2);
    assert_eq!(get_cause_code(Exception::EnvironmentCallFromUMode), 8);
    assert_eq!(get_cause_code(Exception::EnvironmentCallFromMMode), 11);
    assert_eq!(get_cause_code(Exception::LoadPageFault), 13);
    assert_eq!(get_cause_code(Exception::StorePageFault), 15);
    assert_eq!(get_cause_code(Exception::MachineExternalInterrupt), 11);
}

#[test]
fn encoded_cause_has_the_interrupt_bit_at_the_top() {
    let timer = Trap { ttype: Exception::MachineTimerInterrupt, val: 0 };
    let fault = Trap { ttype: Exception::LoadPageFault, val: 0 };
    assert_eq!(get_trap_cause(timer, Xlen::X64), 0x8000_0000_0000_0007);
    assert_eq!(get_trap_cause(timer, Xlen::X32), 0x8000_0007);
    assert_eq!(get_trap_cause(fault, Xlen::X64), 13);
    assert_eq!(get_trap_cause(fault, Xlen::X32), 13);
}

#[test]
fn machine_trap_records_the_previous_privilege() {
    for (prv, mpp) in [(Priv::User, 0u64), (Priv::Supervisor, 1), (Priv::Machine, 3)] {
        let mut h = hart(Xlen::X64);
        h.prvmode = prv;
        h.pc = 0x8000_0040;
        h.csr[CSR_MTVEC_ADDRESS] = 0x8000_0100;
        h.csr[CSR_MSTATUS_ADDRESS] = 0x8; // MIE
        h.is_reservation = true;
        h.handle_trap(Trap { ttype: Exception::IllegalInstruction, val: 0xdead }, 0x8000_0040);
        assert_eq!(h.prvmode, Priv::Machine);
        assert_eq!(h.pc, 0x8000_0100);
        assert_eq!(h.csr[CSR_MCAUSE_ADDRESS], 2);
        assert_eq!(h.csr[CSR_MEPC_ADDRESS], 0x8000_0040);
        assert_eq!(h.csr[CSR_MTVAL_ADDRESS], 0xdead);
        assert_eq!((h.csr[CSR_MSTATUS_ADDRESS] >> 11) & 3, mpp);
        assert_eq!(h.csr[CSR_MSTATUS_ADDRESS], 0x80 | (mpp << 11));
        assert!(!h.is_reservation);
        assert_eq!(h.csr[CSR_SCAUSE_ADDRESS], 0);
        assert_eq!(h.csr[CSR_SEPC_ADDRESS], 0);
    }
}

#[test]
fn machine_trap_keeps_the_other_status_bits() {
    let mut h = hart(Xlen::X64);
    h.prvmode = Priv::Supervisor;
    h.csr[CSR_MSTATUS_ADDRESS] = 0xffff_ffff_ffff_ffff;
    h.handle_trap(Trap { ttype: Exception::Breakpoint, val: 0 }, 0);
    // MIE clear, MPIE = old MIE = 1, MPP = 1
    assert_eq!(h.csr[CSR_MSTATUS_ADDRESS], 0xffff_ffff_ffff_eff7);
}

#[test]
fn vectored_machine_interrupt() {
    let mut h = hart(Xlen::X64);
    h.csr[CSR_MTVEC_ADDRESS] = 0x8000_1001;
    h.handle_trap(Trap { ttype: Exception::MachineTimerInterrupt, val: 0 }, 0x8000_0000);
    assert_eq!(h.pc, 0x8000_1000 + 4 * 7);
    assert_eq!(h.csr[CSR_MCAUSE_ADDRESS], 7);
    // an exception goes to the base even with a vectored register
    let mut h = hart(Xlen::X64);
    h.csr[CSR_MTVEC_ADDRESS] = 0x8000_1001;
    h.handle_trap(Trap { ttype: Exception::LoadAccessFault, val: 9 }, 0x8000_0000);
    assert_eq!(h.pc, 0x8000_1000);
    assert_eq!(h.csr[CSR_MCAUSE_ADDRESS], 5);
    // the vector address wraps at the end of the address space
    let mut h = hart(Xlen::X64);
    h.csr[CSR_MTVEC_ADDRESS] = 0xffff_ffff_ffff_ffff;
    h.handle_trap(Trap { ttype: Exception::MachineTimerInterrupt, val: 0 }, 0);
    assert_eq!(h.pc, 0xffff_ffff_ffff_fffeu64.wrapping_add(28));
}

#[test]
fn delegated_exception_goes_to_supervisor_mode() {
    for (prv, spp) in [(Priv::User, 0u64), (Priv::Supervisor, 1)] {
        let mut h = hart(Xlen::X64);
        h.prvmode = prv;
        h.csr[CSR_MEDELEG_ADDRESS] = 1 << 2;
        h.csr[CSR_STVEC_ADDRESS] = 0x4000;
        h.csr[CSR_SSTATUS_ADDRESS] = 0x2; // SIE
        h.csr[CSR_MTVEC_ADDRESS] = 0x9000;
        h.handle_trap(Trap { ttype: Exception::IllegalInstruction, val: 0x77 }, 0x1234);
        assert_eq!(h.prvmode, Priv::Supervisor);
        assert_eq!(h.pc, 0x4000);
        assert_eq!(h.csr[CSR_SCAUSE_ADDRESS], 2);
        assert_eq!(h.csr[CSR_SEPC_ADDRESS], 0x1234);
        assert_eq!(h.csr[CSR_STVAL_ADDRESS], 0x77);
        assert_eq!((h.csr[CSR_SSTATUS_ADDRESS] >> 8) & 1, spp);
        assert_eq!(h.csr[CSR_SSTATUS_ADDRESS], 0x20 | (spp << 8));
        assert_eq!(h.csr[CSR_MCAUSE_ADDRESS], 0);
        assert_eq!(h.csr[CSR_MEPC_ADDRESS], 0);
        assert_eq!(h.csr[CSR_MSTATUS_ADDRESS], 0);
    }
}

#[test]
fn delegation_does_not_apply_in_machine_mode_or_to_other_causes() {
    let mut h = hart(Xlen::X64);
    h.prvmode = Priv::Machine;
    h.csr[CSR_MEDELEG_ADDRESS] = 1 << 2;
    h.csr[CSR_MTVEC_ADDRESS] = 0x9000;
    h.csr[CSR_STVEC_ADDRESS] = 0x4000;
    h.handle_trap(Trap { ttype: Exception::IllegalInstruction, val: 0 }, 0x10);
    assert_eq!(h.prvmode, Priv::Machine);
    assert_eq!(h.pc, 0x9000);

    let mut h = hart(Xlen::X64);
    h.prvmode = Priv::User;
    h.csr[CSR_MEDELEG_ADDRESS] = 1 << 2;
    h.csr[CSR_MTVEC_ADDRESS] = 0x9000;
    h.csr[CSR_STVEC_ADDRESS] = 0x4000;
    h.handle_trap(Trap { ttype: Exception::Breakpoint, val: 0 }, 0x10);
    assert_eq!(h.prvmode, Priv::Machine);
    assert_eq!(h.pc, 0x9000);
    assert_eq!((h.csr[CSR_MSTATUS_ADDRESS] >> 11) & 3, 0);

    // medeleg does not delegate interrupts, mideleg does
    let mut h = hart(Xlen::X64);
    h.prvmode = Priv::User;
    h.csr[CSR_MEDELEG_ADDRESS] = 1 << 5;
    h.csr[CSR_MTVEC_ADDRESS] = 0x9000;
    h.csr[CSR_STVEC_ADDRESS] = 0x4001;
    h.handle_trap(Trap { ttype: Exception::SupervisorTimerInterrupt, val: 0 }, 0x10);
    assert_eq!(h.prvmode, Priv::Machine);
    let mut h = hart(Xlen::X64);
    h.prvmode = Priv::User;
    h.csr[CSR_MIDELEG_ADDRESS] = 1 << 5;
    h.csr[CSR_STVEC_ADDRESS] = 0x4001;
    h.handle_trap(Trap { ttype: Exception::SupervisorTimerInterrupt, val: 0 }, 0x10);
    assert_eq!(h.prvmode, Priv::Supervisor);
    assert_eq!(h.pc, 0x4000 + 20);
    assert_eq!(h.csr[CSR_SCAUSE_ADDRESS], 5);
}

#[test]
fn mstatus_write_is_fixed_up() {
    let mut h = hart(Xlen::X64);
    h.set_csr_raw(CSR_MSTATUS_ADDRESS, u64::MAX);
    let m = h.get_csr_raw(CSR_MSTATUS_ADDRESS);
    assert_eq!(m, 0xffff_ffca_ffff_ffbf);
    assert_eq!(m & (1 << 6), 0);
    assert_eq!(m & (1 << 36), 0);
    assert_eq!(m & (1 << 37), 0);
    assert_eq!((m >> 32) & 3, 2);
    assert_eq!((m >> 34) & 3, 2);
    h.set_csr_raw(CSR_MSTATUS_ADDRESS, 0);
    assert_eq!(h.get_csr_raw(CSR_MSTATUS_ADDRESS), 0xa_0000_0000);
    assert_eq!(h.mstatus_fixup(0x40), 0xa_0000_0000);

    let mut h = hart(Xlen::X32);
    h.set_csr_raw(CSR_MSTATUS_ADDRESS, u64::MAX);
    assert_eq!(h.get_csr_raw(CSR_MSTATUS_ADDRESS), 0xffff_ffff_ffff_ffbf);
    assert_eq!(h.mstatus_fixup(0x48), 0x8);
}

#[test]
fn other_csr_writes_are_raw() {
    let mut h = hart(Xlen::X64);
    h.set_csr_raw(CSR_MTVEC_ADDRESS, u64::MAX);
    assert_eq!(h.get_csr_raw(CSR_MTVEC_ADDRESS), u64::MAX);
    h.set_csr_raw(CSR_SSTATUS_ADDRESS, 0x40);
    assert_eq!(h.get_csr_raw(CSR_SSTATUS_ADDRESS), 0x40);
    h.set_csr_raw(4095, 3);
    assert_eq!(h.csr[4095], 3);
    assert_eq!(h.get_csr_raw(0), 0);
}

#[test]
fn flush_mstatus_changes_nothing() {
    let mut h = hart(Xlen::X64);
    h.csr[CSR_MSTATUS_ADDRESS] = 0x1234_0040;
    h.pc = 0x44;
    h.flush_mstatus();
    assert_eq!(h.csr[CSR_MSTATUS_ADDRESS], 0x1234_0040);
    assert_eq!(h.pc, 0x44);
}

#[test]
fn register_helpers() {
    let h32 = hart(Xlen::X32);
    let h64 = hart(Xlen::X64);
    assert_eq!(h32.sign_ext(0x8000_0000), 0xffff_ffff_8000_0000);
    assert_eq!(h32.sign_ext(0x1_7fff_ffff), 0x7fff_ffff);
    assert_eq!(h32.sign_ext(0xffff_ffff_0000_0001), 1);
    assert_eq!(h64.sign_ext(0x8000_0000), 0x8000_0000);
    assert_eq!(h64.sign_ext(u64::MAX), u64::MAX);
    assert_eq!(h32.cull_reg(0x1_2345_6789), 0x2345_6789);
    assert_eq!(h64.cull_reg(0x1_2345_6789), 0x1_2345_6789);
    assert_eq!(h32.most_negative(), -2147483648);
    assert_eq!(h64.most_negative(), i64::MIN);
}

#[test]
fn stack_register_is_x2() {
    let mut h = hart(Xlen::X64);
    h.set_stack_reg(0x7fff_0000);
    assert_eq!(h.regs[2], 0x7fff_0000);
    assert_eq!(h.get_stack_reg(), 0x7fff_0000);
    assert_eq!(h.regs[1], 0);
}

#[test]
fn program_counters() {
    let mut h = hart(Xlen::X64);
    h.pc = 0x100;
    assert_eq!(h.get_pc_of_current_instr(), 0x100);
    assert_eq!(h.get_pc_of_next_instr(), 0x104);
    h.is_compressed = true;
    assert_eq!(h.get_pc_of_next_instr(), 0x102);
    h.pc = u64::MAX - 1;
    assert_eq!(h.get_pc_of_next_instr(), 0);
    h.is_compressed = false;
    assert_eq!(h.get_pc_of_next_instr(), 2);
}

#[test]
fn raising_a_trap() {
    let mut h = hart(Xlen::X64);
    h.pc = 0x8000_0008;
    h.is_reservation = true;
    let t = Trap { ttype: Exception::LoadAccessFault, val: 0x42 };
    h.set_trap(t);
    assert_eq!(h.trap, Some(t));
    assert_eq!(h.trap_pc, 0x8000_0008);
    assert!(h.stop_exec);
    assert!(!h.is_reservation);
    assert!(!h.stop_translating);
    assert!(h.check_exec());
}

#[test]
fn illegal_instruction_handler() {
    let mut h = hart(Xlen::X64);
    h.pc = 0x8000_0abc;
    h.illegal_instr();
    assert_eq!(
        h.trap,
        Some(Trap { ttype: Exception::IllegalInstruction, val: 0x8000_0abc })
    );
    assert_eq!(h.trap_pc, 0x8000_0abc);
    assert!(h.stop_exec);
    assert!(h.stop_translating);
}

#[test]
fn privilege_change() {
    let mut h = hart(Xlen::X64);
    h.change_priv(Priv::User);
    assert_eq!(h.prvmode, Priv::User);
    h.change_priv(Priv::Supervisor);
    assert_eq!(h.prvmode, Priv::Supervisor);
}
