//! The state of one hart, its mathematical model, and the small operations on
//! it: construction, register and CSR access, raising a trap, memory access.

use crate::cache::cache_wf;
use crate::defs::{CSR_COUNT, Exception, Priv, RISCV_STACKPOINTER_REG, Trap, wrap_add, Xlen};
use crate::instr::RiscvInstr;
use crate::mem::{
    GuestMemory, MemAccessCircumstances, MemAccessType, MemView, PageMapping, RiscVMem,
};
use std::collections::HashMap;
use vstd::prelude::*;

verus! {

/// What the host keeps for a user process: the program break and the base of
/// the area that anonymous mappings come from. The hart carries it and never
/// reads it.
#[derive(Clone, Copy, Debug, PartialEq, Eq, Structural)]
pub struct UserModeRuntime {
    pub brk: u64,
    pub mmap_base: u64,
}

/// A run of decoded instructions that lie in one physical page. `begin` is the
/// physical address of the first byte, `end` that of the first byte of the last
/// instruction (`begin` where there is none).
pub struct RiscvBlock {
    pub begin: u64,
    pub end: u64,
    pub instrs: Vec<RiscvInstr>,
}

/// One hart.
pub struct RiscvInt {
    /// The integer registers, each 64 bits wide whatever `xlen` is.
    pub regs: [u64; 32],
    pub fregs: [u64; 32],
    pub pc: u64,
    /// Where control goes once the current pass over the instructions ends.
    pub want_pc: Option<u64>,
    pub xlen: Xlen,
    pub csr: [u64; 4096],
    /// The program counter at which the pending trap was raised.
    pub trap_pc: u64,
    pub memsource: RiscVMem,
    /// The block index: physical page number to the blocks that begin in it.
    pub instr: HashMap<u64, Vec<RiscvBlock>>,
    pub trap: Option<Trap>,
    pub current_block: RiscvBlock,
    pub user_struct: UserModeRuntime,
    /// Whether the instruction that executes is a 16-bit one.
    pub is_compressed: bool,
    pub changed_pc: bool,
    pub prvmode: Priv,
    /// Set while a block is built: no instruction follows the last one.
    pub stop_translating: bool,
    /// Leave the execution loop at the next instruction boundary.
    pub stop_exec: bool,
    pub cache_enabled: bool,
    /// Halted until an interrupt arrives.
    pub wfi: bool,
    pub usermode: bool,
    pub is_reservation: bool,
    pub res_val: u64,
    pub res_len: u8,
}

/// Mathematical model of a hart: everything but the block cache, which no
/// instruction can observe.
pub struct HartView {
    pub regs: Seq<u64>,
    pub fregs: Seq<u64>,
    pub pc: u64,
    pub want_pc: Option<u64>,
    pub xlen: Xlen,
    pub csr: Seq<u64>,
    pub trap_pc: u64,
    pub mem: MemView,
    pub trap: Option<Trap>,
    pub user_struct: UserModeRuntime,
    pub is_compressed: bool,
    pub changed_pc: bool,
    pub prvmode: Priv,
    pub stop_exec: bool,
    pub wfi: bool,
    pub usermode: bool,
    pub is_reservation: bool,
    pub res_val: u64,
    pub res_len: u8,
}

impl View for RiscvInt {
    type V = HartView;

    open spec fn view(&self) -> HartView {
        HartView {
            regs: self.regs@,
            fregs: self.fregs@,
            pc: self.pc,
            want_pc: self.want_pc,
            xlen: self.xlen,
            csr: self.csr@,
            trap_pc: self.trap_pc,
            mem: self.memsource@,
            trap: self.trap,
            user_struct: self.user_struct,
            is_compressed: self.is_compressed,
            changed_pc: self.changed_pc,
            prvmode: self.prvmode,
            stop_exec: self.stop_exec,
            wfi: self.wfi,
            usermode: self.usermode,
            is_reservation: self.is_reservation,
            res_val: self.res_val,
            res_len: self.res_len,
        }
    }
}

impl HartView {
    /// The register files and the CSR file have their lengths, and memory is
    /// well formed.
    pub open spec fn wf(self) -> bool {
        &&& self.regs.len() == 32
        &&& self.fregs.len() == 32
        &&& self.csr.len() == 4096
        &&& self.mem.wf()
    }

    /// The value that an instruction reads from register `r`: `x0` reads as 0.
    pub open spec fn reg(self, r: u8) -> u64 {
        if r == 0 {
            0
        } else {
            self.regs[r as int]
        }
    }

    /// The access kind `access` at the current privilege level.
    pub open spec fn macc(self, access: MemAccessType) -> MemAccessCircumstances {
        MemAccessCircumstances { access, prv: self.prvmode }
    }

    /// The state once `trp` was raised at the current instruction: the trap is
    /// pending, execution stops, the reservation is gone.
    pub open spec fn raise(self, trp: Trap) -> HartView {
        HartView {
            trap: Some(trp),
            trap_pc: self.pc,
            stop_exec: true,
            is_reservation: false,
            ..self
        }
    }

    /// The address of the instruction after the current one.
    pub open spec fn next_pc(self) -> u64 {
        if self.is_compressed {
            wrap_add(self.pc, 2)
        } else {
            wrap_add(self.pc, 4)
        }
    }
}

/// `value` as a register of width `xlen` holds it: for 32 bits the low word,
/// sign-extended.
pub open spec fn sign_ext_spec(xlen: Xlen, value: u64) -> u64 {
    match xlen {
        Xlen::X32 => value as i32 as i64 as u64,
        Xlen::X64 => value,
    }
}

/// The bits of `val` that a register, or an address, of width `xlen` has.
pub open spec fn cull_spec(xlen: Xlen, val: u64) -> u64 {
    match xlen {
        Xlen::X32 => val & 0xffff_ffff,
        Xlen::X64 => val,
    }
}

/// The state of a hart that was just made.
pub open spec fn initial_view(xlen: Xlen, mem: MemView, user: UserModeRuntime, usermode: bool)
    -> HartView {
    HartView {
        regs: Seq::new(32, |i: int| 0u64),
        fregs: Seq::new(32, |i: int| 0u64),
        pc: 0,
        want_pc: None,
        xlen,
        csr: Seq::new(4096, |i: int| 0u64),
        trap_pc: 0,
        mem,
        trap: None,
        user_struct: user,
        is_compressed: false,
        changed_pc: false,
        prvmode: Priv::Machine,
        stop_exec: false,
        wfi: false,
        usermode,
        is_reservation: false,
        res_val: 0,
        res_len: 0,
    }
}

impl RiscvBlock {
    /// A block without instructions at address 0.
    pub fn empty() -> (b: RiscvBlock)
        ensures
            b.begin == 0,
            b.end == 0,
            b.instrs@.len() == 0,
    {
        RiscvBlock { begin: 0, end: 0, instrs: Vec::new() }
    }
}

impl RiscvInt {
    /// Memory is well formed and every cached block agrees with memory.
    pub open spec fn wf(&self) -> bool {
        &&& self@.mem.wf()
        &&& cache_wf(self)
    }

    /// Whether two harts have the same block cache and cache flags.
    pub open spec fn same_cache(&self, other: &RiscvInt) -> bool {
        &&& self.instr == other.instr
        &&& self.current_block == other.current_block
        &&& self.cache_enabled == other.cache_enabled
        &&& self.stop_translating == other.stop_translating
    }

    /// A hart that runs a whole system from `vm_mem`: machine privilege, every
    /// register and CSR zero, no cached block, the cache switched off.
    pub fn init_systemmode(xlen: Xlen, vm_mem: GuestMemory) -> (h: RiscvInt)
        requires
            vm_mem.wf(),
        ensures
            h@ == initial_view(
                xlen,
                MemView {
                    xlen,
                    usermode: false,
                    base: vm_mem.base,
                    bytes: vm_mem.bytes@,
                    paging: false,
                    pages: Map::<u64, PageMapping>::empty(),
                },
                UserModeRuntime { brk: 0, mmap_base: 0 },
                false,
            ),
            h.instr@ == Map::<u64, Vec<RiscvBlock>>::empty(),
            h.current_block.instrs@.len() == 0,
            !h.cache_enabled,
            !h.stop_translating,
            h.wf(),
    {
        let h = RiscvInt {
            regs: [0u64;32],
            fregs: [0u64;32],
            pc: 0,
            trap_pc: 0,
            want_pc: None,
            xlen,
            csr: [0u64;4096],
            memsource: RiscVMem::new_system(xlen, vm_mem),
            instr: HashMap::new(),
            trap: None,
            current_block: RiscvBlock::empty(),
            changed_pc: false,
            prvmode: Priv::Machine,
            stop_translating: false,
            stop_exec: false,
            cache_enabled: false,
            wfi: false,
            user_struct: UserModeRuntime { brk: 0, mmap_base: 0 },
            usermode: false,
            is_reservation: false,
            res_val: 0,
            is_compressed: false,
            res_len: 0,
        };
        proof {
            assert(h@.regs =~= Seq::new(32, |i: int| 0u64));
            assert(h@.fregs =~= Seq::new(32, |i: int| 0u64));
            assert(h@.csr =~= Seq::new(4096, |i: int| 0u64));
        }
        h
    }

    /// A hart that runs one user process: as `init_systemmode`, with the
    /// `usermode` flag set, `ume` kept, and no memory until `attach_memory`.
    /// The privilege level is nominally machine; what the hart does in user
    /// mode goes by the flag.
    pub fn init_usermode(xlen: Xlen, ume: UserModeRuntime) -> (h: RiscvInt)
        ensures
            h@ == initial_view(
                xlen,
                MemView {
                    xlen,
                    usermode: true,
                    base: 0,
                    bytes: Seq::<u8>::empty(),
                    paging: false,
                    pages: Map::<u64, PageMapping>::empty(),
                },
                ume,
                true,
            ),
            h.instr@ == Map::<u64, Vec<RiscvBlock>>::empty(),
            h.current_block.instrs@.len() == 0,
            !h.cache_enabled,
            !h.stop_translating,
            h.wf(),
    {
        let h = RiscvInt {
            regs: [0u64;32],
            fregs: [0u64;32],
            pc: 0,
            want_pc: None,
            xlen,
            trap_pc: 0,
            csr: [0u64;4096],
            memsource: RiscVMem::new_usermode(xlen),
            instr: HashMap::new(),
            trap: None,
            current_block: RiscvBlock::empty(),
            changed_pc: false,
            prvmode: Priv::Machine,
            stop_translating: false,
            stop_exec: false,
            cache_enabled: false,
            wfi: false,
            user_struct: ume,
            usermode: true,
            is_reservation: false,
            res_val: 0,
            is_compressed: false,
            res_len: 0,
        };
        proof {
            assert(h@.regs =~= Seq::new(32, |i: int| 0u64));
            assert(h@.fregs =~= Seq::new(32, |i: int| 0u64));
            assert(h@.csr =~= Seq::new(4096, |i: int| 0u64));
        }
        h
    }

    /// The stack pointer, `x2`.
    pub fn get_stack_reg(&self) -> (sp: u64)
        ensures
            sp == self@.regs[2],
    {
        self.regs[RISCV_STACKPOINTER_REG]
    }

    /// Sets the stack pointer, `x2`.
    pub fn set_stack_reg(&mut self, val: u64)
        ensures
            final(self)@ == (HartView { regs: old(self)@.regs.update(2, val), ..old(self)@ }),
            final(self).same_cache(old(self)),
    {
        self.regs[RISCV_STACKPOINTER_REG] = val;
    }

    /// The stored value of CSR `idx`.
    pub fn get_csr_raw(&self, idx: usize) -> (val: u64)
        requires
            idx < CSR_COUNT,
        ensures
            val == self@.csr[idx as int],
    {
        self.csr[idx]
    }

    /// Moves the hart to privilege level `privs`.
    pub fn change_priv(&mut self, privs: Priv)
        ensures
            final(self)@ == (HartView { prvmode: privs, ..old(self)@ }),
            final(self).same_cache(old(self)),
    {
        self.prvmode = privs;
    }

    /// `value` as a register of this hart holds it: for 32 bits the low word,
    /// sign-extended.
    pub fn sign_ext(&self, value: u64) -> (r: u64)
        ensures
            r == sign_ext_spec(self.xlen, value),
    {
        match self.xlen {
            Xlen::X32 => value as i32 as i64 as u64,
            Xlen::X64 => value,
        }
    }

    /// The least value that a register of this hart holds as a signed number.
    pub fn most_negative(&self) -> (r: i64)
        ensures
            r == (match self.xlen {
                Xlen::X32 => -0x8000_0000i64,
                Xlen::X64 => -0x8000_0000_0000_0000i64,
            }),
    {
        match self.xlen {
            Xlen::X32 => -0x8000_0000i64,
            Xlen::X64 => i64::MIN,
        }
    }

    /// The bits of `val` that a register, or an address, of this hart has.
    pub fn cull_reg(&self, val: u64) -> (r: u64)
        ensures
            r == cull_spec(self.xlen, val),
    {
        match self.xlen {
            Xlen::X32 => val & 0xffff_ffff,
            Xlen::X64 => val,
        }
    }

    /// The address of the instruction that executes.
    pub fn get_pc_of_current_instr(&self) -> (pc: u64)
        ensures
            pc == self.pc,
    {
        self.pc
    }

    /// The address of the instruction after the current one, modulo 2^64.
    pub fn get_pc_of_next_instr(&self) -> (pc: u64)
        ensures
            pc == self@.next_pc(),
    {
        if self.is_compressed {
            self.pc.wrapping_add(2)
        } else {
            self.pc.wrapping_add(4)
        }
    }

    /// Appends an instruction to the block that is being built.
    pub fn insert_insn_current(&mut self, instr: RiscvInstr)
        ensures
            final(self)@ == old(self)@,
            final(self).current_block.instrs@ == old(self).current_block.instrs@.push(instr),
            final(self).current_block.begin == old(self).current_block.begin,
            final(self).current_block.end == old(self).current_block.end,
            final(self).instr == old(self).instr,
            final(self).cache_enabled == old(self).cache_enabled,
            final(self).stop_translating == old(self).stop_translating,
    {
        self.current_block.instrs.push(instr);
    }

    /// Raises `trp` at the current instruction: the trap is pending with the
    /// current program counter, execution stops at the next boundary, and the
    /// reservation is gone.
    pub fn set_trap(&mut self, trp: Trap)
        ensures
            final(self)@ == old(self)@.raise(trp),
            final(self).same_cache(old(self)),
    {
        self.trap = Some(trp);
        self.trap_pc = self.get_pc_of_current_instr();
        self.stop_exec = true;
        self.is_reservation = false;
    }

    /// Raises an illegal-instruction trap whose value is the current program
    /// counter, and ends the block that is being built.
    pub fn illegal_instr(&mut self)
        ensures
            final(self)@ == old(self)@.raise(
                Trap { ttype: Exception::IllegalInstruction, val: old(self).pc },
            ),
            final(self).stop_translating,
            final(self).instr == old(self).instr,
            final(self).current_block == old(self).current_block,
            final(self).cache_enabled == old(self).cache_enabled,
    {
        let current_pc: u64 = self.get_pc_of_current_instr();
        self.set_trap(Trap { ttype: Exception::IllegalInstruction, val: current_pc });
        self.stop_exec = true;
        self.stop_translating = true;
    }

    /// Confirms that execution is to stop at the next instruction boundary,
    /// which is what every caller has seen to.
    pub fn check_exec(&self) -> (stop: bool)
        requires
            self.stop_exec,
        ensures
            stop,
    {
        true
    }

    /// The access kind `access` at the current privilege level.
    pub fn gen_mem_cirum(&self, access: MemAccessType) -> (macc: MemAccessCircumstances)
        ensures
            macc == self@.macc(access),
    {
        MemAccessCircumstances { access, prv: self.prvmode }
    }

    /// The user-mode runtime that the hart carries.
    pub fn get_ume(&mut self) -> (ume: &mut UserModeRuntime)
        ensures
            *ume == old(self).user_struct,
            final(self)@ == (HartView { user_struct: *final(ume), ..old(self)@ }),
            final(self).same_cache(old(self)),
    {
        &mut self.user_struct
    }
}

} // verus!
