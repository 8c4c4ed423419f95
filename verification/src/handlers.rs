//! Executing one instruction: reading its operands, working out its effect,
//! letting the effect take place, and moving the program counter on.

use crate::cache::{decode16_or_illegal, decode32_or_illegal};
use crate::decoder::{decode_word, lemma_decode32_wf};
use crate::decoder16::{decode_half, lemma_decode16_wf};
use crate::defs::{
    CSR_MEPC_ADDRESS, CSR_MSTATUS_ADDRESS, CSR_SEPC_ADDRESS, CSR_SSTATUS_ADDRESS, Exception,
    get_privilege_encoding, Priv, Trap, Xlen,
};
use crate::hart::{HartView, RiscvBlock, RiscvInt};
use crate::instr::{illegal_instruction, RiscvInstr, RiscvOp};
use crate::mem::{lemma_load_bound, MemAccessType};
use crate::model::{
    cache_after_instr, cache_after_step, lemma_index_view_empty, lemma_index_view_remove,
};
use crate::semantics::{
    access_size, alu, alu_effect, apply, branch_taken, commit, csr_effect, Effect, effect_of, effect_ok,
    fetch_spec, illegal_trap, instr_wf, load_effect, priv_of, sext_from, step_spec, store_effect,
};
use vstd::prelude::*;

verus! {

/// The size in bytes of the access of a load or store; 0 for another operation.
pub fn op_access_size(op: RiscvOp) -> (size: u64)
    ensures
        size == access_size(op),
{
    match op {
        RiscvOp::Lb | RiscvOp::Lbu | RiscvOp::Sb => 1,
        RiscvOp::Lh | RiscvOp::Lhu | RiscvOp::Sh => 2,
        RiscvOp::Lw | RiscvOp::Lwu | RiscvOp::Sw => 4,
        RiscvOp::Ld | RiscvOp::Sd => 8,
        _ => 0,
    }
}

/// A value of `size` bytes, sign-extended to 64 bits.
pub fn sign_extend_from(v: u64, size: u64) -> (r: u64)
    requires
        size == 1 ==> v < 0x100,
        size == 2 ==> v < 0x1_0000,
        size == 4 ==> v < 0x1_0000_0000,
    ensures
        r == sext_from(v, size),
{
    if size == 1 && v >= 0x80 {
        v + 0xffff_ffff_ffff_ff00
    } else if size == 2 && v >= 0x8000 {
        v + 0xffff_ffff_ffff_0000
    } else if size == 4 && v >= 0x8000_0000 {
        v + 0xffff_ffff_0000_0000
    } else {
        v
    }
}

/// Whether a branch is taken on the operands `a` and `b`.
pub fn is_branch_taken(op: RiscvOp, a: u64, b: u64) -> (t: bool)
    ensures
        t == branch_taken(op, a, b),
{
    match op {
        RiscvOp::Beq => a == b,
        RiscvOp::Bne => a != b,
        RiscvOp::Blt => (a as i64) < (b as i64),
        RiscvOp::Bge => (a as i64) >= (b as i64),
        RiscvOp::Bltu => a < b,
        _ => a >= b,
    }
}

proof fn lemma_shift_amounts(b: u64)
    by (bit_vector)
    ensures
        b & 0x1f < 32,
        b & 0x3f < 64,
{
}

/// The result of an arithmetic or logic operation on the operands `a` and `b`.
pub fn alu_result(xlen: Xlen, op: RiscvOp, a: u64, b: u64) -> (r: u64)
    ensures
        r == alu(xlen, op, a, b),
{
    proof {
        lemma_shift_amounts(b);
    }
    let shamt: u64 = match xlen {
        Xlen::X32 => b & 0x1f,
        Xlen::X64 => b & 0x3f,
    };
    match op {
        RiscvOp::Addi
        | RiscvOp::Add
        | RiscvOp::CAddi
        | RiscvOp::CLi
        | RiscvOp::CMv
        | RiscvOp::CAdd => a.wrapping_add(
            b,
        ),
        RiscvOp::Sub => a.wrapping_sub(b),
        RiscvOp::Slti | RiscvOp::Slt => if (a as i64) < (b as i64) {
            1
        } else {
            0
        },
        RiscvOp::Sltiu | RiscvOp::Sltu => if a < b {
            1
        } else {
            0
        },
        RiscvOp::Xori | RiscvOp::Xor => a ^ b,
        RiscvOp::Ori | RiscvOp::Or => a | b,
        RiscvOp::Slli | RiscvOp::Sll => a << shamt,
        RiscvOp::Srli | RiscvOp::Srl => match xlen {
            Xlen::X32 => (a & 0xffff_ffff) >> shamt,
            Xlen::X64 => a >> shamt,
        },
        RiscvOp::Srai | RiscvOp::Sra => match xlen {
            Xlen::X32 => ((a as i32) >> (b & 0x1f)) as i64 as u64,
            Xlen::X64 => ((a as i64) >> (b & 0x3f)) as u64,
        },
        RiscvOp::Addiw | RiscvOp::Addw => (a.wrapping_add(b) as i32) as i64 as u64,
        RiscvOp::Subw => (a.wrapping_sub(b) as i32) as i64 as u64,
        RiscvOp::Slliw | RiscvOp::Sllw => ((a << (b & 0x1f)) as i32) as i64 as u64,
        RiscvOp::Srliw | RiscvOp::Srlw => (((a & 0xffff_ffff) >> (b & 0x1f)) as i32) as i64 as u64,
        RiscvOp::Sraiw | RiscvOp::Sraw => ((a as i32) >> (b & 0x1f)) as i64 as u64,
        _ => a & b,
    }
}

/// The privilege level that a status register's previous-privilege field names.
pub fn priv_from_encoding(enc: u64) -> (p: Priv)
    ensures
        p == priv_of(enc),
{
    if enc == 0 {
        Priv::User
    } else if enc == 1 {
        Priv::Supervisor
    } else {
        Priv::Machine
    }
}

/// What a half-word decodes to; the illegal instruction where it encodes none.
pub fn decode16(h: u16) -> (i: RiscvInstr)
    ensures
        i == decode16_or_illegal(h),
        instr_wf(i),
        i.inc_by == 2,
{
    proof {
        lemma_decode16_wf(h);
    }
    match decode_half(h) {
        Some(i) => i,
        None => illegal_instruction(2),
    }
}

/// What a word decodes to; the illegal instruction where it encodes none.
pub fn decode32(w: u32) -> (i: RiscvInstr)
    ensures
        i == decode32_or_illegal(w),
        instr_wf(i),
        i.inc_by == 4,
{
    proof {
        lemma_decode32_wf(w);
    }
    match decode_word(w) {
        Some(i) => i,
        None => illegal_instruction(4),
    }
}

/// The block index after effect `e`: a store drops the blocks of the page it
/// writes, a cache flush drops every block.
pub open spec fn index_after(index: Map<u64, Vec<RiscvBlock>>, e: Effect) -> Map<
    u64,
    Vec<RiscvBlock>,
> {
    match e {
        Effect::Store { paddr, .. } => index.remove((paddr / 4096) as u64),
        Effect::FlushCache => Map::empty(),
        _ => index,
    }
}

/// A hart stays well formed while its memory and its block index stay as they
/// are.
pub proof fn lemma_wf_frame(a: &RiscvInt, b: &RiscvInt)
    requires
        a.wf(),
        b@.mem == a@.mem,
        b.instr == a.instr,
    ensures
        b.wf(),
{
    assert forall|k: u64, j: int|
        b.instr@.contains_key(k) && 0 <= j < b.instr@[k]@.len() implies crate::cache::block_ok(
        b@.mem,
        k,
        #[trigger] b.instr@[k]@[j],
    ) by {
        assert(crate::cache::block_ok(a@.mem, k, a.instr@[k]@[j]));
    }
}

impl RiscvInt {
    /// The value that an instruction reads from register `r`: `x0` reads as 0.
    pub fn reg(&self, r: u8) -> (v: u64)
        requires
            r < 32,
        ensures
            v == self@.reg(r),
    {
        if r == 0 {
            0
        } else {
            self.regs[r as usize]
        }
    }

    fn is_x32(&self) -> (b: bool)
        ensures
            b == (self.xlen == Xlen::X32),
    {
        match self.xlen {
            Xlen::X32 => true,
            Xlen::X64 => false,
        }
    }

    fn illegal_effect(&self) -> (e: Effect)
        ensures
            e == (Effect::Raise { trap: illegal_trap(self.pc) }),
    {
        Effect::Raise { trap: Trap { ttype: Exception::IllegalInstruction, val: self.pc } }
    }

    fn compute_load(&self, i: &RiscvInstr) -> (e: Effect)
        requires
            self@.mem.wf(),
            instr_wf(*i),
            access_size(i.func) != 0,
        ensures
            e == load_effect(self@, *i),
            effect_ok(self@, e),
    {
        let size: u64 = op_access_size(i.func);
        let addr: u64 = self.cull_reg(self.reg(i.args.rs1).wrapping_add(i.args.imm));
        let wide: bool = match i.func {
            RiscvOp::Ld | RiscvOp::Lwu | RiscvOp::Sd => true,
            _ => false,
        };
        if wide && self.is_x32() {
            return self.illegal_effect();
        }
        let macc = self.gen_mem_cirum(MemAccessType::Read);
        match self.memsource.resolve(addr, size, macc, false) {
            Err(t) => Effect::Raise { trap: t },
            Ok(p) => {
                let v: u64 = self.memsource.guest_mem.read(p, size);
                proof {
                    lemma_load_bound(self@.mem.bytes, p - self@.mem.base, size);
                }
                let signed: bool = match i.func {
                    RiscvOp::Lb | RiscvOp::Lh | RiscvOp::Lw => true,
                    _ => false,
                };
                let val: u64 = if signed {
                    sign_extend_from(v, size)
                } else {
                    v
                };
                Effect::WriteReg { rd: i.args.rd, val }
            },
        }
    }

    fn compute_store(&self, i: &RiscvInstr) -> (e: Effect)
        requires
            self@.mem.wf(),
            instr_wf(*i),
            access_size(i.func) != 0,
        ensures
            e == store_effect(self@, *i),
            effect_ok(self@, e),
    {
        let size: u64 = op_access_size(i.func);
        let addr: u64 = self.cull_reg(self.reg(i.args.rs1).wrapping_add(i.args.imm));
        let wide: bool = match i.func {
            RiscvOp::Ld | RiscvOp::Lwu | RiscvOp::Sd => true,
            _ => false,
        };
        if wide && self.is_x32() {
            return self.illegal_effect();
        }
        let macc = self.gen_mem_cirum(MemAccessType::Write);
        match self.memsource.resolve(addr, size, macc, false) {
            Err(t) => Effect::Raise { trap: t },
            Ok(p) => {
                proof {
                    crate::access::lemma_resolve_aligned(self@, addr, size, macc, false);
                }
                Effect::Store { paddr: p, val: self.reg(i.args.rs2), size }
            },
        }
    }

    fn compute_csr(&self, i: &RiscvInstr) -> (e: Effect)
        requires
            instr_wf(*i),
            crate::instr::encoding_of(i.func).format == crate::instr::Format::Csr,
        ensures
            e == csr_effect(self@, *i),
            effect_ok(self@, e),
    {
        let idx: usize = i.args.imm as usize;
        let old: u64 = self.csr[idx];
        let immediate: bool = match i.func {
            RiscvOp::Csrrwi | RiscvOp::Csrrsi | RiscvOp::Csrrci => true,
            _ => false,
        };
        let src: u64 = if immediate {
            i.args.rs1 as u64
        } else {
            self.reg(i.args.rs1)
        };
        let write: Option<u64> = match i.func {
            RiscvOp::Csrrw | RiscvOp::Csrrwi => Some(src),
            RiscvOp::Csrrs | RiscvOp::Csrrsi => if i.args.rs1 == 0 {
                None
            } else {
                Some(old | src)
            },
            _ => if i.args.rs1 == 0 {
                None
            } else {
                Some(old & !src)
            },
        };
        if get_privilege_encoding(self.prvmode) < (i.args.imm / 256) % 4 || (write.is_some()
            && i.args.imm / 1024 == 3) {
            self.illegal_effect()
        } else {
            Effect::WriteCsr { rd: i.args.rd, prior: old, idx, write }
        }
    }

    fn compute_alu(&self, i: &RiscvInstr, b: u64) -> (e: Effect)
        requires
            instr_wf(*i),
        ensures
            e == alu_effect(self@, *i, b),
            effect_ok(self@, e),
    {
        let word: bool = match i.func {
            RiscvOp::Addiw
            | RiscvOp::Slliw
            | RiscvOp::Srliw
            | RiscvOp::Sraiw
            | RiscvOp::Addw
            | RiscvOp::Subw
            | RiscvOp::Sllw
            | RiscvOp::Srlw
            | RiscvOp::Sraw => true,
            _ => false,
        };
        let imm_shift: bool = match i.func {
            RiscvOp::Slli | RiscvOp::Srli | RiscvOp::Srai => true,
            _ => false,
        };
        if self.is_x32() && (word || (imm_shift && b & 0x20 != 0)) {
            self.illegal_effect()
        } else {
            Effect::WriteReg {
                rd: i.args.rd,
                val: self.sign_ext(alu_result(self.xlen, i.func, self.reg(i.args.rs1), b)),
            }
        }
    }

    /// The effect of instruction `i` on this hart.
    pub fn compute_effect(&self, i: &RiscvInstr) -> (e: Effect)
        requires
            self@.mem.wf(),
            instr_wf(*i),
        ensures
            e == effect_of(self@, *i),
            effect_ok(self@, e),
    {
        let rd: u8 = i.args.rd;
        let imm: u64 = i.args.imm;
        match i.func {
            RiscvOp::Illegal => self.illegal_effect(),
            RiscvOp::Lui => Effect::WriteReg { rd, val: self.sign_ext(imm) },
            RiscvOp::Auipc => Effect::WriteReg { rd, val: self.sign_ext(self.pc.wrapping_add(imm)) },
            RiscvOp::Jal | RiscvOp::CJ => Effect::Jump {
                rd,
                link: self.sign_ext(self.get_pc_of_next_instr()),
                target: self.cull_reg(self.pc.wrapping_add(imm)),
            },
            RiscvOp::Jalr | RiscvOp::CJr | RiscvOp::CJalr => Effect::Jump {
                rd,
                link: self.sign_ext(self.get_pc_of_next_instr()),
                target: self.cull_reg(self.reg(i.args.rs1).wrapping_add(imm) & !1u64),
            },
            RiscvOp::Beq
            | RiscvOp::Bne
            | RiscvOp::Blt
            | RiscvOp::Bge
            | RiscvOp::Bltu
            | RiscvOp::Bgeu => {
                if is_branch_taken(i.func, self.reg(i.args.rs1), self.reg(i.args.rs2)) {
                    Effect::Jump { rd: 0, link: 0, target: self.cull_reg(self.pc.wrapping_add(imm)) }
                } else {
                    Effect::Nothing
                }
            },
            RiscvOp::Lb
            | RiscvOp::Lh
            | RiscvOp::Lw
            | RiscvOp::Ld
            | RiscvOp::Lbu
            | RiscvOp::Lhu
            | RiscvOp::Lwu => self.compute_load(
                i,
            ),
            RiscvOp::Sb | RiscvOp::Sh | RiscvOp::Sw | RiscvOp::Sd => self.compute_store(i),
            RiscvOp::Addi
            | RiscvOp::Slti
            | RiscvOp::Sltiu
            | RiscvOp::Xori
            | RiscvOp::Ori
            | RiscvOp::Andi
            | RiscvOp::Slli
            | RiscvOp::Srli
            | RiscvOp::Srai
            | RiscvOp::Addiw
            | RiscvOp::Slliw
            | RiscvOp::Srliw
            | RiscvOp::Sraiw
            | RiscvOp::CAddi
            | RiscvOp::CLi => self.compute_alu(i, imm),
            RiscvOp::Add
            | RiscvOp::Sub
            | RiscvOp::Slt
            | RiscvOp::Sltu
            | RiscvOp::Xor
            | RiscvOp::Or
            | RiscvOp::And
            | RiscvOp::Sll
            | RiscvOp::Srl
            | RiscvOp::Sra
            | RiscvOp::Addw
            | RiscvOp::Subw
            | RiscvOp::Sllw
            | RiscvOp::Srlw
            | RiscvOp::Sraw
            | RiscvOp::CMv
            | RiscvOp::CAdd => self.compute_alu(i, self.reg(i.args.rs2)),
            RiscvOp::Fence => Effect::Nothing,
            RiscvOp::FenceI => Effect::FlushCache,
            RiscvOp::Ecall => Effect::Raise {
                trap: Trap {
                    ttype: match self.prvmode {
                        Priv::User => Exception::EnvironmentCallFromUMode,
                        Priv::Supervisor => Exception::EnvironmentCallFromSMode,
                        Priv::Machine => Exception::EnvironmentCallFromMMode,
                    },
                    val: 0,
                },
            },
            RiscvOp::Ebreak | RiscvOp::CEbreak => Effect::Raise {
                trap: Trap { ttype: Exception::Breakpoint, val: self.pc },
            },
            RiscvOp::Mret => {
                match self.prvmode {
                    Priv::Machine => {
                        let status: u64 = self.csr[CSR_MSTATUS_ADDRESS];
                        Effect::Return {
                            status_idx: CSR_MSTATUS_ADDRESS,
                            status: ((status & !0x1888u64) | (((status >> 7) & 1) << 3)) | 0x80,
                            prv: priv_from_encoding((status >> 11) & 3),
                            target: self.csr[CSR_MEPC_ADDRESS],
                        }
                    },
                    _ => self.illegal_effect(),
                }
            },
            RiscvOp::Sret => {
                match self.prvmode {
                    Priv::User => self.illegal_effect(),
                    _ => {
                        let status: u64 = self.csr[CSR_SSTATUS_ADDRESS];
                        Effect::Return {
                            status_idx: CSR_SSTATUS_ADDRESS,
                            status: ((status & !0x122u64) | (((status >> 5) & 1) << 1)) | 0x20,
                            prv: priv_from_encoding((status >> 8) & 1),
                            target: self.csr[CSR_SEPC_ADDRESS],
                        }
                    },
                }
            },
            RiscvOp::Wfi => Effect::Wait,
            RiscvOp::Csrrw
            | RiscvOp::Csrrs
            | RiscvOp::Csrrc
            | RiscvOp::Csrrwi
            | RiscvOp::Csrrsi
            | RiscvOp::Csrrci => self.compute_csr(i),
        }
    }

    /// Forgets every cached block.
    pub fn flush_cache(&mut self)
        ensures
            final(self)@ == old(self)@,
            final(self).instr@ == Map::<u64, Vec<RiscvBlock>>::empty(),
            final(self).current_block == old(self).current_block,
            final(self).cache_enabled == old(self).cache_enabled,
            final(self).stop_translating == old(self).stop_translating,
            old(self)@.mem.wf() ==> final(self).wf(),
    {
        self.instr.clear();
    }

    fn commit_write_reg(&mut self, rd: u8, val: u64)
        requires
            rd < 32,
        ensures
            final(self)@ == (HartView { regs: old(self)@.regs.update(rd as int, val), ..old(self)@ }),
            final(self).same_cache(old(self)),
    {
        self.regs[rd as usize] = val;
    }

    fn commit_jump(&mut self, target: u64)
        ensures
            final(self)@ == (HartView { want_pc: Some(target), stop_exec: true, ..old(self)@ }),
            final(self).same_cache(old(self)),
    {
        self.want_pc = Some(target);
        self.stop_exec = true;
    }

    fn commit_csr(&mut self, idx: usize, val: u64)
        requires
            idx < 4096,
        ensures
            final(self)@ == (HartView { csr: old(self)@.csr.update(idx as int, val), ..old(self)@ }),
            final(self).same_cache(old(self)),
    {
        self.csr[idx] = val;
    }

    fn commit_wait(&mut self)
        ensures
            final(self)@ == (HartView { wfi: true, stop_exec: true, ..old(self)@ }),
            final(self).same_cache(old(self)),
    {
        self.wfi = true;
        self.stop_exec = true;
    }

    /// Lets an effect take place that touches neither memory nor the cache.
    #[verifier::rlimit(60)]
    fn commit_plain(&mut self, e: Effect)
        requires
            effect_ok(old(self)@, e),
            !(e is Store),
            !(e is FlushCache),
        ensures
            final(self)@ == commit(old(self)@, e),
            final(self)@.mem == old(self)@.mem,
            final(self).same_cache(old(self)),
    {
        match e {
            Effect::WriteReg { rd, val } => {
                self.commit_write_reg(rd, val);
            },
            Effect::Jump { rd, link, target } => {
                self.commit_write_reg(rd, link);
                self.commit_jump(target);
            },
            Effect::Raise { trap } => {
                self.set_trap(trap);
            },
            Effect::WriteCsr { rd, prior, idx, write } => {
                self.commit_write_reg(rd, prior);
                match write {
                    Some(v) => {
                        self.set_csr_raw(idx, v);
                    },
                    None => {},
                }
            },
            Effect::Return { status_idx, status, prv, target } => {
                self.commit_csr(status_idx, status);
                self.change_priv(prv);
                self.commit_jump(target);
            },
            Effect::Wait => {
                self.commit_wait();
            },
            _ => {},
        }
    }

    /// Lets effect `e` take place.
    pub fn commit_effect(&mut self, e: Effect)
        requires
            old(self).wf(),
            effect_ok(old(self)@, e),
        ensures
            final(self)@ == commit(old(self)@, e),
            final(self).instr@ == index_after(old(self).instr@, e),
            final(self).current_block == old(self).current_block,
            final(self).cache_enabled == old(self).cache_enabled,
            final(self).stop_translating == old(self).stop_translating,
            final(self).wf(),
    {
        match e {
            Effect::FlushCache => {
                self.flush_cache();
            },
            Effect::Store { paddr, val, size } => {
                self.phys_write(paddr, val, size);
                self.is_reservation = false;
                proof {
                    lemma_wf_frame(self, self);
                }
            },
            _ => {
                self.commit_plain(e);
                proof {
                    lemma_wf_frame(old(self), self);
                }
            },
        }
    }

    /// Executes instruction `i`: notes whether it is a 16-bit one, lets its
    /// effect take place, moves the program counter on by its length and sets
    /// `x0` to zero.
    #[verifier::rlimit(30)]
    pub fn exec_instr(&mut self, i: &RiscvInstr)
        requires
            old(self).wf(),
            instr_wf(*i),
        ensures
            final(self)@ == apply(old(self)@, *i),
            final(self)@.regs[0] == 0,
            final(self).instr@ == index_after(
                old(self).instr@,
                effect_of(HartView { is_compressed: i.inc_by == 2, ..old(self)@ }, *i),
            ),
            final(self).current_block == old(self).current_block,
            final(self).cache_enabled == old(self).cache_enabled,
            final(self).stop_translating == (old(self).stop_translating || i.func
                == RiscvOp::Illegal),
            final(self).cache() == cache_after_instr(old(self).cache(), old(self)@, *i),
            final(self).wf(),
    {
        reveal(apply);
        self.is_compressed = i.inc_by == 2;
        match i.func {
            RiscvOp::Illegal => {
                self.illegal_instr();
            },
            _ => {
                let e = self.compute_effect(i);
                self.commit_effect(e);
            },
        }
        self.pc = self.pc.wrapping_add(i.inc_by);
        self.regs[0] = 0;
        proof {
            let e = effect_of(HartView { is_compressed: i.inc_by == 2, ..old(self)@ }, *i);
            match e {
                Effect::Store { paddr, .. } => {
                    lemma_index_view_remove(old(self).instr@, (paddr / 4096) as u64);
                },
                Effect::FlushCache => {
                    lemma_index_view_empty();
                },
                _ => {},
            }
        }
    }

    /// Fetches and decodes the instruction at the program counter. A fetch that
    /// fails raises its trap and returns it.
    pub fn fetch(&mut self) -> (r: Result<RiscvInstr, Trap>)
        requires
            old(self)@.mem.wf(),
        ensures
            r == fetch_spec(old(self)@),
            r matches Ok(i) ==> instr_wf(i),
            final(self)@ == (match r {
                Err(t) => old(self)@.raise(t),
                Ok(_) => old(self)@,
            }),
            final(self).same_cache(old(self)),
    {
        reveal(fetch_spec);
        let lo: u16 = match self.read_mem(self.pc, 2, MemAccessType::Execute, false, true) {
            Ok(v) => v as u16,
            Err(t) => {
                return Err(t);
            },
        };
        if lo & 3 != 3 {
            Ok(decode16(lo))
        } else {
            let hi: u16 = match self.read_mem(
                self.pc.wrapping_add(2),
                2,
                MemAccessType::Execute,
                false,
                true,
            ) {
                Ok(v) => v as u16,
                Err(t) => {
                    return Err(t);
                },
            };
            let w: u32 = lo as u32 + 0x1_0000 * (hi as u32);
            Ok(decode32(w))
        }
    }

    /// One step: the instruction at the program counter executes, or the trap
    /// of its fetch is raised and returned.
    pub fn step(&mut self) -> (r: Result<(), Trap>)
        requires
            old(self).wf(),
        ensures
            final(self)@ == step_spec(old(self)@),
            r == (match fetch_spec(old(self)@) {
                Err(t) => Err::<(), Trap>(t),
                Ok(_) => Ok::<(), Trap>(()),
            }),
            final(self).cache() == cache_after_step(old(self).cache(), old(self)@),
            final(self).cache_enabled == old(self).cache_enabled,
            final(self).wf(),
    {
        match self.fetch() {
            Err(t) => Err(t),
            Ok(i) => {
                self.exec_instr(&i);
                Ok(())
            },
        }
    }
}

} // verus!
