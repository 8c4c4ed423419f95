//! The execution loops: running a block, a pass with the block cache, and a pass
//! without it.

use crate::blocks::copy_instrs;
use crate::cache::{block_at, block_from, decode16_or_illegal, decode32_or_illegal, page_remaining};
use crate::defs::Trap;
use crate::hart::{HartView, RiscvBlock, RiscvInt};
use crate::instr::RiscvInstr;
use crate::mem::MemAccessType;
use crate::model::{
    cache_after_block, cache_after_block_at, cache_after_cached, cache_after_round,
    cache_after_step, cache_after_uncached, CacheView,
};
use crate::semantics::{
    cached_pass, cached_result, cached_round, cached_run, instr_wf, run_block, step_spec,
    uncached_result, uncached_run,
};
use vstd::prelude::*;

verus! {

/// Every instruction of a sequence is well formed.
pub open spec fn instrs_wf(instrs: Seq<RiscvInstr>) -> bool {
    forall|i: int| 0 <= i < instrs.len() ==> instr_wf(#[trigger] instrs[i])
}

/// What a word or half-word decodes to is well formed.
pub proof fn lemma_decoded_wf(h: u16, w: u32)
    ensures
        instr_wf(decode16_or_illegal(h)),
        instr_wf(decode32_or_illegal(w)),
        decode16_or_illegal(h).inc_by == 2,
        decode32_or_illegal(w).inc_by == 4,
{
    crate::decoder16::lemma_decode16_wf(h);
    crate::decoder::lemma_decode32_wf(w);
}

/// Every instruction of a block that memory holds is well formed.
pub proof fn lemma_block_from_wf(bytes: Seq<u8>, i: int, remaining: int)
    ensures
        instrs_wf(block_from(bytes, i, remaining)),
    decreases remaining,
{
    if remaining >= 2 {
        let lo = crate::mem::le16(bytes, i) as u16;
        let hi = crate::mem::le16(bytes, i + 2) as u16;
        lemma_decoded_wf(lo, crate::cache::word_of(lo, hi));
        if lo & 3 != 3 {
            lemma_block_from_wf(bytes, i + 2, remaining - 2);
        } else if remaining >= 4 {
            lemma_block_from_wf(bytes, i + 4, remaining - 4);
        }
    }
}

/// A pass without the cache of one instruction is one step.
pub proof fn lemma_uncached_one(h: HartView)
    ensures
        uncached_run(h, 1) == step_spec(h),
        uncached_result(h, 1) == crate::semantics::fetch_result(h),
{
    reveal_with_fuel(uncached_run, 2);
    reveal_with_fuel(uncached_result, 2);
}

/// The cache after a pass without the cache of one instruction is the cache
/// after one step.
pub proof fn lemma_cache_after_one(c: CacheView, h: HartView)
    ensures
        cache_after_uncached(c, h, 1) == cache_after_step(c, h),
{
    reveal_with_fuel(cache_after_uncached, 2);
}

impl RiscvInt {
    /// Runs a block: `stop_exec` is cleared, and the instructions execute one
    /// after the other until one leaves `stop_exec` set.
    pub fn exec_block_inner(&mut self, blk: RiscvBlock)
        requires
            old(self).wf(),
            instrs_wf(blk.instrs@),
        ensures
            final(self)@ == run_block(HartView { stop_exec: false, ..old(self)@ }, blk.instrs@, 0),
            blk.instrs@.len() > 0 ==> final(self)@.regs[0] == 0,
            final(self).cache() == cache_after_block(
                old(self).cache(),
                HartView { stop_exec: false, ..old(self)@ },
                blk.instrs@,
                0,
            ),
            final(self).cache_enabled == old(self).cache_enabled,
            final(self).wf(),
    {
        self.stop_exec = false;
        proof {
            crate::handlers::lemma_wf_frame(old(self), self);
        }
        let ghost h0 = self@;
        let ghost c0 = self.cache();
        let mut i: usize = 0;
        while i < blk.instrs.len()
            invariant
                i <= blk.instrs.len(),
                self.wf(),
                instrs_wf(blk.instrs@),
                !self.stop_exec,
                h0 == (HartView { stop_exec: false, ..old(self)@ }),
                run_block(h0, blk.instrs@, 0) == run_block(self@, blk.instrs@, i as int),
                i > 0 ==> self@.regs[0] == 0,
                c0 == old(self).cache(),
                self.cache_enabled == old(self).cache_enabled,
                cache_after_block(c0, h0, blk.instrs@, 0) == cache_after_block(
                    self.cache(),
                    self@,
                    blk.instrs@,
                    i as int,
                ),
            decreases blk.instrs.len() - i,
        {
            let z: RiscvInstr = blk.instrs[i];
            self.exec_instr(&z);
            if self.stop_exec {
                return ;
            }
            i += 1;
        }
    }

    /// A pass without the cache: the instruction at the program counter is
    /// fetched, decoded and executed, again and again until `stop_exec` is set
    /// after an instruction, a fetch fails, or `budget` instructions were
    /// executed. A failed fetch raises its trap and returns it. Register 0 is
    /// zero after every pass that executed an instruction.
    pub fn exec_one_by_one(&mut self, budget: u64) -> (r: Result<(), Trap>)
        requires
            old(self).wf(),
        ensures
            final(self)@ == uncached_run(old(self)@, budget as nat),
            r == uncached_result(old(self)@, budget as nat),
            budget >= 1 && r is Ok ==> final(self)@.regs[0] == 0,
            final(self).cache() == cache_after_uncached(
                old(self).cache(),
                old(self)@,
                budget as nat,
            ),
            final(self).cache_enabled == old(self).cache_enabled,
            final(self).wf(),
    {
        proof {
            crate::passes::lemma_uncached_x0(old(self)@, budget as nat);
        }
        let mut left: u64 = budget;
        while left > 0
            invariant
                self.wf(),
                budget >= 1 && uncached_result(old(self)@, budget as nat) is Ok ==> uncached_run(
                    old(self)@,
                    budget as nat,
                ).regs[0] == 0,
                uncached_run(old(self)@, budget as nat) == uncached_run(self@, left as nat),
                uncached_result(old(self)@, budget as nat) == uncached_result(self@, left as nat),
                cache_after_uncached(old(self).cache(), old(self)@, budget as nat)
                    == cache_after_uncached(self.cache(), self@, left as nat),
                self.cache_enabled == old(self).cache_enabled,
            decreases left,
        {
            match self.step() {
                Err(t) => {
                    return Err(t);
                },
                Ok(_) => {},
            }
            if self.stop_exec {
                return Ok(());
            }
            left -= 1;
        }
        Ok(())
    }

    /// Runs the block that begins at physical address `physpc`: the one that
    /// the index holds, or a newly built one where it holds none.
    pub fn exec_block_at(&mut self, physpc: u64)
        requires
            old(self).wf(),
            old(self).cache_enabled,
            old(self)@.mem.page_present(physpc),
        ensures
            final(self)@ == run_block(
                HartView { stop_exec: false, ..old(self)@ },
                block_at(old(self)@.mem, physpc),
                0,
            ),
            final(self).cache() == cache_after_block_at(old(self).cache(), old(self)@, physpc),
            final(self).cache_enabled,
            final(self).wf(),
    {
        let blk: RiscvBlock = match self.check_block(physpc) {
            Some(b) => b,
            None => {
                let built = self.build_exec(physpc);
                RiscvBlock {
                    begin: self.current_block.begin,
                    end: self.current_block.end,
                    instrs: copy_instrs(&self.current_block.instrs),
                }
            },
        };
        proof {
            lemma_block_from_wf(self@.mem.bytes, physpc - self@.mem.base, page_remaining(physpc));
        }
        self.exec_block_inner(blk);
    }

    /// One round of a pass with the cache. The result is `None` where the pass
    /// goes on.
    pub fn exec_cached_round(&mut self) -> (r: Option<Result<(), Trap>>)
        requires
            old(self).wf(),
            old(self).cache_enabled,
        ensures
            final(self)@ == cached_round(old(self)@).hart,
            r == cached_round(old(self)@).ended,
            final(self).cache() == cache_after_round(old(self).cache(), old(self)@),
            final(self).cache_enabled == !cached_round(old(self)@).fell_back,
            final(self).wf(),
    {
        let curpc: u64 = self.get_pc_of_current_instr();
        let max_count: u64 = 4096 - curpc % 4096;
        if max_count < 4 {
            self.stop_exec = true;
            self.cache_enabled = false;
            proof {
                crate::handlers::lemma_wf_frame(old(self), self);
                lemma_uncached_one(self@);
                lemma_cache_after_one(self.cache(), self@);
            }
            return Some(self.exec_one_by_one(1));
        }
        let macc = self.gen_mem_cirum(MemAccessType::Execute);
        let physpc: u64 = match self.memsource.resolve(curpc, 2, macc, false) {
            Ok(p) => p,
            Err(t) => {
                self.set_trap(t);
                proof {
                    crate::handlers::lemma_wf_frame(old(self), self);
                }
                return Some(Err(t));
            },
        };
        self.exec_block_at(physpc);
        if self.stop_exec {
            Some(Ok(()))
        } else {
            None
        }
    }

    /// A pass with the cache, block after block, at most `budget` blocks. Within
    /// four bytes of the end of a page an instruction may cross into the next
    /// page: the cache is switched off, `stop_exec` is set, one instruction is
    /// stepped through the pass without the cache, and the pass ends. Elsewhere
    /// the block at the program counter is looked up, or built where the index
    /// holds none, and run; the pass ends when the block leaves `stop_exec`
    /// set. A program counter that cannot be fetched from raises its trap,
    /// which is returned.
    pub fn exec_cached_int(&mut self, budget: u64) -> (r: Result<(), Trap>)
        requires
            old(self).wf(),
            old(self).cache_enabled,
        ensures
            final(self)@ == cached_run(old(self)@, budget as nat),
            r == cached_result(old(self)@, budget as nat),
            budget >= 1 && r is Ok ==> final(self)@.regs[0] == 0,
            final(self).cache() == cache_after_cached(old(self).cache(), old(self)@, budget as nat),
            final(self).cache_enabled == !cached_pass(old(self)@, budget as nat).fell_back,
            final(self).wf(),
    {
        proof {
            crate::passes::lemma_cached_x0(old(self)@, budget as nat);
        }
        let mut left: u64 = budget;
        while left > 0
            invariant
                self.wf(),
                self.cache_enabled,
                budget >= 1 && cached_result(old(self)@, budget as nat) is Ok ==> cached_run(
                    old(self)@,
                    budget as nat,
                ).regs[0] == 0,
                cached_pass(old(self)@, budget as nat) == cached_pass(self@, left as nat),
                cache_after_cached(old(self).cache(), old(self)@, budget as nat)
                    == cache_after_cached(self.cache(), self@, left as nat),
            decreases left,
        {
            match self.exec_cached_round() {
                Some(r) => {
                    return r;
                },
                None => {},
            }
            left -= 1;
        }
        Ok(())
    }
}

} // verus!
