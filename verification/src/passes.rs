//! What holds of every pass over the instructions: register 0 after it, the
//! half-word that encodes no instruction, and the single step at the end of a
//! page.

use crate::cache::{block_at, decode16_or_illegal, page_remaining};
use crate::defs::{Exception, Trap, wrap_add};
use crate::exec::{instrs_wf, lemma_block_from_wf};
use crate::hart::{HartView, sign_ext_spec};
use crate::instr::{illegal_instr_spec, RiscvInstr, RiscvOp};
use crate::laws::{
    cached_steps, lemma_apply_facts, lemma_cache_is_transparent, lemma_fetch_facts,
    lemma_resolved_fetch,
};
use crate::mem::MemAccessType;
use crate::model::{cache_after_cached, cache_after_step, CacheView};
use crate::run::{run_spec, settle, take_jump};
use crate::semantics::{
    apply, cached_pass, cached_result, cached_round, cached_run, fetch_result, fetch_spec,
    run_block, step_spec, uncached_result, uncached_run,
};
use vstd::prelude::*;

verus! {

/// Register 0 is zero after every pass without the cache that executed an
/// instruction: after every pass of one instruction or more that returns
/// `Ok`. A pass that executes nothing leaves register 0 as it was, so it is
/// zero after every pass that began with it zero.
pub proof fn lemma_uncached_x0(h: HartView, fuel: nat)
    requires
        h.wf(),
    ensures
        fuel >= 1 && uncached_result(h, fuel) is Ok ==> uncached_run(h, fuel).regs[0] == 0,
        h.regs[0] == 0 ==> uncached_run(h, fuel).regs[0] == 0,
    decreases fuel,
{
    if fuel > 0 {
        lemma_fetch_facts(h, true);
        match fetch_spec(h) {
            Err(t) => {},
            Ok(i) => {
                lemma_apply_facts(h, i);
                if !apply(h, i).stop_exec {
                    lemma_uncached_x0(apply(h, i), (fuel - 1) as nat);
                }
            },
        }
    }
}

/// Running a block keeps the hart well formed, and register 0 is zero after
/// every block that executed an instruction.
pub proof fn lemma_block_x0(h: HartView, instrs: Seq<RiscvInstr>, from: int)
    requires
        h.wf(),
        instrs_wf(instrs),
        0 <= from,
    ensures
        run_block(h, instrs, from).wf(),
        from < instrs.len() || h.regs[0] == 0 ==> run_block(h, instrs, from).regs[0] == 0,
    decreases instrs.len() - from,
{
    if from < instrs.len() {
        lemma_apply_facts(h, instrs[from]);
        if !apply(h, instrs[from]).stop_exec {
            lemma_block_x0(apply(h, instrs[from]), instrs, from + 1);
        }
    }
}

/// Register 0 is zero after every pass with the cache of one round or more
/// that returns `Ok`, and after every pass that began with it zero.
pub proof fn lemma_cached_x0(h: HartView, fuel: nat)
    requires
        h.wf(),
    ensures
        fuel >= 1 && cached_result(h, fuel) is Ok ==> cached_run(h, fuel).regs[0] == 0,
        h.regs[0] == 0 ==> cached_run(h, fuel).regs[0] == 0,
    decreases fuel,
{
    if fuel > 0 {
        let o = cached_round(h);
        if page_remaining(h.pc) < 4 {
            let h0 = HartView { stop_exec: true, ..h };
            lemma_fetch_facts(h0, true);
            match fetch_spec(h0) {
                Err(t) => {},
                Ok(i) => {
                    lemma_apply_facts(h0, i);
                },
            }
        } else {
            match h.mem.resolve(h.pc, 2, h.macc(MemAccessType::Execute), false) {
                Err(t) => {},
                Ok(p) => {
                    let h0 = HartView { stop_exec: false, ..h };
                    lemma_resolved_fetch(h, p);
                    lemma_block_from_wf(h.mem.bytes, p - h.mem.base, page_remaining(p));
                    assert(block_at(h.mem, p).len() > 0);
                    lemma_block_x0(h0, block_at(h.mem, p), 0);
                    if !o.hart.stop_exec {
                        lemma_cached_x0(o.hart, (fuel - 1) as nat);
                    }
                },
            }
        }
    }
}

/// A half-word of zeros encodes no instruction: a pass without the cache of
/// one instruction or more that finds one at the program counter takes it for
/// the illegal instruction. The pass returns `Ok` and leaves the
/// illegal-instruction trap pending, with the program counter of the
/// half-word as its value and as `trap_pc`, and with `stop_exec` set; nothing
/// else changes but the program counter, which has moved on by two.
pub proof fn lemma_zero_word_is_illegal(h: HartView, fuel: nat, p: u64)
    requires
        h.wf(),
        fuel >= 1,
        h.mem.resolve(h.pc, 2, h.macc(MemAccessType::Execute), false) == Ok::<u64, Trap>(p),
        h.mem.load(p, 2) == 0,
    ensures
        uncached_result(h, fuel) == Ok::<(), Trap>(()),
        uncached_run(h, fuel) == after_zero_word(h),
{
    reveal(fetch_spec);
    reveal(apply);
    reveal(crate::decoder16::decode16_spec);
    assert(0u16 & 3 != 3) by (bit_vector);
    assert(0u16 & 3 == 0) by (bit_vector);
    assert(decode16_or_illegal(0) == illegal_instr_spec(2));
    assert(fetch_spec(h) == Ok::<RiscvInstr, Trap>(illegal_instr_spec(2)));
}

/// The hart that took a half-word of zeros at its program counter for the
/// illegal instruction.
pub open spec fn after_zero_word(h: HartView) -> HartView {
    HartView {
        trap: Some(Trap { ttype: Exception::IllegalInstruction, val: h.pc }),
        trap_pc: h.pc,
        stop_exec: true,
        is_reservation: false,
        is_compressed: true,
        pc: wrap_add(h.pc, 2),
        regs: h.regs.update(0, 0),
        ..h
    }
}

/// A pass with the cache of one round or more executes an instruction, a
/// failed fetch counted as one.
pub proof fn lemma_cached_steps_positive(h: HartView, fuel: nat)
    requires
        fuel >= 1,
    ensures
        cached_steps(h, fuel) >= 1,
{
    if page_remaining(h.pc) >= 4 {
        match h.mem.resolve(h.pc, 2, h.macc(MemAccessType::Execute), false) {
            Err(t) => {},
            Ok(p) => {
                lemma_resolved_fetch(h, p);
                assert(block_at(h.mem, p).len() > 0);
            },
        }
    }
}

/// A turn of the top-level loop, with the cache or without it, that finds a
/// half-word of zeros at the program counter settles the illegal-instruction
/// trap of that program counter: a user-mode guest ends with it, a
/// system-mode guest has it delivered to its handler.
pub proof fn lemma_zero_word_turn(h: HartView, fuel: nat, cached: bool, p: u64)
    requires
        h.wf(),
        fuel >= 1,
        h.trap is None,
        h.want_pc is None,
        !h.wfi,
        h.mem.resolve(h.pc, 2, h.macc(MemAccessType::Execute), false) == Ok::<u64, Trap>(p),
        h.mem.load(p, 2) == 0,
    ensures
        run_spec(h, fuel, cached) == settle(after_zero_word(h)),
{
    let h2 = HartView { stop_exec: false, ..h };
    assert(take_jump(h) == h);
    if cached {
        let n = cached_steps(h2, fuel);
        lemma_cached_steps_positive(h2, fuel);
        lemma_cache_is_transparent(h, fuel);
        lemma_zero_word_is_illegal(h2, n, p);
    } else {
        lemma_zero_word_is_illegal(h2, fuel, p);
    }
    assert(after_zero_word(h2) == after_zero_word(h));
}

/// Within four bytes of the end of a page a pass with the cache of one round
/// or more is one step without the cache: the hart is what that step makes of
/// it, with `stop_exec` set, the pass returns what the fetch did, and the
/// cache is switched off and otherwise what the one step makes of it. No block
/// is looked up or built.
pub proof fn lemma_page_end_is_one_step(h: HartView, c: CacheView, fuel: nat)
    requires
        fuel >= 1,
        page_remaining(h.pc) < 4,
    ensures
        cached_run(h, fuel) == step_spec(HartView { stop_exec: true, ..h }),
        cached_result(h, fuel) == fetch_result(h),
        cached_pass(h, fuel).fell_back,
        cache_after_cached(c, h, fuel) == cache_after_step(
            CacheView { cache_enabled: false, ..c },
            HartView { stop_exec: true, ..h },
        ),
{
    lemma_fetch_facts(h, true);
}

/// An `addi` that is fetched within four bytes of the end of a page, by a pass
/// with the cache of one round or more: the pass returns `Ok`, the register
/// has the sum, register 0 is zero, the program counter has moved on by the
/// length of the instruction, `stop_exec` is set, and the cache is switched
/// off with its index as it was.
pub proof fn lemma_page_end_addi(h: HartView, c: CacheView, fuel: nat, i: RiscvInstr)
    requires
        h.wf(),
        fuel >= 1,
        page_remaining(h.pc) < 4,
        fetch_spec(h) == Ok::<RiscvInstr, Trap>(i),
        i.func == RiscvOp::Addi,
    ensures
        cached_result(h, fuel) == Ok::<(), Trap>(()),
        cached_run(h, fuel) == (HartView {
            regs: h.regs.update(
                i.args.rd as int,
                sign_ext_spec(h.xlen, wrap_add(h.reg(i.args.rs1), i.args.imm)),
            ).update(0, 0),
            pc: wrap_add(h.pc, i.inc_by),
            is_compressed: i.inc_by == 2,
            stop_exec: true,
            ..h
        }),
        cache_after_cached(c, h, fuel) == (CacheView { cache_enabled: false, ..c }),
{
    lemma_page_end_is_one_step(h, c, fuel);
    lemma_fetch_facts(h, true);
    reveal(apply);
}

} // verus!
