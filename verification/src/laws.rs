//! What holds of every execution: facts about single instructions, and the
//! proof that the block cache changes nothing an instruction could observe.

use crate::access::lemma_resolve_aligned;
use crate::cache::{block_at, block_from, lemma_page_in_memory, page_remaining, word_of};
use crate::defs::{Trap, wrap_add};
use crate::hart::HartView;
use crate::instr::{ends_block, RiscvInstr};
use crate::mem::{le16, lemma_store_len, MemAccessType};
use crate::run::{ExitReason, run_spec, take_jump};
use crate::semantics::{
    apply, cached_run, commit, Effect, effect_of, effect_ok, fetch_spec, instr_wf, run_block,
    step_spec, uncached_run,
};
use vstd::prelude::*;

verus! {

/// The effect of a well-formed instruction is one that the hart can take.
pub proof fn lemma_effect_ok(h: HartView, i: RiscvInstr)
    requires
        h.wf(),
        instr_wf(i),
    ensures
        effect_ok(h, effect_of(h, i)),
{
    let addr = crate::semantics::data_address(h, i);
    let size = crate::semantics::access_size(i.func);
    if size != 0 {
        lemma_resolve_aligned(h, addr, size, h.macc(MemAccessType::Write), false);
    }
}

/// No effect depends on `stop_exec`.
pub proof fn lemma_effect_ignores_stop(h: HartView, i: RiscvInstr, b: bool)
    ensures
        effect_of(HartView { stop_exec: b, ..h }, i) == effect_of(h, i),
{
}

/// An instruction that ends no block writes a register, raises a trap or does
/// nothing.
pub proof fn lemma_plain_effect(h: HartView, i: RiscvInstr)
    requires
        !ends_block(i.func),
    ensures
        effect_of(h, i) is WriteReg || effect_of(h, i) is Raise,
{
}

/// A hart stays well formed under any effect it can take. An effect sets
/// `stop_exec` or leaves it; a trap that is pending afterwards and was not
/// before comes with `stop_exec` set.
pub proof fn lemma_commit_facts(h: HartView, e: Effect)
    requires
        h.wf(),
        effect_ok(h, e),
    ensures
        commit(h, e).wf(),
        commit(h, e).stop_exec || commit(h, e).trap == h.trap,
        commit(h, e).pc == h.pc,
        commit(h, e).is_compressed == h.is_compressed,
        h.stop_exec ==> commit(h, e).stop_exec,
        commit(h, e).usermode == h.usermode,
{
    match e {
        Effect::Store { paddr, val, size } => {
            lemma_store_len(h.mem.bytes, paddr - h.mem.base, val, size);
        },
        _ => {},
    }
}

/// Under any effect, the hart with `stop_exec` set beforehand ends as the hart
/// with `stop_exec` clear beforehand does, but with `stop_exec` set.
pub proof fn lemma_commit_stop(h: HartView, e: Effect)
    ensures
        commit(HartView { stop_exec: true, ..h }, e) == (HartView {
            stop_exec: true,
            ..commit(HartView { stop_exec: false, ..h }, e)
        }),
{
}

/// After any instruction register 0 is zero, and the program counter has moved
/// on by the length of the instruction. The hart stays well formed; an
/// instruction sets `stop_exec` or leaves it; a trap that is pending afterwards
/// and was not before comes with `stop_exec` set.
pub proof fn lemma_apply_facts(h: HartView, i: RiscvInstr)
    requires
        h.wf(),
        instr_wf(i),
    ensures
        apply(h, i).regs[0] == 0,
        apply(h, i).pc == wrap_add(h.pc, i.inc_by),
        apply(h, i).wf(),
        apply(h, i).stop_exec || apply(h, i).trap == h.trap,
        h.stop_exec ==> apply(h, i).stop_exec,
        apply(h, i).usermode == h.usermode,
{
    reveal(apply);
    let h1 = HartView { is_compressed: i.inc_by == 2, ..h };
    lemma_effect_ok(h1, i);
    lemma_commit_facts(h1, effect_of(h1, i));
}

/// An instruction executes on a hart with `stop_exec` set as it does on the
/// hart with `stop_exec` clear, but for `stop_exec`, which stays set.
pub proof fn lemma_apply_stop(h: HartView, i: RiscvInstr)
    ensures
        apply(HartView { stop_exec: true, ..h }, i) == (HartView {
            stop_exec: true,
            ..apply(HartView { stop_exec: false, ..h }, i)
        }),
{
    reveal(apply);
    let h1 = HartView { is_compressed: i.inc_by == 2, ..h };
    lemma_effect_ignores_stop(h1, i, true);
    lemma_effect_ignores_stop(h1, i, false);
    lemma_commit_stop(h1, effect_of(h1, i));
    let a = HartView { is_compressed: i.inc_by == 2, ..HartView { stop_exec: true, ..h } };
    let b = HartView { is_compressed: i.inc_by == 2, ..HartView { stop_exec: false, ..h } };
    assert(a == HartView { stop_exec: true, ..h1 });
    assert(b == HartView { stop_exec: false, ..h1 });
}

/// An instruction that ends no block and leaves `stop_exec` clear changes
/// nothing but the registers, the program counter and `is_compressed`.
pub proof fn lemma_apply_plain(h: HartView, i: RiscvInstr)
    requires
        h.wf(),
        instr_wf(i),
        !ends_block(i.func),
        !apply(h, i).stop_exec,
    ensures
        apply(h, i) == (HartView {
            regs: apply(h, i).regs,
            pc: wrap_add(h.pc, i.inc_by),
            is_compressed: i.inc_by == 2,
            ..h
        }),
{
    reveal(apply);
    let h1 = HartView { is_compressed: i.inc_by == 2, ..h };
    lemma_plain_effect(h1, i);
}

/// What a fetch returns is a well-formed instruction, and no fetch depends on
/// `stop_exec`.
pub proof fn lemma_fetch_facts(h: HartView, b: bool)
    ensures
        fetch_spec(h) matches Ok(i) ==> instr_wf(i),
        fetch_spec(HartView { stop_exec: b, ..h }) == fetch_spec(h),
{
    reveal(fetch_spec);
    let p = h.mem.resolve(h.pc, 2, h.macc(MemAccessType::Execute), false);
    if p is Ok {
        let lo = h.mem.load(p->Ok_0, 2) as u16;
        let q = h.mem.resolve(wrap_add(h.pc, 2), 2, h.macc(MemAccessType::Execute), false);
        if q is Ok {
            crate::exec::lemma_decoded_wf(
                lo,
                crate::cache::word_of(lo, h.mem.load(q->Ok_0, 2) as u16),
            );
        } else {
            crate::exec::lemma_decoded_wf(lo, 0);
        }
    }
}

/// A step keeps the hart well formed; it sets `stop_exec` or leaves it; a trap
/// that is pending afterwards and was not before comes with `stop_exec` set.
pub proof fn lemma_step_facts(h: HartView)
    requires
        h.wf(),
    ensures
        step_spec(h).wf(),
        step_spec(h).stop_exec || step_spec(h).trap == h.trap,
        h.stop_exec ==> step_spec(h).stop_exec,
        step_spec(h).usermode == h.usermode,
{
    lemma_fetch_facts(h, true);
    match fetch_spec(h) {
        Ok(i) => {
            lemma_apply_facts(h, i);
        },
        Err(t) => {},
    }
}

/// A step on a hart with `stop_exec` set ends as the step on the hart with
/// `stop_exec` clear does, but for `stop_exec`, which stays set.
pub proof fn lemma_step_stop(h: HartView)
    ensures
        step_spec(HartView { stop_exec: true, ..h }) == (HartView {
            stop_exec: true,
            ..step_spec(HartView { stop_exec: false, ..h })
        }),
{
    lemma_fetch_facts(h, true);
    lemma_fetch_facts(h, false);
    match fetch_spec(h) {
        Ok(i) => {
            lemma_apply_stop(h, i);
        },
        Err(t) => {},
    }
}

/// The number of instructions that `run_block` executes from index `from` on.
pub open spec fn block_steps(h: HartView, instrs: Seq<RiscvInstr>, from: int) -> nat
    decreases instrs.len() - from,
{
    if from < 0 || from >= instrs.len() {
        0
    } else {
        let h1 = apply(h, instrs[from]);
        if h1.stop_exec {
            1
        } else {
            1 + block_steps(h1, instrs, from + 1)
        }
    }
}

/// Where the program counter of `h` stands at physical address `p`, with `rem`
/// bytes of the block's page left, what a fetch returns is the first
/// instruction of the block that memory holds there.
pub proof fn lemma_fetch_is_block_head(h: HartView, p: u64, rem: int)
    requires
        h.wf(),
        h.pc % 2 == 0,
        h.pc % 4096 == p % 4096,
        h.mem.translate(h.pc, h.macc(MemAccessType::Execute)) == Some(p),
        h.mem.page_present(p),
        0 <= rem <= page_remaining(p),
        block_from(h.mem.bytes, p - h.mem.base, rem).len() > 0,
    ensures
        fetch_spec(h) == Ok::<RiscvInstr, Trap>(block_from(h.mem.bytes, p - h.mem.base, rem)[0]),
        block_from(h.mem.bytes, p - h.mem.base, rem)[0].inc_by <= rem,
        block_from(h.mem.bytes, p - h.mem.base, rem)[0].inc_by == 2 || block_from(
            h.mem.bytes,
            p - h.mem.base,
            rem,
        )[0].inc_by == 4,
        ({
            let b = block_from(h.mem.bytes, p - h.mem.base, rem);
            b == (if ends_block(b[0].func) {
                seq![b[0]]
            } else {
                seq![b[0]] + block_from(
                    h.mem.bytes,
                    p - h.mem.base + b[0].inc_by,
                    rem - b[0].inc_by,
                )
            })
        }),
{
    reveal(fetch_spec);
    lemma_page_in_memory(h.mem, p);
    let macc = h.macc(MemAccessType::Execute);
    let idx = p - h.mem.base;
    let lo = le16(h.mem.bytes, idx) as u16;
    assert(rem >= 2);
    assert(h.mem.present(p, 2));
    assert(h.mem.resolve(h.pc, 2, macc, false) == Ok::<u64, Trap>(p));
    assert(h.mem.load(p, 2) as u16 == lo);
    crate::exec::lemma_decoded_wf(lo, word_of(lo, le16(h.mem.bytes, idx + 2) as u16));
    if lo & 3 != 3 {
    } else {
        assert(rem >= 4);
        let pc2 = wrap_add(h.pc, 2);
        assert(pc2 == h.pc + 2);
        assert(pc2 / 4096 == h.pc / 4096);
        assert(pc2 % 4096 == h.pc % 4096 + 2);
        assert(h.mem.translate(pc2, macc) == Some((p + 2) as u64));
        assert(h.mem.present((p + 2) as u64, 2));
        assert(h.mem.resolve(pc2, 2, macc, false) == Ok::<u64, Trap>((p + 2) as u64));
        assert(h.mem.load((p + 2) as u64, 2) as u16 == le16(h.mem.bytes, idx + 2) as u16);
    }
}

/// Running the block that memory holds at the program counter is stepping
/// through it: where the instructions of `block` from index `j` on are those
/// that memory holds at physical address `p`, where the program counter
/// stands, running them leaves the hart as `block_steps` steps without the
/// cache do.
pub proof fn lemma_block_is_steps(h: HartView, block: Seq<RiscvInstr>, j: int, p: u64, rem: int)
    requires
        h.wf(),
        !h.stop_exec,
        0 <= j <= block.len(),
        block.skip(j) == block_from(h.mem.bytes, p - h.mem.base, rem),
        0 <= rem <= page_remaining(p),
        h.pc % 2 == 0,
        h.pc % 4096 == p % 4096,
        h.mem.translate(h.pc, h.macc(MemAccessType::Execute)) == Some(p),
        h.mem.page_present(p),
    ensures
        run_block(h, block, j) == uncached_run(h, block_steps(h, block, j)),
    decreases block.len() - j,
{
    if j >= block.len() {
        assert(run_block(h, block, j) == h);
        assert(block_steps(h, block, j) == 0);
        assert(uncached_run(h, 0) == h);
    } else {
        let tail = block_from(h.mem.bytes, p - h.mem.base, rem);
        assert(tail.len() == block.len() - j);
        assert(tail[0] == block[j]);
        lemma_fetch_is_block_head(h, p, rem);
        lemma_fetch_facts(h, false);
        let ins = block[j];
        let h1 = apply(h, ins);
        assert(step_spec(h) == h1);
        lemma_apply_facts(h, ins);
        lemma_page_in_memory(h.mem, p);
        if h1.stop_exec {
            assert(block_steps(h, block, j) == 1);
            crate::exec::lemma_uncached_one(h);
        } else {
            let n = block_steps(h1, block, j + 1);
            assert(block_steps(h, block, j) == 1 + n);
            assert(uncached_run(h, (1 + n) as nat) == uncached_run(h1, n));
            assert(block.skip(j).skip(1) =~= block.skip(j + 1));
            if ends_block(ins.func) {
                assert(tail =~= seq![ins]);
                assert(j + 1 == block.len());
                assert(run_block(h1, block, j + 1) == h1);
                assert(n == 0);
                assert(uncached_run(h1, n) == h1);
            } else {
                lemma_apply_plain(h, ins);
                let rest = block_from(
                    h.mem.bytes,
                    p - h.mem.base + ins.inc_by,
                    rem - ins.inc_by,
                );
                assert(tail =~= seq![ins] + rest);
                assert(tail.skip(1) =~= rest);
                if rem - ins.inc_by < 2 {
                    assert(rest.len() == 0);
                    assert(j + 1 == block.len());
                    assert(run_block(h1, block, j + 1) == h1);
                    assert(n == 0);
                    assert(uncached_run(h1, n) == h1);
                } else {
                    let pn = (p + ins.inc_by) as u64;
                    assert(h1.pc == h.pc + ins.inc_by);
                    assert(h1.pc / 4096 == h.pc / 4096);
                    assert(h1.pc % 4096 == h.pc % 4096 + ins.inc_by);
                    assert(pn % 4096 == p % 4096 + ins.inc_by);
                    assert(h1.mem.translate(h1.pc, h1.macc(MemAccessType::Execute)) == Some(pn));
                    lemma_block_is_steps(h1, block, j + 1, pn, rem - ins.inc_by);
                }
            }
        }
    }
}

/// A pass without the cache keeps the hart well formed, and a trap that is
/// pending afterwards and was not before comes with `stop_exec` set.
pub proof fn lemma_uncached_facts(h: HartView, n: nat)
    requires
        h.wf(),
    ensures
        uncached_run(h, n).wf(),
        uncached_run(h, n).stop_exec || uncached_run(h, n).trap == h.trap,
    decreases n,
{
    if n > 0 {
        lemma_step_facts(h);
        if !step_spec(h).stop_exec {
            lemma_uncached_facts(step_spec(h), (n - 1) as nat);
        }
    }
}

/// A pass without the cache of `a + b` instructions is one of `a` instructions
/// followed, unless that one ended with `stop_exec` set, by one of `b`.
pub proof fn lemma_uncached_split(h: HartView, a: nat, b: nat)
    requires
        !h.stop_exec,
    ensures
        uncached_run(h, a + b) == (if uncached_run(h, a).stop_exec {
            uncached_run(h, a)
        } else {
            uncached_run(uncached_run(h, a), b)
        }),
    decreases a,
{
    if a > 0 {
        let h1 = step_spec(h);
        assert(uncached_run(h, a + b) == (if h1.stop_exec {
            h1
        } else {
            uncached_run(h1, (a + b - 1) as nat)
        }));
        if !h1.stop_exec {
            lemma_uncached_split(h1, (a - 1) as nat, b);
            assert((a - 1) as nat + b == (a + b - 1) as nat);
        }
    } else {
        assert(uncached_run(h, 0) == h);
    }
}

/// The number of instructions that a pass with the cache of at most `fuel`
/// rounds executes, a failed fetch counted as one.
pub open spec fn cached_steps(h: HartView, fuel: nat) -> nat
    decreases fuel,
{
    if fuel == 0 {
        0
    } else if page_remaining(h.pc) < 4 {
        1
    } else {
        match h.mem.resolve(h.pc, 2, h.macc(MemAccessType::Execute), false) {
            Err(t) => 1,
            Ok(p) => {
                let h0 = HartView { stop_exec: false, ..h };
                let h1 = run_block(h0, block_at(h.mem, p), 0);
                let k = block_steps(h0, block_at(h.mem, p), 0);
                if h1.stop_exec {
                    k
                } else {
                    k + cached_steps(h1, (fuel - 1) as nat)
                }
            },
        }
    }
}

/// Whether hart `c` is hart `u`, or differs from it in nothing but `stop_exec`,
/// which `c` has set, while `u` has no trap pending.
pub open spec fn agree(c: HartView, u: HartView) -> bool {
    c == u || (c == (HartView { stop_exec: true, ..u }) && u.trap is None)
}

/// Where an address resolves for a fetch, it is even, its page is in memory,
/// and the physical address has the same offset in its page.
pub proof fn lemma_resolved_fetch(h: HartView, p: u64)
    requires
        h.mem.resolve(h.pc, 2, h.macc(MemAccessType::Execute), false) == Ok::<u64, Trap>(p),
    ensures
        h.pc % 2 == 0,
        h.pc % 4096 == p % 4096,
        h.mem.translate(h.pc, h.macc(MemAccessType::Execute)) == Some(p),
        h.mem.page_present(p),
{
}

/// A pass with the cache leaves the hart as the pass without the cache does
/// that executes as many instructions, but that the pass with the cache may
/// leave `stop_exec` set where the other leaves it clear.
#[verifier::rlimit(30)]
pub proof fn lemma_cached_pass_is_uncached(h: HartView, fuel: nat)
    requires
        h.wf(),
        h.trap is None,
    ensures
        agree(
            cached_run(h, fuel),
            uncached_run(HartView { stop_exec: false, ..h }, cached_steps(h, fuel)),
        ),
    decreases fuel,
{
    let h0 = HartView { stop_exec: false, ..h };
    let macc = h.macc(MemAccessType::Execute);
    if fuel == 0 {
        assert(uncached_run(h0, 0) == h0);
    } else if page_remaining(h.pc) < 4 {
        crate::exec::lemma_uncached_one(h0);
        lemma_step_stop(h);
        lemma_step_facts(h0);
    } else {
        match h.mem.resolve(h.pc, 2, macc, false) {
            Err(t) => {
                crate::exec::lemma_uncached_one(h0);
                reveal(fetch_spec);
            },
            Ok(p) => {
                let block = block_at(h.mem, p);
                let h1 = run_block(h0, block, 0);
                let k = block_steps(h0, block, 0);
                lemma_resolved_fetch(h0, p);
                assert(block.skip(0) =~= block);
                lemma_block_is_steps(h0, block, 0, p, page_remaining(p));
                lemma_uncached_facts(h0, k);
                if !h1.stop_exec {
                    let n = cached_steps(h1, (fuel - 1) as nat);
                    lemma_cached_pass_is_uncached(h1, (fuel - 1) as nat);
                    lemma_uncached_split(h0, k, n);
                    assert(HartView { stop_exec: false, ..h1 } == h1);
                }
            },
        }
    }
}

/// The block cache changes nothing that an instruction could observe: a turn
/// of the top-level loop with the cache leaves the hart, and returns, exactly
/// what the turn without the cache does that executes as many instructions.
pub proof fn lemma_cache_is_transparent(h: HartView, fuel: nat)
    requires
        h.wf(),
    ensures
        run_spec(h, fuel, true) == run_spec(
            h,
            cached_steps(HartView { stop_exec: false, ..take_jump(h) }, fuel),
            false,
        ),
{
    if h.trap is None && !take_jump(h).wfi {
        let h2 = HartView { stop_exec: false, ..take_jump(h) };
        lemma_cached_pass_is_uncached(h2, fuel);
        assert(HartView { stop_exec: false, ..h2 } == h2);
    }
}

/// A turn with the cache that ends with a trap, a system call or a wait ends
/// as every turn without the cache does whose budget is no less than the
/// number of instructions that the turn with the cache executed.
pub proof fn lemma_cached_event_is_uncached_event(h: HartView, fuel: nat, budget: nat)
    requires
        h.wf(),
        run_spec(h, fuel, true).1 != ExitReason::Continue,
        budget >= cached_steps(HartView { stop_exec: false, ..take_jump(h) }, fuel),
    ensures
        run_spec(h, budget, false) == run_spec(h, fuel, true),
{
    if h.trap is None && !take_jump(h).wfi {
        let h2 = HartView { stop_exec: false, ..take_jump(h) };
        let n = cached_steps(h2, fuel);
        lemma_cached_pass_is_uncached(h2, fuel);
        assert(HartView { stop_exec: false, ..h2 } == h2);
        let c = cached_run(h2, fuel);
        let u = uncached_run(h2, n);
        lemma_uncached_facts(h2, n);
        assert(c.trap is Some);
        assert(c == u);
        assert(u.stop_exec);
        lemma_uncached_split(h2, n, (budget - n) as nat);
        assert(n + (budget - n) as nat == budget);
    }
}

/// The model of a well-formed hart is well formed.
pub proof fn lemma_view_wf(hart: &crate::hart::RiscvInt)
    requires
        hart.wf(),
    ensures
        hart@.wf(),
{
}

/// Every block of the index of a well-formed hart ends in the page it begins
/// in.
pub proof fn lemma_blocks_stay_in_page(hart: &crate::hart::RiscvInt, key: u64, j: int)
    requires
        hart.wf(),
        hart.instr@.contains_key(key),
        0 <= j < hart.instr@[key]@.len(),
    ensures
        (hart.instr@[key]@[j].begin & !0xfffu64) == (hart.instr@[key]@[j].end & !0xfffu64),
        hart.instr@[key]@[j].begin / 4096 == key,
{
    assert(crate::cache::block_ok(hart@.mem, key, hart.instr@[key]@[j]));
}

} // verus!
