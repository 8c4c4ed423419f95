//! Mathematical model of the block cache, and what executing instructions
//! makes of it. No instruction can observe the cache; `check_block` can.

use crate::cache::{block_at, block_end, page_remaining};
use crate::hart::{HartView, RiscvBlock, RiscvInt};
use crate::instr::{ends_block, RiscvInstr, RiscvOp};
use crate::mem::{MemAccessType, MemView};
use crate::semantics::{apply, cached_round, Effect, effect_of, fetch_spec, step_spec};
use vstd::prelude::*;

verus! {

/// Mathematical model of a block.
pub struct BlockView {
    pub begin: u64,
    pub end: u64,
    pub instrs: Seq<RiscvInstr>,
}

impl View for RiscvBlock {
    type V = BlockView;

    open spec fn view(&self) -> BlockView {
        BlockView { begin: self.begin, end: self.end, instrs: self.instrs@ }
    }
}

/// Mathematical model of the block cache of a hart.
pub struct CacheView {
    /// Physical page number to the blocks that begin in that page, in the order
    /// in which they were built.
    pub index: Map<u64, Seq<BlockView>>,
    /// The block that was built last, or is being built.
    pub current: BlockView,
    pub stop_translating: bool,
    pub cache_enabled: bool,
}

/// The models of the blocks of a list.
pub open spec fn list_view(list: Seq<RiscvBlock>) -> Seq<BlockView> {
    Seq::new(list.len(), |j: int| list[j]@)
}

/// The model of a block index.
pub open spec fn index_view(index: Map<u64, Vec<RiscvBlock>>) -> Map<u64, Seq<BlockView>> {
    Map::new(|k: u64| index.contains_key(k), |k: u64| list_view(index[k]@))
}

impl RiscvInt {
    /// The model of the hart's block cache.
    pub open spec fn cache(&self) -> CacheView {
        CacheView {
            index: index_view(self.instr@),
            current: self.current_block@,
            stop_translating: self.stop_translating,
            cache_enabled: self.cache_enabled,
        }
    }
}

/// The index of the first block of `list`, from index `from` on, that begins at
/// `addr`; the length of `list` where there is none.
pub open spec fn first_at(list: Seq<BlockView>, addr: u64, from: int) -> int
    decreases list.len() - from,
{
    if from < 0 || from >= list.len() {
        list.len() as int
    } else if list[from].begin == addr {
        from
    } else {
        first_at(list, addr, from + 1)
    }
}

/// The block that an index holds for physical address `addr`: the first one
/// under the page number of `addr` that begins there.
pub open spec fn found_block(index: Map<u64, Seq<BlockView>>, addr: u64) -> Option<BlockView> {
    let key = (addr / 4096) as u64;
    if !index.contains_key(key) {
        None
    } else {
        let j = first_at(index[key], addr, 0);
        if j < index[key].len() {
            Some(index[key][j])
        } else {
            None
        }
    }
}

/// The block that memory holds at physical address `addr`.
pub open spec fn block_in_memory(mem: MemView, addr: u64) -> BlockView {
    BlockView {
        begin: addr,
        end: block_end(addr, block_at(mem, addr)) as u64,
        instrs: block_at(mem, addr),
    }
}

/// The cache after the attempt to build the block at physical address `addr`.
/// Where the page of `addr` is in memory, the block that memory holds there is
/// the current block and the last one of its page's list, and
/// `stop_translating` says whether its last instruction ends a block. Where
/// the page is not in memory, the current block is one without instructions
/// at `addr`, and the index stays as it is.
pub open spec fn cache_after_build(c: CacheView, mem: MemView, addr: u64) -> CacheView {
    if mem.page_present(addr) {
        let b = block_in_memory(mem, addr);
        let key = (addr / 4096) as u64;
        let prev = if c.index.contains_key(key) {
            c.index[key]
        } else {
            Seq::<BlockView>::empty()
        };
        CacheView {
            index: c.index.insert(key, prev.push(b)),
            current: b,
            stop_translating: b.instrs.len() > 0 && ends_block(b.instrs.last().func),
            ..c
        }
    } else {
        CacheView {
            current: BlockView { begin: addr, end: addr, instrs: Seq::empty() },
            stop_translating: false,
            ..c
        }
    }
}

/// The cache after effect `e`: a store drops the blocks of the page it writes,
/// a cache flush drops every block.
pub open spec fn cache_after_effect(c: CacheView, e: Effect) -> CacheView {
    match e {
        Effect::Store { paddr, .. } => CacheView {
            index: c.index.remove((paddr / 4096) as u64),
            ..c
        },
        Effect::FlushCache => CacheView { index: Map::empty(), ..c },
        _ => c,
    }
}

/// The cache after instruction `i` executed on hart `h`: what the effect of `i`
/// makes of it, with `stop_translating` set by the illegal instruction.
pub open spec fn cache_after_instr(c: CacheView, h: HartView, i: RiscvInstr) -> CacheView {
    let c1 = cache_after_effect(c, effect_of(HartView { is_compressed: i.inc_by == 2, ..h }, i));
    CacheView { stop_translating: c.stop_translating || i.func == RiscvOp::Illegal, ..c1 }
}

/// The cache after the instructions of `instrs` from index `from` on executed,
/// one after the other, until one left `stop_exec` set.
pub open spec fn cache_after_block(c: CacheView, h: HartView, instrs: Seq<RiscvInstr>, from: int)
    -> CacheView
    decreases instrs.len() - from,
{
    if from < 0 || from >= instrs.len() {
        c
    } else {
        let c1 = cache_after_instr(c, h, instrs[from]);
        let h1 = apply(h, instrs[from]);
        if h1.stop_exec {
            c1
        } else {
            cache_after_block(c1, h1, instrs, from + 1)
        }
    }
}

/// The cache after one step.
pub open spec fn cache_after_step(c: CacheView, h: HartView) -> CacheView {
    match fetch_spec(h) {
        Err(_) => c,
        Ok(i) => cache_after_instr(c, h, i),
    }
}

/// The cache after a pass without the cache.
pub open spec fn cache_after_uncached(c: CacheView, h: HartView, fuel: nat) -> CacheView
    decreases fuel,
{
    if fuel == 0 {
        c
    } else {
        let c1 = cache_after_step(c, h);
        let h1 = step_spec(h);
        if h1.stop_exec {
            c1
        } else {
            cache_after_uncached(c1, h1, (fuel - 1) as nat)
        }
    }
}

/// The cache after the block at physical address `addr` was looked up, built
/// where the index held none, and run.
pub open spec fn cache_after_block_at(c: CacheView, h: HartView, addr: u64) -> CacheView {
    let c1 = if found_block(c.index, addr) is Some {
        c
    } else {
        cache_after_build(c, h.mem, addr)
    };
    cache_after_block(c1, HartView { stop_exec: false, ..h }, block_at(h.mem, addr), 0)
}

/// The cache after one round of a pass with the cache.
pub open spec fn cache_after_round(c: CacheView, h: HartView) -> CacheView {
    if page_remaining(h.pc) < 4 {
        cache_after_step(CacheView { cache_enabled: false, ..c }, HartView { stop_exec: true, ..h })
    } else {
        match h.mem.resolve(h.pc, 2, h.macc(MemAccessType::Execute), false) {
            Err(t) => c,
            Ok(p) => cache_after_block_at(c, h, p),
        }
    }
}

/// The cache after a pass with the cache.
pub open spec fn cache_after_cached(c: CacheView, h: HartView, fuel: nat) -> CacheView
    decreases fuel,
{
    if fuel == 0 {
        c
    } else {
        let c1 = cache_after_round(c, h);
        let o = cached_round(h);
        if o.ended is Some {
            c1
        } else {
            cache_after_cached(c1, o.hart, (fuel - 1) as nat)
        }
    }
}

/// Dropping a page from an index drops it from the model.
pub proof fn lemma_index_view_remove(index: Map<u64, Vec<RiscvBlock>>, key: u64)
    ensures
        index_view(index.remove(key)) == index_view(index).remove(key),
{
    assert(index_view(index.remove(key)) =~= index_view(index).remove(key));
}

/// The model of an index without blocks has none.
pub proof fn lemma_index_view_empty()
    ensures
        index_view(Map::<u64, Vec<RiscvBlock>>::empty()) == Map::<u64, Seq<BlockView>>::empty(),
{
    assert(index_view(Map::<u64, Vec<RiscvBlock>>::empty()) =~= Map::<
        u64,
        Seq<BlockView>,
    >::empty());
}

/// Putting a longer list under a page puts its model under the page.
pub proof fn lemma_index_view_insert(
    index: Map<u64, Vec<RiscvBlock>>,
    key: u64,
    list: Vec<RiscvBlock>,
)
    ensures
        index_view(index.insert(key, list)) == index_view(index).insert(key, list_view(list@)),
{
    assert(index_view(index.insert(key, list)) =~= index_view(index).insert(
        key,
        list_view(list@),
    ));
}

/// The first block at an address is the first one in the model.
pub proof fn lemma_first_at_view(list: Seq<RiscvBlock>, addr: u64, from: int)
    requires
        0 <= from <= list.len(),
    ensures
        first_at(list_view(list), addr, from) == first_of(list, addr, from),
    decreases list.len() - from,
{
    if from < list.len() {
        lemma_first_at_view(list, addr, from + 1);
    }
}

/// The index of the first block of `list`, from index `from` on, that begins at
/// `addr`; the length of `list` where there is none.
pub open spec fn first_of(list: Seq<RiscvBlock>, addr: u64, from: int) -> int
    decreases list.len() - from,
{
    if from < 0 || from >= list.len() {
        list.len() as int
    } else if list[from].begin == addr {
        from
    } else {
        first_of(list, addr, from + 1)
    }
}

} // verus!
