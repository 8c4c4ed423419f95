//! Looking up a block in the index and building one from memory.

use crate::cache::{
    block_at, block_end, block_from, block_ok, lemma_page_in_memory, page_remaining, same_page,
    span,
};
use crate::decoder;
use crate::decoder16;
use crate::defs::Trap;
use crate::hart::{RiscvBlock, RiscvInt};
use crate::instr::{illegal_instruction, RiscvInstr};
use crate::mem::{access_fault, access_fault_trap, MemAccessType};
use crate::model::{
    BlockView, cache_after_build, first_at, first_of, found_block, index_view, lemma_first_at_view,
    lemma_index_view_insert, lemma_index_view_remove, list_view,
};
use vstd::prelude::*;

verus! {

/// Two addresses lie in one page exactly when they have the same page number.
pub proof fn lemma_same_page(a: u64, b: u64)
    by (bit_vector)
    ensures
        ((a & !0xfffu64) == (b & !0xfffu64)) <==> (a / 4096 == b / 4096),
{
}

/// The bytes of a sequence with one more instruction.
pub proof fn lemma_span_push(s: Seq<RiscvInstr>, i: RiscvInstr)
    ensures
        span(s.push(i)) == span(s) + i.inc_by,
{
    assert(s.push(i).drop_last() =~= s);
}

/// A copy of a sequence of instructions.
pub fn copy_instrs(v: &Vec<RiscvInstr>) -> (r: Vec<RiscvInstr>)
    ensures
        r@ == v@,
{
    let mut r: Vec<RiscvInstr> = Vec::new();
    let mut i: usize = 0;
    while i < v.len()
        invariant
            i <= v.len(),
            r@ == v@.take(i as int),
        decreases v.len() - i,
    {
        r.push(v[i]);
        assert(v@.take(i as int).push(v@[i as int]) =~= v@.take(i + 1));
        i += 1;
    }
    assert(v@.take(v@.len() as int) =~= v@);
    r
}

impl RiscvInt {
    /// The block that the index holds for physical address `addr`: a copy of
    /// the first block under the page number of `addr` that begins there,
    /// `None` where there is none. The block is what memory decodes to from
    /// `addr` on, and it ends in the page it begins in.
    pub fn check_block(&self, addr: u64) -> (r: Option<RiscvBlock>)
        requires
            self.wf(),
        ensures
            match found_block(self.cache().index, addr) {
                Some(b) => r matches Some(c) && c@ == b && b.begin == addr && b.instrs == block_at(
                    self@.mem,
                    addr,
                ) && same_page(b.begin, b.end) && self@.mem.page_present(addr),
                None => r is None,
            },
    {
        broadcast use vstd::std_specs::hash::group_hash_axioms;

        let key: u64 = addr / 4096;
        match self.instr.get(&key) {
            None => None,
            Some(z) => {
                proof {
                    lemma_first_at_view(z@, addr, 0);
                }
                let mut i: usize = 0;
                while i < z.len()
                    invariant
                        i <= z.len(),
                        self.wf(),
                        self.instr@.contains_key(key),
                        *z == self.instr@[key],
                        first_of(z@, addr, 0) == first_of(z@, addr, i as int),
                        first_at(list_view(z@), addr, 0) == first_of(z@, addr, 0),
                    decreases z.len() - i,
                {
                    if z[i].begin == addr {
                        assert(block_ok(self@.mem, key, self.instr@[key]@[i as int]));
                        assert(first_of(z@, addr, i as int) == i);
                        assert(list_view(z@)[i as int] == z@[i as int]@);
                        return Some(
                            RiscvBlock {
                                begin: z[i].begin,
                                end: z[i].end,
                                instrs: copy_instrs(&z[i].instrs),
                            },
                        );
                    }
                    i += 1;
                }
                None
            },
        }
    }

    /// Decodes the instruction at physical address `iaddr`, with `max_count`
    /// bytes of the page left, into the block that is being built. The result
    /// is the length of the instruction, or 0 where a 32-bit instruction does
    /// not fit and nothing was appended.
    fn build_one(&mut self, iaddr: u64, max_count: u64) -> (step: u64)
        requires
            old(self)@.mem.wf(),
            2 <= max_count <= 4096,
            old(self)@.mem.base <= iaddr,
            iaddr - old(self)@.mem.base + max_count <= old(self)@.mem.bytes.len(),
            !old(self).stop_translating,
        ensures
            final(self)@ == old(self)@,
            final(self).instr == old(self).instr,
            final(self).cache_enabled == old(self).cache_enabled,
            final(self).current_block.begin == old(self).current_block.begin,
            final(self).current_block.end == old(self).current_block.end,
            step == 0 || step == 2 || step == 4,
            step <= max_count,
            step == 0 ==> final(self).current_block.instrs@ == old(self).current_block.instrs@
                && block_from(old(self)@.mem.bytes, iaddr - old(self)@.mem.base, max_count as int)
                == Seq::<RiscvInstr>::empty() && !final(self).stop_translating,
            step != 0 ==> {
                let ins = final(self).current_block.instrs@.last();
                &&& final(self).current_block.instrs@ == old(self).current_block.instrs@.push(ins)
                &&& ins.inc_by == step
                &&& final(self).stop_translating == crate::instr::ends_block(ins.func)
                &&& block_from(old(self)@.mem.bytes, iaddr - old(self)@.mem.base, max_count as int)
                    == (if crate::instr::ends_block(ins.func) {
                    seq![ins]
                } else {
                    seq![ins] + block_from(
                        old(self)@.mem.bytes,
                        iaddr - old(self)@.mem.base + step,
                        max_count - step,
                    )
                })
            },
    {
        let instr_lower: u16 = self.memsource.guest_mem.read_u16(iaddr);
        if (instr_lower & 0x3) != 0x3 {
            self.translate16(instr_lower);
            2
        } else if max_count < 4 {
            0
        } else {
            let instr_high: u16 = self.memsource.guest_mem.read_u16(iaddr + 2);
            let realinstr: u32 = instr_lower as u32 + 0x1_0000 * (instr_high as u32);
            self.translate32(realinstr);
            4
        }
    }

    /// Decodes a half-word into the block that is being built; where the
    /// decoder finds no instruction, the illegal instruction goes into the
    /// block and ends it.
    fn translate16(&mut self, h: u16)
        requires
            !old(self).stop_translating,
        ensures
            final(self)@ == old(self)@,
            final(self).instr == old(self).instr,
            final(self).cache_enabled == old(self).cache_enabled,
            final(self).current_block.begin == old(self).current_block.begin,
            final(self).current_block.end == old(self).current_block.end,
            final(self).current_block.instrs@ == old(self).current_block.instrs@.push(
                crate::cache::decode16_or_illegal(h),
            ),
            final(self).stop_translating == crate::instr::ends_block(
                crate::cache::decode16_or_illegal(h).func,
            ),
            crate::cache::decode16_or_illegal(h).inc_by == 2,
    {
        proof {
            crate::exec::lemma_decoded_wf(h, 0);
        }
        if !decoder16::decode(self, h) {
            self.insert_insn_current(illegal_instruction(2));
            self.stop_translating = true;
        }
    }

    /// Decodes a word into the block that is being built; where the decoder
    /// finds no instruction, the illegal instruction goes into the block and
    /// ends it.
    fn translate32(&mut self, w: u32)
        requires
            !old(self).stop_translating,
        ensures
            final(self)@ == old(self)@,
            final(self).instr == old(self).instr,
            final(self).cache_enabled == old(self).cache_enabled,
            final(self).current_block.begin == old(self).current_block.begin,
            final(self).current_block.end == old(self).current_block.end,
            final(self).current_block.instrs@ == old(self).current_block.instrs@.push(
                crate::cache::decode32_or_illegal(w),
            ),
            final(self).stop_translating == crate::instr::ends_block(
                crate::cache::decode32_or_illegal(w).func,
            ),
            crate::cache::decode32_or_illegal(w).inc_by == 4,
    {
        proof {
            crate::exec::lemma_decoded_wf(0, w);
        }
        if !decoder::decode(self, w) {
            self.insert_insn_current(illegal_instruction(4));
            self.stop_translating = true;
        }
    }

    /// Builds the block that begins at physical address `addr` and appends it to
    /// the list of its page. Instructions are decoded one after the other while
    /// at least two bytes of the page are left; a word that decodes to nothing
    /// gives the illegal instruction; the block ends with the first instruction
    /// that ends a block, or before a 32-bit instruction that does not fit in
    /// the page. Where the page is not in memory, nothing is built and the
    /// access fault of a fetch at `addr` is returned.
    #[verifier::rlimit(30)]
    pub fn build_exec(&mut self, addr: u64) -> (r: Result<(), Trap>)
        requires
            old(self).wf(),
            old(self).cache_enabled,
        ensures
            final(self)@ == old(self)@,
            final(self).cache() == cache_after_build(old(self).cache(), old(self)@.mem, addr),
            r == (if old(self)@.mem.page_present(addr) {
                Ok::<(), Trap>(())
            } else {
                Err::<(), Trap>(access_fault_trap(MemAccessType::Execute, addr))
            }),
            r is Ok ==> same_page(final(self).current_block.begin, final(self).current_block.end),
            final(self).wf(),
    {
        broadcast use vstd::std_specs::hash::group_hash_axioms;

        self.stop_translating = false;
        self.current_block.begin = addr;
        self.current_block.end = addr;
        self.current_block.instrs.clear();
        proof {
            crate::handlers::lemma_wf_frame(old(self), self);
        }
        if !self.memsource.guest_mem.contains(addr, 1) {
            return Err(access_fault(MemAccessType::Execute, addr));
        }
        proof {
            lemma_page_in_memory(self@.mem, addr);
        }
        let mut iaddr: u64 = addr;
        let mut max_count: u64 = 4096 - addr % 4096;
        let mut inc_by: u64 = 0;
        let mut going: bool = true;
        while going && max_count >= 2
            invariant
                self@ == old(self)@,
                self.instr == old(self).instr,
                self.cache_enabled,
                self.current_block.begin == addr,
                self@.mem.wf(),
                self@.mem.page_present(addr),
                addr - self@.mem.base + page_remaining(addr) <= self@.mem.bytes.len(),
                addr + page_remaining(addr) < 0x1_0000_0000_0000_0000,
                addr <= iaddr,
                iaddr - addr + max_count == page_remaining(addr),
                iaddr - addr == span(self.current_block.instrs@),
                inc_by == (if self.current_block.instrs@.len() == 0 {
                    0
                } else {
                    self.current_block.instrs@.last().inc_by
                }),
                going ==> block_at(self@.mem, addr) == self.current_block.instrs@ + block_from(
                    self@.mem.bytes,
                    iaddr - self@.mem.base,
                    max_count as int,
                ),
                !going ==> block_at(self@.mem, addr) == self.current_block.instrs@,
                going ==> !self.stop_translating,
                self.current_block.instrs@.len() > 0 ==> inc_by >= 2,
                self.stop_translating == (self.current_block.instrs@.len() > 0
                    && crate::instr::ends_block(self.current_block.instrs@.last().func)),
            decreases max_count + (if going {
                1int
            } else {
                0int
            }),
        {
            let ghost before = self.current_block.instrs@;
            let ghost rest = block_from(
                self@.mem.bytes,
                iaddr - self@.mem.base,
                max_count as int,
            );
            let step: u64 = self.build_one(iaddr, max_count);
            if step == 0 {
                going = false;
                assert(before + rest =~= before);
            } else {
                let ghost ins = self.current_block.instrs@.last();
                proof {
                    lemma_span_push(before, ins);
                    if self.stop_translating {
                        assert(before + rest =~= before.push(ins));
                    } else {
                        let tail = block_from(
                            self@.mem.bytes,
                            iaddr - self@.mem.base + step,
                            max_count - step,
                        );
                        assert(before + rest =~= before.push(ins) + tail);
                    }
                }
                inc_by = step;
                iaddr += inc_by;
                max_count -= inc_by;
                if self.stop_translating {
                    going = false;
                }
            }
        }
        proof {
            if going {
                assert(block_from(self@.mem.bytes, iaddr - self@.mem.base, max_count as int)
                    =~= Seq::<RiscvInstr>::empty());
                assert(self.current_block.instrs@ + Seq::<RiscvInstr>::empty()
                    =~= self.current_block.instrs@);
            }
            crate::cache::lemma_span_bounds(self.current_block.instrs@);
            if self.current_block.instrs@.len() > 0 {
                crate::cache::lemma_span_bounds(self.current_block.instrs@.drop_last());
            }
        }
        self.current_block.end = iaddr - inc_by;
        proof {
            lemma_same_page(addr, self.current_block.end);
            assert(self.current_block.end == block_end(addr, self.current_block.instrs@));
            let page = addr / 4096;
            assert(page * 4096 <= addr);
            assert(page * 4096 <= self.current_block.end < page * 4096 + 4096);
            assert(self.current_block.end / 4096 == page);
            assert(same_page(addr, self.current_block.end));
        }
        let key: u64 = addr / 4096;
        let copy = RiscvBlock {
            begin: self.current_block.begin,
            end: self.current_block.end,
            instrs: copy_instrs(&self.current_block.instrs),
        };
        let mut list: Vec<RiscvBlock> = match self.instr.remove(&key) {
            Some(l) => l,
            None => Vec::new(),
        };
        let ghost prev = list@;
        let ghost gone = self.instr@;
        list.push(copy);
        self.instr.insert(key, list);
        proof {
            let old_view = index_view(old(self).instr@);
            let before = if old_view.contains_key(key) {
                old_view[key]
            } else {
                Seq::<BlockView>::empty()
            };
            assert(gone == old(self).instr@.remove(key));
            lemma_index_view_insert(gone, key, self.instr@[key]);
            lemma_index_view_remove(old(self).instr@, key);
            assert(list_view(prev) =~= before);
            assert(list_view(self.instr@[key]@) =~= before.push(copy@));
            assert(old_view.remove(key).insert(key, before.push(copy@)) =~= old_view.insert(
                key,
                before.push(copy@),
            ));
            assert(copy@ == crate::model::block_in_memory(self@.mem, addr));
            assert(self.current_block@ == copy@);
            assert forall|k: u64, j: int|
                self.instr@.contains_key(k) && 0 <= j < self.instr@[k]@.len() implies block_ok(
                self@.mem,
                k,
                #[trigger] self.instr@[k]@[j],
            ) by {
                if k == key {
                    if j == prev.len() {
                        assert(self.instr@[k]@[j] == copy);
                    }
                    if j < prev.len() {
                        assert(self.instr@[k]@[j] == prev[j]);
                        assert(old(self).instr@.contains_key(key));
                        assert(block_ok(old(self)@.mem, key, old(self).instr@[key]@[j]));
                    }
                } else {
                    assert(old(self).instr@.contains_key(k));
                    assert(self.instr@[k] == old(self).instr@[k]);
                    assert(block_ok(old(self)@.mem, k, old(self).instr@[k]@[j]));
                }
            }
        }
        Ok(())
    }
}

} // verus!
