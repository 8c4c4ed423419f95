//! The block cache: what a block of decoded instructions is, when the cache
//! agrees with memory, and how blocks are looked up and built.

use crate::decoder::decode32_spec;
use crate::decoder16::decode16_spec;
use crate::hart::{RiscvBlock, RiscvInt};
use crate::instr::{ends_block, illegal_instr_spec, RiscvInstr};
use crate::mem::{le16, MemView};
use vstd::prelude::*;

verus! {

/// The 32-bit instruction word made of two half-words.
pub open spec fn word_of(lo: u16, hi: u16) -> u32 {
    (lo + 0x1_0000 * hi) as u32
}

/// What a half-word decodes to; the illegal instruction where it encodes none.
pub open spec fn decode16_or_illegal(h: u16) -> RiscvInstr {
    match decode16_spec(h) {
        Some(i) => i,
        None => illegal_instr_spec(2),
    }
}

/// What a word decodes to; the illegal instruction where it encodes none.
pub open spec fn decode32_or_illegal(w: u32) -> RiscvInstr {
    match decode32_spec(w) {
        Some(i) => i,
        None => illegal_instr_spec(4),
    }
}

/// The instructions of the block that begins at index `i` of `bytes`, with
/// `remaining` bytes left in the page: one instruction after the other, up to
/// and with the first that ends a block, or up to the last that fits whole in
/// the page.
pub open spec fn block_from(bytes: Seq<u8>, i: int, remaining: int) -> Seq<RiscvInstr>
    decreases remaining,
{
    if remaining < 2 {
        Seq::empty()
    } else {
        let lo = le16(bytes, i) as u16;
        if lo & 3 != 3 {
            let ins = decode16_or_illegal(lo);
            if ends_block(ins.func) {
                seq![ins]
            } else {
                seq![ins] + block_from(bytes, i + 2, remaining - 2)
            }
        } else if remaining < 4 {
            Seq::empty()
        } else {
            let ins = decode32_or_illegal(word_of(lo, le16(bytes, i + 2) as u16));
            if ends_block(ins.func) {
                seq![ins]
            } else {
                seq![ins] + block_from(bytes, i + 4, remaining - 4)
            }
        }
    }
}

/// The bytes from `addr` to the end of its page.
pub open spec fn page_remaining(addr: u64) -> int {
    4096 - addr % 4096
}

/// The instructions of the block that begins at physical address `paddr`.
pub open spec fn block_at(mem: MemView, paddr: u64) -> Seq<RiscvInstr> {
    block_from(mem.bytes, paddr - mem.base, page_remaining(paddr))
}

/// The bytes that a sequence of instructions takes.
pub open spec fn span(instrs: Seq<RiscvInstr>) -> int
    decreases instrs.len(),
{
    if instrs.len() == 0 {
        0
    } else {
        span(instrs.drop_last()) + instrs.last().inc_by
    }
}

/// A sequence of instructions takes no fewer bytes than its last one.
pub proof fn lemma_span_bounds(instrs: Seq<RiscvInstr>)
    ensures
        span(instrs) >= 0,
        instrs.len() > 0 ==> span(instrs) >= instrs.last().inc_by,
    decreases instrs.len(),
{
    if instrs.len() > 0 {
        lemma_span_bounds(instrs.drop_last());
    }
}

/// The address of the first byte of the last instruction of a block that
/// begins at `begin`; `begin` for a block without instructions.
pub open spec fn block_end(begin: u64, instrs: Seq<RiscvInstr>) -> int {
    if instrs.len() == 0 {
        begin as int
    } else {
        begin + span(instrs.drop_last())
    }
}

/// Whether two addresses lie in one page.
pub open spec fn same_page(a: u64, b: u64) -> bool {
    (a & !0xfffu64) == (b & !0xfffu64)
}

/// Whether block `b`, kept under page number `key`, is what memory holds: it
/// begins in that page, the page is in memory, its instructions are those that
/// memory decodes to from `begin` on, and it ends where they end, in the page
/// it began in.
pub open spec fn block_ok(mem: MemView, key: u64, b: RiscvBlock) -> bool {
    &&& b.begin / 4096 == key
    &&& mem.page_present(b.begin)
    &&& b.instrs@ == block_at(mem, b.begin)
    &&& b.end == block_end(b.begin, b.instrs@)
    &&& same_page(b.begin, b.end)
}

/// Every block of the index is what memory holds.
pub open spec fn cache_wf(h: &RiscvInt) -> bool {
    forall|k: u64, j: int|
        h.instr@.contains_key(k) && 0 <= j < h.instr@[k]@.len() ==> block_ok(
            h@.mem,
            k,
            #[trigger] h.instr@[k]@[j],
        )
}

} // verus!

verus! {

/// What a block holds depends only on the bytes from its first one to the end
/// of its page.
pub proof fn lemma_block_from_frame(a: Seq<u8>, b: Seq<u8>, i: int, remaining: int)
    requires
        0 <= i,
        i + remaining <= a.len(),
        a.len() == b.len(),
        forall|j: int| i <= j < i + remaining ==> a[j] == b[j],
    ensures
        block_from(a, i, remaining) == block_from(b, i, remaining),
    decreases remaining,
{
    if remaining >= 2 {
        assert(a[i] == b[i]);
        assert(a[i + 1] == b[i + 1]);
        let lo = le16(a, i) as u16;
        if lo & 3 != 3 {
            lemma_block_from_frame(a, b, i + 2, remaining - 2);
        } else if remaining >= 4 {
            assert(a[i + 2] == b[i + 2]);
            assert(a[i + 3] == b[i + 3]);
            lemma_block_from_frame(a, b, i + 4, remaining - 4);
        }
    }
}

/// The page of an address that lies in well-formed memory lies in it whole.
pub proof fn lemma_page_in_memory(mem: MemView, paddr: u64)
    requires
        mem.wf(),
        mem.page_present(paddr),
    ensures
        paddr - mem.base + page_remaining(paddr) <= mem.bytes.len(),
        paddr + page_remaining(paddr) < 0x1_0000_0000_0000_0000,
        1 <= page_remaining(paddr) <= 4096,
{
}

/// A block stays what memory holds when memory changes in other pages only.
pub proof fn lemma_block_ok_frame(m1: MemView, m2: MemView, key: u64, b: RiscvBlock)
    requires
        m1.wf(),
        m2.base == m1.base,
        m2.bytes.len() == m1.bytes.len(),
        block_ok(m1, key, b),
        forall|j: int|
            0 <= j < m1.bytes.len() && (m1.base + j) / 4096 == key as int ==> m1.bytes[j]
                == m2.bytes[j],
    ensures
        block_ok(m2, key, b),
{
    lemma_page_in_memory(m1, b.begin);
    let i = b.begin - m1.base;
    let r = page_remaining(b.begin);
    assert forall|j: int| i <= j < i + r implies m1.bytes[j] == m2.bytes[j] by {
        assert((m1.base + j) / 4096 == key as int);
    }
    lemma_block_from_frame(m1.bytes, m2.bytes, i, r);
}

} // verus!
