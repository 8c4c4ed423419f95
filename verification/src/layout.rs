//! What the guest reads back from a buffer that the hart laid out for it.

use crate::defs::{Trap, wrap_add};
use crate::hart::HartView;
use crate::mem::{
    le32, le64, lemma_load_after_store, lemma_load_bound, lemma_load_depends_on_range,
    lemma_store_frame, lemma_store_len, MemAccessType, MemView,
};
use crate::syscall::{GenericStat, stat_words, store_words};
use vstd::prelude::*;

verus! {

/// What a load of `size` bytes at virtual address `addr` returns to the
/// guest: the value, or the trap of the access.
pub open spec fn guest_read(h: HartView, addr: u64, size: u64) -> Result<u64, Trap> {
    match h.mem.resolve(addr, size, h.macc(MemAccessType::Read), false) {
        Ok(p) => Ok(h.mem.load(p, size)),
        Err(t) => Err(t),
    }
}

/// Whether the guest may read a buffer of `n` bytes at virtual address `addr`,
/// no longer than a page: the pages of its first and of its last byte permit
/// reading. Where virtual addresses are physical ones every page does.
pub open spec fn may_read(h: HartView, addr: u64, n: u64) -> bool {
    &&& h.mem.translate(addr, h.macc(MemAccessType::Read)) is Some
    &&& h.mem.translate(wrap_add(addr, (n - 1) as u64), h.macc(MemAccessType::Read)) is Some
}

/// The index in memory of the first byte of word `k` of a buffer that the hart
/// writes at virtual address `addr`.
pub open spec fn word_index(h: HartView, addr: u64, k: int) -> int {
    h.mem.resolve(
        wrap_add(addr, (8 * k) as u64),
        8,
        h.macc(MemAccessType::Write),
        false,
    )->Ok_0 - h.mem.base
}

/// Whether the byte at index `x` of memory has the place in its page that a
/// byte of word `k` of a buffer at `addr` has in its own.
pub open spec fn in_word(addr: u64, k: int, x: int) -> bool {
    (x - addr - 8 * k) % 4096 < 8
}

/// A word that the hart can write lies in memory, and at the place in its page
/// that its virtual address has in its own.
pub proof fn lemma_word_index(h: HartView, addr: u64, k: int)
    requires
        h.wf(),
        0 <= k < 512,
        h.mem.resolve(wrap_add(addr, (8 * k) as u64), 8, h.macc(MemAccessType::Write), false) is Ok,
    ensures
        0 <= word_index(h, addr, k),
        word_index(h, addr, k) + 8 <= h.mem.bytes.len(),
        word_index(h, addr, k) % 4096 == (addr + 8 * k) % 4096,
        wrap_add(addr, (8 * k) as u64) % 8 == 0,
{
}

/// The hart after word `k` of a buffer at `addr` got the value `v`.
pub open spec fn after_word(h: HartView, addr: u64, k: int, v: u64) -> HartView {
    HartView {
        mem: h.mem.store(
            h.mem.resolve(
                wrap_add(addr, (8 * k) as u64),
                8,
                h.macc(MemAccessType::Write),
                false,
            )->Ok_0,
            v,
            8,
        ),
        ..h
    }
}

/// Whether hart `b` is hart `a` but for the bytes of memory, of which it has
/// as many.
pub open spec fn same_but_bytes(a: HartView, b: HartView) -> bool {
    &&& b == (HartView { mem: MemView { bytes: b.mem.bytes, ..a.mem }, ..a })
    &&& b.mem.bytes.len() == a.mem.bytes.len()
}

/// `store_words` that returns no trap writes its first word and goes on with
/// the next. The word lies in memory afterwards, and nothing else changed.
pub proof fn lemma_after_word(h: HartView, addr: u64, words: Seq<u64>, from: int)
    requires
        h.wf(),
        0 <= from < words.len() <= 512,
        store_words(h, addr, words, from).1 is Ok,
    ensures
        h.mem.resolve(
            wrap_add(addr, (8 * from) as u64),
            8,
            h.macc(MemAccessType::Write),
            false,
        ) is Ok,
        store_words(h, addr, words, from) == store_words(
            after_word(h, addr, from, words[from]),
            addr,
            words,
            from + 1,
        ),
        same_but_bytes(h, after_word(h, addr, from, words[from])),
        after_word(h, addr, from, words[from]).wf(),
        le64(after_word(h, addr, from, words[from]).mem.bytes, word_index(h, addr, from))
            == words[from],
{
    reveal(store_words);
    lemma_word_index(h, addr, from);
    let i = word_index(h, addr, from);
    lemma_store_len(h.mem.bytes, i, words[from], 8);
    lemma_load_after_store(h.mem.bytes, i, words[from], 8);
}

/// Writing a word leaves every byte outside of it as it was.
pub proof fn lemma_after_word_frame(h: HartView, addr: u64, k: int, v: u64, x: int)
    requires
        h.wf(),
        0 <= k < 512,
        h.mem.resolve(wrap_add(addr, (8 * k) as u64), 8, h.macc(MemAccessType::Write), false) is Ok,
        0 <= x < h.mem.bytes.len(),
        x < word_index(h, addr, k) || x >= word_index(h, addr, k) + 8,
    ensures
        after_word(h, addr, k, v).mem.bytes[x] == h.mem.bytes[x],
{
    lemma_word_index(h, addr, k);
    lemma_store_frame(h.mem.bytes, word_index(h, addr, k), v, 8, x);
}

/// A byte of a word has the place in its page that it has in the buffer, and
/// no place of another word of a buffer of a page or less.
pub proof fn lemma_in_word(addr: u64, k: int, j: int, i: int, x: int)
    requires
        i % 4096 == (addr + 8 * k) % 4096,
        i <= x < i + 8,
        -512 < j - k < 512,
    ensures
        in_word(addr, j, x) <==> j == k,
{
    let d = x - i - 8 * (j - k);
    assert((x - addr - 8 * j) % 4096 == d % 4096);
    if j > k {
        assert(d % 4096 == d + 4096);
    } else if j < k {
        assert(d % 4096 == d);
    } else {
        assert(d % 4096 == d);
    }
}

/// The words of a buffer go where they went before other bytes of memory
/// changed.
pub proof fn lemma_word_index_stays(a: HartView, b: HartView, addr: u64, k: int)
    requires
        same_but_bytes(a, b),
    ensures
        word_index(b, addr, k) == word_index(a, addr, k),
        b.mem.resolve(wrap_add(addr, (8 * k) as u64), 8, b.macc(MemAccessType::Write), false) is Ok
            <==> a.mem.resolve(
            wrap_add(addr, (8 * k) as u64),
            8,
            a.macc(MemAccessType::Write),
            false,
        ) is Ok,
{
}

/// `store_words` changes nothing but the bytes of memory, and not their number.
pub proof fn lemma_store_words_shape(h: HartView, addr: u64, words: Seq<u64>, from: int)
    requires
        h.wf(),
        0 <= from <= words.len() <= 512,
    ensures
        same_but_bytes(h, store_words(h, addr, words, from).0),
    decreases words.len() - from,
{
    reveal(store_words);
    if from < words.len() && h.mem.resolve(
        wrap_add(addr, (8 * from) as u64),
        8,
        h.macc(MemAccessType::Write),
        false,
    ) is Ok {
        lemma_word_index(h, addr, from);
        lemma_store_len(h.mem.bytes, word_index(h, addr, from), words[from], 8);
        lemma_store_words_shape(after_word(h, addr, from, words[from]), addr, words, from + 1);
    }
}

/// `store_words` leaves a byte as it is whose place in its page is that of no
/// byte of the words it writes.
pub proof fn lemma_store_words_frame(h: HartView, addr: u64, words: Seq<u64>, from: int, x: int)
    requires
        h.wf(),
        0 <= from <= words.len() <= 512,
        store_words(h, addr, words, from).1 is Ok,
        0 <= x < h.mem.bytes.len(),
        forall|k: int| from <= k < words.len() ==> !in_word(addr, k, x),
    ensures
        store_words(h, addr, words, from).0.mem.bytes[x] == h.mem.bytes[x],
    decreases words.len() - from,
{
    if from < words.len() {
        lemma_after_word(h, addr, words, from);
        lemma_word_index(h, addr, from);
        let i = word_index(h, addr, from);
        assert(!in_word(addr, from, x));
        if i <= x < i + 8 {
            lemma_in_word(addr, from, from, i, x);
        }
        lemma_after_word_frame(h, addr, from, words[from], x);
        lemma_store_words_frame(after_word(h, addr, from, words[from]), addr, words, from + 1, x);
    } else {
        reveal(store_words);
    }
}

/// Every word that `store_words` wrote without a trap holds its value where
/// its store went: no later word of a buffer of a page or less lands on it,
/// whatever the page table maps.
pub proof fn lemma_store_words_value(h: HartView, addr: u64, words: Seq<u64>, from: int, t: int)
    requires
        h.wf(),
        0 <= from <= t < words.len() <= 512,
        store_words(h, addr, words, from).1 is Ok,
    ensures
        h.mem.resolve(wrap_add(addr, (8 * t) as u64), 8, h.macc(MemAccessType::Write), false) is Ok,
        le64(store_words(h, addr, words, from).0.mem.bytes, word_index(h, addr, t)) == words[t],
    decreases words.len() - from,
{
    lemma_after_word(h, addr, words, from);
    let h1 = after_word(h, addr, from, words[from]);
    let r = store_words(h, addr, words, from).0;
    lemma_store_words_shape(h1, addr, words, from + 1);
    if t == from {
        lemma_word_index(h, addr, from);
        let i = word_index(h, addr, from);
        assert forall|x: int| i <= x < i + 8 implies h1.mem.bytes[x] == r.mem.bytes[x] by {
            assert forall|k: int| from + 1 <= k < words.len() implies !in_word(addr, k, x) by {
                lemma_in_word(addr, from, k, i, x);
            }
            lemma_store_words_frame(h1, addr, words, from + 1, x);
        }
        lemma_load_depends_on_range(h1.mem.bytes, r.mem.bytes, i, 8);
    } else {
        lemma_store_words_value(h1, addr, words, from + 1, t);
        lemma_word_index_stays(h, h1, addr, t);
    }
}

/// What the guest reads back from word `k` of a buffer of a page or less that
/// `store_words` wrote without a trap, where the page of the word permits
/// reading: the word as 64 bits, its low half as the 32 bits at the word's
/// address, its high half as the 32 bits four bytes on.
pub proof fn lemma_store_words_roundtrip(h: HartView, addr: u64, words: Seq<u64>, k: int)
    requires
        h.wf(),
        0 <= k < words.len() <= 512,
        store_words(h, addr, words, 0).1 is Ok,
        h.mem.translate(wrap_add(addr, (8 * k) as u64), h.macc(MemAccessType::Read)) is Some,
    ensures
        ({
            let r = store_words(h, addr, words, 0).0;
            &&& guest_read(r, wrap_add(addr, (8 * k) as u64), 8) == Ok::<u64, Trap>(words[k])
            &&& guest_read(r, wrap_add(addr, (8 * k) as u64), 4) == Ok::<u64, Trap>(
                (words[k] % 0x1_0000_0000) as u64,
            )
            &&& guest_read(r, wrap_add(addr, (8 * k + 4) as u64), 4) == Ok::<u64, Trap>(
                (words[k] / 0x1_0000_0000) as u64,
            )
        }),
{
    lemma_store_words_shape(h, addr, words, 0);
    lemma_store_words_value(h, addr, words, 0, k);
    lemma_word_index(h, addr, k);
    let r = store_words(h, addr, words, 0).0;
    let i = word_index(h, addr, k);
    lemma_read_at_word(h, r, addr, k);
    lemma_load_bound(r.mem.bytes, i, 4);
    lemma_load_bound(r.mem.bytes, i + 4, 4);
}

/// Where the hart can write word `k` of a buffer and the guest may read its
/// page, the guest's loads from the word resolve to where the store went.
pub proof fn lemma_read_at_word(h: HartView, r: HartView, addr: u64, k: int)
    requires
        h.wf(),
        same_but_bytes(h, r),
        0 <= k < 512,
        h.mem.resolve(wrap_add(addr, (8 * k) as u64), 8, h.macc(MemAccessType::Write), false) is Ok,
        h.mem.translate(wrap_add(addr, (8 * k) as u64), h.macc(MemAccessType::Read)) is Some,
    ensures
        r.mem.resolve(wrap_add(addr, (8 * k) as u64), 8, r.macc(MemAccessType::Read), false) == Ok::<
            u64,
            Trap,
        >((word_index(h, addr, k) + h.mem.base) as u64),
        r.mem.resolve(wrap_add(addr, (8 * k) as u64), 4, r.macc(MemAccessType::Read), false) == Ok::<
            u64,
            Trap,
        >((word_index(h, addr, k) + h.mem.base) as u64),
        r.mem.resolve(wrap_add(addr, (8 * k + 4) as u64), 4, r.macc(MemAccessType::Read), false)
            == Ok::<u64, Trap>((word_index(h, addr, k) + h.mem.base + 4) as u64),
{
    let a = wrap_add(addr, (8 * k) as u64);
    let b = wrap_add(addr, (8 * k + 4) as u64);
    assert(a % 8 == 0);
    assert(b == a + 4);
    assert(b / 4096 == a / 4096);
    assert(b % 4096 == a % 4096 + 4);
}

/// What the guest reads back from word `k` of what `store_words` wrote, where
/// the word holds `lo` in its low half and `hi` in its high half.
pub proof fn lemma_halves_roundtrip(
    h: HartView,
    addr: u64,
    words: Seq<u64>,
    k: int,
    lo: u64,
    hi: u64,
)
    requires
        h.wf(),
        0 <= k < words.len() <= 512,
        store_words(h, addr, words, 0).1 is Ok,
        h.mem.translate(wrap_add(addr, (8 * k) as u64), h.macc(MemAccessType::Read)) is Some,
        lo < 0x1_0000_0000,
        hi < 0x1_0000_0000,
        words[k] == lo + 0x1_0000_0000 * hi,
    ensures
        guest_read(store_words(h, addr, words, 0).0, wrap_add(addr, (8 * k) as u64), 4) == Ok::<
            u64,
            Trap,
        >(lo),
        guest_read(store_words(h, addr, words, 0).0, wrap_add(addr, (8 * k + 4) as u64), 4) == Ok::<
            u64,
            Trap,
        >(hi),
{
    lemma_store_words_roundtrip(h, addr, words, k);
}

/// The guest may read every word of a buffer that it may read.
pub proof fn lemma_may_read_word(h: HartView, addr: u64, n: u64, k: int)
    requires
        may_read(h, addr, n),
        addr % 8 == 0,
        0 <= k,
        8 * k + 8 <= n <= 4096,
    ensures
        h.mem.translate(wrap_add(addr, (8 * k) as u64), h.macc(MemAccessType::Read)) is Some,
{
    let a = wrap_add(addr, (8 * k) as u64);
    let z = wrap_add(addr, (n - 1) as u64);
    assert(a / 4096 == addr / 4096 || a / 4096 == z / 4096);
}

/// The words of a `stat` buffer, one by one.
pub proof fn lemma_stat_words(s: GenericStat)
    ensures
        stat_words(s).len() == 16,
        stat_words(s)[0] == s.dev,
        stat_words(s)[1] == s.ino,
        stat_words(s)[2] == s.mode + 0x1_0000_0000 * s.nlink,
        stat_words(s)[3] == s.uid + 0x1_0000_0000 * s.gid,
        stat_words(s)[4] == s.rdev,
        stat_words(s)[5] == 0,
        stat_words(s)[6] == s.size,
        stat_words(s)[7] == s.blksize,
        stat_words(s)[8] == s.blocks,
        stat_words(s)[9] == s.atime,
        stat_words(s)[10] == s.atime_nsec,
        stat_words(s)[11] == s.mtime,
        stat_words(s)[12] == s.mtime_nsec,
        stat_words(s)[13] == s.ctime,
        stat_words(s)[14] == s.ctime_nsec,
        stat_words(s)[15] == 0,
{
}

/// What the guest reads back from a `stat` buffer that it may read: every
/// field, at the offset and with the width of the RISC-V Linux layout,
/// whether virtual addresses are physical ones or go through the page table.
pub proof fn lemma_stat_roundtrip(h: HartView, addr: u64, s: GenericStat)
    requires
        h.wf(),
        store_words(h, addr, stat_words(s), 0).1 is Ok,
        may_read(h, addr, 128),
    ensures
        ({
            let r = store_words(h, addr, stat_words(s), 0).0;
            &&& guest_read(r, addr, 8) == Ok::<u64, Trap>(s.dev)
            &&& guest_read(r, wrap_add(addr, 8), 8) == Ok::<u64, Trap>(s.ino)
            &&& guest_read(r, wrap_add(addr, 16), 4) == Ok::<u64, Trap>(s.mode as u64)
            &&& guest_read(r, wrap_add(addr, 20), 4) == Ok::<u64, Trap>(s.nlink as u64)
            &&& guest_read(r, wrap_add(addr, 24), 4) == Ok::<u64, Trap>(s.uid as u64)
            &&& guest_read(r, wrap_add(addr, 28), 4) == Ok::<u64, Trap>(s.gid as u64)
            &&& guest_read(r, wrap_add(addr, 32), 8) == Ok::<u64, Trap>(s.rdev)
            &&& guest_read(r, wrap_add(addr, 40), 8) == Ok::<u64, Trap>(0)
            &&& guest_read(r, wrap_add(addr, 48), 8) == Ok::<u64, Trap>(s.size)
            &&& guest_read(r, wrap_add(addr, 56), 4) == Ok::<u64, Trap>(s.blksize as u64)
            &&& guest_read(r, wrap_add(addr, 60), 4) == Ok::<u64, Trap>(0)
            &&& guest_read(r, wrap_add(addr, 64), 8) == Ok::<u64, Trap>(s.blocks)
            &&& guest_read(r, wrap_add(addr, 72), 8) == Ok::<u64, Trap>(s.atime)
            &&& guest_read(r, wrap_add(addr, 80), 8) == Ok::<u64, Trap>(s.atime_nsec)
            &&& guest_read(r, wrap_add(addr, 88), 8) == Ok::<u64, Trap>(s.mtime)
            &&& guest_read(r, wrap_add(addr, 96), 8) == Ok::<u64, Trap>(s.mtime_nsec)
            &&& guest_read(r, wrap_add(addr, 104), 8) == Ok::<u64, Trap>(s.ctime)
            &&& guest_read(r, wrap_add(addr, 112), 8) == Ok::<u64, Trap>(s.ctime_nsec)
            &&& guest_read(r, wrap_add(addr, 120), 4) == Ok::<u64, Trap>(0)
            &&& guest_read(r, wrap_add(addr, 124), 4) == Ok::<u64, Trap>(0)
        }),
{
    let w = stat_words(s);
    lemma_stat_words(s);
    lemma_store_words_value(h, addr, w, 0, 0);
    lemma_word_index(h, addr, 0);
    assert(wrap_add(addr, 0) == addr);
    lemma_may_read_word(h, addr, 128, 0);
    lemma_may_read_word(h, addr, 128, 1);
    lemma_may_read_word(h, addr, 128, 2);
    lemma_may_read_word(h, addr, 128, 3);
    lemma_may_read_word(h, addr, 128, 4);
    lemma_may_read_word(h, addr, 128, 5);
    lemma_may_read_word(h, addr, 128, 6);
    lemma_may_read_word(h, addr, 128, 7);
    lemma_may_read_word(h, addr, 128, 8);
    lemma_may_read_word(h, addr, 128, 9);
    lemma_may_read_word(h, addr, 128, 10);
    lemma_may_read_word(h, addr, 128, 11);
    lemma_may_read_word(h, addr, 128, 12);
    lemma_may_read_word(h, addr, 128, 13);
    lemma_may_read_word(h, addr, 128, 14);
    lemma_may_read_word(h, addr, 128, 15);
    lemma_store_words_roundtrip(h, addr, w, 0);
    lemma_store_words_roundtrip(h, addr, w, 1);
    lemma_halves_roundtrip(h, addr, w, 2, s.mode as u64, s.nlink as u64);
    lemma_halves_roundtrip(h, addr, w, 3, s.uid as u64, s.gid as u64);
    lemma_store_words_roundtrip(h, addr, w, 4);
    lemma_store_words_roundtrip(h, addr, w, 5);
    lemma_store_words_roundtrip(h, addr, w, 6);
    lemma_halves_roundtrip(h, addr, w, 7, s.blksize as u64, 0);
    lemma_store_words_roundtrip(h, addr, w, 8);
    lemma_store_words_roundtrip(h, addr, w, 9);
    lemma_store_words_roundtrip(h, addr, w, 10);
    lemma_store_words_roundtrip(h, addr, w, 11);
    lemma_store_words_roundtrip(h, addr, w, 12);
    lemma_store_words_roundtrip(h, addr, w, 13);
    lemma_store_words_roundtrip(h, addr, w, 14);
    lemma_halves_roundtrip(h, addr, w, 15, 0, 0);
}

} // verus!
