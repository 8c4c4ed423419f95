//! Memory access of a hart: reads and writes of 1, 2, 4 or 8 bytes at a virtual
//! or physical address. A failed access gives its trap; a write drops the
//! cached blocks of the page it touches.

use crate::cache::lemma_block_ok_frame;
use crate::defs::Trap;
use crate::hart::{HartView, RiscvInt};
use crate::mem::{lemma_store_frame, lemma_store_len, MemAccessType, valid_size};
use vstd::prelude::*;

verus! {

impl RiscvInt {
    /// Whether, from `old` to `self`, nothing changed in the cache but the
    /// blocks of physical page `page`, which are gone.
    pub open spec fn dropped_page(&self, old: &RiscvInt, page: u64) -> bool {
        &&& self.instr@ == old.instr@.remove(page)
        &&& self.current_block == old.current_block
        &&& self.cache_enabled == old.cache_enabled
        &&& self.stop_translating == old.stop_translating
    }

    /// Writes the low `size` bytes of `val` to physical address `paddr` and
    /// drops the cached blocks of its page.
    #[verifier::rlimit(30)]
    pub fn phys_write(&mut self, paddr: u64, val: u64, size: u64)
        requires
            old(self).wf(),
            valid_size(size),
            paddr % size == 0,
            old(self)@.mem.present(paddr, size),
        ensures
            final(self)@ == (HartView { mem: old(self)@.mem.store(paddr, val, size), ..old(self)@ }),
            final(self).dropped_page(old(self), (paddr / 4096) as u64),
            final(self).wf(),
    {
        broadcast use vstd::std_specs::hash::group_hash_axioms;

        let page: u64 = paddr / 4096;
        self.instr.remove(&page);
        self.memsource.guest_mem.write(paddr, val, size);
        proof {
            let m1 = old(self)@.mem;
            let m2 = self@.mem;
            let i = paddr - m1.base;
            lemma_store_len(m1.bytes, i, val, size);
            assert forall|k: u64, j: int|
                self.instr@.contains_key(k) && 0 <= j < self.instr@[k]@.len() implies crate::cache::block_ok(
                m2,
                k,
                #[trigger] self.instr@[k]@[j],
            ) by {
                assert(k != page);
                assert(old(self).instr@.contains_key(k));
                assert(self.instr@[k] == old(self).instr@[k]);
                assert forall|x: int|
                    0 <= x < m1.bytes.len() && (m1.base + x) / 4096 == k as int implies m1.bytes[x]
                    == m2.bytes[x] by {
                    assert(x < i || x >= i + size);
                    lemma_store_frame(m1.bytes, i, val, size, x);
                }
                lemma_block_ok_frame(m1, m2, k, old(self).instr@[k]@[j]);
            }
        }
    }

    /// Reads `size` bytes at `addr` for an access of kind `access`. A failed
    /// access returns its trap and, where `side_effects` is set, raises it.
    pub fn read_mem(
        &mut self,
        addr: u64,
        size: u64,
        access: MemAccessType,
        is_physical: bool,
        side_effects: bool,
    ) -> (r: Result<u64, Trap>)
        requires
            old(self)@.mem.wf(),
            valid_size(size),
        ensures
            r == (match old(self)@.mem.resolve(addr, size, old(self)@.macc(access), is_physical) {
                Ok(p) => Ok::<u64, Trap>(old(self)@.mem.load(p, size)),
                Err(t) => Err::<u64, Trap>(t),
            }),
            final(self)@ == (match r {
                Err(t) if side_effects => old(self)@.raise(t),
                _ => old(self)@,
            }),
            final(self).same_cache(old(self)),
    {
        let macc = self.gen_mem_cirum(access);
        match self.memsource.resolve(addr, size, macc, is_physical) {
            Ok(p) => {
                let v: u64 = self.memsource.guest_mem.read(p, size);
                proof {
                    crate::mem::lemma_load_bound(self@.mem.bytes, p - self@.mem.base, size);
                }
                Ok(v)
            },
            Err(t) => {
                if side_effects {
                    self.set_trap(t);
                }
                Err(t)
            },
        }
    }

    /// Writes the low `size` bytes of `val` at `addr`. A failed access returns
    /// its trap and, where `side_effects` is set, raises it.
    pub fn write_mem(
        &mut self,
        addr: u64,
        val: u64,
        size: u64,
        is_physical: bool,
        side_effects: bool,
    ) -> (r: Result<(), Trap>)
        requires
            old(self).wf(),
            valid_size(size),
        ensures
            final(self).wf(),
            match old(self)@.mem.resolve(
                addr,
                size,
                old(self)@.macc(MemAccessType::Write),
                is_physical,
            ) {
                Ok(p) => r == Ok::<(), Trap>(()) && final(self)@ == (HartView {
                    mem: old(self)@.mem.store(p, val, size),
                    ..old(self)@
                }) && final(self).dropped_page(old(self), (p / 4096) as u64),
                Err(t) => r == Err::<(), Trap>(t) && final(self)@ == (if side_effects {
                    old(self)@.raise(t)
                } else {
                    old(self)@
                }) && final(self).same_cache(old(self)),
            },
    {
        let macc = self.gen_mem_cirum(MemAccessType::Write);
        match self.memsource.resolve(addr, size, macc, is_physical) {
            Ok(p) => {
                proof {
                    lemma_resolve_aligned(self@, addr, size, macc, is_physical);
                }
                self.phys_write(p, val, size);
                Ok(())
            },
            Err(t) => {
                if side_effects {
                    self.set_trap(t);
                }
                Err(t)
            },
        }
    }

    /// Reads the byte at `addr` as a load.
    pub fn read8(&mut self, addr: u64, is_physical: bool, side_effects: bool) -> (r: Result<
        u8,
        Trap,
    >)
        requires
            old(self)@.mem.wf(),
        ensures
            r == (match old(self)@.mem.resolve(
                addr,
                1,
                old(self)@.macc(MemAccessType::Read),
                is_physical,
            ) {
                Ok(p) => Ok::<u8, Trap>(old(self)@.mem.load(p, 1) as u8),
                Err(t) => Err::<u8, Trap>(t),
            }),
            final(self)@ == (match r {
                Err(t) if side_effects => old(self)@.raise(t),
                _ => old(self)@,
            }),
            final(self).same_cache(old(self)),
    {
        match self.read_mem(addr, 1, MemAccessType::Read, is_physical, side_effects) {
            Ok(v) => Ok(v as u8),
            Err(t) => Err(t),
        }
    }

    /// Reads the 16 bits at `addr` as a load.
    pub fn read16(&mut self, addr: u64, is_physical: bool, side_effects: bool) -> (r: Result<
        u16,
        Trap,
    >)
        requires
            old(self)@.mem.wf(),
        ensures
            r == (match old(self)@.mem.resolve(
                addr,
                2,
                old(self)@.macc(MemAccessType::Read),
                is_physical,
            ) {
                Ok(p) => Ok::<u16, Trap>(old(self)@.mem.load(p, 2) as u16),
                Err(t) => Err::<u16, Trap>(t),
            }),
            final(self)@ == (match r {
                Err(t) if side_effects => old(self)@.raise(t),
                _ => old(self)@,
            }),
            final(self).same_cache(old(self)),
    {
        match self.read_mem(addr, 2, MemAccessType::Read, is_physical, side_effects) {
            Ok(v) => Ok(v as u16),
            Err(t) => Err(t),
        }
    }

    /// Reads the 32 bits at `addr` as a load.
    pub fn read32(&mut self, addr: u64, is_physical: bool, side_effects: bool) -> (r: Result<
        u32,
        Trap,
    >)
        requires
            old(self)@.mem.wf(),
        ensures
            r == (match old(self)@.mem.resolve(
                addr,
                4,
                old(self)@.macc(MemAccessType::Read),
                is_physical,
            ) {
                Ok(p) => Ok::<u32, Trap>(old(self)@.mem.load(p, 4) as u32),
                Err(t) => Err::<u32, Trap>(t),
            }),
            final(self)@ == (match r {
                Err(t) if side_effects => old(self)@.raise(t),
                _ => old(self)@,
            }),
            final(self).same_cache(old(self)),
    {
        match self.read_mem(addr, 4, MemAccessType::Read, is_physical, side_effects) {
            Ok(v) => Ok(v as u32),
            Err(t) => Err(t),
        }
    }

    /// Reads the 64 bits at `addr` as a load.
    pub fn read64(&mut self, addr: u64, is_physical: bool, side_effects: bool) -> (r: Result<
        u64,
        Trap,
    >)
        requires
            old(self)@.mem.wf(),
        ensures
            r == (match old(self)@.mem.resolve(
                addr,
                8,
                old(self)@.macc(MemAccessType::Read),
                is_physical,
            ) {
                Ok(p) => Ok::<u64, Trap>(old(self)@.mem.load(p, 8)),
                Err(t) => Err::<u64, Trap>(t),
            }),
            final(self)@ == (match r {
                Err(t) if side_effects => old(self)@.raise(t),
                _ => old(self)@,
            }),
            final(self).same_cache(old(self)),
    {
        self.read_mem(addr, 8, MemAccessType::Read, is_physical, side_effects)
    }
}

/// Whether `new` and `r` are what a write of the low `size` bytes of `val` at
/// `addr` makes of hart `old`: where the access resolves, memory holds the
/// bytes and the blocks of the written page are gone; where it fails, `r` is
/// its trap, which is pending if `side_effects` is set.
pub open spec fn wrote(
    old: &RiscvInt,
    new: &RiscvInt,
    r: Result<(), Trap>,
    addr: u64,
    val: u64,
    size: u64,
    is_physical: bool,
    side_effects: bool,
) -> bool {
    match old@.mem.resolve(addr, size, old@.macc(MemAccessType::Write), is_physical) {
        Ok(p) => r == Ok::<(), Trap>(()) && new@ == (HartView {
            mem: old@.mem.store(p, val, size),
            ..old@
        }) && new.dropped_page(old, (p / 4096) as u64),
        Err(t) => r == Err::<(), Trap>(t) && new@ == (if side_effects {
            old@.raise(t)
        } else {
            old@
        }) && new.same_cache(old),
    }
}

impl RiscvInt {
    /// Writes the byte `val` at `addr`.
    pub fn write8(&mut self, addr: u64, val: u8, is_physical: bool, side_effects: bool) -> (r: Result<
        (),
        Trap,
    >)
        requires
            old(self).wf(),
        ensures
            final(self).wf(),
            wrote(old(self), final(self), r, addr, val as u64, 1, is_physical, side_effects),
    {
        self.write_mem(addr, val as u64, 1, is_physical, side_effects)
    }

    /// Writes the 16 bits of `val` at `addr`.
    pub fn write16(&mut self, addr: u64, val: u16, is_physical: bool, side_effects: bool) -> (r:
        Result<(), Trap>)
        requires
            old(self).wf(),
        ensures
            final(self).wf(),
            wrote(old(self), final(self), r, addr, val as u64, 2, is_physical, side_effects),
    {
        self.write_mem(addr, val as u64, 2, is_physical, side_effects)
    }

    /// Writes the 32 bits of `val` at `addr`.
    pub fn write32(&mut self, addr: u64, val: u32, is_physical: bool, side_effects: bool) -> (r:
        Result<(), Trap>)
        requires
            old(self).wf(),
        ensures
            final(self).wf(),
            wrote(old(self), final(self), r, addr, val as u64, 4, is_physical, side_effects),
    {
        self.write_mem(addr, val as u64, 4, is_physical, side_effects)
    }

    /// Writes the 64 bits of `val` at `addr`.
    pub fn write64(&mut self, addr: u64, val: u64, is_physical: bool, side_effects: bool) -> (r:
        Result<(), Trap>)
        requires
            old(self).wf(),
        ensures
            final(self).wf(),
            wrote(old(self), final(self), r, addr, val, 8, is_physical, side_effects),
    {
        self.write_mem(addr, val, 8, is_physical, side_effects)
    }
}

/// Where an access resolves, its physical address is aligned to its size.
pub proof fn lemma_resolve_aligned(
    h: HartView,
    addr: u64,
    size: u64,
    macc: crate::mem::MemAccessCircumstances,
    is_physical: bool,
)
    requires
        valid_size(size),
    ensures
        h.mem.resolve(addr, size, macc, is_physical) matches Ok(p) ==> p % size == 0,
{
    if addr % size == 0 && !is_physical && h.mem.paging_active(macc.prv) {
        let vpn = addr / 4096;
        let off = addr % 4096;
        if h.mem.pages.contains_key(vpn) && h.mem.pages[vpn].ppn <= crate::mem::MAX_PPN {
            let ppn = h.mem.pages[vpn].ppn;
            let p = ppn * 4096 + off;
            assert(addr == 4096 * vpn + off);
            if size == 2 {
                assert(off % 2 == 0);
                assert(p % 2 == 0);
            } else if size == 4 {
                assert(off % 4 == 0);
                assert(p % 4 == 0);
            } else if size == 8 {
                assert(off % 8 == 0);
                assert(p % 8 == 0);
            }
        }
    }
}

} // verus!
