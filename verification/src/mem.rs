//! Guest memory: a flat, little-endian physical memory, a table that maps virtual
//! pages to physical pages, and the checks that turn a failed access into a trap.

use crate::defs::{Exception, Priv, Trap, Xlen};
use std::collections::HashMap;
use vstd::prelude::*;

verus! {

/// Largest physical page number that a mapping may name.
pub const MAX_PPN: u64 = 0xf_ffff_ffff_ffff;

/// What an access is for.
#[derive(Clone, Copy, Debug, PartialEq, Eq, Structural)]
pub enum MemAccessType {
    Execute,
    Read,
    Write,
}

/// An access kind together with the privilege level that makes the access.
#[derive(Clone, Copy, Debug, PartialEq, Eq, Structural)]
pub struct MemAccessCircumstances {
    pub access: MemAccessType,
    pub prv: Priv,
}

/// One entry of the page table: the physical page and what may be done with it.
#[derive(Clone, Copy, Debug, PartialEq, Eq, Structural)]
pub struct PageMapping {
    pub ppn: u64,
    pub read: bool,
    pub write: bool,
    pub execute: bool,
}

/// Flat physical memory: `bytes[i]` is the byte at physical address `base + i`.
pub struct GuestMemory {
    pub base: u64,
    pub bytes: Vec<u8>,
}

/// The memory subsystem of one hart.
pub struct RiscVMem {
    pub xlen: Xlen,
    pub usermode: bool,
    pub guest_mem: GuestMemory,
    /// Whether addresses below machine privilege go through `pages`.
    pub paging: bool,
    /// Virtual page number to mapping.
    pub pages: HashMap<u64, PageMapping>,
}

/// Mathematical model of `RiscVMem`.
pub struct MemView {
    pub xlen: Xlen,
    pub usermode: bool,
    pub base: u64,
    pub bytes: Seq<u8>,
    pub paging: bool,
    pub pages: Map<u64, PageMapping>,
}

/// The 16-bit little-endian value at index `i`.
pub open spec fn le16(bytes: Seq<u8>, i: int) -> int {
    bytes[i] + 256 * bytes[i + 1]
}

/// The 32-bit little-endian value at index `i`.
pub open spec fn le32(bytes: Seq<u8>, i: int) -> int {
    le16(bytes, i) + 0x1_0000 * le16(bytes, i + 2)
}

/// The 64-bit little-endian value at index `i`.
pub open spec fn le64(bytes: Seq<u8>, i: int) -> int {
    le32(bytes, i) + 0x1_0000_0000 * le32(bytes, i + 4)
}

/// The little-endian value of `size` bytes (1, 2, 4 or 8) at index `i`.
pub open spec fn le_load(bytes: Seq<u8>, i: int, size: u64) -> int {
    if size == 1 {
        bytes[i] as int
    } else if size == 2 {
        le16(bytes, i)
    } else if size == 4 {
        le32(bytes, i)
    } else {
        le64(bytes, i)
    }
}

/// `bytes` with `v`, a value below 256, at index `i`.
pub open spec fn put8(bytes: Seq<u8>, i: int, v: int) -> Seq<u8> {
    bytes.update(i, v as u8)
}

/// `bytes` with `v`, a value below 2^16, at index `i`, little-endian.
pub open spec fn put16(bytes: Seq<u8>, i: int, v: int) -> Seq<u8> {
    put8(put8(bytes, i, v % 256), i + 1, v / 256)
}

/// `bytes` with `v`, a value below 2^32, at index `i`, little-endian.
pub open spec fn put32(bytes: Seq<u8>, i: int, v: int) -> Seq<u8> {
    put16(put16(bytes, i, v % 0x1_0000), i + 2, v / 0x1_0000)
}

/// `bytes` with `v`, a value below 2^64, at index `i`, little-endian.
pub open spec fn put64(bytes: Seq<u8>, i: int, v: int) -> Seq<u8> {
    put32(put32(bytes, i, v % 0x1_0000_0000), i + 4, v / 0x1_0000_0000)
}

/// `bytes` with the low `size` bytes (1, 2, 4 or 8) of `v` at index `i`.
pub open spec fn le_store(bytes: Seq<u8>, i: int, v: u64, size: u64) -> Seq<u8> {
    if size == 1 {
        put8(bytes, i, (v % 0x100) as int)
    } else if size == 2 {
        put16(bytes, i, (v % 0x1_0000) as int)
    } else if size == 4 {
        put32(bytes, i, (v % 0x1_0000_0000) as int)
    } else {
        put64(bytes, i, v as int)
    }
}

/// The value that `size` bytes can hold of `v`: `v` modulo `256^size`.
pub open spec fn truncate_to(v: u64, size: u64) -> int {
    if size == 1 {
        (v % 0x100) as int
    } else if size == 2 {
        (v % 0x1_0000) as int
    } else if size == 4 {
        (v % 0x1_0000_0000) as int
    } else {
        v as int
    }
}

/// Whether `size` is the size of an access: 1, 2, 4 or 8 bytes.
pub open spec fn valid_size(size: u64) -> bool {
    size == 1 || size == 2 || size == 4 || size == 8
}

impl MemView {
    /// Memory starts and ends on a page boundary and ends below the last page
    /// of the address space.
    pub open spec fn wf(self) -> bool {
        &&& self.base % 4096 == 0
        &&& self.bytes.len() % 4096 == 0
        &&& self.base + self.bytes.len() < 0x1_0000_0000_0000_0000
    }

    /// Whether the `n` bytes at physical address `paddr` lie in memory.
    pub open spec fn present(self, paddr: u64, n: u64) -> bool {
        self.base <= paddr && paddr - self.base + n <= self.bytes.len()
    }

    /// Whether the page that holds physical address `paddr` lies in memory.
    pub open spec fn page_present(self, paddr: u64) -> bool {
        self.base <= paddr && paddr - self.base < self.bytes.len()
    }

    /// The value of `size` bytes at physical address `paddr`.
    pub open spec fn load(self, paddr: u64, size: u64) -> u64 {
        le_load(self.bytes, paddr - self.base, size) as u64
    }

    /// Memory after `size` bytes of `v` went to physical address `paddr`.
    pub open spec fn store(self, paddr: u64, v: u64, size: u64) -> MemView {
        MemView { bytes: le_store(self.bytes, paddr - self.base, v, size), ..self }
    }

    /// Whether virtual addresses go through the page table at privilege `prv`.
    pub open spec fn paging_active(self, prv: Priv) -> bool {
        self.paging && prv != Priv::Machine
    }

    /// The physical address of `vaddr`, or `None` where no mapping permits the
    /// access.
    pub open spec fn translate(self, vaddr: u64, macc: MemAccessCircumstances) -> Option<u64> {
        if !self.paging_active(macc.prv) {
            Some(vaddr)
        } else {
            let vpn = vaddr / 4096;
            if self.pages.contains_key(vpn) && permits(self.pages[vpn], macc.access)
                && self.pages[vpn].ppn <= MAX_PPN {
                Some((self.pages[vpn].ppn * 4096 + vaddr % 4096) as u64)
            } else {
                None
            }
        }
    }

    /// The physical address of an access of `size` bytes at `addr`, or the trap
    /// that the access raises: misaligned, no mapping, or outside memory, in that
    /// order.
    pub open spec fn resolve(
        self,
        addr: u64,
        size: u64,
        macc: MemAccessCircumstances,
        is_physical: bool,
    ) -> Result<u64, Trap> {
        if addr % size != 0 {
            Err(misaligned_trap(macc.access, addr))
        } else {
            let p = if is_physical {
                Some(addr)
            } else {
                self.translate(addr, macc)
            };
            match p {
                None => Err(page_fault_trap(macc.access, addr)),
                Some(paddr) => if self.present(paddr, size) {
                    Ok(paddr)
                } else {
                    Err(access_fault_trap(macc.access, addr))
                },
            }
        }
    }
}

/// Whether a mapping permits an access of the given kind.
pub open spec fn permits(pm: PageMapping, access: MemAccessType) -> bool {
    match access {
        MemAccessType::Execute => pm.execute,
        MemAccessType::Read => pm.read,
        MemAccessType::Write => pm.write,
    }
}

/// The trap of an access that is not aligned to its size.
pub open spec fn misaligned_trap(access: MemAccessType, addr: u64) -> Trap {
    Trap {
        ttype: match access {
            MemAccessType::Execute => Exception::InstructionAddressMisaligned,
            MemAccessType::Read => Exception::LoadAddressMisaligned,
            MemAccessType::Write => Exception::StoreAddressMisaligned,
        },
        val: addr,
    }
}

/// The trap of an access that no mapping permits.
pub open spec fn page_fault_trap(access: MemAccessType, addr: u64) -> Trap {
    Trap {
        ttype: match access {
            MemAccessType::Execute => Exception::InstructionPageFault,
            MemAccessType::Read => Exception::LoadPageFault,
            MemAccessType::Write => Exception::StorePageFault,
        },
        val: addr,
    }
}

/// The trap of an access that falls outside physical memory.
pub open spec fn access_fault_trap(access: MemAccessType, addr: u64) -> Trap {
    Trap {
        ttype: match access {
            MemAccessType::Execute => Exception::InstructionAccessFault,
            MemAccessType::Read => Exception::LoadAccessFault,
            MemAccessType::Write => Exception::StoreAccessFault,
        },
        val: addr,
    }
}

/// The trap of an access that is not aligned to its size.
pub fn misaligned(access: MemAccessType, addr: u64) -> (t: Trap)
    ensures
        t == misaligned_trap(access, addr),
{
    Trap {
        ttype: match access {
            MemAccessType::Execute => Exception::InstructionAddressMisaligned,
            MemAccessType::Read => Exception::LoadAddressMisaligned,
            MemAccessType::Write => Exception::StoreAddressMisaligned,
        },
        val: addr,
    }
}

/// The trap of an access that no mapping permits.
pub fn page_fault(access: MemAccessType, addr: u64) -> (t: Trap)
    ensures
        t == page_fault_trap(access, addr),
{
    Trap {
        ttype: match access {
            MemAccessType::Execute => Exception::InstructionPageFault,
            MemAccessType::Read => Exception::LoadPageFault,
            MemAccessType::Write => Exception::StorePageFault,
        },
        val: addr,
    }
}

/// The trap of an access that falls outside physical memory.
pub fn access_fault(access: MemAccessType, addr: u64) -> (t: Trap)
    ensures
        t == access_fault_trap(access, addr),
{
    Trap {
        ttype: match access {
            MemAccessType::Execute => Exception::InstructionAccessFault,
            MemAccessType::Read => Exception::LoadAccessFault,
            MemAccessType::Write => Exception::StoreAccessFault,
        },
        val: addr,
    }
}

impl GuestMemory {
    /// Memory starts and ends on a page boundary and ends below the last page
    /// of the address space.
    pub open spec fn wf(&self) -> bool {
        &&& self.base % 4096 == 0
        &&& self.bytes@.len() % 4096 == 0
        &&& self.base + self.bytes@.len() < 0x1_0000_0000_0000_0000
    }

    /// Whether the `n` bytes at physical address `paddr` lie in memory.
    pub open spec fn present(&self, paddr: u64, n: u64) -> bool {
        self.base <= paddr && paddr - self.base + n <= self.bytes@.len()
    }

    /// Memory without a single byte, at address 0.
    pub fn empty() -> (m: GuestMemory)
        ensures
            m.wf(),
            m.base == 0,
            m.bytes@.len() == 0,
    {
        GuestMemory { base: 0, bytes: Vec::new() }
    }

    /// Memory that holds `bytes` from physical address `base` on. `None` unless
    /// `base` and the length are multiples of the page size and the memory ends
    /// below the end of the address space.
    pub fn from_bytes(base: u64, bytes: Vec<u8>) -> (r: Option<GuestMemory>)
        ensures
            r is Some <==> (base % 4096 == 0 && bytes@.len() % 4096 == 0 && base + bytes@.len()
                < 0x1_0000_0000_0000_0000),
            r matches Some(m) ==> m.wf() && m.base == base && m.bytes@ == bytes@,
    {
        let len: usize = bytes.len();
        if base % 4096 != 0 || len % 4096 != 0 {
            return None;
        }
        if len as u128 + base as u128 >= 0x1_0000_0000_0000_0000u128 {
            return None;
        }
        Some(GuestMemory { base, bytes })
    }

    /// Zero-filled memory of `pages` pages from physical address `base` on.
    /// `None` unless `base` is a multiple of the page size and the memory fits
    /// below the end of the address space.
    pub fn new(base: u64, pages: usize) -> (r: Option<GuestMemory>)
        ensures
            r is Some <==> (base % 4096 == 0 && pages * 4096 <= usize::MAX && base + pages * 4096
                < 0x1_0000_0000_0000_0000),
            r matches Some(m) ==> m.wf() && m.base == base && m.bytes@.len() == pages * 4096
                && forall|i: int| 0 <= i < m.bytes@.len() ==> m.bytes@[i] == 0,
    {
        if base % 4096 != 0 || pages > usize::MAX / 4096 {
            return None;
        }
        let len: usize = pages * 4096;
        if len as u128 + base as u128 >= 0x1_0000_0000_0000_0000u128 {
            return None;
        }
        let mut bytes: Vec<u8> = Vec::new();
        let mut i: usize = 0;
        while i < len
            invariant
                i <= len,
                bytes@.len() == i,
                forall|j: int| 0 <= j < i ==> bytes@[j] == 0,
            decreases len - i,
        {
            bytes.push(0u8);
            i += 1;
        }
        Some(GuestMemory { base, bytes })
    }

    /// Whether the `n` bytes at `paddr` lie in memory.
    pub fn contains(&self, paddr: u64, n: u64) -> (b: bool)
        ensures
            b == self.present(paddr, n),
    {
        paddr >= self.base && (paddr - self.base) as u128 + n as u128 <= self.bytes.len() as u128
    }

    /// The byte at `paddr`.
    pub fn read_u8(&self, paddr: u64) -> (v: u8)
        requires
            self.wf(),
            self.present(paddr, 1),
        ensures
            v == self.bytes@[paddr - self.base],
    {
        let len: usize = self.bytes.len();
        let i: usize = (paddr - self.base) as usize;
        self.bytes[i]
    }

    /// The 16 bits at `paddr`, little-endian.
    pub fn read_u16(&self, paddr: u64) -> (v: u16)
        requires
            self.wf(),
            self.present(paddr, 2),
        ensures
            v == le16(self.bytes@, paddr - self.base),
    {
        let len: usize = self.bytes.len();
        let i: usize = (paddr - self.base) as usize;
        let lo: u16 = self.bytes[i] as u16;
        let hi: u16 = self.bytes[i + 1] as u16;
        lo + 256 * hi
    }

    /// The 32 bits at `paddr`, little-endian.
    pub fn read_u32(&self, paddr: u64) -> (v: u32)
        requires
            self.wf(),
            self.present(paddr, 4),
        ensures
            v == le32(self.bytes@, paddr - self.base),
    {
        let lo: u32 = self.read_u16(paddr) as u32;
        let hi: u32 = self.read_u16(paddr + 2) as u32;
        lo + 0x1_0000 * hi
    }

    /// The 64 bits at `paddr`, little-endian.
    pub fn read_u64(&self, paddr: u64) -> (v: u64)
        requires
            self.wf(),
            self.present(paddr, 8),
        ensures
            v == le64(self.bytes@, paddr - self.base),
    {
        let lo: u64 = self.read_u32(paddr) as u64;
        let hi: u64 = self.read_u32(paddr + 4) as u64;
        lo + 0x1_0000_0000 * hi
    }

    /// The value of `size` bytes at `paddr`, zero-extended.
    pub fn read(&self, paddr: u64, size: u64) -> (v: u64)
        requires
            valid_size(size),
            self.wf(),
            self.present(paddr, size),
        ensures
            v == le_load(self.bytes@, paddr - self.base, size),
    {
        if size == 1 {
            self.read_u8(paddr) as u64
        } else if size == 2 {
            self.read_u16(paddr) as u64
        } else if size == 4 {
            self.read_u32(paddr) as u64
        } else {
            self.read_u64(paddr)
        }
    }

    /// Writes a byte at `paddr`.
    pub fn write_u8(&mut self, paddr: u64, v: u8)
        requires
            old(self).wf(),
            old(self).present(paddr, 1),
        ensures
            final(self).base == old(self).base,
            final(self).bytes@ == old(self).bytes@.update(paddr - old(self).base, v),
    {
        let len: usize = self.bytes.len();
        let i: usize = (paddr - self.base) as usize;
        self.bytes.set(i, v);
    }

    /// Writes 16 bits at `paddr`, little-endian.
    pub fn write_u16(&mut self, paddr: u64, v: u16)
        requires
            old(self).wf(),
            old(self).present(paddr, 2),
        ensures
            final(self).base == old(self).base,
            final(self).bytes@ == put16(old(self).bytes@, paddr - old(self).base, v as int),
    {
        self.write_u8(paddr, (v % 256) as u8);
        self.write_u8(paddr + 1, (v / 256) as u8);
    }

    /// Writes 32 bits at `paddr`, little-endian.
    pub fn write_u32(&mut self, paddr: u64, v: u32)
        requires
            old(self).wf(),
            old(self).present(paddr, 4),
        ensures
            final(self).base == old(self).base,
            final(self).bytes@ == put32(old(self).bytes@, paddr - old(self).base, v as int),
    {
        self.write_u16(paddr, (v % 0x1_0000) as u16);
        self.write_u16(paddr + 2, (v / 0x1_0000) as u16);
    }

    /// Writes 64 bits at `paddr`, little-endian.
    pub fn write_u64(&mut self, paddr: u64, v: u64)
        requires
            old(self).wf(),
            old(self).present(paddr, 8),
        ensures
            final(self).base == old(self).base,
            final(self).bytes@ == put64(old(self).bytes@, paddr - old(self).base, v as int),
    {
        self.write_u32(paddr, (v % 0x1_0000_0000) as u32);
        self.write_u32(paddr + 4, (v / 0x1_0000_0000) as u32);
    }

    /// Writes the low `size` bytes of `v` at `paddr`.
    pub fn write(&mut self, paddr: u64, v: u64, size: u64)
        requires
            valid_size(size),
            old(self).wf(),
            old(self).present(paddr, size),
        ensures
            final(self).base == old(self).base,
            final(self).bytes@ == le_store(old(self).bytes@, paddr - old(self).base, v, size),
            final(self).bytes@.len() == old(self).bytes@.len(),
    {
        proof {
            lemma_store_len(self.bytes@, paddr - self.base, v, size);
        }
        if size == 1 {
            self.write_u8(paddr, (v % 0x100) as u8);
        } else if size == 2 {
            self.write_u16(paddr, (v % 0x1_0000) as u16);
        } else if size == 4 {
            self.write_u32(paddr, (v % 0x1_0000_0000) as u32);
        } else {
            self.write_u64(paddr, v);
        }
    }
}

/// A store changes no length.
pub proof fn lemma_store_len(bytes: Seq<u8>, i: int, v: u64, size: u64)
    requires
        valid_size(size),
        0 <= i,
        i + size <= bytes.len(),
    ensures
        le_store(bytes, i, v, size).len() == bytes.len(),
{
}

/// A store changes only the bytes it covers.
pub proof fn lemma_store_frame(bytes: Seq<u8>, i: int, v: u64, size: u64, j: int)
    requires
        valid_size(size),
        0 <= i,
        i + size <= bytes.len(),
        0 <= j < bytes.len(),
        j < i || j >= i + size,
    ensures
        le_store(bytes, i, v, size)[j] == bytes[j],
{
}

/// What was stored is what a load of the same size at the same place returns.
pub proof fn lemma_load_after_store(bytes: Seq<u8>, i: int, v: u64, size: u64)
    requires
        valid_size(size),
        0 <= i,
        i + size <= bytes.len(),
    ensures
        le_load(le_store(bytes, i, v, size), i, size) == truncate_to(v, size),
{
}

/// A load sees only the bytes it covers.
pub proof fn lemma_load_depends_on_range(a: Seq<u8>, b: Seq<u8>, i: int, size: u64)
    requires
        valid_size(size),
        0 <= i,
        i + size <= a.len(),
        a.len() == b.len(),
        forall|k: int| i <= k < i + size ==> a[k] == b[k],
    ensures
        le_load(a, i, size) == le_load(b, i, size),
{
}

/// A load of `size` bytes fits in `size` bytes.
pub proof fn lemma_load_bound(bytes: Seq<u8>, i: int, size: u64)
    requires
        valid_size(size),
        0 <= i,
        i + size <= bytes.len(),
    ensures
        0 <= le_load(bytes, i, size),
        size == 1 ==> le_load(bytes, i, size) < 0x100,
        size == 2 ==> le_load(bytes, i, size) < 0x1_0000,
        size == 4 ==> le_load(bytes, i, size) < 0x1_0000_0000,
        le_load(bytes, i, size) < 0x1_0000_0000_0000_0000,
{
}

impl View for RiscVMem {
    type V = MemView;

    open spec fn view(&self) -> MemView {
        MemView {
            xlen: self.xlen,
            usermode: self.usermode,
            base: self.guest_mem.base,
            bytes: self.guest_mem.bytes@,
            paging: self.paging,
            pages: self.pages@,
        }
    }
}

impl RiscVMem {
    /// The memory of a hart that runs a whole system from `vm_mem`: no paging, no
    /// mapping.
    pub fn new_system(xlen: Xlen, vm_mem: GuestMemory) -> (m: RiscVMem)
        ensures
            m@ == (MemView {
                xlen,
                usermode: false,
                base: vm_mem.base,
                bytes: vm_mem.bytes@,
                paging: false,
                pages: Map::<u64, PageMapping>::empty(),
            }),
    {
        RiscVMem { xlen, usermode: false, guest_mem: vm_mem, paging: false, pages: HashMap::new() }
    }

    /// The memory of a hart that runs one user process: empty until an image is
    /// attached, no paging.
    pub fn new_usermode(xlen: Xlen) -> (m: RiscVMem)
        ensures
            m@ == (MemView {
                xlen,
                usermode: true,
                base: 0,
                bytes: Seq::<u8>::empty(),
                paging: false,
                pages: Map::<u64, PageMapping>::empty(),
            }),
    {
        let m = RiscVMem {
            xlen,
            usermode: true,
            guest_mem: GuestMemory::empty(),
            paging: false,
            pages: HashMap::new(),
        };
        assert(m@.bytes =~= Seq::<u8>::empty());
        m
    }

    /// Maps virtual page `vpn`.
    pub fn map_page(&mut self, vpn: u64, mapping: PageMapping)
        ensures
            final(self)@ == (MemView { pages: old(self)@.pages.insert(vpn, mapping), ..old(self)@ }),
    {
        broadcast use vstd::std_specs::hash::group_hash_axioms;

        self.pages.insert(vpn, mapping);
    }

    /// Removes the mapping of virtual page `vpn`, if there is one.
    pub fn unmap_page(&mut self, vpn: u64)
        ensures
            final(self)@ == (MemView { pages: old(self)@.pages.remove(vpn), ..old(self)@ }),
    {
        broadcast use vstd::std_specs::hash::group_hash_axioms;

        self.pages.remove(&vpn);
    }

    /// The physical address of `vaddr` for the access `macc`; where no mapping
    /// permits the access, the page fault of that access at `vaddr`.
    pub fn virt2phys(&self, vaddr: u64, macc: MemAccessCircumstances) -> (r: Result<u64, Trap>)
        ensures
            r == match self@.translate(vaddr, macc) {
                Some(p) => Ok::<u64, Trap>(p),
                None => Err::<u64, Trap>(page_fault_trap(macc.access, vaddr)),
            },
    {
        broadcast use vstd::std_specs::hash::group_hash_axioms;

        let machine: bool = match macc.prv {
            Priv::Machine => true,
            _ => false,
        };
        if !self.paging || machine {
            return Ok(vaddr);
        }
        let vpn: u64 = vaddr / 4096;
        match self.pages.get(&vpn) {
            None => Err(page_fault(macc.access, vaddr)),
            Some(pm) => {
                let allowed: bool = match macc.access {
                    MemAccessType::Execute => pm.execute,
                    MemAccessType::Read => pm.read,
                    MemAccessType::Write => pm.write,
                };
                if allowed && pm.ppn <= MAX_PPN {
                    Ok(pm.ppn * 4096 + vaddr % 4096)
                } else {
                    Err(page_fault(macc.access, vaddr))
                }
            },
        }
    }

    /// The physical address of an access of `size` bytes at `addr`, or the trap
    /// it raises.
    pub fn resolve(
        &self,
        addr: u64,
        size: u64,
        macc: MemAccessCircumstances,
        is_physical: bool,
    ) -> (r: Result<u64, Trap>)
        requires
            valid_size(size),
        ensures
            r == self@.resolve(addr, size, macc, is_physical),
    {
        if addr % size != 0 {
            return Err(misaligned(macc.access, addr));
        }
        let paddr: u64 = if is_physical {
            addr
        } else {
            match self.virt2phys(addr, macc) {
                Ok(p) => p,
                Err(t) => {
                    return Err(t);
                },
            }
        };
        if self.guest_mem.contains(paddr, size) {
            Ok(paddr)
        } else {
            Err(access_fault(macc.access, addr))
        }
    }
}

} // verus!
