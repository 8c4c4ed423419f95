use riscv_interp::mem::{MemAccessCircumstances, MAX_PPN};
use riscv_interp::{
    Exception, GuestMemory, MemAccessType, PageMapping, Priv, RiscVMem, RiscvInt, Trap,
    UserModeRuntime, Xlen,
};

fn macc(access: MemAccessType, prv: Priv) -> MemAccessCircumstances {
    MemAccessCircumstances { access, prv }
}

#[test]
fn guest_memory_must_be_page_granular() {
    let m = GuestMemory::new(0x1000, 3).unwrap();
    assert_eq!(m.base, 0x1000);
    assert_eq!(m.bytes.len(), 3 * 4096);
    assert!(m.bytes.iter().all(|b| *b == 0));
    assert!(GuestMemory::new(0x1001, 1).is_none());
    assert!(GuestMemory::new(0x800, 1).is_none());
    assert!(GuestMemory::new(0xffff_ffff_ffff_f000, 1).is_none());
    assert!(GuestMemory::new(0xffff_ffff_ffff_e000, 1).is_some());
    assert!(GuestMemory::new(0, 0).is_some());
    assert!(GuestMemory::new(0x1000, usize::MAX).is_none());

    assert!(GuestMemory::from_bytes(0x2000, vec![7u8; 4096]).is_some());
    assert!(GuestMemory::from_bytes(0x2000, vec![7u8; 4095]).is_none());
    assert!(GuestMemory::from_bytes(0x2004, vec![7u8; 4096]).is_none());
    assert!(GuestMemory::from_bytes(0xffff_ffff_ffff_f000, vec![7u8; 4096]).is_none());
    let m = GuestMemory::from_bytes(0x2000, vec![7u8; 8192]).unwrap();
    assert_eq!(m.base, 0x2000);
    assert_eq!(m.bytes, vec![7u8; 8192]);
    let e = GuestMemory::empty();
    assert_eq!(e.base, 0);
    assert!(e.bytes.is_empty());
}

#[test]
fn guest_memory_is_little_endian() {
    let mut m = GuestMemory::new(0x1000, 1).unwrap();
    m.write_u32(0x1000, 0x1122_3344);
    assert_eq!(&m.bytes[0..4], &[0x44, 0x33, 0x22, 0x11]);
    assert_eq!(m.read_u8(0x1000), 0x44);
    assert_eq!(m.read_u16(0x1000), 0x3344);
    assert_eq!(m.read_u16(0x1001), 0x2233);
    assert_eq!(m.read_u16(0x1002), 0x1122);
    assert_eq!(m.read_u32(0x1000), 0x1122_3344);
    m.write_u64(0x1008, 0x0102_0304_0506_0708);
    assert_eq!(&m.bytes[8..16], &[8, 7, 6, 5, 4, 3, 2, 1]);
    assert_eq!(m.read_u64(0x1008), 0x0102_0304_0506_0708);
    assert_eq!(m.read_u32(0x100c), 0x0102_0304);
    m.write_u16(0x1002, 0xbeef);
    assert_eq!(m.read_u32(0x1000), 0xbeef_3344);
    m.write_u8(0x1fff, 0xaa);
    assert_eq!(m.bytes[4095], 0xaa);
    assert_eq!(m.read(0x1008, 8), 0x0102_0304_0506_0708);
    assert_eq!(m.read(0x1008, 4), 0x0506_0708);
    assert_eq!(m.read(0x1008, 2), 0x0708);
    assert_eq!(m.read(0x1008, 1), 0x08);
}

#[test]
fn sized_writes_keep_the_low_bytes() {
    let mut m = GuestMemory::from_bytes(0, vec![0xffu8; 4096]).unwrap();
    m.write(0x10, 0x1122_3344_5566_7788, 1);
    assert_eq!(&m.bytes[0x10..0x12], &[0x88, 0xff]);
    m.write(0x20, 0x1122_3344_5566_7788, 2);
    assert_eq!(&m.bytes[0x20..0x23], &[0x88, 0x77, 0xff]);
    m.write(0x30, 0x1122_3344_5566_7788, 4);
    assert_eq!(&m.bytes[0x30..0x35], &[0x88, 0x77, 0x66, 0x55, 0xff]);
    m.write(0x40, 0x1122_3344_5566_7788, 8);
    assert_eq!(
        &m.bytes[0x40..0x49],
        &[0x88, 0x77, 0x66, 0x55, 0x44, 0x33, 0x22, 0x11, 0xff]
    );
    assert_eq!(m.bytes[0x3f], 0xff);
}

#[test]
fn contains_checks_both_ends() {
    let m = GuestMemory::new(0x1000, 1).unwrap();
    assert!(m.contains(0x1000, 1));
    assert!(m.contains(0x1ff8, 8));
    assert!(!m.contains(0x1ff9, 8));
    assert!(!m.contains(0xfff, 1));
    assert!(!m.contains(0x2000, 1));
    assert!(m.contains(0x2000, 0));
    assert!(!m.contains(u64::MAX, 2));
}

#[test]
fn bare_addresses_are_physical() {
    let m = RiscVMem::new_system(Xlen::X64, GuestMemory::new(0x8000_0000, 1).unwrap());
    assert!(!m.paging);
    assert!(!m.usermode);
    assert_eq!(m.virt2phys(0x1234, macc(MemAccessType::Read, Priv::User)), Ok(0x1234));
    assert_eq!(
        m.resolve(0x8000_0010, 4, macc(MemAccessType::Read, Priv::User), false),
        Ok(0x8000_0010)
    );
    let u = RiscVMem::new_usermode(Xlen::X32);
    assert!(u.usermode);
    assert_eq!(u.guest_mem.bytes.len(), 0);
    assert_eq!(u.xlen, Xlen::X32);
}

#[test]
fn failed_accesses_give_their_trap() {
    let m = RiscVMem::new_system(Xlen::X64, GuestMemory::new(0x8000_0000, 1).unwrap());
    let user = |a| macc(a, Priv::User);
    assert_eq!(
        m.resolve(0x8000_0002, 4, user(MemAccessType::Read), false),
        Err(Trap { ttype: Exception::LoadAddressMisaligned, val: 0x8000_0002 })
    );
    assert_eq!(
        m.resolve(0x8000_0004, 8, user(MemAccessType::Write), false),
        Err(Trap { ttype: Exception::StoreAddressMisaligned, val: 0x8000_0004 })
    );
    assert_eq!(
        m.resolve(0x8000_0001, 2, user(MemAccessType::Execute), false),
        Err(Trap { ttype: Exception::InstructionAddressMisaligned, val: 0x8000_0001 })
    );
    assert_eq!(
        m.resolve(0x8000_1000, 4, user(MemAccessType::Read), false),
        Err(Trap { ttype: Exception::LoadAccessFault, val: 0x8000_1000 })
    );
    assert_eq!(
        m.resolve(0x7fff_fff8, 8, user(MemAccessType::Write), true),
        Err(Trap { ttype: Exception::StoreAccessFault, val: 0x7fff_fff8 })
    );
    assert_eq!(
        m.resolve(0x10, 2, user(MemAccessType::Execute), false),
        Err(Trap { ttype: Exception::InstructionAccessFault, val: 0x10 })
    );
    // misalignment is reported before anything else
    assert_eq!(
        m.resolve(0x11, 2, user(MemAccessType::Read), false),
        Err(Trap { ttype: Exception::LoadAddressMisaligned, val: 0x11 })
    );
    assert_eq!(m.resolve(0x8000_0ff8, 8, user(MemAccessType::Read), false), Ok(0x8000_0ff8));
    assert_eq!(m.resolve(0x8000_0fff, 1, user(MemAccessType::Read), false), Ok(0x8000_0fff));
}

#[test]
fn page_table() {
    let mut m = RiscVMem::new_system(Xlen::X64, GuestMemory::new(0x8000_0000, 2).unwrap());
    m.paging = true;
    m.map_page(0x10, PageMapping { ppn: 0x8_0000, read: true, write: false, execute: true });
    m.map_page(0x11, PageMapping { ppn: 0x8_0001, read: true, write: true, execute: false });
    m.map_page(0x12, PageMapping { ppn: MAX_PPN + 1, read: true, write: true, execute: true });
    m.map_page(0x13, PageMapping { ppn: 0x9_0000, read: true, write: true, execute: true });
    let user = |a| macc(a, Priv::User);
    assert_eq!(m.virt2phys(0x1_0123, user(MemAccessType::Read)), Ok(0x8000_0123));
    assert_eq!(m.virt2phys(0x1_0123, user(MemAccessType::Execute)), Ok(0x8000_0123));
    assert_eq!(
        m.virt2phys(0x1_0123, user(MemAccessType::Write)),
        Err(Trap { ttype: Exception::StorePageFault, val: 0x1_0123 })
    );
    assert_eq!(m.virt2phys(0x1_1ffc, user(MemAccessType::Write)), Ok(0x8000_1ffc));
    assert_eq!(
        m.virt2phys(0x1_1000, user(MemAccessType::Execute)),
        Err(Trap { ttype: Exception::InstructionPageFault, val: 0x1_1000 })
    );
    assert_eq!(
        m.virt2phys(0x1_2000, user(MemAccessType::Read)),
        Err(Trap { ttype: Exception::LoadPageFault, val: 0x1_2000 })
    );
    assert_eq!(
        m.virt2phys(0x5_0000, user(MemAccessType::Read)),
        Err(Trap { ttype: Exception::LoadPageFault, val: 0x5_0000 })
    );
    // a mapping to a page outside memory gives an access fault
    assert_eq!(
        m.resolve(0x1_3008, 8, user(MemAccessType::Read), false),
        Err(Trap { ttype: Exception::LoadAccessFault, val: 0x1_3008 })
    );
    // supervisor mode goes through the table, machine mode and physical accesses do not
    assert_eq!(m.virt2phys(0x1_0123, macc(MemAccessType::Read, Priv::Supervisor)), Ok(0x8000_0123));
    assert_eq!(m.virt2phys(0x1_0123, macc(MemAccessType::Write, Priv::Machine)), Ok(0x1_0123));
    assert_eq!(
        m.resolve(0x8000_0008, 8, user(MemAccessType::Write), true),
        Ok(0x8000_0008)
    );
    m.unmap_page(0x10);
    assert_eq!(
        m.virt2phys(0x1_0123, user(MemAccessType::Read)),
        Err(Trap { ttype: Exception::LoadPageFault, val: 0x1_0123 })
    );
    m.paging = false;
    assert_eq!(m.virt2phys(0x1_0123, user(MemAccessType::Read)), Ok(0x1_0123));
}

fn hart() -> RiscvInt {
    let mut h = RiscvInt::init_usermode(Xlen::X64, UserModeRuntime { brk: 0, mmap_base: 0 });
    h.attach_memory(GuestMemory::new(0x1000, 2).unwrap());
    h
}

#[test]
fn hart_reads_and_writes() {
    let mut h = hart();
    assert_eq!(h.write64(0x1010, 0x8877_6655_4433_2211, false, true), Ok(()));
    assert_eq!(h.read64(0x1010, false, true), Ok(0x8877_6655_4433_2211));
    assert_eq!(h.read32(0x1014, false, true), Ok(0x8877_6655));
    assert_eq!(h.read16(0x1012, false, true), Ok(0x4433));
    assert_eq!(h.read8(0x1011, false, true), Ok(0x22));
    assert_eq!(h.write8(0x1011, 0xab, true, true), Ok(()));
    assert_eq!(h.write16(0x1016, 0xcdef, true, true), Ok(()));
    assert_eq!(h.write32(0x1018, 0x0102_0304, true, true), Ok(()));
    assert_eq!(h.read64(0x1010, true, true), Ok(0xcdef_6655_4433_ab11));
    assert_eq!(h.read64(0x1018, true, true), Ok(0x0102_0304));
    assert_eq!(h.trap, None);
    assert!(!h.stop_exec);
}

#[test]
fn a_failed_access_raises_its_trap_only_where_allowed() {
    let mut h = hart();
    h.pc = 0x1100;
    let t = Trap { ttype: Exception::LoadAccessFault, val: 0x9000 };
    assert_eq!(h.read32(0x9000, false, false), Err(t));
    assert_eq!(h.trap, None);
    assert!(!h.stop_exec);
    assert_eq!(h.read32(0x9000, false, true), Err(t));
    assert_eq!(h.trap, Some(t));
    assert_eq!(h.trap_pc, 0x1100);
    assert!(h.stop_exec);

    let mut h = hart();
    let t = Trap { ttype: Exception::StoreAddressMisaligned, val: 0x1001 };
    assert_eq!(h.write16(0x1001, 5, false, false), Err(t));
    assert_eq!(h.trap, None);
    assert_eq!(h.write16(0x1001, 5, false, true), Err(t));
    assert_eq!(h.trap, Some(t));
    assert!(h.memsource.guest_mem.bytes.iter().all(|b| *b == 0));
}

#[test]
fn a_write_drops_the_blocks_of_its_page_only() {
    let mut h = hart();
    h.cache_enabled = true;
    assert_eq!(h.build_exec(0x1000), Ok(()));
    assert_eq!(h.build_exec(0x1800), Ok(()));
    assert_eq!(h.build_exec(0x2000), Ok(()));
    assert!(h.check_block(0x1000).is_some());
    assert!(h.check_block(0x1800).is_some());
    assert!(h.check_block(0x2000).is_some());
    assert_eq!(h.write8(0x1ff0, 1, false, false), Ok(()));
    assert!(h.check_block(0x1000).is_none());
    assert!(h.check_block(0x1800).is_none());
    assert!(h.check_block(0x2000).is_some());
    // a failed write drops nothing
    assert!(h.write8(0x9000, 1, false, false).is_err());
    assert!(h.check_block(0x2000).is_some());
    h.phys_write(0x2008, 7, 8);
    assert!(h.check_block(0x2000).is_none());
    assert_eq!(h.memsource.guest_mem.read_u64(0x2008), 7);
}

#[test]
fn attaching_memory_forgets_the_cache() {
    let mut h = hart();
    h.cache_enabled = true;
    assert_eq!(h.build_exec(0x1000), Ok(()));
    h.regs[5] = 9;
    h.attach_memory(GuestMemory::from_bytes(0x4000, vec![1u8; 4096]).unwrap());
    assert!(h.instr.is_empty());
    assert!(h.cache_enabled);
    assert_eq!(h.regs[5], 9);
    assert_eq!(h.memsource.guest_mem.base, 0x4000);
    assert_eq!(h.read8(0x4000, false, false), Ok(1));
    assert!(h.read8(0x1000, false, false).is_err());
}
