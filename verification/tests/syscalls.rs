use riscv_interp::syscall::{pack32, riscv_translate_syscall, SA_RESTORER, STAT_SIZE};
use riscv_interp::{
    Exception, GenericSigactionArg, GenericStat, GuestMemory, PageMapping, Priv, RiscvInt,
    SysInfo, Syscall, SyscallIn, Trap, UserModeRuntime, Xlen,
};

fn hart(xlen: Xlen) -> RiscvInt {
    let mut h = RiscvInt::init_usermode(xlen, UserModeRuntime { brk: 0, mmap_base: 0 });
    h.attach_memory(GuestMemory::from_bytes(0x1000, vec![0xeeu8; 4096]).unwrap());
    h
}

#[test]
fn system_call_numbers() {
    let table = [
        (17u16, Syscall::Getcwd),
        (23, Syscall::Dup),
        (24, Syscall::Dup3),
        (25, Syscall::Fcntl),
        (29, Syscall::Ioctl),
        (34, Syscall::Mkdirat),
        (35, Syscall::Unlinkat),
        (46, Syscall::Ftruncate),
        (48, Syscall::Faccessat),
        (49, Syscall::Chdir),
        (56, Syscall::Openat),
        (57, Syscall::Close),
        (59, Syscall::Pipe2),
        (61, Syscall::Getdents64),
        (62, Syscall::Lseek),
        (63, Syscall::Read),
        (64, Syscall::Write),
        (65, Syscall::Readv),
        (66, Syscall::Writev),
        (67, Syscall::Pread64),
        (68, Syscall::Pwrite64),
        (78, Syscall::Readlinkat),
        (79, Syscall::Newfstatat),
        (80, Syscall::Fstat),
        (93, Syscall::Exit),
        (94, Syscall::ExitGroup),
        (96, Syscall::SetTidAddress),
        (98, Syscall::Futex),
        (101, Syscall::Nanosleep),
        (113, Syscall::ClockGettime),
        (124, Syscall::SchedYield),
        (129, Syscall::Kill),
        (131, Syscall::Tgkill),
        (132, Syscall::Sigaltstack),
        (134, Syscall::RtSigaction),
        (135, Syscall::RtSigprocmask),
        (139, Syscall::RtSigreturn),
        (160, Syscall::Uname),
        (163, Syscall::Getrlimit),
        (169, Syscall::Gettimeofday),
        (172, Syscall::Getpid),
        (173, Syscall::Getppid),
        (174, Syscall::Getuid),
        (175, Syscall::Geteuid),
        (176, Syscall::Getgid),
        (177, Syscall::Getegid),
        (178, Syscall::Gettid),
        (179, Syscall::Sysinfo),
        (214, Syscall::Brk),
        (215, Syscall::Munmap),
        (216, Syscall::Mremap),
        (220, Syscall::Clone),
        (221, Syscall::Execve),
        (222, Syscall::Mmap),
        (226, Syscall::Mprotect),
        (233, Syscall::Madvise),
        (261, Syscall::Prlimit64),
        (278, Syscall::Getrandom),
    ];
    for (n, s) in table {
        assert_eq!(riscv_translate_syscall(n), Some(s), "number {}", n);
    }
    let known = (0..=u16::MAX).filter(|n| riscv_translate_syscall(*n).is_some()).count();
    assert_eq!(known, table.len());
    assert_eq!(riscv_translate_syscall(0), None);
    assert_eq!(riscv_translate_syscall(1), None);
    assert_eq!(riscv_translate_syscall(u16::MAX), None);
}

#[test]
fn the_request_takes_its_number_from_a7_and_its_arguments_from_a0_to_a5() {
    let mut h = hart(Xlen::X64);
    for i in 0..32 {
        h.regs[i] = 100 + i as u64;
    }
    h.regs[17] = 63;
    assert_eq!(
        h.handle_syscall(),
        SyscallIn { syscall: Syscall::Read, args: [110, 111, 112, 113, 114, 115, 0] }
    );
    h.regs[17] = 9999;
    assert_eq!(h.handle_syscall().syscall, Syscall::Unsupported(9999));
    assert_eq!(h.regs[10], 110);
}

#[test]
fn a_number_above_sixteen_bits_names_no_system_call() {
    let mut h = hart(Xlen::X64);
    h.regs[17] = 64;
    assert_eq!(h.handle_syscall().syscall, Syscall::Write);
    h.regs[17] = 0x1_0040;
    assert_eq!(h.handle_syscall().syscall, Syscall::Unsupported(0x1_0040));
    h.regs[17] = 0xffff_0000_0001_0040;
    assert_eq!(h.handle_syscall().syscall, Syscall::Unsupported(0xffff_0000_0001_0040));
    h.regs[17] = 0x1_0000;
    assert_eq!(h.handle_syscall().syscall, Syscall::Unsupported(0x1_0000));
    h.regs[17] = 0xffff;
    assert_eq!(h.handle_syscall().syscall, Syscall::Unsupported(0xffff));
    h.regs[17] = u64::MAX;
    assert_eq!(h.handle_syscall().syscall, Syscall::Unsupported(u64::MAX));
}

fn sample_stat() -> GenericStat {
    GenericStat {
        dev: 0x0101_0101_0101_0101,
        ino: 0x0202_0202_0202_0202,
        mode: 0x0303_0303,
        nlink: 0x0404_0404,
        uid: 0x0505_0505,
        gid: 0x0606_0606,
        rdev: 0x0707_0707_0707_0707,
        size: 0x0808_0808_0808_0808,
        blksize: 0x0909_0909,
        blocks: 0x0a0a_0a0a_0a0a_0a0a,
        atime: 0x0b0b_0b0b_0b0b_0b0b,
        atime_nsec: 0x0c0c_0c0c_0c0c_0c0c,
        mtime: 0x0d0d_0d0d_0d0d_0d0d,
        mtime_nsec: 0x0e0e_0e0e_0e0e_0e0e,
        ctime: 0x0f0f_0f0f_0f0f_0f0f,
        ctime_nsec: 0x1010_1010_1010_1010,
    }
}

#[test]
fn stat_layout() {
    let mut h = hart(Xlen::X64);
    assert_eq!(h.write_stat_t(0x1100, sample_stat()), Ok(()));
    let b = &h.memsource.guest_mem.bytes[0x100..0x100 + STAT_SIZE as usize];
    let mut want: Vec<u8> = Vec::new();
    want.extend([1u8; 8]); // dev
    want.extend([2u8; 8]); // ino
    want.extend([3u8; 4]); // mode
    want.extend([4u8; 4]); // nlink
    want.extend([5u8; 4]); // uid
    want.extend([6u8; 4]); // gid
    want.extend([7u8; 8]); // rdev
    want.extend([0u8; 8]); // pad
    want.extend([8u8; 8]); // size
    want.extend([9u8; 4]); // blksize
    want.extend([0u8; 4]); // pad
    want.extend([10u8; 8]); // blocks
    want.extend([11u8; 8]);
    want.extend([12u8; 8]);
    want.extend([13u8; 8]);
    want.extend([14u8; 8]);
    want.extend([15u8; 8]);
    want.extend([16u8; 8]);
    want.extend([0u8; 8]); // unused
    assert_eq!(want.len(), 128);
    assert_eq!(b, &want[..]);
    // nothing else was written
    assert_eq!(h.memsource.guest_mem.bytes[0xff], 0xee);
    assert_eq!(h.memsource.guest_mem.bytes[0x180], 0xee);
    assert_eq!(h.trap, None);
}

#[test]
fn the_guest_reads_every_field_of_a_stat_back() {
    let mut h = hart(Xlen::X64);
    let s = GenericStat {
        dev: 0x1_0000_0002,
        ino: 77,
        mode: 0o100644,
        nlink: 1,
        uid: 1000,
        gid: 0xffff_ffff,
        rdev: 9,
        size: 0xffff_ffff_ffff_ffff,
        blksize: 4096,
        blocks: 8,
        atime: 1_700_000_000,
        atime_nsec: 1,
        mtime: 1_700_000_001,
        mtime_nsec: 2,
        ctime: 1_700_000_002,
        ctime_nsec: 999_999_999,
    };
    let a = 0x1800u64;
    assert_eq!(h.write_stat_t(a, s), Ok(()));
    assert_eq!(h.read64(a, false, false), Ok(s.dev));
    assert_eq!(h.read64(a + 8, false, false), Ok(s.ino));
    assert_eq!(h.read32(a + 16, false, false), Ok(s.mode));
    assert_eq!(h.read32(a + 20, false, false), Ok(s.nlink));
    assert_eq!(h.read32(a + 24, false, false), Ok(s.uid));
    assert_eq!(h.read32(a + 28, false, false), Ok(s.gid));
    assert_eq!(h.read64(a + 32, false, false), Ok(s.rdev));
    assert_eq!(h.read64(a + 40, false, false), Ok(0));
    assert_eq!(h.read64(a + 48, false, false), Ok(s.size));
    assert_eq!(h.read32(a + 56, false, false), Ok(s.blksize));
    assert_eq!(h.read32(a + 60, false, false), Ok(0));
    assert_eq!(h.read64(a + 64, false, false), Ok(s.blocks));
    assert_eq!(h.read64(a + 72, false, false), Ok(s.atime));
    assert_eq!(h.read64(a + 80, false, false), Ok(s.atime_nsec));
    assert_eq!(h.read64(a + 88, false, false), Ok(s.mtime));
    assert_eq!(h.read64(a + 96, false, false), Ok(s.mtime_nsec));
    assert_eq!(h.read64(a + 104, false, false), Ok(s.ctime));
    assert_eq!(h.read64(a + 112, false, false), Ok(s.ctime_nsec));
    assert_eq!(h.read64(a + 120, false, false), Ok(0));
}

#[test]
fn a_stat_buffer_that_does_not_fit() {
    let mut h = hart(Xlen::X64);
    assert_eq!(
        h.write_stat_t(0x1004, sample_stat()),
        Err(Trap { ttype: Exception::StoreAddressMisaligned, val: 0x1004 })
    );
    assert!(h.memsource.guest_mem.bytes.iter().all(|b| *b == 0xee));
    assert_eq!(h.trap, None);
    // the words that fit stay written
    assert_eq!(
        h.write_stat_t(0x1ff0, sample_stat()),
        Err(Trap { ttype: Exception::StoreAccessFault, val: 0x2000 })
    );
    assert_eq!(h.memsource.guest_mem.read_u64(0x1ff0), 0x0101_0101_0101_0101);
    assert_eq!(h.memsource.guest_mem.read_u64(0x1ff8), 0x0202_0202_0202_0202);
    assert_eq!(h.trap, None);
    assert!(!h.stop_exec);
    assert_eq!(
        h.write_stat_t(0x9000, sample_stat()),
        Err(Trap { ttype: Exception::StoreAccessFault, val: 0x9000 })
    );
}

#[test]
fn writing_a_buffer_drops_the_blocks_of_its_page() {
    let mut h = hart(Xlen::X64);
    h.cache_enabled = true;
    assert_eq!(h.build_exec(0x1000), Ok(()));
    assert_eq!(h.write_stat_t(0x1800, sample_stat()), Ok(()));
    assert!(h.check_block(0x1000).is_none());
    assert!(h.cache_enabled);
}

fn sample_sysinfo() -> SysInfo {
    SysInfo {
        uptime: 0x1_0000_0011,
        loads: [0x2_0000_0021, 0x22, 0x23],
        totalram: 0x3_0000_0031,
        freeram: 0x32,
        sharedram: 0x33,
        bufferram: 0x34,
        totalswap: 0x35,
        freeswap: 0x36,
        procs: 0x4142,
        totalhigh: 0x5_0000_0051,
        freehigh: 0x52,
        mem_unit: 0x6162_6364,
    }
}

#[test]
fn sysinfo_layout_with_64_bit_registers() {
    let mut h = hart(Xlen::X64);
    let s = sample_sysinfo();
    assert_eq!(h.write_sysinfo_t(0x1200, s), Ok(()));
    let m = &h.memsource.guest_mem;
    let words: Vec<u64> = (0..14).map(|k| m.read_u64(0x1200 + 8 * k)).collect();
    assert_eq!(
        words,
        vec![
            s.uptime,
            s.loads[0],
            s.loads[1],
            s.loads[2],
            s.totalram,
            s.freeram,
            s.sharedram,
            s.bufferram,
            s.totalswap,
            s.freeswap,
            0x4142,
            s.totalhigh,
            s.freehigh,
            0x6162_6364,
        ]
    );
    assert_eq!(m.read_u16(0x1200 + 80), 0x4142);
    assert_eq!(m.read_u32(0x1200 + 104), 0x6162_6364);
    assert_eq!(m.bytes[0x200 + 112], 0xee);
    assert_eq!(m.bytes[0x1ff], 0xee);
}

#[test]
fn sysinfo_layout_with_32_bit_registers() {
    let mut h = hart(Xlen::X32);
    let s = sample_sysinfo();
    assert_eq!(h.write_sysinfo_t(0x1200, s), Ok(()));
    let m = &h.memsource.guest_mem;
    let fields: Vec<u32> = (0..10).map(|k| m.read_u32(0x1200 + 4 * k)).collect();
    assert_eq!(
        fields,
        vec![0x11, 0x21, 0x22, 0x23, 0x31, 0x32, 0x33, 0x34, 0x35, 0x36]
    );
    assert_eq!(m.read_u16(0x1200 + 40), 0x4142);
    assert_eq!(m.read_u16(0x1200 + 42), 0);
    assert_eq!(m.read_u32(0x1200 + 44), 0x51);
    assert_eq!(m.read_u32(0x1200 + 48), 0x52);
    assert_eq!(m.read_u32(0x1200 + 52), 0x6162_6364);
    assert_eq!(m.read_u64(0x1200 + 56), 0);
    assert_eq!(m.bytes[0x200 + 64], 0xee);
    assert_eq!(pack32(0x1_0000_0002, 0xf_0000_0003), 0x0000_0003_0000_0002);
}

#[test]
fn words_go_to_memory_one_after_the_other() {
    let mut h = hart(Xlen::X64);
    assert_eq!(h.write_words(0x1010, &vec![1, 2, 3]), Ok(()));
    assert_eq!(h.memsource.guest_mem.read_u64(0x1010), 1);
    assert_eq!(h.memsource.guest_mem.read_u64(0x1018), 2);
    assert_eq!(h.memsource.guest_mem.read_u64(0x1020), 3);
    assert_eq!(h.memsource.guest_mem.bytes[0x28], 0xee);
    assert_eq!(h.write_words(0x1010, &vec![]), Ok(()));
    assert_eq!(h.write_words(0x9999, &vec![]), Ok(()));
}

#[test]
fn reading_a_signal_action() {
    let mut h = hart(Xlen::X64);
    {
        let m = &mut h.memsource.guest_mem;
        m.write_u64(0x1300, 0x4_0000);
        m.write_u64(0x1308, 0x1000_0004);
        m.write_u64(0x1310, 0x8001);
    }
    assert_eq!(
        h.get_sigaction(0x1300),
        Ok(GenericSigactionArg {
            handler: 0x4_0000,
            flags: 0x1000_0004,
            mask: 0x8001,
            has_restorer: false
        })
    );
    h.memsource.guest_mem.write_u64(0x1308, 0x1000_0004 | SA_RESTORER);
    assert_eq!(SA_RESTORER, 0x0400_0000);
    let a = h.get_sigaction(0x1300).unwrap();
    assert!(a.has_restorer);
    assert_eq!(a.flags, 0x1400_0004);
    assert_eq!(
        h.get_sigaction(0x1304),
        Err(Trap { ttype: Exception::LoadAddressMisaligned, val: 0x1304 })
    );
    assert_eq!(
        h.get_sigaction(0x1ff0),
        Err(Trap { ttype: Exception::LoadAccessFault, val: 0x2000 })
    );
    assert_eq!(h.trap, None);
}

fn paged_hart(first: PageMapping, second: PageMapping) -> RiscvInt {
    let mut h = RiscvInt::init_systemmode(
        Xlen::X64,
        GuestMemory::from_bytes(0x8000_0000, vec![0xeeu8; 3 * 4096]).unwrap(),
    );
    h.memsource.paging = true;
    h.memsource.map_page(0x20, first);
    h.memsource.map_page(0x21, second);
    h.prvmode = Priv::Supervisor;
    h
}

fn assert_stat_reads_back(h: &mut RiscvInt, a: u64, s: GenericStat) {
    assert_eq!(h.read64(a, false, false), Ok(s.dev));
    assert_eq!(h.read64(a + 8, false, false), Ok(s.ino));
    assert_eq!(h.read32(a + 16, false, false), Ok(s.mode));
    assert_eq!(h.read32(a + 20, false, false), Ok(s.nlink));
    assert_eq!(h.read32(a + 24, false, false), Ok(s.uid));
    assert_eq!(h.read32(a + 28, false, false), Ok(s.gid));
    assert_eq!(h.read64(a + 32, false, false), Ok(s.rdev));
    assert_eq!(h.read64(a + 40, false, false), Ok(0));
    assert_eq!(h.read64(a + 48, false, false), Ok(s.size));
    assert_eq!(h.read32(a + 56, false, false), Ok(s.blksize));
    assert_eq!(h.read32(a + 60, false, false), Ok(0));
    assert_eq!(h.read64(a + 64, false, false), Ok(s.blocks));
    assert_eq!(h.read64(a + 72, false, false), Ok(s.atime));
    assert_eq!(h.read64(a + 80, false, false), Ok(s.atime_nsec));
    assert_eq!(h.read64(a + 88, false, false), Ok(s.mtime));
    assert_eq!(h.read64(a + 96, false, false), Ok(s.mtime_nsec));
    assert_eq!(h.read64(a + 104, false, false), Ok(s.ctime));
    assert_eq!(h.read64(a + 112, false, false), Ok(s.ctime_nsec));
    assert_eq!(h.read32(a + 120, false, false), Ok(0));
    assert_eq!(h.read32(a + 124, false, false), Ok(0));
}

#[test]
fn a_stat_across_two_mapped_pages_reads_back() {
    // the two virtual pages lie the other way round in memory than they follow
    let mut h = paged_hart(
        PageMapping { ppn: 0x8_0002, read: true, write: true, execute: false },
        PageMapping { ppn: 0x8_0000, read: true, write: true, execute: false },
    );
    let a = 0x2_1000 - 40;
    assert_eq!(h.write_stat_t(a, sample_stat()), Ok(()));
    assert_stat_reads_back(&mut h, a, sample_stat());
    // five words went to the end of the third page, eleven to the start of the first
    let b = &h.memsource.guest_mem.bytes;
    assert_eq!(&b[3 * 4096 - 40..3 * 4096 - 32], &[1u8; 8]);
    assert_eq!(&b[0..4], &[0u8; 4]);
    assert_eq!(&b[8..16], &[8u8; 8]);
    assert_eq!(b[88], 0xee);
    assert_eq!(b[4096], 0xee);
    assert_eq!(b[3 * 4096 - 41], 0xee);
}

#[test]
fn a_stat_across_two_pages_of_one_frame_reads_back() {
    // both virtual pages are the same page of memory
    let mut h = paged_hart(
        PageMapping { ppn: 0x8_0001, read: true, write: true, execute: false },
        PageMapping { ppn: 0x8_0001, read: true, write: true, execute: false },
    );
    let a = 0x2_1000 - 64;
    assert_eq!(h.write_stat_t(a, sample_stat()), Ok(()));
    assert_stat_reads_back(&mut h, a, sample_stat());
}

#[test]
fn a_stat_in_a_page_that_may_not_be_read_faults_on_the_read() {
    let mut h = paged_hart(
        PageMapping { ppn: 0x8_0000, read: false, write: true, execute: false },
        PageMapping { ppn: 0x8_0001, read: true, write: true, execute: false },
    );
    let a = 0x2_0100;
    assert_eq!(h.write_stat_t(a, sample_stat()), Ok(()));
    assert_eq!(
        h.read64(a, false, false),
        Err(Trap { ttype: Exception::LoadPageFault, val: a })
    );
    assert_eq!(&h.memsource.guest_mem.bytes[0x100..0x108], &[1u8; 8]);
}
