//! The system-call boundary of a user-mode guest: the numbers of the RISC-V
//! Linux system calls, the request that the hart hands to the host and the
//! result that the host hands back, and the buffers that have their own layout
//! on RISC-V: `stat`, `sysinfo` and `sigaction`.

use crate::defs::{Trap, wrap_add, Xlen};
use crate::hart::{HartView, RiscvInt};
use crate::mem::MemAccessType;
use crate::model::CacheView;
use vstd::prelude::*;

verus! {

/// The flag of a `sigaction` that announces a restorer. RISC-V has no restorer
/// and keeps the bit reserved.
pub const SA_RESTORER: u64 = 0x0400_0000;

/// Size of a `stat` buffer in bytes.
pub const STAT_SIZE: u64 = 128;

/// A system call, named apart from any architecture.
#[derive(Clone, Copy, Debug, PartialEq, Eq, Structural)]
pub enum Syscall {
    Getcwd,
    Dup,
    Dup3,
    Fcntl,
    Ioctl,
    Mkdirat,
    Unlinkat,
    Ftruncate,
    Faccessat,
    Chdir,
    Openat,
    Close,
    Pipe2,
    Getdents64,
    Lseek,
    Read,
    Write,
    Readv,
    Writev,
    Pread64,
    Pwrite64,
    Readlinkat,
    Newfstatat,
    Fstat,
    Exit,
    ExitGroup,
    SetTidAddress,
    Futex,
    Nanosleep,
    ClockGettime,
    SchedYield,
    Kill,
    Tgkill,
    Sigaltstack,
    RtSigaction,
    RtSigprocmask,
    RtSigreturn,
    Uname,
    Getrlimit,
    Gettimeofday,
    Getpid,
    Getppid,
    Getuid,
    Geteuid,
    Getgid,
    Getegid,
    Gettid,
    Sysinfo,
    Brk,
    Munmap,
    Mremap,
    Clone,
    Execve,
    Mmap,
    Mprotect,
    Madvise,
    Prlimit64,
    Getrandom,
    /// A number that names no system call the host knows, whole as the guest
    /// gave it.
    Unsupported(u64),
}

/// A system call as the hart hands it to the host: the call and its arguments,
/// `a0` to `a5`, followed by a zero.
#[derive(Clone, Copy, Debug, PartialEq, Eq)]
pub struct SyscallIn {
    pub syscall: Syscall,
    pub args: [u64; 7],
}

/// What the host hands back: the value for `a0` and, for the few calls that
/// return two values, the one for `a1`.
#[derive(Clone, Copy, Debug, PartialEq, Eq, Structural)]
pub struct SyscallOut {
    pub ret1: u64,
    pub ret2: Option<u64>,
}

/// What `stat` reports of a file.
#[derive(Clone, Copy, Debug, PartialEq, Eq, Structural)]
pub struct GenericStat {
    pub dev: u64,
    pub ino: u64,
    pub mode: u32,
    pub nlink: u32,
    pub uid: u32,
    pub gid: u32,
    pub rdev: u64,
    pub size: u64,
    pub blksize: u32,
    pub blocks: u64,
    pub atime: u64,
    pub atime_nsec: u64,
    pub mtime: u64,
    pub mtime_nsec: u64,
    pub ctime: u64,
    pub ctime_nsec: u64,
}

/// What `sysinfo` reports of the system.
#[derive(Clone, Copy, Debug, PartialEq, Eq)]
pub struct SysInfo {
    pub uptime: u64,
    pub loads: [u64; 3],
    pub totalram: u64,
    pub freeram: u64,
    pub sharedram: u64,
    pub bufferram: u64,
    pub totalswap: u64,
    pub freeswap: u64,
    pub procs: u16,
    pub totalhigh: u64,
    pub freehigh: u64,
    pub mem_unit: u32,
}

/// A signal action as the guest wrote it.
#[derive(Clone, Copy, Debug, PartialEq, Eq, Structural)]
pub struct GenericSigactionArg {
    pub handler: u64,
    pub flags: u64,
    pub mask: u64,
    /// Whether `flags` has the reserved restorer bit set.
    pub has_restorer: bool,
}

/// The system call that number `num` names on RISC-V Linux, `None` where it
/// names none that the host knows.
pub open spec fn translate_spec(num: u16) -> Option<Syscall> {
    if num == 17 {
        Some(Syscall::Getcwd)
    } else if num == 23 {
        Some(Syscall::Dup)
    } else if num == 24 {
        Some(Syscall::Dup3)
    } else if num == 25 {
        Some(Syscall::Fcntl)
    } else if num == 29 {
        Some(Syscall::Ioctl)
    } else if num == 34 {
        Some(Syscall::Mkdirat)
    } else if num == 35 {
        Some(Syscall::Unlinkat)
    } else if num == 46 {
        Some(Syscall::Ftruncate)
    } else if num == 48 {
        Some(Syscall::Faccessat)
    } else if num == 49 {
        Some(Syscall::Chdir)
    } else if num == 56 {
        Some(Syscall::Openat)
    } else if num == 57 {
        Some(Syscall::Close)
    } else if num == 59 {
        Some(Syscall::Pipe2)
    } else if num == 61 {
        Some(Syscall::Getdents64)
    } else if num == 62 {
        Some(Syscall::Lseek)
    } else if num == 63 {
        Some(Syscall::Read)
    } else if num == 64 {
        Some(Syscall::Write)
    } else if num == 65 {
        Some(Syscall::Readv)
    } else if num == 66 {
        Some(Syscall::Writev)
    } else if num == 67 {
        Some(Syscall::Pread64)
    } else if num == 68 {
        Some(Syscall::Pwrite64)
    } else if num == 78 {
        Some(Syscall::Readlinkat)
    } else if num == 79 {
        Some(Syscall::Newfstatat)
    } else if num == 80 {
        Some(Syscall::Fstat)
    } else if num == 93 {
        Some(Syscall::Exit)
    } else if num == 94 {
        Some(Syscall::ExitGroup)
    } else if num == 96 {
        Some(Syscall::SetTidAddress)
    } else if num == 98 {
        Some(Syscall::Futex)
    } else if num == 101 {
        Some(Syscall::Nanosleep)
    } else if num == 113 {
        Some(Syscall::ClockGettime)
    } else if num == 124 {
        Some(Syscall::SchedYield)
    } else if num == 129 {
        Some(Syscall::Kill)
    } else if num == 131 {
        Some(Syscall::Tgkill)
    } else if num == 132 {
        Some(Syscall::Sigaltstack)
    } else if num == 134 {
        Some(Syscall::RtSigaction)
    } else if num == 135 {
        Some(Syscall::RtSigprocmask)
    } else if num == 139 {
        Some(Syscall::RtSigreturn)
    } else if num == 160 {
        Some(Syscall::Uname)
    } else if num == 163 {
        Some(Syscall::Getrlimit)
    } else if num == 169 {
        Some(Syscall::Gettimeofday)
    } else if num == 172 {
        Some(Syscall::Getpid)
    } else if num == 173 {
        Some(Syscall::Getppid)
    } else if num == 174 {
        Some(Syscall::Getuid)
    } else if num == 175 {
        Some(Syscall::Geteuid)
    } else if num == 176 {
        Some(Syscall::Getgid)
    } else if num == 177 {
        Some(Syscall::Getegid)
    } else if num == 178 {
        Some(Syscall::Gettid)
    } else if num == 179 {
        Some(Syscall::Sysinfo)
    } else if num == 214 {
        Some(Syscall::Brk)
    } else if num == 215 {
        Some(Syscall::Munmap)
    } else if num == 216 {
        Some(Syscall::Mremap)
    } else if num == 220 {
        Some(Syscall::Clone)
    } else if num == 221 {
        Some(Syscall::Execve)
    } else if num == 222 {
        Some(Syscall::Mmap)
    } else if num == 226 {
        Some(Syscall::Mprotect)
    } else if num == 233 {
        Some(Syscall::Madvise)
    } else if num == 261 {
        Some(Syscall::Prlimit64)
    } else if num == 278 {
        Some(Syscall::Getrandom)
    } else {
        None
    }
}

/// The system call that number `num` names on RISC-V Linux, `None` where it
/// names none that the host knows.
pub fn riscv_translate_syscall(num: u16) -> (r: Option<Syscall>)
    ensures
        r == translate_spec(num),
{
    if num == 17 {
        Some(Syscall::Getcwd)
    } else if num == 23 {
        Some(Syscall::Dup)
    } else if num == 24 {
        Some(Syscall::Dup3)
    } else if num == 25 {
        Some(Syscall::Fcntl)
    } else if num == 29 {
        Some(Syscall::Ioctl)
    } else if num == 34 {
        Some(Syscall::Mkdirat)
    } else if num == 35 {
        Some(Syscall::Unlinkat)
    } else if num == 46 {
        Some(Syscall::Ftruncate)
    } else if num == 48 {
        Some(Syscall::Faccessat)
    } else if num == 49 {
        Some(Syscall::Chdir)
    } else if num == 56 {
        Some(Syscall::Openat)
    } else if num == 57 {
        Some(Syscall::Close)
    } else if num == 59 {
        Some(Syscall::Pipe2)
    } else if num == 61 {
        Some(Syscall::Getdents64)
    } else if num == 62 {
        Some(Syscall::Lseek)
    } else if num == 63 {
        Some(Syscall::Read)
    } else if num == 64 {
        Some(Syscall::Write)
    } else if num == 65 {
        Some(Syscall::Readv)
    } else if num == 66 {
        Some(Syscall::Writev)
    } else if num == 67 {
        Some(Syscall::Pread64)
    } else if num == 68 {
        Some(Syscall::Pwrite64)
    } else if num == 78 {
        Some(Syscall::Readlinkat)
    } else if num == 79 {
        Some(Syscall::Newfstatat)
    } else if num == 80 {
        Some(Syscall::Fstat)
    } else if num == 93 {
        Some(Syscall::Exit)
    } else if num == 94 {
        Some(Syscall::ExitGroup)
    } else if num == 96 {
        Some(Syscall::SetTidAddress)
    } else if num == 98 {
        Some(Syscall::Futex)
    } else if num == 101 {
        Some(Syscall::Nanosleep)
    } else if num == 113 {
        Some(Syscall::ClockGettime)
    } else if num == 124 {
        Some(Syscall::SchedYield)
    } else if num == 129 {
        Some(Syscall::Kill)
    } else if num == 131 {
        Some(Syscall::Tgkill)
    } else if num == 132 {
        Some(Syscall::Sigaltstack)
    } else if num == 134 {
        Some(Syscall::RtSigaction)
    } else if num == 135 {
        Some(Syscall::RtSigprocmask)
    } else if num == 139 {
        Some(Syscall::RtSigreturn)
    } else if num == 160 {
        Some(Syscall::Uname)
    } else if num == 163 {
        Some(Syscall::Getrlimit)
    } else if num == 169 {
        Some(Syscall::Gettimeofday)
    } else if num == 172 {
        Some(Syscall::Getpid)
    } else if num == 173 {
        Some(Syscall::Getppid)
    } else if num == 174 {
        Some(Syscall::Getuid)
    } else if num == 175 {
        Some(Syscall::Geteuid)
    } else if num == 176 {
        Some(Syscall::Getgid)
    } else if num == 177 {
        Some(Syscall::Getegid)
    } else if num == 178 {
        Some(Syscall::Gettid)
    } else if num == 179 {
        Some(Syscall::Sysinfo)
    } else if num == 214 {
        Some(Syscall::Brk)
    } else if num == 215 {
        Some(Syscall::Munmap)
    } else if num == 216 {
        Some(Syscall::Mremap)
    } else if num == 220 {
        Some(Syscall::Clone)
    } else if num == 221 {
        Some(Syscall::Execve)
    } else if num == 222 {
        Some(Syscall::Mmap)
    } else if num == 226 {
        Some(Syscall::Mprotect)
    } else if num == 233 {
        Some(Syscall::Madvise)
    } else if num == 261 {
        Some(Syscall::Prlimit64)
    } else if num == 278 {
        Some(Syscall::Getrandom)
    } else {
        None
    }
}

/// The system call that the number `num` in `a7` asks for: the call that the
/// table gives for it, and `Syscall::Unsupported` with the whole number where
/// the table has none. No number above 16 bits is in the table.
pub open spec fn syscall_of(num: u64) -> Syscall {
    if num <= 0xffff {
        match translate_spec(num as u16) {
            Some(s) => s,
            None => Syscall::Unsupported(num),
        }
    } else {
        Syscall::Unsupported(num)
    }
}

/// The system call that the hart asks for: the call that `a7` names, with `a0`
/// to `a5` as its arguments.
pub open spec fn syscall_request(h: HartView) -> SyscallIn {
    SyscallIn {
        syscall: syscall_of(h.regs[17]),
        args: [h.regs[10], h.regs[11], h.regs[12], h.regs[13], h.regs[14], h.regs[15], 0],
    }
}

/// The hart once the host answered its system call: `a0` holds the first
/// value, `a1` the second where there is one, no trap is pending and
/// `stop_exec` is clear.
pub open spec fn syscall_done(h: HartView, out: SyscallOut) -> HartView {
    HartView {
        regs: match out.ret2 {
            Some(v) => h.regs.update(10, out.ret1).update(11, v),
            None => h.regs.update(10, out.ret1),
        },
        trap: None,
        stop_exec: false,
        ..h
    }
}

/// The sixteen 64-bit words of a `stat` buffer, in the order of the RISC-V
/// Linux layout: `dev`, `ino`, `mode` with `nlink` above it, `uid` with `gid`
/// above it, `rdev`, padding, `size`, `blksize` with padding above it,
/// `blocks`, the three times with their nanoseconds, two unused words in one.
pub open spec fn stat_words(s: GenericStat) -> Seq<u64> {
    seq![
        s.dev,
        s.ino,
        (s.mode + 0x1_0000_0000 * s.nlink) as u64,
        (s.uid + 0x1_0000_0000 * s.gid) as u64,
        s.rdev,
        0,
        s.size,
        s.blksize as u64,
        s.blocks,
        s.atime,
        s.atime_nsec,
        s.mtime,
        s.mtime_nsec,
        s.ctime,
        s.ctime_nsec,
        0,
    ]
}

/// The low 32 bits of a value.
pub open spec fn low32(v: u64) -> u64 {
    v % 0x1_0000_0000
}

/// The 64-bit words of a `sysinfo` buffer. With 64-bit registers every long
/// field takes a word, `procs` and `mem_unit` a word each with padding above.
/// With 32-bit registers every long field takes its low 32 bits, two to a
/// word, `procs` sits below `totalhigh`, `mem_unit` above `freehigh`, and a
/// padding word ends the buffer.
pub open spec fn sysinfo_words(xlen: Xlen, s: SysInfo) -> Seq<u64> {
    match xlen {
        Xlen::X64 => seq![
            s.uptime,
            s.loads[0],
            s.loads[1],
            s.loads[2],
            s.totalram,
            s.freeram,
            s.sharedram,
            s.bufferram,
            s.totalswap,
            s.freeswap,
            s.procs as u64,
            s.totalhigh,
            s.freehigh,
            s.mem_unit as u64,
        ],
        Xlen::X32 => seq![
            (low32(s.uptime) + 0x1_0000_0000 * low32(s.loads[0])) as u64,
            (low32(s.loads[1]) + 0x1_0000_0000 * low32(s.loads[2])) as u64,
            (low32(s.totalram) + 0x1_0000_0000 * low32(s.freeram)) as u64,
            (low32(s.sharedram) + 0x1_0000_0000 * low32(s.bufferram)) as u64,
            (low32(s.totalswap) + 0x1_0000_0000 * low32(s.freeswap)) as u64,
            (s.procs + 0x1_0000_0000 * low32(s.totalhigh)) as u64,
            (low32(s.freehigh) + 0x1_0000_0000 * s.mem_unit) as u64,
            0,
        ],
    }
}

/// The hart after the words of `words`, from index `from` on, went to memory,
/// word `k` to virtual address `addr + 8 * k`, together with the trap of the
/// first store that failed; the words before that one stay written.
#[verifier::opaque]
pub open spec fn store_words(h: HartView, addr: u64, words: Seq<u64>, from: int) -> (
    HartView,
    Result<(), Trap>,
)
    decreases words.len() - from,
{
    if from < 0 || from >= words.len() {
        (h, Ok(()))
    } else {
        match h.mem.resolve(
            wrap_add(addr, (8 * from) as u64),
            8,
            h.macc(MemAccessType::Write),
            false,
        ) {
            Err(t) => (h, Err(t)),
            Ok(p) => store_words(
                HartView { mem: h.mem.store(p, words[from], 8), ..h },
                addr,
                words,
                from + 1,
            ),
        }
    }
}

/// The cache after `store_words`: every store that went through dropped the
/// blocks of the page it wrote.
pub open spec fn cache_after_words(
    c: CacheView,
    h: HartView,
    addr: u64,
    words: Seq<u64>,
    from: int,
) -> CacheView
    decreases words.len() - from,
{
    if from < 0 || from >= words.len() {
        c
    } else {
        match h.mem.resolve(
            wrap_add(addr, (8 * from) as u64),
            8,
            h.macc(MemAccessType::Write),
            false,
        ) {
            Err(t) => c,
            Ok(p) => cache_after_words(
                CacheView { index: c.index.remove((p / 4096) as u64), ..c },
                HartView { mem: h.mem.store(p, words[from], 8), ..h },
                addr,
                words,
                from + 1,
            ),
        }
    }
}

/// What a read of the signal action at virtual address `addr` returns: the
/// handler, the flags and the mask, three 64-bit words one after the other, or
/// the trap of the first load that failed.
pub open spec fn sigaction_at(h: HartView, addr: u64) -> Result<GenericSigactionArg, Trap> {
    let macc = h.macc(MemAccessType::Read);
    match h.mem.resolve(addr, 8, macc, false) {
        Err(t) => Err(t),
        Ok(ph) => match h.mem.resolve(wrap_add(addr, 8), 8, macc, false) {
            Err(t) => Err(t),
            Ok(pf) => match h.mem.resolve(wrap_add(addr, 16), 8, macc, false) {
                Err(t) => Err(t),
                Ok(pm) => Ok(
                    GenericSigactionArg {
                        handler: h.mem.load(ph, 8),
                        flags: h.mem.load(pf, 8),
                        mask: h.mem.load(pm, 8),
                        has_restorer: h.mem.load(pf, 8) & SA_RESTORER != 0,
                    },
                ),
            },
        },
    }
}

impl RiscvInt {
    /// The system call that the hart asks for. A number that names no call the
    /// host knows, and so every number above 16 bits, gives
    /// `Syscall::Unsupported` with that number.
    pub fn handle_syscall(&self) -> (sysin: SyscallIn)
        ensures
            sysin == syscall_request(self@),
    {
        let syscallnum: u64 = self.regs[17];
        let systype: Syscall = if syscallnum <= 0xffff {
            match riscv_translate_syscall(syscallnum as u16) {
                Some(s) => s,
                None => Syscall::Unsupported(syscallnum),
            }
        } else {
            Syscall::Unsupported(syscallnum)
        };
        let arg1: u64 = self.regs[10];
        let arg2: u64 = self.regs[11];
        let arg3: u64 = self.regs[12];
        let arg4: u64 = self.regs[13];
        let arg5: u64 = self.regs[14];
        let arg6: u64 = self.regs[15];
        SyscallIn { syscall: systype, args: [arg1, arg2, arg3, arg4, arg5, arg6, 0] }
    }

    /// Takes the host's answer to a system call: `a0` gets the first value,
    /// `a1` the second where there is one, the pending trap is dropped and
    /// `stop_exec` cleared.
    pub fn syscall_return(&mut self, out: SyscallOut)
        ensures
            final(self)@ == syscall_done(old(self)@, out),
            final(self).same_cache(old(self)),
    {
        self.regs[10] = out.ret1;
        match out.ret2 {
            Some(xx) => {
                self.regs[11] = xx;
            },
            None => {},
        }
        self.stop_exec = false;
        self.trap = None;
    }

    /// Writes `words` to memory, word `k` to virtual address `addr + 8 * k`,
    /// and stops at the first store that fails, whose trap it returns without
    /// raising it.
    pub fn write_words(&mut self, addr: u64, words: &Vec<u64>) -> (r: Result<(), Trap>)
        requires
            old(self).wf(),
            8 * words@.len() <= u64::MAX,
        ensures
            final(self)@ == store_words(old(self)@, addr, words@, 0).0,
            r == store_words(old(self)@, addr, words@, 0).1,
            final(self).cache() == cache_after_words(old(self).cache(), old(self)@, addr, words@, 0),
            final(self).wf(),
    {
        let mut i: usize = 0;
        proof {
            reveal(store_words);
        }
        while i < words.len()
            invariant
                i <= words.len(),
                8 * words@.len() <= u64::MAX,
                self.wf(),
                store_words(old(self)@, addr, words@, 0) == store_words(self@, addr, words@, i as int),
                cache_after_words(old(self).cache(), old(self)@, addr, words@, 0)
                    == cache_after_words(self.cache(), self@, addr, words@, i as int),
            decreases words.len() - i,
        {
            reveal(store_words);
            let at: u64 = addr.wrapping_add(8 * (i as u64));
            let ghost before = self.instr@;
            let ghost res = self@.mem.resolve(at, 8, self@.macc(MemAccessType::Write), false);
            match self.write_mem(at, words[i], 8, false, false) {
                Err(t) => {
                    return Err(t);
                },
                Ok(_) => {},
            }
            proof {
                crate::model::lemma_index_view_remove(before, (res->Ok_0 / 4096) as u64);
            }
            i += 1;
        }
        Ok(())
    }

    /// Lays out `stat_t` as a RISC-V `stat` buffer of 128 bytes at virtual
    /// address `addr`, little-endian.
    pub fn write_stat_t(&mut self, addr: u64, stat_t: GenericStat) -> (r: Result<(), Trap>)
        requires
            old(self).wf(),
        ensures
            final(self)@ == store_words(old(self)@, addr, stat_words(stat_t), 0).0,
            r == store_words(old(self)@, addr, stat_words(stat_t), 0).1,
            final(self).cache() == cache_after_words(
                old(self).cache(),
                old(self)@,
                addr,
                stat_words(stat_t),
                0,
            ),
            final(self).wf(),
    {
        let mut words: Vec<u64> = Vec::new();
        words.push(stat_t.dev);
        words.push(stat_t.ino);
        words.push(stat_t.mode as u64 + 0x1_0000_0000 * (stat_t.nlink as u64));
        words.push(stat_t.uid as u64 + 0x1_0000_0000 * (stat_t.gid as u64));
        words.push(stat_t.rdev);
        words.push(0);
        words.push(stat_t.size);
        words.push(stat_t.blksize as u64);
        words.push(stat_t.blocks);
        words.push(stat_t.atime);
        words.push(stat_t.atime_nsec);
        words.push(stat_t.mtime);
        words.push(stat_t.mtime_nsec);
        words.push(stat_t.ctime);
        words.push(stat_t.ctime_nsec);
        words.push(0);
        assert(words@ =~= stat_words(stat_t));
        self.write_words(addr, &words)
    }

    /// Lays out `si` as a `sysinfo` buffer at virtual address `addr`,
    /// little-endian, with the field widths of the hart's register width.
    pub fn write_sysinfo_t(&mut self, addr: u64, si: SysInfo) -> (r: Result<(), Trap>)
        requires
            old(self).wf(),
        ensures
            final(self)@ == store_words(old(self)@, addr, sysinfo_words(old(self).xlen, si), 0).0,
            r == store_words(old(self)@, addr, sysinfo_words(old(self).xlen, si), 0).1,
            final(self).cache() == cache_after_words(
                old(self).cache(),
                old(self)@,
                addr,
                sysinfo_words(old(self).xlen, si),
                0,
            ),
            final(self).wf(),
    {
        let mut words: Vec<u64> = Vec::new();
        match self.xlen {
            Xlen::X64 => {
                words.push(si.uptime);
                words.push(si.loads[0]);
                words.push(si.loads[1]);
                words.push(si.loads[2]);
                words.push(si.totalram);
                words.push(si.freeram);
                words.push(si.sharedram);
                words.push(si.bufferram);
                words.push(si.totalswap);
                words.push(si.freeswap);
                words.push(si.procs as u64);
                words.push(si.totalhigh);
                words.push(si.freehigh);
                words.push(si.mem_unit as u64);
            },
            Xlen::X32 => {
                words.push(pack32(si.uptime, si.loads[0]));
                words.push(pack32(si.loads[1], si.loads[2]));
                words.push(pack32(si.totalram, si.freeram));
                words.push(pack32(si.sharedram, si.bufferram));
                words.push(pack32(si.totalswap, si.freeswap));
                words.push(si.procs as u64 + 0x1_0000_0000 * (si.totalhigh % 0x1_0000_0000));
                words.push(si.freehigh % 0x1_0000_0000 + 0x1_0000_0000 * (si.mem_unit as u64));
                words.push(0);
            },
        }
        assert(words@ =~= sysinfo_words(self.xlen, si));
        self.write_words(addr, &words)
    }

    /// Reads the signal action that the guest wrote at virtual address `addr`.
    /// A load that fails returns its trap without raising it.
    pub fn get_sigaction(&mut self, addr: u64) -> (r: Result<GenericSigactionArg, Trap>)
        requires
            old(self)@.mem.wf(),
        ensures
            r == sigaction_at(old(self)@, addr),
            final(self)@ == old(self)@,
            final(self).same_cache(old(self)),
    {
        let handler: u64 = match self.read64(addr, false, false) {
            Ok(v) => v,
            Err(t) => {
                return Err(t);
            },
        };
        let flags: u64 = match self.read64(addr.wrapping_add(8), false, false) {
            Ok(v) => v,
            Err(t) => {
                return Err(t);
            },
        };
        let mask: u64 = match self.read64(addr.wrapping_add(16), false, false) {
            Ok(v) => v,
            Err(t) => {
                return Err(t);
            },
        };
        Ok(GenericSigactionArg { handler, flags, mask, has_restorer: flags & SA_RESTORER != 0 })
    }
}

/// The low 32 bits of `lo` below the low 32 bits of `hi`.
pub fn pack32(lo: u64, hi: u64) -> (r: u64)
    ensures
        r == low32(lo) + 0x1_0000_0000 * low32(hi),
{
    lo % 0x1_0000_0000 + 0x1_0000_0000 * (hi % 0x1_0000_0000)
}

} // verus!
