//! The core of a RISC-V interpreter: fetch, decode and execute with a per-page
//! cache of decoded blocks, trap delivery between privilege levels, and the
//! system-call boundary of a user-mode guest.
//!
//! A hart is a [`RiscvInt`]. Its model, [`hart::HartView`], holds what an
//! instruction can observe; [`model::CacheView`] models the block cache.
//! [`semantics`] says over these models what executing means, and every
//! executable function says in its contract which state it leaves. [`laws`]
//! proves what holds of every execution, above all that the block cache
//! changes nothing an instruction could observe.
//!
//! The host drives a hart turn by turn with [`RiscvInt::run`], carries out the
//! system calls that a turn reports, and hands their results back with
//! [`RiscvInt::syscall_return`]. [`ranges`] holds the arithmetic that the host
//! needs around its mapped regions and files.

pub mod defs;
pub mod mem;
pub mod instr;
pub mod decoder;
pub mod decoder16;
pub mod hart;
pub mod cache;
pub mod trap;
pub mod semantics;
pub mod model;
pub mod access;
pub mod handlers;
pub mod blocks;
pub mod exec;
pub mod syscall;
pub mod run;
pub mod laws;
pub mod passes;
pub mod layout;
pub mod ranges;

pub use crate::defs::{Exception, Priv, Trap, Xlen};
pub use crate::hart::{RiscvBlock, RiscvInt, UserModeRuntime};
pub use crate::instr::{RiscvArgs, RiscvInstr, RiscvOp};
pub use crate::mem::{GuestMemory, MemAccessType, PageMapping, RiscVMem};
pub use crate::ranges::MapError;
pub use crate::run::ExitReason;
pub use crate::syscall::{
    GenericSigactionArg, GenericStat, SysInfo, Syscall, SyscallIn, SyscallOut,
};
