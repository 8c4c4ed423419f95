//! Architectural constants and the small enumerations shared by every part of the
//! interpreter: register width, privilege level, trap causes.

use vstd::prelude::*;

verus! {

/// Number of low address bits that select a byte within a page.
pub const RISCV_PAGE_SHIFT: u64 = 12;

/// Size of a page in bytes.
pub const RISCV_PAGE_SIZE: u64 = 4096;

/// Mask of the byte offset within a page.
pub const RISCV_PAGE_OFFSET: u64 = 0xfff;

/// Index of the stack pointer (`x2`) in the integer register file.
pub const RISCV_STACKPOINTER_REG: usize = 2;

/// Number of entries of the CSR file.
pub const CSR_COUNT: usize = 4096;

pub const CSR_SSTATUS_ADDRESS: usize = 0x100;

pub const CSR_STVEC_ADDRESS: usize = 0x105;

pub const CSR_SEPC_ADDRESS: usize = 0x141;

pub const CSR_SCAUSE_ADDRESS: usize = 0x142;

pub const CSR_STVAL_ADDRESS: usize = 0x143;

pub const CSR_MSTATUS_ADDRESS: usize = 0x300;

pub const CSR_MEDELEG_ADDRESS: usize = 0x302;

pub const CSR_MIDELEG_ADDRESS: usize = 0x303;

pub const CSR_MTVEC_ADDRESS: usize = 0x305;

pub const CSR_MEPC_ADDRESS: usize = 0x341;

pub const CSR_MCAUSE_ADDRESS: usize = 0x342;

pub const CSR_MTVAL_ADDRESS: usize = 0x343;

/// Architectural integer width of a hart.
#[derive(Clone, Copy, Debug, PartialEq, Eq, Structural)]
pub enum Xlen {
    X32,
    X64,
}

/// Privilege level of a hart.
#[derive(Clone, Copy, Debug, PartialEq, Eq, Structural)]
pub enum Priv {
    User,
    Supervisor,
    Machine,
}

/// Cause of a trap: the synchronous exceptions first, the interrupts after them.
#[derive(Clone, Copy, Debug, PartialEq, Eq, Structural)]
pub enum Exception {
    InstructionAddressMisaligned,
    InstructionAccessFault,
    IllegalInstruction,
    Breakpoint,
    LoadAddressMisaligned,
    LoadAccessFault,
    StoreAddressMisaligned,
    StoreAccessFault,
    EnvironmentCallFromUMode,
    EnvironmentCallFromSMode,
    EnvironmentCallFromMMode,
    InstructionPageFault,
    LoadPageFault,
    StorePageFault,
    SupervisorSoftwareInterrupt,
    MachineSoftwareInterrupt,
    SupervisorTimerInterrupt,
    MachineTimerInterrupt,
    SupervisorExternalInterrupt,
    MachineExternalInterrupt,
}

/// A trap: its cause and the value that goes to `mtval` / `stval`.
#[derive(Clone, Copy, Debug, PartialEq, Eq, Structural)]
pub struct Trap {
    pub ttype: Exception,
    pub val: u64,
}

/// Width in bits of the integer registers for `xlen`.
pub open spec fn xlen_bits(xlen: Xlen) -> u64 {
    match xlen {
        Xlen::X32 => 32,
        Xlen::X64 => 64,
    }
}

/// The `MXL` encoding of `xlen`, as `misa` and `mstatus` hold it.
pub open spec fn xlen_misa(xlen: Xlen) -> u64 {
    match xlen {
        Xlen::X32 => 1,
        Xlen::X64 => 2,
    }
}

/// Numeric encoding of a privilege level.
pub open spec fn priv_encoding(p: Priv) -> u64 {
    match p {
        Priv::User => 0,
        Priv::Supervisor => 1,
        Priv::Machine => 3,
    }
}

/// Whether the cause is an interrupt (asynchronous) rather than an exception.
pub open spec fn is_interrupt(e: Exception) -> bool {
    match e {
        Exception::SupervisorSoftwareInterrupt
        | Exception::MachineSoftwareInterrupt
        | Exception::SupervisorTimerInterrupt
        | Exception::MachineTimerInterrupt
        | Exception::SupervisorExternalInterrupt
        | Exception::MachineExternalInterrupt => true,
        _ => false,
    }
}

/// Whether the cause is one of the three environment calls.
pub open spec fn is_environment_call(e: Exception) -> bool {
    e == Exception::EnvironmentCallFromUMode || e == Exception::EnvironmentCallFromSMode || e
        == Exception::EnvironmentCallFromMMode
}

/// The architectural cause number, without the interrupt bit.
pub open spec fn cause_code(e: Exception) -> u64 {
    match e {
        Exception::InstructionAddressMisaligned => 0,
        Exception::InstructionAccessFault => 1,
        Exception::IllegalInstruction => 2,
        Exception::Breakpoint => 3,
        Exception::LoadAddressMisaligned => 4,
        Exception::LoadAccessFault => 5,
        Exception::StoreAddressMisaligned => 6,
        Exception::StoreAccessFault => 7,
        Exception::EnvironmentCallFromUMode => 8,
        Exception::EnvironmentCallFromSMode => 9,
        Exception::EnvironmentCallFromMMode => 11,
        Exception::InstructionPageFault => 12,
        Exception::LoadPageFault => 13,
        Exception::StorePageFault => 15,
        Exception::SupervisorSoftwareInterrupt => 1,
        Exception::MachineSoftwareInterrupt => 3,
        Exception::SupervisorTimerInterrupt => 5,
        Exception::MachineTimerInterrupt => 7,
        Exception::SupervisorExternalInterrupt => 9,
        Exception::MachineExternalInterrupt => 11,
    }
}

/// The bit that marks an interrupt in an encoded cause: bit `XLEN - 1`.
pub open spec fn interrupt_bit(xlen: Xlen) -> u64 {
    match xlen {
        Xlen::X32 => 0x8000_0000,
        Xlen::X64 => 0x8000_0000_0000_0000,
    }
}

/// The encoded cause of a trap: the cause number, with the interrupt bit set for
/// an interrupt.
pub open spec fn trap_cause(trp: Trap, xlen: Xlen) -> u64 {
    if is_interrupt(trp.ttype) {
        cause_code(trp.ttype) | interrupt_bit(xlen)
    } else {
        cause_code(trp.ttype)
    }
}

/// `a + b` modulo 2^64.
pub open spec fn wrap_add(a: u64, b: u64) -> u64 {
    if a + b > u64::MAX {
        (a + b - 0x1_0000_0000_0000_0000) as u64
    } else {
        (a + b) as u64
    }
}

/// `a - b` modulo 2^64.
pub open spec fn wrap_sub(a: u64, b: u64) -> u64 {
    if a - b < 0 {
        (a - b + 0x1_0000_0000_0000_0000) as u64
    } else {
        (a - b) as u64
    }
}

/// Width in bits of the integer registers for `xlen`.
pub fn xlen2bits(xlen: Xlen) -> (bits: u64)
    ensures
        bits == xlen_bits(xlen),
{
    match xlen {
        Xlen::X32 => 32,
        Xlen::X64 => 64,
    }
}

/// The `MXL` encoding of `xlen`.
pub fn xlen2misa(xlen: Xlen) -> (mxl: u64)
    ensures
        mxl == xlen_misa(xlen),
{
    match xlen {
        Xlen::X32 => 1,
        Xlen::X64 => 2,
    }
}

/// Numeric encoding of a privilege level.
pub fn get_privilege_encoding(p: Priv) -> (enc: u64)
    ensures
        enc == priv_encoding(p),
{
    match p {
        Priv::User => 0,
        Priv::Supervisor => 1,
        Priv::Machine => 3,
    }
}

/// Whether the cause is an interrupt.
pub fn exception_is_interrupt(e: Exception) -> (b: bool)
    ensures
        b == is_interrupt(e),
{
    match e {
        Exception::SupervisorSoftwareInterrupt
        | Exception::MachineSoftwareInterrupt
        | Exception::SupervisorTimerInterrupt
        | Exception::MachineTimerInterrupt
        | Exception::SupervisorExternalInterrupt
        | Exception::MachineExternalInterrupt => true,
        _ => false,
    }
}

/// Whether the cause is one of the three environment calls.
pub fn exception_is_environment_call(e: Exception) -> (b: bool)
    ensures
        b == is_environment_call(e),
{
    match e {
        Exception::EnvironmentCallFromUMode
        | Exception::EnvironmentCallFromSMode
        | Exception::EnvironmentCallFromMMode => true,
        _ => false,
    }
}

/// The architectural cause number, without the interrupt bit.
pub fn get_cause_code(e: Exception) -> (code: u64)
    ensures
        code == cause_code(e),
        code < 16,
{
    match e {
        Exception::InstructionAddressMisaligned => 0,
        Exception::InstructionAccessFault => 1,
        Exception::IllegalInstruction => 2,
        Exception::Breakpoint => 3,
        Exception::LoadAddressMisaligned => 4,
        Exception::LoadAccessFault => 5,
        Exception::StoreAddressMisaligned => 6,
        Exception::StoreAccessFault => 7,
        Exception::EnvironmentCallFromUMode => 8,
        Exception::EnvironmentCallFromSMode => 9,
        Exception::EnvironmentCallFromMMode => 11,
        Exception::InstructionPageFault => 12,
        Exception::LoadPageFault => 13,
        Exception::StorePageFault => 15,
        Exception::SupervisorSoftwareInterrupt => 1,
        Exception::MachineSoftwareInterrupt => 3,
        Exception::SupervisorTimerInterrupt => 5,
        Exception::MachineTimerInterrupt => 7,
        Exception::SupervisorExternalInterrupt => 9,
        Exception::MachineExternalInterrupt => 11,
    }
}

/// The encoded cause of a trap, with the interrupt bit at bit `XLEN - 1`.
pub fn get_trap_cause(trp: Trap, xlen: Xlen) -> (cause: u64)
    ensures
        cause == trap_cause(trp, xlen),
{
    let code: u64 = get_cause_code(trp.ttype);
    if exception_is_interrupt(trp.ttype) {
        match xlen {
            Xlen::X32 => code | 0x8000_0000,
            Xlen::X64 => code | 0x8000_0000_0000_0000,
        }
    } else {
        code
    }
}

} // verus!
