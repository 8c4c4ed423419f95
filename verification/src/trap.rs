//! Trap delivery: which privilege level takes a trap, what the status, cause,
//! value and exception-pc registers hold afterwards, and the fix-up that every
//! write of `mstatus` goes through.

use crate::defs::{
    cause_code, CSR_COUNT, CSR_MCAUSE_ADDRESS, CSR_MEDELEG_ADDRESS, CSR_MEPC_ADDRESS,
    CSR_MIDELEG_ADDRESS, CSR_MSTATUS_ADDRESS, CSR_MTVAL_ADDRESS, CSR_MTVEC_ADDRESS,
    CSR_SCAUSE_ADDRESS, CSR_SEPC_ADDRESS, CSR_SSTATUS_ADDRESS, CSR_STVAL_ADDRESS, CSR_STVEC_ADDRESS,
    exception_is_interrupt, get_cause_code, get_privilege_encoding, is_interrupt, Priv,
    priv_encoding, Trap, wrap_add, Xlen, xlen2misa,
};
use crate::hart::{HartView, RiscvInt};
use vstd::prelude::*;

verus! {

/// `m` as `mstatus` stores it: bit 6 is clear, and for 64 bits so are bits 36
/// and 37, while the fields `uxl` (bits 32, 33) and `sxl` (bits 34, 35) hold the
/// encoding of the register width.
pub open spec fn mstatus_fixed(xlen: Xlen, m: u64) -> u64 {
    let a = m & !(1u64 << 6);
    if xlen == Xlen::X64 {
        let b = (a & !(1u64 << 36)) & !(1u64 << 37);
        let c = (b & !(3u64 << 32)) | ((2u64 & 3) << 32);
        (c & !(3u64 << 34)) | ((2u64 & 3) << 34)
    } else {
        a
    }
}

/// The value that a write of `val` leaves in CSR `idx`.
pub open spec fn csr_stored(xlen: Xlen, idx: int, val: u64) -> u64 {
    if idx == CSR_MSTATUS_ADDRESS {
        mstatus_fixed(xlen, val)
    } else {
        val
    }
}

/// Whether supervisor mode takes the trap: the hart runs below machine
/// privilege and the delegation register of the trap's kind (`mideleg` for an
/// interrupt, `medeleg` for an exception) has the bit of its cause set.
pub open spec fn delegated(h: HartView, trp: Trap) -> bool {
    let deleg = if is_interrupt(trp.ttype) {
        h.csr[CSR_MIDELEG_ADDRESS as int]
    } else {
        h.csr[CSR_MEDELEG_ADDRESS as int]
    };
    priv_encoding(h.prvmode) <= 1 && ((deleg >> cause_code(trp.ttype)) & 1) != 0
}

/// Where a trap vector sends the hart: the base, and for a vectored interrupt
/// four bytes more for each cause number.
pub open spec fn trap_target(tvec: u64, trp: Trap) -> u64 {
    let vector = if (tvec & 1) != 0 && is_interrupt(trp.ttype) {
        (4 * cause_code(trp.ttype)) as u64
    } else {
        0
    };
    wrap_add(tvec & !1u64, vector)
}

/// `sstatus` after a trap into supervisor mode from privilege encoding `prv`.
pub open spec fn sstatus_after_trap(status: u64, prv: u64) -> u64 {
    (status & !0x122u64) | (((status >> 1) & 1) << 5) | ((prv & 1) << 8)
}

/// `mstatus` after a trap into machine mode from privilege encoding `prv`.
pub open spec fn mstatus_after_trap(status: u64, prv: u64) -> u64 {
    (status & !0x1888u64) | (((status >> 3) & 1) << 7) | (prv << 11)
}

/// The hart after trap `trp`, raised at `trapped_pc`, was delivered.
pub open spec fn deliver_trap(h: HartView, trp: Trap, trapped_pc: u64) -> HartView {
    let reason = cause_code(trp.ttype);
    let prv = priv_encoding(h.prvmode);
    if delegated(h, trp) {
        HartView {
            pc: trap_target(h.csr[CSR_STVEC_ADDRESS as int], trp),
            csr: h.csr.update(CSR_SCAUSE_ADDRESS as int, reason).update(
                CSR_SEPC_ADDRESS as int,
                trapped_pc,
            ).update(CSR_STVAL_ADDRESS as int, trp.val).update(
                CSR_SSTATUS_ADDRESS as int,
                sstatus_after_trap(h.csr[CSR_SSTATUS_ADDRESS as int], prv),
            ),
            prvmode: Priv::Supervisor,
            is_reservation: false,
            ..h
        }
    } else {
        HartView {
            pc: trap_target(h.csr[CSR_MTVEC_ADDRESS as int], trp),
            csr: h.csr.update(CSR_MCAUSE_ADDRESS as int, reason).update(
                CSR_MEPC_ADDRESS as int,
                trapped_pc,
            ).update(CSR_MTVAL_ADDRESS as int, trp.val).update(
                CSR_MSTATUS_ADDRESS as int,
                mstatus_after_trap(h.csr[CSR_MSTATUS_ADDRESS as int], prv),
            ),
            prvmode: Priv::Machine,
            is_reservation: false,
            ..h
        }
    }
}

proof fn lemma_status_fields(status: u64, prv: u64)
    by (bit_vector)
    requires
        prv <= 3,
    ensures
        prv <= 1 ==> ((((status & !0x122u64) | (((status >> 1) & 1) << 5) | ((prv & 1) << 8)) >> 8)
            & 1) == prv,
        ((((status & !0x122u64) | (((status >> 1) & 1) << 5) | ((prv & 1) << 8)) >> 5) & 1) == ((
        status >> 1) & 1),
        ((((status & !0x122u64) | (((status >> 1) & 1) << 5) | ((prv & 1) << 8)) >> 1) & 1) == 0,
        ((((status & !0x1888u64) | (((status >> 3) & 1) << 7) | (prv << 11)) >> 11) & 3) == prv,
        ((((status & !0x1888u64) | (((status >> 3) & 1) << 7) | (prv << 11)) >> 7) & 1) == ((status
            >> 3) & 1),
        ((((status & !0x1888u64) | (((status >> 3) & 1) << 7) | (prv << 11)) >> 3) & 1) == 0,
{
}

proof fn lemma_mstatus_fixed_bits(m: u64)
    by (bit_vector)
    ensures
        ({
            let a = m & !(1u64 << 6);
            a & (1u64 << 6)
        }) == 0,
        ({
            let a = m & !(1u64 << 6);
            let b = (a & !(1u64 << 36)) & !(1u64 << 37);
            let c = (b & !(3u64 << 32)) | ((2u64 & 3) << 32);
            let d = (c & !(3u64 << 34)) | ((2u64 & 3) << 34);
            d & (1u64 << 6) == 0 && d & (1u64 << 36) == 0 && d & (1u64 << 37) == 0 && (d >> 32) & 3
                == 2 && (d >> 34) & 3 == 2
        }),
{
}

/// What `mstatus` holds after any write: bit 6 is clear; for 64 bits, bits 36
/// and 37 are clear and both `sxl` and `uxl` equal the encoding of the width.
pub proof fn lemma_mstatus_write(xlen: Xlen, val: u64)
    ensures
        csr_stored(xlen, CSR_MSTATUS_ADDRESS as int, val) & (1u64 << 6) == 0,
        xlen == Xlen::X64 ==> {
            let m = csr_stored(xlen, CSR_MSTATUS_ADDRESS as int, val);
            &&& m & (1u64 << 36) == 0
            &&& m & (1u64 << 37) == 0
            &&& (m >> 32) & 3 == crate::defs::xlen_misa(xlen)
            &&& (m >> 34) & 3 == crate::defs::xlen_misa(xlen)
        },
{
    lemma_mstatus_fixed_bits(val);
}

/// After a trap that supervisor mode takes, `sepc` holds the program counter at
/// which the trap was raised, `scause` its cause number, `stval` its value, and
/// bit 8 of `sstatus` (`SPP`) the privilege level that the hart came from: 0 for
/// user, 1 for supervisor. The interrupt-enable bit moved to bit 5 and is clear.
pub proof fn lemma_supervisor_trap(h: HartView, trp: Trap, trapped_pc: u64)
    requires
        h.wf(),
        delegated(h, trp),
    ensures
        ({
            let d = deliver_trap(h, trp, trapped_pc);
            let s = d.csr[CSR_SSTATUS_ADDRESS as int];
            &&& d.prvmode == Priv::Supervisor
            &&& d.csr[CSR_SEPC_ADDRESS as int] == trapped_pc
            &&& d.csr[CSR_SCAUSE_ADDRESS as int] == cause_code(trp.ttype)
            &&& d.csr[CSR_STVAL_ADDRESS as int] == trp.val
            &&& (s >> 8) & 1 == priv_encoding(h.prvmode)
            &&& (s >> 5) & 1 == (h.csr[CSR_SSTATUS_ADDRESS as int] >> 1) & 1
            &&& (s >> 1) & 1 == 0
        }),
{
    lemma_status_fields(h.csr[CSR_SSTATUS_ADDRESS as int], priv_encoding(h.prvmode));
}

/// After a trap that machine mode takes, `mepc` holds the program counter at
/// which the trap was raised, `mcause` its cause number, `mtval` its value, and
/// bits 11 and 12 of `mstatus` (`MPP`) the privilege level that the hart came
/// from: 0 for user, 1 for supervisor, 3 for machine. The interrupt-enable bit
/// moved to bit 7 and is clear.
pub proof fn lemma_machine_trap(h: HartView, trp: Trap, trapped_pc: u64)
    requires
        h.wf(),
        !delegated(h, trp),
    ensures
        ({
            let d = deliver_trap(h, trp, trapped_pc);
            let s = d.csr[CSR_MSTATUS_ADDRESS as int];
            &&& d.prvmode == Priv::Machine
            &&& d.csr[CSR_MEPC_ADDRESS as int] == trapped_pc
            &&& d.csr[CSR_MCAUSE_ADDRESS as int] == cause_code(trp.ttype)
            &&& d.csr[CSR_MTVAL_ADDRESS as int] == trp.val
            &&& (s >> 11) & 3 == priv_encoding(h.prvmode)
            &&& (h.prvmode == Priv::User ==> (s >> 11) & 3 == 0)
            &&& (h.prvmode == Priv::Supervisor ==> (s >> 11) & 3 == 1)
            &&& (s >> 7) & 1 == (h.csr[CSR_MSTATUS_ADDRESS as int] >> 3) & 1
            &&& (s >> 3) & 1 == 0
        }),
{
    lemma_status_fields(h.csr[CSR_MSTATUS_ADDRESS as int], priv_encoding(h.prvmode));
}

impl RiscvInt {
    /// Writes `val` to CSR `idx`; a write of `mstatus` stores the fixed-up
    /// value.
    pub fn set_csr_raw(&mut self, idx: usize, val: u64)
        requires
            idx < CSR_COUNT,
        ensures
            final(self)@ == (HartView {
                csr: old(self)@.csr.update(idx as int, csr_stored(old(self).xlen, idx as int, val)),
                ..old(self)@
            }),
            final(self).same_cache(old(self)),
    {
        let stored: u64 = if idx == CSR_MSTATUS_ADDRESS {
            self.mstatus_fixup(val)
        } else {
            val
        };
        self.csr[idx] = stored;
    }

    /// Delivers trap `trp`, raised at `trapped_pc`: to supervisor mode where the
    /// hart runs below machine privilege and the trap's cause is delegated, to
    /// machine mode otherwise. The cause, exception-pc and value registers of
    /// that mode get the cause number, `trapped_pc` and the trap's value; its
    /// status register records the privilege level the hart came from and the
    /// interrupt-enable bit, which it clears; the program counter moves to the
    /// mode's trap vector. The reservation is gone.
    #[verifier::rlimit(30)]
    pub fn handle_trap(&mut self, trp: Trap, trapped_pc: u64)
        ensures
            final(self)@ == deliver_trap(old(self)@, trp, trapped_pc),
            final(self).same_cache(old(self)),
    {
        let reason: u64 = get_cause_code(trp.ttype);
        let intr: bool = exception_is_interrupt(trp.ttype);
        let prv: u64 = get_privilege_encoding(self.prvmode);
        let mut hsdeleg: u64 = 0;
        if intr {
            if prv <= 1 {
                hsdeleg = self.csr[CSR_MIDELEG_ADDRESS];
            }
        } else {
            if prv <= 1 {
                hsdeleg = self.csr[CSR_MEDELEG_ADDRESS];
            }
        }
        if prv <= 1 && ((hsdeleg >> reason) & 1) != 0 {
            let stvec: u64 = self.csr[CSR_STVEC_ADDRESS];
            let vector: u64 = if ((stvec & 1) != 0) && intr {
                4 * reason
            } else {
                0
            };
            self.pc = (stvec & !1u64).wrapping_add(vector);
            self.csr[CSR_SCAUSE_ADDRESS] = reason;
            self.csr[CSR_SEPC_ADDRESS] = trapped_pc;
            self.csr[CSR_STVAL_ADDRESS] = trp.val;
            let status: u64 = self.csr[CSR_SSTATUS_ADDRESS];
            let sie: u64 = (status >> 1) & 1;
            self.csr[CSR_SSTATUS_ADDRESS] = (status & !0x122u64) | (sie << 5) | ((prv & 1) << 8);
            self.change_priv(Priv::Supervisor);
        } else {
            let mtvec: u64 = self.csr[CSR_MTVEC_ADDRESS];
            let vector: u64 = if ((mtvec & 1) != 0) && intr {
                4 * reason
            } else {
                0
            };
            self.pc = (mtvec & !1u64).wrapping_add(vector);
            self.csr[CSR_MCAUSE_ADDRESS] = reason;
            self.csr[CSR_MEPC_ADDRESS] = trapped_pc;
            self.csr[CSR_MTVAL_ADDRESS] = trp.val;
            let status: u64 = self.csr[CSR_MSTATUS_ADDRESS];
            let mie: u64 = (status >> 3) & 1;
            self.csr[CSR_MSTATUS_ADDRESS] = (status & !0x1888u64) | (mie << 7) | (prv << 11);
            self.change_priv(Priv::Machine);
        }
        self.is_reservation = false;
    }

    /// `m` as `mstatus` stores it.
    pub fn mstatus_fixup(&self, m: u64) -> (r: u64)
        ensures
            r == mstatus_fixed(self.xlen, m),
    {
        let mut mstatus: u64 = m;
        mstatus = mstatus & !(1u64 << 6);
        match self.xlen {
            Xlen::X64 => {
                mstatus = mstatus & !(1u64 << 36);
                mstatus = mstatus & !(1u64 << 37);
                let s: u64 = xlen2misa(self.xlen);
                mstatus = mstatus & !(3u64 << 32);
                mstatus = mstatus | ((s & 3) << 32);
                mstatus = mstatus & !(3u64 << 34);
                mstatus = mstatus | ((s & 3) << 34);
            },
            Xlen::X32 => {},
        }
        mstatus
    }

    /// Nothing of `mstatus` is kept outside the CSR file, so nothing is left to
    /// write back: the hart stays as it is.
    pub fn flush_mstatus(&mut self)
        ensures
            final(self)@ == old(self)@,
            final(self).same_cache(old(self)),
    {
    }
}

} // verus!
