//! What executing instructions means, stated over the model of a hart: the
//! effect of one instruction, one step of fetch, decode and execute, and a pass
//! of the execution loop without and with the block cache.

use crate::cache::{block_at, decode16_or_illegal, decode32_or_illegal, page_remaining, word_of};
use crate::defs::{
    CSR_MEPC_ADDRESS, CSR_MSTATUS_ADDRESS, CSR_SEPC_ADDRESS, CSR_SSTATUS_ADDRESS, Exception, Priv,
    priv_encoding, Trap, wrap_add, wrap_sub, Xlen,
};
use crate::hart::{cull_spec, HartView, sign_ext_spec};
use crate::instr::{encoding_of, Format, RiscvInstr, RiscvOp};
use crate::mem::{MemAccessType, valid_size};
use crate::trap::csr_stored;
use vstd::prelude::*;

verus! {

/// What an instruction does to the hart, once its operands were read.
#[derive(Clone, Copy, Debug, PartialEq, Eq, Structural)]
pub enum Effect {
    Nothing,
    /// `rd` gets `val`.
    WriteReg { rd: u8, val: u64 },
    /// `rd` gets `link`, and control goes to `target` when the pass ends.
    Jump { rd: u8, link: u64, target: u64 },
    /// The low `size` bytes of `val` go to physical address `paddr`.
    Store { paddr: u64, val: u64, size: u64 },
    Raise { trap: Trap },
    /// `rd` gets `prior`, the value CSR `idx` had; with `write`, the CSR gets a
    /// new value.
    WriteCsr { rd: u8, prior: u64, idx: usize, write: Option<u64> },
    /// Return from a trap handler: the status register `status_idx` gets
    /// `status`, the hart goes to privilege `prv`, control to `target`.
    Return { status_idx: usize, status: u64, prv: Priv, target: u64 },
    /// Halt until an interrupt arrives.
    Wait,
    /// Forget every cached block.
    FlushCache,
}

/// Register numbers are below 32, the length is 2 or 4, and a CSR instruction
/// names a CSR below 4096.
pub open spec fn instr_wf(i: RiscvInstr) -> bool {
    &&& i.args.rd < 32
    &&& i.args.rs1 < 32
    &&& i.args.rs2 < 32
    &&& (i.inc_by == 2 || i.inc_by == 4)
    &&& (encoding_of(i.func).format == Format::Csr ==> i.args.imm < 4096)
}

/// A value of `size` bytes, sign-extended to 64 bits.
pub open spec fn sext_from(v: u64, size: u64) -> u64 {
    if size == 1 && v >= 0x80 {
        (v + 0xffff_ffff_ffff_ff00) as u64
    } else if size == 2 && v >= 0x8000 {
        (v + 0xffff_ffff_ffff_0000) as u64
    } else if size == 4 && v >= 0x8000_0000 {
        (v + 0xffff_ffff_0000_0000) as u64
    } else {
        v
    }
}

/// The illegal-instruction trap of the instruction at `pc`.
pub open spec fn illegal_trap(pc: u64) -> Trap {
    Trap { ttype: Exception::IllegalInstruction, val: pc }
}

/// The environment call of a hart at privilege `prv`.
pub open spec fn ecall_trap(prv: Priv) -> Trap {
    Trap {
        ttype: match prv {
            Priv::User => Exception::EnvironmentCallFromUMode,
            Priv::Supervisor => Exception::EnvironmentCallFromSMode,
            Priv::Machine => Exception::EnvironmentCallFromMMode,
        },
        val: 0,
    }
}

/// The privilege level that a status register's previous-privilege field names.
pub open spec fn priv_of(enc: u64) -> Priv {
    if enc == 0 {
        Priv::User
    } else if enc == 1 {
        Priv::Supervisor
    } else {
        Priv::Machine
    }
}

/// `mstatus` after `mret`: the interrupt-enable bit gets back what bit 7 kept,
/// bit 7 is set, the previous privilege is user.
pub open spec fn mstatus_after_mret(status: u64) -> u64 {
    ((status & !0x1888u64) | (((status >> 7) & 1) << 3)) | 0x80
}

/// `sstatus` after `sret`: the interrupt-enable bit gets back what bit 5 kept,
/// bit 5 is set, the previous privilege is user.
pub open spec fn sstatus_after_sret(status: u64) -> u64 {
    ((status & !0x122u64) | (((status >> 5) & 1) << 1)) | 0x20
}

/// The size in bytes of the access of a load or store; 0 for another operation.
pub open spec fn access_size(op: RiscvOp) -> u64 {
    match op {
        RiscvOp::Lb | RiscvOp::Lbu | RiscvOp::Sb => 1,
        RiscvOp::Lh | RiscvOp::Lhu | RiscvOp::Sh => 2,
        RiscvOp::Lw | RiscvOp::Lwu | RiscvOp::Sw => 4,
        RiscvOp::Ld | RiscvOp::Sd => 8,
        _ => 0,
    }
}

/// Whether a load sign-extends what it read.
pub open spec fn load_signed(op: RiscvOp) -> bool {
    op == RiscvOp::Lb || op == RiscvOp::Lh || op == RiscvOp::Lw
}

/// Whether the operation exists only with 64-bit registers.
pub open spec fn needs_64(op: RiscvOp) -> bool {
    op == RiscvOp::Ld || op == RiscvOp::Lwu || op == RiscvOp::Sd
}

/// The address of a load or store: `rs1 + imm`, as many bits of it as an
/// address has.
pub open spec fn data_address(h: HartView, i: RiscvInstr) -> u64 {
    cull_spec(h.xlen, wrap_add(h.reg(i.args.rs1), i.args.imm))
}

/// The effect of a load: the register gets what memory holds at `rs1 + imm`,
/// or the access raises its trap.
pub open spec fn load_effect(h: HartView, i: RiscvInstr) -> Effect {
    let size = access_size(i.func);
    let addr = data_address(h, i);
    if needs_64(i.func) && h.xlen == Xlen::X32 {
        Effect::Raise { trap: illegal_trap(h.pc) }
    } else {
        match h.mem.resolve(addr, size, h.macc(MemAccessType::Read), false) {
            Err(t) => Effect::Raise { trap: t },
            Ok(p) => Effect::WriteReg {
                rd: i.args.rd,
                val: if load_signed(i.func) {
                    sext_from(h.mem.load(p, size), size)
                } else {
                    h.mem.load(p, size)
                },
            },
        }
    }
}

/// The effect of a store: memory at `rs1 + imm` gets the low bytes of `rs2`, or
/// the access raises its trap.
pub open spec fn store_effect(h: HartView, i: RiscvInstr) -> Effect {
    let size = access_size(i.func);
    let addr = data_address(h, i);
    if needs_64(i.func) && h.xlen == Xlen::X32 {
        Effect::Raise { trap: illegal_trap(h.pc) }
    } else {
        match h.mem.resolve(addr, size, h.macc(MemAccessType::Write), false) {
            Err(t) => Effect::Raise { trap: t },
            Ok(p) => Effect::Store { paddr: p, val: h.reg(i.args.rs2), size },
        }
    }
}

/// Whether a branch is taken on the operands `a` and `b`.
pub open spec fn branch_taken(op: RiscvOp, a: u64, b: u64) -> bool {
    match op {
        RiscvOp::Beq => a == b,
        RiscvOp::Bne => a != b,
        RiscvOp::Blt => (a as i64) < (b as i64),
        RiscvOp::Bge => (a as i64) >= (b as i64),
        RiscvOp::Bltu => a < b,
        _ => a >= b,
    }
}

/// Whether the operation works on the low 32 bits of 64-bit registers.
pub open spec fn is_word_op(op: RiscvOp) -> bool {
    match op {
        RiscvOp::Addiw
        | RiscvOp::Slliw
        | RiscvOp::Srliw
        | RiscvOp::Sraiw
        | RiscvOp::Addw
        | RiscvOp::Subw
        | RiscvOp::Sllw
        | RiscvOp::Srlw
        | RiscvOp::Sraw => true,
        _ => false,
    }
}

/// Whether the operation shifts by an immediate as wide as the registers.
pub open spec fn is_imm_shift(op: RiscvOp) -> bool {
    op == RiscvOp::Slli || op == RiscvOp::Srli || op == RiscvOp::Srai
}

/// The number of bits that a shift moves its operand by: the low five bits of
/// `b` for 32-bit registers, the low six for 64-bit ones.
pub open spec fn shift_amount(xlen: Xlen, b: u64) -> u64 {
    match xlen {
        Xlen::X32 => b & 0x1f,
        Xlen::X64 => b & 0x3f,
    }
}

/// The result of an arithmetic or logic operation on the operands `a` and `b`,
/// before it is fitted to the register width.
pub open spec fn alu(xlen: Xlen, op: RiscvOp, a: u64, b: u64) -> u64 {
    match op {
        RiscvOp::Addi
        | RiscvOp::Add
        | RiscvOp::CAddi
        | RiscvOp::CLi
        | RiscvOp::CMv
        | RiscvOp::CAdd => wrap_add(
            a,
            b,
        ),
        RiscvOp::Sub => wrap_sub(a, b),
        RiscvOp::Slti | RiscvOp::Slt => if (a as i64) < (b as i64) {
            1
        } else {
            0
        },
        RiscvOp::Sltiu | RiscvOp::Sltu => if a < b {
            1
        } else {
            0
        },
        RiscvOp::Xori | RiscvOp::Xor => a ^ b,
        RiscvOp::Ori | RiscvOp::Or => a | b,
        RiscvOp::Slli | RiscvOp::Sll => a << shift_amount(xlen, b),
        RiscvOp::Srli | RiscvOp::Srl => cull_spec(xlen, a) >> shift_amount(xlen, b),
        RiscvOp::Srai | RiscvOp::Sra => match xlen {
            Xlen::X32 => ((a as i32) >> (b & 0x1f)) as i64 as u64,
            Xlen::X64 => ((a as i64) >> (b & 0x3f)) as u64,
        },
        RiscvOp::Addiw | RiscvOp::Addw => (wrap_add(a, b) as i32) as i64 as u64,
        RiscvOp::Subw => (wrap_sub(a, b) as i32) as i64 as u64,
        RiscvOp::Slliw | RiscvOp::Sllw => ((a << (b & 0x1f)) as i32) as i64 as u64,
        RiscvOp::Srliw | RiscvOp::Srlw => (((a & 0xffff_ffff) >> (b & 0x1f)) as i32) as i64 as u64,
        RiscvOp::Sraiw | RiscvOp::Sraw => ((a as i32) >> (b & 0x1f)) as i64 as u64,
        _ => a & b,
    }
}

/// The effect of an arithmetic or logic operation with `b` as its second
/// operand: the register gets the result, fitted to the register width. An
/// operation on words is illegal with 32-bit registers, and so is a shift by
/// an immediate of 32 or more.
pub open spec fn alu_effect(h: HartView, i: RiscvInstr, b: u64) -> Effect {
    if h.xlen == Xlen::X32 && (is_word_op(i.func) || (is_imm_shift(i.func) && b & 0x20 != 0)) {
        Effect::Raise { trap: illegal_trap(h.pc) }
    } else {
        Effect::WriteReg {
            rd: i.args.rd,
            val: sign_ext_spec(h.xlen, alu(h.xlen, i.func, h.reg(i.args.rs1), b)),
        }
    }
}

/// Whether a CSR instruction takes its source from the immediate in the `rs1`
/// field.
pub open spec fn csr_takes_immediate(op: RiscvOp) -> bool {
    op == RiscvOp::Csrrwi || op == RiscvOp::Csrrsi || op == RiscvOp::Csrrci
}

/// The effect of a CSR instruction: the register gets what the CSR held, and
/// the CSR gets the source (write), its bits set where the source has bits set
/// (set) or cleared there (clear); set and clear with register or immediate 0
/// only read. The instruction is illegal where the hart's privilege is below
/// the one the CSR asks for (bits 8 and 9 of its number) or where it would
/// write a read-only CSR (bits 10 and 11 both set).
pub open spec fn csr_effect(h: HartView, i: RiscvInstr) -> Effect {
    let idx = i.args.imm as usize;
    let old = h.csr[idx as int];
    let src = if csr_takes_immediate(i.func) {
        i.args.rs1 as u64
    } else {
        h.reg(i.args.rs1)
    };
    let write = if i.func == RiscvOp::Csrrw || i.func == RiscvOp::Csrrwi {
        Some(src)
    } else if i.args.rs1 == 0 {
        None
    } else if i.func == RiscvOp::Csrrs || i.func == RiscvOp::Csrrsi {
        Some(old | src)
    } else {
        Some(old & !src)
    };
    if priv_encoding(h.prvmode) < (i.args.imm / 256) % 4 || (write is Some && i.args.imm / 1024
        == 3) {
        Effect::Raise { trap: illegal_trap(h.pc) }
    } else {
        Effect::WriteCsr { rd: i.args.rd, prior: old, idx, write }
    }
}

/// The effect of instruction `i` on hart `h`.
pub open spec fn effect_of(h: HartView, i: RiscvInstr) -> Effect {
    let a = i.args;
    match i.func {
        RiscvOp::Illegal => Effect::Raise { trap: illegal_trap(h.pc) },
        RiscvOp::Lui => Effect::WriteReg { rd: a.rd, val: sign_ext_spec(h.xlen, a.imm) },
        RiscvOp::Auipc => Effect::WriteReg {
            rd: a.rd,
            val: sign_ext_spec(h.xlen, wrap_add(h.pc, a.imm)),
        },
        RiscvOp::Jal | RiscvOp::CJ => Effect::Jump {
            rd: a.rd,
            link: sign_ext_spec(h.xlen, h.next_pc()),
            target: cull_spec(h.xlen, wrap_add(h.pc, a.imm)),
        },
        RiscvOp::Jalr | RiscvOp::CJr | RiscvOp::CJalr => Effect::Jump {
            rd: a.rd,
            link: sign_ext_spec(h.xlen, h.next_pc()),
            target: cull_spec(h.xlen, wrap_add(h.reg(a.rs1), a.imm) & !1u64),
        },
        RiscvOp::Beq
        | RiscvOp::Bne
        | RiscvOp::Blt
        | RiscvOp::Bge
        | RiscvOp::Bltu
        | RiscvOp::Bgeu => if branch_taken(
            i.func,
            h.reg(a.rs1),
            h.reg(a.rs2),
        ) {
            Effect::Jump { rd: 0, link: 0, target: cull_spec(h.xlen, wrap_add(h.pc, a.imm)) }
        } else {
            Effect::Nothing
        },
        RiscvOp::Lb
        | RiscvOp::Lh
        | RiscvOp::Lw
        | RiscvOp::Ld
        | RiscvOp::Lbu
        | RiscvOp::Lhu
        | RiscvOp::Lwu => load_effect(
            h,
            i,
        ),
        RiscvOp::Sb | RiscvOp::Sh | RiscvOp::Sw | RiscvOp::Sd => store_effect(h, i),
        RiscvOp::Addi
        | RiscvOp::Slti
        | RiscvOp::Sltiu
        | RiscvOp::Xori
        | RiscvOp::Ori
        | RiscvOp::Andi
        | RiscvOp::Slli
        | RiscvOp::Srli
        | RiscvOp::Srai
        | RiscvOp::Addiw
        | RiscvOp::Slliw
        | RiscvOp::Srliw
        | RiscvOp::Sraiw
        | RiscvOp::CAddi
        | RiscvOp::CLi => alu_effect(h, i, a.imm),
        RiscvOp::Add
        | RiscvOp::Sub
        | RiscvOp::Slt
        | RiscvOp::Sltu
        | RiscvOp::Xor
        | RiscvOp::Or
        | RiscvOp::And
        | RiscvOp::Sll
        | RiscvOp::Srl
        | RiscvOp::Sra
        | RiscvOp::Addw
        | RiscvOp::Subw
        | RiscvOp::Sllw
        | RiscvOp::Srlw
        | RiscvOp::Sraw
        | RiscvOp::CMv
        | RiscvOp::CAdd => alu_effect(h, i, h.reg(a.rs2)),
        RiscvOp::Fence => Effect::Nothing,
        RiscvOp::FenceI => Effect::FlushCache,
        RiscvOp::Ecall => Effect::Raise { trap: ecall_trap(h.prvmode) },
        RiscvOp::Ebreak | RiscvOp::CEbreak => Effect::Raise {
            trap: Trap { ttype: Exception::Breakpoint, val: h.pc },
        },
        RiscvOp::Mret => if h.prvmode == Priv::Machine {
            Effect::Return {
                status_idx: CSR_MSTATUS_ADDRESS,
                status: mstatus_after_mret(h.csr[CSR_MSTATUS_ADDRESS as int]),
                prv: priv_of((h.csr[CSR_MSTATUS_ADDRESS as int] >> 11) & 3),
                target: h.csr[CSR_MEPC_ADDRESS as int],
            }
        } else {
            Effect::Raise { trap: illegal_trap(h.pc) }
        },
        RiscvOp::Sret => if h.prvmode != Priv::User {
            Effect::Return {
                status_idx: CSR_SSTATUS_ADDRESS,
                status: sstatus_after_sret(h.csr[CSR_SSTATUS_ADDRESS as int]),
                prv: priv_of((h.csr[CSR_SSTATUS_ADDRESS as int] >> 8) & 1),
                target: h.csr[CSR_SEPC_ADDRESS as int],
            }
        } else {
            Effect::Raise { trap: illegal_trap(h.pc) }
        },
        RiscvOp::Wfi => Effect::Wait,
        RiscvOp::Csrrw
        | RiscvOp::Csrrs
        | RiscvOp::Csrrc
        | RiscvOp::Csrrwi
        | RiscvOp::Csrrsi
        | RiscvOp::Csrrci => csr_effect(h, i),
    }
}

/// Whether hart `h` can take effect `e`: registers and CSRs exist, and a store
/// lies in memory.
pub open spec fn effect_ok(h: HartView, e: Effect) -> bool {
    match e {
        Effect::WriteReg { rd, .. } => rd < 32,
        Effect::Jump { rd, .. } => rd < 32,
        Effect::Store { paddr, size, .. } => valid_size(size) && paddr % size == 0 && h.mem.present(
            paddr,
            size,
        ),
        Effect::WriteCsr { rd, idx, .. } => rd < 32 && idx < 4096,
        Effect::Return { status_idx, .. } => status_idx < 4096,
        _ => true,
    }
}

/// Hart `h` after effect `e`.
pub open spec fn commit(h: HartView, e: Effect) -> HartView {
    match e {
        Effect::Nothing => h,
        Effect::FlushCache => h,
        Effect::WriteReg { rd, val } => HartView { regs: h.regs.update(rd as int, val), ..h },
        Effect::Jump { rd, link, target } => HartView {
            regs: h.regs.update(rd as int, link),
            want_pc: Some(target),
            stop_exec: true,
            ..h
        },
        Effect::Store { paddr, val, size } => HartView {
            mem: h.mem.store(paddr, val, size),
            is_reservation: false,
            ..h
        },
        Effect::Raise { trap } => h.raise(trap),
        Effect::WriteCsr { rd, prior, idx, write } => HartView {
            regs: h.regs.update(rd as int, prior),
            csr: match write {
                Some(v) => h.csr.update(idx as int, csr_stored(h.xlen, idx as int, v)),
                None => h.csr,
            },
            ..h
        },
        Effect::Return { status_idx, status, prv, target } => HartView {
            csr: h.csr.update(status_idx as int, status),
            prvmode: prv,
            want_pc: Some(target),
            stop_exec: true,
            ..h
        },
        Effect::Wait => HartView { wfi: true, stop_exec: true, ..h },
    }
}

/// Hart `h` after instruction `i` executed: `is_compressed` says whether `i` is
/// a 16-bit instruction, the effect of `i` took place, the program counter
/// moved on by the length of `i`, and `x0` is zero.
#[verifier::opaque]
pub open spec fn apply(h: HartView, i: RiscvInstr) -> HartView {
    let h1 = HartView { is_compressed: i.inc_by == 2, ..h };
    let h2 = commit(h1, effect_of(h1, i));
    HartView { pc: wrap_add(h2.pc, i.inc_by), regs: h2.regs.update(0, 0), ..h2 }
}

/// The instruction at the program counter, or the trap that fetching it raises.
/// The second half-word is fetched, through its own address lookup, only where
/// the first one begins a 32-bit instruction.
#[verifier::opaque]
pub open spec fn fetch_spec(h: HartView) -> Result<RiscvInstr, Trap> {
    match h.mem.resolve(h.pc, 2, h.macc(MemAccessType::Execute), false) {
        Err(t) => Err(t),
        Ok(p) => {
            let lo = h.mem.load(p, 2) as u16;
            if lo & 3 != 3 {
                Ok(decode16_or_illegal(lo))
            } else {
                match h.mem.resolve(wrap_add(h.pc, 2), 2, h.macc(MemAccessType::Execute), false) {
                    Err(t) => Err(t),
                    Ok(q) => Ok(decode32_or_illegal(word_of(lo, h.mem.load(q, 2) as u16))),
                }
            }
        },
    }
}

/// One step: the instruction at the program counter executes, or the trap of
/// its fetch is raised.
pub open spec fn step_spec(h: HartView) -> HartView {
    match fetch_spec(h) {
        Err(t) => h.raise(t),
        Ok(i) => apply(h, i),
    }
}

/// A pass without the cache: step after step, until a step leaves `stop_exec`
/// set, at most `fuel` steps.
pub open spec fn uncached_run(h: HartView, fuel: nat) -> HartView
    decreases fuel,
{
    if fuel == 0 {
        h
    } else {
        let h1 = step_spec(h);
        if h1.stop_exec {
            h1
        } else {
            uncached_run(h1, (fuel - 1) as nat)
        }
    }
}

/// What a pass without the cache returns: the trap of the fetch that ended it,
/// if one did.
pub open spec fn uncached_result(h: HartView, fuel: nat) -> Result<(), Trap>
    decreases fuel,
{
    if fuel == 0 {
        Ok(())
    } else {
        match fetch_spec(h) {
            Err(t) => Err(t),
            Ok(i) => if apply(h, i).stop_exec {
                Ok(())
            } else {
                uncached_result(apply(h, i), (fuel - 1) as nat)
            },
        }
    }
}

/// Hart `h` after the instructions of `instrs` from index `from` on executed,
/// one after the other, until one left `stop_exec` set.
pub open spec fn run_block(h: HartView, instrs: Seq<RiscvInstr>, from: int) -> HartView
    decreases instrs.len() - from,
{
    if from < 0 || from >= instrs.len() {
        h
    } else {
        let h1 = apply(h, instrs[from]);
        if h1.stop_exec {
            h1
        } else {
            run_block(h1, instrs, from + 1)
        }
    }
}

/// How one round of a pass with the cache leaves the hart: whether the pass
/// ends with it, and with which result, and whether the round was the single
/// step near the end of a page.
pub struct PassOutcome {
    pub hart: HartView,
    pub ended: Option<Result<(), Trap>>,
    pub fell_back: bool,
}

/// What a fetch returns to the pass that made it.
pub open spec fn fetch_result(h: HartView) -> Result<(), Trap> {
    match fetch_spec(h) {
        Err(t) => Err(t),
        Ok(_) => Ok(()),
    }
}

/// One round of a pass with the cache. Within four bytes of the end of a page
/// the round is one step with `stop_exec` set, and the pass ends. Elsewhere the
/// block that memory holds at the program counter executes with `stop_exec`
/// clear at its start, and the pass ends if `stop_exec` is set afterwards; a
/// program counter that cannot be fetched from raises its trap and ends the
/// pass.
pub open spec fn cached_round(h: HartView) -> PassOutcome {
    if page_remaining(h.pc) < 4 {
        let h0 = HartView { stop_exec: true, ..h };
        PassOutcome { hart: step_spec(h0), ended: Some(fetch_result(h0)), fell_back: true }
    } else {
        match h.mem.resolve(h.pc, 2, h.macc(MemAccessType::Execute), false) {
            Err(t) => PassOutcome { hart: h.raise(t), ended: Some(Err(t)), fell_back: false },
            Ok(p) => {
                let h1 = run_block(HartView { stop_exec: false, ..h }, block_at(h.mem, p), 0);
                PassOutcome {
                    hart: h1,
                    ended: if h1.stop_exec {
                        Some(Ok(()))
                    } else {
                        None
                    },
                    fell_back: false,
                }
            },
        }
    }
}

/// A pass with the cache: round after round until one ends the pass, at most
/// `fuel` rounds.
pub open spec fn cached_pass(h: HartView, fuel: nat) -> PassOutcome
    decreases fuel,
{
    if fuel == 0 {
        PassOutcome { hart: h, ended: None, fell_back: false }
    } else {
        let o = cached_round(h);
        if o.ended is Some {
            o
        } else {
            cached_pass(o.hart, (fuel - 1) as nat)
        }
    }
}

/// The hart after a pass with the cache of at most `fuel` rounds.
pub open spec fn cached_run(h: HartView, fuel: nat) -> HartView {
    cached_pass(h, fuel).hart
}

/// What a pass with the cache returns: the trap of the fetch that ended it, if
/// one did.
pub open spec fn cached_result(h: HartView, fuel: nat) -> Result<(), Trap> {
    match cached_pass(h, fuel).ended {
        Some(r) => r,
        None => Ok(()),
    }
}

} // verus!
