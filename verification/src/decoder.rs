//! The 32-bit instruction encodings: from a word to a decoded instruction and
//! back.

use crate::instr::{Encoding, encoding_of, Format, get_encoding, RiscvArgs, RiscvInstr, RiscvOp};
use vstd::prelude::*;

verus! {

pub open spec fn f_opcode(w: u32) -> u32 {
    w & 0x7f
}

pub open spec fn f_rd(w: u32) -> u8 {
    ((w >> 7) & 0x1f) as u8
}

pub open spec fn f_funct3(w: u32) -> u32 {
    (w >> 12) & 7
}

pub open spec fn f_rs1(w: u32) -> u8 {
    ((w >> 15) & 0x1f) as u8
}

pub open spec fn f_rs2(w: u32) -> u8 {
    ((w >> 20) & 0x1f) as u8
}

pub open spec fn f_funct7(w: u32) -> u32 {
    w >> 25
}

/// The immediate of an `I` word: bits 20 to 31, sign-extended.
pub open spec fn imm_i(w: u32) -> u64 {
    ((w as i32) >> 20) as i64 as u64
}

/// The immediate of an `S` word: bits 25 to 31 over bits 7 to 11, sign-extended.
pub open spec fn imm_s(w: u32) -> u64 {
    ((((w & 0xfe00_0000) as i32) >> 20) as i64 as u64) | (((w >> 7) & 0x1f) as u64)
}

/// The branch offset of a `B` word, sign-extended; bit 0 is zero.
pub open spec fn imm_b(w: u32) -> u64 {
    ((((w & 0x8000_0000) as i32) >> 19) as i64 as u64) | ((((w >> 7) & 1) << 11) as u64) | ((((w
        >> 25) & 0x3f) << 5) as u64) | ((((w >> 8) & 0xf) << 1) as u64)
}

/// The immediate of a `U` word: bits 12 to 31 in place, sign-extended.
pub open spec fn imm_u(w: u32) -> u64 {
    ((w & 0xffff_f000) as i32) as i64 as u64
}

/// The jump offset of a `J` word, sign-extended; bit 0 is zero.
pub open spec fn imm_j(w: u32) -> u64 {
    ((((w & 0x8000_0000) as i32) >> 11) as i64 as u64) | ((w & 0x000f_f000) as u64) | ((((w >> 20)
        & 1) << 11) as u64) | ((((w >> 21) & 0x3ff) << 1) as u64)
}

/// The CSR number of a CSR word: bits 20 to 31.
pub open spec fn imm_csr(w: u32) -> u64 {
    (w >> 20) as u64
}

pub open spec fn enc_r(opcode: u32, funct3: u32, funct7: u32, rd: u8, rs1: u8, rs2: u8) -> u32 {
    opcode | ((rd as u32) << 7) | (funct3 << 12) | ((rs1 as u32) << 15) | ((rs2 as u32) << 20) | (
    funct7 << 25)
}

pub open spec fn enc_i(opcode: u32, funct3: u32, rd: u8, rs1: u8, imm: u64) -> u32 {
    opcode | ((rd as u32) << 7) | (funct3 << 12) | ((rs1 as u32) << 15) | (((imm & 0xfff) as u32)
        << 20)
}

pub open spec fn enc_s(opcode: u32, funct3: u32, rs1: u8, rs2: u8, imm: u64) -> u32 {
    opcode | (((imm & 0x1f) as u32) << 7) | (funct3 << 12) | ((rs1 as u32) << 15) | ((rs2 as u32)
        << 20) | ((((imm >> 5) & 0x7f) as u32) << 25)
}

pub open spec fn enc_b(opcode: u32, funct3: u32, rs1: u8, rs2: u8, imm: u64) -> u32 {
    opcode | ((((imm >> 11) & 1) as u32) << 7) | ((((imm >> 1) & 0xf) as u32) << 8) | (funct3
        << 12) | ((rs1 as u32) << 15) | ((rs2 as u32) << 20) | ((((imm >> 5) & 0x3f) as u32) << 25)
        | ((((imm >> 12) & 1) as u32) << 31)
}

pub open spec fn enc_u(opcode: u32, rd: u8, imm: u64) -> u32 {
    opcode | ((rd as u32) << 7) | ((imm & 0xffff_f000) as u32)
}

pub open spec fn enc_j(opcode: u32, rd: u8, imm: u64) -> u32 {
    opcode | ((rd as u32) << 7) | ((imm & 0x000f_f000) as u32) | ((((imm >> 11) & 1) as u32) << 20)
        | ((((imm >> 1) & 0x3ff) as u32) << 21) | ((((imm >> 20) & 1) as u32) << 31)
}

/// The operation that a 32-bit word encodes, `None` where it encodes none.
pub open spec fn op32(w: u32) -> Option<RiscvOp> {
    let opcode = f_opcode(w);
    let funct3 = f_funct3(w);
    let funct7 = f_funct7(w);
    let funct6 = w >> 26;
    if opcode == 0x37 {
        Some(RiscvOp::Lui)
    } else if opcode == 0x17 {
        Some(RiscvOp::Auipc)
    } else if opcode == 0x6f {
        Some(RiscvOp::Jal)
    } else if opcode == 0x67 {
        if funct3 == 0 {
            Some(RiscvOp::Jalr)
        } else {
            None
        }
    } else if opcode == 0x63 {
        if funct3 == 0 {
            Some(RiscvOp::Beq)
        } else if funct3 == 1 {
            Some(RiscvOp::Bne)
        } else if funct3 == 4 {
            Some(RiscvOp::Blt)
        } else if funct3 == 5 {
            Some(RiscvOp::Bge)
        } else if funct3 == 6 {
            Some(RiscvOp::Bltu)
        } else if funct3 == 7 {
            Some(RiscvOp::Bgeu)
        } else {
            None
        }
    } else if opcode == 0x03 {
        if funct3 == 0 {
            Some(RiscvOp::Lb)
        } else if funct3 == 1 {
            Some(RiscvOp::Lh)
        } else if funct3 == 2 {
            Some(RiscvOp::Lw)
        } else if funct3 == 3 {
            Some(RiscvOp::Ld)
        } else if funct3 == 4 {
            Some(RiscvOp::Lbu)
        } else if funct3 == 5 {
            Some(RiscvOp::Lhu)
        } else if funct3 == 6 {
            Some(RiscvOp::Lwu)
        } else {
            None
        }
    } else if opcode == 0x23 {
        if funct3 == 0 {
            Some(RiscvOp::Sb)
        } else if funct3 == 1 {
            Some(RiscvOp::Sh)
        } else if funct3 == 2 {
            Some(RiscvOp::Sw)
        } else if funct3 == 3 {
            Some(RiscvOp::Sd)
        } else {
            None
        }
    } else if opcode == 0x13 {
        if funct3 == 0 {
            Some(RiscvOp::Addi)
        } else if funct3 == 2 {
            Some(RiscvOp::Slti)
        } else if funct3 == 3 {
            Some(RiscvOp::Sltiu)
        } else if funct3 == 4 {
            Some(RiscvOp::Xori)
        } else if funct3 == 6 {
            Some(RiscvOp::Ori)
        } else if funct3 == 7 {
            Some(RiscvOp::Andi)
        } else if funct3 == 1 && funct6 == 0 {
            Some(RiscvOp::Slli)
        } else if funct3 == 5 && funct6 == 0 {
            Some(RiscvOp::Srli)
        } else if funct3 == 5 && funct6 == 0x10 {
            Some(RiscvOp::Srai)
        } else {
            None
        }
    } else if opcode == 0x1b {
        if funct3 == 0 {
            Some(RiscvOp::Addiw)
        } else if funct3 == 1 && funct7 == 0 {
            Some(RiscvOp::Slliw)
        } else if funct3 == 5 && funct7 == 0 {
            Some(RiscvOp::Srliw)
        } else if funct3 == 5 && funct7 == 0x20 {
            Some(RiscvOp::Sraiw)
        } else {
            None
        }
    } else if opcode == 0x3b {
        if funct3 == 0 && funct7 == 0 {
            Some(RiscvOp::Addw)
        } else if funct3 == 0 && funct7 == 0x20 {
            Some(RiscvOp::Subw)
        } else if funct3 == 1 && funct7 == 0 {
            Some(RiscvOp::Sllw)
        } else if funct3 == 5 && funct7 == 0 {
            Some(RiscvOp::Srlw)
        } else if funct3 == 5 && funct7 == 0x20 {
            Some(RiscvOp::Sraw)
        } else {
            None
        }
    } else if opcode == 0x33 {
        if funct3 == 0 && funct7 == 0 {
            Some(RiscvOp::Add)
        } else if funct3 == 0 && funct7 == 0x20 {
            Some(RiscvOp::Sub)
        } else if funct3 == 2 && funct7 == 0 {
            Some(RiscvOp::Slt)
        } else if funct3 == 3 && funct7 == 0 {
            Some(RiscvOp::Sltu)
        } else if funct3 == 4 && funct7 == 0 {
            Some(RiscvOp::Xor)
        } else if funct3 == 6 && funct7 == 0 {
            Some(RiscvOp::Or)
        } else if funct3 == 7 && funct7 == 0 {
            Some(RiscvOp::And)
        } else if funct3 == 1 && funct7 == 0 {
            Some(RiscvOp::Sll)
        } else if funct3 == 5 && funct7 == 0 {
            Some(RiscvOp::Srl)
        } else if funct3 == 5 && funct7 == 0x20 {
            Some(RiscvOp::Sra)
        } else {
            None
        }
    } else if opcode == 0x0f {
        if funct3 == 0 {
            Some(RiscvOp::Fence)
        } else if funct3 == 1 {
            Some(RiscvOp::FenceI)
        } else {
            None
        }
    } else if opcode == 0x73 {
        if w == 0x0000_0073 {
            Some(RiscvOp::Ecall)
        } else if w == 0x0010_0073 {
            Some(RiscvOp::Ebreak)
        } else if w == 0x3020_0073 {
            Some(RiscvOp::Mret)
        } else if w == 0x1020_0073 {
            Some(RiscvOp::Sret)
        } else if w == 0x1050_0073 {
            Some(RiscvOp::Wfi)
        } else if funct3 == 1 {
            Some(RiscvOp::Csrrw)
        } else if funct3 == 2 {
            Some(RiscvOp::Csrrs)
        } else if funct3 == 3 {
            Some(RiscvOp::Csrrc)
        } else if funct3 == 5 {
            Some(RiscvOp::Csrrwi)
        } else if funct3 == 6 {
            Some(RiscvOp::Csrrsi)
        } else if funct3 == 7 {
            Some(RiscvOp::Csrrci)
        } else {
            None
        }
    } else {
        None
    }
}

/// The operands that a 32-bit word holds for an operation of the given format.
pub open spec fn args32(format: Format, w: u32) -> RiscvArgs {
    match format {
        Format::R => RiscvArgs { rd: f_rd(w), rs1: f_rs1(w), rs2: f_rs2(w), imm: 0 },
        Format::I => RiscvArgs { rd: f_rd(w), rs1: f_rs1(w), rs2: 0, imm: imm_i(w) },
        Format::S => RiscvArgs { rd: 0, rs1: f_rs1(w), rs2: f_rs2(w), imm: imm_s(w) },
        Format::B => RiscvArgs { rd: 0, rs1: f_rs1(w), rs2: f_rs2(w), imm: imm_b(w) },
        Format::U => RiscvArgs { rd: f_rd(w), rs1: 0, rs2: 0, imm: imm_u(w) },
        Format::J => RiscvArgs { rd: f_rd(w), rs1: 0, rs2: 0, imm: imm_j(w) },
        Format::Csr => RiscvArgs { rd: f_rd(w), rs1: f_rs1(w), rs2: 0, imm: imm_csr(w) },
        _ => RiscvArgs { rd: 0, rs1: 0, rs2: 0, imm: 0 },
    }
}

/// The instruction that a 32-bit word encodes, `None` where it encodes none.
#[verifier::opaque]
pub open spec fn decode32_spec(w: u32) -> Option<RiscvInstr> {
    match op32(w) {
        None => None,
        Some(op) => Some(
            RiscvInstr { inc_by: 4, args: args32(encoding_of(op).format, w), func: op },
        ),
    }
}

/// The 32-bit word that encodes an instruction; 0 for an operation that has no
/// 32-bit encoding.
pub open spec fn encode32_spec(i: RiscvInstr) -> u32 {
    let e = encoding_of(i.func);
    let a = i.args;
    match e.format {
        Format::R => enc_r(e.opcode, e.funct3, e.funct7, a.rd, a.rs1, a.rs2),
        Format::I => enc_i(e.opcode, e.funct3, a.rd, a.rs1, a.imm),
        Format::S => enc_s(e.opcode, e.funct3, a.rs1, a.rs2, a.imm),
        Format::B => enc_b(e.opcode, e.funct3, a.rs1, a.rs2, a.imm),
        Format::U => enc_u(e.opcode, a.rd, a.imm),
        Format::J => enc_j(e.opcode, a.rd, a.imm),
        Format::Csr => enc_i(e.opcode, e.funct3, a.rd, a.rs1, a.imm),
        Format::Fixed => e.opcode,
        _ => 0,
    }
}

/// Every register number that a word holds is below 32.
pub proof fn lemma_fields_in_range(w: u32)
    by (bit_vector)
    ensures
        (((w >> 7) & 0x1f) as u8) < 32,
        (((w >> 15) & 0x1f) as u8) < 32,
        (((w >> 20) & 0x1f) as u8) < 32,
        ((w >> 20) as u64) < 4096,
{
}

proof fn lemma_roundtrip_r(w: u32)
    by (bit_vector)
    ensures
        (w & 0x7f) | (((((w >> 7) & 0x1f) as u8) as u32) << 7) | (((w >> 12) & 7) << 12) | (((((w
            >> 15) & 0x1f) as u8) as u32) << 15) | (((((w >> 20) & 0x1f) as u8) as u32) << 20) | ((w
            >> 25) << 25) == w,
{
}

proof fn lemma_roundtrip_i(w: u32)
    by (bit_vector)
    ensures
        (w & 0x7f) | (((((w >> 7) & 0x1f) as u8) as u32) << 7) | (((w >> 12) & 7) << 12) | (((((w
            >> 15) & 0x1f) as u8) as u32) << 15) | ((((((w as i32) >> 20) as i64 as u64) & 0xfff)
            as u32) << 20) == w,
        (w & 0x7f) | (((((w >> 7) & 0x1f) as u8) as u32) << 7) | (((w >> 12) & 7) << 12) | (((((w
            >> 15) & 0x1f) as u8) as u32) << 15) | (((((w >> 20) as u64) & 0xfff) as u32) << 20)
            == w,
{
}

proof fn lemma_roundtrip_s(w: u32)
    by (bit_vector)
    ensures
        ({
            let imm = ((((w & 0xfe00_0000) as i32) >> 20) as i64 as u64) | (((w >> 7) & 0x1f)
                as u64);
            (w & 0x7f) | (((imm & 0x1f) as u32) << 7) | (((w >> 12) & 7) << 12) | (((((w >> 15)
                & 0x1f) as u8) as u32) << 15) | (((((w >> 20) & 0x1f) as u8) as u32) << 20) | ((((
            imm >> 5) & 0x7f) as u32) << 25)
        }) == w,
{
}

proof fn lemma_roundtrip_b(w: u32)
    by (bit_vector)
    ensures
        ({
            let imm = ((((w & 0x8000_0000) as i32) >> 19) as i64 as u64) | ((((w >> 7) & 1) << 11)
                as u64) | ((((w >> 25) & 0x3f) << 5) as u64) | ((((w >> 8) & 0xf) << 1) as u64);
            (w & 0x7f) | ((((imm >> 11) & 1) as u32) << 7) | ((((imm >> 1) & 0xf) as u32) << 8) | (
            ((w >> 12) & 7) << 12) | (((((w >> 15) & 0x1f) as u8) as u32) << 15) | (((((w >> 20)
                & 0x1f) as u8) as u32) << 20) | ((((imm >> 5) & 0x3f) as u32) << 25) | ((((imm
                >> 12) & 1) as u32) << 31)
        }) == w,
{
}

proof fn lemma_roundtrip_u(w: u32)
    by (bit_vector)
    ensures
        (w & 0x7f) | (((((w >> 7) & 0x1f) as u8) as u32) << 7) | (((((w & 0xffff_f000) as i32)
            as i64 as u64) & 0xffff_f000) as u32) == w,
{
}

proof fn lemma_roundtrip_j(w: u32)
    by (bit_vector)
    ensures
        ({
            let imm = ((((w & 0x8000_0000) as i32) >> 11) as i64 as u64) | ((w & 0x000f_f000)
                as u64) | ((((w >> 20) & 1) << 11) as u64) | ((((w >> 21) & 0x3ff) << 1) as u64);
            (w & 0x7f) | (((((w >> 7) & 0x1f) as u8) as u32) << 7) | ((imm & 0x000f_f000) as u32)
                | ((((imm >> 11) & 1) as u32) << 20) | ((((imm >> 1) & 0x3ff) as u32) << 21) | ((((
            imm >> 20) & 1) as u32) << 31)
        }) == w,
{
}

/// Encoding what a 32-bit word decodes to gives the word back.
pub proof fn lemma_decode32_roundtrip(w: u32)
    ensures
        decode32_spec(w) matches Some(i) ==> encode32_spec(i) == w,
{
    reveal(decode32_spec);
    lemma_roundtrip_r(w);
    lemma_roundtrip_i(w);
    lemma_roundtrip_s(w);
    lemma_roundtrip_b(w);
    lemma_roundtrip_u(w);
    lemma_roundtrip_j(w);
}

/// What a 32-bit word decodes to names registers below 32, is 4 bytes long and
/// is no `Illegal`.
pub proof fn lemma_decode32_wf(w: u32)
    ensures
        decode32_spec(w) matches Some(i) ==> i.args.rd < 32 && i.args.rs1 < 32 && i.args.rs2 < 32
            && i.inc_by == 4 && i.func != RiscvOp::Illegal && (encoding_of(i.func).format
            == Format::Csr ==> i.args.imm < 4096),
{
    reveal(decode32_spec);
    lemma_fields_in_range(w);
}

/// The instruction that a 32-bit word encodes, `None` where it encodes none.
pub fn decode_word(w: u32) -> (r: Option<RiscvInstr>)
    ensures
        r == decode32_spec(w),
{
    reveal(decode32_spec);
    let opcode: u32 = w & 0x7f;
    let funct3: u32 = (w >> 12) & 7;
    let funct7: u32 = w >> 25;
    let funct6: u32 = w >> 26;
    let op: RiscvOp = if opcode == 0x37 {
        RiscvOp::Lui
    } else if opcode == 0x17 {
        RiscvOp::Auipc
    } else if opcode == 0x6f {
        RiscvOp::Jal
    } else if opcode == 0x67 {
        if funct3 == 0 {
            RiscvOp::Jalr
        } else {
            return None;
        }
    } else if opcode == 0x63 {
        if funct3 == 0 {
            RiscvOp::Beq
        } else if funct3 == 1 {
            RiscvOp::Bne
        } else if funct3 == 4 {
            RiscvOp::Blt
        } else if funct3 == 5 {
            RiscvOp::Bge
        } else if funct3 == 6 {
            RiscvOp::Bltu
        } else if funct3 == 7 {
            RiscvOp::Bgeu
        } else {
            return None;
        }
    } else if opcode == 0x03 {
        if funct3 == 0 {
            RiscvOp::Lb
        } else if funct3 == 1 {
            RiscvOp::Lh
        } else if funct3 == 2 {
            RiscvOp::Lw
        } else if funct3 == 3 {
            RiscvOp::Ld
        } else if funct3 == 4 {
            RiscvOp::Lbu
        } else if funct3 == 5 {
            RiscvOp::Lhu
        } else if funct3 == 6 {
            RiscvOp::Lwu
        } else {
            return None;
        }
    } else if opcode == 0x23 {
        if funct3 == 0 {
            RiscvOp::Sb
        } else if funct3 == 1 {
            RiscvOp::Sh
        } else if funct3 == 2 {
            RiscvOp::Sw
        } else if funct3 == 3 {
            RiscvOp::Sd
        } else {
            return None;
        }
    } else if opcode == 0x13 {
        if funct3 == 0 {
            RiscvOp::Addi
        } else if funct3 == 2 {
            RiscvOp::Slti
        } else if funct3 == 3 {
            RiscvOp::Sltiu
        } else if funct3 == 4 {
            RiscvOp::Xori
        } else if funct3 == 6 {
            RiscvOp::Ori
        } else if funct3 == 7 {
            RiscvOp::Andi
        } else if funct3 == 1 && funct6 == 0 {
            RiscvOp::Slli
        } else if funct3 == 5 && funct6 == 0 {
            RiscvOp::Srli
        } else if funct3 == 5 && funct6 == 0x10 {
            RiscvOp::Srai
        } else {
            return None;
        }
    } else if opcode == 0x1b {
        if funct3 == 0 {
            RiscvOp::Addiw
        } else if funct3 == 1 && funct7 == 0 {
            RiscvOp::Slliw
        } else if funct3 == 5 && funct7 == 0 {
            RiscvOp::Srliw
        } else if funct3 == 5 && funct7 == 0x20 {
            RiscvOp::Sraiw
        } else {
            return None;
        }
    } else if opcode == 0x3b {
        if funct3 == 0 && funct7 == 0 {
            RiscvOp::Addw
        } else if funct3 == 0 && funct7 == 0x20 {
            RiscvOp::Subw
        } else if funct3 == 1 && funct7 == 0 {
            RiscvOp::Sllw
        } else if funct3 == 5 && funct7 == 0 {
            RiscvOp::Srlw
        } else if funct3 == 5 && funct7 == 0x20 {
            RiscvOp::Sraw
        } else {
            return None;
        }
    } else if opcode == 0x33 {
        if funct3 == 0 && funct7 == 0 {
            RiscvOp::Add
        } else if funct3 == 0 && funct7 == 0x20 {
            RiscvOp::Sub
        } else if funct3 == 2 && funct7 == 0 {
            RiscvOp::Slt
        } else if funct3 == 3 && funct7 == 0 {
            RiscvOp::Sltu
        } else if funct3 == 4 && funct7 == 0 {
            RiscvOp::Xor
        } else if funct3 == 6 && funct7 == 0 {
            RiscvOp::Or
        } else if funct3 == 7 && funct7 == 0 {
            RiscvOp::And
        } else if funct3 == 1 && funct7 == 0 {
            RiscvOp::Sll
        } else if funct3 == 5 && funct7 == 0 {
            RiscvOp::Srl
        } else if funct3 == 5 && funct7 == 0x20 {
            RiscvOp::Sra
        } else {
            return None;
        }
    } else if opcode == 0x0f {
        if funct3 == 0 {
            RiscvOp::Fence
        } else if funct3 == 1 {
            RiscvOp::FenceI
        } else {
            return None;
        }
    } else if opcode == 0x73 {
        if w == 0x0000_0073 {
            RiscvOp::Ecall
        } else if w == 0x0010_0073 {
            RiscvOp::Ebreak
        } else if w == 0x3020_0073 {
            RiscvOp::Mret
        } else if w == 0x1020_0073 {
            RiscvOp::Sret
        } else if w == 0x1050_0073 {
            RiscvOp::Wfi
        } else if funct3 == 1 {
            RiscvOp::Csrrw
        } else if funct3 == 2 {
            RiscvOp::Csrrs
        } else if funct3 == 3 {
            RiscvOp::Csrrc
        } else if funct3 == 5 {
            RiscvOp::Csrrwi
        } else if funct3 == 6 {
            RiscvOp::Csrrsi
        } else if funct3 == 7 {
            RiscvOp::Csrrci
        } else {
            return None;
        }
    } else {
        return None;
    };
    let rd: u8 = ((w >> 7) & 0x1f) as u8;
    let rs1: u8 = ((w >> 15) & 0x1f) as u8;
    let rs2: u8 = ((w >> 20) & 0x1f) as u8;
    let e: Encoding = get_encoding(op);
    let args: RiscvArgs = match e.format {
        Format::R => RiscvArgs { rd, rs1, rs2, imm: 0 },
        Format::I => RiscvArgs { rd, rs1, rs2: 0, imm: ((w as i32) >> 20) as i64 as u64 },
        Format::S => RiscvArgs {
            rd: 0,
            rs1,
            rs2,
            imm: ((((w & 0xfe00_0000) as i32) >> 20) as i64 as u64) | (((w >> 7) & 0x1f) as u64),
        },
        Format::B => RiscvArgs {
            rd: 0,
            rs1,
            rs2,
            imm: ((((w & 0x8000_0000) as i32) >> 19) as i64 as u64) | ((((w >> 7) & 1) << 11)
                as u64) | ((((w >> 25) & 0x3f) << 5) as u64) | ((((w >> 8) & 0xf) << 1) as u64),
        },
        Format::U => RiscvArgs { rd, rs1: 0, rs2: 0, imm: ((w & 0xffff_f000) as i32) as i64 as u64 },
        Format::J => RiscvArgs {
            rd,
            rs1: 0,
            rs2: 0,
            imm: ((((w & 0x8000_0000) as i32) >> 11) as i64 as u64) | ((w & 0x000f_f000) as u64)
                | ((((w >> 20) & 1) << 11) as u64) | ((((w >> 21) & 0x3ff) << 1) as u64),
        },
        Format::Csr => RiscvArgs { rd, rs1, rs2: 0, imm: (w >> 20) as u64 },
        _ => RiscvArgs { rd: 0, rs1: 0, rs2: 0, imm: 0 },
    };
    Some(RiscvInstr { inc_by: 4, args, func: op })
}

/// The 32-bit word that encodes an instruction; 0 for an operation that has no
/// 32-bit encoding.
pub fn encode_word(i: &RiscvInstr) -> (w: u32)
    ensures
        w == encode32_spec(*i),
{
    let e: Encoding = get_encoding(i.func);
    let rd: u32 = i.args.rd as u32;
    let rs1: u32 = i.args.rs1 as u32;
    let rs2: u32 = i.args.rs2 as u32;
    let imm: u64 = i.args.imm;
    match e.format {
        Format::R => e.opcode | (rd << 7) | (e.funct3 << 12) | (rs1 << 15) | (rs2 << 20) | (e.funct7
            << 25),
        Format::I | Format::Csr => e.opcode | (rd << 7) | (e.funct3 << 12) | (rs1 << 15) | (((imm
            & 0xfff) as u32) << 20),
        Format::S => e.opcode | (((imm & 0x1f) as u32) << 7) | (e.funct3 << 12) | (rs1 << 15) | (rs2
            << 20) | ((((imm >> 5) & 0x7f) as u32) << 25),
        Format::B => e.opcode | ((((imm >> 11) & 1) as u32) << 7) | ((((imm >> 1) & 0xf) as u32)
            << 8) | (e.funct3 << 12) | (rs1 << 15) | (rs2 << 20) | ((((imm >> 5) & 0x3f) as u32)
            << 25) | ((((imm >> 12) & 1) as u32) << 31),
        Format::U => e.opcode | (rd << 7) | ((imm & 0xffff_f000) as u32),
        Format::J => e.opcode | (rd << 7) | ((imm & 0x000f_f000) as u32) | ((((imm >> 11) & 1)
            as u32) << 20) | ((((imm >> 1) & 0x3ff) as u32) << 21) | ((((imm >> 20) & 1) as u32)
            << 31),
        Format::Fixed => e.opcode,
        _ => 0,
    }
}

} // verus!

verus! {

/// Decodes a 32-bit word into the block that hart `hart` is building. Where
/// the word encodes an instruction, the instruction is appended, a block-ending
/// one sets `stop_translating`, and the result is `true`; where it encodes
/// none, nothing changes and the result is `false`.
pub fn decode(hart: &mut crate::hart::RiscvInt, w: u32) -> (found: bool)
    ensures
        found == decode32_spec(w) is Some,
        final(hart)@ == old(hart)@,
        final(hart).instr == old(hart).instr,
        final(hart).cache_enabled == old(hart).cache_enabled,
        final(hart).current_block.begin == old(hart).current_block.begin,
        final(hart).current_block.end == old(hart).current_block.end,
        match decode32_spec(w) {
            Some(i) => final(hart).current_block.instrs@ == old(hart).current_block.instrs@.push(i)
                && final(hart).stop_translating == (old(hart).stop_translating
                || crate::instr::ends_block(i.func)),
            None => final(hart).current_block.instrs@ == old(hart).current_block.instrs@
                && final(hart).stop_translating == old(hart).stop_translating,
        },
{
    match decode_word(w) {
        Some(i) => {
            hart.insert_insn_current(i);
            if crate::instr::op_ends_block(i.func) {
                hart.stop_translating = true;
            }
            true
        },
        None => false,
    }
}

} // verus!
