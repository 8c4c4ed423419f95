//! The 16-bit (compressed) instruction encodings: from a half-word to a decoded
//! instruction and back.

use crate::instr::{RiscvArgs, RiscvInstr, RiscvOp};
use vstd::prelude::*;

verus! {

/// Bits 7 to 11: the register of a `CI` half-word, the first one of a `CR` one.
pub open spec fn c_rd(h: u16) -> u8 {
    ((h >> 7) & 0x1f) as u8
}

/// Bits 2 to 6: the second register of a `CR` half-word.
pub open spec fn c_rs2(h: u16) -> u8 {
    ((h >> 2) & 0x1f) as u8
}

/// The immediate of a `CI` half-word: bit 12 over bits 2 to 6, sign-extended.
pub open spec fn c_imm6(h: u16) -> u64 {
    ((((((h as u32) << 19) & 0x8000_0000) as i32) >> 26) as i64 as u64) | (((h >> 2) & 0x1f) as u64)
}

/// The jump offset of a `CJ` half-word, sign-extended; bit 0 is zero.
pub open spec fn c_immj(h: u16) -> u64 {
    ((((((h as u32) << 19) & 0x8000_0000) as i32) >> 20) as i64 as u64) | ((((h >> 11) & 1) << 4)
        as u64) | ((((h >> 9) & 3) << 8) as u64) | ((((h >> 8) & 1) << 10) as u64) | ((((h >> 7)
        & 1) << 6) as u64) | ((((h >> 6) & 1) << 7) as u64) | ((((h >> 3) & 7) << 1) as u64) | ((((h
        >> 2) & 1) << 5) as u64)
}

pub open spec fn enc_ci(funct3: u16, rd: u8, imm: u64) -> u16 {
    1u16 | (((imm & 0x1f) as u16) << 2) | ((rd as u16) << 7) | ((((imm >> 5) & 1) as u16) << 12) | (
    funct3 << 13)
}

pub open spec fn enc_cr(funct4: u16, r1: u8, r2: u8) -> u16 {
    2u16 | ((r2 as u16) << 2) | ((r1 as u16) << 7) | (funct4 << 12)
}

pub open spec fn enc_cj(funct3: u16, imm: u64) -> u16 {
    1u16 | ((((imm >> 5) & 1) as u16) << 2) | ((((imm >> 1) & 7) as u16) << 3) | ((((imm >> 7) & 1)
        as u16) << 6) | ((((imm >> 6) & 1) as u16) << 7) | ((((imm >> 10) & 1) as u16) << 8) | ((((
    imm >> 8) & 3) as u16) << 9) | ((((imm >> 4) & 1) as u16) << 11) | ((((imm >> 11) & 1) as u16)
        << 12) | (funct3 << 13)
}

/// The operation that a half-word encodes, `None` where it encodes none.
pub open spec fn op16(h: u16) -> Option<RiscvOp> {
    let quadrant = h & 3;
    if quadrant == 1 {
        let funct3 = h >> 13;
        if funct3 == 0 {
            Some(RiscvOp::CAddi)
        } else if funct3 == 2 {
            Some(RiscvOp::CLi)
        } else if funct3 == 5 {
            Some(RiscvOp::CJ)
        } else {
            None
        }
    } else if quadrant == 2 {
        let funct4 = h >> 12;
        if funct4 == 8 {
            if c_rs2(h) != 0 {
                Some(RiscvOp::CMv)
            } else if c_rd(h) != 0 {
                Some(RiscvOp::CJr)
            } else {
                None
            }
        } else if funct4 == 9 {
            if c_rs2(h) != 0 {
                Some(RiscvOp::CAdd)
            } else if c_rd(h) != 0 {
                Some(RiscvOp::CJalr)
            } else {
                Some(RiscvOp::CEbreak)
            }
        } else {
            None
        }
    } else {
        None
    }
}

/// The operands that a half-word holds for a compressed operation, written out
/// as those of the 32-bit operation that does the same.
pub open spec fn args16(op: RiscvOp, h: u16) -> RiscvArgs {
    match op {
        RiscvOp::CAddi => RiscvArgs { rd: c_rd(h), rs1: c_rd(h), rs2: 0, imm: c_imm6(h) },
        RiscvOp::CLi => RiscvArgs { rd: c_rd(h), rs1: 0, rs2: 0, imm: c_imm6(h) },
        RiscvOp::CMv => RiscvArgs { rd: c_rd(h), rs1: 0, rs2: c_rs2(h), imm: 0 },
        RiscvOp::CAdd => RiscvArgs { rd: c_rd(h), rs1: c_rd(h), rs2: c_rs2(h), imm: 0 },
        RiscvOp::CJr => RiscvArgs { rd: 0, rs1: c_rd(h), rs2: 0, imm: 0 },
        RiscvOp::CJalr => RiscvArgs { rd: 1, rs1: c_rd(h), rs2: 0, imm: 0 },
        RiscvOp::CJ => RiscvArgs { rd: 0, rs1: 0, rs2: 0, imm: c_immj(h) },
        _ => RiscvArgs { rd: 0, rs1: 0, rs2: 0, imm: 0 },
    }
}

/// The instruction that a half-word encodes, `None` where it encodes none.
#[verifier::opaque]
pub open spec fn decode16_spec(h: u16) -> Option<RiscvInstr> {
    match op16(h) {
        None => None,
        Some(op) => Some(RiscvInstr { inc_by: 2, args: args16(op, h), func: op }),
    }
}

/// The half-word that encodes an instruction; 0 for an operation that has no
/// 16-bit encoding.
pub open spec fn encode16_spec(i: RiscvInstr) -> u16 {
    let a = i.args;
    match i.func {
        RiscvOp::CAddi => enc_ci(0, a.rd, a.imm),
        RiscvOp::CLi => enc_ci(2, a.rd, a.imm),
        RiscvOp::CMv => enc_cr(8, a.rd, a.rs2),
        RiscvOp::CAdd => enc_cr(9, a.rd, a.rs2),
        RiscvOp::CJr => enc_cr(8, a.rs1, 0),
        RiscvOp::CJalr => enc_cr(9, a.rs1, 0),
        RiscvOp::CEbreak => enc_cr(9, 0, 0),
        RiscvOp::CJ => enc_cj(5, a.imm),
        _ => 0,
    }
}

/// Every register number that a half-word holds is below 32.
pub proof fn lemma_fields16_in_range(h: u16)
    by (bit_vector)
    ensures
        (((h >> 7) & 0x1f) as u8) < 32,
        (((h >> 2) & 0x1f) as u8) < 32,
{
}

proof fn lemma_roundtrip_ci(h: u16)
    by (bit_vector)
    requires
        h & 3 == 1,
    ensures
        ({
            let imm = ((((((h as u32) << 19) & 0x8000_0000) as i32) >> 26) as i64 as u64) | (((h
                >> 2) & 0x1f) as u64);
            1u16 | (((imm & 0x1f) as u16) << 2) | (((((h >> 7) & 0x1f) as u8) as u16) << 7) | ((((
            imm >> 5) & 1) as u16) << 12) | ((h >> 13) << 13)
        }) == h,
{
}

proof fn lemma_roundtrip_cr(h: u16)
    by (bit_vector)
    requires
        h & 3 == 2,
    ensures
        2u16 | (((((h >> 2) & 0x1f) as u8) as u16) << 2) | (((((h >> 7) & 0x1f) as u8) as u16) << 7)
            | ((h >> 12) << 12) == h,
        ((h >> 2) & 0x1f) as u8 == 0 ==> 2u16 | ((0u8 as u16) << 2) | (((((h >> 7) & 0x1f) as u8)
            as u16) << 7) | ((h >> 12) << 12) == h,
        ((h >> 2) & 0x1f) as u8 == 0 && ((h >> 7) & 0x1f) as u8 == 0 ==> 2u16 | ((0u8 as u16) << 2)
            | ((0u8 as u16) << 7) | ((h >> 12) << 12) == h,
{
}

proof fn lemma_roundtrip_cj(h: u16)
    by (bit_vector)
    requires
        h & 3 == 1,
    ensures
        ({
            let imm = ((((((h as u32) << 19) & 0x8000_0000) as i32) >> 20) as i64 as u64) | ((((h
                >> 11) & 1) << 4) as u64) | ((((h >> 9) & 3) << 8) as u64) | ((((h >> 8) & 1) << 10)
                as u64) | ((((h >> 7) & 1) << 6) as u64) | ((((h >> 6) & 1) << 7) as u64) | ((((h
                >> 3) & 7) << 1) as u64) | ((((h >> 2) & 1) << 5) as u64);
            1u16 | ((((imm >> 5) & 1) as u16) << 2) | ((((imm >> 1) & 7) as u16) << 3) | ((((imm
                >> 7) & 1) as u16) << 6) | ((((imm >> 6) & 1) as u16) << 7) | ((((imm >> 10) & 1)
                as u16) << 8) | ((((imm >> 8) & 3) as u16) << 9) | ((((imm >> 4) & 1) as u16) << 11)
                | ((((imm >> 11) & 1) as u16) << 12) | ((h >> 13) << 13)
        }) == h,
{
}

/// Encoding what a half-word decodes to gives the half-word back.
pub proof fn lemma_decode16_roundtrip(h: u16)
    ensures
        decode16_spec(h) matches Some(i) ==> encode16_spec(i) == h,
{
    reveal(decode16_spec);
    if h & 3 == 1 {
        lemma_roundtrip_ci(h);
        lemma_roundtrip_cj(h);
    }
    if h & 3 == 2 {
        lemma_roundtrip_cr(h);
    }
}

/// What a half-word decodes to names registers below 32, is 2 bytes long and is
/// a compressed operation.
pub proof fn lemma_decode16_wf(h: u16)
    ensures
        decode16_spec(h) matches Some(i) ==> i.args.rd < 32 && i.args.rs1 < 32 && i.args.rs2 < 32
            && i.inc_by == 2 && i.func != RiscvOp::Illegal && crate::instr::encoding_of(
            i.func,
        ).format != crate::instr::Format::Csr,
{
    reveal(decode16_spec);
    lemma_fields16_in_range(h);
}

/// The instruction that a half-word encodes, `None` where it encodes none.
pub fn decode_half(h: u16) -> (r: Option<RiscvInstr>)
    ensures
        r == decode16_spec(h),
{
    reveal(decode16_spec);
    let quadrant: u16 = h & 3;
    let rd: u8 = ((h >> 7) & 0x1f) as u8;
    let rs2: u8 = ((h >> 2) & 0x1f) as u8;
    let imm6: u64 = ((((((h as u32) << 19) & 0x8000_0000) as i32) >> 26) as i64 as u64) | (((h >> 2)
        & 0x1f) as u64);
    if quadrant == 1 {
        let funct3: u16 = h >> 13;
        if funct3 == 0 {
            Some(
                RiscvInstr {
                    inc_by: 2,
                    args: RiscvArgs { rd, rs1: rd, rs2: 0, imm: imm6 },
                    func: RiscvOp::CAddi,
                },
            )
        } else if funct3 == 2 {
            Some(
                RiscvInstr {
                    inc_by: 2,
                    args: RiscvArgs { rd, rs1: 0, rs2: 0, imm: imm6 },
                    func: RiscvOp::CLi,
                },
            )
        } else if funct3 == 5 {
            let immj: u64 = ((((((h as u32) << 19) & 0x8000_0000) as i32) >> 20) as i64 as u64) | ((
            ((h >> 11) & 1) << 4) as u64) | ((((h >> 9) & 3) << 8) as u64) | ((((h >> 8) & 1) << 10)
                as u64) | ((((h >> 7) & 1) << 6) as u64) | ((((h >> 6) & 1) << 7) as u64) | ((((h
                >> 3) & 7) << 1) as u64) | ((((h >> 2) & 1) << 5) as u64);
            Some(
                RiscvInstr {
                    inc_by: 2,
                    args: RiscvArgs { rd: 0, rs1: 0, rs2: 0, imm: immj },
                    func: RiscvOp::CJ,
                },
            )
        } else {
            None
        }
    } else if quadrant == 2 {
        let funct4: u16 = h >> 12;
        if funct4 == 8 {
            if rs2 != 0 {
                Some(
                    RiscvInstr {
                        inc_by: 2,
                        args: RiscvArgs { rd, rs1: 0, rs2, imm: 0 },
                        func: RiscvOp::CMv,
                    },
                )
            } else if rd != 0 {
                Some(
                    RiscvInstr {
                        inc_by: 2,
                        args: RiscvArgs { rd: 0, rs1: rd, rs2: 0, imm: 0 },
                        func: RiscvOp::CJr,
                    },
                )
            } else {
                None
            }
        } else if funct4 == 9 {
            if rs2 != 0 {
                Some(
                    RiscvInstr {
                        inc_by: 2,
                        args: RiscvArgs { rd, rs1: rd, rs2, imm: 0 },
                        func: RiscvOp::CAdd,
                    },
                )
            } else if rd != 0 {
                Some(
                    RiscvInstr {
                        inc_by: 2,
                        args: RiscvArgs { rd: 1, rs1: rd, rs2: 0, imm: 0 },
                        func: RiscvOp::CJalr,
                    },
                )
            } else {
                Some(
                    RiscvInstr {
                        inc_by: 2,
                        args: RiscvArgs { rd: 0, rs1: 0, rs2: 0, imm: 0 },
                        func: RiscvOp::CEbreak,
                    },
                )
            }
        } else {
            None
        }
    } else {
        None
    }
}

/// The half-word that encodes an instruction; 0 for an operation that has no
/// 16-bit encoding.
pub fn encode_half(i: &RiscvInstr) -> (h: u16)
    ensures
        h == encode16_spec(*i),
{
    let rd: u16 = i.args.rd as u16;
    let rs1: u16 = i.args.rs1 as u16;
    let rs2: u16 = i.args.rs2 as u16;
    let imm: u64 = i.args.imm;
    match i.func {
        RiscvOp::CAddi => 1u16 | (((imm & 0x1f) as u16) << 2) | (rd << 7) | ((((imm >> 5) & 1)
            as u16) << 12) | (0u16 << 13),
        RiscvOp::CLi => 1u16 | (((imm & 0x1f) as u16) << 2) | (rd << 7) | ((((imm >> 5) & 1) as u16)
            << 12) | (2u16 << 13),
        RiscvOp::CMv => 2u16 | (rs2 << 2) | (rd << 7) | (8u16 << 12),
        RiscvOp::CAdd => 2u16 | (rs2 << 2) | (rd << 7) | (9u16 << 12),
        RiscvOp::CJr => 2u16 | ((0u8 as u16) << 2) | (rs1 << 7) | (8u16 << 12),
        RiscvOp::CJalr => 2u16 | ((0u8 as u16) << 2) | (rs1 << 7) | (9u16 << 12),
        RiscvOp::CEbreak => 2u16 | ((0u8 as u16) << 2) | ((0u8 as u16) << 7) | (9u16 << 12),
        RiscvOp::CJ => 1u16 | ((((imm >> 5) & 1) as u16) << 2) | ((((imm >> 1) & 7) as u16) << 3)
            | ((((imm >> 7) & 1) as u16) << 6) | ((((imm >> 6) & 1) as u16) << 7) | ((((imm >> 10)
            & 1) as u16) << 8) | ((((imm >> 8) & 3) as u16) << 9) | ((((imm >> 4) & 1) as u16)
            << 11) | ((((imm >> 11) & 1) as u16) << 12) | (5u16 << 13),
        _ => 0,
    }
}

} // verus!

verus! {

/// Decodes a half-word into the block that hart `hart` is building. Where the
/// half-word encodes an instruction, the instruction is appended, a
/// block-ending one sets `stop_translating`, and the result is `true`; where it
/// encodes none, nothing changes and the result is `false`.
pub fn decode(hart: &mut crate::hart::RiscvInt, h: u16) -> (found: bool)
    ensures
        found == decode16_spec(h) is Some,
        final(hart)@ == old(hart)@,
        final(hart).instr == old(hart).instr,
        final(hart).cache_enabled == old(hart).cache_enabled,
        final(hart).current_block.begin == old(hart).current_block.begin,
        final(hart).current_block.end == old(hart).current_block.end,
        match decode16_spec(h) {
            Some(i) => final(hart).current_block.instrs@ == old(hart).current_block.instrs@.push(i)
                && final(hart).stop_translating == (old(hart).stop_translating
                || crate::instr::ends_block(i.func)),
            None => final(hart).current_block.instrs@ == old(hart).current_block.instrs@
                && final(hart).stop_translating == old(hart).stop_translating,
        },
{
    match decode_half(h) {
        Some(i) => {
            hart.insert_insn_current(i);
            if crate::instr::op_ends_block(i.func) {
                hart.stop_translating = true;
            }
            true
        },
        None => false,
    }
}

} // verus!
