//! The decoded form of an instruction, and how each operation is laid out in an
//! instruction word.

use vstd::prelude::*;

verus! {

/// What a decoded instruction does. The names that begin with `C` are the 16-bit
/// encodings; those that end in `w` work on the low 32 bits of 64-bit
/// registers.
#[derive(Clone, Copy, Debug, PartialEq, Eq, Structural)]
pub enum RiscvOp {
    Illegal,
    Lui,
    Auipc,
    Jal,
    Jalr,
    Beq,
    Bne,
    Blt,
    Bge,
    Bltu,
    Bgeu,
    Lb,
    Lh,
    Lw,
    Ld,
    Lbu,
    Lhu,
    Lwu,
    Sb,
    Sh,
    Sw,
    Sd,
    Addi,
    Slti,
    Sltiu,
    Xori,
    Ori,
    Andi,
    Slli,
    Srli,
    Srai,
    Add,
    Sub,
    Slt,
    Sltu,
    Xor,
    Or,
    And,
    Sll,
    Srl,
    Sra,
    Addiw,
    Slliw,
    Srliw,
    Sraiw,
    Addw,
    Subw,
    Sllw,
    Srlw,
    Sraw,
    Fence,
    FenceI,
    Ecall,
    Ebreak,
    Mret,
    Sret,
    Wfi,
    Csrrw,
    Csrrs,
    Csrrc,
    Csrrwi,
    Csrrsi,
    Csrrci,
    CAddi,
    CLi,
    CMv,
    CAdd,
    CJr,
    CJalr,
    CJ,
    CEbreak,
}

/// The operands of a decoded instruction. `imm` holds the immediate
/// sign-extended to 64 bits; for the CSR instructions it holds the CSR number,
/// and `rs1` holds the 5-bit immediate of those that take one.
#[derive(Clone, Copy, Debug, PartialEq, Eq, Structural)]
pub struct RiscvArgs {
    pub rd: u8,
    pub rs1: u8,
    pub rs2: u8,
    pub imm: u64,
}

/// A decoded instruction: its length in bytes (2 for a compressed encoding, 4
/// otherwise), its operands and its operation.
#[derive(Clone, Copy, Debug, PartialEq, Eq, Structural)]
pub struct RiscvInstr {
    pub inc_by: u64,
    pub args: RiscvArgs,
    pub func: RiscvOp,
}

/// How the operands of an operation are laid out in the instruction word.
#[derive(Clone, Copy, Debug, PartialEq, Eq, Structural)]
pub enum Format {
    /// No encoding: the operation stands for a word that decodes to nothing.
    Invalid,
    R,
    I,
    S,
    B,
    U,
    J,
    /// As `I`, with the CSR number, not sign-extended, in place of the immediate.
    Csr,
    /// The whole word is fixed.
    Fixed,
    CI,
    CR,
    CJ,
}

/// The layout of an operation and the fixed fields of its encoding.
#[derive(Clone, Copy, Debug, PartialEq, Eq, Structural)]
pub struct Encoding {
    pub format: Format,
    /// Bits 0 to 6 of a 32-bit word, bits 0 and 1 of a 16-bit one; the whole
    /// word for `Format::Fixed`.
    pub opcode: u32,
    /// Bits 12 to 14 of a 32-bit word; bits 12 to 15 of a `CR` encoding, 13 to
    /// 15 of the other 16-bit ones.
    pub funct3: u32,
    /// Bits 25 to 31 of an `R` word.
    pub funct7: u32,
}

pub open spec fn enc(format: Format, opcode: u32, funct3: u32, funct7: u32) -> Encoding {
    Encoding { format, opcode, funct3, funct7 }
}

/// The encoding of each operation.
pub open spec fn encoding_of(op: RiscvOp) -> Encoding {
    match op {
        RiscvOp::Illegal => enc(Format::Invalid, 0, 0, 0),
        RiscvOp::Lui => enc(Format::U, 0x37, 0, 0),
        RiscvOp::Auipc => enc(Format::U, 0x17, 0, 0),
        RiscvOp::Jal => enc(Format::J, 0x6f, 0, 0),
        RiscvOp::Jalr => enc(Format::I, 0x67, 0, 0),
        RiscvOp::Beq => enc(Format::B, 0x63, 0, 0),
        RiscvOp::Bne => enc(Format::B, 0x63, 1, 0),
        RiscvOp::Blt => enc(Format::B, 0x63, 4, 0),
        RiscvOp::Bge => enc(Format::B, 0x63, 5, 0),
        RiscvOp::Bltu => enc(Format::B, 0x63, 6, 0),
        RiscvOp::Bgeu => enc(Format::B, 0x63, 7, 0),
        RiscvOp::Lb => enc(Format::I, 0x03, 0, 0),
        RiscvOp::Lh => enc(Format::I, 0x03, 1, 0),
        RiscvOp::Lw => enc(Format::I, 0x03, 2, 0),
        RiscvOp::Ld => enc(Format::I, 0x03, 3, 0),
        RiscvOp::Lbu => enc(Format::I, 0x03, 4, 0),
        RiscvOp::Lhu => enc(Format::I, 0x03, 5, 0),
        RiscvOp::Lwu => enc(Format::I, 0x03, 6, 0),
        RiscvOp::Sb => enc(Format::S, 0x23, 0, 0),
        RiscvOp::Sh => enc(Format::S, 0x23, 1, 0),
        RiscvOp::Sw => enc(Format::S, 0x23, 2, 0),
        RiscvOp::Sd => enc(Format::S, 0x23, 3, 0),
        RiscvOp::Addi => enc(Format::I, 0x13, 0, 0),
        RiscvOp::Slti => enc(Format::I, 0x13, 2, 0),
        RiscvOp::Sltiu => enc(Format::I, 0x13, 3, 0),
        RiscvOp::Xori => enc(Format::I, 0x13, 4, 0),
        RiscvOp::Ori => enc(Format::I, 0x13, 6, 0),
        RiscvOp::Andi => enc(Format::I, 0x13, 7, 0),
        RiscvOp::Add => enc(Format::R, 0x33, 0, 0),
        RiscvOp::Sub => enc(Format::R, 0x33, 0, 0x20),
        RiscvOp::Slt => enc(Format::R, 0x33, 2, 0),
        RiscvOp::Sltu => enc(Format::R, 0x33, 3, 0),
        RiscvOp::Xor => enc(Format::R, 0x33, 4, 0),
        RiscvOp::Or => enc(Format::R, 0x33, 6, 0),
        RiscvOp::And => enc(Format::R, 0x33, 7, 0),
        RiscvOp::Slli => enc(Format::I, 0x13, 1, 0),
        RiscvOp::Srli => enc(Format::I, 0x13, 5, 0),
        RiscvOp::Srai => enc(Format::I, 0x13, 5, 0),
        RiscvOp::Sll => enc(Format::R, 0x33, 1, 0),
        RiscvOp::Srl => enc(Format::R, 0x33, 5, 0),
        RiscvOp::Sra => enc(Format::R, 0x33, 5, 0x20),
        RiscvOp::Addiw => enc(Format::I, 0x1b, 0, 0),
        RiscvOp::Slliw => enc(Format::I, 0x1b, 1, 0),
        RiscvOp::Srliw => enc(Format::I, 0x1b, 5, 0),
        RiscvOp::Sraiw => enc(Format::I, 0x1b, 5, 0),
        RiscvOp::Addw => enc(Format::R, 0x3b, 0, 0),
        RiscvOp::Subw => enc(Format::R, 0x3b, 0, 0x20),
        RiscvOp::Sllw => enc(Format::R, 0x3b, 1, 0),
        RiscvOp::Srlw => enc(Format::R, 0x3b, 5, 0),
        RiscvOp::Sraw => enc(Format::R, 0x3b, 5, 0x20),
        RiscvOp::Fence => enc(Format::I, 0x0f, 0, 0),
        RiscvOp::FenceI => enc(Format::I, 0x0f, 1, 0),
        RiscvOp::Ecall => enc(Format::Fixed, 0x0000_0073, 0, 0),
        RiscvOp::Ebreak => enc(Format::Fixed, 0x0010_0073, 0, 0),
        RiscvOp::Mret => enc(Format::Fixed, 0x3020_0073, 0, 0),
        RiscvOp::Sret => enc(Format::Fixed, 0x1020_0073, 0, 0),
        RiscvOp::Wfi => enc(Format::Fixed, 0x1050_0073, 0, 0),
        RiscvOp::Csrrw => enc(Format::Csr, 0x73, 1, 0),
        RiscvOp::Csrrs => enc(Format::Csr, 0x73, 2, 0),
        RiscvOp::Csrrc => enc(Format::Csr, 0x73, 3, 0),
        RiscvOp::Csrrwi => enc(Format::Csr, 0x73, 5, 0),
        RiscvOp::Csrrsi => enc(Format::Csr, 0x73, 6, 0),
        RiscvOp::Csrrci => enc(Format::Csr, 0x73, 7, 0),
        RiscvOp::CAddi => enc(Format::CI, 1, 0, 0),
        RiscvOp::CLi => enc(Format::CI, 1, 2, 0),
        RiscvOp::CMv => enc(Format::CR, 2, 8, 0),
        RiscvOp::CAdd => enc(Format::CR, 2, 9, 0),
        RiscvOp::CJr => enc(Format::CR, 2, 8, 0),
        RiscvOp::CJalr => enc(Format::CR, 2, 9, 0),
        RiscvOp::CJ => enc(Format::CJ, 1, 5, 0),
        RiscvOp::CEbreak => enc(Format::CR, 2, 9, 0),
    }
}

/// Whether a block of decoded instructions ends with this operation: whatever
/// may redirect control, raise a trap, change what a later fetch returns, or
/// write memory.
pub open spec fn ends_block(op: RiscvOp) -> bool {
    match op {
        RiscvOp::Lui
        | RiscvOp::Auipc
        | RiscvOp::Lb
        | RiscvOp::Lh
        | RiscvOp::Lw
        | RiscvOp::Ld
        | RiscvOp::Lbu
        | RiscvOp::Lhu
        | RiscvOp::Lwu
        | RiscvOp::Addi
        | RiscvOp::Slti
        | RiscvOp::Sltiu
        | RiscvOp::Xori
        | RiscvOp::Ori
        | RiscvOp::Andi
        | RiscvOp::Add
        | RiscvOp::Sub
        | RiscvOp::Slt
        | RiscvOp::Sltu
        | RiscvOp::Xor
        | RiscvOp::Or
        | RiscvOp::And
        | RiscvOp::Slli
        | RiscvOp::Srli
        | RiscvOp::Srai
        | RiscvOp::Sll
        | RiscvOp::Srl
        | RiscvOp::Sra
        | RiscvOp::Addiw
        | RiscvOp::Slliw
        | RiscvOp::Srliw
        | RiscvOp::Sraiw
        | RiscvOp::Addw
        | RiscvOp::Subw
        | RiscvOp::Sllw
        | RiscvOp::Srlw
        | RiscvOp::Sraw
        | RiscvOp::CAddi
        | RiscvOp::CLi
        | RiscvOp::CMv
        | RiscvOp::CAdd => false,
        _ => true,
    }
}

/// The layout of an operation and the fixed fields of its encoding.
pub fn get_encoding(op: RiscvOp) -> (e: Encoding)
    ensures
        e == encoding_of(op),
{
    match op {
        RiscvOp::Illegal => Encoding { format: Format::Invalid, opcode: 0, funct3: 0, funct7: 0 },
        RiscvOp::Lui => Encoding { format: Format::U, opcode: 0x37, funct3: 0, funct7: 0 },
        RiscvOp::Auipc => Encoding { format: Format::U, opcode: 0x17, funct3: 0, funct7: 0 },
        RiscvOp::Jal => Encoding { format: Format::J, opcode: 0x6f, funct3: 0, funct7: 0 },
        RiscvOp::Jalr => Encoding { format: Format::I, opcode: 0x67, funct3: 0, funct7: 0 },
        RiscvOp::Beq => Encoding { format: Format::B, opcode: 0x63, funct3: 0, funct7: 0 },
        RiscvOp::Bne => Encoding { format: Format::B, opcode: 0x63, funct3: 1, funct7: 0 },
        RiscvOp::Blt => Encoding { format: Format::B, opcode: 0x63, funct3: 4, funct7: 0 },
        RiscvOp::Bge => Encoding { format: Format::B, opcode: 0x63, funct3: 5, funct7: 0 },
        RiscvOp::Bltu => Encoding { format: Format::B, opcode: 0x63, funct3: 6, funct7: 0 },
        RiscvOp::Bgeu => Encoding { format: Format::B, opcode: 0x63, funct3: 7, funct7: 0 },
        RiscvOp::Lb => Encoding { format: Format::I, opcode: 0x03, funct3: 0, funct7: 0 },
        RiscvOp::Lh => Encoding { format: Format::I, opcode: 0x03, funct3: 1, funct7: 0 },
        RiscvOp::Lw => Encoding { format: Format::I, opcode: 0x03, funct3: 2, funct7: 0 },
        RiscvOp::Ld => Encoding { format: Format::I, opcode: 0x03, funct3: 3, funct7: 0 },
        RiscvOp::Lbu => Encoding { format: Format::I, opcode: 0x03, funct3: 4, funct7: 0 },
        RiscvOp::Lhu => Encoding { format: Format::I, opcode: 0x03, funct3: 5, funct7: 0 },
        RiscvOp::Lwu => Encoding { format: Format::I, opcode: 0x03, funct3: 6, funct7: 0 },
        RiscvOp::Sb => Encoding { format: Format::S, opcode: 0x23, funct3: 0, funct7: 0 },
        RiscvOp::Sh => Encoding { format: Format::S, opcode: 0x23, funct3: 1, funct7: 0 },
        RiscvOp::Sw => Encoding { format: Format::S, opcode: 0x23, funct3: 2, funct7: 0 },
        RiscvOp::Sd => Encoding { format: Format::S, opcode: 0x23, funct3: 3, funct7: 0 },
        RiscvOp::Addi => Encoding { format: Format::I, opcode: 0x13, funct3: 0, funct7: 0 },
        RiscvOp::Slti => Encoding { format: Format::I, opcode: 0x13, funct3: 2, funct7: 0 },
        RiscvOp::Sltiu => Encoding { format: Format::I, opcode: 0x13, funct3: 3, funct7: 0 },
        RiscvOp::Xori => Encoding { format: Format::I, opcode: 0x13, funct3: 4, funct7: 0 },
        RiscvOp::Ori => Encoding { format: Format::I, opcode: 0x13, funct3: 6, funct7: 0 },
        RiscvOp::Andi => Encoding { format: Format::I, opcode: 0x13, funct3: 7, funct7: 0 },
        RiscvOp::Add => Encoding { format: Format::R, opcode: 0x33, funct3: 0, funct7: 0 },
        RiscvOp::Sub => Encoding { format: Format::R, opcode: 0x33, funct3: 0, funct7: 0x20 },
        RiscvOp::Slt => Encoding { format: Format::R, opcode: 0x33, funct3: 2, funct7: 0 },
        RiscvOp::Sltu => Encoding { format: Format::R, opcode: 0x33, funct3: 3, funct7: 0 },
        RiscvOp::Xor => Encoding { format: Format::R, opcode: 0x33, funct3: 4, funct7: 0 },
        RiscvOp::Or => Encoding { format: Format::R, opcode: 0x33, funct3: 6, funct7: 0 },
        RiscvOp::And => Encoding { format: Format::R, opcode: 0x33, funct3: 7, funct7: 0 },
        RiscvOp::Slli => Encoding { format: Format::I, opcode: 0x13, funct3: 1, funct7: 0 },
        RiscvOp::Srli => Encoding { format: Format::I, opcode: 0x13, funct3: 5, funct7: 0 },
        RiscvOp::Srai => Encoding { format: Format::I, opcode: 0x13, funct3: 5, funct7: 0 },
        RiscvOp::Sll => Encoding { format: Format::R, opcode: 0x33, funct3: 1, funct7: 0 },
        RiscvOp::Srl => Encoding { format: Format::R, opcode: 0x33, funct3: 5, funct7: 0 },
        RiscvOp::Sra => Encoding { format: Format::R, opcode: 0x33, funct3: 5, funct7: 0x20 },
        RiscvOp::Addiw => Encoding { format: Format::I, opcode: 0x1b, funct3: 0, funct7: 0 },
        RiscvOp::Slliw => Encoding { format: Format::I, opcode: 0x1b, funct3: 1, funct7: 0 },
        RiscvOp::Srliw => Encoding { format: Format::I, opcode: 0x1b, funct3: 5, funct7: 0 },
        RiscvOp::Sraiw => Encoding { format: Format::I, opcode: 0x1b, funct3: 5, funct7: 0 },
        RiscvOp::Addw => Encoding { format: Format::R, opcode: 0x3b, funct3: 0, funct7: 0 },
        RiscvOp::Subw => Encoding { format: Format::R, opcode: 0x3b, funct3: 0, funct7: 0x20 },
        RiscvOp::Sllw => Encoding { format: Format::R, opcode: 0x3b, funct3: 1, funct7: 0 },
        RiscvOp::Srlw => Encoding { format: Format::R, opcode: 0x3b, funct3: 5, funct7: 0 },
        RiscvOp::Sraw => Encoding { format: Format::R, opcode: 0x3b, funct3: 5, funct7: 0x20 },
        RiscvOp::Fence => Encoding { format: Format::I, opcode: 0x0f, funct3: 0, funct7: 0 },
        RiscvOp::FenceI => Encoding { format: Format::I, opcode: 0x0f, funct3: 1, funct7: 0 },
        RiscvOp::Ecall => Encoding {
            format: Format::Fixed,
            opcode: 0x0000_0073,
            funct3: 0,
            funct7: 0,
        },
        RiscvOp::Ebreak => Encoding {
            format: Format::Fixed,
            opcode: 0x0010_0073,
            funct3: 0,
            funct7: 0,
        },
        RiscvOp::Mret => Encoding {
            format: Format::Fixed,
            opcode: 0x3020_0073,
            funct3: 0,
            funct7: 0,
        },
        RiscvOp::Sret => Encoding {
            format: Format::Fixed,
            opcode: 0x1020_0073,
            funct3: 0,
            funct7: 0,
        },
        RiscvOp::Wfi => Encoding {
            format: Format::Fixed,
            opcode: 0x1050_0073,
            funct3: 0,
            funct7: 0,
        },
        RiscvOp::Csrrw => Encoding { format: Format::Csr, opcode: 0x73, funct3: 1, funct7: 0 },
        RiscvOp::Csrrs => Encoding { format: Format::Csr, opcode: 0x73, funct3: 2, funct7: 0 },
        RiscvOp::Csrrc => Encoding { format: Format::Csr, opcode: 0x73, funct3: 3, funct7: 0 },
        RiscvOp::Csrrwi => Encoding { format: Format::Csr, opcode: 0x73, funct3: 5, funct7: 0 },
        RiscvOp::Csrrsi => Encoding { format: Format::Csr, opcode: 0x73, funct3: 6, funct7: 0 },
        RiscvOp::Csrrci => Encoding { format: Format::Csr, opcode: 0x73, funct3: 7, funct7: 0 },
        RiscvOp::CAddi => Encoding { format: Format::CI, opcode: 1, funct3: 0, funct7: 0 },
        RiscvOp::CLi => Encoding { format: Format::CI, opcode: 1, funct3: 2, funct7: 0 },
        RiscvOp::CMv => Encoding { format: Format::CR, opcode: 2, funct3: 8, funct7: 0 },
        RiscvOp::CAdd => Encoding { format: Format::CR, opcode: 2, funct3: 9, funct7: 0 },
        RiscvOp::CJr => Encoding { format: Format::CR, opcode: 2, funct3: 8, funct7: 0 },
        RiscvOp::CJalr => Encoding { format: Format::CR, opcode: 2, funct3: 9, funct7: 0 },
        RiscvOp::CJ => Encoding { format: Format::CJ, opcode: 1, funct3: 5, funct7: 0 },
        RiscvOp::CEbreak => Encoding { format: Format::CR, opcode: 2, funct3: 9, funct7: 0 },
    }
}

/// Whether a block ends with this operation.
pub fn op_ends_block(op: RiscvOp) -> (b: bool)
    ensures
        b == ends_block(op),
{
    match op {
        RiscvOp::Lui
        | RiscvOp::Auipc
        | RiscvOp::Lb
        | RiscvOp::Lh
        | RiscvOp::Lw
        | RiscvOp::Ld
        | RiscvOp::Lbu
        | RiscvOp::Lhu
        | RiscvOp::Lwu
        | RiscvOp::Addi
        | RiscvOp::Slti
        | RiscvOp::Sltiu
        | RiscvOp::Xori
        | RiscvOp::Ori
        | RiscvOp::Andi
        | RiscvOp::Add
        | RiscvOp::Sub
        | RiscvOp::Slt
        | RiscvOp::Sltu
        | RiscvOp::Xor
        | RiscvOp::Or
        | RiscvOp::And
        | RiscvOp::Slli
        | RiscvOp::Srli
        | RiscvOp::Srai
        | RiscvOp::Sll
        | RiscvOp::Srl
        | RiscvOp::Sra
        | RiscvOp::Addiw
        | RiscvOp::Slliw
        | RiscvOp::Srliw
        | RiscvOp::Sraiw
        | RiscvOp::Addw
        | RiscvOp::Subw
        | RiscvOp::Sllw
        | RiscvOp::Srlw
        | RiscvOp::Sraw
        | RiscvOp::CAddi
        | RiscvOp::CLi
        | RiscvOp::CMv
        | RiscvOp::CAdd => false,
        _ => true,
    }
}

/// The instruction that stands in a block for a word that decodes to nothing.
pub open spec fn illegal_instr_spec(inc_by: u64) -> RiscvInstr {
    RiscvInstr {
        inc_by,
        args: RiscvArgs { rd: 0, rs1: 0, rs2: 0, imm: 0 },
        func: RiscvOp::Illegal,
    }
}

/// The instruction that stands in a block for a word that decodes to nothing.
pub fn illegal_instruction(inc_by: u64) -> (i: RiscvInstr)
    ensures
        i == illegal_instr_spec(inc_by),
{
    RiscvInstr { inc_by, args: RiscvArgs { rd: 0, rs1: 0, rs2: 0, imm: 0 }, func: RiscvOp::Illegal }
}

} // verus!
