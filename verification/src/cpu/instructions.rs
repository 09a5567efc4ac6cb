//! Decoded-instruction records and the instruction decoders.
//!
//! A record is a tagged variant, one tag per instruction kind, carrying
//! already-parsed register indices and sign-extended immediates. Two
//! sentinel tags exist: `Absent` for a cache slot not yet populated and
//! `Illegal` for bits that decode to no valid instruction. Reserved
//! encodings are rejected here, at decode time.

use crate::cpu::decode::{c_funct3_field, c_rd_full, c_rd_prime, c_rs1_prime, c_rs2_full, c_shamt,
    csr_field, funct3_field, funct7_field, imm_b, imm_c16sp, imm_cb, imm_ci, imm_ciw, imm_cj,
    imm_cl, imm_clwsp, imm_cswsp, imm_i, imm_j, imm_s, imm_u, lemma_mask5_u16, lemma_mask5_u32,
    lemma_prime_reg_u16, opcode_field, rd_field, rs1_field, rs2_field, spec_imm_i};
use vstd::prelude::*;

verus! {

#[derive(Clone, Copy, Debug, PartialEq, Eq, Structural)]
pub enum Instruction {
    /// A cache slot that holds no decoded record yet.
    Absent,
    /// Bits that decode to no valid instruction.
    Illegal,
    Lui { rd: u8, imm: u32 },
    Auipc { rd: u8, imm: u32 },
    Jal { rd: u8, imm: u32 },
    Jalr { rd: u8, rs1: u8, imm: u32 },
    Beq { rs1: u8, rs2: u8, imm: u32 },
    Bne { rs1: u8, rs2: u8, imm: u32 },
    Blt { rs1: u8, rs2: u8, imm: u32 },
    Bge { rs1: u8, rs2: u8, imm: u32 },
    Bltu { rs1: u8, rs2: u8, imm: u32 },
    Bgeu { rs1: u8, rs2: u8, imm: u32 },
    Lb { rd: u8, rs1: u8, imm: u32 },
    Lh { rd: u8, rs1: u8, imm: u32 },
    Lw { rd: u8, rs1: u8, imm: u32 },
    Lbu { rd: u8, rs1: u8, imm: u32 },
    Lhu { rd: u8, rs1: u8, imm: u32 },
    Sb { rs1: u8, rs2: u8, imm: u32 },
    Sh { rs1: u8, rs2: u8, imm: u32 },
    Sw { rs1: u8, rs2: u8, imm: u32 },
    Addi { rd: u8, rs1: u8, imm: u32 },
    Slti { rd: u8, rs1: u8, imm: u32 },
    Sltiu { rd: u8, rs1: u8, imm: u32 },
    Xori { rd: u8, rs1: u8, imm: u32 },
    Ori { rd: u8, rs1: u8, imm: u32 },
    Andi { rd: u8, rs1: u8, imm: u32 },
    Slli { rd: u8, rs1: u8, shamt: u8 },
    Srli { rd: u8, rs1: u8, shamt: u8 },
    Srai { rd: u8, rs1: u8, shamt: u8 },
    Add { rd: u8, rs1: u8, rs2: u8 },
    Sub { rd: u8, rs1: u8, rs2: u8 },
    Sll { rd: u8, rs1: u8, rs2: u8 },
    Slt { rd: u8, rs1: u8, rs2: u8 },
    Sltu { rd: u8, rs1: u8, rs2: u8 },
    Xor { rd: u8, rs1: u8, rs2: u8 },
    Srl { rd: u8, rs1: u8, rs2: u8 },
    Sra { rd: u8, rs1: u8, rs2: u8 },
    Or { rd: u8, rs1: u8, rs2: u8 },
    And { rd: u8, rs1: u8, rs2: u8 },
    Fence,
    FenceI,
    Wfi,
    Ecall,
    Ebreak,
    Mret,
    Mul { rd: u8, rs1: u8, rs2: u8 },
    Mulh { rd: u8, rs1: u8, rs2: u8 },
    Mulhsu { rd: u8, rs1: u8, rs2: u8 },
    Mulhu { rd: u8, rs1: u8, rs2: u8 },
    Div { rd: u8, rs1: u8, rs2: u8 },
    Divu { rd: u8, rs1: u8, rs2: u8 },
    Rem { rd: u8, rs1: u8, rs2: u8 },
    Remu { rd: u8, rs1: u8, rs2: u8 },
    CAddi4spn { rd: u8, rs1: u8, imm: u32 },
    CLw { rd: u8, rs1: u8, imm: u32 },
    CSw { rs1: u8, rs2: u8, imm: u32 },
    CAddi { rd: u8, imm: u32 },
    CJal { rd: u8, imm: u32 },
    CLi { rd: u8, imm: u32 },
    CLui { rd: u8, imm: u32 },
    CAddi16Sp { rd: u8, imm: u32 },
    CSrli { rd: u8, shamt: u8 },
    CSrai { rd: u8, shamt: u8 },
    CAndi { rd: u8, imm: u32 },
    CSub { rd: u8, rs2: u8 },
    CXor { rd: u8, rs2: u8 },
    COr { rd: u8, rs2: u8 },
    CAnd { rd: u8, rs2: u8 },
    CJ { imm: u32 },
    CBeqz { rs1: u8, imm: u32 },
    CBnez { rs1: u8, imm: u32 },
    CSlli { rd: u8, shamt: u8 },
    CLwsp { rd: u8, imm: u32 },
    CJr { rs1: u8 },
    CMv { rd: u8, rs2: u8 },
    CJalr { rs1: u8 },
    CAdd { rd: u8, rs2: u8 },
    CSwsp { rs2: u8, imm: u32 },
    Csrrw { csr: u16, rd: u8, rs1: u8 },
    Csrrs { csr: u16, rd: u8, rs1: u8 },
    Csrrc { csr: u16, rd: u8, rs1: u8 },
    Csrrwi { csr: u16, rd: u8, uimm: u8 },
    Csrrsi { csr: u16, rd: u8, uimm: u8 },
    Csrrci { csr: u16, rd: u8, uimm: u8 },
}

/// Every register index and shift amount carried by the record is in
/// range; what the decoders produce and what execution relies on.
pub open spec fn inst_wf(i: Instruction) -> bool {
    match i {
        Instruction::Lui { rd, .. } => rd < 32,
        Instruction::Auipc { rd, .. } => rd < 32,
        Instruction::Jal { rd, .. } => rd < 32,
        Instruction::Jalr { rd, rs1, .. } => rd < 32 && rs1 < 32,
        Instruction::Beq { rs1, rs2, .. } => rs1 < 32 && rs2 < 32,
        Instruction::Bne { rs1, rs2, .. } => rs1 < 32 && rs2 < 32,
        Instruction::Blt { rs1, rs2, .. } => rs1 < 32 && rs2 < 32,
        Instruction::Bge { rs1, rs2, .. } => rs1 < 32 && rs2 < 32,
        Instruction::Bltu { rs1, rs2, .. } => rs1 < 32 && rs2 < 32,
        Instruction::Bgeu { rs1, rs2, .. } => rs1 < 32 && rs2 < 32,
        Instruction::Lb { rd, rs1, .. } => rd < 32 && rs1 < 32,
        Instruction::Lh { rd, rs1, .. } => rd < 32 && rs1 < 32,
        Instruction::Lw { rd, rs1, .. } => rd < 32 && rs1 < 32,
        Instruction::Lbu { rd, rs1, .. } => rd < 32 && rs1 < 32,
        Instruction::Lhu { rd, rs1, .. } => rd < 32 && rs1 < 32,
        Instruction::Sb { rs1, rs2, .. } => rs1 < 32 && rs2 < 32,
        Instruction::Sh { rs1, rs2, .. } => rs1 < 32 && rs2 < 32,
        Instruction::Sw { rs1, rs2, .. } => rs1 < 32 && rs2 < 32,
        Instruction::Addi { rd, rs1, .. } => rd < 32 && rs1 < 32,
        Instruction::Slti { rd, rs1, .. } => rd < 32 && rs1 < 32,
        Instruction::Sltiu { rd, rs1, .. } => rd < 32 && rs1 < 32,
        Instruction::Xori { rd, rs1, .. } => rd < 32 && rs1 < 32,
        Instruction::Ori { rd, rs1, .. } => rd < 32 && rs1 < 32,
        Instruction::Andi { rd, rs1, .. } => rd < 32 && rs1 < 32,
        Instruction::Slli { rd, rs1, shamt } => rd < 32 && rs1 < 32 && shamt < 32,
        Instruction::Srli { rd, rs1, shamt } => rd < 32 && rs1 < 32 && shamt < 32,
        Instruction::Srai { rd, rs1, shamt } => rd < 32 && rs1 < 32 && shamt < 32,
        Instruction::Add { rd, rs1, rs2 } => rd < 32 && rs1 < 32 && rs2 < 32,
        Instruction::Sub { rd, rs1, rs2 } => rd < 32 && rs1 < 32 && rs2 < 32,
        Instruction::Sll { rd, rs1, rs2 } => rd < 32 && rs1 < 32 && rs2 < 32,
        Instruction::Slt { rd, rs1, rs2 } => rd < 32 && rs1 < 32 && rs2 < 32,
        Instruction::Sltu { rd, rs1, rs2 } => rd < 32 && rs1 < 32 && rs2 < 32,
        Instruction::Xor { rd, rs1, rs2 } => rd < 32 && rs1 < 32 && rs2 < 32,
        Instruction::Srl { rd, rs1, rs2 } => rd < 32 && rs1 < 32 && rs2 < 32,
        Instruction::Sra { rd, rs1, rs2 } => rd < 32 && rs1 < 32 && rs2 < 32,
        Instruction::Or { rd, rs1, rs2 } => rd < 32 && rs1 < 32 && rs2 < 32,
        Instruction::And { rd, rs1, rs2 } => rd < 32 && rs1 < 32 && rs2 < 32,
        Instruction::Mul { rd, rs1, rs2 } => rd < 32 && rs1 < 32 && rs2 < 32,
        Instruction::Mulh { rd, rs1, rs2 } => rd < 32 && rs1 < 32 && rs2 < 32,
        Instruction::Mulhsu { rd, rs1, rs2 } => rd < 32 && rs1 < 32 && rs2 < 32,
        Instruction::Mulhu { rd, rs1, rs2 } => rd < 32 && rs1 < 32 && rs2 < 32,
        Instruction::Div { rd, rs1, rs2 } => rd < 32 && rs1 < 32 && rs2 < 32,
        Instruction::Divu { rd, rs1, rs2 } => rd < 32 && rs1 < 32 && rs2 < 32,
        Instruction::Rem { rd, rs1, rs2 } => rd < 32 && rs1 < 32 && rs2 < 32,
        Instruction::Remu { rd, rs1, rs2 } => rd < 32 && rs1 < 32 && rs2 < 32,
        Instruction::CAddi4spn { rd, rs1, .. } => rd < 32 && rs1 < 32,
        Instruction::CLw { rd, rs1, .. } => rd < 32 && rs1 < 32,
        Instruction::CSw { rs1, rs2, .. } => rs1 < 32 && rs2 < 32,
        Instruction::CAddi { rd, .. } => rd < 32,
        Instruction::CJal { rd, .. } => rd < 32,
        Instruction::CLi { rd, .. } => rd < 32,
        Instruction::CLui { rd, .. } => rd < 32,
        Instruction::CAddi16Sp { rd, .. } => rd < 32,
        Instruction::CSrli { rd, shamt } => rd < 32 && shamt < 32,
        Instruction::CSrai { rd, shamt } => rd < 32 && shamt < 32,
        Instruction::CAndi { rd, .. } => rd < 32,
        Instruction::CSub { rd, rs2 } => rd < 32 && rs2 < 32,
        Instruction::CXor { rd, rs2 } => rd < 32 && rs2 < 32,
        Instruction::COr { rd, rs2 } => rd < 32 && rs2 < 32,
        Instruction::CAnd { rd, rs2 } => rd < 32 && rs2 < 32,
        Instruction::CBeqz { rs1, .. } => rs1 < 32,
        Instruction::CBnez { rs1, .. } => rs1 < 32,
        Instruction::CSlli { rd, shamt } => rd < 32 && shamt < 32,
        Instruction::CLwsp { rd, .. } => rd < 32,
        Instruction::CJr { rs1 } => rs1 < 32,
        Instruction::CMv { rd, rs2 } => rd < 32 && rs2 < 32,
        Instruction::CJalr { rs1 } => rs1 < 32,
        Instruction::CAdd { rd, rs2 } => rd < 32 && rs2 < 32,
        Instruction::CSwsp { rs2, .. } => rs2 < 32,
        Instruction::Csrrw { rd, rs1, .. } => rd < 32 && rs1 < 32,
        Instruction::Csrrs { rd, rs1, .. } => rd < 32 && rs1 < 32,
        Instruction::Csrrc { rd, rs1, .. } => rd < 32 && rs1 < 32,
        Instruction::Csrrwi { rd, uimm, .. } => rd < 32 && uimm < 32,
        Instruction::Csrrsi { rd, uimm, .. } => rd < 32 && uimm < 32,
        Instruction::Csrrci { rd, uimm, .. } => rd < 32 && uimm < 32,
        _ => true,
    }
}

impl Instruction {
    pub fn lui(inst_bin: u32) -> (r: Instruction)
        ensures
            r == (Instruction::Lui { rd: rd_field(inst_bin), imm: imm_u(inst_bin) }),
    {
        Instruction::Lui { rd: rd_field(inst_bin), imm: imm_u(inst_bin) }
    }

    pub fn auipc(inst_bin: u32) -> (r: Instruction)
        ensures
            r == (Instruction::Auipc { rd: rd_field(inst_bin), imm: imm_u(inst_bin) }),
    {
        Instruction::Auipc { rd: rd_field(inst_bin), imm: imm_u(inst_bin) }
    }

    pub fn jal(inst_bin: u32) -> (r: Instruction)
        ensures
            r == (Instruction::Jal { rd: rd_field(inst_bin), imm: imm_j(inst_bin) }),
    {
        Instruction::Jal { rd: rd_field(inst_bin), imm: imm_j(inst_bin) }
    }

    pub fn jalr(inst_bin: u32) -> (r: Instruction)
        ensures
            r == (Instruction::Jalr { rd: rd_field(inst_bin), rs1: rs1_field(inst_bin), imm: imm_i(inst_bin) }),
    {
        Instruction::Jalr { rd: rd_field(inst_bin), rs1: rs1_field(inst_bin), imm: imm_i(inst_bin) }
    }

    pub fn beq(inst_bin: u32) -> (r: Instruction)
        ensures
            r == (Instruction::Beq { rs1: rs1_field(inst_bin), rs2: rs2_field(inst_bin), imm: imm_b(inst_bin) }),
    {
        Instruction::Beq { rs1: rs1_field(inst_bin), rs2: rs2_field(inst_bin), imm: imm_b(inst_bin) }
    }

    pub fn bne(inst_bin: u32) -> (r: Instruction)
        ensures
            r == (Instruction::Bne { rs1: rs1_field(inst_bin), rs2: rs2_field(inst_bin), imm: imm_b(inst_bin) }),
    {
        Instruction::Bne { rs1: rs1_field(inst_bin), rs2: rs2_field(inst_bin), imm: imm_b(inst_bin) }
    }

    pub fn blt(inst_bin: u32) -> (r: Instruction)
        ensures
            r == (Instruction::Blt { rs1: rs1_field(inst_bin), rs2: rs2_field(inst_bin), imm: imm_b(inst_bin) }),
    {
        Instruction::Blt { rs1: rs1_field(inst_bin), rs2: rs2_field(inst_bin), imm: imm_b(inst_bin) }
    }

    pub fn bge(inst_bin: u32) -> (r: Instruction)
        ensures
            r == (Instruction::Bge { rs1: rs1_field(inst_bin), rs2: rs2_field(inst_bin), imm: imm_b(inst_bin) }),
    {
        Instruction::Bge { rs1: rs1_field(inst_bin), rs2: rs2_field(inst_bin), imm: imm_b(inst_bin) }
    }

    pub fn bltu(inst_bin: u32) -> (r: Instruction)
        ensures
            r == (Instruction::Bltu { rs1: rs1_field(inst_bin), rs2: rs2_field(inst_bin), imm: imm_b(inst_bin) }),
    {
        Instruction::Bltu { rs1: rs1_field(inst_bin), rs2: rs2_field(inst_bin), imm: imm_b(inst_bin) }
    }

    pub fn bgeu(inst_bin: u32) -> (r: Instruction)
        ensures
            r == (Instruction::Bgeu { rs1: rs1_field(inst_bin), rs2: rs2_field(inst_bin), imm: imm_b(inst_bin) }),
    {
        Instruction::Bgeu { rs1: rs1_field(inst_bin), rs2: rs2_field(inst_bin), imm: imm_b(inst_bin) }
    }

    pub fn lb(inst_bin: u32) -> (r: Instruction)
        ensures
            r == (Instruction::Lb { rd: rd_field(inst_bin), rs1: rs1_field(inst_bin), imm: imm_i(inst_bin) }),
    {
        Instruction::Lb { rd: rd_field(inst_bin), rs1: rs1_field(inst_bin), imm: imm_i(inst_bin) }
    }

    pub fn lh(inst_bin: u32) -> (r: Instruction)
        ensures
            r == (Instruction::Lh { rd: rd_field(inst_bin), rs1: rs1_field(inst_bin), imm: imm_i(inst_bin) }),
    {
        Instruction::Lh { rd: rd_field(inst_bin), rs1: rs1_field(inst_bin), imm: imm_i(inst_bin) }
    }

    pub fn lw(inst_bin: u32) -> (r: Instruction)
        ensures
            r == (Instruction::Lw { rd: rd_field(inst_bin), rs1: rs1_field(inst_bin), imm: imm_i(inst_bin) }),
    {
        Instruction::Lw { rd: rd_field(inst_bin), rs1: rs1_field(inst_bin), imm: imm_i(inst_bin) }
    }

    pub fn lbu(inst_bin: u32) -> (r: Instruction)
        ensures
            r == (Instruction::Lbu { rd: rd_field(inst_bin), rs1: rs1_field(inst_bin), imm: imm_i(inst_bin) }),
    {
        Instruction::Lbu { rd: rd_field(inst_bin), rs1: rs1_field(inst_bin), imm: imm_i(inst_bin) }
    }

    pub fn lhu(inst_bin: u32) -> (r: Instruction)
        ensures
            r == (Instruction::Lhu { rd: rd_field(inst_bin), rs1: rs1_field(inst_bin), imm: imm_i(inst_bin) }),
    {
        Instruction::Lhu { rd: rd_field(inst_bin), rs1: rs1_field(inst_bin), imm: imm_i(inst_bin) }
    }

    pub fn sb(inst_bin: u32) -> (r: Instruction)
        ensures
            r == (Instruction::Sb { rs1: rs1_field(inst_bin), rs2: rs2_field(inst_bin), imm: imm_s(inst_bin) }),
    {
        Instruction::Sb { rs1: rs1_field(inst_bin), rs2: rs2_field(inst_bin), imm: imm_s(inst_bin) }
    }

    pub fn sh(inst_bin: u32) -> (r: Instruction)
        ensures
            r == (Instruction::Sh { rs1: rs1_field(inst_bin), rs2: rs2_field(inst_bin), imm: imm_s(inst_bin) }),
    {
        Instruction::Sh { rs1: rs1_field(inst_bin), rs2: rs2_field(inst_bin), imm: imm_s(inst_bin) }
    }

    pub fn sw(inst_bin: u32) -> (r: Instruction)
        ensures
            r == (Instruction::Sw { rs1: rs1_field(inst_bin), rs2: rs2_field(inst_bin), imm: imm_s(inst_bin) }),
    {
        Instruction::Sw { rs1: rs1_field(inst_bin), rs2: rs2_field(inst_bin), imm: imm_s(inst_bin) }
    }

    pub fn addi(inst_bin: u32) -> (r: Instruction)
        ensures
            r == (Instruction::Addi { rd: rd_field(inst_bin), rs1: rs1_field(inst_bin), imm: imm_i(inst_bin) }),
    {
        Instruction::Addi { rd: rd_field(inst_bin), rs1: rs1_field(inst_bin), imm: imm_i(inst_bin) }
    }

    pub fn slti(inst_bin: u32) -> (r: Instruction)
        ensures
            r == (Instruction::Slti { rd: rd_field(inst_bin), rs1: rs1_field(inst_bin), imm: imm_i(inst_bin) }),
    {
        Instruction::Slti { rd: rd_field(inst_bin), rs1: rs1_field(inst_bin), imm: imm_i(inst_bin) }
    }

    pub fn sltiu(inst_bin: u32) -> (r: Instruction)
        ensures
            r == (Instruction::Sltiu { rd: rd_field(inst_bin), rs1: rs1_field(inst_bin), imm: imm_i(inst_bin) }),
    {
        Instruction::Sltiu { rd: rd_field(inst_bin), rs1: rs1_field(inst_bin), imm: imm_i(inst_bin) }
    }

    pub fn xori(inst_bin: u32) -> (r: Instruction)
        ensures
            r == (Instruction::Xori { rd: rd_field(inst_bin), rs1: rs1_field(inst_bin), imm: imm_i(inst_bin) }),
    {
        Instruction::Xori { rd: rd_field(inst_bin), rs1: rs1_field(inst_bin), imm: imm_i(inst_bin) }
    }

    pub fn ori(inst_bin: u32) -> (r: Instruction)
        ensures
            r == (Instruction::Ori { rd: rd_field(inst_bin), rs1: rs1_field(inst_bin), imm: imm_i(inst_bin) }),
    {
        Instruction::Ori { rd: rd_field(inst_bin), rs1: rs1_field(inst_bin), imm: imm_i(inst_bin) }
    }

    pub fn andi(inst_bin: u32) -> (r: Instruction)
        ensures
            r == (Instruction::Andi { rd: rd_field(inst_bin), rs1: rs1_field(inst_bin), imm: imm_i(inst_bin) }),
    {
        Instruction::Andi { rd: rd_field(inst_bin), rs1: rs1_field(inst_bin), imm: imm_i(inst_bin) }
    }

    /// A nonzero upper immediate field is a reserved shift encoding;
    /// it decodes to `Illegal` here rather than being caught later.
    pub fn slli(inst_bin: u32) -> (r: Instruction)
        ensures
            r == (if imm_i(inst_bin) & 0xfe0 != 0 {
            Instruction::Illegal
        } else {
            Instruction::Slli {
                rd: rd_field(inst_bin),
                rs1: rs1_field(inst_bin),
                shamt: (imm_i(inst_bin) & 0x1f) as u8,
            }
        }),
    {
        if imm_i(inst_bin) & 0xfe0 != 0 {
            Instruction::Illegal
        } else {
            Instruction::Slli {
                rd: rd_field(inst_bin),
                rs1: rs1_field(inst_bin),
                shamt: (imm_i(inst_bin) & 0x1f) as u8,
            }
        }
    }

    /// A nonzero upper immediate field is a reserved shift encoding;
    /// it decodes to `Illegal` here rather than being caught later.
    pub fn srli(inst_bin: u32) -> (r: Instruction)
        ensures
            r == (if imm_i(inst_bin) & 0xfe0 != 0 {
            Instruction::Illegal
        } else {
            Instruction::Srli {
                rd: rd_field(inst_bin),
                rs1: rs1_field(inst_bin),
                shamt: (imm_i(inst_bin) & 0x1f) as u8,
            }
        }),
    {
        if imm_i(inst_bin) & 0xfe0 != 0 {
            Instruction::Illegal
        } else {
            Instruction::Srli {
                rd: rd_field(inst_bin),
                rs1: rs1_field(inst_bin),
                shamt: (imm_i(inst_bin) & 0x1f) as u8,
            }
        }
    }

    /// An upper immediate field other than the arithmetic-shift marker
    /// is reserved; it decodes to `Illegal` here.
    pub fn srai(inst_bin: u32) -> (r: Instruction)
        ensures
            r == (if imm_i(inst_bin) & 0xbe0 != 0 {
            Instruction::Illegal
        } else {
            Instruction::Srai {
                rd: rd_field(inst_bin),
                rs1: rs1_field(inst_bin),
                shamt: (imm_i(inst_bin) & 0x1f) as u8,
            }
        }),
    {
        if imm_i(inst_bin) & 0xbe0 != 0 {
            Instruction::Illegal
        } else {
            Instruction::Srai {
                rd: rd_field(inst_bin),
                rs1: rs1_field(inst_bin),
                shamt: (imm_i(inst_bin) & 0x1f) as u8,
            }
        }
    }

    pub fn add(inst_bin: u32) -> (r: Instruction)
        ensures
            r == (Instruction::Add { rd: rd_field(inst_bin), rs1: rs1_field(inst_bin), rs2: rs2_field(inst_bin) }),
    {
        Instruction::Add { rd: rd_field(inst_bin), rs1: rs1_field(inst_bin), rs2: rs2_field(inst_bin) }
    }

    pub fn sub(inst_bin: u32) -> (r: Instruction)
        ensures
            r == (Instruction::Sub { rd: rd_field(inst_bin), rs1: rs1_field(inst_bin), rs2: rs2_field(inst_bin) }),
    {
        Instruction::Sub { rd: rd_field(inst_bin), rs1: rs1_field(inst_bin), rs2: rs2_field(inst_bin) }
    }

    pub fn sll(inst_bin: u32) -> (r: Instruction)
        ensures
            r == (Instruction::Sll { rd: rd_field(inst_bin), rs1: rs1_field(inst_bin), rs2: rs2_field(inst_bin) }),
    {
        Instruction::Sll { rd: rd_field(inst_bin), rs1: rs1_field(inst_bin), rs2: rs2_field(inst_bin) }
    }

    pub fn slt(inst_bin: u32) -> (r: Instruction)
        ensures
            r == (Instruction::Slt { rd: rd_field(inst_bin), rs1: rs1_field(inst_bin), rs2: rs2_field(inst_bin) }),
    {
        Instruction::Slt { rd: rd_field(inst_bin), rs1: rs1_field(inst_bin), rs2: rs2_field(inst_bin) }
    }

    pub fn sltu(inst_bin: u32) -> (r: Instruction)
        ensures
            r == (Instruction::Sltu { rd: rd_field(inst_bin), rs1: rs1_field(inst_bin), rs2: rs2_field(inst_bin) }),
    {
        Instruction::Sltu { rd: rd_field(inst_bin), rs1: rs1_field(inst_bin), rs2: rs2_field(inst_bin) }
    }

    pub fn xor(inst_bin: u32) -> (r: Instruction)
        ensures
            r == (Instruction::Xor { rd: rd_field(inst_bin), rs1: rs1_field(inst_bin), rs2: rs2_field(inst_bin) }),
    {
        Instruction::Xor { rd: rd_field(inst_bin), rs1: rs1_field(inst_bin), rs2: rs2_field(inst_bin) }
    }

    pub fn srl(inst_bin: u32) -> (r: Instruction)
        ensures
            r == (Instruction::Srl { rd: rd_field(inst_bin), rs1: rs1_field(inst_bin), rs2: rs2_field(inst_bin) }),
    {
        Instruction::Srl { rd: rd_field(inst_bin), rs1: rs1_field(inst_bin), rs2: rs2_field(inst_bin) }
    }

    pub fn sra(inst_bin: u32) -> (r: Instruction)
        ensures
            r == (Instruction::Sra { rd: rd_field(inst_bin), rs1: rs1_field(inst_bin), rs2: rs2_field(inst_bin) }),
    {
        Instruction::Sra { rd: rd_field(inst_bin), rs1: rs1_field(inst_bin), rs2: rs2_field(inst_bin) }
    }

    pub fn or(inst_bin: u32) -> (r: Instruction)
        ensures
            r == (Instruction::Or { rd: rd_field(inst_bin), rs1: rs1_field(inst_bin), rs2: rs2_field(inst_bin) }),
    {
        Instruction::Or { rd: rd_field(inst_bin), rs1: rs1_field(inst_bin), rs2: rs2_field(inst_bin) }
    }

    pub fn and(inst_bin: u32) -> (r: Instruction)
        ensures
            r == (Instruction::And { rd: rd_field(inst_bin), rs1: rs1_field(inst_bin), rs2: rs2_field(inst_bin) }),
    {
        Instruction::And { rd: rd_field(inst_bin), rs1: rs1_field(inst_bin), rs2: rs2_field(inst_bin) }
    }

    pub fn mul(inst_bin: u32) -> (r: Instruction)
        ensures
            r == (Instruction::Mul { rd: rd_field(inst_bin), rs1: rs1_field(inst_bin), rs2: rs2_field(inst_bin) }),
    {
        Instruction::Mul { rd: rd_field(inst_bin), rs1: rs1_field(inst_bin), rs2: rs2_field(inst_bin) }
    }

    pub fn mulh(inst_bin: u32) -> (r: Instruction)
        ensures
            r == (Instruction::Mulh { rd: rd_field(inst_bin), rs1: rs1_field(inst_bin), rs2: rs2_field(inst_bin) }),
    {
        Instruction::Mulh { rd: rd_field(inst_bin), rs1: rs1_field(inst_bin), rs2: rs2_field(inst_bin) }
    }

    pub fn mulhsu(inst_bin: u32) -> (r: Instruction)
        ensures
            r == (Instruction::Mulhsu { rd: rd_field(inst_bin), rs1: rs1_field(inst_bin), rs2: rs2_field(inst_bin) }),
    {
        Instruction::Mulhsu { rd: rd_field(inst_bin), rs1: rs1_field(inst_bin), rs2: rs2_field(inst_bin) }
    }

    pub fn mulhu(inst_bin: u32) -> (r: Instruction)
        ensures
            r == (Instruction::Mulhu { rd: rd_field(inst_bin), rs1: rs1_field(inst_bin), rs2: rs2_field(inst_bin) }),
    {
        Instruction::Mulhu { rd: rd_field(inst_bin), rs1: rs1_field(inst_bin), rs2: rs2_field(inst_bin) }
    }

    pub fn div(inst_bin: u32) -> (r: Instruction)
        ensures
            r == (Instruction::Div { rd: rd_field(inst_bin), rs1: rs1_field(inst_bin), rs2: rs2_field(inst_bin) }),
    {
        Instruction::Div { rd: rd_field(inst_bin), rs1: rs1_field(inst_bin), rs2: rs2_field(inst_bin) }
    }

    pub fn divu(inst_bin: u32) -> (r: Instruction)
        ensures
            r == (Instruction::Divu { rd: rd_field(inst_bin), rs1: rs1_field(inst_bin), rs2: rs2_field(inst_bin) }),
    {
        Instruction::Divu { rd: rd_field(inst_bin), rs1: rs1_field(inst_bin), rs2: rs2_field(inst_bin) }
    }

    pub fn rem(inst_bin: u32) -> (r: Instruction)
        ensures
            r == (Instruction::Rem { rd: rd_field(inst_bin), rs1: rs1_field(inst_bin), rs2: rs2_field(inst_bin) }),
    {
        Instruction::Rem { rd: rd_field(inst_bin), rs1: rs1_field(inst_bin), rs2: rs2_field(inst_bin) }
    }

    pub fn remu(inst_bin: u32) -> (r: Instruction)
        ensures
            r == (Instruction::Remu { rd: rd_field(inst_bin), rs1: rs1_field(inst_bin), rs2: rs2_field(inst_bin) }),
    {
        Instruction::Remu { rd: rd_field(inst_bin), rs1: rs1_field(inst_bin), rs2: rs2_field(inst_bin) }
    }

    pub fn fence() -> (r: Instruction)
        ensures
            r == Instruction::Fence,
    {
        Instruction::Fence
    }

    pub fn fence_i() -> (r: Instruction)
        ensures
            r == Instruction::FenceI,
    {
        Instruction::FenceI
    }

    pub fn ecall() -> (r: Instruction)
        ensures
            r == Instruction::Ecall,
    {
        Instruction::Ecall
    }

    pub fn ebreak() -> (r: Instruction)
        ensures
            r == Instruction::Ebreak,
    {
        Instruction::Ebreak
    }

    pub fn mret() -> (r: Instruction)
        ensures
            r == Instruction::Mret,
    {
        Instruction::Mret
    }

    pub fn wfi() -> (r: Instruction)
        ensures
            r == Instruction::Wfi,
    {
        Instruction::Wfi
    }

    pub fn csrrw(inst_bin: u32) -> (r: Instruction)
        ensures
            r == (Instruction::Csrrw { csr: csr_field(inst_bin), rd: rd_field(inst_bin), rs1: rs1_field(inst_bin) }),
    {
        Instruction::Csrrw { csr: csr_field(inst_bin), rd: rd_field(inst_bin), rs1: rs1_field(inst_bin) }
    }

    pub fn csrrs(inst_bin: u32) -> (r: Instruction)
        ensures
            r == (Instruction::Csrrs { csr: csr_field(inst_bin), rd: rd_field(inst_bin), rs1: rs1_field(inst_bin) }),
    {
        Instruction::Csrrs { csr: csr_field(inst_bin), rd: rd_field(inst_bin), rs1: rs1_field(inst_bin) }
    }

    pub fn csrrc(inst_bin: u32) -> (r: Instruction)
        ensures
            r == (Instruction::Csrrc { csr: csr_field(inst_bin), rd: rd_field(inst_bin), rs1: rs1_field(inst_bin) }),
    {
        Instruction::Csrrc { csr: csr_field(inst_bin), rd: rd_field(inst_bin), rs1: rs1_field(inst_bin) }
    }

    pub fn csrrwi(inst_bin: u32) -> (r: Instruction)
        ensures
            r == (Instruction::Csrrwi { csr: csr_field(inst_bin), rd: rd_field(inst_bin), uimm: rs1_field(inst_bin) }),
    {
        Instruction::Csrrwi { csr: csr_field(inst_bin), rd: rd_field(inst_bin), uimm: rs1_field(inst_bin) }
    }

    pub fn csrrsi(inst_bin: u32) -> (r: Instruction)
        ensures
            r == (Instruction::Csrrsi { csr: csr_field(inst_bin), rd: rd_field(inst_bin), uimm: rs1_field(inst_bin) }),
    {
        Instruction::Csrrsi { csr: csr_field(inst_bin), rd: rd_field(inst_bin), uimm: rs1_field(inst_bin) }
    }

    pub fn csrrci(inst_bin: u32) -> (r: Instruction)
        ensures
            r == (Instruction::Csrrci { csr: csr_field(inst_bin), rd: rd_field(inst_bin), uimm: rs1_field(inst_bin) }),
    {
        Instruction::Csrrci { csr: csr_field(inst_bin), rd: rd_field(inst_bin), uimm: rs1_field(inst_bin) }
    }

    /// The zero-immediate form is reserved; it decodes to `Illegal`
    /// here, so the trap is raised through the illegal path.
    pub fn c_addi4spn(inst_bin: u16) -> (r: Instruction)
        ensures
            r == (if imm_ciw(inst_bin) == 0 {
            Instruction::Illegal
        } else {
            Instruction::CAddi4spn { rd: c_rd_prime(inst_bin), rs1: 2, imm: imm_ciw(inst_bin) }
        }),
    {
        if imm_ciw(inst_bin) == 0 {
            Instruction::Illegal
        } else {
            Instruction::CAddi4spn { rd: c_rd_prime(inst_bin), rs1: 2, imm: imm_ciw(inst_bin) }
        }
    }

    pub fn c_lw(inst_bin: u16) -> (r: Instruction)
        ensures
            r == (Instruction::CLw { rd: c_rd_prime(inst_bin), rs1: c_rs1_prime(inst_bin), imm: imm_cl(inst_bin) }),
    {
        Instruction::CLw { rd: c_rd_prime(inst_bin), rs1: c_rs1_prime(inst_bin), imm: imm_cl(inst_bin) }
    }

    pub fn c_sw(inst_bin: u16) -> (r: Instruction)
        ensures
            r == (Instruction::CSw { rs1: c_rs1_prime(inst_bin), rs2: c_rd_prime(inst_bin), imm: imm_cl(inst_bin) }),
    {
        Instruction::CSw { rs1: c_rs1_prime(inst_bin), rs2: c_rd_prime(inst_bin), imm: imm_cl(inst_bin) }
    }

    pub fn c_addi(inst_bin: u16) -> (r: Instruction)
        ensures
            r == (Instruction::CAddi { rd: c_rd_full(inst_bin), imm: imm_ci(inst_bin) }),
    {
        Instruction::CAddi { rd: c_rd_full(inst_bin), imm: imm_ci(inst_bin) }
    }

    pub fn c_jal(inst_bin: u16) -> (r: Instruction)
        ensures
            r == (Instruction::CJal { rd: 1, imm: imm_cj(inst_bin) }),
    {
        Instruction::CJal { rd: 1, imm: imm_cj(inst_bin) }
    }

    /// The rd = 0 form is reserved; it decodes to `Illegal` here, so
    /// the trap is raised through the illegal path.
    pub fn c_li(inst_bin: u16) -> (r: Instruction)
        ensures
            r == (if c_rd_full(inst_bin) == 0 {
            Instruction::Illegal
        } else {
            Instruction::CLi { rd: c_rd_full(inst_bin), imm: imm_ci(inst_bin) }
        }),
    {
        if c_rd_full(inst_bin) == 0 {
            Instruction::Illegal
        } else {
            Instruction::CLi { rd: c_rd_full(inst_bin), imm: imm_ci(inst_bin) }
        }
    }

    /// The zero-immediate form is reserved; it decodes to `Illegal`
    /// here, so the trap is raised through the illegal path.
    pub fn c_addi16sp(inst_bin: u16) -> (r: Instruction)
        ensures
            r == (if imm_c16sp(inst_bin) == 0 {
            Instruction::Illegal
        } else {
            Instruction::CAddi16Sp { rd: 2, imm: imm_c16sp(inst_bin) }
        }),
    {
        if imm_c16sp(inst_bin) == 0 {
            Instruction::Illegal
        } else {
            Instruction::CAddi16Sp { rd: 2, imm: imm_c16sp(inst_bin) }
        }
    }

    /// The rd = 0 and rd = 2 forms are reserved; they decode to
    /// `Illegal` here, so the trap is raised through the illegal path.
    pub fn c_lui(inst_bin: u16) -> (r: Instruction)
        ensures
            r == (if c_rd_full(inst_bin) == 0 || c_rd_full(inst_bin) == 2 {
            Instruction::Illegal
        } else {
            Instruction::CLui { rd: c_rd_full(inst_bin), imm: imm_ci(inst_bin) << 12 }
        }),
    {
        if c_rd_full(inst_bin) == 0 || c_rd_full(inst_bin) == 2 {
            Instruction::Illegal
        } else {
            Instruction::CLui { rd: c_rd_full(inst_bin), imm: imm_ci(inst_bin) << 12 }
        }
    }

    /// A set bit 12 (shamt bit 5) is reserved on a 32-bit target; it
    /// decodes to `Illegal` here.
    pub fn c_srli(inst_bin: u16) -> (r: Instruction)
        ensures
            r == (if (inst_bin >> 12) & 0x1 != 0 {
            Instruction::Illegal
        } else {
            Instruction::CSrli { rd: c_rs1_prime(inst_bin), shamt: c_shamt(inst_bin) }
        }),
    {
        if (inst_bin >> 12) & 0x1 != 0 {
            Instruction::Illegal
        } else {
            Instruction::CSrli { rd: c_rs1_prime(inst_bin), shamt: c_shamt(inst_bin) }
        }
    }

    /// A set bit 12 (shamt bit 5) is reserved on a 32-bit target; it
    /// decodes to `Illegal` here.
    pub fn c_srai(inst_bin: u16) -> (r: Instruction)
        ensures
            r == (if (inst_bin >> 12) & 0x1 != 0 {
            Instruction::Illegal
        } else {
            Instruction::CSrai { rd: c_rs1_prime(inst_bin), shamt: c_shamt(inst_bin) }
        }),
    {
        if (inst_bin >> 12) & 0x1 != 0 {
            Instruction::Illegal
        } else {
            Instruction::CSrai { rd: c_rs1_prime(inst_bin), shamt: c_shamt(inst_bin) }
        }
    }

    pub fn c_andi(inst_bin: u16) -> (r: Instruction)
        ensures
            r == (Instruction::CAndi { rd: c_rs1_prime(inst_bin), imm: imm_ci(inst_bin) }),
    {
        Instruction::CAndi { rd: c_rs1_prime(inst_bin), imm: imm_ci(inst_bin) }
    }

    pub fn c_sub(inst_bin: u16) -> (r: Instruction)
        ensures
            r == (Instruction::CSub { rd: c_rs1_prime(inst_bin), rs2: c_rd_prime(inst_bin) }),
    {
        Instruction::CSub { rd: c_rs1_prime(inst_bin), rs2: c_rd_prime(inst_bin) }
    }

    pub fn c_xor(inst_bin: u16) -> (r: Instruction)
        ensures
            r == (Instruction::CXor { rd: c_rs1_prime(inst_bin), rs2: c_rd_prime(inst_bin) }),
    {
        Instruction::CXor { rd: c_rs1_prime(inst_bin), rs2: c_rd_prime(inst_bin) }
    }

    pub fn c_or(inst_bin: u16) -> (r: Instruction)
        ensures
            r == (Instruction::COr { rd: c_rs1_prime(inst_bin), rs2: c_rd_prime(inst_bin) }),
    {
        Instruction::COr { rd: c_rs1_prime(inst_bin), rs2: c_rd_prime(inst_bin) }
    }

    pub fn c_and(inst_bin: u16) -> (r: Instruction)
        ensures
            r == (Instruction::CAnd { rd: c_rs1_prime(inst_bin), rs2: c_rd_prime(inst_bin) }),
    {
        Instruction::CAnd { rd: c_rs1_prime(inst_bin), rs2: c_rd_prime(inst_bin) }
    }

    pub fn c_j(inst_bin: u16) -> (r: Instruction)
        ensures
            r == (Instruction::CJ { imm: imm_cj(inst_bin) }),
    {
        Instruction::CJ { imm: imm_cj(inst_bin) }
    }

    pub fn c_beqz(inst_bin: u16) -> (r: Instruction)
        ensures
            r == (Instruction::CBeqz { rs1: c_rs1_prime(inst_bin), imm: imm_cb(inst_bin) }),
    {
        Instruction::CBeqz { rs1: c_rs1_prime(inst_bin), imm: imm_cb(inst_bin) }
    }

    pub fn c_bnez(inst_bin: u16) -> (r: Instruction)
        ensures
            r == (Instruction::CBnez { rs1: c_rs1_prime(inst_bin), imm: imm_cb(inst_bin) }),
    {
        Instruction::CBnez { rs1: c_rs1_prime(inst_bin), imm: imm_cb(inst_bin) }
    }

    /// A set bit 12 (shamt bit 5) is reserved on a 32-bit target and
    /// decodes to `Illegal`; the reserved rd = 0 form decodes to its
    /// record and traps at execution.
    pub fn c_slli(inst_bin: u16) -> (r: Instruction)
        ensures
            r == (if (inst_bin >> 12) & 0x1 != 0 {
            Instruction::Illegal
        } else {
            Instruction::CSlli { rd: c_rd_full(inst_bin), shamt: c_shamt(inst_bin) }
        }),
    {
        if (inst_bin >> 12) & 0x1 != 0 {
            Instruction::Illegal
        } else {
            Instruction::CSlli { rd: c_rd_full(inst_bin), shamt: c_shamt(inst_bin) }
        }
    }

    /// The rd = 0 form is reserved; it decodes to `Illegal` here, so
    /// the trap is raised through the illegal path.
    pub fn c_lwsp(inst_bin: u16) -> (r: Instruction)
        ensures
            r == (if c_rd_full(inst_bin) == 0 {
            Instruction::Illegal
        } else {
            Instruction::CLwsp { rd: c_rd_full(inst_bin), imm: imm_clwsp(inst_bin) }
        }),
    {
        if c_rd_full(inst_bin) == 0 {
            Instruction::Illegal
        } else {
            Instruction::CLwsp { rd: c_rd_full(inst_bin), imm: imm_clwsp(inst_bin) }
        }
    }

    /// The rs1 = 0 form is reserved, and a nonzero rs2 selects another
    /// instruction; both decode to `Illegal` here.
    pub fn c_jr(inst_bin: u16) -> (r: Instruction)
        ensures
            r == (if c_rd_full(inst_bin) == 0 || c_rs2_full(inst_bin) != 0 {
            Instruction::Illegal
        } else {
            Instruction::CJr { rs1: c_rd_full(inst_bin) }
        }),
    {
        if c_rd_full(inst_bin) == 0 || c_rs2_full(inst_bin) != 0 {
            Instruction::Illegal
        } else {
            Instruction::CJr { rs1: c_rd_full(inst_bin) }
        }
    }

    /// A zero operand on either side is treated as illegal by this
    /// core; such bits decode to `Illegal` here.
    pub fn c_mv(inst_bin: u16) -> (r: Instruction)
        ensures
            r == (if c_rd_full(inst_bin) == 0 || c_rs2_full(inst_bin) == 0 {
            Instruction::Illegal
        } else {
            Instruction::CMv { rd: c_rd_full(inst_bin), rs2: c_rs2_full(inst_bin) }
        }),
    {
        if c_rd_full(inst_bin) == 0 || c_rs2_full(inst_bin) == 0 {
            Instruction::Illegal
        } else {
            Instruction::CMv { rd: c_rd_full(inst_bin), rs2: c_rs2_full(inst_bin) }
        }
    }

    pub fn c_ebreak() -> (r: Instruction)
        ensures
            r == Instruction::Ebreak,
    {
        Instruction::Ebreak
    }

    pub fn c_jalr(inst_bin: u16) -> (r: Instruction)
        ensures
            r == (Instruction::CJalr { rs1: c_rd_full(inst_bin) }),
    {
        Instruction::CJalr { rs1: c_rd_full(inst_bin) }
    }

    pub fn c_add(inst_bin: u16) -> (r: Instruction)
        ensures
            r == (Instruction::CAdd { rd: c_rd_full(inst_bin), rs2: c_rs2_full(inst_bin) }),
    {
        Instruction::CAdd { rd: c_rd_full(inst_bin), rs2: c_rs2_full(inst_bin) }
    }

    pub fn c_swsp(inst_bin: u16) -> (r: Instruction)
        ensures
            r == (Instruction::CSwsp { rs2: c_rs2_full(inst_bin), imm: imm_cswsp(inst_bin) }),
    {
        Instruction::CSwsp { rs2: c_rs2_full(inst_bin), imm: imm_cswsp(inst_bin) }
    }

}

/// The record `decode32` produces, as a function of the bits.
pub open spec fn spec_decode32(bits: u32) -> Instruction {
    let opcode = opcode_field(bits);
    let funct3 = funct3_field(bits);
    let funct7 = funct7_field(bits);
    if opcode == 0b0110111 {
        Instruction::Lui { rd: rd_field(bits), imm: imm_u(bits) }
    } else if opcode == 0b0010111 {
        Instruction::Auipc { rd: rd_field(bits), imm: imm_u(bits) }
    } else if opcode == 0b1101111 {
        Instruction::Jal { rd: rd_field(bits), imm: imm_j(bits) }
    } else if opcode == 0b1100111 {
        Instruction::Jalr { rd: rd_field(bits), rs1: rs1_field(bits), imm: imm_i(bits) }
    } else if opcode == 0b0010011 {
        if funct3 == 0b000 {
            Instruction::Addi { rd: rd_field(bits), rs1: rs1_field(bits), imm: imm_i(bits) }
        } else if funct3 == 0b001 {
            if imm_i(bits) & 0xfe0 != 0 {
            Instruction::Illegal
        } else {
            Instruction::Slli {
                rd: rd_field(bits),
                rs1: rs1_field(bits),
                shamt: (imm_i(bits) & 0x1f) as u8,
            }
        }
        } else if funct3 == 0b010 {
            Instruction::Slti { rd: rd_field(bits), rs1: rs1_field(bits), imm: imm_i(bits) }
        } else if funct3 == 0b011 {
            Instruction::Sltiu { rd: rd_field(bits), rs1: rs1_field(bits), imm: imm_i(bits) }
        } else if funct3 == 0b100 {
            Instruction::Xori { rd: rd_field(bits), rs1: rs1_field(bits), imm: imm_i(bits) }
        } else if funct3 == 0b101 {
            if funct7 == 0b0000000 {
                if imm_i(bits) & 0xfe0 != 0 {
            Instruction::Illegal
        } else {
            Instruction::Srli {
                rd: rd_field(bits),
                rs1: rs1_field(bits),
                shamt: (imm_i(bits) & 0x1f) as u8,
            }
        }
            } else if funct7 == 0b0100000 {
                if imm_i(bits) & 0xbe0 != 0 {
            Instruction::Illegal
        } else {
            Instruction::Srai {
                rd: rd_field(bits),
                rs1: rs1_field(bits),
                shamt: (imm_i(bits) & 0x1f) as u8,
            }
        }
            } else {
                Instruction::Illegal
            }
        } else if funct3 == 0b110 {
            Instruction::Ori { rd: rd_field(bits), rs1: rs1_field(bits), imm: imm_i(bits) }
        } else {
            Instruction::Andi { rd: rd_field(bits), rs1: rs1_field(bits), imm: imm_i(bits) }
        }
    } else if opcode == 0b1100011 {
        if funct3 == 0b000 {
            Instruction::Beq { rs1: rs1_field(bits), rs2: rs2_field(bits), imm: imm_b(bits) }
        } else if funct3 == 0b001 {
            Instruction::Bne { rs1: rs1_field(bits), rs2: rs2_field(bits), imm: imm_b(bits) }
        } else if funct3 == 0b100 {
            Instruction::Blt { rs1: rs1_field(bits), rs2: rs2_field(bits), imm: imm_b(bits) }
        } else if funct3 == 0b101 {
            Instruction::Bge { rs1: rs1_field(bits), rs2: rs2_field(bits), imm: imm_b(bits) }
        } else if funct3 == 0b110 {
            Instruction::Bltu { rs1: rs1_field(bits), rs2: rs2_field(bits), imm: imm_b(bits) }
        } else if funct3 == 0b111 {
            Instruction::Bgeu { rs1: rs1_field(bits), rs2: rs2_field(bits), imm: imm_b(bits) }
        } else {
            Instruction::Illegal
        }
    } else if opcode == 0b0000011 {
        if funct3 == 0b000 {
            Instruction::Lb { rd: rd_field(bits), rs1: rs1_field(bits), imm: imm_i(bits) }
        } else if funct3 == 0b001 {
            Instruction::Lh { rd: rd_field(bits), rs1: rs1_field(bits), imm: imm_i(bits) }
        } else if funct3 == 0b010 {
            Instruction::Lw { rd: rd_field(bits), rs1: rs1_field(bits), imm: imm_i(bits) }
        } else if funct3 == 0b100 {
            Instruction::Lbu { rd: rd_field(bits), rs1: rs1_field(bits), imm: imm_i(bits) }
        } else if funct3 == 0b101 {
            Instruction::Lhu { rd: rd_field(bits), rs1: rs1_field(bits), imm: imm_i(bits) }
        } else {
            Instruction::Illegal
        }
    } else if opcode == 0b0100011 {
        if funct3 == 0b000 {
            Instruction::Sb { rs1: rs1_field(bits), rs2: rs2_field(bits), imm: imm_s(bits) }
        } else if funct3 == 0b001 {
            Instruction::Sh { rs1: rs1_field(bits), rs2: rs2_field(bits), imm: imm_s(bits) }
        } else if funct3 == 0b010 {
            Instruction::Sw { rs1: rs1_field(bits), rs2: rs2_field(bits), imm: imm_s(bits) }
        } else {
            Instruction::Illegal
        }
    } else if opcode == 0b0110011 {
        if funct7 == 0b0000000 {
            if funct3 == 0b000 {
                Instruction::Add { rd: rd_field(bits), rs1: rs1_field(bits), rs2: rs2_field(bits) }
            } else if funct3 == 0b001 {
                Instruction::Sll { rd: rd_field(bits), rs1: rs1_field(bits), rs2: rs2_field(bits) }
            } else if funct3 == 0b010 {
                Instruction::Slt { rd: rd_field(bits), rs1: rs1_field(bits), rs2: rs2_field(bits) }
            } else if funct3 == 0b011 {
                Instruction::Sltu { rd: rd_field(bits), rs1: rs1_field(bits), rs2: rs2_field(bits) }
            } else if funct3 == 0b100 {
                Instruction::Xor { rd: rd_field(bits), rs1: rs1_field(bits), rs2: rs2_field(bits) }
            } else if funct3 == 0b101 {
                Instruction::Srl { rd: rd_field(bits), rs1: rs1_field(bits), rs2: rs2_field(bits) }
            } else if funct3 == 0b110 {
                Instruction::Or { rd: rd_field(bits), rs1: rs1_field(bits), rs2: rs2_field(bits) }
            } else {
                Instruction::And { rd: rd_field(bits), rs1: rs1_field(bits), rs2: rs2_field(bits) }
            }
        } else if funct7 == 0b0100000 {
            if funct3 == 0b000 {
                Instruction::Sub { rd: rd_field(bits), rs1: rs1_field(bits), rs2: rs2_field(bits) }
            } else if funct3 == 0b101 {
                Instruction::Sra { rd: rd_field(bits), rs1: rs1_field(bits), rs2: rs2_field(bits) }
            } else {
                Instruction::Illegal
            }
        } else if funct7 == 0b0000001 {
            if funct3 == 0b000 {
                Instruction::Mul { rd: rd_field(bits), rs1: rs1_field(bits), rs2: rs2_field(bits) }
            } else if funct3 == 0b001 {
                Instruction::Mulh { rd: rd_field(bits), rs1: rs1_field(bits), rs2: rs2_field(bits) }
            } else if funct3 == 0b010 {
                Instruction::Mulhsu { rd: rd_field(bits), rs1: rs1_field(bits), rs2: rs2_field(bits) }
            } else if funct3 == 0b011 {
                Instruction::Mulhu { rd: rd_field(bits), rs1: rs1_field(bits), rs2: rs2_field(bits) }
            } else if funct3 == 0b100 {
                Instruction::Div { rd: rd_field(bits), rs1: rs1_field(bits), rs2: rs2_field(bits) }
            } else if funct3 == 0b101 {
                Instruction::Divu { rd: rd_field(bits), rs1: rs1_field(bits), rs2: rs2_field(bits) }
            } else if funct3 == 0b110 {
                Instruction::Rem { rd: rd_field(bits), rs1: rs1_field(bits), rs2: rs2_field(bits) }
            } else {
                Instruction::Remu { rd: rd_field(bits), rs1: rs1_field(bits), rs2: rs2_field(bits) }
            }
        } else {
            Instruction::Illegal
        }
    } else if opcode == 0b0001111 {
        if funct3 == 0b000 {
            Instruction::Fence
        } else if funct3 == 0b001 {
            Instruction::FenceI
        } else {
            Instruction::Illegal
        }
    } else if opcode == 0b1110011 {
        if funct3 == 0b000 {
            let imm12 = (bits >> 20) & 0xfff;
            if imm12 == 0b000000000000 {
                Instruction::Ecall
            } else if imm12 == 0b000000000001 {
                Instruction::Ebreak
            } else if imm12 == 0b001100000010 {
                Instruction::Mret
            } else if imm12 == 0b000100000101 {
                Instruction::Wfi
            } else {
                Instruction::Illegal
            }
        } else if funct3 == 0b001 {
            Instruction::Csrrw { csr: csr_field(bits), rd: rd_field(bits), rs1: rs1_field(bits) }
        } else if funct3 == 0b010 {
            Instruction::Csrrs { csr: csr_field(bits), rd: rd_field(bits), rs1: rs1_field(bits) }
        } else if funct3 == 0b011 {
            Instruction::Csrrc { csr: csr_field(bits), rd: rd_field(bits), rs1: rs1_field(bits) }
        } else if funct3 == 0b101 {
            Instruction::Csrrwi { csr: csr_field(bits), rd: rd_field(bits), uimm: rs1_field(bits) }
        } else if funct3 == 0b110 {
            Instruction::Csrrsi { csr: csr_field(bits), rd: rd_field(bits), uimm: rs1_field(bits) }
        } else {
            Instruction::Csrrci { csr: csr_field(bits), rd: rd_field(bits), uimm: rs1_field(bits) }
        }
    } else {
        Instruction::Illegal
    }
}

/// The record `decode16` produces, as a function of the bits.
pub open spec fn spec_decode16(bits: u16) -> Instruction {
    let quadrant = bits & 0x3;
    let funct3 = c_funct3_field(bits);
    if quadrant == 0b00 {
        if funct3 == 0b000 {
            if imm_ciw(bits) == 0 {
            Instruction::Illegal
        } else {
            Instruction::CAddi4spn { rd: c_rd_prime(bits), rs1: 2, imm: imm_ciw(bits) }
        }
        } else if funct3 == 0b010 {
            Instruction::CLw { rd: c_rd_prime(bits), rs1: c_rs1_prime(bits), imm: imm_cl(bits) }
        } else if funct3 == 0b110 {
            Instruction::CSw { rs1: c_rs1_prime(bits), rs2: c_rd_prime(bits), imm: imm_cl(bits) }
        } else {
            Instruction::Illegal
        }
    } else if quadrant == 0b01 {
        if funct3 == 0b000 {
            Instruction::CAddi { rd: c_rd_full(bits), imm: imm_ci(bits) }
        } else if funct3 == 0b001 {
            Instruction::CJal { rd: 1, imm: imm_cj(bits) }
        } else if funct3 == 0b010 {
            if c_rd_full(bits) == 0 {
            Instruction::Illegal
        } else {
            Instruction::CLi { rd: c_rd_full(bits), imm: imm_ci(bits) }
        }
        } else if funct3 == 0b011 {
            if c_rd_full(bits) == 2 {
                if imm_c16sp(bits) == 0 {
            Instruction::Illegal
        } else {
            Instruction::CAddi16Sp { rd: 2, imm: imm_c16sp(bits) }
        }
            } else {
                if c_rd_full(bits) == 0 || c_rd_full(bits) == 2 {
            Instruction::Illegal
        } else {
            Instruction::CLui { rd: c_rd_full(bits), imm: imm_ci(bits) << 12 }
        }
            }
        } else if funct3 == 0b100 {
            let funct2 = (bits >> 10) & 0x3;
            if funct2 == 0b00 {
                if (bits >> 12) & 0x1 != 0 {
            Instruction::Illegal
        } else {
            Instruction::CSrli { rd: c_rs1_prime(bits), shamt: c_shamt(bits) }
        }
            } else if funct2 == 0b01 {
                if (bits >> 12) & 0x1 != 0 {
            Instruction::Illegal
        } else {
            Instruction::CSrai { rd: c_rs1_prime(bits), shamt: c_shamt(bits) }
        }
            } else if funct2 == 0b10 {
                Instruction::CAndi { rd: c_rs1_prime(bits), imm: imm_ci(bits) }
            } else {
                if (bits >> 12) & 0x1 != 0 {
                    Instruction::Illegal
                } else {
                    let op = (bits >> 5) & 0x3;
                    if op == 0b00 {
                        Instruction::CSub { rd: c_rs1_prime(bits), rs2: c_rd_prime(bits) }
                    } else if op == 0b01 {
                        Instruction::CXor { rd: c_rs1_prime(bits), rs2: c_rd_prime(bits) }
                    } else if op == 0b10 {
                        Instruction::COr { rd: c_rs1_prime(bits), rs2: c_rd_prime(bits) }
                    } else {
                        Instruction::CAnd { rd: c_rs1_prime(bits), rs2: c_rd_prime(bits) }
                    }
                }
            }
        } else if funct3 == 0b101 {
            Instruction::CJ { imm: imm_cj(bits) }
        } else if funct3 == 0b110 {
            Instruction::CBeqz { rs1: c_rs1_prime(bits), imm: imm_cb(bits) }
        } else {
            Instruction::CBnez { rs1: c_rs1_prime(bits), imm: imm_cb(bits) }
        }
    } else if quadrant == 0b10 {
        if funct3 == 0b000 {
            if (bits >> 12) & 0x1 != 0 {
            Instruction::Illegal
        } else {
            Instruction::CSlli { rd: c_rd_full(bits), shamt: c_shamt(bits) }
        }
        } else if funct3 == 0b010 {
            if c_rd_full(bits) == 0 {
            Instruction::Illegal
        } else {
            Instruction::CLwsp { rd: c_rd_full(bits), imm: imm_clwsp(bits) }
        }
        } else if funct3 == 0b100 {
            if (bits >> 12) & 0x1 == 0 {
                if c_rs2_full(bits) == 0 {
                    if c_rd_full(bits) == 0 || c_rs2_full(bits) != 0 {
            Instruction::Illegal
        } else {
            Instruction::CJr { rs1: c_rd_full(bits) }
        }
                } else {
                    if c_rd_full(bits) == 0 || c_rs2_full(bits) == 0 {
            Instruction::Illegal
        } else {
            Instruction::CMv { rd: c_rd_full(bits), rs2: c_rs2_full(bits) }
        }
                }
            } else {
                if c_rd_full(bits) == 0 && c_rs2_full(bits) == 0 {
                    Instruction::Ebreak
                } else if c_rs2_full(bits) == 0 {
                    Instruction::CJalr { rs1: c_rd_full(bits) }
                } else {
                    Instruction::CAdd { rd: c_rd_full(bits), rs2: c_rs2_full(bits) }
                }
            }
        } else if funct3 == 0b110 {
            Instruction::CSwsp { rs2: c_rs2_full(bits), imm: imm_cswsp(bits) }
        } else {
            Instruction::Illegal
        }
    } else {
        Instruction::Illegal
    }
}

/// Decode a 32-bit instruction. Unknown opcodes, unknown sub-opcodes
/// and reserved encodings decode to `Illegal`.
pub fn decode32(bits: u32) -> (r: Instruction)
    ensures
        r == spec_decode32(bits),
        inst_wf(r),
        !(r is Absent),
{
    proof {
        lemma_mask5_u32(bits >> 7);
        lemma_mask5_u32(bits >> 15);
        lemma_mask5_u32(bits >> 20);
        lemma_mask5_u32(spec_imm_i(bits));
    }
    let opcode = opcode_field(bits);
    if opcode == 0b0110111 {
        Instruction::lui(bits)
    } else if opcode == 0b0010111 {
        Instruction::auipc(bits)
    } else if opcode == 0b1101111 {
        Instruction::jal(bits)
    } else if opcode == 0b1100111 {
        Instruction::jalr(bits)
    } else if opcode == 0b0010011 {
        let funct3 = funct3_field(bits);
        if funct3 == 0b000 {
            Instruction::addi(bits)
        } else if funct3 == 0b001 {
            Instruction::slli(bits)
        } else if funct3 == 0b010 {
            Instruction::slti(bits)
        } else if funct3 == 0b011 {
            Instruction::sltiu(bits)
        } else if funct3 == 0b100 {
            Instruction::xori(bits)
        } else if funct3 == 0b101 {
            let funct7 = funct7_field(bits);
            if funct7 == 0b0000000 {
                Instruction::srli(bits)
            } else if funct7 == 0b0100000 {
                Instruction::srai(bits)
            } else {
                Instruction::Illegal
            }
        } else if funct3 == 0b110 {
            Instruction::ori(bits)
        } else {
            Instruction::andi(bits)
        }
    } else if opcode == 0b1100011 {
        let funct3 = funct3_field(bits);
        if funct3 == 0b000 {
            Instruction::beq(bits)
        } else if funct3 == 0b001 {
            Instruction::bne(bits)
        } else if funct3 == 0b100 {
            Instruction::blt(bits)
        } else if funct3 == 0b101 {
            Instruction::bge(bits)
        } else if funct3 == 0b110 {
            Instruction::bltu(bits)
        } else if funct3 == 0b111 {
            Instruction::bgeu(bits)
        } else {
            Instruction::Illegal
        }
    } else if opcode == 0b0000011 {
        let funct3 = funct3_field(bits);
        if funct3 == 0b000 {
            Instruction::lb(bits)
        } else if funct3 == 0b001 {
            Instruction::lh(bits)
        } else if funct3 == 0b010 {
            Instruction::lw(bits)
        } else if funct3 == 0b100 {
            Instruction::lbu(bits)
        } else if funct3 == 0b101 {
            Instruction::lhu(bits)
        } else {
            Instruction::Illegal
        }
    } else if opcode == 0b0100011 {
        let funct3 = funct3_field(bits);
        if funct3 == 0b000 {
            Instruction::sb(bits)
        } else if funct3 == 0b001 {
            Instruction::sh(bits)
        } else if funct3 == 0b010 {
            Instruction::sw(bits)
        } else {
            Instruction::Illegal
        }
    } else if opcode == 0b0110011 {
        let funct3 = funct3_field(bits);
        let funct7 = funct7_field(bits);
        if funct7 == 0b0000000 {
            if funct3 == 0b000 {
                Instruction::add(bits)
            } else if funct3 == 0b001 {
                Instruction::sll(bits)
            } else if funct3 == 0b010 {
                Instruction::slt(bits)
            } else if funct3 == 0b011 {
                Instruction::sltu(bits)
            } else if funct3 == 0b100 {
                Instruction::xor(bits)
            } else if funct3 == 0b101 {
                Instruction::srl(bits)
            } else if funct3 == 0b110 {
                Instruction::or(bits)
            } else {
                Instruction::and(bits)
            }
        } else if funct7 == 0b0100000 {
            if funct3 == 0b000 {
                Instruction::sub(bits)
            } else if funct3 == 0b101 {
                Instruction::sra(bits)
            } else {
                Instruction::Illegal
            }
        } else if funct7 == 0b0000001 {
            if funct3 == 0b000 {
                Instruction::mul(bits)
            } else if funct3 == 0b001 {
                Instruction::mulh(bits)
            } else if funct3 == 0b010 {
                Instruction::mulhsu(bits)
            } else if funct3 == 0b011 {
                Instruction::mulhu(bits)
            } else if funct3 == 0b100 {
                Instruction::div(bits)
            } else if funct3 == 0b101 {
                Instruction::divu(bits)
            } else if funct3 == 0b110 {
                Instruction::rem(bits)
            } else {
                Instruction::remu(bits)
            }
        } else {
            Instruction::Illegal
        }
    } else if opcode == 0b0001111 {
        let funct3 = funct3_field(bits);
        if funct3 == 0b000 {
            Instruction::fence()
        } else if funct3 == 0b001 {
            Instruction::fence_i()
        } else {
            Instruction::Illegal
        }
    } else if opcode == 0b1110011 {
        let funct3 = funct3_field(bits);
        if funct3 == 0b000 {
            let imm12 = (bits >> 20) & 0xfff;
            if imm12 == 0b000000000000 {
                Instruction::ecall()
            } else if imm12 == 0b000000000001 {
                Instruction::ebreak()
            } else if imm12 == 0b001100000010 {
                Instruction::mret()
            } else if imm12 == 0b000100000101 {
                Instruction::wfi()
            } else {
                Instruction::Illegal
            }
        } else if funct3 == 0b001 {
            Instruction::csrrw(bits)
        } else if funct3 == 0b010 {
            Instruction::csrrs(bits)
        } else if funct3 == 0b011 {
            Instruction::csrrc(bits)
        } else if funct3 == 0b101 {
            Instruction::csrrwi(bits)
        } else if funct3 == 0b110 {
            Instruction::csrrsi(bits)
        } else {
            Instruction::csrrci(bits)
        }
    } else {
        Instruction::Illegal
    }
}

/// Decode a 16-bit (compressed) instruction from quadrants 00, 01
/// and 10. Unknown slots and reserved encodings decode to `Illegal`.
pub fn decode16(bits: u16) -> (r: Instruction)
    ensures
        r == spec_decode16(bits),
        inst_wf(r),
        !(r is Absent),
{
    proof {
        lemma_mask5_u16(bits >> 7);
        lemma_mask5_u16(bits >> 2);
        lemma_prime_reg_u16(bits >> 2);
        lemma_prime_reg_u16(bits >> 7);
    }
    let quadrant = bits & 0x3;
    let funct3 = c_funct3_field(bits);
    if quadrant == 0b00 {
        if funct3 == 0b000 {
            Instruction::c_addi4spn(bits)
        } else if funct3 == 0b010 {
            Instruction::c_lw(bits)
        } else if funct3 == 0b110 {
            Instruction::c_sw(bits)
        } else {
            Instruction::Illegal
        }
    } else if quadrant == 0b01 {
        if funct3 == 0b000 {
            Instruction::c_addi(bits)
        } else if funct3 == 0b001 {
            Instruction::c_jal(bits)
        } else if funct3 == 0b010 {
            Instruction::c_li(bits)
        } else if funct3 == 0b011 {
            if c_rd_full(bits) == 2 {
                Instruction::c_addi16sp(bits)
            } else {
                Instruction::c_lui(bits)
            }
        } else if funct3 == 0b100 {
            let funct2 = (bits >> 10) & 0x3;
            if funct2 == 0b00 {
                Instruction::c_srli(bits)
            } else if funct2 == 0b01 {
                Instruction::c_srai(bits)
            } else if funct2 == 0b10 {
                Instruction::c_andi(bits)
            } else {
                if (bits >> 12) & 0x1 != 0 {
                    Instruction::Illegal
                } else {
                    let op = (bits >> 5) & 0x3;
                    if op == 0b00 {
                        Instruction::c_sub(bits)
                    } else if op == 0b01 {
                        Instruction::c_xor(bits)
                    } else if op == 0b10 {
                        Instruction::c_or(bits)
                    } else {
                        Instruction::c_and(bits)
                    }
                }
            }
        } else if funct3 == 0b101 {
            Instruction::c_j(bits)
        } else if funct3 == 0b110 {
            Instruction::c_beqz(bits)
        } else {
            Instruction::c_bnez(bits)
        }
    } else if quadrant == 0b10 {
        if funct3 == 0b000 {
            Instruction::c_slli(bits)
        } else if funct3 == 0b010 {
            Instruction::c_lwsp(bits)
        } else if funct3 == 0b100 {
            let rs1 = c_rd_full(bits);
            let rs2 = c_rs2_full(bits);
            if (bits >> 12) & 0x1 == 0 {
                if rs2 == 0 {
                    Instruction::c_jr(bits)
                } else {
                    Instruction::c_mv(bits)
                }
            } else {
                if rs1 == 0 && rs2 == 0 {
                    Instruction::c_ebreak()
                } else if rs2 == 0 {
                    Instruction::c_jalr(bits)
                } else {
                    Instruction::c_add(bits)
                }
            }
        } else if funct3 == 0b110 {
            Instruction::c_swsp(bits)
        } else {
            Instruction::Illegal
        }
    } else {
        Instruction::Illegal
    }
}

/// The architectural size in bytes of the instruction a record stands
/// for: 2 for the compressed forms, else 4.
pub open spec fn spec_inst_size(i: Instruction) -> u32 {
    match i {
        Instruction::CAddi4spn { .. } => 2,
        Instruction::CLw { .. } => 2,
        Instruction::CSw { .. } => 2,
        Instruction::CAddi { .. } => 2,
        Instruction::CJal { .. } => 2,
        Instruction::CLi { .. } => 2,
        Instruction::CLui { .. } => 2,
        Instruction::CAddi16Sp { .. } => 2,
        Instruction::CSrli { .. } => 2,
        Instruction::CSrai { .. } => 2,
        Instruction::CAndi { .. } => 2,
        Instruction::CSub { .. } => 2,
        Instruction::CXor { .. } => 2,
        Instruction::COr { .. } => 2,
        Instruction::CAnd { .. } => 2,
        Instruction::CJ { .. } => 2,
        Instruction::CBeqz { .. } => 2,
        Instruction::CBnez { .. } => 2,
        Instruction::CSlli { .. } => 2,
        Instruction::CLwsp { .. } => 2,
        Instruction::CJr { .. } => 2,
        Instruction::CMv { .. } => 2,
        Instruction::CJalr { .. } => 2,
        Instruction::CAdd { .. } => 2,
        Instruction::CSwsp { .. } => 2,
        _ => 4,
    }
}

} // verus!
