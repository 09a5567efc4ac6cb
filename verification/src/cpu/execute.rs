//! Semantic execution of decoded records against the register file,
//! CSR file, program counter and bus, one method per instruction.

use crate::bus::{spec_le16, spec_le32, Bus};
use crate::cpu::arith::{lemma_cast_signed, lemma_mask5_id, lemma_sra_cast, lemma_u64_high_half,
    sext64, spec_div, spec_divu, spec_mul, spec_mulh, spec_mulhsu, spec_mulhu, spec_rem,
    spec_remu, spec_sext16, spec_sext8, spec_sll, spec_sra, spec_srl, to_signed, wrap_add,
    wrap_sub};
use crate::cpu::csr::{csr_readable, csr_writable, spec_csr_read_value, spec_csr_write, Csr};
use crate::cpu::handle_trap::{spec_trap, spec_trap_target};
use crate::cpu::instructions::{inst_wf, spec_inst_size, Instruction};
use crate::cpu::privilege_mode::PrivilegeMode;
use crate::cpu::{
    same_but_pc, same_but_regs, same_but_regs_pc, spec_invalidate_page, spec_write_reg, Cpu,
    StepResult,
};
use vstd::arithmetic::div_mod::{lemma_mul_mod_noop_general, lemma_small_mod};
use vstd::prelude::*;

verus! {

/// Whether the current privilege may touch CSR `addr`: the two bits at
/// 9..=8 name the minimum privilege, and the user-visible counters also
/// need their `mcounteren` bit when read from below Machine.
pub open spec fn csr_priv_ok(mode: PrivilegeMode, addr: u32, mcounteren: u32) -> bool {
    &&& mode.spec_code() >= ((addr >> 8) & 0b11)
    &&& (((0xc00 <= addr <= 0xc1f) || (0xc80 <= addr <= 0xc9f)) && mode.spec_code() < 3
        ==> (mcounteren >> (addr & 0x1f)) & 1 == 1)
}

/// The encoding of a CSR instruction, reconstructed for `mtval`.
pub open spec fn spec_csr_bits(funct3: u32, csr: u16, rd: u8, rs1: u8) -> u32 {
    ((csr as u32) << 20) | ((rs1 as u32) << 15) | (funct3 << 12) | ((rd as u32) << 7) | 0x73
}

/// Program counter, privilege mode and cache are unchanged (registers
/// and the CSR file may move).
pub open spec fn same_but_regs_csr(pre: Cpu, post: Cpu) -> bool {
    post.pc == pre.pc && post.mode == pre.mode && post.cache@ == pre.cache@
}

/// One CSR instruction goes through cleanly: the privilege rules allow
/// the access, the register is readable, and — when the instruction has
/// a write side — writable.
pub open spec fn csr_op_ok(c: Csr, mode: PrivilegeMode, addr: u32, writes: bool) -> bool {
    &&& csr_priv_ok(mode, addr, c.mcounteren)
    &&& csr_readable(addr)
    &&& (writes ==> csr_writable(addr))
}

/// The mstatus value after `mret`: MIE takes MPIE, MPIE is set, and the
/// previous-privilege field is cleared to User.
pub open spec fn spec_mstatus_on_mret(ms: u32) -> u32 {
    let mpie = (ms >> 7) & 1;
    (((ms & !0x8u32) | (mpie << 3)) | 0x80u32) & !0x1800u32
}

/// A taken relative branch: the registers survive, the program counter
/// moves by the sign-extended offset, and nothing else changes.
pub open spec fn spec_taken_branch(pre: Cpu, post: Cpu, imm: u32) -> bool {
    &&& post.regs@ == pre.regs@
    &&& post.pc == wrap_add(pre.pc, imm)
    &&& post.csr == pre.csr
    &&& post.mode == pre.mode
}

/// The cause an environment call raises: 8, 9 or 11 for User,
/// Supervisor or Machine mode.
pub open spec fn spec_ecall_cause(mode: PrivilegeMode) -> u32 {
    match mode {
        PrivilegeMode::User => 8,
        PrivilegeMode::Supervisor => 9,
        PrivilegeMode::Machine => 11,
    }
}

/// Program counter, CSR file and privilege survive a completed
/// instruction that does not touch them.
pub open spec fn spec_cpu_rest_same(pre: Cpu, post: Cpu) -> bool {
    post.pc == pre.pc && post.csr == pre.csr && post.mode == pre.mode
}

/// The exact architectural effect of the one record that completed
/// normally: how the post-state's registers, CSR file and privilege
/// follow from the pre-state. A load's destination takes the value the
/// bus returned, existentially here and pinned to the RAM bytes in the
/// load methods' own contracts; the program counter advance and the
/// decoded cache are stated by the caller; the memory effect of stores
/// is on the store methods. The records that jump or always trap never
/// complete.
pub open spec fn spec_completed_transition(pre: Cpu, post: Cpu, inst: Instruction) -> bool {
    match inst {
        Instruction::Lui { rd, imm } => post.regs@ == spec_write_reg(pre.regs@, rd, imm) && spec_cpu_rest_same(pre, post),
        Instruction::Auipc { rd, imm } => post.regs@ == spec_write_reg(pre.regs@, rd, wrap_add(pre.pc, imm)) && spec_cpu_rest_same(pre, post),
        Instruction::Beq { rs1, rs2, imm } => pre.regs@[rs1 as int] != pre.regs@[rs2 as int] && post.regs@ == pre.regs@ && spec_cpu_rest_same(pre, post),
        Instruction::Bne { rs1, rs2, imm } => pre.regs@[rs1 as int] == pre.regs@[rs2 as int] && post.regs@ == pre.regs@ && spec_cpu_rest_same(pre, post),
        Instruction::Blt { rs1, rs2, imm } => to_signed(pre.regs@[rs1 as int]) >= to_signed(pre.regs@[rs2 as int]) && post.regs@ == pre.regs@ && spec_cpu_rest_same(pre, post),
        Instruction::Bge { rs1, rs2, imm } => to_signed(pre.regs@[rs1 as int]) < to_signed(pre.regs@[rs2 as int]) && post.regs@ == pre.regs@ && spec_cpu_rest_same(pre, post),
        Instruction::Bltu { rs1, rs2, imm } => pre.regs@[rs1 as int] >= pre.regs@[rs2 as int] && post.regs@ == pre.regs@ && spec_cpu_rest_same(pre, post),
        Instruction::Bgeu { rs1, rs2, imm } => pre.regs@[rs1 as int] < pre.regs@[rs2 as int] && post.regs@ == pre.regs@ && spec_cpu_rest_same(pre, post),
        Instruction::Lb { rd, rs1, imm } => (exists|v: u8|
            post.regs@ == spec_write_reg(pre.regs@, rd, spec_sext8(v))) && spec_cpu_rest_same(
            pre,
            post,
        ),
        Instruction::Lh { rd, rs1, imm } => (exists|v: u16|
            post.regs@ == spec_write_reg(pre.regs@, rd, spec_sext16(v))) && spec_cpu_rest_same(
            pre,
            post,
        ),
        Instruction::Lw { rd, rs1, imm } => (exists|v: u32|
            post.regs@ == spec_write_reg(pre.regs@, rd, v)) && spec_cpu_rest_same(pre, post),
        Instruction::Lbu { rd, rs1, imm } => (exists|v: u32|
            v < 0x100 && post.regs@ == spec_write_reg(pre.regs@, rd, v)) && spec_cpu_rest_same(
            pre,
            post,
        ),
        Instruction::Lhu { rd, rs1, imm } => (exists|v: u32|
            v < 0x1_0000 && post.regs@ == spec_write_reg(pre.regs@, rd, v)) && spec_cpu_rest_same(
            pre,
            post,
        ),
        Instruction::Sb { rs1, rs2, imm } => post.regs@ == pre.regs@ && spec_cpu_rest_same(pre, post),
        Instruction::Sh { rs1, rs2, imm } => post.regs@ == pre.regs@ && spec_cpu_rest_same(pre, post),
        Instruction::Sw { rs1, rs2, imm } => post.regs@ == pre.regs@ && spec_cpu_rest_same(pre, post),
        Instruction::Addi { rd, rs1, imm } => post.regs@ == spec_write_reg(pre.regs@, rd, wrap_add(pre.regs@[rs1 as int], imm)) && spec_cpu_rest_same(pre, post),
        Instruction::Slti { rd, rs1, imm } => post.regs@ == spec_write_reg(pre.regs@, rd, if to_signed(pre.regs@[rs1 as int]) < to_signed(imm) { 1u32 } else { 0u32 }) && spec_cpu_rest_same(pre, post),
        Instruction::Sltiu { rd, rs1, imm } => post.regs@ == spec_write_reg(pre.regs@, rd, if pre.regs@[rs1 as int] < imm { 1u32 } else { 0u32 }) && spec_cpu_rest_same(pre, post),
        Instruction::Xori { rd, rs1, imm } => post.regs@ == spec_write_reg(pre.regs@, rd, pre.regs@[rs1 as int] ^ imm) && spec_cpu_rest_same(pre, post),
        Instruction::Ori { rd, rs1, imm } => post.regs@ == spec_write_reg(pre.regs@, rd, pre.regs@[rs1 as int] | imm) && spec_cpu_rest_same(pre, post),
        Instruction::Andi { rd, rs1, imm } => post.regs@ == spec_write_reg(pre.regs@, rd, pre.regs@[rs1 as int] & imm) && spec_cpu_rest_same(pre, post),
        Instruction::Slli { rd, rs1, shamt } => post.regs@ == spec_write_reg(pre.regs@, rd, spec_sll(pre.regs@[rs1 as int], shamt as u32)) && spec_cpu_rest_same(pre, post),
        Instruction::Srli { rd, rs1, shamt } => post.regs@ == spec_write_reg(pre.regs@, rd, spec_srl(pre.regs@[rs1 as int], shamt as u32)) && spec_cpu_rest_same(pre, post),
        Instruction::Srai { rd, rs1, shamt } => post.regs@ == spec_write_reg(pre.regs@, rd, spec_sra(pre.regs@[rs1 as int], shamt as u32)) && spec_cpu_rest_same(pre, post),
        Instruction::Add { rd, rs1, rs2 } => post.regs@ == spec_write_reg(pre.regs@, rd, wrap_add(pre.regs@[rs1 as int], pre.regs@[rs2 as int])) && spec_cpu_rest_same(pre, post),
        Instruction::Sub { rd, rs1, rs2 } => post.regs@ == spec_write_reg(pre.regs@, rd, wrap_sub(pre.regs@[rs1 as int], pre.regs@[rs2 as int])) && spec_cpu_rest_same(pre, post),
        Instruction::Sll { rd, rs1, rs2 } => post.regs@ == spec_write_reg(pre.regs@, rd, spec_sll(pre.regs@[rs1 as int], pre.regs@[rs2 as int])) && spec_cpu_rest_same(pre, post),
        Instruction::Slt { rd, rs1, rs2 } => post.regs@ == spec_write_reg(pre.regs@, rd, if to_signed(pre.regs@[rs1 as int]) < to_signed(pre.regs@[rs2 as int]) { 1u32 } else { 0u32 }) && spec_cpu_rest_same(pre, post),
        Instruction::Sltu { rd, rs1, rs2 } => post.regs@ == spec_write_reg(pre.regs@, rd, if pre.regs@[rs1 as int] < pre.regs@[rs2 as int] { 1u32 } else { 0u32 }) && spec_cpu_rest_same(pre, post),
        Instruction::Xor { rd, rs1, rs2 } => post.regs@ == spec_write_reg(pre.regs@, rd, pre.regs@[rs1 as int] ^ pre.regs@[rs2 as int]) && spec_cpu_rest_same(pre, post),
        Instruction::Srl { rd, rs1, rs2 } => post.regs@ == spec_write_reg(pre.regs@, rd, spec_srl(pre.regs@[rs1 as int], pre.regs@[rs2 as int])) && spec_cpu_rest_same(pre, post),
        Instruction::Sra { rd, rs1, rs2 } => post.regs@ == spec_write_reg(pre.regs@, rd, spec_sra(pre.regs@[rs1 as int], pre.regs@[rs2 as int])) && spec_cpu_rest_same(pre, post),
        Instruction::Or { rd, rs1, rs2 } => post.regs@ == spec_write_reg(pre.regs@, rd, pre.regs@[rs1 as int] | pre.regs@[rs2 as int]) && spec_cpu_rest_same(pre, post),
        Instruction::And { rd, rs1, rs2 } => post.regs@ == spec_write_reg(pre.regs@, rd, pre.regs@[rs1 as int] & pre.regs@[rs2 as int]) && spec_cpu_rest_same(pre, post),
        Instruction::Fence => post.regs@ == pre.regs@ && spec_cpu_rest_same(pre, post),
        Instruction::FenceI => post.regs@ == pre.regs@ && spec_cpu_rest_same(pre, post),
        Instruction::Wfi => post.regs@ == pre.regs@ && spec_cpu_rest_same(pre, post),
        Instruction::Mul { rd, rs1, rs2 } => post.regs@ == spec_write_reg(pre.regs@, rd, spec_mul(pre.regs@[rs1 as int], pre.regs@[rs2 as int])) && spec_cpu_rest_same(pre, post),
        Instruction::Mulh { rd, rs1, rs2 } => post.regs@ == spec_write_reg(pre.regs@, rd, spec_mulh(pre.regs@[rs1 as int], pre.regs@[rs2 as int])) && spec_cpu_rest_same(pre, post),
        Instruction::Mulhsu { rd, rs1, rs2 } => post.regs@ == spec_write_reg(pre.regs@, rd, spec_mulhsu(pre.regs@[rs1 as int], pre.regs@[rs2 as int])) && spec_cpu_rest_same(pre, post),
        Instruction::Mulhu { rd, rs1, rs2 } => post.regs@ == spec_write_reg(pre.regs@, rd, spec_mulhu(pre.regs@[rs1 as int], pre.regs@[rs2 as int])) && spec_cpu_rest_same(pre, post),
        Instruction::Div { rd, rs1, rs2 } => post.regs@ == spec_write_reg(pre.regs@, rd, spec_div(pre.regs@[rs1 as int], pre.regs@[rs2 as int])) && spec_cpu_rest_same(pre, post),
        Instruction::Divu { rd, rs1, rs2 } => post.regs@ == spec_write_reg(pre.regs@, rd, spec_divu(pre.regs@[rs1 as int], pre.regs@[rs2 as int])) && spec_cpu_rest_same(pre, post),
        Instruction::Rem { rd, rs1, rs2 } => post.regs@ == spec_write_reg(pre.regs@, rd, spec_rem(pre.regs@[rs1 as int], pre.regs@[rs2 as int])) && spec_cpu_rest_same(pre, post),
        Instruction::Remu { rd, rs1, rs2 } => post.regs@ == spec_write_reg(pre.regs@, rd, spec_remu(pre.regs@[rs1 as int], pre.regs@[rs2 as int])) && spec_cpu_rest_same(pre, post),
        Instruction::CAddi4spn { rd, rs1, imm } => post.regs@ == spec_write_reg(pre.regs@, rd, wrap_add(pre.regs@[rs1 as int], imm)) && spec_cpu_rest_same(pre, post),
        Instruction::CLw { rd, rs1, imm } => (exists|v: u32|
            post.regs@ == spec_write_reg(pre.regs@, rd, v)) && spec_cpu_rest_same(pre, post),
        Instruction::CSw { rs1, rs2, imm } => post.regs@ == pre.regs@ && spec_cpu_rest_same(pre, post),
        Instruction::CAddi { rd, imm } => post.regs@ == spec_write_reg(pre.regs@, rd, wrap_add(pre.regs@[rd as int], imm)) && spec_cpu_rest_same(pre, post),
        Instruction::CLi { rd, imm } => post.regs@ == spec_write_reg(pre.regs@, rd, imm) && spec_cpu_rest_same(pre, post),
        Instruction::CLui { rd, imm } => post.regs@ == spec_write_reg(pre.regs@, rd, imm) && spec_cpu_rest_same(pre, post),
        Instruction::CAddi16Sp { rd, imm } => post.regs@ == spec_write_reg(pre.regs@, 2, wrap_add(pre.regs@[2], imm)) && spec_cpu_rest_same(pre, post),
        Instruction::CSrli { rd, shamt } => post.regs@ == spec_write_reg(pre.regs@, rd, spec_srl(pre.regs@[rd as int], shamt as u32)) && spec_cpu_rest_same(pre, post),
        Instruction::CSrai { rd, shamt } => post.regs@ == spec_write_reg(pre.regs@, rd, spec_sra(pre.regs@[rd as int], shamt as u32)) && spec_cpu_rest_same(pre, post),
        Instruction::CAndi { rd, imm } => post.regs@ == spec_write_reg(pre.regs@, rd, pre.regs@[rd as int] & imm) && spec_cpu_rest_same(pre, post),
        Instruction::CSub { rd, rs2 } => post.regs@ == spec_write_reg(pre.regs@, rd, wrap_sub(pre.regs@[rd as int], pre.regs@[rs2 as int])) && spec_cpu_rest_same(pre, post),
        Instruction::CXor { rd, rs2 } => post.regs@ == spec_write_reg(pre.regs@, rd, pre.regs@[rd as int] ^ pre.regs@[rs2 as int]) && spec_cpu_rest_same(pre, post),
        Instruction::COr { rd, rs2 } => post.regs@ == spec_write_reg(pre.regs@, rd, pre.regs@[rd as int] | pre.regs@[rs2 as int]) && spec_cpu_rest_same(pre, post),
        Instruction::CAnd { rd, rs2 } => post.regs@ == spec_write_reg(pre.regs@, rd, pre.regs@[rd as int] & pre.regs@[rs2 as int]) && spec_cpu_rest_same(pre, post),
        Instruction::CBeqz { rs1, imm } => pre.regs@[rs1 as int] != 0 && post.regs@ == pre.regs@ && spec_cpu_rest_same(pre, post),
        Instruction::CBnez { rs1, imm } => pre.regs@[rs1 as int] == 0 && post.regs@ == pre.regs@ && spec_cpu_rest_same(pre, post),
        Instruction::CSlli { rd, shamt } => rd != 0 && post.regs@ == spec_write_reg(pre.regs@, rd, spec_sll(pre.regs@[rd as int], shamt as u32)) && spec_cpu_rest_same(pre, post),
        Instruction::CLwsp { rd, imm } => (exists|v: u32|
            post.regs@ == spec_write_reg(pre.regs@, rd, v)) && spec_cpu_rest_same(pre, post),
        Instruction::CMv { rd, rs2 } => post.regs@ == spec_write_reg(pre.regs@, rd, pre.regs@[rs2 as int]) && spec_cpu_rest_same(pre, post),
        Instruction::CAdd { rd, rs2 } => post.regs@ == spec_write_reg(pre.regs@, rd, wrap_add(pre.regs@[rd as int], pre.regs@[rs2 as int])) && spec_cpu_rest_same(pre, post),
        Instruction::CSwsp { rs2, imm } => post.regs@ == pre.regs@ && spec_cpu_rest_same(pre, post),
        Instruction::Csrrw { csr, rd, rs1 } => {
            let a = csr as u32;
            &&& csr_op_ok(pre.csr, pre.mode, a, true)
            &&& post.csr == if true {
                spec_csr_write(pre.csr, a, pre.regs@[rs1 as int])
            } else {
                pre.csr
            }
            &&& post.regs@ == spec_write_reg(pre.regs@, rd, spec_csr_read_value(pre.csr, a))
            &&& post.pc == pre.pc
            &&& post.mode == pre.mode
        },
        Instruction::Csrrs { csr, rd, rs1 } => {
            let a = csr as u32;
            &&& csr_op_ok(pre.csr, pre.mode, a, rs1 != 0)
            &&& post.csr == if rs1 != 0 {
                spec_csr_write(pre.csr, a, spec_csr_read_value(pre.csr, a) | pre.regs@[rs1 as int])
            } else {
                pre.csr
            }
            &&& post.regs@ == spec_write_reg(pre.regs@, rd, spec_csr_read_value(pre.csr, a))
            &&& post.pc == pre.pc
            &&& post.mode == pre.mode
        },
        Instruction::Csrrc { csr, rd, rs1 } => {
            let a = csr as u32;
            &&& csr_op_ok(pre.csr, pre.mode, a, rs1 != 0)
            &&& post.csr == if rs1 != 0 {
                spec_csr_write(pre.csr, a, spec_csr_read_value(pre.csr, a) & !pre.regs@[rs1 as int])
            } else {
                pre.csr
            }
            &&& post.regs@ == spec_write_reg(pre.regs@, rd, spec_csr_read_value(pre.csr, a))
            &&& post.pc == pre.pc
            &&& post.mode == pre.mode
        },
        Instruction::Csrrwi { csr, rd, uimm } => {
            let a = csr as u32;
            &&& csr_op_ok(pre.csr, pre.mode, a, true)
            &&& post.csr == if true {
                spec_csr_write(pre.csr, a, uimm as u32)
            } else {
                pre.csr
            }
            &&& post.regs@ == spec_write_reg(pre.regs@, rd, spec_csr_read_value(pre.csr, a))
            &&& post.pc == pre.pc
            &&& post.mode == pre.mode
        },
        Instruction::Csrrsi { csr, rd, uimm } => {
            let a = csr as u32;
            &&& csr_op_ok(pre.csr, pre.mode, a, uimm != 0)
            &&& post.csr == if uimm != 0 {
                spec_csr_write(pre.csr, a, spec_csr_read_value(pre.csr, a) | (uimm as u32))
            } else {
                pre.csr
            }
            &&& post.regs@ == spec_write_reg(pre.regs@, rd, spec_csr_read_value(pre.csr, a))
            &&& post.pc == pre.pc
            &&& post.mode == pre.mode
        },
        Instruction::Csrrci { csr, rd, uimm } => {
            let a = csr as u32;
            &&& csr_op_ok(pre.csr, pre.mode, a, uimm != 0)
            &&& post.csr == if uimm != 0 {
                spec_csr_write(pre.csr, a, spec_csr_read_value(pre.csr, a) & !(uimm as u32))
            } else {
                pre.csr
            }
            &&& post.regs@ == spec_write_reg(pre.regs@, rd, spec_csr_read_value(pre.csr, a))
            &&& post.pc == pre.pc
            &&& post.mode == pre.mode
        },
        _ => false,
    }
}

/// The exact architectural effect of the one control-transfer record
/// that reported `Jumped`: how the post-state's registers, program
/// counter, CSR file and privilege follow from the pre-state. Only
/// these records ever report `Jumped`; the decoded-instruction cache is
/// deliberately not constrained here.
pub open spec fn spec_jump_transition(pre: Cpu, post: Cpu, inst: Instruction) -> bool {
    match inst {
        Instruction::Jal { rd, imm } => {
            &&& rd < 32
            &&& post.regs@ == spec_write_reg(pre.regs@, rd, wrap_add(pre.pc, 4))
            &&& post.pc == wrap_add(pre.pc, imm)
            &&& post.csr == pre.csr
            &&& post.mode == pre.mode
        },
        Instruction::Jalr { rd, rs1, imm } => {
            &&& rd < 32 && rs1 < 32
            &&& post.regs@ == spec_write_reg(pre.regs@, rd, wrap_add(pre.pc, 4))
            &&& post.pc == (wrap_add(pre.regs@[rs1 as int], imm) & !1u32)
            &&& post.csr == pre.csr
            &&& post.mode == pre.mode
        },
        Instruction::Beq { rs1, rs2, imm } => {
            &&& rs1 < 32 && rs2 < 32
            &&& pre.regs@[rs1 as int] == pre.regs@[rs2 as int]
            &&& spec_taken_branch(pre, post, imm)
        },
        Instruction::Bne { rs1, rs2, imm } => {
            &&& rs1 < 32 && rs2 < 32
            &&& pre.regs@[rs1 as int] != pre.regs@[rs2 as int]
            &&& spec_taken_branch(pre, post, imm)
        },
        Instruction::Blt { rs1, rs2, imm } => {
            &&& rs1 < 32 && rs2 < 32
            &&& to_signed(pre.regs@[rs1 as int]) < to_signed(pre.regs@[rs2 as int])
            &&& spec_taken_branch(pre, post, imm)
        },
        Instruction::Bge { rs1, rs2, imm } => {
            &&& rs1 < 32 && rs2 < 32
            &&& to_signed(pre.regs@[rs1 as int]) >= to_signed(pre.regs@[rs2 as int])
            &&& spec_taken_branch(pre, post, imm)
        },
        Instruction::Bltu { rs1, rs2, imm } => {
            &&& rs1 < 32 && rs2 < 32
            &&& pre.regs@[rs1 as int] < pre.regs@[rs2 as int]
            &&& spec_taken_branch(pre, post, imm)
        },
        Instruction::Bgeu { rs1, rs2, imm } => {
            &&& rs1 < 32 && rs2 < 32
            &&& pre.regs@[rs1 as int] >= pre.regs@[rs2 as int]
            &&& spec_taken_branch(pre, post, imm)
        },
        Instruction::CJal { rd, imm } => {
            &&& rd < 32
            &&& post.regs@ == spec_write_reg(pre.regs@, rd, wrap_add(pre.pc, 2))
            &&& post.pc == wrap_add(pre.pc, imm)
            &&& post.csr == pre.csr
            &&& post.mode == pre.mode
        },
        Instruction::CJ { imm } => spec_taken_branch(pre, post, imm),
        Instruction::CBeqz { rs1, imm } => {
            &&& rs1 < 32
            &&& pre.regs@[rs1 as int] == 0
            &&& spec_taken_branch(pre, post, imm)
        },
        Instruction::CBnez { rs1, imm } => {
            &&& rs1 < 32
            &&& pre.regs@[rs1 as int] != 0
            &&& spec_taken_branch(pre, post, imm)
        },
        Instruction::CJr { rs1 } => {
            &&& rs1 < 32
            &&& post.regs@ == pre.regs@
            &&& post.pc == (pre.regs@[rs1 as int] & !1u32)
            &&& post.csr == pre.csr
            &&& post.mode == pre.mode
        },
        Instruction::CJalr { rs1 } => {
            &&& rs1 < 32
            &&& post.regs@ == pre.regs@.update(1, wrap_add(pre.pc, 2))
            &&& post.pc == (pre.regs@[rs1 as int] & !1u32)
            &&& post.csr == pre.csr
            &&& post.mode == pre.mode
        },
        Instruction::Mret => {
            &&& pre.mode is Machine
            &&& post.regs@ == pre.regs@
            &&& post.pc == pre.csr.mepc
            &&& post.csr == (Csr {
                mstatus: spec_mstatus_on_mret(pre.csr.mstatus),
                ..pre.csr
            })
            &&& post.mode == PrivilegeMode::spec_from_code((pre.csr.mstatus >> 11) & 0b11)
        },
        _ => false,
    }
}

impl Cpu {
    /// Privilege and counter-permission check for one CSR address.
    fn csr_access(&self, addr: u32) -> (r: bool)
        ensures
            r == csr_priv_ok(self.mode, addr, self.csr.mcounteren),
    {
        let required = (addr >> 8) & 0b11;
        if self.mode.code() < required {
            return false;
        }
        if (addr >= 0xc00 && addr <= 0xc1f) || (addr >= 0xc80 && addr <= 0xc9f) {
            if self.mode.code() < 3 {
                proof {
                    crate::cpu::decode::lemma_mask5_u32(addr);
                }
                if (self.csr.mcounteren >> (addr & 0x1f)) & 1 != 1 {
                    return false;
                }
            }
        }
        true
    }

    pub fn add(&mut self, rd: u8, rs1: u8, rs2: u8) -> (r: StepResult)
        requires
            rd < 32,
            rs1 < 32,
            rs2 < 32,
        ensures
            same_but_regs(*old(self), *final(self)),
            final(self).regs@ == spec_write_reg(
                old(self).regs@,
                rd,
                wrap_add(old(self).regs@[rs1 as int], old(self).regs@[rs2 as int]),
            ),
            r == StepResult::Completed(4),
    {
        if rd != 0 {
            let a = self.regs[rs1 as usize];
            let b = self.regs[rs2 as usize];
            self.regs[rd as usize] = a.wrapping_add(b);
        }
        StepResult::Completed(4)
    }

    pub fn sub(&mut self, rd: u8, rs1: u8, rs2: u8) -> (r: StepResult)
        requires
            rd < 32,
            rs1 < 32,
            rs2 < 32,
        ensures
            same_but_regs(*old(self), *final(self)),
            final(self).regs@ == spec_write_reg(
                old(self).regs@,
                rd,
                wrap_sub(old(self).regs@[rs1 as int], old(self).regs@[rs2 as int]),
            ),
            r == StepResult::Completed(4),
    {
        if rd != 0 {
            let a = self.regs[rs1 as usize];
            let b = self.regs[rs2 as usize];
            self.regs[rd as usize] = a.wrapping_sub(b);
        }
        StepResult::Completed(4)
    }

    pub fn sll(&mut self, rd: u8, rs1: u8, rs2: u8) -> (r: StepResult)
        requires
            rd < 32,
            rs1 < 32,
            rs2 < 32,
        ensures
            same_but_regs(*old(self), *final(self)),
            final(self).regs@ == spec_write_reg(
                old(self).regs@,
                rd,
                spec_sll(old(self).regs@[rs1 as int], old(self).regs@[rs2 as int]),
            ),
            r == StepResult::Completed(4),
    {
        if rd != 0 {
            let a = self.regs[rs1 as usize];
            let b = self.regs[rs2 as usize];
            proof {
                crate::cpu::decode::lemma_mask5_u32(b);
            }
            self.regs[rd as usize] = a << (b & 0x1f);
        }
        StepResult::Completed(4)
    }

    pub fn slt(&mut self, rd: u8, rs1: u8, rs2: u8) -> (r: StepResult)
        requires
            rd < 32,
            rs1 < 32,
            rs2 < 32,
        ensures
            same_but_regs(*old(self), *final(self)),
            final(self).regs@ == spec_write_reg(
                old(self).regs@,
                rd,
                if to_signed(old(self).regs@[rs1 as int]) < to_signed(old(self).regs@[rs2 as int]) { 1u32 } else { 0u32 },
            ),
            r == StepResult::Completed(4),
    {
        if rd != 0 {
            let a = self.regs[rs1 as usize];
            let b = self.regs[rs2 as usize];
            proof {
                lemma_cast_signed(a);
                lemma_cast_signed(b);
            }
            self.regs[rd as usize] = if (a as i32) < (b as i32) { 1 } else { 0 };
        }
        StepResult::Completed(4)
    }

    pub fn sltu(&mut self, rd: u8, rs1: u8, rs2: u8) -> (r: StepResult)
        requires
            rd < 32,
            rs1 < 32,
            rs2 < 32,
        ensures
            same_but_regs(*old(self), *final(self)),
            final(self).regs@ == spec_write_reg(
                old(self).regs@,
                rd,
                if old(self).regs@[rs1 as int] < old(self).regs@[rs2 as int] { 1u32 } else { 0u32 },
            ),
            r == StepResult::Completed(4),
    {
        if rd != 0 {
            let a = self.regs[rs1 as usize];
            let b = self.regs[rs2 as usize];
            self.regs[rd as usize] = if a < b { 1 } else { 0 };
        }
        StepResult::Completed(4)
    }

    pub fn xor(&mut self, rd: u8, rs1: u8, rs2: u8) -> (r: StepResult)
        requires
            rd < 32,
            rs1 < 32,
            rs2 < 32,
        ensures
            same_but_regs(*old(self), *final(self)),
            final(self).regs@ == spec_write_reg(
                old(self).regs@,
                rd,
                old(self).regs@[rs1 as int] ^ old(self).regs@[rs2 as int],
            ),
            r == StepResult::Completed(4),
    {
        if rd != 0 {
            let a = self.regs[rs1 as usize];
            let b = self.regs[rs2 as usize];
            self.regs[rd as usize] = a ^ b;
        }
        StepResult::Completed(4)
    }

    pub fn srl(&mut self, rd: u8, rs1: u8, rs2: u8) -> (r: StepResult)
        requires
            rd < 32,
            rs1 < 32,
            rs2 < 32,
        ensures
            same_but_regs(*old(self), *final(self)),
            final(self).regs@ == spec_write_reg(
                old(self).regs@,
                rd,
                spec_srl(old(self).regs@[rs1 as int], old(self).regs@[rs2 as int]),
            ),
            r == StepResult::Completed(4),
    {
        if rd != 0 {
            let a = self.regs[rs1 as usize];
            let b = self.regs[rs2 as usize];
            proof {
                crate::cpu::decode::lemma_mask5_u32(b);
            }
            self.regs[rd as usize] = a >> (b & 0x1f);
        }
        StepResult::Completed(4)
    }

    pub fn sra(&mut self, rd: u8, rs1: u8, rs2: u8) -> (r: StepResult)
        requires
            rd < 32,
            rs1 < 32,
            rs2 < 32,
        ensures
            same_but_regs(*old(self), *final(self)),
            final(self).regs@ == spec_write_reg(
                old(self).regs@,
                rd,
                spec_sra(old(self).regs@[rs1 as int], old(self).regs@[rs2 as int]),
            ),
            r == StepResult::Completed(4),
    {
        if rd != 0 {
            let a = self.regs[rs1 as usize];
            let b = self.regs[rs2 as usize];
            proof {
                crate::cpu::decode::lemma_mask5_u32(b);
                lemma_sra_cast(a, b & 0x1f);
            }
            self.regs[rd as usize] = ((a as i32) >> (b & 0x1f)) as u32;
        }
        StepResult::Completed(4)
    }

    pub fn or(&mut self, rd: u8, rs1: u8, rs2: u8) -> (r: StepResult)
        requires
            rd < 32,
            rs1 < 32,
            rs2 < 32,
        ensures
            same_but_regs(*old(self), *final(self)),
            final(self).regs@ == spec_write_reg(
                old(self).regs@,
                rd,
                old(self).regs@[rs1 as int] | old(self).regs@[rs2 as int],
            ),
            r == StepResult::Completed(4),
    {
        if rd != 0 {
            let a = self.regs[rs1 as usize];
            let b = self.regs[rs2 as usize];
            self.regs[rd as usize] = a | b;
        }
        StepResult::Completed(4)
    }

    pub fn and(&mut self, rd: u8, rs1: u8, rs2: u8) -> (r: StepResult)
        requires
            rd < 32,
            rs1 < 32,
            rs2 < 32,
        ensures
            same_but_regs(*old(self), *final(self)),
            final(self).regs@ == spec_write_reg(
                old(self).regs@,
                rd,
                old(self).regs@[rs1 as int] & old(self).regs@[rs2 as int],
            ),
            r == StepResult::Completed(4),
    {
        if rd != 0 {
            let a = self.regs[rs1 as usize];
            let b = self.regs[rs2 as usize];
            self.regs[rd as usize] = a & b;
        }
        StepResult::Completed(4)
    }

    pub fn mul(&mut self, rd: u8, rs1: u8, rs2: u8) -> (r: StepResult)
        requires
            rd < 32,
            rs1 < 32,
            rs2 < 32,
        ensures
            same_but_regs(*old(self), *final(self)),
            final(self).regs@ == spec_write_reg(old(self).regs@, rd, spec_mul(old(self).regs@[rs1 as int], old(self).regs@[rs2 as int])),
            r == StepResult::Completed(4),
    {
        if rd != 0 {
            let a = self.regs[rs1 as usize];
            let b = self.regs[rs2 as usize];
            self.regs[rd as usize] = a.wrapping_mul(b);
        }
        StepResult::Completed(4)
    }

    pub fn mulh(&mut self, rd: u8, rs1: u8, rs2: u8) -> (r: StepResult)
        requires
            rd < 32,
            rs1 < 32,
            rs2 < 32,
        ensures
            same_but_regs(*old(self), *final(self)),
            final(self).regs@ == spec_write_reg(old(self).regs@, rd, spec_mulh(old(self).regs@[rs1 as int], old(self).regs@[rs2 as int])),
            r == StepResult::Completed(4),
    {
        if rd != 0 {
            let a = self.regs[rs1 as usize];
            let b = self.regs[rs2 as usize];
            let sa = sext64(a);
            let sb = sext64(b);
            let p = sa.wrapping_mul(sb);
            proof {
                lemma_mul_mod_noop_general(
                    to_signed(a),
                    to_signed(b),
                    0x1_0000_0000_0000_0000,
                );
                lemma_u64_high_half(p);
            }
            self.regs[rd as usize] = (p >> 32) as u32;
        }
        StepResult::Completed(4)
    }

    pub fn mulhsu(&mut self, rd: u8, rs1: u8, rs2: u8) -> (r: StepResult)
        requires
            rd < 32,
            rs1 < 32,
            rs2 < 32,
        ensures
            same_but_regs(*old(self), *final(self)),
            final(self).regs@ == spec_write_reg(old(self).regs@, rd, spec_mulhsu(old(self).regs@[rs1 as int], old(self).regs@[rs2 as int])),
            r == StepResult::Completed(4),
    {
        if rd != 0 {
            let a = self.regs[rs1 as usize];
            let b = self.regs[rs2 as usize];
            let sa = sext64(a);
            let p = sa.wrapping_mul(b as u64);
            proof {
                lemma_mul_mod_noop_general(
                    to_signed(a),
                    b as int,
                    0x1_0000_0000_0000_0000,
                );
                lemma_small_mod(b as nat, 0x1_0000_0000_0000_0000);
                lemma_u64_high_half(p);
            }
            self.regs[rd as usize] = (p >> 32) as u32;
        }
        StepResult::Completed(4)
    }

    pub fn mulhu(&mut self, rd: u8, rs1: u8, rs2: u8) -> (r: StepResult)
        requires
            rd < 32,
            rs1 < 32,
            rs2 < 32,
        ensures
            same_but_regs(*old(self), *final(self)),
            final(self).regs@ == spec_write_reg(old(self).regs@, rd, spec_mulhu(old(self).regs@[rs1 as int], old(self).regs@[rs2 as int])),
            r == StepResult::Completed(4),
    {
        if rd != 0 {
            let a = self.regs[rs1 as usize];
            let b = self.regs[rs2 as usize];
            proof {
                assert(a as u64 * b as u64 <= 0xffff_ffffu64 * 0xffff_ffffu64)
                    by (nonlinear_arith)
                    requires
                        a <= 0xffff_ffffu64 && b <= 0xffff_ffffu64,
                ;
            }
            let p = (a as u64) * (b as u64);
            proof {
                lemma_u64_high_half(p);
            }
            self.regs[rd as usize] = (p >> 32) as u32;
        }
        StepResult::Completed(4)
    }

    pub fn div(&mut self, rd: u8, rs1: u8, rs2: u8) -> (r: StepResult)
        requires
            rd < 32,
            rs1 < 32,
            rs2 < 32,
        ensures
            same_but_regs(*old(self), *final(self)),
            final(self).regs@ == spec_write_reg(old(self).regs@, rd, spec_div(old(self).regs@[rs1 as int], old(self).regs@[rs2 as int])),
            r == StepResult::Completed(4),
    {
        if rd != 0 {
            let a = self.regs[rs1 as usize];
            let b = self.regs[rs2 as usize];
            let result = if b == 0 {
                0xffff_ffffu32
            } else if a == 0x8000_0000 && b == 0xffff_ffff {
                0x8000_0000
            } else {
                let neg = (a >= 0x8000_0000) != (b >= 0x8000_0000);
                let ua = if a >= 0x8000_0000 {
                    0u32.wrapping_sub(a)
                } else {
                    a
                };
                let ub = if b >= 0x8000_0000 {
                    0u32.wrapping_sub(b)
                } else {
                    b
                };
                let q = ua / ub;
                if neg {
                    0u32.wrapping_sub(q)
                } else {
                    q
                }
            };
            self.regs[rd as usize] = result;
        }
        StepResult::Completed(4)
    }

    pub fn divu(&mut self, rd: u8, rs1: u8, rs2: u8) -> (r: StepResult)
        requires
            rd < 32,
            rs1 < 32,
            rs2 < 32,
        ensures
            same_but_regs(*old(self), *final(self)),
            final(self).regs@ == spec_write_reg(old(self).regs@, rd, spec_divu(old(self).regs@[rs1 as int], old(self).regs@[rs2 as int])),
            r == StepResult::Completed(4),
    {
        if rd != 0 {
            let a = self.regs[rs1 as usize];
            let b = self.regs[rs2 as usize];
            self.regs[rd as usize] = if b == 0 {
                0xffff_ffff
            } else {
                a / b
            };
        }
        StepResult::Completed(4)
    }

    pub fn rem(&mut self, rd: u8, rs1: u8, rs2: u8) -> (r: StepResult)
        requires
            rd < 32,
            rs1 < 32,
            rs2 < 32,
        ensures
            same_but_regs(*old(self), *final(self)),
            final(self).regs@ == spec_write_reg(old(self).regs@, rd, spec_rem(old(self).regs@[rs1 as int], old(self).regs@[rs2 as int])),
            r == StepResult::Completed(4),
    {
        if rd != 0 {
            let a = self.regs[rs1 as usize];
            let b = self.regs[rs2 as usize];
            let result = if b == 0 {
                a
            } else if a == 0x8000_0000 && b == 0xffff_ffff {
                0
            } else {
                let ua = if a >= 0x8000_0000 {
                    0u32.wrapping_sub(a)
                } else {
                    a
                };
                let ub = if b >= 0x8000_0000 {
                    0u32.wrapping_sub(b)
                } else {
                    b
                };
                let m = ua % ub;
                if a >= 0x8000_0000 {
                    0u32.wrapping_sub(m)
                } else {
                    m
                }
            };
            self.regs[rd as usize] = result;
        }
        StepResult::Completed(4)
    }

    pub fn remu(&mut self, rd: u8, rs1: u8, rs2: u8) -> (r: StepResult)
        requires
            rd < 32,
            rs1 < 32,
            rs2 < 32,
        ensures
            same_but_regs(*old(self), *final(self)),
            final(self).regs@ == spec_write_reg(old(self).regs@, rd, spec_remu(old(self).regs@[rs1 as int], old(self).regs@[rs2 as int])),
            r == StepResult::Completed(4),
    {
        if rd != 0 {
            let a = self.regs[rs1 as usize];
            let b = self.regs[rs2 as usize];
            self.regs[rd as usize] = if b == 0 {
                a
            } else {
                a % b
            };
        }
        StepResult::Completed(4)
    }

    pub fn lui(&mut self, rd: u8, imm: u32) -> (r: StepResult)
        requires
            rd < 32,
        ensures
            same_but_regs(*old(self), *final(self)),
            final(self).regs@ == spec_write_reg(old(self).regs@, rd, imm),
            r == StepResult::Completed(4),
    {
        if rd != 0 {
            self.regs[rd as usize] = imm;
        }
        StepResult::Completed(4)
    }

    pub fn auipc(&mut self, rd: u8, imm: u32) -> (r: StepResult)
        requires
            rd < 32,
        ensures
            same_but_regs(*old(self), *final(self)),
            final(self).regs@ == spec_write_reg(old(self).regs@, rd, wrap_add(old(self).pc, imm)),
            r == StepResult::Completed(4),
    {
        if rd != 0 {
            self.regs[rd as usize] = self.pc.wrapping_add(imm);
        }
        StepResult::Completed(4)
    }

    /// `jal`: link the return address, then jump relative to the
    /// program counter.
    pub fn jal(&mut self, rd: u8, imm: u32) -> (r: StepResult)
        requires
            rd < 32,
        ensures
            same_but_regs_pc(*old(self), *final(self)),
            final(self).regs@ == spec_write_reg(old(self).regs@, rd, wrap_add(old(self).pc, 4)),
            final(self).pc == wrap_add(old(self).pc, imm),
            r == StepResult::Jumped,
    {
        if rd != 0 {
            self.regs[rd as usize] = self.pc.wrapping_add(4);
        }
        self.pc = self.pc.wrapping_add(imm);
        StepResult::Jumped
    }

    /// `jalr`: the target is the register plus offset with bit 0
    /// cleared; the link value is written after the target is read, so
    /// `rd == rs1` links correctly.
    pub fn jalr(&mut self, rd: u8, rs1: u8, imm: u32) -> (r: StepResult)
        requires
            rd < 32,
            rs1 < 32,
        ensures
            same_but_regs_pc(*old(self), *final(self)),
            final(self).regs@ == spec_write_reg(old(self).regs@, rd, wrap_add(old(self).pc, 4)),
            final(self).pc == wrap_add(old(self).regs@[rs1 as int], imm) & !1u32,
            r == StepResult::Jumped,
    {
        let t = self.pc.wrapping_add(4);
        let target = self.regs[rs1 as usize].wrapping_add(imm) & !1u32;
        if rd != 0 {
            self.regs[rd as usize] = t;
        }
        self.pc = target;
        StepResult::Jumped
    }

    pub fn beq(&mut self, rs1: u8, rs2: u8, imm: u32) -> (r: StepResult)
        requires
            rs1 < 32,
            rs2 < 32,
        ensures
            same_but_pc(*old(self), *final(self)),
            (old(self).regs@[rs1 as int] == old(self).regs@[rs2 as int]) ==> final(self).pc == wrap_add(old(self).pc, imm) && r
                == StepResult::Jumped,
            !(old(self).regs@[rs1 as int] == old(self).regs@[rs2 as int]) ==> final(self).pc == old(self).pc && r == StepResult::Completed(4),
    {
        let a = self.regs[rs1 as usize];
        let b = self.regs[rs2 as usize];
        if a == b {
            self.pc = self.pc.wrapping_add(imm);
            StepResult::Jumped
        } else {
            StepResult::Completed(4)
        }
    }

    pub fn bne(&mut self, rs1: u8, rs2: u8, imm: u32) -> (r: StepResult)
        requires
            rs1 < 32,
            rs2 < 32,
        ensures
            same_but_pc(*old(self), *final(self)),
            (old(self).regs@[rs1 as int] != old(self).regs@[rs2 as int]) ==> final(self).pc == wrap_add(old(self).pc, imm) && r
                == StepResult::Jumped,
            !(old(self).regs@[rs1 as int] != old(self).regs@[rs2 as int]) ==> final(self).pc == old(self).pc && r == StepResult::Completed(4),
    {
        let a = self.regs[rs1 as usize];
        let b = self.regs[rs2 as usize];
        if a != b {
            self.pc = self.pc.wrapping_add(imm);
            StepResult::Jumped
        } else {
            StepResult::Completed(4)
        }
    }

    pub fn blt(&mut self, rs1: u8, rs2: u8, imm: u32) -> (r: StepResult)
        requires
            rs1 < 32,
            rs2 < 32,
        ensures
            same_but_pc(*old(self), *final(self)),
            (to_signed(old(self).regs@[rs1 as int]) < to_signed(old(self).regs@[rs2 as int])) ==> final(self).pc == wrap_add(old(self).pc, imm) && r
                == StepResult::Jumped,
            !(to_signed(old(self).regs@[rs1 as int]) < to_signed(old(self).regs@[rs2 as int])) ==> final(self).pc == old(self).pc && r == StepResult::Completed(4),
    {
        let a = self.regs[rs1 as usize];
        let b = self.regs[rs2 as usize];
        proof {
            lemma_cast_signed(a);
            lemma_cast_signed(b);
        }
        if (a as i32) < (b as i32) {
            self.pc = self.pc.wrapping_add(imm);
            StepResult::Jumped
        } else {
            StepResult::Completed(4)
        }
    }

    pub fn bge(&mut self, rs1: u8, rs2: u8, imm: u32) -> (r: StepResult)
        requires
            rs1 < 32,
            rs2 < 32,
        ensures
            same_but_pc(*old(self), *final(self)),
            (to_signed(old(self).regs@[rs1 as int]) >= to_signed(old(self).regs@[rs2 as int])) ==> final(self).pc == wrap_add(old(self).pc, imm) && r
                == StepResult::Jumped,
            !(to_signed(old(self).regs@[rs1 as int]) >= to_signed(old(self).regs@[rs2 as int])) ==> final(self).pc == old(self).pc && r == StepResult::Completed(4),
    {
        let a = self.regs[rs1 as usize];
        let b = self.regs[rs2 as usize];
        proof {
            lemma_cast_signed(a);
            lemma_cast_signed(b);
        }
        if (a as i32) >= (b as i32) {
            self.pc = self.pc.wrapping_add(imm);
            StepResult::Jumped
        } else {
            StepResult::Completed(4)
        }
    }

    pub fn bltu(&mut self, rs1: u8, rs2: u8, imm: u32) -> (r: StepResult)
        requires
            rs1 < 32,
            rs2 < 32,
        ensures
            same_but_pc(*old(self), *final(self)),
            (old(self).regs@[rs1 as int] < old(self).regs@[rs2 as int]) ==> final(self).pc == wrap_add(old(self).pc, imm) && r
                == StepResult::Jumped,
            !(old(self).regs@[rs1 as int] < old(self).regs@[rs2 as int]) ==> final(self).pc == old(self).pc && r == StepResult::Completed(4),
    {
        let a = self.regs[rs1 as usize];
        let b = self.regs[rs2 as usize];
        if a < b {
            self.pc = self.pc.wrapping_add(imm);
            StepResult::Jumped
        } else {
            StepResult::Completed(4)
        }
    }

    pub fn bgeu(&mut self, rs1: u8, rs2: u8, imm: u32) -> (r: StepResult)
        requires
            rs1 < 32,
            rs2 < 32,
        ensures
            same_but_pc(*old(self), *final(self)),
            (old(self).regs@[rs1 as int] >= old(self).regs@[rs2 as int]) ==> final(self).pc == wrap_add(old(self).pc, imm) && r
                == StepResult::Jumped,
            !(old(self).regs@[rs1 as int] >= old(self).regs@[rs2 as int]) ==> final(self).pc == old(self).pc && r == StepResult::Completed(4),
    {
        let a = self.regs[rs1 as usize];
        let b = self.regs[rs2 as usize];
        if a >= b {
            self.pc = self.pc.wrapping_add(imm);
            StepResult::Jumped
        } else {
            StepResult::Completed(4)
        }
    }

    pub fn addi(&mut self, rd: u8, rs1: u8, imm: u32) -> (r: StepResult)
        requires
            rd < 32,
            rs1 < 32,
        ensures
            same_but_regs(*old(self), *final(self)),
            final(self).regs@ == spec_write_reg(
                old(self).regs@,
                rd,
                wrap_add(old(self).regs@[rs1 as int], imm),
            ),
            r == StepResult::Completed(4),
    {
        if rd != 0 {
            let a = self.regs[rs1 as usize];
            self.regs[rd as usize] = a.wrapping_add(imm);
        }
        StepResult::Completed(4)
    }

    pub fn slti(&mut self, rd: u8, rs1: u8, imm: u32) -> (r: StepResult)
        requires
            rd < 32,
            rs1 < 32,
        ensures
            same_but_regs(*old(self), *final(self)),
            final(self).regs@ == spec_write_reg(
                old(self).regs@,
                rd,
                if to_signed(old(self).regs@[rs1 as int]) < to_signed(imm) { 1u32 } else { 0u32 },
            ),
            r == StepResult::Completed(4),
    {
        if rd != 0 {
            let a = self.regs[rs1 as usize];
            proof {
                lemma_cast_signed(a);
                lemma_cast_signed(imm);
            }
            self.regs[rd as usize] = if (a as i32) < (imm as i32) { 1 } else { 0 };
        }
        StepResult::Completed(4)
    }

    pub fn sltiu(&mut self, rd: u8, rs1: u8, imm: u32) -> (r: StepResult)
        requires
            rd < 32,
            rs1 < 32,
        ensures
            same_but_regs(*old(self), *final(self)),
            final(self).regs@ == spec_write_reg(
                old(self).regs@,
                rd,
                if old(self).regs@[rs1 as int] < imm { 1u32 } else { 0u32 },
            ),
            r == StepResult::Completed(4),
    {
        if rd != 0 {
            let a = self.regs[rs1 as usize];
            self.regs[rd as usize] = if a < imm { 1 } else { 0 };
        }
        StepResult::Completed(4)
    }

    pub fn xori(&mut self, rd: u8, rs1: u8, imm: u32) -> (r: StepResult)
        requires
            rd < 32,
            rs1 < 32,
        ensures
            same_but_regs(*old(self), *final(self)),
            final(self).regs@ == spec_write_reg(
                old(self).regs@,
                rd,
                old(self).regs@[rs1 as int] ^ imm,
            ),
            r == StepResult::Completed(4),
    {
        if rd != 0 {
            let a = self.regs[rs1 as usize];
            self.regs[rd as usize] = a ^ imm;
        }
        StepResult::Completed(4)
    }

    pub fn ori(&mut self, rd: u8, rs1: u8, imm: u32) -> (r: StepResult)
        requires
            rd < 32,
            rs1 < 32,
        ensures
            same_but_regs(*old(self), *final(self)),
            final(self).regs@ == spec_write_reg(
                old(self).regs@,
                rd,
                old(self).regs@[rs1 as int] | imm,
            ),
            r == StepResult::Completed(4),
    {
        if rd != 0 {
            let a = self.regs[rs1 as usize];
            self.regs[rd as usize] = a | imm;
        }
        StepResult::Completed(4)
    }

    pub fn andi(&mut self, rd: u8, rs1: u8, imm: u32) -> (r: StepResult)
        requires
            rd < 32,
            rs1 < 32,
        ensures
            same_but_regs(*old(self), *final(self)),
            final(self).regs@ == spec_write_reg(
                old(self).regs@,
                rd,
                old(self).regs@[rs1 as int] & imm,
            ),
            r == StepResult::Completed(4),
    {
        if rd != 0 {
            let a = self.regs[rs1 as usize];
            self.regs[rd as usize] = a & imm;
        }
        StepResult::Completed(4)
    }

    pub fn slli(&mut self, rd: u8, rs1: u8, shamt: u8) -> (r: StepResult)
        requires
            rd < 32,
            rs1 < 32,
            shamt < 32,
        ensures
            same_but_regs(*old(self), *final(self)),
            final(self).regs@ == spec_write_reg(
                old(self).regs@,
                rd,
                spec_sll(old(self).regs@[rs1 as int], shamt as u32),
            ),
            r == StepResult::Completed(4),
    {
        if rd != 0 {
            let a = self.regs[rs1 as usize];
            proof {
                lemma_mask5_id(shamt as u32);
            }
            self.regs[rd as usize] = a << (shamt as u32);
        }
        StepResult::Completed(4)
    }

    pub fn srli(&mut self, rd: u8, rs1: u8, shamt: u8) -> (r: StepResult)
        requires
            rd < 32,
            rs1 < 32,
            shamt < 32,
        ensures
            same_but_regs(*old(self), *final(self)),
            final(self).regs@ == spec_write_reg(
                old(self).regs@,
                rd,
                spec_srl(old(self).regs@[rs1 as int], shamt as u32),
            ),
            r == StepResult::Completed(4),
    {
        if rd != 0 {
            let a = self.regs[rs1 as usize];
            proof {
                lemma_mask5_id(shamt as u32);
            }
            self.regs[rd as usize] = a >> (shamt as u32);
        }
        StepResult::Completed(4)
    }

    pub fn srai(&mut self, rd: u8, rs1: u8, shamt: u8) -> (r: StepResult)
        requires
            rd < 32,
            rs1 < 32,
            shamt < 32,
        ensures
            same_but_regs(*old(self), *final(self)),
            final(self).regs@ == spec_write_reg(
                old(self).regs@,
                rd,
                spec_sra(old(self).regs@[rs1 as int], shamt as u32),
            ),
            r == StepResult::Completed(4),
    {
        if rd != 0 {
            let a = self.regs[rs1 as usize];
            proof {
                lemma_mask5_id(shamt as u32);
                lemma_sra_cast(a, shamt as u32);
            }
            self.regs[rd as usize] = ((a as i32) >> (shamt as u32)) as u32;
        }
        StepResult::Completed(4)
    }

    /// `fence`: a memory-ordering no-op for this single-hart core.
    pub fn fence(&mut self) -> (r: StepResult)
        ensures
            *final(self) == *old(self),
            r == StepResult::Completed(4),
    {
        StepResult::Completed(4)
    }

    /// `fence.i`: discard every decoded page, so instruction fetches
    /// observe all prior stores.
    pub fn fence_i(&mut self) -> (r: StepResult)
        requires
            old(self).wf(),
        ensures
            final(self).wf(),
            forall|p: int| 0 <= p < final(self).cache@.len() ==> final(self).cache@[p] is None,
            final(self).regs@ == old(self).regs@,
            final(self).pc == old(self).pc,
            final(self).csr == old(self).csr,
            final(self).mode == old(self).mode,
            r == StepResult::Completed(4),
    {
        self.flush_all_cache();
        StepResult::Completed(4)
    }

    /// `wfi`: treated as a no-op; the step loop polls for interrupts.
    pub fn wfi(&mut self) -> (r: StepResult)
        ensures
            *final(self) == *old(self),
            r == StepResult::Completed(4),
    {
        StepResult::Completed(4)
    }

    /// `ecall`: an environment call traps with the cause that names the
    /// calling privilege: 8 from User, 9 from Supervisor, 11 from
    /// Machine.
    pub fn ecall(&mut self) -> (r: StepResult)
        ensures
            *final(self) == spec_trap(
                *old(self),
                match old(self).mode {
                    PrivilegeMode::User => 8u32,
                    PrivilegeMode::Supervisor => 9u32,
                    PrivilegeMode::Machine => 11u32,
                },
                0,
            ),
            r == (StepResult::Trap(
                match old(self).mode {
                    PrivilegeMode::User => 8u32,
                    PrivilegeMode::Supervisor => 9u32,
                    PrivilegeMode::Machine => 11u32,
                },
            )),
    {
        let code: u32 = match self.mode {
            PrivilegeMode::User => 8,
            PrivilegeMode::Supervisor => 9,
            PrivilegeMode::Machine => 11,
        };
        self.handle_trap(code, 0)
    }

    /// `ebreak`: trap with the breakpoint cause.
    pub fn ebreak(&mut self) -> (r: StepResult)
        ensures
            *final(self) == spec_trap(*old(self), 3, 0),
            r == StepResult::Trap(3),
    {
        self.handle_trap(3, 0)
    }

    /// `mret`: return from a trap. Only Machine mode may execute it;
    /// from a lower mode it is an illegal instruction. It restores the
    /// program counter from `mepc`, pops MPIE into MIE, sets MPIE, drops
    /// to the privilege MPP names, and clears MPP to User.
    pub fn mret(&mut self) -> (r: StepResult)
        ensures
            old(self).mode is Machine ==> {
                &&& final(self).regs@ == old(self).regs@
                &&& final(self).cache@ == old(self).cache@
                &&& final(self).pc == old(self).csr.mepc
                &&& final(self).csr == (Csr {
                    mstatus: spec_mstatus_on_mret(old(self).csr.mstatus),
                    ..old(self).csr
                })
                &&& final(self).mode == PrivilegeMode::spec_from_code(
                    (old(self).csr.mstatus >> 11) & 0b11,
                )
                &&& r == StepResult::Jumped
            },
            !(old(self).mode is Machine) ==> *final(self) == spec_trap(
                *old(self),
                2,
                0x3020_0073,
            ) && r == StepResult::Trap(2),
    {
        if !matches!(self.mode, PrivilegeMode::Machine) {
            return self.handle_trap(2, 0x3020_0073);
        }
        self.pc = self.csr.mepc;

        let mpie = (self.csr.mstatus >> 7) & 1;
        let ms1 = (self.csr.mstatus & !0x8u32) | (mpie << 3);
        let ms2 = ms1 | 0x80u32;

        let mpp = (ms2 >> 11) & 0b11;
        proof {
            let ms = self.csr.mstatus;
            assert(((((ms & !0x8u32) | (((ms >> 7) & 1) << 3)) | 0x80u32) >> 11) & 0b11 == (ms
                >> 11) & 0b11) by (bit_vector);
        }
        self.mode = PrivilegeMode::from_code(mpp);
        self.csr.mstatus = ms2 & !0x1800u32;
        StepResult::Jumped
    }

    pub fn csrrw(&mut self, csr: u16, rd: u8, rs1: u8) -> (r: StepResult)
        requires
            rd < 32,
            rs1 < 32,
        ensures
            csr_op_ok(old(self).csr, old(self).mode, csr as u32, true) ==> {
                &&& same_but_regs_csr(*old(self), *final(self))
                &&& final(self).csr == if true {
                    spec_csr_write(old(self).csr, csr as u32, old(self).regs@[rs1 as int])
                } else {
                    old(self).csr
                }
                &&& final(self).regs@ == spec_write_reg(
                    old(self).regs@,
                    rd,
                    spec_csr_read_value(old(self).csr, csr as u32),
                )
                &&& r == StepResult::Completed(4)
            },
            !csr_op_ok(old(self).csr, old(self).mode, csr as u32, true) ==> {
                &&& *final(self) == spec_trap(
                    *old(self),
                    2,
                    spec_csr_bits(1, csr, rd, rs1),
                )
                &&& r == StepResult::Trap(2)
            },
    {
        let addr = csr as u32;
        let bits = ((csr as u32) << 20) | ((rs1 as u32) << 15) | (1u32 << 12) | ((
        rd as u32) << 7) | 0x73;
        if !self.csr_access(addr) {
            return self.handle_trap(2, bits);
        }
        let read = self.csr.read(addr);
        let old_val = match read {
            Ok(v) => v,
            Err(_) => {
                return self.handle_trap(2, bits);
            },
        };
        let res = self.csr.write(addr, self.regs[rs1 as usize]);
        if res.is_err() {
            return self.handle_trap(2, bits);
        }
        if rd != 0 {
            self.regs[rd as usize] = old_val;
        }
        StepResult::Completed(4)
    }

    pub fn csrrs(&mut self, csr: u16, rd: u8, rs1: u8) -> (r: StepResult)
        requires
            rd < 32,
            rs1 < 32,
        ensures
            csr_op_ok(old(self).csr, old(self).mode, csr as u32, rs1 != 0) ==> {
                &&& same_but_regs_csr(*old(self), *final(self))
                &&& final(self).csr == if rs1 != 0 {
                    spec_csr_write(old(self).csr, csr as u32, spec_csr_read_value(old(self).csr, csr as u32) | (old(self).regs@[rs1 as int]))
                } else {
                    old(self).csr
                }
                &&& final(self).regs@ == spec_write_reg(
                    old(self).regs@,
                    rd,
                    spec_csr_read_value(old(self).csr, csr as u32),
                )
                &&& r == StepResult::Completed(4)
            },
            !csr_op_ok(old(self).csr, old(self).mode, csr as u32, rs1 != 0) ==> {
                &&& *final(self) == spec_trap(
                    *old(self),
                    2,
                    spec_csr_bits(2, csr, rd, rs1),
                )
                &&& r == StepResult::Trap(2)
            },
    {
        let addr = csr as u32;
        let bits = ((csr as u32) << 20) | ((rs1 as u32) << 15) | (2u32 << 12) | ((
        rd as u32) << 7) | 0x73;
        if !self.csr_access(addr) {
            return self.handle_trap(2, bits);
        }
        let read = self.csr.read(addr);
        let old_val = match read {
            Ok(v) => v,
            Err(_) => {
                return self.handle_trap(2, bits);
            },
        };
        if rs1 != 0 {
            let res = self.csr.write(addr, old_val | (self.regs[rs1 as usize]));
            if res.is_err() {
                return self.handle_trap(2, bits);
            }
        }
        if rd != 0 {
            self.regs[rd as usize] = old_val;
        }
        StepResult::Completed(4)
    }

    pub fn csrrc(&mut self, csr: u16, rd: u8, rs1: u8) -> (r: StepResult)
        requires
            rd < 32,
            rs1 < 32,
        ensures
            csr_op_ok(old(self).csr, old(self).mode, csr as u32, rs1 != 0) ==> {
                &&& same_but_regs_csr(*old(self), *final(self))
                &&& final(self).csr == if rs1 != 0 {
                    spec_csr_write(old(self).csr, csr as u32, spec_csr_read_value(old(self).csr, csr as u32) & !(old(self).regs@[rs1 as int]))
                } else {
                    old(self).csr
                }
                &&& final(self).regs@ == spec_write_reg(
                    old(self).regs@,
                    rd,
                    spec_csr_read_value(old(self).csr, csr as u32),
                )
                &&& r == StepResult::Completed(4)
            },
            !csr_op_ok(old(self).csr, old(self).mode, csr as u32, rs1 != 0) ==> {
                &&& *final(self) == spec_trap(
                    *old(self),
                    2,
                    spec_csr_bits(3, csr, rd, rs1),
                )
                &&& r == StepResult::Trap(2)
            },
    {
        let addr = csr as u32;
        let bits = ((csr as u32) << 20) | ((rs1 as u32) << 15) | (3u32 << 12) | ((
        rd as u32) << 7) | 0x73;
        if !self.csr_access(addr) {
            return self.handle_trap(2, bits);
        }
        let read = self.csr.read(addr);
        let old_val = match read {
            Ok(v) => v,
            Err(_) => {
                return self.handle_trap(2, bits);
            },
        };
        if rs1 != 0 {
            let res = self.csr.write(addr, old_val & !(self.regs[rs1 as usize]));
            if res.is_err() {
                return self.handle_trap(2, bits);
            }
        }
        if rd != 0 {
            self.regs[rd as usize] = old_val;
        }
        StepResult::Completed(4)
    }

    pub fn csrrwi(&mut self, csr: u16, rd: u8, uimm: u8) -> (r: StepResult)
        requires
            rd < 32,
            uimm < 32,
        ensures
            csr_op_ok(old(self).csr, old(self).mode, csr as u32, true) ==> {
                &&& same_but_regs_csr(*old(self), *final(self))
                &&& final(self).csr == if true {
                    spec_csr_write(old(self).csr, csr as u32, uimm as u32)
                } else {
                    old(self).csr
                }
                &&& final(self).regs@ == spec_write_reg(
                    old(self).regs@,
                    rd,
                    spec_csr_read_value(old(self).csr, csr as u32),
                )
                &&& r == StepResult::Completed(4)
            },
            !csr_op_ok(old(self).csr, old(self).mode, csr as u32, true) ==> {
                &&& *final(self) == spec_trap(
                    *old(self),
                    2,
                    spec_csr_bits(5, csr, rd, uimm),
                )
                &&& r == StepResult::Trap(2)
            },
    {
        let addr = csr as u32;
        let bits = ((csr as u32) << 20) | ((uimm as u32) << 15) | (5u32 << 12) | ((
        rd as u32) << 7) | 0x73;
        if !self.csr_access(addr) {
            return self.handle_trap(2, bits);
        }
        let read = self.csr.read(addr);
        let old_val = match read {
            Ok(v) => v,
            Err(_) => {
                return self.handle_trap(2, bits);
            },
        };
        let res = self.csr.write(addr, uimm as u32);
        if res.is_err() {
            return self.handle_trap(2, bits);
        }
        if rd != 0 {
            self.regs[rd as usize] = old_val;
        }
        StepResult::Completed(4)
    }

    pub fn csrrsi(&mut self, csr: u16, rd: u8, uimm: u8) -> (r: StepResult)
        requires
            rd < 32,
            uimm < 32,
        ensures
            csr_op_ok(old(self).csr, old(self).mode, csr as u32, uimm != 0) ==> {
                &&& same_but_regs_csr(*old(self), *final(self))
                &&& final(self).csr == if uimm != 0 {
                    spec_csr_write(old(self).csr, csr as u32, spec_csr_read_value(old(self).csr, csr as u32) | (uimm as u32))
                } else {
                    old(self).csr
                }
                &&& final(self).regs@ == spec_write_reg(
                    old(self).regs@,
                    rd,
                    spec_csr_read_value(old(self).csr, csr as u32),
                )
                &&& r == StepResult::Completed(4)
            },
            !csr_op_ok(old(self).csr, old(self).mode, csr as u32, uimm != 0) ==> {
                &&& *final(self) == spec_trap(
                    *old(self),
                    2,
                    spec_csr_bits(6, csr, rd, uimm),
                )
                &&& r == StepResult::Trap(2)
            },
    {
        let addr = csr as u32;
        let bits = ((csr as u32) << 20) | ((uimm as u32) << 15) | (6u32 << 12) | ((
        rd as u32) << 7) | 0x73;
        if !self.csr_access(addr) {
            return self.handle_trap(2, bits);
        }
        let read = self.csr.read(addr);
        let old_val = match read {
            Ok(v) => v,
            Err(_) => {
                return self.handle_trap(2, bits);
            },
        };
        if uimm != 0 {
            let res = self.csr.write(addr, old_val | (uimm as u32));
            if res.is_err() {
                return self.handle_trap(2, bits);
            }
        }
        if rd != 0 {
            self.regs[rd as usize] = old_val;
        }
        StepResult::Completed(4)
    }

    pub fn csrrci(&mut self, csr: u16, rd: u8, uimm: u8) -> (r: StepResult)
        requires
            rd < 32,
            uimm < 32,
        ensures
            csr_op_ok(old(self).csr, old(self).mode, csr as u32, uimm != 0) ==> {
                &&& same_but_regs_csr(*old(self), *final(self))
                &&& final(self).csr == if uimm != 0 {
                    spec_csr_write(old(self).csr, csr as u32, spec_csr_read_value(old(self).csr, csr as u32) & !(uimm as u32))
                } else {
                    old(self).csr
                }
                &&& final(self).regs@ == spec_write_reg(
                    old(self).regs@,
                    rd,
                    spec_csr_read_value(old(self).csr, csr as u32),
                )
                &&& r == StepResult::Completed(4)
            },
            !csr_op_ok(old(self).csr, old(self).mode, csr as u32, uimm != 0) ==> {
                &&& *final(self) == spec_trap(
                    *old(self),
                    2,
                    spec_csr_bits(7, csr, rd, uimm),
                )
                &&& r == StepResult::Trap(2)
            },
    {
        let addr = csr as u32;
        let bits = ((csr as u32) << 20) | ((uimm as u32) << 15) | (7u32 << 12) | ((
        rd as u32) << 7) | 0x73;
        if !self.csr_access(addr) {
            return self.handle_trap(2, bits);
        }
        let read = self.csr.read(addr);
        let old_val = match read {
            Ok(v) => v,
            Err(_) => {
                return self.handle_trap(2, bits);
            },
        };
        if uimm != 0 {
            let res = self.csr.write(addr, old_val & !(uimm as u32));
            if res.is_err() {
                return self.handle_trap(2, bits);
            }
        }
        if rd != 0 {
            self.regs[rd as usize] = old_val;
        }
        StepResult::Completed(4)
    }

    pub fn lb<B: Bus>(&mut self, rd: u8, rs1: u8, imm: u32, bus: &mut B) -> (r: StepResult)
        requires
            rd < 32,
            rs1 < 32,
        ensures
            same_but_regs(*old(self), *final(self)),
            exists|v: u8|
                final(self).regs@ == spec_write_reg(old(self).regs@, rd, spec_sext8(v)),
            r == StepResult::Completed(4),
            ({
                let addr = wrap_add(old(self).regs@[rs1 as int], imm);
                old(bus).spec_in_ram(addr) ==> *final(bus) == *old(bus) && final(self).regs@
                    == spec_write_reg(old(self).regs@, rd, spec_sext8(old(bus).spec_ram()[addr as int]))
            }),
    {
        let addr = self.regs[rs1 as usize].wrapping_add(imm);
        let b = bus.read8(addr);
        let val = if b < 0x80 {
            b as u32
        } else {
            (b as u32) | 0xffff_ff00
        };
        if rd != 0 {
            self.regs[rd as usize] = val;
        }
        proof {
            assert(self.regs@ == spec_write_reg(old(self).regs@, rd, spec_sext8(b)));
        }
        StepResult::Completed(4)
    }

    pub fn lh<B: Bus>(&mut self, rd: u8, rs1: u8, imm: u32, bus: &mut B) -> (r: StepResult)
        requires
            rd < 32,
            rs1 < 32,
        ensures
            same_but_regs(*old(self), *final(self)),
            exists|v: u16|
                final(self).regs@ == spec_write_reg(old(self).regs@, rd, spec_sext16(v)),
            r == StepResult::Completed(4),
            ({
                let addr = wrap_add(old(self).regs@[rs1 as int], imm);
                old(bus).spec_in_ram(addr) && old(bus).spec_in_ram(wrap_add(addr, 1)) ==> *final(bus) == *old(bus) && final(self).regs@
                    == spec_write_reg(old(self).regs@, rd, spec_sext16(spec_le16(old(bus).spec_ram(), addr as int, wrap_add(addr, 1) as int)))
            }),
    {
        let addr = self.regs[rs1 as usize].wrapping_add(imm);
        let h = bus.read16(addr);
        let val = if h < 0x8000 {
            h as u32
        } else {
            (h as u32) | 0xffff_0000
        };
        if rd != 0 {
            self.regs[rd as usize] = val;
        }
        proof {
            assert(self.regs@ == spec_write_reg(old(self).regs@, rd, spec_sext16(h)));
        }
        StepResult::Completed(4)
    }

    pub fn lw<B: Bus>(&mut self, rd: u8, rs1: u8, imm: u32, bus: &mut B) -> (r: StepResult)
        requires
            rd < 32,
            rs1 < 32,
        ensures
            same_but_regs(*old(self), *final(self)),
            exists|v: u32| final(self).regs@ == spec_write_reg(old(self).regs@, rd, v),
            r == StepResult::Completed(4),
            ({
                let addr = wrap_add(old(self).regs@[rs1 as int], imm);
                old(bus).spec_in_ram(addr) && old(bus).spec_in_ram(wrap_add(addr, 1)) && old(bus).spec_in_ram(wrap_add(addr, 2)) && old(bus).spec_in_ram(wrap_add(addr, 3)) ==> *final(bus) == *old(bus) && final(self).regs@
                    == spec_write_reg(old(self).regs@, rd, spec_le32(old(bus).spec_ram(), addr as int, wrap_add(addr, 1) as int, wrap_add(addr, 2) as int, wrap_add(addr, 3) as int))
            }),
    {
        let addr = self.regs[rs1 as usize].wrapping_add(imm);
        let val = bus.read32(addr);
        if rd != 0 {
            self.regs[rd as usize] = val;
        }
        proof {
            assert(self.regs@ == spec_write_reg(old(self).regs@, rd, val));
        }
        StepResult::Completed(4)
    }

    pub fn lbu<B: Bus>(&mut self, rd: u8, rs1: u8, imm: u32, bus: &mut B) -> (r: StepResult)
        requires
            rd < 32,
            rs1 < 32,
        ensures
            same_but_regs(*old(self), *final(self)),
            exists|v: u32|
                v < 0x100 && final(self).regs@ == spec_write_reg(old(self).regs@, rd, v),
            r == StepResult::Completed(4),
            ({
                let addr = wrap_add(old(self).regs@[rs1 as int], imm);
                old(bus).spec_in_ram(addr) ==> *final(bus) == *old(bus) && final(self).regs@
                    == spec_write_reg(old(self).regs@, rd, old(bus).spec_ram()[addr as int] as u32)
            }),
    {
        let addr = self.regs[rs1 as usize].wrapping_add(imm);
        let b = bus.read8(addr);
        if rd != 0 {
            self.regs[rd as usize] = b as u32;
        }
        proof {
            assert(self.regs@ == spec_write_reg(old(self).regs@, rd, b as u32));
        }
        StepResult::Completed(4)
    }

    pub fn lhu<B: Bus>(&mut self, rd: u8, rs1: u8, imm: u32, bus: &mut B) -> (r: StepResult)
        requires
            rd < 32,
            rs1 < 32,
        ensures
            same_but_regs(*old(self), *final(self)),
            exists|v: u32|
                v < 0x1_0000 && final(self).regs@ == spec_write_reg(old(self).regs@, rd, v),
            r == StepResult::Completed(4),
            ({
                let addr = wrap_add(old(self).regs@[rs1 as int], imm);
                old(bus).spec_in_ram(addr) && old(bus).spec_in_ram(wrap_add(addr, 1)) ==> *final(bus) == *old(bus) && final(self).regs@
                    == spec_write_reg(old(self).regs@, rd, spec_le16(old(bus).spec_ram(), addr as int, wrap_add(addr, 1) as int) as u32)
            }),
    {
        let addr = self.regs[rs1 as usize].wrapping_add(imm);
        let h = bus.read16(addr);
        if rd != 0 {
            self.regs[rd as usize] = h as u32;
        }
        proof {
            assert(self.regs@ == spec_write_reg(old(self).regs@, rd, h as u32));
        }
        StepResult::Completed(4)
    }

    /// The store goes to the bus, and the decoded page holding the
    /// target is invalidated so a later fetch there re-decodes.
    pub fn sb<B: Bus>(&mut self, rs1: u8, rs2: u8, imm: u32, bus: &mut B) -> (r: StepResult)
        requires
            rs1 < 32,
            rs2 < 32,
            old(self).wf(),
        ensures
            final(self).wf(),
            final(self).regs@ == old(self).regs@,
            final(self).pc == old(self).pc,
            final(self).csr == old(self).csr,
            final(self).mode == old(self).mode,
            final(self).cache@ == spec_invalidate_page(
                old(self).cache@,
                wrap_add(old(self).regs@[rs1 as int], imm),
            ),
            r == StepResult::Completed(4),
            ({
                let addr = wrap_add(old(self).regs@[rs1 as int], imm);
                old(bus).spec_in_ram(addr) ==> final(bus).spec_ram() == old(bus).spec_ram().update(addr as int, ((old(self).regs@[rs2 as int]) & 0xff) as u8)
                    && B::spec_views_kept(*old(bus), *final(bus))
            }),
    {
        let addr = self.regs[rs1 as usize].wrapping_add(imm);
        let val = self.regs[rs2 as usize];
        bus.write8(addr, (val & 0xff) as u8);
        self.flush_cache_line(addr);
        StepResult::Completed(4)
    }

    /// The store goes to the bus, and the decoded page holding the
    /// target is invalidated so a later fetch there re-decodes.
    pub fn sh<B: Bus>(&mut self, rs1: u8, rs2: u8, imm: u32, bus: &mut B) -> (r: StepResult)
        requires
            rs1 < 32,
            rs2 < 32,
            old(self).wf(),
        ensures
            final(self).wf(),
            final(self).regs@ == old(self).regs@,
            final(self).pc == old(self).pc,
            final(self).csr == old(self).csr,
            final(self).mode == old(self).mode,
            final(self).cache@ == spec_invalidate_page(
                old(self).cache@,
                wrap_add(old(self).regs@[rs1 as int], imm),
            ),
            r == StepResult::Completed(4),
            ({
                let addr = wrap_add(old(self).regs@[rs1 as int], imm);
                old(bus).spec_in_ram(addr) && old(bus).spec_in_ram(wrap_add(addr, 1)) ==> final(bus).spec_ram() == old(bus).spec_ram().update(
                    addr as int,
                    (((old(self).regs@[rs2 as int]) & 0xffff) as u16) as u8,
                ).update(wrap_add(addr, 1) as int, ((((old(self).regs@[rs2 as int]) & 0xffff) as u16) >> 8) as u8)
                    && B::spec_views_kept(*old(bus), *final(bus))
            }),
    {
        let addr = self.regs[rs1 as usize].wrapping_add(imm);
        let val = self.regs[rs2 as usize];
        bus.write16(addr, (val & 0xffff) as u16);
        self.flush_cache_line(addr);
        StepResult::Completed(4)
    }

    /// The store goes to the bus, and the decoded page holding the
    /// target is invalidated so a later fetch there re-decodes.
    pub fn sw<B: Bus>(&mut self, rs1: u8, rs2: u8, imm: u32, bus: &mut B) -> (r: StepResult)
        requires
            rs1 < 32,
            rs2 < 32,
            old(self).wf(),
        ensures
            final(self).wf(),
            final(self).regs@ == old(self).regs@,
            final(self).pc == old(self).pc,
            final(self).csr == old(self).csr,
            final(self).mode == old(self).mode,
            final(self).cache@ == spec_invalidate_page(
                old(self).cache@,
                wrap_add(old(self).regs@[rs1 as int], imm),
            ),
            r == StepResult::Completed(4),
            ({
                let addr = wrap_add(old(self).regs@[rs1 as int], imm);
                old(bus).spec_in_ram(addr) && old(bus).spec_in_ram(wrap_add(addr, 1)) && old(bus).spec_in_ram(wrap_add(addr, 2)) && old(bus).spec_in_ram(wrap_add(addr, 3)) ==> final(bus).spec_ram() == old(bus).spec_ram().update(addr as int, (old(self).regs@[rs2 as int]) as u8).update(
                    wrap_add(addr, 1) as int,
                    ((old(self).regs@[rs2 as int]) >> 8) as u8,
                ).update(wrap_add(addr, 2) as int, ((old(self).regs@[rs2 as int]) >> 16) as u8).update(
                    wrap_add(addr, 3) as int,
                    ((old(self).regs@[rs2 as int]) >> 24) as u8,
                )
                    && B::spec_views_kept(*old(bus), *final(bus))
            }),
    {
        let addr = self.regs[rs1 as usize].wrapping_add(imm);
        let val = self.regs[rs2 as usize];
        bus.write32(addr, val);
        self.flush_cache_line(addr);
        StepResult::Completed(4)
    }

    /// `c.addi4spn`: `rs1` is always the stack pointer in the decoded
    /// record.
    pub fn c_addi4spn(&mut self, rd: u8, rs1: u8, imm: u32) -> (r: StepResult)
        requires
            rd < 32,
            rs1 < 32,
        ensures
            same_but_regs(*old(self), *final(self)),
            final(self).regs@ == spec_write_reg(old(self).regs@, rd, wrap_add(old(self).regs@[rs1 as int], imm)),
            r == StepResult::Completed(2),
    {
        if rd != 0 {
            let a = self.regs[rs1 as usize];
            self.regs[rd as usize] = a.wrapping_add(imm);
        }
        StepResult::Completed(2)
    }

    pub fn c_lw<B: Bus>(&mut self, rd: u8, rs1: u8, imm: u32, bus: &mut B) -> (r: StepResult)
        requires
            rd < 32,
            rs1 < 32,
        ensures
            same_but_regs(*old(self), *final(self)),
            exists|v: u32| final(self).regs@ == spec_write_reg(old(self).regs@, rd, v),
            r == StepResult::Completed(2),
            ({
                let addr = wrap_add(old(self).regs@[rs1 as int], imm);
                old(bus).spec_in_ram(addr) && old(bus).spec_in_ram(wrap_add(addr, 1)) && old(bus).spec_in_ram(wrap_add(addr, 2)) && old(bus).spec_in_ram(wrap_add(addr, 3)) ==> *final(bus) == *old(bus) && final(self).regs@
                    == spec_write_reg(old(self).regs@, rd, spec_le32(old(bus).spec_ram(), addr as int, wrap_add(addr, 1) as int, wrap_add(addr, 2) as int, wrap_add(addr, 3) as int))
            }),
    {
        let addr = self.regs[rs1 as usize].wrapping_add(imm);
        let val = bus.read32(addr);
        if rd != 0 {
            self.regs[rd as usize] = val;
        }
        proof {
            assert(self.regs@ == spec_write_reg(old(self).regs@, rd, val));
        }
        StepResult::Completed(2)
    }

    pub fn c_sw<B: Bus>(&mut self, rs1: u8, rs2: u8, imm: u32, bus: &mut B) -> (r: StepResult)
        requires
            rs1 < 32,
            rs2 < 32,
            old(self).wf(),
        ensures
            final(self).wf(),
            final(self).regs@ == old(self).regs@,
            final(self).pc == old(self).pc,
            final(self).csr == old(self).csr,
            final(self).mode == old(self).mode,
            final(self).cache@ == spec_invalidate_page(old(self).cache@, wrap_add(old(self).regs@[rs1 as int], imm)),
            r == StepResult::Completed(2),
            ({
                let addr = wrap_add(old(self).regs@[rs1 as int], imm);
                old(bus).spec_in_ram(addr) && old(bus).spec_in_ram(wrap_add(addr, 1)) && old(bus).spec_in_ram(wrap_add(addr, 2)) && old(bus).spec_in_ram(wrap_add(addr, 3)) ==> final(bus).spec_ram() == old(bus).spec_ram().update(addr as int, (old(self).regs@[rs2 as int]) as u8).update(
                    wrap_add(addr, 1) as int,
                    ((old(self).regs@[rs2 as int]) >> 8) as u8,
                ).update(wrap_add(addr, 2) as int, ((old(self).regs@[rs2 as int]) >> 16) as u8).update(
                    wrap_add(addr, 3) as int,
                    ((old(self).regs@[rs2 as int]) >> 24) as u8,
                )
                    && B::spec_views_kept(*old(bus), *final(bus))
            }),
    {
        let addr = self.regs[rs1 as usize].wrapping_add(imm);
        let val = self.regs[rs2 as usize];
        bus.write32(addr, val);
        self.flush_cache_line(addr);
        StepResult::Completed(2)
    }

    pub fn c_addi(&mut self, rd: u8, imm: u32) -> (r: StepResult)
        requires
            rd < 32,
        ensures
            same_but_regs(*old(self), *final(self)),
            final(self).regs@ == spec_write_reg(old(self).regs@, rd, wrap_add(old(self).regs@[rd as int], imm)),
            r == StepResult::Completed(2),
    {
        if rd != 0 {
            let a = self.regs[rd as usize];
            self.regs[rd as usize] = a.wrapping_add(imm);
        }
        StepResult::Completed(2)
    }

    /// `c.jal`: link into `rd` (always x1 in the decoded record) and
    /// jump relative to the program counter.
    pub fn c_jal(&mut self, rd: u8, imm: u32) -> (r: StepResult)
        requires
            rd < 32,
        ensures
            same_but_regs_pc(*old(self), *final(self)),
            final(self).regs@ == spec_write_reg(old(self).regs@, rd, wrap_add(old(self).pc, 2)),
            final(self).pc == wrap_add(old(self).pc, imm),
            r == StepResult::Jumped,
    {
        if rd != 0 {
            self.regs[rd as usize] = self.pc.wrapping_add(2);
        }
        self.pc = self.pc.wrapping_add(imm);
        StepResult::Jumped
    }

    pub fn c_li(&mut self, rd: u8, imm: u32) -> (r: StepResult)
        requires
            rd < 32,
        ensures
            same_but_regs(*old(self), *final(self)),
            final(self).regs@ == spec_write_reg(old(self).regs@, rd, imm),
            r == StepResult::Completed(2),
    {
        if rd != 0 {
            self.regs[rd as usize] = imm;
        }
        StepResult::Completed(2)
    }

    /// `c.addi16sp`: adjust the stack pointer, x2.
    pub fn c_addi16sp(&mut self, imm: u32) -> (r: StepResult)
        ensures
            same_but_regs(*old(self), *final(self)),
            final(self).regs@ == spec_write_reg(
                old(self).regs@,
                2,
                wrap_add(old(self).regs@[2], imm),
            ),
            r == StepResult::Completed(2),
    {
        let a = self.regs[2];
        self.regs[2] = a.wrapping_add(imm);
        StepResult::Completed(2)
    }

    /// `c.lui`: the decoded record carries the immediate already shifted
    /// into bits 17..=12.
    pub fn c_lui(&mut self, rd: u8, imm: u32) -> (r: StepResult)
        requires
            rd < 32,
        ensures
            same_but_regs(*old(self), *final(self)),
            final(self).regs@ == spec_write_reg(old(self).regs@, rd, imm),
            r == StepResult::Completed(2),
    {
        if rd != 0 {
            self.regs[rd as usize] = imm;
        }
        StepResult::Completed(2)
    }

    pub fn c_srli(&mut self, rd: u8, shamt: u8) -> (r: StepResult)
        requires
            rd < 32,
            shamt < 32,
        ensures
            same_but_regs(*old(self), *final(self)),
            final(self).regs@ == spec_write_reg(
                old(self).regs@,
                rd,
                spec_srl(old(self).regs@[rd as int], shamt as u32),
            ),
            r == StepResult::Completed(2),
    {
        if rd != 0 {
            let a = self.regs[rd as usize];
            proof {
                lemma_mask5_id(shamt as u32);
            }
            self.regs[rd as usize] = a >> (shamt as u32);
        }
        StepResult::Completed(2)
    }

    pub fn c_srai(&mut self, rd: u8, shamt: u8) -> (r: StepResult)
        requires
            rd < 32,
            shamt < 32,
        ensures
            same_but_regs(*old(self), *final(self)),
            final(self).regs@ == spec_write_reg(
                old(self).regs@,
                rd,
                spec_sra(old(self).regs@[rd as int], shamt as u32),
            ),
            r == StepResult::Completed(2),
    {
        if rd != 0 {
            let a = self.regs[rd as usize];
            proof {
                lemma_mask5_id(shamt as u32);
                lemma_sra_cast(a, shamt as u32);
            }
            self.regs[rd as usize] = ((a as i32) >> (shamt as u32)) as u32;
        }
        StepResult::Completed(2)
    }

    pub fn c_andi(&mut self, rd: u8, imm: u32) -> (r: StepResult)
        requires
            rd < 32,
        ensures
            same_but_regs(*old(self), *final(self)),
            final(self).regs@ == spec_write_reg(old(self).regs@, rd, old(self).regs@[rd as int] & imm),
            r == StepResult::Completed(2),
    {
        if rd != 0 {
            let a = self.regs[rd as usize];
            self.regs[rd as usize] = a & imm;
        }
        StepResult::Completed(2)
    }

    pub fn c_sub(&mut self, rd: u8, rs2: u8) -> (r: StepResult)
        requires
            rd < 32,
            rs2 < 32,
        ensures
            same_but_regs(*old(self), *final(self)),
            final(self).regs@ == spec_write_reg(old(self).regs@, rd, wrap_sub(old(self).regs@[rd as int], old(self).regs@[rs2 as int])),
            r == StepResult::Completed(2),
    {
        if rd != 0 {
            let a = self.regs[rd as usize];
            let b = self.regs[rs2 as usize];
            self.regs[rd as usize] = a.wrapping_sub(b);
        }
        StepResult::Completed(2)
    }

    pub fn c_xor(&mut self, rd: u8, rs2: u8) -> (r: StepResult)
        requires
            rd < 32,
            rs2 < 32,
        ensures
            same_but_regs(*old(self), *final(self)),
            final(self).regs@ == spec_write_reg(old(self).regs@, rd, old(self).regs@[rd as int] ^ old(self).regs@[rs2 as int]),
            r == StepResult::Completed(2),
    {
        if rd != 0 {
            let a = self.regs[rd as usize];
            let b = self.regs[rs2 as usize];
            self.regs[rd as usize] = a ^ b;
        }
        StepResult::Completed(2)
    }

    pub fn c_or(&mut self, rd: u8, rs2: u8) -> (r: StepResult)
        requires
            rd < 32,
            rs2 < 32,
        ensures
            same_but_regs(*old(self), *final(self)),
            final(self).regs@ == spec_write_reg(old(self).regs@, rd, old(self).regs@[rd as int] | old(self).regs@[rs2 as int]),
            r == StepResult::Completed(2),
    {
        if rd != 0 {
            let a = self.regs[rd as usize];
            let b = self.regs[rs2 as usize];
            self.regs[rd as usize] = a | b;
        }
        StepResult::Completed(2)
    }

    pub fn c_and(&mut self, rd: u8, rs2: u8) -> (r: StepResult)
        requires
            rd < 32,
            rs2 < 32,
        ensures
            same_but_regs(*old(self), *final(self)),
            final(self).regs@ == spec_write_reg(old(self).regs@, rd, old(self).regs@[rd as int] & old(self).regs@[rs2 as int]),
            r == StepResult::Completed(2),
    {
        if rd != 0 {
            let a = self.regs[rd as usize];
            let b = self.regs[rs2 as usize];
            self.regs[rd as usize] = a & b;
        }
        StepResult::Completed(2)
    }

    pub fn c_add(&mut self, rd: u8, rs2: u8) -> (r: StepResult)
        requires
            rd < 32,
            rs2 < 32,
        ensures
            same_but_regs(*old(self), *final(self)),
            final(self).regs@ == spec_write_reg(old(self).regs@, rd, wrap_add(old(self).regs@[rd as int], old(self).regs@[rs2 as int])),
            r == StepResult::Completed(2),
    {
        if rd != 0 {
            let a = self.regs[rd as usize];
            let b = self.regs[rs2 as usize];
            self.regs[rd as usize] = a.wrapping_add(b);
        }
        StepResult::Completed(2)
    }

    pub fn c_j(&mut self, imm: u32) -> (r: StepResult)
        ensures
            same_but_pc(*old(self), *final(self)),
            final(self).pc == wrap_add(old(self).pc, imm),
            r == StepResult::Jumped,
    {
        self.pc = self.pc.wrapping_add(imm);
        StepResult::Jumped
    }

    pub fn c_beqz(&mut self, rs1: u8, imm: u32) -> (r: StepResult)
        requires
            rs1 < 32,
        ensures
            same_but_pc(*old(self), *final(self)),
            old(self).regs@[rs1 as int] == 0 ==> final(self).pc == wrap_add(old(self).pc, imm) && r == StepResult::Jumped,
            old(self).regs@[rs1 as int] != 0 ==> final(self).pc == old(self).pc && r == StepResult::Completed(2),
    {
        if self.regs[rs1 as usize] == 0 {
            self.pc = self.pc.wrapping_add(imm);
            StepResult::Jumped
        } else {
            StepResult::Completed(2)
        }
    }

    pub fn c_bnez(&mut self, rs1: u8, imm: u32) -> (r: StepResult)
        requires
            rs1 < 32,
        ensures
            same_but_pc(*old(self), *final(self)),
            old(self).regs@[rs1 as int] != 0 ==> final(self).pc == wrap_add(old(self).pc, imm) && r == StepResult::Jumped,
            old(self).regs@[rs1 as int] == 0 ==> final(self).pc == old(self).pc && r == StepResult::Completed(2),
    {
        if self.regs[rs1 as usize] != 0 {
            self.pc = self.pc.wrapping_add(imm);
            StepResult::Jumped
        } else {
            StepResult::Completed(2)
        }
    }

    /// The rd = 0 form is reserved: it traps here, with its own
    /// encoding as the faulting value.
    pub fn c_slli(&mut self, rd: u8, shamt: u8) -> (r: StepResult)
        requires
            rd < 32,
            shamt < 32,
        ensures
            rd != 0 ==> {
                &&& same_but_regs(*old(self), *final(self))
                &&& final(self).regs@ == spec_write_reg(
                    old(self).regs@,
                    rd,
                    spec_sll(old(self).regs@[rd as int], shamt as u32),
                )
                &&& r == StepResult::Completed(2)
            },
            rd == 0 ==> *final(self) == spec_trap(
                *old(self),
                2,
                ((shamt as u32) << 2) | 0b10,
            ) && r == StepResult::Trap(2),
    {
        if rd == 0 {
            let bits = ((shamt as u32) << 2) | 0b10;
            return self.handle_trap(2, bits);
        }
        let a = self.regs[rd as usize];
        proof {
            lemma_mask5_id(shamt as u32);
        }
        self.regs[rd as usize] = a << (shamt as u32);
        StepResult::Completed(2)
    }

    /// `c.lwsp`: load a word from a stack-pointer offset.
    pub fn c_lwsp<B: Bus>(&mut self, rd: u8, imm: u32, bus: &mut B) -> (r: StepResult)
        requires
            rd < 32,
        ensures
            same_but_regs(*old(self), *final(self)),
            exists|v: u32| final(self).regs@ == spec_write_reg(old(self).regs@, rd, v),
            r == StepResult::Completed(2),
            ({
                let addr = wrap_add(old(self).regs@[2], imm);
                old(bus).spec_in_ram(addr) && old(bus).spec_in_ram(wrap_add(addr, 1)) && old(bus).spec_in_ram(wrap_add(addr, 2)) && old(bus).spec_in_ram(wrap_add(addr, 3)) ==> *final(bus) == *old(bus) && final(self).regs@
                    == spec_write_reg(old(self).regs@, rd, spec_le32(old(bus).spec_ram(), addr as int, wrap_add(addr, 1) as int, wrap_add(addr, 2) as int, wrap_add(addr, 3) as int))
            }),
    {
        let addr = self.regs[2].wrapping_add(imm);
        let val = bus.read32(addr);
        if rd != 0 {
            self.regs[rd as usize] = val;
        }
        proof {
            assert(self.regs@ == spec_write_reg(old(self).regs@, rd, val));
        }
        StepResult::Completed(2)
    }

    /// `c.swsp`: store a word at a stack-pointer offset.
    pub fn c_swsp<B: Bus>(&mut self, rs2: u8, imm: u32, bus: &mut B) -> (r: StepResult)
        requires
            rs2 < 32,
            old(self).wf(),
        ensures
            final(self).wf(),
            final(self).regs@ == old(self).regs@,
            final(self).pc == old(self).pc,
            final(self).csr == old(self).csr,
            final(self).mode == old(self).mode,
            final(self).cache@ == spec_invalidate_page(
                old(self).cache@,
                wrap_add(old(self).regs@[2], imm),
            ),
            r == StepResult::Completed(2),
            ({
                let addr = wrap_add(old(self).regs@[2], imm);
                old(bus).spec_in_ram(addr) && old(bus).spec_in_ram(wrap_add(addr, 1)) && old(bus).spec_in_ram(wrap_add(addr, 2)) && old(bus).spec_in_ram(wrap_add(addr, 3)) ==> final(bus).spec_ram() == old(bus).spec_ram().update(addr as int, (old(self).regs@[rs2 as int]) as u8).update(
                    wrap_add(addr, 1) as int,
                    ((old(self).regs@[rs2 as int]) >> 8) as u8,
                ).update(wrap_add(addr, 2) as int, ((old(self).regs@[rs2 as int]) >> 16) as u8).update(
                    wrap_add(addr, 3) as int,
                    ((old(self).regs@[rs2 as int]) >> 24) as u8,
                )
                    && B::spec_views_kept(*old(bus), *final(bus))
            }),
    {
        let addr = self.regs[2].wrapping_add(imm);
        let val = self.regs[rs2 as usize];
        bus.write32(addr, val);
        self.flush_cache_line(addr);
        StepResult::Completed(2)
    }

    /// `c.jr`: jump to the register with bit 0 cleared.
    pub fn c_jr(&mut self, rs1: u8) -> (r: StepResult)
        requires
            rs1 < 32,
        ensures
            same_but_pc(*old(self), *final(self)),
            final(self).pc == (old(self).regs@[rs1 as int] & !1u32),
            r == StepResult::Jumped,
    {
        self.pc = self.regs[rs1 as usize] & !1u32;
        StepResult::Jumped
    }

    pub fn c_mv(&mut self, rd: u8, rs2: u8) -> (r: StepResult)
        requires
            rd < 32,
            rs2 < 32,
        ensures
            same_but_regs(*old(self), *final(self)),
            final(self).regs@ == spec_write_reg(old(self).regs@, rd, old(self).regs@[rs2 as int]),
            r == StepResult::Completed(2),
    {
        if rd != 0 {
            self.regs[rd as usize] = self.regs[rs2 as usize];
        }
        StepResult::Completed(2)
    }

    /// `c.jalr`: link the next halfword address into x1 and jump to the
    /// register with bit 0 cleared; the target is read before the link
    /// is written.
    pub fn c_jalr(&mut self, rs1: u8) -> (r: StepResult)
        requires
            rs1 < 32,
        ensures
            same_but_regs_pc(*old(self), *final(self)),
            final(self).regs@ == old(self).regs@.update(1, wrap_add(old(self).pc, 2)),
            final(self).pc == (old(self).regs@[rs1 as int] & !1u32),
            r == StepResult::Jumped,
    {
        let next_pc = self.pc.wrapping_add(2);
        self.pc = self.regs[rs1 as usize] & !1u32;
        self.regs[1] = next_pc;
        StepResult::Jumped
    }

    /// Execute one well-formed decoded record. The sentinel records
    /// never reach this dispatcher: the step loop re-decodes `Absent`
    /// and `Illegal` slots from memory and raises the
    /// illegal-instruction trap itself, with the offending bits.
    #[verifier::rlimit(100)]
    #[verifier::spinoff_prover]
    pub fn execute<B: Bus>(&mut self, inst: Instruction, bus: &mut B) -> (r: StepResult)
        requires
            inst_wf(inst),
            old(self).wf(),
            !(inst is Absent),
            !(inst is Illegal),
        ensures
            final(self).wf(),
            final(self).regs@[0] == old(self).regs@[0],
            match r {
                StepResult::Completed(sz) => {
                    &&& sz == spec_inst_size(inst)
                    &&& final(self).pc == old(self).pc
                    &&& final(self).mode == old(self).mode
                    &&& spec_completed_transition(*old(self), *final(self), inst)
                },
                StepResult::Trap(cause) => {
                    &&& (cause == 2 || cause == 3 || cause == 8 || cause == 9 || cause == 11)
                    &&& final(self).csr.mcause == cause
                    &&& final(self).csr.mepc == old(self).pc
                    &&& final(self).mode == PrivilegeMode::Machine
                    &&& final(self).csr.mtvec == old(self).csr.mtvec
                    &&& final(self).pc == spec_trap_target(old(self).csr.mtvec, cause)
                    &&& final(self).regs@ == old(self).regs@
                    &&& exists|mtval: u32| *final(self) == spec_trap(*old(self), cause, mtval)
                },
                StepResult::Jumped => spec_jump_transition(*old(self), *final(self), inst),
            },
            r is Trap ==> inst is Ecall || inst is Ebreak || inst is Mret || inst is CSlli
                || inst is Csrrw || inst is Csrrs || inst is Csrrc || inst is Csrrwi
                || inst is Csrrsi || inst is Csrrci,
            inst is Ecall ==> r == StepResult::Trap(spec_ecall_cause(old(self).mode)) && final(self).csr.mtval == 0,
            inst is Ebreak ==> r == StepResult::Trap(3) && final(self).csr.mtval == 0,
    {
        match inst {
            Instruction::Lui { rd, imm } => self.lui(rd, imm),
            Instruction::Auipc { rd, imm } => self.auipc(rd, imm),
            Instruction::Jal { rd, imm } => self.jal(rd, imm),
            Instruction::Jalr { rd, rs1, imm } => self.jalr(rd, rs1, imm),
            Instruction::Beq { rs1, rs2, imm } => self.beq(rs1, rs2, imm),
            Instruction::Bne { rs1, rs2, imm } => self.bne(rs1, rs2, imm),
            Instruction::Blt { rs1, rs2, imm } => self.blt(rs1, rs2, imm),
            Instruction::Bge { rs1, rs2, imm } => self.bge(rs1, rs2, imm),
            Instruction::Bltu { rs1, rs2, imm } => self.bltu(rs1, rs2, imm),
            Instruction::Bgeu { rs1, rs2, imm } => self.bgeu(rs1, rs2, imm),
            Instruction::Lb { rd, rs1, imm } => self.lb(rd, rs1, imm, bus),
            Instruction::Lh { rd, rs1, imm } => self.lh(rd, rs1, imm, bus),
            Instruction::Lw { rd, rs1, imm } => self.lw(rd, rs1, imm, bus),
            Instruction::Lbu { rd, rs1, imm } => self.lbu(rd, rs1, imm, bus),
            Instruction::Lhu { rd, rs1, imm } => self.lhu(rd, rs1, imm, bus),
            Instruction::Sb { rs1, rs2, imm } => self.sb(rs1, rs2, imm, bus),
            Instruction::Sh { rs1, rs2, imm } => self.sh(rs1, rs2, imm, bus),
            Instruction::Sw { rs1, rs2, imm } => self.sw(rs1, rs2, imm, bus),
            Instruction::Addi { rd, rs1, imm } => self.addi(rd, rs1, imm),
            Instruction::Slti { rd, rs1, imm } => self.slti(rd, rs1, imm),
            Instruction::Sltiu { rd, rs1, imm } => self.sltiu(rd, rs1, imm),
            Instruction::Xori { rd, rs1, imm } => self.xori(rd, rs1, imm),
            Instruction::Ori { rd, rs1, imm } => self.ori(rd, rs1, imm),
            Instruction::Andi { rd, rs1, imm } => self.andi(rd, rs1, imm),
            Instruction::Slli { rd, rs1, shamt } => self.slli(rd, rs1, shamt),
            Instruction::Srli { rd, rs1, shamt } => self.srli(rd, rs1, shamt),
            Instruction::Srai { rd, rs1, shamt } => self.srai(rd, rs1, shamt),
            Instruction::Add { rd, rs1, rs2 } => self.add(rd, rs1, rs2),
            Instruction::Sub { rd, rs1, rs2 } => self.sub(rd, rs1, rs2),
            Instruction::Sll { rd, rs1, rs2 } => self.sll(rd, rs1, rs2),
            Instruction::Slt { rd, rs1, rs2 } => self.slt(rd, rs1, rs2),
            Instruction::Sltu { rd, rs1, rs2 } => self.sltu(rd, rs1, rs2),
            Instruction::Xor { rd, rs1, rs2 } => self.xor(rd, rs1, rs2),
            Instruction::Srl { rd, rs1, rs2 } => self.srl(rd, rs1, rs2),
            Instruction::Sra { rd, rs1, rs2 } => self.sra(rd, rs1, rs2),
            Instruction::Or { rd, rs1, rs2 } => self.or(rd, rs1, rs2),
            Instruction::And { rd, rs1, rs2 } => self.and(rd, rs1, rs2),
            Instruction::Fence => self.fence(),
            Instruction::FenceI => self.fence_i(),
            Instruction::Wfi => self.wfi(),
            Instruction::Ecall => self.ecall(),
            Instruction::Ebreak => self.ebreak(),
            Instruction::Mret => self.mret(),
            Instruction::Mul { rd, rs1, rs2 } => self.mul(rd, rs1, rs2),
            Instruction::Mulh { rd, rs1, rs2 } => self.mulh(rd, rs1, rs2),
            Instruction::Mulhsu { rd, rs1, rs2 } => self.mulhsu(rd, rs1, rs2),
            Instruction::Mulhu { rd, rs1, rs2 } => self.mulhu(rd, rs1, rs2),
            Instruction::Div { rd, rs1, rs2 } => self.div(rd, rs1, rs2),
            Instruction::Divu { rd, rs1, rs2 } => self.divu(rd, rs1, rs2),
            Instruction::Rem { rd, rs1, rs2 } => self.rem(rd, rs1, rs2),
            Instruction::Remu { rd, rs1, rs2 } => self.remu(rd, rs1, rs2),
            Instruction::CAddi4spn { rd, rs1, imm } => self.c_addi4spn(rd, rs1, imm),
            Instruction::CLw { rd, rs1, imm } => self.c_lw(rd, rs1, imm, bus),
            Instruction::CSw { rs1, rs2, imm } => self.c_sw(rs1, rs2, imm, bus),
            Instruction::CAddi { rd, imm } => self.c_addi(rd, imm),
            Instruction::CJal { rd, imm } => self.c_jal(rd, imm),
            Instruction::CLi { rd, imm } => self.c_li(rd, imm),
            Instruction::CLui { rd, imm } => self.c_lui(rd, imm),
            Instruction::CAddi16Sp { imm, .. } => self.c_addi16sp(imm),
            Instruction::CSrli { rd, shamt } => self.c_srli(rd, shamt),
            Instruction::CSrai { rd, shamt } => self.c_srai(rd, shamt),
            Instruction::CAndi { rd, imm } => self.c_andi(rd, imm),
            Instruction::CSub { rd, rs2 } => self.c_sub(rd, rs2),
            Instruction::CXor { rd, rs2 } => self.c_xor(rd, rs2),
            Instruction::COr { rd, rs2 } => self.c_or(rd, rs2),
            Instruction::CAnd { rd, rs2 } => self.c_and(rd, rs2),
            Instruction::CJ { imm } => self.c_j(imm),
            Instruction::CBeqz { rs1, imm } => self.c_beqz(rs1, imm),
            Instruction::CBnez { rs1, imm } => self.c_bnez(rs1, imm),
            Instruction::CSlli { rd, shamt } => self.c_slli(rd, shamt),
            Instruction::CLwsp { rd, imm } => self.c_lwsp(rd, imm, bus),
            Instruction::CJr { rs1 } => self.c_jr(rs1),
            Instruction::CMv { rd, rs2 } => self.c_mv(rd, rs2),
            Instruction::CJalr { rs1 } => self.c_jalr(rs1),
            Instruction::CAdd { rd, rs2 } => self.c_add(rd, rs2),
            Instruction::CSwsp { rs2, imm } => self.c_swsp(rs2, imm, bus),
            Instruction::Csrrw { csr, rd, rs1 } => self.csrrw(csr, rd, rs1),
            Instruction::Csrrs { csr, rd, rs1 } => self.csrrs(csr, rd, rs1),
            Instruction::Csrrc { csr, rd, rs1 } => self.csrrc(csr, rd, rs1),
            Instruction::Csrrwi { csr, rd, uimm } => self.csrrwi(csr, rd, uimm),
            Instruction::Csrrsi { csr, rd, uimm } => self.csrrsi(csr, rd, uimm),
            Instruction::Csrrci { csr, rd, uimm } => self.csrrci(csr, rd, uimm),
            Instruction::Absent => self.handle_trap(2, 0),
            Instruction::Illegal => self.handle_trap(2, 0),
        }
    }
}

} // verus!
