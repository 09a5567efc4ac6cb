//! Bit-exact field and immediate extraction for the 32-bit and 16-bit
//! instruction forms. Immediates are returned already sign-extended to
//! 32 bits where the encoding is signed.

use vstd::prelude::*;

verus! {

// ------------------------------------------------------------------
// 32-bit instruction fields
// ------------------------------------------------------------------
pub open spec fn spec_opcode_field(bits: u32) -> u32 {
    bits & 0x7f
}

#[verifier::when_used_as_spec(spec_opcode_field)]
pub fn opcode_field(bits: u32) -> (r: u32)
    ensures
        r == spec_opcode_field(bits),
{
    bits & 0x7f
}

pub open spec fn spec_funct3_field(bits: u32) -> u32 {
    (bits >> 12) & 0x7
}

#[verifier::when_used_as_spec(spec_funct3_field)]
pub fn funct3_field(bits: u32) -> (r: u32)
    ensures
        r == spec_funct3_field(bits),
{
    (bits >> 12) & 0x7
}

pub open spec fn spec_funct7_field(bits: u32) -> u32 {
    (bits >> 25) & 0x7f
}

#[verifier::when_used_as_spec(spec_funct7_field)]
pub fn funct7_field(bits: u32) -> (r: u32)
    ensures
        r == spec_funct7_field(bits),
{
    (bits >> 25) & 0x7f
}

pub open spec fn spec_rd_field(bits: u32) -> u8 {
    ((bits >> 7) & 0x1f) as u8
}

#[verifier::when_used_as_spec(spec_rd_field)]
pub fn rd_field(bits: u32) -> (r: u8)
    ensures
        r == spec_rd_field(bits),
{
    ((bits >> 7) & 0x1f) as u8
}

pub open spec fn spec_rs1_field(bits: u32) -> u8 {
    ((bits >> 15) & 0x1f) as u8
}

#[verifier::when_used_as_spec(spec_rs1_field)]
pub fn rs1_field(bits: u32) -> (r: u8)
    ensures
        r == spec_rs1_field(bits),
{
    ((bits >> 15) & 0x1f) as u8
}

pub open spec fn spec_rs2_field(bits: u32) -> u8 {
    ((bits >> 20) & 0x1f) as u8
}

#[verifier::when_used_as_spec(spec_rs2_field)]
pub fn rs2_field(bits: u32) -> (r: u8)
    ensures
        r == spec_rs2_field(bits),
{
    ((bits >> 20) & 0x1f) as u8
}

pub open spec fn spec_csr_field(bits: u32) -> u16 {
    ((bits >> 20) & 0xfff) as u16
}

#[verifier::when_used_as_spec(spec_csr_field)]
pub fn csr_field(bits: u32) -> (r: u16)
    ensures
        r == spec_csr_field(bits),
{
    ((bits >> 20) & 0xfff) as u16
}

/// The I-type immediate, bits 31..=20, sign-extended from bit 11.
pub open spec fn spec_imm_i(bits: u32) -> u32 {
    let raw = bits >> 20;
    if raw & 0x800 != 0 {
        raw | 0xffff_f000
    } else {
        raw
    }
}

#[verifier::when_used_as_spec(spec_imm_i)]
pub fn imm_i(bits: u32) -> (r: u32)
    ensures
        r == spec_imm_i(bits),
{
    let raw = bits >> 20;
    if raw & 0x800 != 0 {
        raw | 0xffff_f000
    } else {
        raw
    }
}

/// The U-type immediate: the upper 20 bits in place.
pub open spec fn spec_imm_u(bits: u32) -> u32 {
    bits & 0xffff_f000
}

#[verifier::when_used_as_spec(spec_imm_u)]
pub fn imm_u(bits: u32) -> (r: u32)
    ensures
        r == spec_imm_u(bits),
{
    bits & 0xffff_f000
}

/// The J-type immediate, sign-extended from bit 20; bit 0 is zero.
pub open spec fn spec_imm_j(bits: u32) -> u32 {
    let i20 = (bits >> 31) & 0x1;
    let i10_1 = (bits >> 21) & 0x3ff;
    let i11 = (bits >> 20) & 0x1;
    let i19_12 = (bits >> 12) & 0xff;
    let v = (i20 << 20) | (i19_12 << 12) | (i11 << 11) | (i10_1 << 1);
    if i20 != 0 {
        v | 0xffe0_0000
    } else {
        v
    }
}

#[verifier::when_used_as_spec(spec_imm_j)]
pub fn imm_j(bits: u32) -> (r: u32)
    ensures
        r == spec_imm_j(bits),
{
    let i20 = (bits >> 31) & 0x1;
    let i10_1 = (bits >> 21) & 0x3ff;
    let i11 = (bits >> 20) & 0x1;
    let i19_12 = (bits >> 12) & 0xff;
    let v = (i20 << 20) | (i19_12 << 12) | (i11 << 11) | (i10_1 << 1);
    if i20 != 0 {
        v | 0xffe0_0000
    } else {
        v
    }
}

/// The B-type immediate, sign-extended from bit 12; bit 0 is zero.
pub open spec fn spec_imm_b(bits: u32) -> u32 {
    let i12 = (bits >> 31) & 0x1;
    let i10_5 = (bits >> 25) & 0x3f;
    let i4_1 = (bits >> 8) & 0xf;
    let i11 = (bits >> 7) & 0x1;
    let v = (i12 << 12) | (i11 << 11) | (i10_5 << 5) | (i4_1 << 1);
    if i12 != 0 {
        v | 0xffff_e000
    } else {
        v
    }
}

#[verifier::when_used_as_spec(spec_imm_b)]
pub fn imm_b(bits: u32) -> (r: u32)
    ensures
        r == spec_imm_b(bits),
{
    let i12 = (bits >> 31) & 0x1;
    let i10_5 = (bits >> 25) & 0x3f;
    let i4_1 = (bits >> 8) & 0xf;
    let i11 = (bits >> 7) & 0x1;
    let v = (i12 << 12) | (i11 << 11) | (i10_5 << 5) | (i4_1 << 1);
    if i12 != 0 {
        v | 0xffff_e000
    } else {
        v
    }
}

/// The S-type immediate, sign-extended from bit 11.
pub open spec fn spec_imm_s(bits: u32) -> u32 {
    let i11_5 = (bits >> 25) & 0x7f;
    let i4_0 = (bits >> 7) & 0x1f;
    let v = (i11_5 << 5) | i4_0;
    if v & 0x800 != 0 {
        v | 0xffff_f000
    } else {
        v
    }
}

#[verifier::when_used_as_spec(spec_imm_s)]
pub fn imm_s(bits: u32) -> (r: u32)
    ensures
        r == spec_imm_s(bits),
{
    let i11_5 = (bits >> 25) & 0x7f;
    let i4_0 = (bits >> 7) & 0x1f;
    let v = (i11_5 << 5) | i4_0;
    if v & 0x800 != 0 {
        v | 0xffff_f000
    } else {
        v
    }
}

// ------------------------------------------------------------------
// 16-bit (compressed) instruction fields
// ------------------------------------------------------------------
pub open spec fn spec_c_funct3_field(bits: u16) -> u16 {
    (bits >> 13) & 0x7
}

#[verifier::when_used_as_spec(spec_c_funct3_field)]
pub fn c_funct3_field(bits: u16) -> (r: u16)
    ensures
        r == spec_c_funct3_field(bits),
{
    (bits >> 13) & 0x7
}

/// A full five-bit register number at bits 11..=7.
pub open spec fn spec_c_rd_full(bits: u16) -> u8 {
    ((bits >> 7) & 0x1f) as u8
}

#[verifier::when_used_as_spec(spec_c_rd_full)]
pub fn c_rd_full(bits: u16) -> (r: u8)
    ensures
        r == spec_c_rd_full(bits),
{
    ((bits >> 7) & 0x1f) as u8
}

/// A full five-bit register number at bits 6..=2.
pub open spec fn spec_c_rs2_full(bits: u16) -> u8 {
    ((bits >> 2) & 0x1f) as u8
}

#[verifier::when_used_as_spec(spec_c_rs2_full)]
pub fn c_rs2_full(bits: u16) -> (r: u8)
    ensures
        r == spec_c_rs2_full(bits),
{
    ((bits >> 2) & 0x1f) as u8
}

/// A compressed three-bit register number at bits 4..=2 (x8..x15).
pub open spec fn spec_c_rd_prime(bits: u16) -> u8 {
    (((bits >> 2) & 0x7) + 8) as u8
}

#[verifier::when_used_as_spec(spec_c_rd_prime)]
pub fn c_rd_prime(bits: u16) -> (r: u8)
    ensures
        r == spec_c_rd_prime(bits),
{
    proof {
        lemma_prime_reg_u16(bits >> 2);
    }
    (((bits >> 2) & 0x7) + 8) as u8
}

/// A compressed three-bit register number at bits 9..=7 (x8..x15).
pub open spec fn spec_c_rs1_prime(bits: u16) -> u8 {
    (((bits >> 7) & 0x7) + 8) as u8
}

#[verifier::when_used_as_spec(spec_c_rs1_prime)]
pub fn c_rs1_prime(bits: u16) -> (r: u8)
    ensures
        r == spec_c_rs1_prime(bits),
{
    proof {
        lemma_prime_reg_u16(bits >> 7);
    }
    (((bits >> 7) & 0x7) + 8) as u8
}

/// The CI-form immediate `imm[5|4:0]`, sign-extended from bit 5.
pub open spec fn spec_imm_ci(bits: u16) -> u32 {
    let i5 = ((bits >> 12) & 0x1) as u32;
    let i4_0 = ((bits >> 2) & 0x1f) as u32;
    let v = (i5 << 5) | i4_0;
    if i5 != 0 {
        v | 0xffff_ffc0
    } else {
        v
    }
}

#[verifier::when_used_as_spec(spec_imm_ci)]
pub fn imm_ci(bits: u16) -> (r: u32)
    ensures
        r == spec_imm_ci(bits),
{
    let i5 = ((bits >> 12) & 0x1) as u32;
    let i4_0 = ((bits >> 2) & 0x1f) as u32;
    let v = (i5 << 5) | i4_0;
    if i5 != 0 {
        v | 0xffff_ffc0
    } else {
        v
    }
}

/// The CIW-form zero-extended immediate `nzuimm[5:4|9:6|2|3]`.
pub open spec fn spec_imm_ciw(bits: u16) -> u32 {
    let i5_4 = ((bits >> 11) & 0x3) as u32;
    let i9_6 = ((bits >> 7) & 0xf) as u32;
    let i2 = ((bits >> 6) & 0x1) as u32;
    let i3 = ((bits >> 5) & 0x1) as u32;
    (i5_4 << 4) | (i9_6 << 6) | (i2 << 2) | (i3 << 3)
}

#[verifier::when_used_as_spec(spec_imm_ciw)]
pub fn imm_ciw(bits: u16) -> (r: u32)
    ensures
        r == spec_imm_ciw(bits),
{
    let i5_4 = ((bits >> 11) & 0x3) as u32;
    let i9_6 = ((bits >> 7) & 0xf) as u32;
    let i2 = ((bits >> 6) & 0x1) as u32;
    let i3 = ((bits >> 5) & 0x1) as u32;
    (i5_4 << 4) | (i9_6 << 6) | (i2 << 2) | (i3 << 3)
}

/// The CL/CS-form zero-extended word offset `imm[5:3|2|6]`.
pub open spec fn spec_imm_cl(bits: u16) -> u32 {
    let i5_3 = ((bits >> 10) & 0x7) as u32;
    let i2 = ((bits >> 6) & 0x1) as u32;
    let i6 = ((bits >> 5) & 0x1) as u32;
    (i6 << 6) | (i5_3 << 3) | (i2 << 2)
}

#[verifier::when_used_as_spec(spec_imm_cl)]
pub fn imm_cl(bits: u16) -> (r: u32)
    ensures
        r == spec_imm_cl(bits),
{
    let i5_3 = ((bits >> 10) & 0x7) as u32;
    let i2 = ((bits >> 6) & 0x1) as u32;
    let i6 = ((bits >> 5) & 0x1) as u32;
    (i6 << 6) | (i5_3 << 3) | (i2 << 2)
}

/// The CJ-form jump offset `imm[11|4|9:8|10|6|7|3:1|5]`, sign-extended
/// from bit 11.
pub open spec fn spec_imm_cj(bits: u16) -> u32 {
    let i11 = ((bits >> 12) & 0x1) as u32;
    let i10 = ((bits >> 8) & 0x1) as u32;
    let i9_8 = ((bits >> 9) & 0x3) as u32;
    let i7 = ((bits >> 6) & 0x1) as u32;
    let i6 = ((bits >> 7) & 0x1) as u32;
    let i5 = ((bits >> 2) & 0x1) as u32;
    let i4 = ((bits >> 11) & 0x1) as u32;
    let i3_1 = ((bits >> 3) & 0x7) as u32;
    let v = (i11 << 11) | (i10 << 10) | (i9_8 << 8) | (i7 << 7) | (i6 << 6) | (i5 << 5) | (i4 << 4)
        | (i3_1 << 1);
    if i11 != 0 {
        v | 0xffff_f000
    } else {
        v
    }
}

#[verifier::when_used_as_spec(spec_imm_cj)]
pub fn imm_cj(bits: u16) -> (r: u32)
    ensures
        r == spec_imm_cj(bits),
{
    let i11 = ((bits >> 12) & 0x1) as u32;
    let i10 = ((bits >> 8) & 0x1) as u32;
    let i9_8 = ((bits >> 9) & 0x3) as u32;
    let i7 = ((bits >> 6) & 0x1) as u32;
    let i6 = ((bits >> 7) & 0x1) as u32;
    let i5 = ((bits >> 2) & 0x1) as u32;
    let i4 = ((bits >> 11) & 0x1) as u32;
    let i3_1 = ((bits >> 3) & 0x7) as u32;
    let v = (i11 << 11) | (i10 << 10) | (i9_8 << 8) | (i7 << 7) | (i6 << 6) | (i5 << 5) | (i4 << 4)
        | (i3_1 << 1);
    if i11 != 0 {
        v | 0xffff_f000
    } else {
        v
    }
}

/// The stack-pointer adjustment of `c.addi16sp`, `imm[9|4|6|8:7|5]`,
/// sign-extended from bit 9.
pub open spec fn spec_imm_c16sp(bits: u16) -> u32 {
    let i9 = ((bits >> 12) & 0x1) as u32;
    let i8_7 = ((bits >> 3) & 0x3) as u32;
    let i6 = ((bits >> 5) & 0x1) as u32;
    let i5 = ((bits >> 2) & 0x1) as u32;
    let i4 = ((bits >> 6) & 0x1) as u32;
    let v = (i9 << 9) | (i8_7 << 7) | (i6 << 6) | (i5 << 5) | (i4 << 4);
    if i9 != 0 {
        v | 0xffff_fc00
    } else {
        v
    }
}

#[verifier::when_used_as_spec(spec_imm_c16sp)]
pub fn imm_c16sp(bits: u16) -> (r: u32)
    ensures
        r == spec_imm_c16sp(bits),
{
    let i9 = ((bits >> 12) & 0x1) as u32;
    let i8_7 = ((bits >> 3) & 0x3) as u32;
    let i6 = ((bits >> 5) & 0x1) as u32;
    let i5 = ((bits >> 2) & 0x1) as u32;
    let i4 = ((bits >> 6) & 0x1) as u32;
    let v = (i9 << 9) | (i8_7 << 7) | (i6 << 6) | (i5 << 5) | (i4 << 4);
    if i9 != 0 {
        v | 0xffff_fc00
    } else {
        v
    }
}

/// The CB-form branch offset `imm[8|4:3|7:6|2:1|5]`, sign-extended from
/// bit 8.
pub open spec fn spec_imm_cb(bits: u16) -> u32 {
    let i8 = ((bits >> 12) & 0x1) as u32;
    let i4_3 = ((bits >> 10) & 0x3) as u32;
    let i7_6 = ((bits >> 5) & 0x3) as u32;
    let i2_1 = ((bits >> 3) & 0x3) as u32;
    let i5 = ((bits >> 2) & 0x1) as u32;
    let v = (i8 << 8) | (i7_6 << 6) | (i5 << 5) | (i4_3 << 3) | (i2_1 << 1);
    if i8 != 0 {
        v | 0xffff_fe00
    } else {
        v
    }
}

#[verifier::when_used_as_spec(spec_imm_cb)]
pub fn imm_cb(bits: u16) -> (r: u32)
    ensures
        r == spec_imm_cb(bits),
{
    let i8 = ((bits >> 12) & 0x1) as u32;
    let i4_3 = ((bits >> 10) & 0x3) as u32;
    let i7_6 = ((bits >> 5) & 0x3) as u32;
    let i2_1 = ((bits >> 3) & 0x3) as u32;
    let i5 = ((bits >> 2) & 0x1) as u32;
    let v = (i8 << 8) | (i7_6 << 6) | (i5 << 5) | (i4_3 << 3) | (i2_1 << 1);
    if i8 != 0 {
        v | 0xffff_fe00
    } else {
        v
    }
}

/// The `c.lwsp` zero-extended offset `imm[5|4:2|7:6]`.
pub open spec fn spec_imm_clwsp(bits: u16) -> u32 {
    let i5 = ((bits >> 12) & 0x1) as u32;
    let i4_2 = ((bits >> 4) & 0x7) as u32;
    let i7_6 = ((bits >> 2) & 0x3) as u32;
    (i5 << 5) | (i4_2 << 2) | (i7_6 << 6)
}

#[verifier::when_used_as_spec(spec_imm_clwsp)]
pub fn imm_clwsp(bits: u16) -> (r: u32)
    ensures
        r == spec_imm_clwsp(bits),
{
    let i5 = ((bits >> 12) & 0x1) as u32;
    let i4_2 = ((bits >> 4) & 0x7) as u32;
    let i7_6 = ((bits >> 2) & 0x3) as u32;
    (i5 << 5) | (i4_2 << 2) | (i7_6 << 6)
}

/// The `c.swsp` zero-extended offset `imm[5:2|7:6]`.
pub open spec fn spec_imm_cswsp(bits: u16) -> u32 {
    let i5_2 = ((bits >> 9) & 0xf) as u32;
    let i7_6 = ((bits >> 7) & 0x3) as u32;
    (i5_2 << 2) | (i7_6 << 6)
}

#[verifier::when_used_as_spec(spec_imm_cswsp)]
pub fn imm_cswsp(bits: u16) -> (r: u32)
    ensures
        r == spec_imm_cswsp(bits),
{
    let i5_2 = ((bits >> 9) & 0xf) as u32;
    let i7_6 = ((bits >> 7) & 0x3) as u32;
    (i5_2 << 2) | (i7_6 << 6)
}

/// A compressed shift amount: the five low bits at bits 6..=2.
pub open spec fn spec_c_shamt(bits: u16) -> u8 {
    ((bits >> 2) & 0x1f) as u8
}

#[verifier::when_used_as_spec(spec_c_shamt)]
pub fn c_shamt(bits: u16) -> (r: u8)
    ensures
        r == spec_c_shamt(bits),
{
    ((bits >> 2) & 0x1f) as u8
}

// ------------------------------------------------------------------
// Bounds that the masked fields always satisfy
// ------------------------------------------------------------------
pub proof fn lemma_mask5_u32(x: u32)
    ensures
        x & 0x1f < 32,
{
    assert(x & 0x1f < 32) by (bit_vector);
}

pub proof fn lemma_mask5_u16(x: u16)
    ensures
        x & 0x1f < 32,
{
    assert(x & 0x1f < 32) by (bit_vector);
}

pub proof fn lemma_prime_reg_u16(x: u16)
    ensures
        (x & 0x7) + 8 < 16,
{
    assert(x & 0x7 < 8) by (bit_vector);
}

} // verus!
