//! Round-trip and boundary laws of the trap pipeline and the
//! arithmetic semantics, stated over the same spec functions the
//! execution contracts use.

use crate::cpu::arith::{spec_div, spec_rem, spec_sll, spec_sra, spec_srl};
use crate::cpu::execute::spec_mstatus_on_mret;
use crate::cpu::handle_trap::{spec_mstatus_on_trap, spec_trap};
use crate::cpu::privilege_mode::PrivilegeMode;
use crate::cpu::Cpu;
use vstd::prelude::*;

verus! {

/// Trap entry then `mret` restores the program counter to `mepc` and
/// the privilege to the mode the trap came from: after entry, `mepc`
/// holds the pre-trap program counter and the MPP field holds the
/// pre-trap mode, which is exactly where `mret` returns and the
/// privilege it restores; `mret` then clears MPP to User.
pub proof fn lemma_trap_entry_then_mret(pre: Cpu, cause: u32, mtval: u32)
    ensures
        spec_trap(pre, cause, mtval).mode is Machine,
        spec_trap(pre, cause, mtval).csr.mepc == pre.pc,
        PrivilegeMode::spec_from_code(
            (spec_trap(pre, cause, mtval).csr.mstatus >> 11) & 0b11,
        ) == pre.mode,
        (spec_mstatus_on_mret(spec_trap(pre, cause, mtval).csr.mstatus) >> 11) & 0b11 == 0,
{
    let ms = pre.csr.mstatus;
    let code = pre.mode.spec_code();
    let after = spec_mstatus_on_trap(ms, pre.mode);
    let b = ((ms & !0x80u32) | (((ms >> 3) & 1) << 7)) & !0x8u32;
    assert(after == (b & !0x1800u32) | (code << 11));
    assert(code <= 3 ==> (((b & !0x1800u32) | (code << 11)) >> 11) & 0b11 == code) by (bit_vector);
    let mpie = (after >> 7) & 1;
    let c = ((after & !0x8u32) | (mpie << 3)) | 0x80u32;
    assert(((c & !0x1800u32) >> 11) & 0b11 == 0) by (bit_vector);
}

/// A shift by 32 equals a shift by 0: only the low five bits of the
/// shift amount take part.
pub proof fn lemma_shift_by_32(a: u32)
    ensures
        spec_sll(a, 32) == spec_sll(a, 0),
        spec_srl(a, 32) == spec_srl(a, 0),
        spec_sra(a, 32) == spec_sra(a, 0),
{
    assert(32u32 & 0x1f == 0u32 && 0u32 & 0x1f == 0u32) by (bit_vector);
}

/// `div INT_MIN −1` returns `INT_MIN` itself — the one quotient that
/// does not fit is pinned, not left to host overflow — and the matching
/// remainder is 0.
pub proof fn lemma_div_overflow_pinned()
    ensures
        spec_div(0x8000_0000, 0xffff_ffff) == 0x8000_0000,
        spec_rem(0x8000_0000, 0xffff_ffff) == 0,
{
}

} // verus!
