//! Trap entry: save the faulting state, mask interrupts, switch to
//! Machine mode and jump to the trap vector.

use crate::cpu::csr::Csr;
use crate::cpu::privilege_mode::PrivilegeMode;
use crate::cpu::{Cpu, StepResult};
use vstd::arithmetic::div_mod::lemma_add_mod_noop_right;
use vstd::prelude::*;

verus! {

/// Where trap entry sends the program counter: the vector base, or for
/// interrupts in vectored mode the base plus four times the cause,
/// modulo 2^32.
pub open spec fn spec_trap_target(mtvec: u32, cause: u32) -> u32 {
    let base = mtvec & !0b11u32;
    if (cause >> 31) & 1 == 1 && mtvec & 0b11 == 1 {
        (((base + 4 * (cause & 0x7fff_ffff)) % 0x1_0000_0000) as u32)
    } else {
        base
    }
}

/// The mstatus value after trap entry: MPIE takes the old MIE, MIE is
/// cleared, and MPP takes the mode the trap came from.
pub open spec fn spec_mstatus_on_trap(mstatus: u32, mode: PrivilegeMode) -> u32 {
    let mie = (mstatus >> 3) & 1;
    let a = (mstatus & !0x80u32) | (mie << 7);
    let b = a & !0x8u32;
    (b & !0x1800u32) | (mode.spec_code() << 11)
}

/// The whole hart state after trap entry with the given cause and
/// faulting value.
pub open spec fn spec_trap(pre: Cpu, cause: u32, mtval: u32) -> Cpu {
    Cpu {
        pc: spec_trap_target(pre.csr.mtvec, cause),
        mode: PrivilegeMode::Machine,
        csr: Csr {
            mepc: pre.pc,
            mcause: cause,
            mtval: mtval,
            mstatus: spec_mstatus_on_trap(pre.csr.mstatus, pre.mode),
            ..pre.csr
        },
        ..pre
    }
}

impl Cpu {
    /// Enter the trap pipeline: save the program counter in `mepc`, the
    /// cause in `mcause` and the faulting value in `mtval`; stack the
    /// interrupt-enable and privilege bits in `mstatus`; switch to
    /// Machine mode; and jump to the vector that `mtvec` selects.
    pub fn handle_trap(&mut self, exception_code: u32, mtval: u32) -> (r: StepResult)
        ensures
            *final(self) == spec_trap(*old(self), exception_code, mtval),
            r == StepResult::Trap(exception_code),
    {
        self.csr.mepc = self.pc;
        self.csr.mcause = exception_code;
        self.csr.mtval = mtval;

        let mie = (self.csr.mstatus >> 3) & 1;
        self.csr.mstatus = (self.csr.mstatus & !0x80u32) | (mie << 7);
        self.csr.mstatus = self.csr.mstatus & !0x8u32;

        let mpp = self.mode.code();
        self.csr.mstatus = (self.csr.mstatus & !0x1800u32) | (mpp << 11);

        self.mode = PrivilegeMode::Machine;

        let is_interrupt = (exception_code >> 31) & 1;
        let mtvec_mode = self.csr.mtvec & 0b11;
        let mtvec_base = self.csr.mtvec & !0b11u32;

        if is_interrupt == 1 && mtvec_mode == 1 {
            let code = exception_code & 0x7fff_ffff;
            self.pc = mtvec_base.wrapping_add(code.wrapping_mul(4));
            proof {
                lemma_add_mod_noop_right(
                    mtvec_base as int,
                    (code * 4) as int,
                    0x1_0000_0000,
                );
            }
        } else {
            self.pc = mtvec_base;
        }

        StepResult::Trap(exception_code)
    }
}

} // verus!
