//! The control/status register file: reads and writes addressed by a
//! 12-bit identifier, with read-only and write-mask rules.
//!
//! Privilege enforcement for CSR instructions lives in the execution
//! engine; the accessors here are the machine-level view, which is also
//! the direct passthrough a test harness uses.

use vstd::prelude::*;

verus! {

/// The fixed read-only ISA descriptor: RV32 base, I + M + C + U.
pub const MISA_VALUE: u32 = 0x4010_1104;

/// Only these mstatus bits are writable.
pub const MSTATUS_WRITE_MASK: u32 = 0x807E_1888;

pub struct Csr {
    /// Bit 3 = MIE, bit 7 = MPIE, bits 11..=12 = MPP.
    pub mstatus: u32,
    /// Trap vector base; low two bits select direct (0) or vectored (1) mode.
    pub mtvec: u32,
    /// Per-cause interrupt enable mask (bits 3, 7, 11 used).
    pub mie: u32,
    /// Program counter saved at trap entry.
    pub mepc: u32,
    /// Cause code of the last trap; high bit set for interrupts.
    pub mcause: u32,
    /// Faulting value of the last trap.
    pub mtval: u32,
    /// Per-cause interrupt pending mirror.
    pub mip: u32,
    /// Scratch register for trap handlers.
    pub mscratch: u32,
    /// Counter-access permission mask for lower privilege.
    pub mcounteren: u32,
    pub pmpcfg0: u32,
    pub pmpaddr0: u32,
    pub pmpaddr1: u32,
    pub pmpaddr2: u32,
    pub pmpaddr3: u32,
    pub satp: u32,
}

/// Whether `addr` names a register this file knows how to read.
pub open spec fn csr_readable(addr: u32) -> bool {
    ||| addr == 0x300 || addr == 0x301 || addr == 0x302 || addr == 0x303 || addr == 0x304
        || addr == 0x305 || addr == 0x306 || addr == 0x180 || addr == 0x340 || addr == 0x341
        || addr == 0x342 || addr == 0x343 || addr == 0x344 || addr == 0x3a0 || addr == 0x744
        || addr == 0x7a5
    ||| 0x3b0 <= addr <= 0x3b3
    ||| 0x7a0 <= addr <= 0x7a3
    ||| 0x320 <= addr <= 0x33f
    ||| 0xb00 <= addr <= 0xb1f
    ||| 0xb80 <= addr <= 0xb9f
    ||| 0xc00 <= addr <= 0xc1f
    ||| 0xc80 <= addr <= 0xc9f
    ||| 0xf11 <= addr <= 0xf14
}

/// What a read of `addr` returns, for readable addresses.
pub open spec fn spec_csr_read_value(s: Csr, addr: u32) -> u32 {
    if addr == 0x300 {
        s.mstatus
    } else if addr == 0x301 {
        MISA_VALUE
    } else if addr == 0x304 {
        s.mie
    } else if addr == 0x305 {
        s.mtvec
    } else if addr == 0x306 {
        s.mcounteren
    } else if addr == 0x180 {
        s.satp
    } else if addr == 0x340 {
        s.mscratch
    } else if addr == 0x341 {
        s.mepc
    } else if addr == 0x342 {
        s.mcause
    } else if addr == 0x343 {
        s.mtval
    } else if addr == 0x344 {
        s.mip
    } else if addr == 0x3a0 {
        s.pmpcfg0
    } else if addr == 0x3b0 {
        s.pmpaddr0
    } else if addr == 0x3b1 {
        s.pmpaddr1
    } else if addr == 0x3b2 {
        s.pmpaddr2
    } else if addr == 0x3b3 {
        s.pmpaddr3
    } else {
        0
    }
}

/// The mstatus value after writing `val`: only the bits of the write
/// mask change, and a previous-privilege field naming Supervisor or the
/// reserved encoding — modes this core does not return to — is forced
/// to User.
pub open spec fn spec_mstatus_after_write(old_val: u32, val: u32) -> u32 {
    let mpp = (val >> 11) & 0b11;
    let v = if mpp == 1 || mpp == 2 {
        val & !(0b11u32 << 11)
    } else {
        val
    };
    (old_val & !MSTATUS_WRITE_MASK) | (v & MSTATUS_WRITE_MASK)
}

/// Whether a write to `addr` is accepted. Addresses with bits 11..=10
/// both set are read-only; unknown addresses are rejected.
pub open spec fn csr_writable(addr: u32) -> bool {
    &&& (addr >> 10) & 0b11 != 0b11
    &&& {
        ||| addr == 0x300 || addr == 0x301 || addr == 0x302 || addr == 0x303 || addr == 0x304
            || addr == 0x305 || addr == 0x306 || addr == 0x180 || addr == 0x340 || addr == 0x341
            || addr == 0x342 || addr == 0x343 || addr == 0x344 || addr == 0x3a0 || addr == 0x744
            || addr == 0x7a5
        ||| 0x3b0 <= addr <= 0x3b3
        ||| 0x7a0 <= addr <= 0x7a3
        ||| 0x320 <= addr <= 0x33f
        ||| 0xb00 <= addr <= 0xb1f
        ||| 0xb80 <= addr <= 0xb9f
    }
}

/// The file's state after an accepted write of `val` to `addr`. Writes
/// to `misa` and to the always-zero registers are accepted and ignored.
pub open spec fn spec_csr_write(s: Csr, addr: u32, val: u32) -> Csr {
    if addr == 0x300 {
        Csr { mstatus: spec_mstatus_after_write(s.mstatus, val), ..s }
    } else if addr == 0x304 {
        Csr { mie: val, ..s }
    } else if addr == 0x305 {
        Csr { mtvec: val, ..s }
    } else if addr == 0x306 {
        Csr { mcounteren: val, ..s }
    } else if addr == 0x180 {
        Csr { satp: val, ..s }
    } else if addr == 0x340 {
        Csr { mscratch: val, ..s }
    } else if addr == 0x341 {
        Csr { mepc: val, ..s }
    } else if addr == 0x342 {
        Csr { mcause: val, ..s }
    } else if addr == 0x343 {
        Csr { mtval: val, ..s }
    } else if addr == 0x344 {
        Csr { mip: val, ..s }
    } else if addr == 0x3a0 {
        Csr { pmpcfg0: val, ..s }
    } else if addr == 0x3b0 {
        Csr { pmpaddr0: val, ..s }
    } else if addr == 0x3b1 {
        Csr { pmpaddr1: val, ..s }
    } else if addr == 0x3b2 {
        Csr { pmpaddr2: val, ..s }
    } else if addr == 0x3b3 {
        Csr { pmpaddr3: val, ..s }
    } else {
        s
    }
}

/// The reset state of the file: every register zero.
pub open spec fn spec_csr_reset() -> Csr {
    Csr {
        mstatus: 0,
        mtvec: 0,
        mie: 0,
        mepc: 0,
        mcause: 0,
        mtval: 0,
        mip: 0,
        mscratch: 0,
        mcounteren: 0,
        pmpcfg0: 0,
        pmpaddr0: 0,
        pmpaddr1: 0,
        pmpaddr2: 0,
        pmpaddr3: 0,
        satp: 0,
    }
}

impl Csr {
    pub fn new() -> (r: Csr)
        ensures
            r == spec_csr_reset(),
            r == (Csr {
                mstatus: 0,
                mtvec: 0,
                mie: 0,
                mepc: 0,
                mcause: 0,
                mtval: 0,
                mip: 0,
                mscratch: 0,
                mcounteren: 0,
                pmpcfg0: 0,
                pmpaddr0: 0,
                pmpaddr1: 0,
                pmpaddr2: 0,
                pmpaddr3: 0,
                satp: 0,
            }),
    {
        Csr {
            mstatus: 0,
            mtvec: 0,
            mie: 0,
            mepc: 0,
            mcause: 0,
            mtval: 0,
            mip: 0,
            mscratch: 0,
            mcounteren: 0,
            pmpcfg0: 0,
            pmpaddr0: 0,
            pmpaddr1: 0,
            pmpaddr2: 0,
            pmpaddr3: 0,
            satp: 0,
        }
    }

    /// Read a register; unknown addresses report an error.
    pub fn read(&self, addr: u32) -> (r: Result<u32, ()>)
        ensures
            csr_readable(addr) ==> r == Result::<u32, ()>::Ok(spec_csr_read_value(*self, addr)),
            !csr_readable(addr) ==> r == Result::<u32, ()>::Err(()),
    {
        if addr == 0x300 {
            Ok(self.mstatus)
        } else if addr == 0x301 {
            Ok(MISA_VALUE)
        } else if addr == 0x304 {
            Ok(self.mie)
        } else if addr == 0x305 {
            Ok(self.mtvec)
        } else if addr == 0x306 {
            Ok(self.mcounteren)
        } else if addr == 0x180 {
            Ok(self.satp)
        } else if addr == 0x340 {
            Ok(self.mscratch)
        } else if addr == 0x341 {
            Ok(self.mepc)
        } else if addr == 0x342 {
            Ok(self.mcause)
        } else if addr == 0x343 {
            Ok(self.mtval)
        } else if addr == 0x344 {
            Ok(self.mip)
        } else if addr == 0x3a0 {
            Ok(self.pmpcfg0)
        } else if addr == 0x3b0 {
            Ok(self.pmpaddr0)
        } else if addr == 0x3b1 {
            Ok(self.pmpaddr1)
        } else if addr == 0x3b2 {
            Ok(self.pmpaddr2)
        } else if addr == 0x3b3 {
            Ok(self.pmpaddr3)
        } else if addr == 0x302 || addr == 0x303 || addr == 0x744 || addr == 0x7a5 {
            Ok(0)
        } else if 0x7a0 <= addr && addr <= 0x7a3 {
            Ok(0)
        } else if 0x320 <= addr && addr <= 0x33f {
            Ok(0)
        } else if 0xb00 <= addr && addr <= 0xb1f {
            Ok(0)
        } else if 0xb80 <= addr && addr <= 0xb9f {
            Ok(0)
        } else if 0xc00 <= addr && addr <= 0xc1f {
            Ok(0)
        } else if 0xc80 <= addr && addr <= 0xc9f {
            Ok(0)
        } else if 0xf11 <= addr && addr <= 0xf14 {
            Ok(0)
        } else {
            Err(())
        }
    }

    /// Write a register; read-only and unknown addresses report an
    /// error and leave the file unchanged.
    pub fn write(&mut self, addr: u32, val: u32) -> (r: Result<(), ()>)
        ensures
            csr_writable(addr) ==> r == Result::<(), ()>::Ok(()) && *final(self) == spec_csr_write(
                *old(self),
                addr,
                val,
            ),
            !csr_writable(addr) ==> r == Result::<(), ()>::Err(()) && *final(self) == *old(self),
    {
        if (addr >> 10) & 0b11 == 0b11 {
            return Err(());
        }
        if addr == 0x300 {
            let mpp = (val >> 11) & 0b11;
            let v = if mpp == 1 || mpp == 2 {
                val & !(0b11u32 << 11)
            } else {
                val
            };
            self.mstatus = (self.mstatus & !MSTATUS_WRITE_MASK) | (v & MSTATUS_WRITE_MASK);
            Ok(())
        } else if addr == 0x304 {
            self.mie = val;
            Ok(())
        } else if addr == 0x305 {
            self.mtvec = val;
            Ok(())
        } else if addr == 0x306 {
            self.mcounteren = val;
            Ok(())
        } else if addr == 0x180 {
            self.satp = val;
            Ok(())
        } else if addr == 0x340 {
            self.mscratch = val;
            Ok(())
        } else if addr == 0x341 {
            self.mepc = val;
            Ok(())
        } else if addr == 0x342 {
            self.mcause = val;
            Ok(())
        } else if addr == 0x343 {
            self.mtval = val;
            Ok(())
        } else if addr == 0x344 {
            self.mip = val;
            Ok(())
        } else if addr == 0x3a0 {
            self.pmpcfg0 = val;
            Ok(())
        } else if addr == 0x3b0 {
            self.pmpaddr0 = val;
            Ok(())
        } else if addr == 0x3b1 {
            self.pmpaddr1 = val;
            Ok(())
        } else if addr == 0x3b2 {
            self.pmpaddr2 = val;
            Ok(())
        } else if addr == 0x3b3 {
            self.pmpaddr3 = val;
            Ok(())
        } else if addr == 0x301 || addr == 0x302 || addr == 0x303 || addr == 0x744 || addr
            == 0x7a5 {
            Ok(())
        } else if 0x7a0 <= addr && addr <= 0x7a3 {
            Ok(())
        } else if 0x320 <= addr && addr <= 0x33f {
            Ok(())
        } else if 0xb00 <= addr && addr <= 0xb1f {
            Ok(())
        } else if 0xb80 <= addr && addr <= 0xb9f {
            Ok(())
        } else {
            Err(())
        }
    }
}

/// The value the file actually stores when `val` is written to `addr`:
/// the write-through registers keep `val` itself, `mstatus` keeps the
/// masked combination, and the registers whose writes are ignored keep
/// what a read of them always returns.
pub open spec fn spec_csr_stored_value(s: Csr, addr: u32, val: u32) -> u32 {
    if addr == 0x300 {
        spec_mstatus_after_write(s.mstatus, val)
    } else if addr == 0x301 {
        MISA_VALUE
    } else if addr == 0x304 || addr == 0x305 || addr == 0x306 || addr == 0x180 || addr == 0x340
        || addr == 0x341 || addr == 0x342 || addr == 0x343 || addr == 0x344 || addr == 0x3a0 || (
    0x3b0 <= addr <= 0x3b3) {
        val
    } else {
        0
    }
}

/// A write then a read of the same register returns the value the file
/// stored — the masked combination, not necessarily the bits written.
pub proof fn lemma_csr_write_then_read(s: Csr, addr: u32, val: u32)
    requires
        csr_writable(addr),
    ensures
        csr_readable(addr),
        spec_csr_read_value(spec_csr_write(s, addr, val), addr) == spec_csr_stored_value(
            s,
            addr,
            val,
        ),
{
}

} // verus!
