//! Core-local interruptor: a software-interrupt pending flag, a 64-bit
//! compare register, and a 64-bit counter that advances once per step.

use vstd::prelude::*;

verus! {

/// Register window offsets, from the window base:
/// `0x0000` software-interrupt pending (bit 0 effective),
/// `0x4000`/`0x4004` low and high halves of the compare register,
/// `0xbff8`/`0xbffc` low and high halves of the counter.
pub struct Clint {
    /// Software-interrupt pending; only the low bit is meaningful.
    pub msip: u32,
    /// Timer compare threshold.
    pub mtimecmp: u64,
    /// Counter, incremented once per step with wrapping semantics.
    pub mtime: u64,
}

/// The controller after one tick: the counter advances by one, wrapping
/// at 2^64.
pub open spec fn spec_clint_tick(c: Clint) -> Clint {
    Clint { mtime: ((c.mtime + 1) % 0x1_0000_0000_0000_0000) as u64, ..c }
}

impl Clint {
    pub fn new() -> (r: Clint)
        ensures
            r.msip == 0,
            r.mtimecmp == 0,
            r.mtime == 0,
    {
        Clint { msip: 0, mtimecmp: 0, mtime: 0 }
    }

    /// What a read at a given window offset returns.
    pub open spec fn spec_read(self, addr: u32) -> u32 {
        if addr == 0x0000 {
            self.msip
        } else if addr == 0x4000 {
            (self.mtimecmp & 0xffff_ffff) as u32
        } else if addr == 0x4004 {
            (self.mtimecmp >> 32) as u32
        } else if addr == 0xbff8 {
            (self.mtime & 0xffff_ffff) as u32
        } else if addr == 0xbffc {
            (self.mtime >> 32) as u32
        } else {
            0
        }
    }

    /// Reads outside the defined offsets return zero.
    pub fn read(&self, addr: u32) -> (r: u32)
        ensures
            r == self.spec_read(addr),
    {
        match addr {
            0x0000 => self.msip,
            0x4000 => (self.mtimecmp & 0xffff_ffff) as u32,
            0x4004 => (self.mtimecmp >> 32) as u32,
            0xbff8 => (self.mtime & 0xffff_ffff) as u32,
            0xbffc => (self.mtime >> 32) as u32,
            _ => 0,
        }
    }

    /// The controller state after a write at a given window offset.
    pub open spec fn spec_write(self, addr: u32, val: u32) -> Clint {
        if addr == 0x0000 {
            Clint { msip: val & 1, ..self }
        } else if addr == 0x4000 {
            Clint { mtimecmp: (self.mtimecmp & 0xffff_ffff_0000_0000) | (val as u64), ..self }
        } else if addr == 0x4004 {
            Clint { mtimecmp: (self.mtimecmp & 0xffff_ffff) | ((val as u64) << 32), ..self }
        } else if addr == 0xbff8 {
            Clint { mtime: (self.mtime & 0xffff_ffff_0000_0000) | (val as u64), ..self }
        } else if addr == 0xbffc {
            Clint { mtime: (self.mtime & 0xffff_ffff) | ((val as u64) << 32), ..self }
        } else {
            self
        }
    }

    /// Writes to one half of a 64-bit register preserve the other half;
    /// writes outside the defined offsets are ignored.
    pub fn write(&mut self, addr: u32, val: u32)
        ensures
            *final(self) == old(self).spec_write(addr, val),
    {
        match addr {
            0x0000 => {
                self.msip = val & 1;
            }
            0x4000 => {
                self.mtimecmp = (self.mtimecmp & 0xffff_ffff_0000_0000) | (val as u64);
            }
            0x4004 => {
                self.mtimecmp = (self.mtimecmp & 0xffff_ffff) | ((val as u64) << 32);
            }
            0xbff8 => {
                self.mtime = (self.mtime & 0xffff_ffff_0000_0000) | (val as u64);
            }
            0xbffc => {
                self.mtime = (self.mtime & 0xffff_ffff) | ((val as u64) << 32);
            }
            _ => {}
        }
    }

    /// Advance the counter by one. The increment wraps at 2^64: from
    /// `u64::MAX` the counter returns to zero.
    pub fn tick(&mut self)
        ensures
            *final(self) == spec_clint_tick(*old(self)),
            final(self).mtime == (old(self).mtime + 1) % 0x1_0000_0000_0000_0000,
    {
        self.mtime = self.mtime.wrapping_add(1);
    }

    /// The timer line is asserted exactly when the counter has reached
    /// the compare threshold.
    pub fn get_timer_interrupt_level(&self) -> (r: bool)
        ensures
            r == (self.mtime >= self.mtimecmp),
    {
        self.mtime >= self.mtimecmp
    }

    /// The software line is asserted exactly when the pending flag's
    /// low bit is one.
    pub fn get_software_interrupt_level(&self) -> (r: bool)
        ensures
            r == ((self.msip & 1) == 1),
    {
        (self.msip & 1) == 1
    }
}

} // verus!
