//! The conventional platform bus: flat RAM overlaid with the external
//! interrupt controller and the core-local interruptor windows.

use crate::bus::clint::Clint;
use crate::bus::plic::{spec_plic_read, spec_plic_write_rel, Plic};
use crate::bus::{lemma_le32_of_le16, lemma_le32_write_bytes, Bus};
use crate::cpu::arith::wrap_add;
use vstd::prelude::*;

verus! {

pub const PLIC_BASE: u32 = 0x0c00_0000;

pub const PLIC_SIZE: u32 = 0x0040_0000;

pub const CLINT_BASE: u32 = 0x0200_0000;

pub const CLINT_SIZE: u32 = 0x0001_0000;

pub struct DefaultBus {
    pub memory: Vec<u8>,
    pub plic: Plic,
    pub clint: Clint,
}

impl DefaultBus {
    /// A bus with `size` bytes of zeroed RAM and both controllers in
    /// their reset state.
    pub fn new(size: usize) -> (r: DefaultBus)
        ensures
            r.memory@.len() == size,
            forall|i: int| 0 <= i < size ==> r.memory@[i] == 0,
            r.plic.priorities@ == Seq::<u32>::new(32, |i: int| 0u32),
            r.plic.pending == 0 && r.plic.enabled == 0 && r.plic.threshold == 0
                && r.plic.claimed == 0 && r.plic.ip == 0,
            r.clint.msip == 0 && r.clint.mtimecmp == 0 && r.clint.mtime == 0,
    {
        DefaultBus { memory: vec![0u8; size], plic: Plic::new(), clint: Clint::new() }
    }

    /// Copy a program image into RAM starting at `offset`; bytes that
    /// would fall past the end of memory are dropped.
    pub fn load_bytes(&mut self, data: &Vec<u8>, offset: usize)
        ensures
            final(self).memory@.len() == old(self).memory@.len(),
            final(self).plic == old(self).plic,
            final(self).clint == old(self).clint,
            forall|i: int|
                0 <= i < final(self).memory@.len() ==> final(self).memory@[i] == if offset <= i
                    < offset + data@.len() {
                    data@[i - offset]
                } else {
                    old(self).memory@[i]
                },
    {
        let mem_len = self.memory.len();
        let mut i: usize = 0;
        while i < data.len()
            invariant
                i <= data@.len(),
                mem_len == self.memory@.len(),
                self.memory@.len() == old(self).memory@.len(),
                self.plic == old(self).plic,
                self.clint == old(self).clint,
                forall|k: int|
                    0 <= k < self.memory@.len() ==> self.memory@[k] == if offset <= k < offset
                        + i {
                        data@[k - offset]
                    } else {
                        old(self).memory@[k]
                    },
            decreases data@.len() - i,
        {
            if offset <= usize::MAX - i {
                let dst = offset + i;
                if dst < self.memory.len() {
                    self.memory[dst] = data[i];
                }
            }
            i = i + 1;
            proof {
                assert forall|k: int| 0 <= k < self.memory@.len() implies self.memory@[k] == (
                if offset <= k < offset + i {
                    data@[k - offset]
                } else {
                    old(self).memory@[k]
                }) by {
                    assert(k < mem_len <= usize::MAX);
                }
            }
        }
    }
}

impl Bus for DefaultBus {
    open spec fn spec_ram(&self) -> Seq<u8> {
        self.memory@
    }

    open spec fn spec_in_ram(&self, addr: u32) -> bool {
        &&& addr < self.memory@.len()
        &&& !(PLIC_BASE <= addr < PLIC_BASE + PLIC_SIZE)
        &&& !(CLINT_BASE <= addr < CLINT_BASE + CLINT_SIZE)
    }

    open spec fn obeys_devices(&self) -> bool {
        true
    }

    open spec fn spec_plic(&self) -> Plic {
        self.plic
    }

    open spec fn spec_clint(&self) -> Clint {
        self.clint
    }

    /// Reads in a device window go to that device; all others read RAM,
    /// and out-of-range reads return zero.
    fn read8(&mut self, addr: u32) -> (r: u8)
        ensures
            PLIC_BASE <= addr < PLIC_BASE + PLIC_SIZE ==> ({
                let t = spec_plic_read(old(self).plic, (addr - PLIC_BASE) as u32);
                final(self).plic == t.0 && r == t.1 as u8 && final(self).memory@ == old(
                    self,
                ).memory@ && final(self).clint == old(self).clint
            }),
            CLINT_BASE <= addr < CLINT_BASE + CLINT_SIZE ==> r == old(self).clint.spec_read(
                (addr - CLINT_BASE) as u32,
            ) as u8 && *final(self) == *old(self),
    {
        if addr >= PLIC_BASE && addr < PLIC_BASE + PLIC_SIZE {
            self.plic.read(addr - PLIC_BASE) as u8
        } else if addr >= CLINT_BASE && addr < CLINT_BASE + CLINT_SIZE {
            self.clint.read(addr - CLINT_BASE) as u8
        } else {
            let i = addr as usize;
            if i < self.memory.len() {
                self.memory[i]
            } else {
                0
            }
        }
    }

    fn read16(&mut self, addr: u32) -> (r: u16)
        ensures
            PLIC_BASE <= addr < PLIC_BASE + PLIC_SIZE ==> ({
                let t = spec_plic_read(old(self).plic, (addr - PLIC_BASE) as u32);
                final(self).plic == t.0 && r == t.1 as u16 && final(self).memory@ == old(
                    self,
                ).memory@ && final(self).clint == old(self).clint
            }),
            CLINT_BASE <= addr < CLINT_BASE + CLINT_SIZE ==> r == old(self).clint.spec_read(
                (addr - CLINT_BASE) as u32,
            ) as u16 && *final(self) == *old(self),
    {
        if addr >= PLIC_BASE && addr < PLIC_BASE + PLIC_SIZE {
            self.plic.read(addr - PLIC_BASE) as u16
        } else if addr >= CLINT_BASE && addr < CLINT_BASE + CLINT_SIZE {
            self.clint.read(addr - CLINT_BASE) as u16
        } else {
            let lo = self.read8(addr) as u16;
            let hi = self.read8(addr.wrapping_add(1)) as u16;
            lo | (hi << 8)
        }
    }

    fn read32(&mut self, addr: u32) -> (r: u32)
        ensures
            PLIC_BASE <= addr < PLIC_BASE + PLIC_SIZE ==> ({
                let t = spec_plic_read(old(self).plic, (addr - PLIC_BASE) as u32);
                final(self).plic == t.0 && r == t.1 && final(self).memory@ == old(
                    self,
                ).memory@ && final(self).clint == old(self).clint
            }),
            CLINT_BASE <= addr < CLINT_BASE + CLINT_SIZE ==> r == old(self).clint.spec_read(
                (addr - CLINT_BASE) as u32,
            ) && *final(self) == *old(self),
    {
        if addr >= PLIC_BASE && addr < PLIC_BASE + PLIC_SIZE {
            self.plic.read(addr - PLIC_BASE)
        } else if addr >= CLINT_BASE && addr < CLINT_BASE + CLINT_SIZE {
            self.clint.read(addr - CLINT_BASE)
        } else {
            let lo = self.read16(addr) as u32;
            let hi = self.read16(addr.wrapping_add(2)) as u32;
            proof {
                let ram = old(self).spec_ram();
                if old(self).spec_in_ram(addr) && old(self).spec_in_ram(wrap_add(addr, 1))
                    && old(self).spec_in_ram(wrap_add(addr, 2)) && old(self).spec_in_ram(
                    wrap_add(addr, 3),
                ) {
                    lemma_le32_of_le16(
                        ram[addr as int],
                        ram[wrap_add(addr, 1) as int],
                        ram[wrap_add(addr, 2) as int],
                        ram[wrap_add(addr, 3) as int],
                    );
                }
            }
            lo | (hi << 16)
        }
    }

    /// Writes in a device window go to that device; all others write
    /// RAM, and out-of-range writes are ignored.
    fn write8(&mut self, addr: u32, val: u8)
        ensures
            PLIC_BASE <= addr < PLIC_BASE + PLIC_SIZE ==> spec_plic_write_rel(
                old(self).plic,
                final(self).plic,
                (addr - PLIC_BASE) as u32,
                val as u32,
            ) && final(self).memory@ == old(self).memory@ && final(self).clint == old(self).clint,
            CLINT_BASE <= addr < CLINT_BASE + CLINT_SIZE ==> final(self).clint == old(
                self,
            ).clint.spec_write((addr - CLINT_BASE) as u32, val as u32) && final(self).memory@ == old(
                self,
            ).memory@ && final(self).plic == old(self).plic,
    {
        if addr >= PLIC_BASE && addr < PLIC_BASE + PLIC_SIZE {
            self.plic.write(addr - PLIC_BASE, val as u32);
        } else if addr >= CLINT_BASE && addr < CLINT_BASE + CLINT_SIZE {
            self.clint.write(addr - CLINT_BASE, val as u32);
        } else {
            let i = addr as usize;
            if i < self.memory.len() {
                self.memory[i] = val;
            }
        }
    }

    fn write16(&mut self, addr: u32, val: u16)
        ensures
            PLIC_BASE <= addr < PLIC_BASE + PLIC_SIZE ==> spec_plic_write_rel(
                old(self).plic,
                final(self).plic,
                (addr - PLIC_BASE) as u32,
                val as u32,
            ) && final(self).memory@ == old(self).memory@ && final(self).clint == old(self).clint,
            CLINT_BASE <= addr < CLINT_BASE + CLINT_SIZE ==> final(self).clint == old(
                self,
            ).clint.spec_write((addr - CLINT_BASE) as u32, val as u32) && final(self).memory@ == old(
                self,
            ).memory@ && final(self).plic == old(self).plic,
    {
        if addr >= PLIC_BASE && addr < PLIC_BASE + PLIC_SIZE {
            self.plic.write(addr - PLIC_BASE, val as u32);
        } else if addr >= CLINT_BASE && addr < CLINT_BASE + CLINT_SIZE {
            self.clint.write(addr - CLINT_BASE, val as u32);
        } else {
            self.write8(addr, val as u8);
            self.write8(addr.wrapping_add(1), (val >> 8) as u8);
        }
    }

    fn write32(&mut self, addr: u32, val: u32)
        ensures
            PLIC_BASE <= addr < PLIC_BASE + PLIC_SIZE ==> spec_plic_write_rel(
                old(self).plic,
                final(self).plic,
                (addr - PLIC_BASE) as u32,
                val,
            ) && final(self).memory@ == old(self).memory@ && final(self).clint == old(self).clint,
            CLINT_BASE <= addr < CLINT_BASE + CLINT_SIZE ==> final(self).clint == old(
                self,
            ).clint.spec_write((addr - CLINT_BASE) as u32, val) && final(self).memory@ == old(
                self,
            ).memory@ && final(self).plic == old(self).plic,
    {
        if addr >= PLIC_BASE && addr < PLIC_BASE + PLIC_SIZE {
            self.plic.write(addr - PLIC_BASE, val);
        } else if addr >= CLINT_BASE && addr < CLINT_BASE + CLINT_SIZE {
            self.clint.write(addr - CLINT_BASE, val);
        } else {
            proof {
                lemma_le32_write_bytes(val);
            }
            self.write16(addr, val as u16);
            self.write16(addr.wrapping_add(2), (val >> 16) as u16);
        }
    }

    fn get_interrupt_level(&self) -> bool {
        self.plic.get_interrupt_level()
    }

    fn get_timer_interrupt_level(&self) -> bool {
        self.clint.get_timer_interrupt_level()
    }

    fn get_software_interrupt_level(&self) -> bool {
        self.clint.get_software_interrupt_level()
    }

    fn tick(&mut self) {
        self.clint.tick();
    }

    fn plic_claim(&mut self) -> u32 {
        self.plic.read(0x20_0004)
    }

    fn plic_complete(&mut self, source_id: u32) {
        self.plic.write(0x20_0004, source_id);
    }
}

} // verus!
