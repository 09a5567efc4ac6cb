//! A plain-RAM bus for tests and examples: 8 KiB of memory, no devices.

pub use crate::bus::Bus;

use crate::bus::{lemma_le32_of_le16, lemma_le32_write_bytes};
use crate::cpu::arith::wrap_add;
use vstd::prelude::*;

verus! {

pub struct MockBus {
    pub memory: Vec<u8>,
}

impl MockBus {
    pub fn new() -> (r: MockBus)
        ensures
            r.memory@.len() == 8192,
            forall|i: int| 0 <= i < 8192 ==> r.memory@[i] == 0,
    {
        MockBus { memory: vec![0u8; 8192] }
    }

    /// Place a 32-bit instruction at `addr`, little-endian.
    pub fn write_inst32(&mut self, addr: u32, inst: u32)
        ensures
            (old(self).spec_in_ram(addr) && old(self).spec_in_ram(wrap_add(addr, 1)) && old(self).spec_in_ram(wrap_add(addr, 2)) && old(self).spec_in_ram(wrap_add(addr, 3)))
                ==> final(self).memory@ == old(self).memory@.update(
                addr as int,
                inst as u8,
            ).update(wrap_add(addr, 1) as int, (inst >> 8) as u8).update(
                wrap_add(addr, 2) as int,
                (inst >> 16) as u8,
            ).update(wrap_add(addr, 3) as int, (inst >> 24) as u8),
    {
        self.write32(addr, inst);
    }

    /// Place a 16-bit instruction at `addr`, little-endian.
    pub fn write_inst16(&mut self, addr: u32, inst: u16)
        ensures
            old(self).spec_in_ram(addr) && old(self).spec_in_ram(wrap_add(addr, 1)) ==> final(self).memory@ == old(self).memory@.update(addr as int, inst as u8).update(
                wrap_add(addr, 1) as int,
                (inst >> 8) as u8,
            ),
    {
        self.write16(addr, inst);
    }
}

impl Bus for MockBus {
    open spec fn spec_ram(&self) -> Seq<u8> {
        self.memory@
    }

    open spec fn spec_in_ram(&self, addr: u32) -> bool {
        addr < self.memory@.len()
    }

    /// Out-of-range reads return zero.
    fn read8(&mut self, addr: u32) -> u8 {
        let i = addr as usize;
        if i < self.memory.len() {
            self.memory[i]
        } else {
            0
        }
    }

    fn read16(&mut self, addr: u32) -> u16 {
        let lo = self.read8(addr) as u16;
        let hi = self.read8(addr.wrapping_add(1)) as u16;
        lo | (hi << 8)
    }

    fn read32(&mut self, addr: u32) -> u32 {
        let lo = self.read16(addr) as u32;
        let hi = self.read16(addr.wrapping_add(2)) as u32;
        proof {
            let ram = old(self).spec_ram();
            if old(self).spec_in_ram(addr) && old(self).spec_in_ram(wrap_add(addr, 1))
                && old(self).spec_in_ram(wrap_add(addr, 2)) && old(self).spec_in_ram(
                wrap_add(addr, 3),
            ) {
                lemma_le32_of_le16(
                    ram[addr as int],
                    ram[wrap_add(addr, 1) as int],
                    ram[wrap_add(addr, 2) as int],
                    ram[wrap_add(addr, 3) as int],
                );
            }
        }
        lo | (hi << 16)
    }

    /// Out-of-range writes are ignored.
    fn write8(&mut self, addr: u32, val: u8) {
        let i = addr as usize;
        if i < self.memory.len() {
            self.memory[i] = val;
        }
    }

    fn write16(&mut self, addr: u32, val: u16) {
        self.write8(addr, val as u8);
        self.write8(addr.wrapping_add(1), (val >> 8) as u8);
    }

    fn write32(&mut self, addr: u32, val: u32) {
        proof {
            lemma_le32_write_bytes(val);
        }
        self.write16(addr, val as u16);
        self.write16(addr.wrapping_add(2), (val >> 16) as u16);
    }

    /// This bus has no devices: the lines stay low, the clock goes
    /// nowhere, and claims return no source.
    fn get_interrupt_level(&self) -> bool {
        false
    }

    fn get_timer_interrupt_level(&self) -> bool {
        false
    }

    fn get_software_interrupt_level(&self) -> bool {
        false
    }

    fn tick(&mut self) {
    }

    fn plic_claim(&mut self) -> u32 {
        0
    }

    fn plic_complete(&mut self, source_id: u32) {
        let _ = source_id;
    }
}

} // verus!
