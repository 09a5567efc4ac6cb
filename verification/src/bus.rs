//! The bus: a uniform byte/half/word interface over the flat 32-bit
//! address space, with interrupt-line queries and a per-step tick.

pub mod clint;
pub mod default_bus;
pub mod mock_bus;
pub mod plic;

use crate::bus::clint::{spec_clint_tick, Clint};
use crate::bus::plic::{spec_claim, spec_complete, spec_plic_level, Plic};
use crate::cpu::arith::wrap_add;
use vstd::prelude::*;

verus! {

/// Two RAM bytes read little-endian.
pub open spec fn spec_le16(ram: Seq<u8>, a0: int, a1: int) -> u16 {
    (ram[a0] as u16) | ((ram[a1] as u16) << 8)
}

/// Four RAM bytes read little-endian.
pub open spec fn spec_le32(ram: Seq<u8>, a0: int, a1: int, a2: int, a3: int) -> u32 {
    (ram[a0] as u32) | ((ram[a1] as u32) << 8) | ((ram[a2] as u32) << 16) | ((
    ram[a3] as u32) << 24)
}

/// Composing two little-endian halfword reads gives the little-endian
/// word read.
pub proof fn lemma_le32_of_le16(b0: u8, b1: u8, b2: u8, b3: u8)
    ensures
        ((((b0 as u16) | ((b1 as u16) << 8)) as u32) | ((((b2 as u16) | ((b3 as u16) << 8))
            as u32) << 16)) == ((b0 as u32) | ((b1 as u32) << 8) | ((b2 as u32) << 16) | ((
        b3 as u32) << 24)),
{
    assert(((((b0 as u16) | ((b1 as u16) << 8)) as u32) | ((((b2 as u16) | ((b3 as u16) << 8))
        as u32) << 16)) == ((b0 as u32) | ((b1 as u32) << 8) | ((b2 as u32) << 16) | ((
    b3 as u32) << 24))) by (bit_vector);
}

/// Splitting a word write into two halfword writes lands the same four
/// bytes.
pub proof fn lemma_le32_write_bytes(val: u32)
    ensures
        #[verifier::truncate] ((val as u16) as u8) == #[verifier::truncate] (val as u8),
        #[verifier::truncate] (((val as u16) >> 8) as u8) == #[verifier::truncate] ((val
            >> 8) as u8),
        #[verifier::truncate] (((val >> 16) as u16) as u8) == #[verifier::truncate] ((val
            >> 16) as u8),
        #[verifier::truncate] ((((val >> 16) as u16) >> 8) as u8) == #[verifier::truncate] ((val
            >> 24) as u8),
{
    assert(#[verifier::truncate] ((val as u16) as u8) == #[verifier::truncate] (val as u8))
        by (bit_vector);
    assert(#[verifier::truncate] (((val as u16) >> 8) as u8) == #[verifier::truncate] ((val >> 8)
        as u8)) by (bit_vector);
    assert(#[verifier::truncate] (((val >> 16) as u16) as u8) == #[verifier::truncate] ((val >> 16)
        as u8)) by (bit_vector);
    assert(#[verifier::truncate] ((((val >> 16) as u16) >> 8) as u8) == #[verifier::truncate] ((val
        >> 24) as u8)) by (bit_vector);
}

/// Memory and device access as the core sees it. Concrete buses overlay
/// RAM with memory-mapped device windows.
///
/// The spec views below let a bus state what its operations do. A bus
/// declares through `spec_in_ram` which addresses are plain RAM backed
/// by `spec_ram`, and through `obeys_devices` whether the interrupt
/// machinery is the controller pair exposed by `spec_plic` and
/// `spec_clint`. The defaults claim nothing, so a bus written without
/// specifications still implements the trait; every contract here is
/// conditional on those claims.
pub trait Bus: Sized {
    /// The plain RAM this bus serves at the addresses of `spec_in_ram`.
    open spec fn spec_ram(&self) -> Seq<u8> {
        Seq::empty()
    }

    /// Whether `addr` reaches RAM rather than a device window.
    open spec fn spec_in_ram(&self, addr: u32) -> bool {
        false
    }

    /// Whether the tick, line and claim operations below are backed by
    /// the controllers of `spec_plic` and `spec_clint`.
    open spec fn obeys_devices(&self) -> bool {
        false
    }

    /// The external interrupt controller behind this bus.
    open spec fn spec_plic(&self) -> Plic {
        arbitrary()
    }

    /// The core-local interruptor behind this bus.
    open spec fn spec_clint(&self) -> Clint {
        arbitrary()
    }

    /// The RAM addresses, the devices and their views survive a plain
    /// RAM write; only the written bytes change.
    open spec fn spec_views_kept(pre: Self, post: Self) -> bool {
        &&& (forall|a: u32| post.spec_in_ram(a) == pre.spec_in_ram(a))
        &&& post.obeys_devices() == pre.obeys_devices()
        &&& post.spec_plic() == pre.spec_plic()
        &&& post.spec_clint() == pre.spec_clint()
    }

    fn read8(&mut self, addr: u32) -> (r: u8)
        ensures
            old(self).spec_in_ram(addr) ==> *final(self) == *old(self) && addr
                < old(self).spec_ram().len() && r == old(self).spec_ram()[addr as int],
    ;

    fn read16(&mut self, addr: u32) -> (r: u16)
        ensures
            old(self).spec_in_ram(addr) && old(self).spec_in_ram(wrap_add(addr, 1)) ==> *final(self) == *old(self) && addr < old(self).spec_ram().len() && wrap_add(addr, 1) < old(self).spec_ram().len() && r == spec_le16(
                old(self).spec_ram(),
                addr as int,
                wrap_add(addr, 1) as int,
            ),
    ;

    fn read32(&mut self, addr: u32) -> (r: u32)
        ensures
            (old(self).spec_in_ram(addr) && old(self).spec_in_ram(wrap_add(addr, 1)) && old(self).spec_in_ram(wrap_add(addr, 2)) && old(self).spec_in_ram(wrap_add(addr, 3))) ==> *final(self) == *old(self) && addr < old(self).spec_ram().len() && wrap_add(addr, 3) < old(self).spec_ram().len() && r == spec_le32(
                old(self).spec_ram(),
                addr as int,
                wrap_add(addr, 1) as int,
                wrap_add(addr, 2) as int,
                wrap_add(addr, 3) as int,
            ),
    ;

    fn write8(&mut self, addr: u32, val: u8)
        ensures
            old(self).spec_in_ram(addr) ==> final(self).spec_ram() == old(self).spec_ram().update(addr as int, val) && Self::spec_views_kept(*old(self), *final(self)),
    ;

    fn write16(&mut self, addr: u32, val: u16)
        ensures
            old(self).spec_in_ram(addr) && old(self).spec_in_ram(wrap_add(addr, 1)) ==> final(self).spec_ram() == old(self).spec_ram().update(addr as int, val as u8).update(
                wrap_add(addr, 1) as int,
                (val >> 8) as u8,
            ) && Self::spec_views_kept(*old(self), *final(self)),
    ;

    fn write32(&mut self, addr: u32, val: u32)
        ensures
            (old(self).spec_in_ram(addr) && old(self).spec_in_ram(wrap_add(addr, 1)) && old(self).spec_in_ram(wrap_add(addr, 2)) && old(self).spec_in_ram(wrap_add(addr, 3))) ==> final(self).spec_ram() == old(self).spec_ram().update(addr as int, val as u8).update(
                wrap_add(addr, 1) as int,
                (val >> 8) as u8,
            ).update(wrap_add(addr, 2) as int, (val >> 16) as u8).update(
                wrap_add(addr, 3) as int,
                (val >> 24) as u8,
            ) && Self::spec_views_kept(*old(self), *final(self)),
    ;

    /// Whether the external-interrupt line to the core is asserted.
    fn get_interrupt_level(&self) -> (r: bool)
        ensures
            self.obeys_devices() ==> r == spec_plic_level(self.spec_plic()),
    ;

    /// Whether the timer-interrupt line to the core is asserted.
    fn get_timer_interrupt_level(&self) -> (r: bool)
        ensures
            self.obeys_devices() ==> r == (self.spec_clint().mtime >= self.spec_clint().mtimecmp),
    ;

    /// Whether the software-interrupt line to the core is asserted.
    fn get_software_interrupt_level(&self) -> (r: bool)
        ensures
            self.obeys_devices() ==> r == (self.spec_clint().msip & 1 == 1),
    ;

    /// Advance time-driven devices by one cycle. The clock never
    /// rewrites memory: the RAM view and the claims survive every tick.
    fn tick(&mut self)
        ensures
            final(self).spec_ram() == old(self).spec_ram(),
            forall|a: u32| final(self).spec_in_ram(a) == old(self).spec_in_ram(a),
            final(self).obeys_devices() == old(self).obeys_devices(),
            old(self).obeys_devices() ==> final(self).spec_clint() == spec_clint_tick(
                old(self).spec_clint(),
            ) && final(self).spec_plic() == old(self).spec_plic(),
    ;

    /// Acknowledge the highest-priority external interrupt (claim).
    fn plic_claim(&mut self) -> (r: u32)
        ensures
            old(self).obeys_devices() ==> (final(self).spec_plic(), r) == spec_claim(
                old(self).spec_plic(),
            ) && final(self).spec_clint() == old(self).spec_clint() && final(self).obeys_devices()
                && final(self).spec_ram() == old(self).spec_ram() && (forall|a: u32|
                final(self).spec_in_ram(a) == old(self).spec_in_ram(a)),
    ;

    /// Retire a previously claimed external interrupt (complete).
    fn plic_complete(&mut self, source_id: u32)
        ensures
            old(self).obeys_devices() ==> final(self).spec_plic() == spec_complete(
                old(self).spec_plic(),
                source_id,
            ) && final(self).spec_clint() == old(self).spec_clint() && final(self).obeys_devices()
                && final(self).spec_ram() == old(self).spec_ram() && (forall|a: u32|
                final(self).spec_in_ram(a) == old(self).spec_in_ram(a)),
    ;
}

} // verus!
