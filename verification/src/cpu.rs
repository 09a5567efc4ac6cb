//! The execution engine: per-step driver over registers, CSR file,
//! privilege mode, and the decoded-instruction cache.

pub mod arith;
pub mod csr;
pub mod decode;
pub mod execute;
pub mod handle_trap;
pub mod instructions;
pub mod laws;
pub mod privilege_mode;

use crate::bus::{spec_le16, Bus};
use crate::cpu::csr::{spec_csr_reset, Csr};
use crate::bus::clint::spec_clint_tick;
use crate::cpu::arith::wrap_add;
use crate::cpu::execute::{spec_completed_transition, spec_ecall_cause, spec_jump_transition};
use crate::cpu::handle_trap::spec_trap;
use crate::cpu::instructions::{decode16, decode32, inst_wf, spec_decode16, spec_decode32,
    spec_inst_size, Instruction};
use crate::cpu::privilege_mode::PrivilegeMode;
use vstd::prelude::*;

verus! {

/// What one call to `step` reported.
#[derive(Clone, Copy, Debug, PartialEq, Eq, Structural)]
pub enum StepResult {
    /// Normal completion; carries the executed instruction's size in bytes.
    Completed(u32),
    /// A trap was entered; carries the cause written to `mcause`.
    Trap(u32),
    /// The instruction wrote the program counter itself.
    Jumped,
}

pub struct Cpu {
    /// The 32 general-purpose registers; slot 0 is hard-wired to zero
    /// at every instruction boundary.
    pub regs: [u32; 32],
    /// The program counter.
    pub pc: u32,
    /// The control/status register file.
    pub csr: Csr,
    /// The current privilege mode.
    pub mode: PrivilegeMode,
    /// The decoded-instruction cache: one optional page per aligned
    /// 4 KiB region, grown on demand and indexed by `pc >> 12`.
    pub cache: Vec<Option<Vec<Instruction>>>,
}

/// Every record held by the cache is well formed.
pub open spec fn cache_wf(cache: Seq<Option<Vec<Instruction>>>) -> bool {
    forall|p: int, e: int|
        0 <= p < cache.len() && cache[p] is Some && 0 <= e < cache[p]->0@.len() ==> inst_wf(
            #[trigger] cache[p]->0@[e],
        )
}

impl Cpu {
    /// The engine's own well-formedness: the decoded cache holds only
    /// well-formed records. `new` establishes it and every method keeps
    /// it.
    pub open spec fn wf(self) -> bool {
        cache_wf(self.cache@)
    }
}

/// The register file after writing `v` to slot `rd`; a write to slot 0
/// is skipped.
pub open spec fn spec_write_reg(regs: Seq<u32>, rd: u8, v: u32) -> Seq<u32> {
    if rd == 0 {
        regs
    } else {
        regs.update(rd as int, v)
    }
}

/// Program counter, CSR file, privilege mode and cache are unchanged.
pub open spec fn same_but_regs(pre: Cpu, post: Cpu) -> bool {
    post.pc == pre.pc && post.csr == pre.csr && post.mode == pre.mode && post.cache@ == pre.cache@
}

/// Registers, CSR file, privilege mode and cache are unchanged.
pub open spec fn same_but_pc(pre: Cpu, post: Cpu) -> bool {
    post.regs@ == pre.regs@ && post.csr == pre.csr && post.mode == pre.mode && post.cache@
        == pre.cache@
}

/// CSR file, privilege mode and cache are unchanged.
pub open spec fn same_but_regs_pc(pre: Cpu, post: Cpu) -> bool {
    post.csr == pre.csr && post.mode == pre.mode && post.cache@ == pre.cache@
}

/// The cache with the page containing byte address `addr` marked
/// absent.
pub open spec fn spec_invalidate_page(
    cache: Seq<Option<Vec<Instruction>>>,
    addr: u32,
) -> Seq<Option<Vec<Instruction>>> {
    let page = addr as int / 4096;
    if page < cache.len() {
        cache.update(page, Option::None)
    } else {
        cache
    }
}

/// The mip value after the device lines are mirrored in: bit 11 takes
/// the external line, bit 7 the timer line, bit 3 the software line;
/// every other bit is untouched.
pub open spec fn spec_mirror_mip(mip: u32, ext: bool, timer: bool, soft: bool) -> u32 {
    let a = if ext {
        mip | 0x800
    } else {
        mip & !0x800u32
    };
    let b = if timer {
        a | 0x80
    } else {
        a & !0x80u32
    };
    if soft {
        b | 0x8
    } else {
        b & !0x8u32
    }
}

/// The interrupt cause the armed bits select: external (bit 11) before
/// software (bit 3) before timer (bit 7), with the interrupt bit set in
/// the cause code.
pub open spec fn spec_pending_cause(mip: u32, mie: u32) -> Option<u32> {
    let armed = mip & mie;
    if armed & 0x800 != 0 {
        Option::Some(0x8000_000bu32)
    } else if armed & 0x8 != 0 {
        Option::Some(0x8000_0003u32)
    } else if armed & 0x80 != 0 {
        Option::Some(0x8000_0007u32)
    } else {
        Option::None
    }
}

/// The record the cache currently holds for the program counter's
/// slot; `Absent` when the page or the slot is missing.
pub open spec fn spec_cached_record(c: Cpu) -> Instruction {
    let page = (c.pc >> 12) as int;
    let slot = ((c.pc & 0xfff) >> 1) as int;
    if page < c.cache@.len() && c.cache@[page] is Some && slot < c.cache@[page]->0@.len() {
        c.cache@[page]->0@[slot]
    } else {
        Instruction::Absent
    }
}

/// The bits an instruction fetch at byte address `a` reads: the low
/// halfword, joined with the high halfword when the low two bits mark
/// a 32-bit form.
pub open spec fn spec_fetch_bits(ram: Seq<u8>, a: int) -> u32 {
    let lo = spec_le16(ram, a, a + 1);
    if lo & 3 == 3 {
        (lo as u32) | ((spec_le16(ram, a + 2, a + 3) as u32) << 16)
    } else {
        lo as u32
    }
}

/// The record the bytes at byte address `a` decode to.
pub open spec fn spec_decode_mem(ram: Seq<u8>, a: int) -> Instruction {
    let lo = spec_le16(ram, a, a + 1);
    if lo & 3 == 3 {
        spec_decode32(spec_fetch_bits(ram, a))
    } else {
        spec_decode16(lo)
    }
}

/// The aligned page holding `pc` lies wholly in the bus's RAM; and when
/// the bytes at the page's last slot open a 32-bit form, whose high
/// half the page walk reads from just past the page end, that pair of
/// bytes too.
pub open spec fn spec_page_in_ram<B: Bus>(bus: B, pc: u32) -> bool {
    let base = (pc & 0xffff_f000) as int;
    &&& forall|a: u32| base <= a < base + 4096 ==> #[trigger] bus.spec_in_ram(a)
    &&& (spec_le16(bus.spec_ram(), base + 4094, base + 4095) & 3 != 3 || (base + 4098
        <= 0x1_0000_0000 && bus.spec_in_ram((base + 4096) as u32) && bus.spec_in_ram(
        (base + 4097) as u32,
    )))
}

/// An even program counter names its own slot: the page base plus twice
/// the slot index is the program counter itself, and the index is below
/// the page's slot count.
pub proof fn lemma_fetch_slot(pc: u32)
    ensures
        (pc & 0xfff) >> 1 < 2048,
        pc % 2 == 0 ==> (pc & 0xffff_f000) + 2 * ((pc & 0xfff) >> 1) == pc,
        ((pc & 0xffff_f000) & 0xffff_f000) == (pc & 0xffff_f000),
        pc >> 12 == (pc & 0xffff_f000) >> 12,
        pc & 0xffff_f000 <= 0xffff_f000,
{
    assert((pc & 0xfff) >> 1 < 2048) by (bit_vector);
    assert(pc % 2 == 0 ==> (pc & 0xffff_f000) + 2 * ((pc & 0xfff) >> 1) == pc) by (bit_vector);
    assert(((pc & 0xffff_f000) & 0xffff_f000) == (pc & 0xffff_f000)) by (bit_vector);
    assert(pc >> 12 == (pc & 0xffff_f000) >> 12) by (bit_vector);
    assert(pc & 0xffff_f000 <= 0xffff_f000) by (bit_vector);
}

/// What may differ between the state a step starts from and the state
/// the fetched record executes against: register slot 0 has been
/// cleared, and when interrupts are globally enabled the check may have
/// rewritten the mip mirror bits (11, 7, 3). Everything else — the
/// other registers, the program counter, the rest of the CSR file and
/// the privilege — is carried through; the decoded cache is not
/// constrained, since the fetch may have filled pages.
pub open spec fn spec_step_midstate(entry: Cpu, mid: Cpu) -> bool {
    &&& mid.regs@ == entry.regs@.update(0, 0u32)
    &&& mid.pc == entry.pc
    &&& mid.mode == entry.mode
    &&& mid.csr == (Csr { mip: mid.csr.mip, ..entry.csr })
    &&& mid.csr.mip & !0x888u32 == entry.csr.mip & !0x888u32
}

impl Cpu {
    /// A fresh hart: all registers zero, CSR file zeroed, Machine mode,
    /// empty decode cache, program counter as given.
    pub fn new(pc: u32) -> (r: Cpu)
        ensures
            r.wf(),
            r.regs@ == Seq::<u32>::new(32, |i: int| 0u32),
            r.pc == pc,
            r.csr == spec_csr_reset(),
            r.mode == PrivilegeMode::Machine,
            r.cache@.len() == 0,
    {
        let r = Cpu {
            regs: [0; 32],
            pc,
            csr: Csr::new(),
            mode: PrivilegeMode::Machine,
            cache: Vec::new(),
        };
        proof {
            assert(r.regs@ =~= Seq::<u32>::new(32, |i: int| 0u32));
        }
        r
    }

    /// Mark the page containing `addr` absent, so the next fetch there
    /// re-decodes from memory.
    pub fn flush_cache_line(&mut self, addr: u32)
        requires
            old(self).wf(),
        ensures
            final(self).wf(),
            final(self).cache@ == spec_invalidate_page(old(self).cache@, addr),
            final(self).regs@ == old(self).regs@,
            final(self).pc == old(self).pc,
            final(self).csr == old(self).csr,
            final(self).mode == old(self).mode,
    {
        let page = (addr >> 12) as usize;
        proof {
            assert(addr >> 12 == addr / 4096) by (bit_vector);
        }
        if page < self.cache.len() {
            self.cache[page] = None;
        }
    }

    /// Mark every page absent.
    pub fn flush_all_cache(&mut self)
        requires
            old(self).wf(),
        ensures
            final(self).wf(),
            forall|p: int| 0 <= p < final(self).cache@.len() ==> final(self).cache@[p] is None,
            final(self).cache@.len() == old(self).cache@.len(),
            final(self).regs@ == old(self).regs@,
            final(self).pc == old(self).pc,
            final(self).csr == old(self).csr,
            final(self).mode == old(self).mode,
    {
        let n = self.cache.len();
        let mut i: usize = 0;
        while i < n
            invariant
                n == self.cache@.len(),
                i <= n,
                self.wf(),
                forall|p: int| 0 <= p < i ==> self.cache@[p] is None,
                self.regs@ == old(self).regs@,
                self.pc == old(self).pc,
                self.csr == old(self).csr,
                self.mode == old(self).mode,
            decreases n - i,
        {
            self.cache[i] = None;
            i = i + 1;
        }
    }

    /// Forward a claim to the external controller through the bus.
    pub fn claim_interrupt<B: Bus>(&mut self, bus: &mut B) -> (r: u32)
        ensures
            *final(self) == *old(self),
            old(bus).obeys_devices() ==> (final(bus).spec_plic(), r)
                == crate::bus::plic::spec_claim(old(bus).spec_plic()) && final(bus).spec_clint()
                == old(bus).spec_clint(),
    {
        bus.plic_claim()
    }

    /// Forward a completion to the external controller through the bus.
    pub fn complete_interrupt<B: Bus>(&mut self, bus: &mut B, source_id: u32)
        ensures
            *final(self) == *old(self),
            old(bus).obeys_devices() ==> final(bus).spec_plic() == crate::bus::plic::spec_complete(
                old(bus).spec_plic(),
                source_id,
            ) && final(bus).spec_clint() == old(bus).spec_clint(),
    {
        bus.plic_complete(source_id);
    }

    /// The interrupt check run at the top of every step. When the
    /// global enable bit is clear nothing happens; otherwise the three
    /// device lines are mirrored into `mip` (bits 11, 7, 3) and the
    /// highest-priority armed interrupt, if any, is returned.
    fn check_interrupt<B: Bus>(&mut self, bus: &B) -> (r: Option<u32>)
        ensures
            final(self).regs@ == old(self).regs@,
            final(self).pc == old(self).pc,
            final(self).mode == old(self).mode,
            final(self).cache@ == old(self).cache@,
            old(self).csr.mstatus & 0x8 == 0 ==> r is None && final(self).csr == old(self).csr,
            old(self).csr.mstatus & 0x8 != 0 ==> {
                &&& final(self).csr == (Csr { mip: final(self).csr.mip, ..old(self).csr })
                &&& final(self).csr.mip & !0x888u32 == old(self).csr.mip & !0x888u32
                &&& r == spec_pending_cause(final(self).csr.mip, old(self).csr.mie)
            },
            old(self).csr.mstatus & 0x8 != 0 && bus.obeys_devices() ==> final(self).csr.mip
                == spec_mirror_mip(
                old(self).csr.mip,
                crate::bus::plic::spec_plic_level(bus.spec_plic()),
                bus.spec_clint().mtime >= bus.spec_clint().mtimecmp,
                bus.spec_clint().msip & 1 == 1,
            ),
    {
        if self.csr.mstatus & 0x8 == 0 {
            return None;
        }
        let ext = bus.get_interrupt_level();
        let timer = bus.get_timer_interrupt_level();
        let soft = bus.get_software_interrupt_level();

        let m0 = self.csr.mip;
        let m1 = if ext {
            m0 | 0x800
        } else {
            m0 & !0x800u32
        };
        let m2 = if timer {
            m1 | 0x80
        } else {
            m1 & !0x80u32
        };
        let mip = if soft {
            m2 | 0x8
        } else {
            m2 & !0x8u32
        };
        proof {
            assert((m0 | 0x800) & !0x888u32 == m0 & !0x888u32 && (m0 & !0x800u32) & !0x888u32 == m0
                & !0x888u32) by (bit_vector);
            assert((m1 | 0x80) & !0x888u32 == m1 & !0x888u32 && (m1 & !0x80u32) & !0x888u32 == m1
                & !0x888u32) by (bit_vector);
            assert((m2 | 0x8) & !0x888u32 == m2 & !0x888u32 && (m2 & !0x8u32) & !0x888u32 == m2
                & !0x888u32) by (bit_vector);
        }
        self.csr.mip = mip;

        let armed = mip & self.csr.mie;
        if armed & 0x800 != 0 {
            Some(0x8000_000b)
        } else if armed & 0x8 != 0 {
            Some(0x8000_0003)
        } else if armed & 0x80 != 0 {
            Some(0x8000_0007)
        } else {
            None
        }
    }

    /// Decode one page of instruction memory: walk it from its base,
    /// decoding consecutive 2- or 4-byte instructions. The odd slot
    /// under a 4-byte instruction stays `Absent`. The walk stops at the
    /// first slot that decodes to no valid instruction — usually data or
    /// untouched memory — leaving it and everything after it absent, so
    /// those slots are decoded fresh when they are ever executed. A
    /// 4-byte instruction whose high half crosses the page end still
    /// gets its record, and the walk stops there.
    ///
    /// When the page lies in RAM, every record the walk stores is the
    /// decode of the RAM bytes at that record's own address, and the
    /// walk disturbs nothing on the bus.
    fn populate_page<B: Bus>(bus: &mut B, base: u32) -> (p: Vec<Instruction>)
        requires
            base & 0xffff_f000 == base,
        ensures
            forall|e: int| 0 <= e < p@.len() ==> inst_wf(#[trigger] p@[e]),
            spec_page_in_ram(*old(bus), base) ==> *final(bus) == *old(bus) && (forall|j: int|
                0 <= j < p@.len() ==> (#[trigger] p@[j]) is Absent || p@[j] == spec_decode_mem(
                    old(bus).spec_ram(),
                    base as int + 2 * j,
                )),
    {
        proof {
            assert(base & 0xffff_f000 == base ==> base <= 0xffff_f000) by (bit_vector);
        }
        let mut page: Vec<Instruction> = Vec::new();
        let mut off: usize = 0;
        while off < 4096
            invariant
                off <= 4098,
                off % 2 == 0,
                base <= 0xffff_f000,
                base & 0xffff_f000 == base,
                forall|e: int| 0 <= e < page@.len() ==> inst_wf(#[trigger] page@[e]),
                spec_page_in_ram(*old(bus), base) ==> {
                    &&& *bus == *old(bus)
                    &&& off >= 4096 || off == 2 * page@.len()
                    &&& forall|j: int|
                        0 <= j < page@.len() ==> (#[trigger] page@[j]) is Absent || page@[j]
                            == spec_decode_mem(old(bus).spec_ram(), base as int + 2 * j)
                },
            decreases 4100 - off,
        {
            let ghost in_ram = spec_page_in_ram(*old(bus), base);
            let ghost ram = old(bus).spec_ram();
            let ghost a = base as int + off as int;
            let addr = base.wrapping_add(off as u32);
            proof {
                if in_ram {
                    assert(addr == a);
                    assert(wrap_add(addr, 1) == a + 1);
                    assert((base & 0xffff_f000) == base);
                    assert(base <= addr);
                    assert(addr < base + 4096);
                    assert(old(bus).spec_in_ram(addr));
                    assert(old(bus).spec_in_ram(wrap_add(addr, 1)));
                    assert(*bus == *old(bus));
                }
            }
            let lo = bus.read16(addr);
            let (rec, size) = if lo & 0x3 == 0x3 {
                proof {
                    if in_ram {
                        assert(lo == spec_le16(ram, a, a + 1));
                        assert(wrap_add(addr, 2) == a + 2 && wrap_add(addr, 3) == a + 3);
                        if off == 4094 {
                            assert(spec_le16(ram, base as int + 4094, base as int + 4095) & 3
                                == 3);
                        }
                        assert(old(bus).spec_in_ram(wrap_add(addr, 2)));
                        assert(old(bus).spec_in_ram(wrap_add(addr, 3)));
                        assert(wrap_add(wrap_add(addr, 2), 1) == a + 3);
                    }
                }
                let hi = bus.read16(addr.wrapping_add(2));
                let bits = (lo as u32) | ((hi as u32) << 16);
                proof {
                    if in_ram {
                        assert(bits == spec_fetch_bits(ram, a));
                    }
                }
                (decode32(bits), 4usize)
            } else {
                (decode16(lo), 2usize)
            };
            proof {
                if in_ram {
                    assert(rec == spec_decode_mem(ram, a));
                }
            }
            if matches!(rec, Instruction::Illegal) {
                break ;
            }
            page.push(rec);
            if size == 4 && off + 2 < 4096 {
                page.push(Instruction::Absent);
            }
            off = off + size;
        }
        page
    }

    /// Fetch the record for the current program counter. A missing page
    /// is populated first. A slot that holds no valid instruction
    /// (`Absent`, or bits that decoded to `Illegal` — often data, or
    /// memory written since the walk) is re-decoded from the bus, so
    /// the returned record is never `Absent`; alongside it come the raw
    /// bits for `mtval` when that fresh decode is still `Illegal`.
    ///
    /// A validly cached record is served as it stands — deliberately,
    /// even when memory has changed under it. When no valid record is
    /// cached and the page lies in the bus's RAM, the record served is
    /// exactly what the RAM bytes at the program counter decode to.
    fn fetch<B: Bus>(&mut self, bus: &mut B) -> (r: (Instruction, u32))
        requires
            old(self).wf(),
        ensures
            final(self).wf(),
            inst_wf(r.0),
            !(r.0 is Absent),
            final(self).regs@ == old(self).regs@,
            final(self).pc == old(self).pc,
            final(self).csr == old(self).csr,
            final(self).mode == old(self).mode,
            !(spec_cached_record(*old(self)) is Absent) && !(spec_cached_record(*old(self))
                is Illegal) ==> r.0 == spec_cached_record(*old(self)) && *final(bus) == *old(bus),
            (spec_cached_record(*old(self)) is Absent || spec_cached_record(*old(self))
                is Illegal) && old(self).pc % 2 == 0 && spec_page_in_ram(
                *old(bus),
                old(self).pc,
            ) ==> {
                &&& *final(bus) == *old(bus)
                &&& r.0 == spec_decode_mem(old(bus).spec_ram(), old(self).pc as int)
                &&& (r.0 is Illegal ==> r.1 == spec_fetch_bits(
                    old(bus).spec_ram(),
                    old(self).pc as int,
                ))
            },
    {
        let ghost cached = spec_cached_record(*old(self));
        let ghost fresh = (cached is Absent || cached is Illegal) && old(self).pc % 2 == 0
            && spec_page_in_ram(*old(bus), old(self).pc);
        let ghost ram = old(bus).spec_ram();
        proof {
            lemma_fetch_slot(self.pc);
        }
        let page_idx = (self.pc >> 12) as usize;
        while self.cache.len() <= page_idx
            invariant
                self.wf(),
                self.regs@ == old(self).regs@,
                self.pc == old(self).pc,
                self.csr == old(self).csr,
                self.mode == old(self).mode,
                old(self).cache@.len() <= self.cache@.len(),
                forall|j: int|
                    0 <= j < old(self).cache@.len() ==> self.cache@[j] == old(self).cache@[j],
                forall|j: int|
                    old(self).cache@.len() <= j < self.cache@.len() ==> self.cache@[j] is None,
            decreases page_idx + 1 - self.cache@.len(),
        {
            self.cache.push(None);
        }
        let base = self.pc & 0xffff_f000;
        let ghost slot_addr = base as int + 2 * (((self.pc & 0xfff) >> 1) as int);
        if self.cache[page_idx].is_none() {
            let page = Self::populate_page(bus, base);
            self.cache[page_idx] = Some(page);
        }
        let slot = ((self.pc & 0xfff) >> 1) as usize;
        let rec = match &self.cache[page_idx] {
            Some(page) => {
                if slot < page.len() {
                    page[slot]
                } else {
                    Instruction::Absent
                }
            },
            None => Instruction::Absent,
        };
        proof {
            if fresh && !(rec is Absent) && !(rec is Illegal) {
                // the record can only have come from the walk just run,
                // which decoded it from the RAM bytes at its own slot
                assert(self.pc % 2 == 0 ==> slot_addr == self.pc);
                assert(rec == spec_decode_mem(ram, old(self).pc as int));
            }
        }
        match rec {
            Instruction::Absent | Instruction::Illegal => {
                proof {
                    if fresh {
                        let pc = old(self).pc;
                        assert(old(bus).spec_in_ram(pc));
                        assert(wrap_add(pc, 1) == pc as int + 1 && old(bus).spec_in_ram(
                            wrap_add(pc, 1),
                        ));
                    }
                }
                let lo = bus.read16(self.pc);
                if lo & 0x3 == 0x3 {
                    proof {
                        if fresh {
                            let pc = old(self).pc;
                            assert(lo == spec_le16(ram, pc as int, pc as int + 1));
                            if pc as int == base as int + 4094 {
                                assert(spec_le16(ram, base as int + 4094, base as int + 4095) & 3
                                    == 3);
                                assert(base as int + 4098 <= 0x1_0000_0000);
                                assert(old(bus).spec_in_ram((base + 4096) as u32));
                                assert(old(bus).spec_in_ram((base + 4097) as u32));
                            } else {
                                assert(pc as int + 3 < base as int + 4096);
                                assert(old(bus).spec_in_ram((pc + 2) as u32));
                                assert(old(bus).spec_in_ram((pc + 3) as u32));
                            }
                            assert(wrap_add(pc, 2) == pc as int + 2 && old(bus).spec_in_ram(
                                wrap_add(pc, 2),
                            ));
                            assert(wrap_add(pc, 3) == pc as int + 3 && old(bus).spec_in_ram(
                                wrap_add(pc, 3),
                            ));
                            assert(wrap_add(wrap_add(pc, 2), 1) == pc as int + 3);
                        }
                    }
                    let hi = bus.read16(self.pc.wrapping_add(2));
                    let bits = (lo as u32) | ((hi as u32) << 16);
                    proof {
                        if fresh {
                            assert(bits == spec_fetch_bits(ram, old(self).pc as int));
                        }
                    }
                    (decode32(bits), bits)
                } else {
                    (decode16(lo), lo as u32)
                }
            },
            _ => (rec, 0),
        }
    }

    /// One architectural step: advance the bus clock, deliver a pending
    /// interrupt if one is armed, otherwise fetch, execute, clear
    /// register slot 0 and advance the program counter by the executed
    /// instruction's size.
    ///
    /// The contract pins the whole step: which interrupt a
    /// device-obeying bus delivers; that the executed record is the
    /// validly cached one, or — when none is cached and the page is in
    /// RAM — the decode of the bytes at the program counter; and the
    /// exact register, CSR, privilege and program-counter effect of
    /// that record, through the completed, jump and trap transitions.
    #[verifier::rlimit(100)]
    #[verifier::spinoff_prover]
    pub fn step<B: Bus>(&mut self, bus: &mut B) -> (r: StepResult)
        requires
            old(self).wf(),
        ensures
            final(self).wf(),
            final(self).regs@[0] == 0,
            match r {
                StepResult::Completed(sz) => {
                    &&& (sz == 2 || sz == 4)
                    &&& final(self).pc == crate::cpu::arith::wrap_add(old(self).pc, sz)
                    &&& final(self).mode == old(self).mode
                },
                StepResult::Trap(cause) => {
                    &&& final(self).csr.mcause == cause
                    &&& final(self).csr.mepc == old(self).pc
                    &&& final(self).csr.mtvec == old(self).csr.mtvec
                    &&& final(self).mode == PrivilegeMode::Machine
                    &&& final(self).pc == crate::cpu::handle_trap::spec_trap_target(
                        old(self).csr.mtvec,
                        cause,
                    )
                    &&& exists|mid: Cpu, mtval: u32|
                        spec_step_midstate(*old(self), mid) && *final(self) == spec_trap(
                            mid,
                            cause,
                            mtval,
                        )
                },
                StepResult::Jumped => exists|mid: Cpu, inst: Instruction|
                    spec_step_midstate(*old(self), mid) && inst_wf(inst) && spec_jump_transition(
                        mid,
                        *final(self),
                        inst,
                    ),
            },
            old(bus).obeys_devices() ==> ({
                let ticked = spec_clint_tick(old(bus).spec_clint());
                let armed = spec_mirror_mip(
                    old(self).csr.mip,
                    crate::bus::plic::spec_plic_level(old(bus).spec_plic()),
                    ticked.mtime >= ticked.mtimecmp,
                    ticked.msip & 1 == 1,
                );
                let delivered = if old(self).csr.mstatus & 0x8 != 0 {
                    spec_pending_cause(armed, old(self).csr.mie)
                } else {
                    Option::<u32>::None
                };
                match delivered {
                    Option::Some(c) => r == StepResult::Trap(c) && final(self).csr.mtval == 0,
                    Option::None => r is Trap ==> final(self).csr.mcause < 0x8000_0000,
                }
            }),
            (spec_cached_record(*old(self)) is Absent || spec_cached_record(*old(self))
                is Illegal) && old(self).pc % 2 == 0 && spec_page_in_ram(
                *old(bus),
                old(self).pc,
            ) && !(r is Trap && final(self).csr.mcause >= 0x8000_0000) ==> ({
                let m = spec_decode_mem(old(bus).spec_ram(), old(self).pc as int);
                &&& (m is Illegal ==> r == StepResult::Trap(2) && final(self).csr.mtval
                    == spec_fetch_bits(old(bus).spec_ram(), old(self).pc as int))
                &&& (m is Ecall ==> r == StepResult::Trap(spec_ecall_cause(old(self).mode))
                    && final(self).csr.mtval == 0)
                &&& (m is Ebreak ==> r == StepResult::Trap(3) && final(self).csr.mtval == 0)
                &&& match r {
                    StepResult::Completed(sz) => sz == spec_inst_size(m) && (exists|mid: Cpu|
                        spec_step_midstate(*old(self), mid) && spec_completed_transition(
                            mid,
                            (Cpu { pc: mid.pc, ..*final(self) }),
                            m,
                        )),
                    StepResult::Jumped => exists|mid: Cpu|
                        spec_step_midstate(*old(self), mid) && spec_jump_transition(
                            mid,
                            *final(self),
                            m,
                        ),
                    StepResult::Trap(cause) => true,
                }
            }),
            !(spec_cached_record(*old(self)) is Absent) && !(spec_cached_record(*old(self))
                is Illegal) && !(r is Trap && final(self).csr.mcause >= 0x8000_0000) ==> ({
                let m = spec_cached_record(*old(self));
                &&& (m is Ecall ==> r == StepResult::Trap(spec_ecall_cause(old(self).mode))
                    && final(self).csr.mtval == 0)
                &&& (m is Ebreak ==> r == StepResult::Trap(3) && final(self).csr.mtval == 0)
                &&& match r {
                    StepResult::Completed(sz) => sz == spec_inst_size(m) && (exists|mid: Cpu|
                        spec_step_midstate(*old(self), mid) && spec_completed_transition(
                            mid,
                            (Cpu { pc: mid.pc, ..*final(self) }),
                            m,
                        )),
                    StepResult::Jumped => exists|mid: Cpu|
                        spec_step_midstate(*old(self), mid) && spec_jump_transition(
                            mid,
                            *final(self),
                            m,
                        ),
                    StepResult::Trap(cause) => true,
                }
            }),
    {
        self.regs[0] = 0;
        let ghost fresh_fetch = (spec_cached_record(*old(self)) is Absent || spec_cached_record(
            *old(self),
        ) is Illegal) && old(self).pc % 2 == 0 && spec_page_in_ram(*old(bus), old(self).pc);
        bus.tick();
        proof {
            if fresh_fetch {
                let pc = old(self).pc;
                assert forall|a: u32|
                    (pc & 0xffff_f000) as int <= a < (pc & 0xffff_f000) as int
                        + 4096 implies #[trigger] bus.spec_in_ram(a) by {
                    assert(old(bus).spec_in_ram(a));
                }
                assert(bus.spec_ram() == old(bus).spec_ram());
                if !(spec_le16(old(bus).spec_ram(), (pc & 0xffff_f000) as int + 4094, (pc
                    & 0xffff_f000) as int + 4095) & 3 != 3) {
                    assert(old(bus).spec_in_ram((((pc & 0xffff_f000) as int + 4096) as u32)));
                    assert(old(bus).spec_in_ram((((pc & 0xffff_f000) as int + 4097) as u32)));
                    assert(bus.spec_in_ram((((pc & 0xffff_f000) as int + 4096) as u32)));
                    assert(bus.spec_in_ram((((pc & 0xffff_f000) as int + 4097) as u32)));
                }
                assert(spec_page_in_ram(*bus, pc));
            }
        }

        let pending = self.check_interrupt(bus);
        proof {
            if old(bus).obeys_devices() {
                let ticked = spec_clint_tick(old(bus).spec_clint());
                assert(bus.spec_clint() == ticked && bus.spec_plic() == old(bus).spec_plic()
                    && bus.obeys_devices());
                if old(self).csr.mstatus & 0x8 != 0 {
                    assert(self.csr.mip == spec_mirror_mip(
                        old(self).csr.mip,
                        crate::bus::plic::spec_plic_level(old(bus).spec_plic()),
                        ticked.mtime >= ticked.mtimecmp,
                        ticked.msip & 1 == 1,
                    ));
                }
            }
        }
        if let Some(cause) = pending {
            let ghost mid = *self;
            let r = self.handle_trap(cause, 0);
            proof {
                assert(spec_step_midstate(*old(self), mid));
                assert(*self == spec_trap(mid, cause, 0));
            }
            return r;
        }
        let (inst, bits) = self.fetch(bus);
        let ghost mid = *self;
        let r = if let Instruction::Illegal = inst {
            let r = self.handle_trap(2, bits);
            proof {
                assert(spec_step_midstate(*old(self), mid));
                assert(*self == spec_trap(mid, 2, bits));
            }
            r
        } else {
            let r = self.execute(inst, bus);
            proof {
                assert(spec_step_midstate(*old(self), mid));
                match r {
                    StepResult::Trap(cause) => {
                        let mtval = choose|v: u32| *self == spec_trap(mid, cause, v);
                        assert(*self == spec_trap(mid, cause, mtval));
                    },
                    StepResult::Jumped => {
                        assert(spec_jump_transition(mid, *self, inst));
                    },
                    StepResult::Completed(_sz) => {
                        assert(spec_completed_transition(mid, *self, inst));
                    },
                }
            }
            r
        };
        let ghost before_advance = *self;
        match r {
            StepResult::Completed(sz) => {
                self.pc = self.pc.wrapping_add(sz);
                proof {
                    assert((Cpu { pc: before_advance.pc, ..*self }) == before_advance);
                }
            },
            _ => {},
        }
        r
    }
}

} // verus!
