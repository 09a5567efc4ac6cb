//! Platform-level interrupt controller: up to 31 external sources with
//! per-source priorities, pending/enable/in-flight masks, a threshold,
//! and the claim/complete protocol.

use vstd::prelude::*;

verus! {

/// Number of source slots; slot 0 is unused and a source id of 0 means
/// "no source".
pub const SOURCE_COUNT: usize = 32;

pub struct Plic {
    /// Per-source priority, written at window offsets `4 * id`.
    pub priorities: [u32; 32],
    /// Sources waiting to be claimed (offset `0x001000`, read-only).
    pub pending: u32,
    /// Sources the software has enabled (offset `0x002000`).
    pub enabled: u32,
    /// Priorities at or below this value are not delivered (offset `0x200000`).
    pub threshold: u32,
    /// Sources claimed and not yet completed; such a source is not
    /// re-delivered until completion.
    pub claimed: u32,
    /// Raw device lines, for level-triggered behaviour.
    pub ip: u32,
}

/// The slot with the highest priority among the sources set in `mask`,
/// considering ids `1 .. n`; ties go to the lowest id. Returns
/// `(id, priority)`, or `(0, 0)` when no masked source is set.
pub open spec fn best_masked(p: Plic, mask: u32, n: int) -> (u32, u32)
    decreases n,
{
    if n <= 1 {
        (0, 0)
    } else {
        let prev = best_masked(p, mask, n - 1);
        let i = n - 1;
        if (mask >> (i as u32)) & 1 == 1 && p.priorities[i] > prev.1 {
            (i as u32, p.priorities[i])
        } else {
            prev
        }
    }
}

/// The candidates a claim chooses among: pending, enabled, and not
/// already in flight.
pub open spec fn claim_mask(p: Plic) -> u32 {
    p.pending & p.enabled & !p.claimed
}

/// All fields but the priority slots are the same in `a` and `b`.
pub open spec fn masks_unchanged(a: Plic, b: Plic) -> bool {
    a.pending == b.pending && a.enabled == b.enabled && a.threshold == b.threshold && a.claimed
        == b.claimed && a.ip == b.ip
}

/// The controller state and returned id of one claim.
pub open spec fn spec_claim(p: Plic) -> (Plic, u32) {
    let best = best_masked(p, claim_mask(p), 32);
    if best.0 > 0 && best.1 > p.threshold {
        (
            Plic {
                pending: p.pending & !(1u32 << best.0),
                claimed: p.claimed | (1u32 << best.0),
                ..p
            },
            best.0,
        )
    } else {
        (p, 0)
    }
}

/// Whether the aggregate line to the core is asserted: some pending and
/// enabled source has priority strictly above the threshold.
pub open spec fn spec_plic_level(p: Plic) -> bool {
    best_masked(p, p.pending & p.enabled, 32).1 > p.threshold
}

/// What a read anywhere in the window does: the returned value, and
/// the controller state it leaves behind — a read at the claim offset
/// performs the claim, every other defined offset is a plain read, and
/// undefined offsets read zero.
pub open spec fn spec_plic_read(p: Plic, addr: u32) -> (Plic, u32) {
    if addr <= 0x7c {
        (p, p.priorities[addr as int / 4])
    } else if addr == 0x1000 {
        (p, p.pending)
    } else if addr == 0x2000 {
        (p, p.enabled)
    } else if addr == 0x20_0000 {
        (p, p.threshold)
    } else if addr == 0x20_0004 {
        spec_claim(p)
    } else {
        (p, 0)
    }
}

/// What a write anywhere in the window does to the controller: a write
/// at the complete offset retires a source, the pending mask and
/// undefined offsets ignore the write, and the other defined offsets
/// store it.
pub open spec fn spec_plic_write_rel(pre: Plic, post: Plic, addr: u32, val: u32) -> bool {
    if addr <= 0x7c {
        post.priorities@ == pre.priorities@.update(addr as int / 4, val) && masks_unchanged(
            pre,
            post,
        )
    } else if addr == 0x2000 {
        post == (Plic { enabled: val, ..pre })
    } else if addr == 0x20_0000 {
        post == (Plic { threshold: val, ..pre })
    } else if addr == 0x20_0004 {
        post == spec_complete(pre, val)
    } else {
        post == pre
    }
}

/// The controller state after completing `source_id`.
pub open spec fn spec_complete(p: Plic, source_id: u32) -> Plic {
    if source_id > 0 && source_id < 32 {
        let cleared = Plic { claimed: p.claimed & !(1u32 << source_id), ..p };
        if (p.ip >> source_id) & 1 == 1 {
            Plic { pending: cleared.pending | (1u32 << source_id), ..cleared }
        } else {
            cleared
        }
    } else {
        p
    }
}

impl Plic {
    pub fn new() -> (r: Plic)
        ensures
            r.priorities@ == Seq::<u32>::new(32, |i: int| 0u32),
            r.pending == 0,
            r.enabled == 0,
            r.threshold == 0,
            r.claimed == 0,
            r.ip == 0,
    {
        let r = Plic {
            priorities: [0; 32],
            pending: 0,
            enabled: 0,
            threshold: 0,
            claimed: 0,
            ip: 0,
        };
        proof {
            assert(r.priorities@ =~= Seq::<u32>::new(32, |i: int| 0u32));
        }
        r
    }

    /// A read in the window: priorities at `4 * id`, the pending mask at
    /// `0x001000`, the enable mask at `0x002000`, the threshold at
    /// `0x200000`; a read at `0x200004` performs a claim. Reads outside
    /// the defined offsets return zero.
    pub fn read(&mut self, addr: u32) -> (r: u32)
        ensures
            addr <= 0x7c ==> r == old(self).priorities@[addr as int / 4]
                && *final(self) == *old(self),
            addr == 0x1000 ==> r == old(self).pending && *final(self) == *old(self),
            addr == 0x2000 ==> r == old(self).enabled && *final(self) == *old(self),
            addr == 0x20_0000 ==> r == old(self).threshold && *final(self) == *old(self),
            addr == 0x20_0004 ==> (*final(self), r) == spec_claim(*old(self)),
            !(addr <= 0x7c || addr == 0x1000 || addr == 0x2000 || addr == 0x20_0000
                || addr == 0x20_0004) ==> r == 0 && *final(self) == *old(self),
            (*final(self), r) == spec_plic_read(*old(self), addr),
    {
        if addr <= 0x7c {
            let id = (addr / 4) as usize;
            self.priorities[id]
        } else if addr == 0x1000 {
            self.pending
        } else if addr == 0x2000 {
            self.enabled
        } else if addr == 0x20_0000 {
            self.threshold
        } else if addr == 0x20_0004 {
            self.claim()
        } else {
            0
        }
    }

    /// A write in the window: priorities at `4 * id`, the enable mask at
    /// `0x002000`, the threshold at `0x200000`; a write at `0x200004`
    /// performs a complete. The pending mask is read-only and writes
    /// outside the defined offsets are ignored.
    pub fn write(&mut self, addr: u32, val: u32)
        ensures
            addr <= 0x7c ==> final(self).priorities@ == old(self).priorities@.update(
                addr as int / 4,
                val,
            ),
            addr <= 0x7c ==> masks_unchanged(*old(self), *final(self)),
            addr == 0x2000 ==> *final(self) == (Plic { enabled: val, ..*old(self) }),
            addr == 0x20_0000 ==> *final(self) == (Plic { threshold: val, ..*old(self) }),
            addr == 0x20_0004 ==> *final(self) == spec_complete(*old(self), val),
            !(addr <= 0x7c || addr == 0x2000 || addr == 0x20_0000 || addr == 0x20_0004)
                ==> *final(self) == *old(self),
            spec_plic_write_rel(*old(self), *final(self), addr, val),
    {
        if addr <= 0x7c {
            let id = (addr / 4) as usize;
            self.priorities[id] = val;
        } else if addr == 0x2000 {
            self.enabled = val;
        } else if addr == 0x20_0000 {
            self.threshold = val;
        } else if addr == 0x20_0004 {
            self.complete(val);
        }
    }

    /// Choose the candidate with the highest priority (ascending-id
    /// iteration, so ties break to the lowest id); when it beats the
    /// threshold, move it from pending to in-flight and return its id,
    /// otherwise return 0 and change nothing.
    fn claim(&mut self) -> (r: u32)
        ensures
            (*final(self), r) == spec_claim(*old(self)),
    {
        let mut max_priority: u32 = 0;
        let mut max_id: u32 = 0;

        let candidates = self.pending & self.enabled & !self.claimed;
        let mut id: usize = 1;
        while id < 32
            invariant
                1 <= id <= 32,
                candidates == claim_mask(*self),
                (max_id, max_priority) == best_masked(*self, candidates, id as int),
            decreases 32 - id,
        {
            if (candidates >> (id as u32)) & 1 == 1 {
                if self.priorities[id] > max_priority {
                    max_priority = self.priorities[id];
                    max_id = id as u32;
                }
            }
            id = id + 1;
        }
        proof {
            lemma_best_masked_bounds(*self, candidates, 32);
        }

        if max_id > 0 && max_priority > self.threshold {
            self.pending = self.pending & !(1u32 << max_id);
            self.claimed = self.claimed | (1u32 << max_id);
            max_id
        } else {
            0
        }
    }

    /// Retire an in-flight source: clear its in-flight bit, and if the
    /// raw device line is still asserted, re-assert pending at once
    /// (level-triggered behaviour).
    fn complete(&mut self, source_id: u32)
        ensures
            *final(self) == spec_complete(*old(self), source_id),
    {
        if source_id > 0 && source_id < 32 {
            self.claimed = self.claimed & !(1u32 << source_id);
            if (self.ip >> source_id) & 1 == 1 {
                self.pending = self.pending | (1u32 << source_id);
            }
        }
    }

    /// Raise the raw line for a source; mark it pending unless it is
    /// already in flight.
    pub fn set_interrupt(&mut self, source_id: u32)
        ensures
            source_id > 0 && source_id < 32 ==> ({
                let raised = (Plic { ip: old(self).ip | (1u32 << source_id), ..*old(self) });
                if (old(self).claimed >> source_id) & 1 == 0 {
                    *final(self) == (Plic {
                        pending: old(self).pending | (1u32 << source_id),
                        ..raised
                    })
                } else {
                    *final(self) == raised
                }
            }),
            !(source_id > 0 && source_id < 32) ==> *final(self) == *old(self),
    {
        if source_id > 0 && source_id < 32 {
            self.ip = self.ip | (1u32 << source_id);
            if (self.claimed >> source_id) & 1 == 0 {
                self.pending = self.pending | (1u32 << source_id);
            }
        }
    }

    /// Lower the raw line for a source and clear its pending bit.
    pub fn clear_interrupt(&mut self, source_id: u32)
        ensures
            source_id > 0 && source_id < 32 ==> *final(self) == (Plic {
                ip: old(self).ip & !(1u32 << source_id),
                pending: old(self).pending & !(1u32 << source_id),
                ..*old(self)
            }),
            !(source_id > 0 && source_id < 32) ==> *final(self) == *old(self),
    {
        if source_id > 0 && source_id < 32 {
            self.ip = self.ip & !(1u32 << source_id);
            self.pending = self.pending & !(1u32 << source_id);
        }
    }

    /// The aggregate line to the core: asserted when some pending and
    /// enabled source has priority strictly above the threshold.
    pub fn get_interrupt_level(&self) -> (r: bool)
        ensures
            r == spec_plic_level(*self),
    {
        let pending_enabled = self.pending & self.enabled;
        if pending_enabled == 0 {
            proof {
                lemma_best_masked_empty(*self, 32);
            }
            return false;
        }

        let mut max_priority: u32 = 0;
        let mut id: usize = 1;
        while id < 32
            invariant
                1 <= id <= 32,
                pending_enabled == (self.pending & self.enabled),
                max_priority == best_masked(*self, pending_enabled, id as int).1,
            decreases 32 - id,
        {
            if (pending_enabled >> (id as u32)) & 1 == 1 {
                if self.priorities[id] > max_priority {
                    max_priority = self.priorities[id];
                }
            }
            id = id + 1;
        }

        max_priority > self.threshold
    }
}

/// Claim followed by complete on the claimed source restores its pending
/// bit exactly when the raw device line is still asserted.
pub proof fn lemma_claim_then_complete_pending(p: Plic)
    ensures
        ({
            let claimed = spec_claim(p);
            claimed.1 > 0 ==> {
                let after = spec_complete(claimed.0, claimed.1);
                ((after.pending >> claimed.1) & 1 == 1) <==> ((p.ip >> claimed.1) & 1 == 1)
            }
        }),
{
    let claimed = spec_claim(p);
    if claimed.1 > 0 {
        let id = claimed.1;
        let best = best_masked(p, claim_mask(p), 32);
        lemma_best_masked_bounds(p, claim_mask(p), 32);
        assert(id == best.0 && id < 32);
        let p1 = claimed.0;
        assert(p1.pending == p.pending & !(1u32 << id));
        assert(p1.ip == p.ip);
        let after = spec_complete(p1, id);
        let pend = p1.pending;
        if (p.ip >> id) & 1 == 1 {
            assert(after.pending == (pend | (1u32 << id)));
            assert(id < 32 ==> ((pend | (1u32 << id)) >> id) & 1 == 1) by (bit_vector);
        } else {
            let base = p.pending;
            assert(pend == (base & !(1u32 << id)));
            assert(after.pending == pend);
            assert(id < 32 ==> ((base & !(1u32 << id)) >> id) & 1 == 0) by (bit_vector);
        }
    }
}

/// With no masked source there is no candidate: the chosen priority is
/// zero, so the line stays low for every threshold.
pub proof fn lemma_best_masked_empty(p: Plic, n: int)
    ensures
        best_masked(p, 0, n) == (0u32, 0u32),
    decreases n,
{
    if n > 1 {
        lemma_best_masked_empty(p, n - 1);
        let i = (n - 1) as u32;
        assert((0u32 >> i) & 1 == 0) by (bit_vector);
    }
}

/// The id that `best_masked` chooses is always below the source count.
pub proof fn lemma_best_masked_bounds(p: Plic, mask: u32, n: int)
    requires
        n <= 32,
    ensures
        best_masked(p, mask, n).0 < 32,
    decreases n,
{
    if n > 1 {
        lemma_best_masked_bounds(p, mask, n - 1);
    }
}

} // verus!
