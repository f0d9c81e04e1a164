//! The counting admission limiter that bounds how many health-check probes
//! are in flight at once. A probe may start only once admitted, and must
//! release its slot when it finishes; the limiter's invariant keeps the
//! number of admitted, unreleased probes at or below the configured cap.

use vstd::prelude::*;

verus! {

/// The admission state of the health-check sweep: how many probes hold a
/// slot, and how many slots exist.
pub struct AdmissionGate {
    pub in_flight: usize,
    pub limit: usize,
}

impl AdmissionGate {
    /// The limiter's invariant: no more probes hold a slot than the cap allows.
    pub open spec fn wf(&self) -> bool {
        self.in_flight <= self.limit
    }

    /// A limiter with every slot free.
    pub fn new(limit: usize) -> (r: Self)
        ensures
            r.wf(),
            r.limit == limit,
            r.in_flight == 0,
    {
        AdmissionGate { in_flight: 0, limit }
    }

    /// Admits one probe exactly when a slot is free.
    pub fn try_admit(&mut self) -> (r: bool)
        requires
            old(self).wf(),
        ensures
            final(self).wf(),
            final(self).limit == old(self).limit,
            r == (old(self).in_flight < old(self).limit),
            r ==> final(self).in_flight == old(self).in_flight + 1,
            !r ==> final(self).in_flight == old(self).in_flight,
    {
        if self.in_flight < self.limit {
            self.in_flight = self.in_flight + 1;
            true
        } else {
            false
        }
    }

    /// Returns an admitted probe's slot.
    pub fn release(&mut self)
        requires
            old(self).wf(),
            old(self).in_flight > 0,
        ensures
            final(self).wf(),
            final(self).limit == old(self).limit,
            final(self).in_flight == old(self).in_flight - 1,
    {
        self.in_flight = self.in_flight - 1;
    }
}

/// How many probes hold a slot after a sequence of gate events, each event
/// either an admission attempt (`true`) or a finished probe returning its
/// slot (`false`).
pub open spec fn gate_run(limit: int, evs: Seq<bool>) -> int
    decreases evs.len(),
{
    if evs.len() == 0 {
        0
    } else {
        let prev = gate_run(limit, evs.drop_last());
        if evs.last() {
            if prev < limit { prev + 1 } else { prev }
        } else {
            if prev > 0 { prev - 1 } else { prev }
        }
    }
}

/// Law: however admission attempts and releases interleave, the number of
/// probes in flight never exceeds the cap.
pub proof fn lemma_gate_never_exceeds(limit: int, evs: Seq<bool>)
    requires
        limit >= 0,
    ensures
        0 <= gate_run(limit, evs) <= limit,
    decreases evs.len(),
{
    if evs.len() > 0 {
        lemma_gate_never_exceeds(limit, evs.drop_last());
    }
}

} // verus!
