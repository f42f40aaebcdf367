//! Bookkeeping for discovery: which DACs have already been reported.

use crate::protocol::MacAddress;
use vstd::prelude::*;

verus! {

/// The MAC addresses of the DACs reported so far, each once, in the order
/// they were first heard.
pub struct SeenDacs {
    pub macs: Vec<MacAddress>,
}

/// Whether `m` is among `macs`.
pub open spec fn mac_seen(macs: Seq<MacAddress>, m: MacAddress) -> bool {
    exists|k: int| 0 <= k < macs.len() && macs[k].address@ == m.address@
}

impl SeenDacs {
    /// Each address appears once.
    pub open spec fn wf(&self) -> bool {
        forall|j: int, k: int|
            0 <= j < k < self.macs@.len() ==> self.macs@[j].address@ != self.macs@[k].address@
    }

    /// Nothing seen yet.
    pub fn new() -> (r: SeenDacs)
        ensures
            r.wf(),
            r.macs@.len() == 0,
    {
        SeenDacs { macs: Vec::new() }
    }

    /// Whether `m` was reported before.
    pub fn contains(&self, m: &MacAddress) -> (r: bool)
        ensures
            r == mac_seen(self.macs@, *m),
    {
        let mut k: usize = 0;
        while k < self.macs.len()
            invariant
                k <= self.macs@.len(),
                forall|j: int| 0 <= j < k ==> self.macs@[j].address@ != m.address@,
            decreases self.macs@.len() - k,
        {
            if self.macs[k] == *m {
                return true;
            }
            k = k + 1;
        }
        false
    }

    /// Notes the DAC `m`; true when it was not seen before, so that it is to
    /// be reported now.
    pub fn note(&mut self, m: MacAddress) -> (r: bool)
        requires
            old(self).wf(),
        ensures
            final(self).wf(),
            r == !mac_seen(old(self).macs@, m),
            r ==> final(self).macs@ == old(self).macs@.push(m),
            !r ==> final(self).macs@ == old(self).macs@,
    {
        if self.contains(&m) {
            false
        } else {
            self.macs.push(m);
            true
        }
    }
}

}
