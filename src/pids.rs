use vstd::prelude::*;

verus! {

/// The VMM's own process id plus the ids of affiliated helpers.
/// An id of 0, or an absent one, means "not started" and is never signaled.
#[derive(Debug)]
pub struct Pids {
    pub vmm_pid: Option<u32>,
    pub affiliated_pids: Vec<u32>,
}

/// Mathematical model of [`Pids`].
pub struct PidsModel {
    pub vmm_pid: Option<u32>,
    pub affiliated: Seq<u32>,
}

impl View for Pids {
    type V = PidsModel;

    open spec fn view(&self) -> PidsModel {
        PidsModel { vmm_pid: self.vmm_pid, affiliated: self.affiliated_pids@ }
    }
}

impl PidsModel {
    pub open spec fn add_affiliated(self, pid: u32) -> PidsModel {
        PidsModel { vmm_pid: self.vmm_pid, affiliated: self.affiliated.push(pid) }
    }

    pub open spec fn with_vmm(self, pid: Option<u32>) -> PidsModel {
        PidsModel { vmm_pid: pid, affiliated: self.affiliated }
    }
}

/// The positive ids of `s`, in order.
pub open spec fn positive_pids(s: Seq<u32>) -> Seq<u32>
    decreases s.len(),
{
    if s.len() == 0 {
        Seq::empty()
    } else {
        let rest = positive_pids(s.drop_last());
        if s.last() > 0 { rest.push(s.last()) } else { rest }
    }
}

/// Every id kept by [`positive_pids`] is positive and comes from `s`.
pub proof fn lemma_positive_pids(s: Seq<u32>)
    ensures
        forall|k: int| 0 <= k < positive_pids(s).len() ==> #[trigger] positive_pids(s)[k] > 0
            && s.contains(positive_pids(s)[k]),
    decreases s.len(),
{
    if s.len() > 0 {
        lemma_positive_pids(s.drop_last());
        let rest = positive_pids(s.drop_last());
        assert forall|k: int| 0 <= k < positive_pids(s).len() implies #[trigger] positive_pids(s)[k] > 0
            && s.contains(positive_pids(s)[k]) by {
            if k < rest.len() {
                let x = rest[k];
                assert(s.drop_last().contains(x));
                let j = choose|j: int| 0 <= j < s.drop_last().len() && s.drop_last()[j] == x;
                assert(s[j] == x);
            } else {
                assert(s[s.len() - 1] == s.last());
            }
        }
    }
}

impl Pids {
    /// An empty identity set: nothing started.
    pub fn new() -> (r: Pids)
        ensures
            r@.vmm_pid is None,
            r@.affiliated.len() == 0,
    {
        Pids { vmm_pid: None, affiliated_pids: Vec::new() }
    }

    /// A copy of this identity set.
    pub fn copy(&self) -> (r: Pids)
        ensures
            r@ == self@,
    {
        let mut aff: Vec<u32> = Vec::new();
        let mut i: usize = 0;
        while i < self.affiliated_pids.len()
            invariant
                i <= self.affiliated_pids@.len(),
                aff@ == self.affiliated_pids@.take(i as int),
            decreases self.affiliated_pids@.len() - i,
        {
            aff.push(self.affiliated_pids[i]);
            i += 1;
            assert(aff@ =~= self.affiliated_pids@.take(i as int));
        }
        assert(aff@ =~= self.affiliated_pids@);
        Pids { vmm_pid: self.vmm_pid, affiliated_pids: aff }
    }
}

} // verus!
