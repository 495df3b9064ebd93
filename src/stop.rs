use vstd::prelude::*;
use crate::error::Error;
use crate::pids::{Pids, PidsModel, positive_pids, lemma_positive_pids};

verus! {

/// The termination signal that a stop delivers.
#[derive(Debug, Clone, Copy, PartialEq, Eq, Structural)]
pub enum Signal {
    /// Graceful termination (SIGTERM).
    Term,
    /// Forced termination (SIGKILL).
    Kill,
}

/// What came of delivering a signal to a process.
#[derive(Debug, Clone)]
pub enum SignalOutcome {
    Delivered,
    /// The process no longer exists: it has already exited.
    NoSuchProcess,
    /// Delivery failed for another reason, described by the message.
    Failed(String),
}

/// The signals that one stop sends.
#[derive(Debug)]
pub struct StopPlan {
    pub signal: Signal,
    /// The VMM process, signaled first; a failure here fails the stop.
    pub vmm: Option<u32>,
    /// Affiliated processes, signaled best-effort afterwards.
    pub affiliated: Vec<u32>,
}

pub open spec fn signal_for(force: bool) -> Signal {
    if force { Signal::Kill } else { Signal::Term }
}

pub open spec fn vmm_target(p: PidsModel) -> Option<u32> {
    match p.vmm_pid {
        Some(v) => if v > 0 { Some(v) } else { None },
        None => None,
    }
}

proof fn lemma_positive_push(s: Seq<u32>, x: u32)
    ensures
        positive_pids(s.push(x)) == if x > 0 { positive_pids(s).push(x) } else { positive_pids(s) },
{
    assert(s.push(x).drop_last() =~= s);
}

/// Decides which processes a stop signals, and with which signal.
pub fn stop_plan(pids: &Pids, force: bool) -> (r: StopPlan)
    ensures
        r.signal == signal_for(force),
        r.vmm == vmm_target(pids@),
        r.affiliated@ == positive_pids(pids@.affiliated),
{
    let signal = if force { Signal::Kill } else { Signal::Term };
    let vmm = match pids.vmm_pid {
        Some(v) => if v > 0 { Some(v) } else { None },
        None => None,
    };
    let mut affiliated: Vec<u32> = Vec::new();
    let mut i: usize = 0;
    while i < pids.affiliated_pids.len()
        invariant
            i <= pids.affiliated_pids@.len(),
            affiliated@ == positive_pids(pids.affiliated_pids@.take(i as int)),
        decreases pids.affiliated_pids@.len() - i,
    {
        let a = pids.affiliated_pids[i];
        proof {
            assert(pids.affiliated_pids@.take(i + 1) =~= pids.affiliated_pids@.take(i as int).push(a));
            lemma_positive_push(pids.affiliated_pids@.take(i as int), a);
        }
        if a > 0 {
            affiliated.push(a);
        }
        i += 1;
    }
    assert(pids.affiliated_pids@.take(i as int) =~= pids.affiliated_pids@);
    StopPlan { signal, vmm, affiliated }
}

/// Decides what follows the signal to the VMM process: `Ok(true)` when the
/// stop must wait for the exit notice, `Ok(false)` when the process was
/// already gone, and a signal error otherwise.
pub fn vmm_signal_decision(outcome: SignalOutcome) -> (r: Result<bool, Error>)
    ensures
        outcome is Delivered ==> r == Ok::<bool, Error>(true),
        outcome is NoSuchProcess ==> r == Ok::<bool, Error>(false),
        outcome is Failed ==> (r matches Err(Error::Signal(m)) && m == outcome->Failed_0),
{
    match outcome {
        SignalOutcome::Delivered => Ok(true),
        SignalOutcome::NoSuchProcess => Ok(false),
        SignalOutcome::Failed(msg) => Err(Error::Signal(msg)),
    }
}

/// A stop never signals a process id of 0, and never one that is absent:
/// the VMM is signaled only when its id is set and positive, and every
/// affiliated id that is signaled is positive and one of the recorded ones.
pub proof fn lemma_stop_signals_only_positive_ids(p: PidsModel)
    ensures
        vmm_target(p) matches Some(v) ==> v > 0 && p.vmm_pid == Some(v),
        p.vmm_pid is None ==> vmm_target(p) is None,
        p.vmm_pid == Some(0u32) ==> vmm_target(p) is None,
        forall|k: int| 0 <= k < positive_pids(p.affiliated).len() ==> #[trigger] positive_pids(
            p.affiliated,
        )[k] > 0 && p.affiliated.contains(positive_pids(p.affiliated)[k]),
{
    lemma_positive_pids(p.affiliated);
}

} // verus!
