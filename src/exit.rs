use vstd::prelude::*;

verus! {

/// How waiting on a child process ended.
#[derive(Debug, Clone, Copy, PartialEq, Eq, Structural)]
pub enum WaitOutcome {
    /// The process exited; `None` when it was ended by a signal and has no code.
    Exited(Option<i32>),
    /// Waiting itself failed.
    WaitFailed,
}

/// An exit notice: the exit code and the time of exit in nanoseconds since
/// the epoch. A timestamp of 0 means "not yet exited".
pub type ExitNotice = (u32, i128);

pub open spec fn has_exited(n: ExitNotice) -> bool {
    n.1 != 0
}

/// The code an outcome reports: the process's own code (reinterpreted as
/// unsigned), 0 when it has none or the wait failed.
pub open spec fn exit_code(o: WaitOutcome) -> u32 {
    match o {
        WaitOutcome::Exited(Some(c)) => c as u32,
        WaitOutcome::Exited(None) => 0,
        WaitOutcome::WaitFailed => 0,
    }
}

pub open spec fn exit_notice_spec(o: WaitOutcome, now: i128) -> ExitNotice {
    (exit_code(o), now)
}

/// The value an exit channel holds before anything is published.
pub fn initial_exit_notice() -> (r: ExitNotice)
    ensures
        r == (0u32, 0i128),
        !has_exited(r),
{
    (0, 0)
}

/// The notice to publish for `outcome`, observed at time `now`.
pub fn exit_notice_at(outcome: WaitOutcome, now: i128) -> (r: ExitNotice)
    ensures
        r == exit_notice_spec(outcome, now),
{
    let code: u32 = match outcome {
        WaitOutcome::Exited(Some(c)) => c as u32,
        WaitOutcome::Exited(None) => 0,
        WaitOutcome::WaitFailed => 0,
    };
    (code, now)
}

/// Relies on time's `OffsetDateTime::now_utc` and its `unix_timestamp_nanos`:
/// the current time in nanoseconds since the epoch. Nothing is promised of it.
#[verifier::external_body]
fn now_unix_nanos() -> (r: i128) {
    time::OffsetDateTime::now_utc().unix_timestamp_nanos()
}

/// The notice to publish for `outcome`, stamped with the current time.
pub fn exit_notice(outcome: WaitOutcome) -> (r: ExitNotice)
    ensures
        r == exit_notice_spec(outcome, r.1),
{
    let now = now_unix_nanos();
    exit_notice_at(outcome, now)
}

/// Whether a stop must wait for the exit notice: only when a channel exists
/// and it does not report an exit yet.
pub fn needs_exit_wait(current: Option<ExitNotice>) -> (r: bool)
    ensures
        r == (current matches Some(n) && !has_exited(n)),
{
    match current {
        Some(n) => n.1 == 0,
        None => false,
    }
}

/// An exit notice reports an exit exactly when it was published for an
/// ended wait, stamped with a nonzero time; the channel's initial value
/// reports none. The published code does not depend on the time.
pub proof fn lemma_exit_notice_marks_exit(o: WaitOutcome, now: i128, later: i128)
    requires
        now != 0,
    ensures
        has_exited(exit_notice_spec(o, now)),
        !has_exited((0u32, 0i128)),
        exit_notice_spec(o, now).1 == now,
        exit_notice_spec(o, now).0 == exit_notice_spec(o, later).0,
{
}

} // verus!
