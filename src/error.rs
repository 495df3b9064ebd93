use vstd::prelude::*;

verus! {

/// The closed set of failures that the lifecycle operations report.
#[derive(Debug, Clone)]
pub enum Error {
    /// A resource the operation needs (control client, process id) is not established.
    NotFound(String),
    /// A child process could not be created.
    Spawn(String),
    /// Delivering a termination signal failed for a reason other than "no such process".
    Signal(String),
    /// Reading process or thread state failed.
    Introspection(String),
    /// The requested device kind is not supported.
    Unimplemented(String),
}

} // verus!
