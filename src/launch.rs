//! What the process does once the application runtime hands control back.
use vstd::prelude::*;

verus! {

/// The exit status of a process that the runtime failure aborts.
pub const FATAL_EXIT_STATUS: i32 = 101;

/// The diagnostic written to standard error before a fatal abort.
pub open spec fn fatal_message_spec() -> Seq<char> {
    "error while running tauri application"@
}

/// How the process ends once the runtime has returned.
#[derive(Clone, Copy, Debug, PartialEq, Eq, Structural)]
pub enum Termination {
    /// The runtime shut down normally; nothing is left to do.
    Graceful,
    /// The runtime failed: write the fatal diagnostic and end the process
    /// at once with `status`, trying nothing further.
    Abort { status: i32 },
}

/// The termination that a run's outcome calls for: a normal return ends
/// gracefully; any error aborts with the fatal status.
pub open spec fn termination_of<E>(outcome: Result<(), E>) -> Termination {
    match outcome {
        Ok(_) => Termination::Graceful,
        Err(_) => Termination::Abort { status: FATAL_EXIT_STATUS },
    }
}

impl Termination {
    /// Whether the process is to be aborted.
    pub fn is_fatal(&self) -> (r: bool)
        ensures
            r == (*self is Abort),
    {
        match self {
            Termination::Graceful => false,
            Termination::Abort { .. } => true,
        }
    }

    /// The status to end the process with, where the process is aborted.
    pub fn exit_status(&self) -> (r: Option<i32>)
        ensures
            match *self {
                Termination::Graceful => r is None,
                Termination::Abort { status } => r == Some(status),
            },
    {
        match self {
            Termination::Graceful => None,
            Termination::Abort { status } => Some(*status),
        }
    }
}

/// The fatal diagnostic, as an owned string.
pub fn fatal_message() -> (r: String)
    ensures
        r@ == fatal_message_spec(),
{
    "error while running tauri application".to_owned()
}

/// Decides how the process ends from what the runtime's run returned.
/// There is no retry: an error is always final.
pub fn conclude<E>(outcome: &Result<(), E>) -> (r: Termination)
    ensures
        r == termination_of(*outcome),
        outcome is Ok <==> r == Termination::Graceful,
        outcome is Err <==> r == (Termination::Abort { status: FATAL_EXIT_STATUS }),
        r matches Termination::Abort { status } ==> status != 0,
{
    match outcome {
        Ok(_) => Termination::Graceful,
        Err(_) => Termination::Abort { status: FATAL_EXIT_STATUS },
    }
}

} // verus!
