//! The errors that the console reports to its operator.

use vstd::prelude::*;

verus! {

/// A failure of a console command: a request the operator can correct, or
/// a fault of the console or the agent.
#[derive(Debug, Clone, PartialEq, Eq)]
pub enum CliError {
    Usage { message: String },
    Internal { message: String },
}

impl CliError {
    /// A request that the operator can correct.
    pub fn usage(message: String) -> (res: Self)
        ensures
            res == (CliError::Usage { message }),
    {
        CliError::Usage { message }
    }

    /// A fault of the console or the agent.
    pub fn internal(message: String) -> (res: Self)
        ensures
            res == (CliError::Internal { message }),
    {
        CliError::Internal { message }
    }
}

} // verus!
