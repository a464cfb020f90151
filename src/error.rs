use vstd::prelude::*;

verus! {

/// The ways a dispatch can fail.
#[derive(Debug, Clone, Copy, PartialEq, Eq, Structural)]
pub enum CommanderError {
    /// No action is registered under the requested name.
    NotFound,
    /// The argument vector held no command name.
    EmptyInput,
}

} // verus!
