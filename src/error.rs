use vstd::prelude::*;

verus! {

/// An error carried back to the caller of a tool, with a readable message.
pub struct DriftDataError {
    pub message: String,
}

/// The error of the transaction-data tools (deposit and withdraw).
#[derive(Debug, Clone, Copy, PartialEq, Eq)]
pub struct DriftError;

impl DriftDataError {
    /// An error with the given message.
    pub fn new(message: &str) -> (r: DriftDataError)
        ensures
            r.message@ == message@,
    {
        DriftDataError { message: message.to_string() }
    }

    /// The message, as the text shown to the caller.
    pub fn to_string(&self) -> (r: String)
        ensures
            r@ == self.message@,
    {
        self.message.clone()
    }
}

} // verus!
