use vstd::prelude::*;

verus! {

/// Why an operation failed.
#[derive(Debug, PartialEq, Eq)]
pub enum Error {
    /// An argument out of range: a brightness outside [0, 1], or a converter channel
    /// outside 0..=3. Never retried.
    Validation,
    /// A bus or driver failure, carrying the transport's own message unchanged.
    Transport(String),
    /// An LED channel outside 0..=17 reached the mux, or an event arrived that the
    /// operation in progress did not ask for: a programming error.
    InvariantViolation,
}

} // verus!
