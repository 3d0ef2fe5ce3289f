//! Errors of the diagnostic byte sink.
use vstd::prelude::*;

verus! {

/// Failure to transmit a byte. Writes to the diagnostic sink are never
/// escalated: the fault path ignores this error.
#[derive(Clone, Copy, Debug, PartialEq, Eq, Structural)]
pub enum SerialError {
    Unknown,
}

} // verus!
