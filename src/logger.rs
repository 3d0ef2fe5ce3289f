//! Settings of the serial logger.
use vstd::prelude::*;

verus! {

/// The UART that carries log output.
#[derive(Clone, Copy, Debug, PartialEq, Eq, Structural)]
pub enum Type {
    A,
    B,
    C,
}

} // verus!
