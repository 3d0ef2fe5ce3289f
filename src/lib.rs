//! Address translation and fault handling core of a freestanding AArch64
//! boot image: descriptor encoding, an owned three-level page-table store
//! with its mapping engine, exception-level register sequencing, and the
//! synchronous fault classifier and report.
use vstd::prelude::*;

pub mod boot;
pub mod descriptor;
pub mod fault;
pub mod handler;
pub mod logger;
pub mod regs;
pub mod serial;
pub mod table;

verus! {

} // verus!
