//! Error taxonomy of the core: validation failures, missing items, and the
//! full-inbox condition that admission and reinstatement surface.

use vstd::prelude::*;

verus! {

/// Errors raised by the core rules.
#[derive(Debug, PartialEq)]
pub enum CoreError {
    ValidationError(String),
    ItemNotFound,
    InvalidStatusTransition,
    InboxFull,
}

/// The single failure of capacity-bounded admission.
#[derive(Debug, Clone, Copy, PartialEq, Eq, Structural)]
pub enum CapError {
    Full,
}

} // verus!
