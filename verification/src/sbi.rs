//! Values exchanged with the supervisor binary interface.
use vstd::prelude::*;

verus! {

/// Result of an SBI call: `error` goes back in `a0`, `value` in `a1`.
#[derive(Debug, Clone, Copy, PartialEq, Eq, Structural)]
pub struct SbiRet {
    /// Error number.
    pub error: usize,
    /// Result value.
    pub value: usize,
}

} // verus!
