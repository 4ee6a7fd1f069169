//! The call protocol for one unit of guest work.
//!
//! A run drives the single guest entry point with the caller's bytes and
//! reports one `i32` back. The engine call itself is made outside this
//! crate; what is handed to it and how every possible reply is reported
//! are decided — and fixed — here.

use vstd::prelude::*;
use vstd::string::StringExecFns;

use crate::status::{RUN_ENGINE_FAILURE, RUN_WRONG_RETURN_SHAPE};

verus! {

/// The name of the guest entry point every run drives.
pub open spec fn spec_entry_point_name() -> Seq<char> {
    "onData"@
}

/// The guest entry point, as the string handed to the engine.
pub fn entry_point_name() -> (s: String)
    ensures
        s@ == spec_entry_point_name(),
{
    String::from_str("onData")
}

/// One fully-formed guest call: the entry point to invoke, the bytes to
/// hand over, and the byte count as the entry point's signed-integer
/// argument.
#[derive(Debug)]
pub struct GuestCall {
    pub entry_point: String,
    pub data: Vec<u8>,
    pub length_argument: i32,
}

/// How the engine's reply to one guest call reaches the bridge.
#[derive(Debug)]
pub enum GuestOutcome {
    /// The call completed and the guest returned this integer.
    Returned(i32),
    /// The call completed but the guest returned something other than a
    /// single 32-bit integer.
    WrongShape,
    /// The engine reported a failure: a trap, a timeout, a cancellation,
    /// or an engine-level error.
    Failed,
}

/// What a run reports for each possible engine reply: a returned integer
/// passes through untouched — it is guest-defined, not a boundary status —
/// a wrong-shaped return reports the fixed sentinel, and an engine failure
/// reports its own fixed code instead of unwinding across the boundary.
pub fn interpret_outcome(outcome: &GuestOutcome) -> (r: i32)
    ensures
        outcome matches GuestOutcome::Returned(v) ==> r == v,
        outcome is WrongShape ==> r == RUN_WRONG_RETURN_SHAPE,
        outcome is Failed ==> r == RUN_ENGINE_FAILURE,
{
    match outcome {
        GuestOutcome::Returned(v) => *v,
        GuestOutcome::WrongShape => RUN_WRONG_RETURN_SHAPE,
        GuestOutcome::Failed => RUN_ENGINE_FAILURE,
    }
}

} // verus!
