//! The fixed resource envelope applied by every build.
//!
//! None of these limits are caller-configurable; they are compiled-in
//! constants, and every build hands the engine exactly this envelope.

use vstd::prelude::*;

verus! {

/// Guest heap, in bytes.
pub const GUEST_HEAP_BYTES: u64 = 1024 * 1024;

/// Guest stack, in bytes.
pub const GUEST_STACK_BYTES: u64 = 4 * 1024;

/// Buffer for host-function calls, in bytes.
pub const HOST_FUNCTION_BUFFER_BYTES: u64 = 16 * 1024;

/// Guest output buffer, in bytes.
pub const GUEST_OUTPUT_BUFFER_BYTES: u64 = 16 * 1024;

/// Guest input buffer, in bytes.
pub const GUEST_INPUT_BUFFER_BYTES: u64 = 16 * 1024;

/// Heap of the guest module itself, in bytes.
pub const MODULE_HEAP_BYTES: u64 = 7 * 1024;

/// Stack of the guest module itself, in bytes.
pub const MODULE_STACK_BYTES: u64 = 1024;

/// Upper bound on the execution time of one guest function call, in
/// milliseconds.
pub const MAX_EXECUTION_MILLIS: u64 = 65535;

/// Upper bound on the wait for a cancellation request to take effect, in
/// milliseconds.
pub const MAX_CANCEL_WAIT_MILLIS: u64 = 255;

/// The resource envelope a build hands to the engine.
#[derive(Clone, Copy, PartialEq, Eq, Structural, Debug)]
pub struct Config {
    pub guest_heap_bytes: u64,
    pub guest_stack_bytes: u64,
    pub host_function_buffer_bytes: u64,
    pub guest_output_buffer_bytes: u64,
    pub guest_input_buffer_bytes: u64,
    pub module_heap_bytes: u64,
    pub module_stack_bytes: u64,
    pub max_execution_millis: u64,
    pub max_cancel_wait_millis: u64,
}

/// The one envelope every build applies.
pub open spec fn spec_envelope() -> Config {
    Config {
        guest_heap_bytes: GUEST_HEAP_BYTES,
        guest_stack_bytes: GUEST_STACK_BYTES,
        host_function_buffer_bytes: HOST_FUNCTION_BUFFER_BYTES,
        guest_output_buffer_bytes: GUEST_OUTPUT_BUFFER_BYTES,
        guest_input_buffer_bytes: GUEST_INPUT_BUFFER_BYTES,
        module_heap_bytes: MODULE_HEAP_BYTES,
        module_stack_bytes: MODULE_STACK_BYTES,
        max_execution_millis: MAX_EXECUTION_MILLIS,
        max_cancel_wait_millis: MAX_CANCEL_WAIT_MILLIS,
    }
}

impl Config {
    /// Builds the fixed envelope.
    pub fn envelope() -> (c: Config)
        ensures
            c == spec_envelope(),
    {
        Config {
            guest_heap_bytes: GUEST_HEAP_BYTES,
            guest_stack_bytes: GUEST_STACK_BYTES,
            host_function_buffer_bytes: HOST_FUNCTION_BUFFER_BYTES,
            guest_output_buffer_bytes: GUEST_OUTPUT_BUFFER_BYTES,
            guest_input_buffer_bytes: GUEST_INPUT_BUFFER_BYTES,
            module_heap_bytes: MODULE_HEAP_BYTES,
            module_stack_bytes: MODULE_STACK_BYTES,
            max_execution_millis: MAX_EXECUTION_MILLIS,
            max_cancel_wait_millis: MAX_CANCEL_WAIT_MILLIS,
        }
    }
}

} // verus!
