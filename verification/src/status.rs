//! Fixed integer codes reported across the call boundary.
//!
//! Builder-surface calls report a `u32`, `0` for success, and a small fixed
//! code distinct per call site for each boundary or configuration failure.
//! `run` reports an `i32` whose value is normally guest-defined; the codes
//! here are the fixed values it reports when the guest was never reached or
//! returned the wrong shape.

use vstd::prelude::*;

verus! {

/// The call succeeded; any out-value that accompanies it is valid.
pub const STATUS_OK: u32 = 0;

/// `build` was asked for a sandbox before a module path was set.
pub const STATUS_MODULE_PATH_UNSET: u32 = 1;

/// `set_module_path` was given a null builder handle.
pub const STATUS_NULL_BUILDER_SET_PATH: u32 = 2;

/// `set_module_path` was given a path string it could not read.
pub const STATUS_BAD_PATH_STRING: u32 = 3;

/// `register_host_function` was given a null builder handle.
pub const STATUS_NULL_BUILDER_REGISTER: u32 = 4;

/// `register_host_function` was given a name string it could not read.
pub const STATUS_BAD_NAME_STRING: u32 = 5;

/// `build` was given a null builder handle.
pub const STATUS_NULL_BUILDER_BUILD: u32 = 6;

/// The engine rejected configuration, callback registration, runtime load,
/// or module load during `build`; surfaced as one generic failure code
/// rather than a panic across the boundary.
pub const STATUS_ENGINE_REJECTED_BUILD: u32 = 9;

/// `run` was given a null sandbox handle or a null data pointer; the guest
/// was never invoked.
pub const RUN_NULL_ARGUMENT: i32 = 7;

/// The guest call completed but returned something other than a single
/// 32-bit integer.
pub const RUN_WRONG_RETURN_SHAPE: i32 = 8;

/// The engine reported a failure for the guest call (trap, timeout,
/// cancellation, engine-level error); surfaced as one fixed code rather
/// than a panic across the boundary.
pub const RUN_ENGINE_FAILURE: i32 = 10;

} // verus!
