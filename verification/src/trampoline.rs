//! Marshaling of one host-callback invocation.
//!
//! When the guest calls out, the engine hands the trampoline a byte buffer;
//! the trampoline turns that into one raw host call of the fixed shape
//! (context, bytes, length). The raw call itself is made outside this
//! crate; everything decided about it is decided here.

use vstd::prelude::*;

use crate::builder::HostFunctionEntry;

verus! {

/// The exact raw host call one trampoline invocation makes: which callback
/// (as the opaque token it was registered under), the context token, the
/// bytes the callback may read and write, and how many of them there are.
pub struct TrampolineCall {
    pub callback: u64,
    pub context: u64,
    pub payload: Vec<u8>,
    pub length: u64,
}

/// Marshals one engine-side invocation of a registered host function into
/// the raw call the trampoline makes. The context token is passed exactly
/// as registered — every value, `0` and `u64::MAX` alike — the payload is
/// the engine's buffer unchanged, and the length is precisely the number
/// of payload bytes. The raw function's integer result is the trampoline's
/// result, forwarded by the caller without interpretation.
pub fn prepare_trampoline_call(entry: &HostFunctionEntry, payload: Vec<u8>) -> (c: TrampolineCall)
    ensures
        c.callback == entry.callback,
        c.context == entry.context,
        c.payload@ == payload@,
        c.length == payload@.len(),
{
    let length: u64 = payload.len() as u64;
    TrampolineCall { callback: entry.callback, context: entry.context, payload, length }
}

} // verus!
