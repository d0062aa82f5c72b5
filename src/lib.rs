//! A verified safety layer around the ROCm SMI hardware-monitoring library,
//! which is opened at run time rather than linked.
//!
//! The library holds what can be decided without touching native code:
//! the translation of native status codes into a closed error taxonomy,
//! the handling of symbol lookups that fail, the decoding of the text
//! buffers that the native library fills, the initialization options,
//! and the lifecycle of a handle, which makes sure that the native
//! shutdown entry point runs at most once and that the loaded library is
//! released at most once.

pub mod error;
pub mod flags;
pub mod handle;
pub mod text;

use vstd::prelude::*;

verus! {

/// The name under which the native library is looked up when no path is given.
pub const LIB_PATH: &'static str = "librocm_smi64.so";

} // verus!
