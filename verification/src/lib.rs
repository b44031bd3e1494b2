//! Command-recording core for a native GPU backend: command-buffer pool
//! lifecycle, usage-to-barrier translation, and copy-region translation with
//! format-aware pitch math. The native driver calls themselves live outside
//! this library; everything here computes, on plain values, exactly what those
//! calls are handed.

pub mod barrier;
pub mod encoder;
pub mod flags;
pub mod regions;

use vstd::prelude::*;

verus! {

/// Uniform error for native-call failures, as surfaced to callers.
#[derive(Clone, Copy, Debug, PartialEq, Eq, Structural)]
pub enum DeviceError {
    OutOfHostMemory,
    OutOfDeviceMemory,
    Lost,
}

} // verus!
