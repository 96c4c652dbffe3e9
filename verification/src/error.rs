//! The ways in which building a rendering context fails. Each is fatal:
//! nothing is retried and nothing acquired so far is released.

use vstd::prelude::*;

verus! {

#[derive(Debug, PartialEq, Eq)]
pub enum InitError {
    /// The Vulkan library could not be found, or lacks a required symbol.
    /// Carries the loader's own account of the failure.
    LoaderError(String),
    /// The available layers could not be enumerated. Carries the result code.
    LayerQueryError(i32),
    /// Diagnostics were asked for and the validation layer is not installed.
    UnsupportedLayerError,
    /// The loaded API version could not be queried. Carries the result code.
    VersionQueryError(i32),
    /// Vulkan rejected the instance creation descriptor. Carries the result
    /// code.
    InstanceCreationError(i32),
    /// The instance exists, but the diagnostics messenger could not be
    /// attached to it. Carries the result code.
    DiagnosticsInstallError(i32),
}

} // verus!
