//! The pipeline's error taxonomy.
//!
//! Capability-query failures are absorbed locally (see the capability
//! module) and never surface here. Every other failure aborts the pipeline
//! and reaches the caller as a typed error carrying the device layer's
//! diagnostic text.

use vstd::prelude::*;

verus! {

/// Which pipeline failure occurred. Individual capability-query failures
/// have no variant: they degrade to defaults instead of aborting.
#[derive(Clone, Copy, PartialEq, Eq, Structural, Debug)]
pub enum ErrorKind {
    /// The input vectors were rejected before any device work started.
    Validation,
    /// Device, context, or queue construction failed.
    ContextBuild,
    /// The kernel source failed to compile for the bound device.
    KernelBuild,
    /// Device buffer creation or upload failed.
    Allocation,
    /// Kernel enqueue failed; no partial output is trusted or read back.
    Execution,
    /// The device-to-host transfer of the partial sums failed.
    Readback,
}

/// A fatal pipeline error: its kind, plus the underlying diagnostic text
/// from the device layer (or from input validation).
#[derive(Clone, Debug)]
pub struct DeviceError {
    pub kind: ErrorKind,
    pub detail: String,
}

impl DeviceError {
    /// Pairs a failure kind with its diagnostic text.
    pub fn new(kind: ErrorKind, detail: String) -> (r: DeviceError)
        ensures
            r.kind == kind,
            r.detail == detail,
    {
        DeviceError { kind, detail }
    }
}

} // verus!
