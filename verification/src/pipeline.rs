//! The pipeline's control decisions: which stage follows which, and how a
//! failure at any stage maps to its typed error.
//!
//! The device work itself (context construction, buffer allocation, kernel
//! build, enqueue, readback) happens outside the library; the surrounding
//! application performs one stage at a time and reports each outcome here.
//! This module decides what comes next: the following stage on success,
//! completion after the last stage, or an abort carrying the stage's error
//! kind on failure. An abort is terminal — no decision ever re-enters the
//! pipeline from an abort — so a failed stage can never be followed by a
//! later one.

use vstd::prelude::*;

use crate::error::DeviceError;
use crate::error::ErrorKind;

verus! {

/// The device-facing stages of one pipeline invocation, in the order they
/// run. Capability inspection and work decomposition precede these but
/// cannot abort: query failures degrade to defaults and the decomposition
/// is total.
#[derive(Clone, Copy, PartialEq, Eq, Structural, Debug)]
pub enum Stage {
    /// Construct the device context and command queue.
    BuildContext,
    /// Allocate the two read-only input buffers and the write-only partial
    /// sum buffer, and upload the inputs.
    AllocateBuffers,
    /// Compile the reduction kernel for the bound device and bind the three
    /// buffers as its arguments.
    BuildKernel,
    /// Enqueue the kernel with the partition's global and local work sizes.
    EnqueueKernel,
    /// Read the per-work-group partial sums back to the host.
    ReadResults,
}

/// What the pipeline does after a stage reports its outcome.
#[derive(Clone, Debug)]
pub enum Progress {
    /// Perform the given stage next.
    Advanced(Stage),
    /// The last stage succeeded; the partial sums are on the host.
    Completed,
    /// A stage failed; the pipeline stops here and surfaces this error.
    /// No later stage is attempted and no partial output is trusted.
    Aborted(DeviceError),
}

/// The stage that follows a successful stage, or `None` after the last.
pub open spec fn spec_next_stage(stage: Stage) -> Option<Stage> {
    match stage {
        Stage::BuildContext => Option::Some(Stage::AllocateBuffers),
        Stage::AllocateBuffers => Option::Some(Stage::BuildKernel),
        Stage::BuildKernel => Option::Some(Stage::EnqueueKernel),
        Stage::EnqueueKernel => Option::Some(Stage::ReadResults),
        Stage::ReadResults => Option::None,
    }
}

/// The error kind a failure at each stage surfaces as.
pub open spec fn spec_error_kind(stage: Stage) -> ErrorKind {
    match stage {
        Stage::BuildContext => ErrorKind::ContextBuild,
        Stage::AllocateBuffers => ErrorKind::Allocation,
        Stage::BuildKernel => ErrorKind::KernelBuild,
        Stage::EnqueueKernel => ErrorKind::Execution,
        Stage::ReadResults => ErrorKind::Readback,
    }
}

/// The decision taken after `stage` reports success or failure, with
/// `detail` the device layer's diagnostic text for a failure.
pub open spec fn spec_advance(stage: Stage, succeeded: bool, detail: String) -> Progress {
    if succeeded {
        match spec_next_stage(stage) {
            Option::Some(next) => Progress::Advanced(next),
            Option::None => Progress::Completed,
        }
    } else {
        Progress::Aborted(DeviceError { kind: spec_error_kind(stage), detail })
    }
}

/// The first stage of every invocation.
pub fn initial_stage() -> (s: Stage)
    ensures
        s == Stage::BuildContext,
{
    Stage::BuildContext
}

/// Decides what follows the reported outcome of one stage: the next stage
/// on success, completion after the final stage, or an abort carrying the
/// failed stage's error kind and the given diagnostic text. Failures are
/// never retried and never absorbed.
pub fn advance(stage: Stage, succeeded: bool, detail: String) -> (r: Progress)
    ensures
        r == spec_advance(stage, succeeded, detail),
{
    if succeeded {
        match stage {
            Stage::BuildContext => Progress::Advanced(Stage::AllocateBuffers),
            Stage::AllocateBuffers => Progress::Advanced(Stage::BuildKernel),
            Stage::BuildKernel => Progress::Advanced(Stage::EnqueueKernel),
            Stage::EnqueueKernel => Progress::Advanced(Stage::ReadResults),
            Stage::ReadResults => Progress::Completed,
        }
    } else {
        match stage {
            Stage::BuildContext => Progress::Aborted(
                DeviceError::new(ErrorKind::ContextBuild, detail),
            ),
            Stage::AllocateBuffers => Progress::Aborted(
                DeviceError::new(ErrorKind::Allocation, detail),
            ),
            Stage::BuildKernel => Progress::Aborted(
                DeviceError::new(ErrorKind::KernelBuild, detail),
            ),
            Stage::EnqueueKernel => Progress::Aborted(
                DeviceError::new(ErrorKind::Execution, detail),
            ),
            Stage::ReadResults => Progress::Aborted(
                DeviceError::new(ErrorKind::Readback, detail),
            ),
        }
    }
}

/// A buffer allocation failure aborts the pipeline with an allocation
/// error, and neither the kernel stages nor the readback can follow it:
/// the enqueue stage is entered only by a successful kernel build, the
/// kernel build only by a successful allocation, and the readback only by a
/// successful enqueue — while an abort, carrying no next stage, is
/// terminal.
pub proof fn lemma_allocation_failure_aborts(detail: String)
    ensures
        spec_advance(Stage::AllocateBuffers, false, detail) == Progress::Aborted(
            DeviceError { kind: ErrorKind::Allocation, detail },
        ),
        forall|s: Stage, ok: bool, d: String|
            spec_advance(s, ok, d) == Progress::Advanced(Stage::BuildKernel) ==> (s
                == Stage::AllocateBuffers && ok),
        forall|s: Stage, ok: bool, d: String|
            spec_advance(s, ok, d) == Progress::Advanced(Stage::EnqueueKernel) ==> (s
                == Stage::BuildKernel && ok),
        forall|s: Stage, ok: bool, d: String|
            spec_advance(s, ok, d) == Progress::Advanced(Stage::ReadResults) ==> (s
                == Stage::EnqueueKernel && ok),
{
}

} // verus!
