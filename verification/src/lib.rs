//! Host-side planning for a data-parallel dot product.
//!
//! The device pipeline (capability inspection, work decomposition, buffer
//! allocation, kernel execution, result readback) is driven by decisions made
//! here: how hardware limits degrade to safe defaults, how a vector length is
//! partitioned into work-groups, and how a failure at any stage maps to a
//! typed error without reaching a later stage. The unverifiable edges — the
//! OpenCL calls themselves and the floating-point reduction — live in the
//! surrounding application, which feeds plain values in and carries plain
//! values out.

use vstd::prelude::*;

pub mod capability;
pub mod error;
pub mod kernel;
pub mod partition;
pub mod pipeline;

use crate::capability::CapabilityReport;
use crate::capability::inspect;
use crate::capability::spec_inspect;
use crate::error::DeviceError;
use crate::error::ErrorKind;
use crate::partition::SizingDiagnostics;
use crate::partition::WorkPartition;
use crate::partition::decompose;
use crate::partition::partition_covers;
use crate::partition::sizing_diagnostics;
use crate::partition::spec_decompose;
use crate::partition::spec_items_per_unit;
use crate::partition::spec_local_array_size;
use crate::partition::spec_local_mem_budget;
use crate::partition::valid_length;
use crate::partition::validate_lengths;

verus! {

/// Everything the host needs to launch the kernel, derived before any
/// device memory is touched: the capability record with its per-field
/// degradation status, the work partition, and the sizing diagnostics for
/// the caller's observability sink.
#[derive(Clone, Copy, PartialEq, Eq, Structural, Debug)]
pub struct LaunchPlan {
    pub report: CapabilityReport,
    pub partition: WorkPartition,
    pub sizing: SizingDiagnostics,
}

/// Plans one pipeline invocation from plain values: the two vector lengths
/// and the raw outcomes of the five capability queries (`None` for a failed
/// query). Rejects mismatched, empty, or non-block-aligned lengths with a
/// validation error before any device work; otherwise the plan's partition
/// covers the vector exactly, whatever combination of queries failed.
pub fn prepare(
    x_len: usize,
    y_len: usize,
    max_work_item_dims: Option<u32>,
    max_work_group_size: Option<usize>,
    compute_unit_count: Option<u32>,
    local_mem_bytes: Option<u32>,
    preferred_wg_multiple: Option<usize>,
) -> (r: Result<LaunchPlan, DeviceError>)
    ensures
        r is Ok <==> (x_len == y_len && valid_length(x_len)),
        r matches Err(e) ==> e.kind == ErrorKind::Validation,
        x_len != y_len ==> (r matches Err(e) && e.detail@ == "input vectors differ in length"@),
        x_len == y_len && x_len == 0 ==> (r matches Err(e) && e.detail@
            == "input vectors are empty"@),
        x_len == y_len && x_len > 0 && x_len % crate::partition::PRIVATE_BLOCK_SIZE != 0 ==> (
        r matches Err(e) && e.detail@
            == "vector length is not a multiple of the private block size"@),
        r matches Ok(plan) ==> {
            &&& plan.report.caps == spec_inspect(
                max_work_item_dims,
                max_work_group_size,
                compute_unit_count,
                local_mem_bytes,
                preferred_wg_multiple,
            )
            &&& plan.report.status.max_work_item_dims_defaulted == max_work_item_dims is None
            &&& plan.report.status.max_work_group_size_defaulted == max_work_group_size is None
            &&& plan.report.status.compute_unit_count_defaulted == compute_unit_count is None
            &&& plan.report.status.local_mem_bytes_defaulted == local_mem_bytes is None
            &&& plan.report.status.preferred_wg_multiple_defaulted == preferred_wg_multiple
                is None
            &&& plan.partition == spec_decompose(x_len, plan.report.caps)
            &&& partition_covers(plan.partition, x_len as int)
            &&& plan.sizing.vector_length == x_len
            &&& plan.sizing.items_per_unit == spec_items_per_unit(
                x_len as int,
                plan.report.caps.compute_unit_count as int,
            )
            &&& plan.sizing.local_mem_budget == spec_local_mem_budget(
                x_len as int,
                plan.report.caps.local_mem_bytes as int,
            )
            &&& plan.sizing.local_array_size == spec_local_array_size(
                plan.sizing.local_mem_budget as int,
            )
        },
{
    match validate_lengths(x_len, y_len) {
        Err(e) => Err(e),
        Ok(()) => {
            let report = inspect(
                max_work_item_dims,
                max_work_group_size,
                compute_unit_count,
                local_mem_bytes,
                preferred_wg_multiple,
            );
            let partition = decompose(x_len, report.caps);
            let sizing = sizing_diagnostics(x_len, report.caps);
            Ok(LaunchPlan { report, partition, sizing })
        },
    }
}

} // verus!
