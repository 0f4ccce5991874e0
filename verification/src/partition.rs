//! Work decomposition: turning a vector length and a capability record into
//! a work partition, plus the derived sizing diagnostics.
//!
//! The decomposition is a pure function of its inputs. Each work-item
//! multiplies and sums a fixed block of elements in private registers, each
//! work-group holds a single work-item, and one partial sum per work-group
//! comes back to the host. Lengths that are not a positive multiple of the
//! block size are rejected up front rather than silently truncated.

use vstd::prelude::*;

use crate::capability::DeviceCapabilities;
use crate::capability::spec_default_capabilities;
use crate::error::DeviceError;
use crate::error::ErrorKind;

verus! {

/// Elements multiplied and summed per work-item in private registers: a
/// tunable granularity constant balancing register pressure against
/// parallelism, not a derived value.
pub const PRIVATE_BLOCK_SIZE: usize = 4;

/// Size of one double-precision element on the device.
pub const F64_BYTES: usize = 8;

/// How the work is split across the device: how many work-groups are
/// launched, how many work-items each holds, and how many elements each
/// work-item reduces privately.
#[derive(Clone, Copy, PartialEq, Eq, Structural, Debug)]
pub struct WorkPartition {
    pub work_group_count: usize,
    pub work_group_size: usize,
    pub private_block_size: usize,
}

/// Derived sizing quantities, computed for observability: a structured
/// record for the caller's diagnostic sink rather than fixed-format text.
#[derive(Clone, Copy, PartialEq, Eq, Structural, Debug)]
pub struct SizingDiagnostics {
    /// The vector length the quantities below were derived from.
    pub vector_length: usize,
    /// Ceiling of length over the compute unit count (guarded to at least
    /// one): a per-unit workload estimate, not a hard constraint.
    pub items_per_unit: usize,
    /// How many bytes of the input could be staged in local memory: the
    /// smaller of the device's local memory capacity and the input's size.
    pub local_mem_budget: usize,
    /// The local memory budget expressed in whole elements, rounded up.
    pub local_array_size: usize,
}

/// Ceiling division for non-negative numerators and positive denominators.
pub open spec fn ceil_div(a: int, b: int) -> int
    recommends
        a >= 0,
        b > 0,
{
    if a % b == 0 {
        a / b
    } else {
        a / b + 1
    }
}

/// The smaller of two quantities.
pub open spec fn min_int(a: int, b: int) -> int {
    if a <= b {
        a
    } else {
        b
    }
}

/// A length the pipeline accepts: positive and evenly divisible by the
/// private block size, so that no trailing elements are dropped.
pub open spec fn valid_length(n: usize) -> bool {
    n > 0 && n % PRIVATE_BLOCK_SIZE == 0
}

/// The partition derived from a vector length. It depends on the length and
/// the fixed granularity constants alone; the capability record feeds only
/// the sizing diagnostics, so even a fully defaulted record yields the same
/// partition.
pub open spec fn spec_decompose(n: usize, caps: DeviceCapabilities) -> WorkPartition {
    WorkPartition {
        work_group_count: (n / PRIVATE_BLOCK_SIZE) as usize,
        work_group_size: 1,
        private_block_size: PRIVATE_BLOCK_SIZE,
    }
}

/// A partition that covers a vector of length `n` exactly: every element
/// falls in exactly one work-group's block, and at least one work-group with
/// at least one work-item is launched.
pub open spec fn partition_covers(p: WorkPartition, n: int) -> bool {
    &&& p.work_group_count * p.private_block_size == n
    &&& p.work_group_size >= 1
    &&& p.work_group_count >= 1
}

/// The per-unit workload estimate for a given length and compute unit
/// count, with the unknown (zero) count guarded to one.
pub open spec fn spec_items_per_unit(n: int, compute_units: int) -> int {
    ceil_div(n, if compute_units >= 1 { compute_units } else { 1 })
}

/// The local memory budget for a given length and capacity.
pub open spec fn spec_local_mem_budget(n: int, local_mem_bytes: int) -> int {
    min_int(local_mem_bytes, n * F64_BYTES)
}

/// The budget expressed in whole elements, rounded up.
pub open spec fn spec_local_array_size(budget: int) -> int {
    ceil_div(budget, F64_BYTES as int)
}

/// Accepts the inputs the pipeline can process: the two vectors must have
/// equal length, and that length must be a positive multiple of the private
/// block size. Anything else is rejected with a validation error before any
/// device work begins.
pub fn validate_lengths(x_len: usize, y_len: usize) -> (r: Result<(), DeviceError>)
    ensures
        r is Ok <==> (x_len == y_len && valid_length(x_len)),
        r matches Err(e) ==> e.kind == ErrorKind::Validation,
        x_len != y_len ==> (r matches Err(e) && e.detail@ == "input vectors differ in length"@),
        x_len == y_len && x_len == 0 ==> (r matches Err(e) && e.detail@
            == "input vectors are empty"@),
        x_len == y_len && x_len > 0 && x_len % PRIVATE_BLOCK_SIZE != 0 ==> (r matches Err(e)
            && e.detail@ == "vector length is not a multiple of the private block size"@),
{
    if x_len != y_len {
        Err(DeviceError::new(
            ErrorKind::Validation,
            String::from_str("input vectors differ in length"),
        ))
    } else if x_len == 0 {
        Err(DeviceError::new(
            ErrorKind::Validation,
            String::from_str("input vectors are empty"),
        ))
    } else if x_len % PRIVATE_BLOCK_SIZE != 0 {
        Err(DeviceError::new(
            ErrorKind::Validation,
            String::from_str("vector length is not a multiple of the private block size"),
        ))
    } else {
        Ok(())
    }
}

/// Derives the work partition for a vector of length `n`: one work-item per
/// work-group, a fixed private block per work-item, and one work-group per
/// block. Always produces a partition; for a validated length the partition
/// covers the vector exactly.
pub fn decompose(n: usize, caps: DeviceCapabilities) -> (p: WorkPartition)
    ensures
        p == spec_decompose(n, caps),
        valid_length(n) ==> partition_covers(p, n as int),
{
    let p = WorkPartition {
        work_group_count: n / PRIVATE_BLOCK_SIZE,
        work_group_size: 1,
        private_block_size: PRIVATE_BLOCK_SIZE,
    };
    proof {
        if valid_length(n) {
            assert(n / PRIVATE_BLOCK_SIZE * PRIVATE_BLOCK_SIZE == n) by {
                vstd::arithmetic::div_mod::lemma_fundamental_div_mod(n as int, PRIVATE_BLOCK_SIZE as int);
            };
        }
    }
    p
}

/// Computes the sizing diagnostics for a vector of length `n` under the
/// given capability record. Purely informational: the partition does not
/// depend on these quantities, but the caller's diagnostic sink reports
/// them.
pub fn sizing_diagnostics(n: usize, caps: DeviceCapabilities) -> (d: SizingDiagnostics)
    ensures
        d.vector_length == n,
        d.items_per_unit == spec_items_per_unit(n as int, caps.compute_unit_count as int),
        d.local_mem_budget == spec_local_mem_budget(n as int, caps.local_mem_bytes as int),
        d.local_array_size == spec_local_array_size(d.local_mem_budget as int),
{
    let units: usize = if caps.compute_unit_count >= 1 {
        caps.compute_unit_count as usize
    } else {
        1
    };
    let q: usize = n / units;
    let r: usize = n % units;
    proof {
        assert(((n as int) / (units as int) <= n as int)
            && ((n as int) % (units as int) != 0 ==> (n as int) / (units as int) < n as int))
            by (nonlinear_arith)
            requires
                units >= 1,
                n >= 0,
        ;
    }
    let items_per_unit: usize = if r == 0 {
        q
    } else {
        q + 1
    };

    let local_mem: usize = caps.local_mem_bytes as usize;
    let local_mem_budget: usize = if n >= local_mem {
        local_mem
    } else {
        let bytes: u64 = (n as u64) * (F64_BYTES as u64);
        if bytes < local_mem as u64 {
            bytes as usize
        } else {
            local_mem
        }
    };

    let bq: usize = local_mem_budget / F64_BYTES;
    let br: usize = local_mem_budget % F64_BYTES;
    let local_array_size: usize = if br == 0 {
        bq
    } else {
        bq + 1
    };

    SizingDiagnostics { vector_length: n, items_per_unit, local_mem_budget, local_array_size }
}

/// Even when every hardware query has failed and the capability record holds
/// only the documented defaults, the decomposition still yields a partition
/// that covers the vector (at least one work-group, block-aligned coverage),
/// and the derived sizing quantities are still defined: the guarded division
/// treats the unknown compute unit count as one, and the zero local memory
/// capacity yields an empty budget.
pub proof fn lemma_defaults_still_decompose(n: usize)
    requires
        valid_length(n),
    ensures
        partition_covers(spec_decompose(n, spec_default_capabilities()), n as int),
        spec_decompose(n, spec_default_capabilities()).work_group_count >= 1,
        spec_items_per_unit(n as int, spec_default_capabilities().compute_unit_count as int)
            == n as int,
        spec_local_mem_budget(n as int, spec_default_capabilities().local_mem_bytes as int) == 0,
{
    vstd::arithmetic::div_mod::lemma_fundamental_div_mod(n as int, PRIVATE_BLOCK_SIZE as int);
    assert(n >= PRIVATE_BLOCK_SIZE);
}

/// The decomposition is deterministic: two partitions obtained from the same
/// length and the same capability record are equal. There is no hidden
/// randomness and no mutable global state to consult.
pub proof fn lemma_decompose_deterministic(
    n: usize,
    caps: DeviceCapabilities,
    p1: WorkPartition,
    p2: WorkPartition,
)
    requires
        p1 == spec_decompose(n, caps),
        p2 == spec_decompose(n, caps),
    ensures
        p1 == p2,
{
}

} // verus!
