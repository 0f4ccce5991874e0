//! Capability inspection: hardware limits with per-field safe defaults.
//!
//! The device is asked for four hardware limits plus the kernel's preferred
//! work-group size multiple. Each query may fail independently; a failed query
//! never aborts the inspection — the field degrades to a documented default
//! and the pipeline continues. The queries themselves happen outside the
//! library; this module turns their raw outcomes (`Some` on success, `None` on
//! failure) into a capability record and a per-field degradation report.

use vstd::prelude::*;

verus! {

/// Default when the maximum work-item dimensionality query fails.
pub const DEFAULT_MAX_WORK_ITEM_DIMS: u32 = 1;
/// Default when the maximum work-group size query fails.
pub const DEFAULT_MAX_WORK_GROUP_SIZE: usize = 1;
/// Default when the compute unit count query fails; zero means "unknown"
/// and every consumer must guard its divisions accordingly.
pub const DEFAULT_COMPUTE_UNIT_COUNT: u32 = 0;
/// Default when the local memory capacity query fails.
pub const DEFAULT_LOCAL_MEM_BYTES: u32 = 0;
/// Default when the kernel's preferred work-group size multiple query fails.
pub const DEFAULT_PREFERRED_WG_MULTIPLE: usize = 1;

/// The hardware limits the work decomposition consumes, immutable once
/// gathered for a single pipeline invocation.
#[derive(Clone, Copy, PartialEq, Eq, Structural, Debug)]
pub struct DeviceCapabilities {
    pub max_work_item_dims: u32,
    pub max_work_group_size: usize,
    pub compute_unit_count: u32,
    pub local_mem_bytes: u32,
    pub preferred_wg_multiple: usize,
}

/// Which queries degraded to their defaults, kept beside the capability
/// record so a caller can observe (and a test can force) degraded fields
/// without relying on console output.
#[derive(Clone, Copy, PartialEq, Eq, Structural, Debug)]
pub struct QueryStatus {
    pub max_work_item_dims_defaulted: bool,
    pub max_work_group_size_defaulted: bool,
    pub compute_unit_count_defaulted: bool,
    pub local_mem_bytes_defaulted: bool,
    pub preferred_wg_multiple_defaulted: bool,
}

/// The outcome of one inspection: the capabilities to plan with, and the
/// record of which fields are defaults rather than queried values.
#[derive(Clone, Copy, PartialEq, Eq, Structural, Debug)]
pub struct CapabilityReport {
    pub caps: DeviceCapabilities,
    pub status: QueryStatus,
}

/// The capability record produced when every hardware query fails.
pub open spec fn spec_default_capabilities() -> DeviceCapabilities {
    DeviceCapabilities {
        max_work_item_dims: DEFAULT_MAX_WORK_ITEM_DIMS,
        max_work_group_size: DEFAULT_MAX_WORK_GROUP_SIZE,
        compute_unit_count: DEFAULT_COMPUTE_UNIT_COUNT,
        local_mem_bytes: DEFAULT_LOCAL_MEM_BYTES,
        preferred_wg_multiple: DEFAULT_PREFERRED_WG_MULTIPLE,
    }
}

impl DeviceCapabilities {
    /// The conservative record used when no query succeeds.
    pub fn all_defaults() -> (r: DeviceCapabilities)
        ensures
            r == spec_default_capabilities(),
    {
        DeviceCapabilities {
            max_work_item_dims: DEFAULT_MAX_WORK_ITEM_DIMS,
            max_work_group_size: DEFAULT_MAX_WORK_GROUP_SIZE,
            compute_unit_count: DEFAULT_COMPUTE_UNIT_COUNT,
            local_mem_bytes: DEFAULT_LOCAL_MEM_BYTES,
            preferred_wg_multiple: DEFAULT_PREFERRED_WG_MULTIPLE,
        }
    }
}

/// What each capability field must be, given its query's outcome: the queried
/// value on success, the field's documented default on failure.
pub open spec fn spec_inspect(
    max_work_item_dims: Option<u32>,
    max_work_group_size: Option<usize>,
    compute_unit_count: Option<u32>,
    local_mem_bytes: Option<u32>,
    preferred_wg_multiple: Option<usize>,
) -> DeviceCapabilities {
    DeviceCapabilities {
        max_work_item_dims: match max_work_item_dims {
            Option::Some(v) => v,
            Option::None => DEFAULT_MAX_WORK_ITEM_DIMS,
        },
        max_work_group_size: match max_work_group_size {
            Option::Some(v) => v,
            Option::None => DEFAULT_MAX_WORK_GROUP_SIZE,
        },
        compute_unit_count: match compute_unit_count {
            Option::Some(v) => v,
            Option::None => DEFAULT_COMPUTE_UNIT_COUNT,
        },
        local_mem_bytes: match local_mem_bytes {
            Option::Some(v) => v,
            Option::None => DEFAULT_LOCAL_MEM_BYTES,
        },
        preferred_wg_multiple: match preferred_wg_multiple {
            Option::Some(v) => v,
            Option::None => DEFAULT_PREFERRED_WG_MULTIPLE,
        },
    }
}

/// Builds the capability record from the five raw query outcomes. Each field
/// independently takes the queried value or its default; no combination of
/// failures aborts the inspection. The report also says, per field, whether
/// the default was substituted.
pub fn inspect(
    max_work_item_dims: Option<u32>,
    max_work_group_size: Option<usize>,
    compute_unit_count: Option<u32>,
    local_mem_bytes: Option<u32>,
    preferred_wg_multiple: Option<usize>,
) -> (r: CapabilityReport)
    ensures
        r.caps == spec_inspect(
            max_work_item_dims,
            max_work_group_size,
            compute_unit_count,
            local_mem_bytes,
            preferred_wg_multiple,
        ),
        r.status.max_work_item_dims_defaulted == max_work_item_dims is None,
        r.status.max_work_group_size_defaulted == max_work_group_size is None,
        r.status.compute_unit_count_defaulted == compute_unit_count is None,
        r.status.local_mem_bytes_defaulted == local_mem_bytes is None,
        r.status.preferred_wg_multiple_defaulted == preferred_wg_multiple is None,
{
    let caps = DeviceCapabilities {
        max_work_item_dims: match max_work_item_dims {
            Option::Some(v) => v,
            Option::None => DEFAULT_MAX_WORK_ITEM_DIMS,
        },
        max_work_group_size: match max_work_group_size {
            Option::Some(v) => v,
            Option::None => DEFAULT_MAX_WORK_GROUP_SIZE,
        },
        compute_unit_count: match compute_unit_count {
            Option::Some(v) => v,
            Option::None => DEFAULT_COMPUTE_UNIT_COUNT,
        },
        local_mem_bytes: match local_mem_bytes {
            Option::Some(v) => v,
            Option::None => DEFAULT_LOCAL_MEM_BYTES,
        },
        preferred_wg_multiple: match preferred_wg_multiple {
            Option::Some(v) => v,
            Option::None => DEFAULT_PREFERRED_WG_MULTIPLE,
        },
    };
    let status = QueryStatus {
        max_work_item_dims_defaulted: max_work_item_dims.is_none(),
        max_work_group_size_defaulted: max_work_group_size.is_none(),
        compute_unit_count_defaulted: compute_unit_count.is_none(),
        local_mem_bytes_defaulted: local_mem_bytes.is_none(),
        preferred_wg_multiple_defaulted: preferred_wg_multiple.is_none(),
    };
    CapabilityReport { caps, status }
}

} // verus!
