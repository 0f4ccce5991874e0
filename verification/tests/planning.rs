use cldot::capability::CapabilityReport;
use cldot::capability::DeviceCapabilities;
use cldot::capability::inspect;
use cldot::error::ErrorKind;
use cldot::partition::PRIVATE_BLOCK_SIZE;
use cldot::partition::decompose;
use cldot::partition::sizing_diagnostics;
use cldot::partition::validate_lengths;
use cldot::prepare;

#[test]
fn all_failed_queries_degrade_to_defaults() {
    let report: CapabilityReport = inspect(None, None, None, None, None);
    assert_eq!(report.caps, DeviceCapabilities::all_defaults());
    assert_eq!(report.caps.max_work_item_dims, 1);
    assert_eq!(report.caps.max_work_group_size, 1);
    assert_eq!(report.caps.compute_unit_count, 0);
    assert_eq!(report.caps.local_mem_bytes, 0);
    assert_eq!(report.caps.preferred_wg_multiple, 1);
    assert!(report.status.max_work_item_dims_defaulted);
    assert!(report.status.max_work_group_size_defaulted);
    assert!(report.status.compute_unit_count_defaulted);
    assert!(report.status.local_mem_bytes_defaulted);
    assert!(report.status.preferred_wg_multiple_defaulted);
}

#[test]
fn successful_queries_are_kept() {
    let report = inspect(Some(3), Some(256), Some(8), Some(49152), Some(32));
    assert_eq!(report.caps.max_work_item_dims, 3);
    assert_eq!(report.caps.max_work_group_size, 256);
    assert_eq!(report.caps.compute_unit_count, 8);
    assert_eq!(report.caps.local_mem_bytes, 49152);
    assert_eq!(report.caps.preferred_wg_multiple, 32);
    assert!(!report.status.max_work_item_dims_defaulted);
    assert!(!report.status.max_work_group_size_defaulted);
    assert!(!report.status.compute_unit_count_defaulted);
    assert!(!report.status.local_mem_bytes_defaulted);
    assert!(!report.status.preferred_wg_multiple_defaulted);
}

#[test]
fn mixed_queries_degrade_independently() {
    let report = inspect(Some(3), None, Some(4), None, Some(64));
    assert_eq!(report.caps.max_work_item_dims, 3);
    assert_eq!(report.caps.max_work_group_size, 1);
    assert_eq!(report.caps.compute_unit_count, 4);
    assert_eq!(report.caps.local_mem_bytes, 0);
    assert_eq!(report.caps.preferred_wg_multiple, 64);
    assert!(!report.status.max_work_item_dims_defaulted);
    assert!(report.status.max_work_group_size_defaulted);
    assert!(!report.status.compute_unit_count_defaulted);
    assert!(report.status.local_mem_bytes_defaulted);
    assert!(!report.status.preferred_wg_multiple_defaulted);
}

#[test]
fn default_capabilities_still_yield_a_valid_partition() {
    let caps = DeviceCapabilities::all_defaults();
    let p = decompose(8, caps);
    assert!(p.work_group_count >= 1);
    assert_eq!(p.work_group_count, 2);
    assert_eq!(p.work_group_size, 1);
    assert_eq!(p.private_block_size, 4);
    assert_eq!(p.work_group_count * p.private_block_size, 8);
}

#[test]
fn decompose_is_deterministic() {
    let caps = inspect(Some(3), Some(1024), Some(16), Some(65536), Some(32)).caps;
    let p1 = decompose(4096, caps);
    let p2 = decompose(4096, caps);
    assert_eq!(p1, p2);
}

#[test]
fn four_element_vector_uses_one_work_group() {
    let caps = DeviceCapabilities::all_defaults();
    let p = decompose(4, caps);
    assert_eq!(p.work_group_count, 1);
    assert_eq!(p.private_block_size, 4);
    assert_eq!(PRIVATE_BLOCK_SIZE, 4);
}

#[test]
fn items_per_unit_rounds_up_and_guards_zero_units() {
    let caps = inspect(None, None, Some(4), None, None).caps;
    let d = sizing_diagnostics(10, caps);
    assert_eq!(d.vector_length, 10);
    assert_eq!(d.items_per_unit, 3);

    let unknown_units = inspect(None, None, None, None, None).caps;
    let d0 = sizing_diagnostics(10, unknown_units);
    assert_eq!(d0.items_per_unit, 10);
}

#[test]
fn local_memory_budget_is_capped_by_each_side() {
    let small_mem = inspect(None, None, Some(1), Some(100), None).caps;
    let d = sizing_diagnostics(8, small_mem);
    assert_eq!(d.local_mem_budget, 64);
    assert_eq!(d.local_array_size, 8);

    let d2 = sizing_diagnostics(100, small_mem);
    assert_eq!(d2.local_mem_budget, 100);
    assert_eq!(d2.local_array_size, 13);

    let no_mem = inspect(None, None, None, None, None).caps;
    let d3 = sizing_diagnostics(8, no_mem);
    assert_eq!(d3.local_mem_budget, 0);
    assert_eq!(d3.local_array_size, 0);
}

#[test]
fn mismatched_lengths_are_rejected() {
    let e = validate_lengths(4, 8).unwrap_err();
    assert_eq!(e.kind, ErrorKind::Validation);
    assert_eq!(e.detail, "input vectors differ in length");
}

#[test]
fn empty_vectors_are_rejected() {
    let e = validate_lengths(0, 0).unwrap_err();
    assert_eq!(e.kind, ErrorKind::Validation);
    assert_eq!(e.detail, "input vectors are empty");
}

#[test]
fn unaligned_length_is_rejected() {
    let e = validate_lengths(6, 6).unwrap_err();
    assert_eq!(e.kind, ErrorKind::Validation);
    assert_eq!(e.detail, "vector length is not a multiple of the private block size");
}

#[test]
fn aligned_equal_lengths_are_accepted() {
    assert!(validate_lengths(4, 4).is_ok());
    assert!(validate_lengths(4096, 4096).is_ok());
}

#[test]
fn prepare_plans_a_valid_invocation() {
    let plan = prepare(8, 8, Some(3), Some(256), Some(2), Some(100), None).unwrap();
    assert_eq!(plan.partition.work_group_count, 2);
    assert_eq!(plan.partition.work_group_size, 1);
    assert_eq!(plan.partition.private_block_size, 4);
    assert_eq!(plan.report.caps.compute_unit_count, 2);
    assert!(plan.report.status.preferred_wg_multiple_defaulted);
    assert_eq!(plan.sizing.items_per_unit, 4);
    assert_eq!(plan.sizing.local_mem_budget, 64);
    assert_eq!(plan.sizing.local_array_size, 8);
}

#[test]
fn prepare_rejects_bad_inputs_before_device_work() {
    let mismatch = prepare(4, 8, None, None, None, None, None);
    assert_eq!(mismatch.unwrap_err().kind, ErrorKind::Validation);
    let unaligned = prepare(6, 6, None, None, None, None, None);
    assert_eq!(unaligned.unwrap_err().kind, ErrorKind::Validation);
}

#[test]
fn prepare_succeeds_with_every_query_failed() {
    let plan = prepare(4, 4, None, None, None, None, None).unwrap();
    assert!(plan.partition.work_group_count >= 1);
    assert_eq!(plan.partition.work_group_count, 1);
    assert_eq!(plan.report.caps, DeviceCapabilities::all_defaults());
}
