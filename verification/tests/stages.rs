use cldot::error::ErrorKind;
use cldot::kernel::kernel_name;
use cldot::kernel::kernel_source;
use cldot::pipeline::Progress;
use cldot::pipeline::Stage;
use cldot::pipeline::advance;
use cldot::pipeline::initial_stage;

#[test]
fn successful_stages_run_in_order_to_completion() {
    let mut stage = initial_stage();
    assert_eq!(stage, Stage::BuildContext);
    let expected = [
        Stage::AllocateBuffers,
        Stage::BuildKernel,
        Stage::EnqueueKernel,
        Stage::ReadResults,
    ];
    for next in expected {
        match advance(stage, true, String::new()) {
            Progress::Advanced(s) => {
                assert_eq!(s, next);
                stage = s;
            }
            _ => panic!("pipeline stopped early"),
        }
    }
    assert!(matches!(advance(stage, true, String::new()), Progress::Completed));
}

#[test]
fn each_stage_failure_maps_to_its_error_kind() {
    let cases = [
        (Stage::BuildContext, ErrorKind::ContextBuild),
        (Stage::AllocateBuffers, ErrorKind::Allocation),
        (Stage::BuildKernel, ErrorKind::KernelBuild),
        (Stage::EnqueueKernel, ErrorKind::Execution),
        (Stage::ReadResults, ErrorKind::Readback),
    ];
    for (stage, kind) in cases {
        match advance(stage, false, String::from("device layer diagnostic")) {
            Progress::Aborted(e) => {
                assert_eq!(e.kind, kind);
                assert_eq!(e.detail, "device layer diagnostic");
            }
            _ => panic!("failure did not abort"),
        }
    }
}

#[test]
fn allocation_failure_aborts_without_enqueue_or_readback() {
    let mut stage = initial_stage();
    let mut entered = vec![stage];
    let outcome = loop {
        let succeeded = stage != Stage::AllocateBuffers;
        match advance(stage, succeeded, String::from("out of device memory")) {
            Progress::Advanced(next) => {
                stage = next;
                entered.push(next);
            }
            Progress::Completed => panic!("completed despite allocation failure"),
            Progress::Aborted(e) => break e,
        }
    };
    assert_eq!(outcome.kind, ErrorKind::Allocation);
    assert_eq!(outcome.detail, "out of device memory");
    assert!(!entered.contains(&Stage::BuildKernel));
    assert!(!entered.contains(&Stage::EnqueueKernel));
    assert!(!entered.contains(&Stage::ReadResults));
}

#[test]
fn kernel_source_defines_the_named_entry_point() {
    let name = kernel_name();
    assert_eq!(name, "dot_product");
    let src = kernel_source();
    assert!(src.contains("__kernel void dot_product"));
    assert!(src.contains("barrier(CLK_LOCAL_MEM_FENCE)"));
    assert!(src.contains("GROUP_ID * PRIVATE_SIZE"));
    assert!(src.contains("partial_sums[ GROUP_ID ]"));
}
