use adapter_select::adapter::AdapterDescriptor;
use adapter_select::feature::FeatureLevel;
use adapter_select::host::{AdapterHandle, AdapterInfo, DeviceHandle, EnumFault, Factory};
use adapter_select::pipeline::{
    enumerate_and_display, negotiate_device, run_startup, select_adapter, RunOutcome,
};
use adapter_select::policy::{resolve_policy, SelectionPolicy};
use adapter_select::status::{STATUS_NOT_FOUND, STATUS_OK, STATUS_UNSUPPORTED};

fn descriptor(name: &str) -> AdapterDescriptor {
    AdapterDescriptor {
        name: String::from(name),
        vendor_id: 0x10DE,
        device_id: 0x2204,
        subsystem_id: 0x1458,
        revision: 0xA1,
        dedicated_video_memory: 4 * 1024 * 1024 * 1024,
        dedicated_system_memory: 0,
        shared_system_memory: 512 * 1024 * 1024,
    }
}

fn adapter(name: &str, max_level: FeatureLevel) -> AdapterInfo {
    AdapterInfo { descriptor: descriptor(name), max_level, descriptor_status: STATUS_OK }
}

fn host_with(adapters: Vec<AdapterInfo>) -> Factory {
    Factory {
        adapters,
        software: adapter("Software Renderer", FeatureLevel::L12_1),
        software_status: STATUS_OK,
        enum_fault: None,
    }
}

fn three_adapter_host() -> Factory {
    host_with(vec![
        adapter("A0", FeatureLevel::L12_1),
        adapter("A1", FeatureLevel::L11_0),
        adapter("A2", FeatureLevel::L9_3),
    ])
}

#[test]
fn enumeration_makes_exactly_n_plus_one_calls() {
    let factory = three_adapter_host();
    let report = enumerate_and_display(&factory, SelectionPolicy::FirstAvailable);
    assert_eq!(report.entries.len(), 3);
    assert_eq!(report.calls, 4);
    assert!(report.aborted.is_none());
}

#[test]
fn enumeration_of_empty_host_makes_one_call() {
    let factory = host_with(vec![]);
    let report = enumerate_and_display(&factory, SelectionPolicy::FirstAvailable);
    assert_eq!(report.entries.len(), 0);
    assert_eq!(report.calls, 1);
    assert!(report.aborted.is_none());
}

#[test]
fn first_available_marks_the_first_adapter() {
    let factory = three_adapter_host();
    let report = enumerate_and_display(&factory, SelectionPolicy::FirstAvailable);
    let marks: Vec<bool> = report.entries.iter().map(|e| e.marked).collect();
    assert_eq!(marks, vec![true, false, false]);
    let block = report.entries[0].block.as_ref().expect("block rendered");
    assert!(block.starts_with("* Adapter 0: A0"));
}

#[test]
fn software_fallback_marks_no_adapter() {
    let factory = three_adapter_host();
    let report = enumerate_and_display(&factory, SelectionPolicy::SoftwareFallback);
    assert!(report.entries.iter().all(|e| !e.marked));
    for e in &report.entries {
        assert!(e.block.as_ref().expect("block rendered").starts_with("  Adapter"));
    }
}

#[test]
fn by_index_marks_exactly_that_adapter() {
    let factory = three_adapter_host();
    let report = enumerate_and_display(&factory, SelectionPolicy::ByIndex(1));
    let marks: Vec<bool> = report.entries.iter().map(|e| e.marked).collect();
    assert_eq!(marks, vec![false, true, false]);
}

#[test]
fn enumeration_fault_stops_the_pass_and_logs() {
    let mut factory = three_adapter_host();
    factory.enum_fault = Some(EnumFault { index: 1, status: 0x887A0020 });
    let report = enumerate_and_display(&factory, SelectionPolicy::FirstAvailable);
    assert_eq!(report.entries.len(), 1);
    assert_eq!(report.calls, 2);
    let line = report.aborted.expect("abnormal end logs");
    assert_eq!(line, "inventory: enumerate adapter #1: ! (0x887A0020)");
}

#[test]
fn descriptor_failure_skips_one_block_and_continues() {
    let mut factory = three_adapter_host();
    factory.adapters[1].descriptor_status = 0x80004005;
    let report = enumerate_and_display(&factory, SelectionPolicy::FirstAvailable);
    assert_eq!(report.entries.len(), 3);
    assert_eq!(report.calls, 4);
    assert!(report.entries[0].block.is_some());
    assert!(report.entries[1].block.is_none());
    let line = report.entries[1].diagnostic.as_ref().expect("failure logs");
    assert_eq!(line, "inventory: adapter descriptor #1: ! (0x80004005)");
    assert!(report.entries[2].block.is_some());
}

#[test]
fn by_index_out_of_range_selects_null() {
    let factory = host_with(vec![
        adapter("A0", FeatureLevel::L12_1),
        adapter("A1", FeatureLevel::L11_0),
    ]);
    let sel = select_adapter(&factory, SelectionPolicy::ByIndex(5));
    assert!(sel.handle.is_null());
    assert_eq!(sel.status, STATUS_NOT_FOUND);
    let line = sel.log.expect("selection failure logs");
    assert_eq!(line, "select adapter #5: ! (0x887A0002)");
}

#[test]
fn by_index_out_of_range_never_reaches_device_creation() {
    let factory = host_with(vec![adapter("A0", FeatureLevel::L12_1)]);
    match run_startup(&factory, SelectionPolicy::ByIndex(9), FeatureLevel::L9_1) {
        RunOutcome::AdapterSelectionFailed { status, log } => {
            assert_eq!(status, STATUS_NOT_FOUND);
            assert!(log.contains("887A0002"));
        },
        RunOutcome::DeviceCreationFailed { .. } => panic!("no create call may be attempted"),
        RunOutcome::DeviceCreated { .. } => panic!("selection must fail"),
    }
}

#[test]
fn in_range_index_selects_that_adapter() {
    let factory = three_adapter_host();
    let sel = select_adapter(&factory, SelectionPolicy::ByIndex(2));
    assert_eq!(sel.handle, AdapterHandle::Indexed(2));
    assert_eq!(sel.status, STATUS_OK);
    assert!(sel.log.is_none());
}

#[test]
fn software_fallback_selects_the_software_adapter() {
    let factory = three_adapter_host();
    let sel = select_adapter(&factory, SelectionPolicy::SoftwareFallback);
    assert_eq!(sel.handle, AdapterHandle::Software);
    assert!(sel.log.is_none());
}

#[test]
fn failed_software_request_is_a_selection_failure() {
    let mut factory = three_adapter_host();
    factory.software_status = 0x80004005;
    match run_startup(&factory, SelectionPolicy::SoftwareFallback, FeatureLevel::L11_0) {
        RunOutcome::AdapterSelectionFailed { status, log } => {
            assert_eq!(status, 0x80004005);
            assert_eq!(log, "select software adapter: ! (0x80004005)");
        },
        _ => panic!("selection must fail"),
    }
}

#[test]
fn supported_level_round_trip_creates_a_device() {
    let factory = host_with(vec![adapter("A0", FeatureLevel::L12_1)]);
    match run_startup(&factory, SelectionPolicy::ByIndex(0), FeatureLevel::L11_0) {
        RunOutcome::DeviceCreated { adapter, device } => {
            assert_eq!(adapter, AdapterHandle::Indexed(0));
            assert!(!device.is_null());
            assert_eq!(
                device,
                DeviceHandle::Bound {
                    adapter: AdapterHandle::Indexed(0),
                    level: FeatureLevel::L11_0,
                }
            );
        },
        _ => panic!("device creation must succeed"),
    }
}

#[test]
fn unsupported_level_round_trip_fails_with_one_log_line() {
    let factory = host_with(vec![adapter("A0", FeatureLevel::L11_0)]);
    match run_startup(&factory, SelectionPolicy::ByIndex(0), FeatureLevel::L12_1) {
        RunOutcome::DeviceCreationFailed { adapter, status, log } => {
            assert_eq!(adapter, AdapterHandle::Indexed(0));
            assert_eq!(status, STATUS_UNSUPPORTED);
            assert_eq!(log, "create device: ! (0x887A0004)");
        },
        _ => panic!("device creation must fail"),
    }
}

#[test]
fn negotiation_returns_null_device_on_failure() {
    let factory = host_with(vec![adapter("A0", FeatureLevel::L9_1)]);
    let neg = negotiate_device(&factory, AdapterHandle::Indexed(0), FeatureLevel::L10_0);
    assert!(neg.device.is_null());
    assert_eq!(neg.status, STATUS_UNSUPPORTED);
    assert!(neg.log.is_some());
}

#[test]
fn negotiation_at_the_exact_reported_level_succeeds() {
    let factory = host_with(vec![adapter("A0", FeatureLevel::L11_0)]);
    let neg = negotiate_device(&factory, AdapterHandle::Indexed(0), FeatureLevel::L11_0);
    assert!(!neg.device.is_null());
    assert_eq!(neg.status, STATUS_OK);
    assert!(neg.log.is_none());
}

#[test]
fn negotiation_on_a_null_handle_fails() {
    let factory = three_adapter_host();
    let neg = negotiate_device(&factory, AdapterHandle::Null, FeatureLevel::L9_1);
    assert!(neg.device.is_null());
    assert!(neg.log.is_some());
}

#[test]
fn software_adapter_also_negotiates_devices() {
    let factory = three_adapter_host();
    match run_startup(&factory, SelectionPolicy::SoftwareFallback, FeatureLevel::L12_1) {
        RunOutcome::DeviceCreated { adapter, device } => {
            assert_eq!(adapter, AdapterHandle::Software);
            assert!(!device.is_null());
        },
        _ => panic!("software device creation must succeed"),
    }
}

#[test]
fn resolve_policy_rejects_conflicting_configuration() {
    let err = resolve_policy(true, Some(2)).unwrap_err();
    assert_eq!(err, "the software adapter and an explicit adapter index are mutually exclusive");
}

#[test]
fn resolve_policy_maps_configuration_to_modes() {
    assert_eq!(resolve_policy(true, None), Ok(SelectionPolicy::SoftwareFallback));
    assert_eq!(resolve_policy(false, Some(3)), Ok(SelectionPolicy::ByIndex(3)));
    assert_eq!(resolve_policy(false, None), Ok(SelectionPolicy::FirstAvailable));
}

#[test]
fn enumerate_past_the_end_answers_the_sentinel() {
    let factory = three_adapter_host();
    let (handle, status) = factory.enumerate_adapters(3);
    assert!(handle.is_null());
    assert_eq!(status, STATUS_NOT_FOUND);
    let (handle, status) = factory.enumerate_adapters(1000);
    assert!(handle.is_null());
    assert_eq!(status, STATUS_NOT_FOUND);
}

#[test]
fn describing_a_null_or_stale_handle_fails() {
    let factory = three_adapter_host();
    let (desc, status) = factory.get_descriptor(AdapterHandle::Null);
    assert!(desc.is_none());
    assert_ne!(status & 0x8000_0000, 0);
    let (desc, status) = factory.get_descriptor(AdapterHandle::Indexed(17));
    assert!(desc.is_none());
    assert_ne!(status & 0x8000_0000, 0);
}

#[test]
fn describing_the_software_adapter_succeeds() {
    let factory = three_adapter_host();
    let (desc, status) = factory.get_descriptor(AdapterHandle::Software);
    assert_eq!(status, STATUS_OK);
    assert_eq!(desc.expect("software descriptor").name, "Software Renderer");
}

#[test]
fn creating_a_device_on_a_stale_handle_fails() {
    let factory = three_adapter_host();
    let neg = negotiate_device(&factory, AdapterHandle::Indexed(17), FeatureLevel::L9_1);
    assert!(neg.device.is_null());
    assert!(neg.log.expect("failure logs").contains("create device: !"));
}
