use std::cell::Cell;
use std::rc::Rc;

use unionc_agent::collectors::bounded::{
    collect_bounded, extend_bounded, producer_collection_limit, push_bounded,
};
use unionc_agent::collectors::drm;
use unionc_agent::collectors::drm::{
    enumeration_limit_error, is_primary_card, CardAttributes, CardLook, CardTarget, DrmEntry,
    DrmLook, FractionLook, HwmonEntry, HwmonLook, LinuxGpuResult, Parsed, SysfsLook,
};
use unionc_agent::collectors::hwmon;
use unionc_agent::collectors::hwmon::{
    allowed_target, is_hwmon_name, temperature_input_index, AttributeLook, DeviceLook,
    DirectoryLook, EntryLook, FileEntry, FilesLook, LinkLook, NumberLook, ResolvedLook, RootEntry,
    RootLook, SensorInput,
};
use unionc_agent::collectors::model::{
    Capability, CapabilityErrorKind, IoFault, IoKind, TemperatureSnapshot,
};
use unionc_agent::collectors::nvidia::{
    nvidia_result, NvidiaDevice, NvidiaLook, RetryingInit, NVML_INIT_RETRY_INITIAL,
    NVML_INIT_RETRY_MAX,
};
use unionc_agent::collectors::order::{keep_first, sort, stands_before};
use unionc_agent::collectors::pdh_buffer::{
    plan_pdh_buffer, validate_pdh_result, PdhBufferFault, PdhBufferLayout, MAX_PDH_ARRAY_BYTES,
    MAX_PDH_ARRAY_ITEMS,
};
use unionc_agent::collectors::pdh_recovery::{
    should_rebuild_pdh_query, RetryingPdhResource, PDH_INVALID_HANDLE_STATUS, PDH_RETRY_INITIAL,
    PDH_RETRY_MAX,
};
use unionc_agent::collectors::sampler::{
    assemble_gpus, collect_temperatures, contract_interval, core_capabilities, judge_host_id,
    load_host_identity, report_capabilities, slow_readings_due, temperature_capability,
    wire_cpu_count, GpuCollectors, HostIdFault, ReportLimits, SystemSampler,
};
use unionc_agent::collectors::wddm::{
    collection_failed, engine_leaders, finish_formatted_values, instance_name, judge_reading,
    judge_sizing, physical_engine_key, reading_unavailable, session_unavailable, summarize,
    wddm_snapshot, FormattedValuesSummary, ItemLook, NamePlace, PdhReadError, Sizing,
    MAX_PDH_INSTANCE_NAME_UTF16_UNITS, PDH_MORE_DATA,
};
use unionc_agent::config::{MAX_REPORT_INTERVAL_SECONDS, MIN_REPORT_INTERVAL_MILLISECONDS};
use unionc_agent::platform::Platform;

const AGENT_REPORT_MAX_CPU_CORES: usize = 1024;
const MILLISECOND: u64 = 1_000_000;

fn bits(value: f64) -> u64 {
    value.to_bits()
}

fn fault(kind: IoKind) -> IoFault {
    IoFault { kind, text: format!("{kind:?}") }
}

fn missing() -> IoFault {
    fault(IoKind::NotFound)
}

// ---------------------------------------------------------------------------
// Bounded lists
// ---------------------------------------------------------------------------
#[test]
fn producer_limit_keeps_one_checked_truncation_sentinel() {
    assert_eq!(producer_collection_limit(7), 8);
    assert_eq!(producer_collection_limit(usize::MAX), usize::MAX);

    let consumed = Cell::new(0);
    let values = collect_bounded(
        (0..).inspect(|_| consumed.set(consumed.get() + 1)),
        AGENT_REPORT_MAX_CPU_CORES,
    );
    assert_eq!(values.len(), AGENT_REPORT_MAX_CPU_CORES + 1);
    assert_eq!(consumed.get(), AGENT_REPORT_MAX_CPU_CORES + 1);
}

#[test]
fn lists_hold_one_element_more_than_a_report() {
    let mut values = vec![1, 2];
    assert!(push_bounded(&mut values, 3, 2));
    assert!(!push_bounded(&mut values, 4, 2));
    assert_eq!(values, vec![1, 2, 3]);
    extend_bounded(&mut values, vec![4, 5, 6], 4);
    assert_eq!(values, vec![1, 2, 3, 4, 5]);
    assert_eq!(collect_bounded(vec![1, 2].into_iter(), 5), vec![1, 2]);
}

#[test]
fn native_cpu_counts_use_a_checked_fixed_width_conversion() {
    assert_eq!(wire_cpu_count(8), 8);
    assert_eq!(wire_cpu_count(usize::MAX), u32::MAX);
}

// ---------------------------------------------------------------------------
// Capabilities
// ---------------------------------------------------------------------------
#[test]
fn empty_temperature_input_is_reported_as_a_capability_gap() {
    let temperature_capability = temperature_capability(&Vec::new());
    let temperature = core_capabilities(&temperature_capability)
        .into_iter()
        .find(|capability| capability.name == "system.temperature")
        .expect("core capabilities always describe temperature support");

    assert_eq!(temperature.name, "system.temperature");
    assert_eq!(temperature.source, "sysinfo/hwmon");
    assert!(!temperature.available);
    assert_eq!(temperature.error_kind, Some(CapabilityErrorKind::Unsupported));
    assert_eq!(
        temperature.message.as_deref(),
        Some("the operating system or hardware exposed no readable numeric sensor")
    );
}

fn unavailable(name: &str, kind: CapabilityErrorKind) -> Capability {
    Capability::unavailable(name, "source", kind, "message".into())
}

#[test]
fn a_report_orders_its_capabilities_and_counts_its_errors() {
    let temperature = Capability::available("system.temperature", "sysinfo/hwmon");
    let (capabilities, errors) = report_capabilities(
        &temperature,
        vec![
            unavailable("gpu.nvidia", CapabilityErrorKind::Transient),
            unavailable("gpu.amd", CapabilityErrorKind::InvalidData),
            unavailable("gpu.amd", CapabilityErrorKind::Transient),
            unavailable("gpu.intel", CapabilityErrorKind::NotPresent),
        ],
        100,
    );
    let names: Vec<&str> = capabilities.iter().map(|item| item.name.as_str()).collect();
    assert_eq!(
        names,
        vec![
            "gpu.amd",
            "gpu.intel",
            "gpu.nvidia",
            "system.cpu",
            "system.disk",
            "system.memory",
            "system.network",
            "system.temperature"
        ]
    );
    assert_eq!(capabilities[0].error_kind, Some(CapabilityErrorKind::InvalidData));
    assert_eq!(errors, 2);
}

fn reading(source: &str, id: &str, celsius: Option<f64>) -> TemperatureSnapshot {
    TemperatureSnapshot {
        id: id.into(),
        label: id.into(),
        celsius: celsius.map(bits),
        max_celsius: None,
        critical_celsius: None,
        source: source.into(),
    }
}

#[test]
fn one_reading_of_each_sensor_is_kept() {
    let (kept, capability) = collect_temperatures(vec![
        reading("a", "1", None),
        reading("b", "1", Some(40.0)),
        reading("a", "1", Some(50.0)),
    ]);
    assert_eq!(kept.len(), 2);
    assert_eq!(kept[0].celsius, None);
    assert!(capability.available);
}

#[test]
fn texts_are_ordered_by_their_characters() {
    assert!(stands_before("temp10", "temp2"));
    assert!(stands_before("temp", "temp1"));
    assert!(stands_before("same", "same"));
    assert!(!stands_before("b", "a"));
    let sorted = sort(vec![reading("x", "b", None), reading("y", "a", None), reading("z", "b", None)]);
    let sources: Vec<&str> = sorted.iter().map(|item| item.source.as_str()).collect();
    assert_eq!(sources, vec!["y", "x", "z"]);
    let first = keep_first(sorted);
    assert_eq!(first.len(), 2);
    assert_eq!(first[1].source, "x");
}

fn contract_interval_seconds(elapsed_seconds: f64) -> f64 {
    let elapsed = (elapsed_seconds * 1e9) as u128;
    contract_interval(elapsed) as f64 / 1e9
}

#[test]
fn the_reported_interval_always_satisfies_the_server_contract() {
    let max = MAX_REPORT_INTERVAL_SECONDS as f64;
    let min = MIN_REPORT_INTERVAL_MILLISECONDS as f64 / 1000.0;

    for elapsed in [
        0.0,
        0.001,
        0.05,
        10.0,
        max,
        max + 0.001,
        5_400.0,
        86_400.0,
        f64::INFINITY,
        f64::NAN,
    ] {
        let reported = contract_interval_seconds(elapsed);
        assert!(
            reported.is_finite() && (min..=max).contains(&reported),
            "elapsed={elapsed} gave interval_seconds={reported}"
        );
    }

    assert_eq!(contract_interval_seconds(10.0), 10.0);
    assert_eq!(contract_interval(0), 100 * MILLISECOND);
    assert_eq!(contract_interval(u128::MAX), 3_600_000 * MILLISECOND);
}

#[test]
fn slow_readings_wait_for_their_interval() {
    assert!(slow_readings_due(None, 30));
    assert!(!slow_readings_due(Some(29_999_999_999), 30));
    assert!(slow_readings_due(Some(30_000_000_000), 30));
}

#[test]
fn a_sampler_keeps_its_slow_readings() {
    const SECOND: u64 = 1_000 * MILLISECOND;
    let limits = ReportLimits {
        cpu_cores: 1,
        networks: 1,
        disks: 1,
        temperatures: 1,
        gpus: 1,
        capabilities: 10,
    };
    let none = || GpuCollectors { nvidia: None, linux: None, windows: None };
    let mut sampler = SystemSampler::new(0);
    let start = sampler.begin(10 * SECOND, 30);
    assert_eq!(start.interval, 10 * SECOND);
    assert!(start.refresh_slow);
    let before = sampler.collect(none(), Platform::Linux, limits);
    assert!(before.temperatures.is_empty());
    assert!(before.capabilities.iter().any(|item| item.name == "system.temperature"
        && item.error_kind == Some(CapabilityErrorKind::Unsupported)));

    sampler.keep_temperatures(
        vec![reading("a", "1", Some(1.0)), reading("a", "2", None), reading("a", "3", None)],
        Capability::available("system.temperature", "sysinfo/hwmon"),
        10 * SECOND,
        limits,
    );
    assert!(!sampler.begin(39 * SECOND, 30).refresh_slow);
    let start = sampler.begin(40 * SECOND, 30);
    assert!(start.refresh_slow);
    assert_eq!(start.interval, SECOND);
    let parts = sampler.collect(none(), Platform::Linux, limits);
    assert_eq!(parts.temperatures.len(), 2);
    assert_eq!(parts.temperatures[0].celsius, Some(bits(1.0)));
    assert_eq!(parts.collector_errors, 0);
}

#[test]
fn a_stored_identity_must_be_canonical() {
    let id = "bbbbbbbb-bbbb-4bbb-8bbb-bbbbbbbbbbbb";
    assert_eq!(
        load_host_identity(&format!(" {id}\n")),
        Ok(0xbbbbbbbb_bbbb_4bbb_8bbb_bbbbbbbbbbbb)
    );
    assert_eq!(load_host_identity("nobody"), Err(HostIdFault::NotUuid));
    assert_eq!(load_host_identity(&id.to_uppercase()), Err(HostIdFault::NotCanonical));
    assert_eq!(judge_host_id(None, id), Err(HostIdFault::NotUuid));
    assert_eq!(HostIdFault::NotUuid.message(), "paired host identity is not a UUID");
}

// ---------------------------------------------------------------------------
// DRM
// ---------------------------------------------------------------------------
#[test]
fn excludes_render_nodes_and_connectors() {
    assert!(is_primary_card("card0"));
    assert!(!is_primary_card("card0-DP-1"));
    assert!(!is_primary_card("renderD128"));
}

#[test]
fn io_error_classification_is_stable_under_root() {
    assert_eq!(
        drm::classify_io_error(IoKind::PermissionDenied),
        CapabilityErrorKind::PermissionDenied
    );
    assert_eq!(drm::classify_io_error(IoKind::InvalidData), CapabilityErrorKind::InvalidData);
    assert_eq!(drm::classify_io_error(IoKind::NotFound), CapabilityErrorKind::InvalidData);
    assert_eq!(drm::classify_io_error(IoKind::Other), CapabilityErrorKind::Transient);
}

#[test]
fn primary_card_limit_is_an_explicit_coverage_error() {
    let error = enumeration_limit_error("/injected/drm", 64);
    assert_eq!(error.kind, CapabilityErrorKind::InvalidData);
    assert!(
        error
            .message
            .contains("primary-card enumeration exceeded producer limit")
    );
    assert!(error.message.contains("65 inspected devices"));
}

fn sysfs(text: &str) -> SysfsLook {
    SysfsLook::Text(text.into())
}

fn no_file() -> SysfsLook {
    SysfsLook::NotInspected(missing())
}

fn no_fraction() -> FractionLook {
    FractionLook { look: no_file(), parsed: Parsed::Invalid }
}

fn fraction(text: &str) -> FractionLook {
    let parsed = match text.trim().parse::<f64>() {
        Ok(value) if value.is_finite() => Parsed::Value(bits(value)),
        Ok(_) => Parsed::NotFinite,
        Err(_) => Parsed::Invalid,
    };
    FractionLook { look: sysfs(text), parsed }
}

fn attributes(vendor: &str, device: &str, busy: Option<&str>) -> CardAttributes {
    CardAttributes {
        vendor: sysfs(vendor),
        device: sysfs(device),
        uevent: no_file(),
        busy: busy.map(fraction).unwrap_or_else(no_fraction),
        memory_total: no_file(),
        memory_used: no_file(),
        temperature: HwmonLook::NotInspected(missing()),
        power: HwmonLook::NotInspected(missing()),
        clock: no_fraction(),
    }
}

fn card(index: u32, attributes: CardAttributes) -> DrmEntry {
    DrmEntry::Card {
        name: format!("card{index}"),
        look: CardLook::Resolved {
            resolved: format!("/tmp/tree/drm/card{index}/device"),
            root_canonical: "/tmp/tree/drm".into(),
            target: CardTarget::Directory(attributes),
        },
    }
}

fn collect_cards(entries: Vec<DrmEntry>) -> LinuxGpuResult {
    drm::collect_from("/tmp/tree/drm", DrmLook::Entries(entries), 64)
}

fn capability<'a>(result: &'a LinuxGpuResult, name: &str) -> &'a Capability {
    result
        .capabilities
        .iter()
        .find(|capability| capability.name == name)
        .unwrap()
}

#[test]
fn absent_optional_attributes_remain_absent() {
    let result = collect_cards(vec![card(0, attributes("0x1002", "0x73bf", None))]);
    assert_eq!(result.gpus.len(), 1);
    assert!(capability(&result, "gpu.amd").available);
    let utilization = capability(&result, "gpu.amd.utilization");
    assert_eq!(utilization.error_kind, Some(CapabilityErrorKind::Unsupported));
}

#[test]
fn malformed_telemetry_preserves_partial_snapshots_and_marks_capability() {
    let result = collect_cards(vec![
        card(0, attributes("0x1002", "0x73bf", Some("42"))),
        card(1, attributes("0x1002", "0x73df", Some("not-a-number"))),
    ]);
    assert_eq!(result.gpus.len(), 2, "successful identity snapshots are retained");
    let amd = capability(&result, "gpu.amd");
    assert!(!amd.available);
    assert_eq!(amd.error_kind, Some(CapabilityErrorKind::InvalidData));
    let utilization = capability(&result, "gpu.amd.utilization");
    assert!(!utilization.available);
    assert_eq!(utilization.error_kind, Some(CapabilityErrorKind::InvalidData));
    assert_eq!(result.gpus[0].utilization_percent, Some(bits(42.0)));
}

#[test]
fn card_link_cannot_escape_injected_sysfs_root() {
    let result = collect_cards(vec![DrmEntry::Card {
        name: "card0".into(),
        look: CardLook::Resolved {
            resolved: "/tmp/tree/outside/card0/device".into(),
            root_canonical: "/tmp/tree/drm".into(),
            target: CardTarget::NotRead,
        },
    }]);
    assert!(result.gpus.is_empty());
    assert_eq!(
        capability(&result, "gpu.amd").error_kind,
        Some(CapabilityErrorKind::InvalidData)
    );
}

#[test]
fn a_card_is_read_in_full() {
    let mut given = attributes("0x8086\n", "0x56a0\n", Some("7.5"));
    given.uevent = sysfs("DRIVER=i915\r\nPCI_SLOT_NAME=0000:03:00.0\r\n");
    given.memory_total = sysfs("17179869184");
    given.memory_used = sysfs("+1024");
    given.temperature = HwmonLook::Entries(vec![HwmonEntry::Directory {
        path: "/tmp/tree/drm/card0/device/hwmon/hwmon3".into(),
        number: fraction("51.5"),
    }]);
    let result = collect_cards(vec![card(0, given)]);
    let gpu = &result.gpus[0];
    assert_eq!(gpu.id, "0000:03:00.0");
    assert_eq!(gpu.vendor, "intel");
    assert_eq!(gpu.name, "INTEL 0x56a0");
    assert_eq!(gpu.source, "linux-intel-sysfs");
    assert_eq!(gpu.memory_total_bytes, Some(17_179_869_184));
    assert_eq!(gpu.memory_used_bytes, Some(1024));
    assert_eq!(gpu.temperature_celsius, Some(bits(51.5)));
    assert_eq!(gpu.utilization_percent, Some(bits(7.5)));
    assert!(capability(&result, "gpu.intel").available);
    assert!(capability(&result, "gpu.intel.utilization").available);
    assert_eq!(
        capability(&result, "gpu.amd").error_kind,
        Some(CapabilityErrorKind::NotPresent)
    );
}

#[test]
fn identifiers_of_another_shape_are_coverage_errors() {
    for (vendor, words) in [
        ("1002", "PCI identifier must start with 0x"),
        ("0x10023", "PCI identifier must contain exactly four hexadecimal digits"),
        ("0x10g2", "PCI identifier must contain exactly four hexadecimal digits"),
        ("  ", "sysfs attribute is empty"),
    ] {
        let result = collect_cards(vec![card(0, attributes(vendor, "0x73bf", None))]);
        assert!(result.gpus.is_empty());
        assert!(capability(&result, "gpu.amd").message.as_deref().unwrap().contains(words));
    }
    let absent = drm::collect_from("/sys/class/drm", DrmLook::NotInspected(missing()), 64);
    assert_eq!(
        capability(&absent, "gpu.amd").error_kind,
        Some(CapabilityErrorKind::NotPresent)
    );
    let denied = drm::collect_from(
        "/sys/class/drm",
        DrmLook::Unreadable(fault(IoKind::PermissionDenied)),
        64,
    );
    assert_eq!(
        capability(&denied, "gpu.intel").error_kind,
        Some(CapabilityErrorKind::PermissionDenied)
    );
}

#[test]
fn no_more_cards_are_looked_at_than_the_limit() {
    let entries = (0..5).map(|index| card(index, attributes("0x1002", "0x73bf", None))).collect();
    let result = drm::collect_from("/tmp/tree/drm", DrmLook::Entries(entries), 2);
    assert_eq!(result.gpus.len(), 3);
    let amd = capability(&result, "gpu.amd");
    assert!(amd.message.as_deref().unwrap().contains("collected 3 of 3 matching DRM devices"));
    assert!(amd.message.as_deref().unwrap().contains("producer limit of 3 inspected"));
}

// ---------------------------------------------------------------------------
// hwmon
// ---------------------------------------------------------------------------
#[test]
fn io_errors_have_stable_capability_classification() {
    assert_eq!(
        hwmon::classify_io_error(IoKind::PermissionDenied),
        CapabilityErrorKind::PermissionDenied
    );
    assert_eq!(hwmon::classify_io_error(IoKind::InvalidData), CapabilityErrorKind::InvalidData);
    assert_eq!(hwmon::classify_io_error(IoKind::Other), CapabilityErrorKind::Transient);
}

fn number(text: &str) -> NumberLook {
    match text.trim().parse::<f64>() {
        Ok(value) if (value / 1000.0).is_finite() => NumberLook::Value(bits(value / 1000.0)),
        Ok(_) => NumberLook::NotFinite,
        Err(error) => NumberLook::NotNumeric(error.to_string()),
    }
}

fn sensor(index: &str, input: &str, label: Option<&str>, max: Option<&str>) -> FileEntry {
    FileEntry::Input(SensorInput {
        index: index.into(),
        input: number(input),
        label: match label {
            Some(label) => AttributeLook::Text(label.into()),
            None => AttributeLook::NotInspected(missing()),
        },
        max: match max {
            Some(max) => number(max),
            None => NumberLook::NotInspected(missing()),
        },
        critical: NumberLook::NotInspected(missing()),
    })
}

fn device_at(index: u32, canonical: &str, files: Vec<FileEntry>) -> RootEntry {
    RootEntry::Device(DeviceLook {
        path: format!("/tmp/hwmon/hwmon{index}"),
        name: format!("hwmon{index}"),
        entry: EntryLook::Resolved {
            canonical: canonical.into(),
            target: ResolvedLook::Directory(DirectoryLook {
                link: LinkLook::NotInspected(missing()),
                name: AttributeLook::Text(format!("driver{index}")),
                files: FilesLook::Entries(files),
            }),
        },
    })
}

fn collect_sensors(entries: Vec<RootEntry>) -> hwmon::LinuxHwmonResult {
    hwmon::collect_from(
        "/tmp/hwmon",
        RootLook::Entries { canonical: "/tmp/hwmon".into(), entries },
    )
}

#[test]
fn absent_root_and_absent_optional_limits_are_capability_gaps_not_errors() {
    let result = hwmon::collect_from("/tmp/hwmon/missing", RootLook::Missing);
    assert_eq!(result.capability.error_kind, Some(CapabilityErrorKind::Unsupported));

    let result = collect_sensors(vec![device_at(
        0,
        "/tmp/hwmon/hwmon0",
        vec![sensor("1", "42000\n", Some("package\n"), None)],
    )]);
    assert!(result.capability.available);
    assert_eq!(result.temperatures.len(), 1);
    assert_eq!(result.temperatures[0].max_celsius, None);
    assert_eq!(result.temperatures[0].critical_celsius, None);
    assert_eq!(result.temperatures[0].id, "/tmp/hwmon/hwmon0:1");
    assert_eq!(result.temperatures[0].label, "driver0 package");
}

#[test]
fn malformed_optional_attribute_preserves_snapshot_and_reports_invalid_data() {
    let result = collect_sensors(vec![device_at(
        0,
        "/tmp/hwmon/hwmon0",
        vec![sensor("1", "42000\n", None, Some("not-a-number\n"))],
    )]);

    assert_eq!(result.temperatures.len(), 1);
    assert_eq!(result.temperatures[0].celsius, Some(bits(42.0)));
    assert_eq!(result.temperatures[0].max_celsius, None);
    assert_eq!(result.capability.error_kind, Some(CapabilityErrorKind::InvalidData));
}

#[test]
fn partial_sensor_failure_preserves_valid_snapshots() {
    let result = collect_sensors(vec![
        device_at(0, "/tmp/hwmon/hwmon0", vec![sensor("1", "51000\n", None, None)]),
        device_at(1, "/tmp/hwmon/hwmon1", vec![sensor("1", "malformed\n", None, None)]),
    ]);

    assert_eq!(result.temperatures.len(), 1);
    assert_eq!(result.temperatures[0].celsius, Some(bits(51.0)));
    assert!(!result.capability.available);
    assert_eq!(result.capability.error_kind, Some(CapabilityErrorKind::InvalidData));
}

#[test]
fn in_tree_hwmon_symlinks_are_allowed_but_escape_links_are_rejected() {
    let device = "/tmp/hwmon/targets/device0";
    let result = collect_sensors(vec![
        device_at(0, device, vec![sensor("1", "40000\n", None, None)]),
        device_at(1, device, vec![sensor("1", "40000\n", None, None)]),
        RootEntry::Device(DeviceLook {
            path: "/tmp/hwmon/hwmon2".into(),
            name: "hwmon2".into(),
            entry: EntryLook::Resolved { canonical: "/tmp".into(), target: ResolvedLook::NotRead },
        }),
    ]);

    assert_eq!(result.temperatures.len(), 1, "duplicate stable IDs are removed");
    assert_eq!(result.capability.error_kind, Some(CapabilityErrorKind::InvalidData));
}

#[test]
fn sensors_are_ordered_by_their_index() {
    let result = collect_sensors(vec![device_at(
        0,
        "/tmp/hwmon/hwmon0",
        vec![sensor("2", "2000", None, None), sensor("10", "10000", None, None), FileEntry::Other],
    )]);
    let ids: Vec<&str> = result.temperatures.iter().map(|item| item.id.as_str()).collect();
    assert_eq!(ids, vec!["/tmp/hwmon/hwmon0:10", "/tmp/hwmon/hwmon0:2"]);
    assert_eq!(result.temperatures[0].label, "driver0 temp10");
}

#[test]
fn names_of_sensors_are_recognized() {
    assert!(is_hwmon_name("hwmon12"));
    assert!(!is_hwmon_name("hwmon"));
    assert!(!is_hwmon_name("hwmon1a"));
    assert_eq!(temperature_input_index("temp12_input").as_deref(), Some("12"));
    assert_eq!(temperature_input_index("temp_input"), None);
    assert_eq!(temperature_input_index("temp1_label"), None);
    assert!(allowed_target("/sys/class/hwmon", "/sys/class/hwmon", "/sys/devices/platform"));
    assert!(!allowed_target("/sys/class/hwmon", "/sys/class/hwmon", "/sys/devices2"));
    assert!(allowed_target("/tmp/a", "/tmp/a", "/tmp/a"));
    assert!(!allowed_target("/tmp/a", "/tmp/a", "/tmp/ab"));
}

#[test]
fn every_way_a_device_fails_is_told() {
    let tell = |entry: EntryLook| {
        collect_sensors(vec![RootEntry::Device(DeviceLook {
            path: "/tmp/hwmon/hwmon0".into(),
            name: "hwmon0".into(),
            entry,
        })])
        .capability
        .message
        .unwrap()
    };
    assert_eq!(
        tell(EntryLook::NotInspected(fault(IoKind::PermissionDenied))),
        "failed to inspect hwmon entry /tmp/hwmon/hwmon0: PermissionDenied"
    );
    assert!(tell(EntryLook::NoDirectory).contains("neither a directory nor a symlink"));
    assert!(tell(EntryLook::Unresolved(missing())).contains("is dangling"));
    assert!(tell(EntryLook::Unresolved(fault(IoKind::Other))).contains("failed to resolve"));
    assert!(
        tell(EntryLook::Resolved {
            canonical: "/tmp/hwmon/x".into(),
            target: ResolvedLook::NoDirectory
        })
        .contains("does not resolve to a directory")
    );
}

// ---------------------------------------------------------------------------
// NVIDIA
// ---------------------------------------------------------------------------
#[test]
fn failed_initialization_retries_after_backoff_and_reuses_success() {
    let started_at: u64 = 1_000_000_000_000;
    let mut attempts = 0;
    let mut state = RetryingInit::new();

    let error = state
        .get_or_try_init(started_at, || {
            attempts += 1;
            Err::<usize, _>("driver unavailable".to_string())
        })
        .expect_err("the first initialization should fail");
    assert_eq!(error, "driver unavailable");
    assert_eq!(attempts, 1);

    let error = state
        .get_or_try_init(started_at + NVML_INIT_RETRY_INITIAL - MILLISECOND, || {
            attempts += 1;
            Ok::<_, String>(7)
        })
        .expect_err("initialization must not run during the backoff window");
    assert_eq!(error, "driver unavailable");
    assert_eq!(attempts, 1);

    let value = state
        .get_or_try_init(started_at + NVML_INIT_RETRY_INITIAL, || {
            attempts += 1;
            Ok::<_, String>(7)
        })
        .expect("initialization should retry when the backoff expires");
    assert_eq!(*value, 7);
    assert_eq!(attempts, 2);

    let value = state
        .get_or_try_init(
            started_at + NVML_INIT_RETRY_INITIAL * 2,
            || -> Result<usize, String> { panic!("a successful initialization must be reused") },
        )
        .expect("the initialized value should remain available");
    assert_eq!(*value, 7);
    assert_eq!(attempts, 2);
}

#[test]
fn initialization_retry_delay_is_bounded() {
    let mut now: u64 = 1;
    let mut state = RetryingInit::<()>::new();

    for _ in 0..16 {
        let attempted_delay = state.retry_delay;
        state
            .get_or_try_init(now, || Err::<(), _>("still unavailable".to_string()))
            .expect_err("the synthetic initialization should fail");
        assert!(state.retry_delay <= NVML_INIT_RETRY_MAX);
        now += attempted_delay;
    }

    assert_eq!(state.retry_delay, NVML_INIT_RETRY_MAX);
}

#[test]
fn attempts_are_due_after_delays_that_double() {
    let mut state = RetryingInit::<u8>::new();
    let mut last: u64 = 7;
    for seconds in [30, 60, 120, 240, 480, 900, 900, 900] {
        assert!(state.get_or_try_init(last, || Err("unavailable".to_string())).is_err());
        let due = last + seconds * 1_000_000_000;
        assert_eq!(state.next_retry_at, Some(due as u128));
        let early = state.get_or_try_init(due - 1, || -> Result<u8, String> {
            panic!("no attempt is due yet")
        });
        assert!(early.is_err());
        last = due;
    }
}

fn nvidia(uuid: Option<&str>) -> NvidiaDevice {
    NvidiaDevice {
        uuid: uuid.map(ToString::to_string),
        name: None,
        utilization_percent: Some(bits(12.0)),
        memory: Some((100, 40)),
        temperature_celsius: None,
        power_watts: None,
        core_clock_mhz: None,
        memory_clock_mhz: None,
        pcie_rx_bytes_per_second: None,
        pcie_tx_bytes_per_second: None,
    }
}

#[test]
fn nvidia_devices_are_told_as_far_as_they_answer() {
    let (gpus, capability) =
        nvidia_result(NvidiaLook::Devices(vec![None, Some(nvidia(None)), Some(nvidia(Some("u")))]));
    assert_eq!(gpus.len(), 2);
    assert_eq!(gpus[0].id, "nvidia-1");
    assert_eq!(gpus[0].name, "NVIDIA GPU 1");
    assert_eq!(gpus[0].memory_used_bytes, Some(40));
    assert_eq!(gpus[1].id, "u");
    assert!(capability.available);

    let kind = |look| nvidia_result(look).1.error_kind.unwrap();
    assert_eq!(
        kind(NvidiaLook::NotInitialized("no driver".into())),
        CapabilityErrorKind::DriverMissing
    );
    assert_eq!(kind(NvidiaLook::NotCounted("lost".into())), CapabilityErrorKind::Transient);
    assert_eq!(kind(NvidiaLook::Devices(vec![])), CapabilityErrorKind::NotPresent);
    assert_eq!(kind(NvidiaLook::Devices(vec![None])), CapabilityErrorKind::Transient);
}

#[test]
fn the_collectors_of_a_platform_are_put_together() {
    let limits = ReportLimits {
        cpu_cores: 1,
        networks: 1,
        disks: 1,
        temperatures: 1,
        gpus: 1,
        capabilities: 10,
    };
    let given = GpuCollectors {
        nvidia: Some(nvidia_result(NvidiaLook::Devices(vec![
            Some(nvidia(Some("a"))),
            Some(nvidia(Some("b"))),
            Some(nvidia(Some("c"))),
        ]))),
        linux: Some(collect_cards(vec![])),
        windows: None,
    };
    let (gpus, capabilities) = assemble_gpus(given, Platform::Linux, limits);
    assert_eq!(gpus.len(), 2);
    let names: Vec<&str> = capabilities.iter().map(|item| item.name.as_str()).collect();
    assert_eq!(names, vec!["gpu.nvidia", "gpu.amd", "gpu.intel", "gpu.apple"]);

    let (gpus, capabilities) = assemble_gpus(
        GpuCollectors { nvidia: None, linux: None, windows: None },
        Platform::Macos,
        limits,
    );
    assert!(gpus.is_empty());
    assert_eq!(
        capabilities[0].message.as_deref(),
        Some("agent was built without the nvidia feature")
    );
    assert_eq!(capabilities.len(), 4);
    let (_, capabilities) = assemble_gpus(
        GpuCollectors {
            nvidia: None,
            linux: None,
            windows: Some((vec![wddm_snapshot(bits(3.0))], Capability::available("a", "b"))),
        },
        Platform::Windows,
        limits,
    );
    assert_eq!(capabilities.len(), 4);
    assert_eq!(capabilities[3].name, "gpu.intel.vendor");
}

// ---------------------------------------------------------------------------
// PDH
// ---------------------------------------------------------------------------
const ITEM_SIZE: usize = 24;

#[test]
fn planning_rounds_up_to_typed_slots() {
    assert_eq!(
        plan_pdh_buffer(25, 1, ITEM_SIZE).unwrap(),
        PdhBufferLayout {
            slots: 2,
            capacity_bytes: 48,
        }
    );
}

#[test]
fn planning_enforces_independent_byte_and_item_limits() {
    let aligned_max = (MAX_PDH_ARRAY_BYTES / ITEM_SIZE) * ITEM_SIZE;
    assert!(
        plan_pdh_buffer(
            u32::try_from(aligned_max).unwrap(),
            u32::try_from(MAX_PDH_ARRAY_ITEMS).unwrap(),
            ITEM_SIZE,
        )
        .is_ok()
    );
    assert!(
        plan_pdh_buffer(
            u32::try_from(MAX_PDH_ARRAY_BYTES + 1).unwrap(),
            0,
            ITEM_SIZE,
        )
        .is_err()
    );
    assert!(
        plan_pdh_buffer(
            u32::try_from(MAX_PDH_ARRAY_ITEMS * ITEM_SIZE).unwrap(),
            u32::try_from(MAX_PDH_ARRAY_ITEMS + 1).unwrap(),
            ITEM_SIZE,
        )
        .is_err()
    );
}

#[test]
fn planning_rejects_rounding_and_layout_overflow() {
    assert!(plan_pdh_buffer(0, 0, ITEM_SIZE).is_err());
    let unaligned_limit = u32::try_from(MAX_PDH_ARRAY_BYTES).unwrap();
    assert!(
        plan_pdh_buffer(unaligned_limit, 0, ITEM_SIZE).is_err(),
        "rounding a typed allocation must not exceed the byte limit"
    );
    assert!(plan_pdh_buffer(1, 2, usize::MAX).is_err());
    assert!(plan_pdh_buffer(1, 1, 0).is_err());
    assert!(plan_pdh_buffer(1, 1, ITEM_SIZE).is_err());
}

#[test]
fn successful_result_must_fit_the_actual_returned_bytes() {
    assert_eq!(validate_pdh_result(48, 48, 2, ITEM_SIZE).unwrap(), 2);
    assert_eq!(
        validate_pdh_result(72, 72, 3, ITEM_SIZE).unwrap(),
        3,
        "the instance list may grow between PDH's sizing and read calls"
    );
    assert_eq!(validate_pdh_result(48, 0, 0, ITEM_SIZE).unwrap(), 0);
    assert!(validate_pdh_result(48, 0, 1, ITEM_SIZE).is_err());
    assert!(validate_pdh_result(48, 49, 2, ITEM_SIZE).is_err());
    assert!(validate_pdh_result(48, 47, 2, ITEM_SIZE).is_err());
    assert!(
        validate_pdh_result(
            MAX_PDH_ARRAY_BYTES,
            u32::try_from(MAX_PDH_ARRAY_BYTES).unwrap(),
            u32::try_from(MAX_PDH_ARRAY_ITEMS + 1).unwrap(),
            ITEM_SIZE,
        )
        .is_err()
    );
    assert!(validate_pdh_result(MAX_PDH_ARRAY_BYTES + 1, 0, 0, ITEM_SIZE).is_err());
    assert!(validate_pdh_result(1, 0, 0, 0).is_err());
}

#[test]
fn buffer_faults_are_told_in_words() {
    assert_eq!(
        plan_pdh_buffer(5_000_000, 1, ITEM_SIZE).unwrap_err().message(),
        "PDH requested 5000000 array bytes, exceeding the 4194304 byte limit"
    );
    assert_eq!(
        plan_pdh_buffer(1, 2, ITEM_SIZE),
        Err(PdhBufferFault::TooSmall { required: 1, items: 2 })
    );
    let limit = u32::try_from(MAX_PDH_ARRAY_BYTES).unwrap();
    assert_eq!(plan_pdh_buffer(1, 1, 0), Err(PdhBufferFault::ZeroSizedItem));
    assert_eq!(plan_pdh_buffer(0, 0, ITEM_SIZE), Err(PdhBufferFault::NoBytes));
    assert_eq!(
        plan_pdh_buffer(limit + 1, 0, ITEM_SIZE),
        Err(PdhBufferFault::TooManyBytes { required: MAX_PDH_ARRAY_BYTES + 1 })
    );
    assert_eq!(
        plan_pdh_buffer(limit, 4097, ITEM_SIZE),
        Err(PdhBufferFault::TooManyItems { items: 4097 })
    );
    assert_eq!(plan_pdh_buffer(1, 2, usize::MAX), Err(PdhBufferFault::ItemsOverflow));
    assert_eq!(plan_pdh_buffer(2, 0, usize::MAX), Err(PdhBufferFault::RoundingOverflow));
    assert_eq!(
        plan_pdh_buffer(limit, 0, ITEM_SIZE),
        Err(PdhBufferFault::TooLargeAligned { capacity: 4_194_312 })
    );
    assert_eq!(
        validate_pdh_result(MAX_PDH_ARRAY_BYTES + 1, 0, 0, ITEM_SIZE),
        Err(PdhBufferFault::CapacityOverLimit)
    );
    assert_eq!(
        validate_pdh_result(48, 49, 2, ITEM_SIZE),
        Err(PdhBufferFault::OverCapacity { used: 49, capacity: 48 })
    );
    assert_eq!(
        validate_pdh_result(48, 47, 2, ITEM_SIZE),
        Err(PdhBufferFault::UsedTooSmall { used: 47, items: 2 })
    );
    assert_eq!(validate_pdh_result(48, 48, 2, usize::MAX), Err(PdhBufferFault::ItemsOverflow));
    assert_eq!(
        validate_pdh_result(48, 49, 2, ITEM_SIZE).unwrap_err().message(),
        "PDH reported 49 used bytes for a 48 byte buffer"
    );
}

#[test]
fn initialization_failure_retries_after_backoff_and_reuses_success() {
    let started_at: u64 = 1_000_000_000_000;
    let mut attempts = 0;
    let mut state = RetryingPdhResource::new();

    state
        .get_or_try_init(started_at, || {
            attempts += 1;
            Err::<usize, _>("PDH unavailable".to_string())
        })
        .expect_err("the first initialization should fail");
    assert_eq!(attempts, 1);

    state
        .get_or_try_init(started_at + PDH_RETRY_INITIAL - MILLISECOND, || {
            attempts += 1;
            Ok::<_, String>(9)
        })
        .expect_err("the resource must not initialize during backoff");
    assert_eq!(attempts, 1);

    let value = state
        .get_or_try_init(started_at + PDH_RETRY_INITIAL, || {
            attempts += 1;
            Ok::<_, String>(9)
        })
        .expect("the resource should recover after backoff");
    assert_eq!(*value, 9);
    assert_eq!(attempts, 2);
    assert!(state.ever_succeeded());

    let value = state
        .get_or_try_init(
            started_at + PDH_RETRY_INITIAL * 2,
            || -> Result<usize, String> { panic!("the successful resource must be reused") },
        )
        .expect("the successful resource should remain available");
    assert_eq!(*value, 9);
    assert_eq!(attempts, 2);
}

#[derive(Debug)]
struct DropMarker(Rc<Cell<usize>>);

impl Drop for DropMarker {
    fn drop(&mut self) {
        self.0.set(self.0.get() + 1);
    }
}

#[test]
fn invalidation_drops_the_resource_and_rebuilds_after_backoff() {
    let started_at: u64 = 1_000_000_000_000;
    let drops = Rc::new(Cell::new(0));
    let mut state = RetryingPdhResource::new();
    state
        .get_or_try_init(started_at, || Ok::<_, String>(DropMarker(Rc::clone(&drops))))
        .expect("the initial resource should initialize");

    state.invalidate(started_at, "invalid query handle".to_string());
    assert_eq!(drops.get(), 1, "the invalid resource must close immediately");
    state
        .get_or_try_init(started_at + PDH_RETRY_INITIAL - MILLISECOND, || {
            Ok::<_, String>(DropMarker(Rc::clone(&drops)))
        })
        .expect_err("an invalidated resource must observe backoff");

    state
        .get_or_try_init(started_at + PDH_RETRY_INITIAL, || {
            Ok::<_, String>(DropMarker(Rc::clone(&drops)))
        })
        .expect("the invalidated resource should rebuild after backoff");
    assert_eq!(drops.get(), 1);
}

#[test]
fn retry_delay_and_invalid_handle_classification_are_bounded_and_specific() {
    let mut now: u64 = 1;
    let mut state = RetryingPdhResource::<()>::new();
    for _ in 0..16 {
        let attempted_delay = state.retry_delay;
        state
            .get_or_try_init(now, || Err::<(), _>("still unavailable".to_string()))
            .expect_err("the synthetic initialization should fail");
        assert!(state.retry_delay <= PDH_RETRY_MAX);
        now += attempted_delay;
    }
    assert_eq!(state.retry_delay, PDH_RETRY_MAX);

    assert!(should_rebuild_pdh_query(PDH_INVALID_HANDLE_STATUS));
    assert!(!should_rebuild_pdh_query(0));
    assert!(!should_rebuild_pdh_query(0xc000_0bc6)); // PDH_INVALID_DATA
}

// ---------------------------------------------------------------------------
// WDDM
// ---------------------------------------------------------------------------
fn summary(
    total_item_count: usize,
    samples: Vec<(String, u64)>,
    invalid_status_count: usize,
    nonfinite_value_count: usize,
) -> FormattedValuesSummary {
    FormattedValuesSummary {
        total_item_count,
        samples,
        invalid_status_count,
        nonfinite_value_count,
    }
}

fn sample(instance: &str, utilization: f64) -> (String, u64) {
    (instance.to_string(), bits(utilization))
}

#[test]
fn empty_formatted_array_is_not_present() {
    let (utilization, capability) = finish_formatted_values(&summary(0, Vec::new(), 0, 0), None);

    assert_eq!(utilization, None);
    assert!(!capability.available);
    assert_eq!(capability.error_kind, Some(CapabilityErrorKind::NotPresent));
}

#[test]
fn all_invalid_statuses_are_invalid_data_not_absent() {
    let (utilization, capability) = finish_formatted_values(&summary(2, Vec::new(), 2, 0), None);

    assert_eq!(utilization, None);
    assert!(!capability.available);
    assert_eq!(capability.error_kind, Some(CapabilityErrorKind::InvalidData));
    assert!(
        capability
            .message
            .as_deref()
            .is_some_and(|message| message.contains("0 valid, 2 invalid counter status"))
    );
}

#[test]
fn all_nonfinite_values_are_invalid_data_not_absent() {
    let (utilization, capability) = finish_formatted_values(&summary(2, Vec::new(), 0, 2), None);

    assert_eq!(utilization, None);
    assert!(!capability.available);
    assert_eq!(capability.error_kind, Some(CapabilityErrorKind::InvalidData));
    assert!(
        capability
            .message
            .as_deref()
            .is_some_and(|message| message.contains("2 non-finite value"))
    );
}

#[test]
fn partial_values_keep_the_snapshot_but_not_full_availability() {
    let valid = sample("pid_1_luid_0x0_0x1_phys_0_eng_0_engtype_3D", 42.0);
    let (utilization, capability) =
        finish_formatted_values(&summary(3, vec![valid], 1, 1), Some(bits(42.0)));

    assert_eq!(utilization.map(f64::from_bits), Some(42.0));
    assert!(!capability.available);
    assert_eq!(capability.error_kind, Some(CapabilityErrorKind::InvalidData));
    assert!(
        capability
            .message
            .as_deref()
            .is_some_and(|message| message.contains("1 valid"))
    );
}

#[test]
fn complete_values_are_fully_available() {
    let samples = vec![
        sample("pid_1_luid_0x0_0x1_phys_0_eng_0_engtype_3D", 20.0),
        sample("pid_2_luid_0x0_0x1_phys_0_eng_0_engtype_3D", 30.0),
    ];
    let (utilization, capability) =
        finish_formatted_values(&summary(2, samples, 0, 0), Some(bits(50.0)));

    assert_eq!(utilization.map(f64::from_bits), Some(50.0));
    assert!(capability.available);
    assert_eq!(capability.error_kind, None);
}

fn leaders(names: &[&str]) -> Vec<usize> {
    engine_leaders(&names.iter().map(|name| name.to_string()).collect())
}

#[test]
fn process_instances_of_one_engine_are_grouped() {
    assert_eq!(
        leaders(&[
            "pid_100_luid_0x00000000_0x0000abcd_phys_0_eng_2_engtype_3D",
            "pid_200_luid_0x00000000_0x0000ABCD_phys_0_eng_2_engtype_3d",
            "pid_300_luid_0x0_0x1_phys_0_eng_1_engtype_Copy",
        ]),
        vec![0, 0, 2]
    );
    assert_eq!(
        leaders(&[
            "pid_100_luid_0x0_0xaaaa_phys_0_eng_0_engtype_3D",
            "pid_200_luid_0x0_0xbbbb_phys_0_eng_0_engtype_3D",
        ]),
        vec![0, 1]
    );
    assert_eq!(
        leaders(&[
            "pid_bad_luid_0x0_0x1_phys_0_eng_0_engtype_3D",
            "pid_worse_luid_0x0_0x1_phys_0_eng_0_engtype_3D",
        ]),
        vec![0, 1]
    );
}

#[test]
fn engine_keys_are_exact() {
    assert_eq!(
        physical_engine_key("pid_1_luid_0xAB_0x1_phys_0_eng_3_engtype_Video_Decode"),
        "engine:luid_0xab_0x1_phys_0_eng_3_engtype_video_decode"
    );
    for name in [
        "other",
        "pid_1",
        "pid_1_luid_0x0_phys_0_eng_0_engtype_3D",
        "pid_1_luid_0x0_0x1_0x2_phys_0_eng_0_engtype_3D",
        "pid_4294967296_luid_0x0_0x1_phys_0_eng_0_engtype_3D",
        "pid_1_luid_0x0_0x1_phys_0_eng_0_engtype_",
        "pid_1_luid_0x0_0x1_phys_0_eng_0_engtype_3 D",
    ] {
        assert_eq!(physical_engine_key(name), format!("instance:{name}"));
    }
}

const BASE: usize = 0x1_0000;

fn read_name(units: &[u16], offset: usize, used: usize, minimum: usize) -> Result<String, PdhReadError> {
    let place = NamePlace {
        name: BASE + offset,
        base: BASE,
        used_bytes: used,
        capacity_bytes: units.len() * 2,
        minimum_offset: minimum,
    };
    let count = place.scanned_units()?;
    instance_name(&units[offset / 2..offset / 2 + count].to_vec())
}

#[test]
fn reads_only_nul_terminated_utf16_inside_the_live_buffer_bounds() {
    let valid: Vec<u16> = "pid_1_luid_0x0_0x1_phys_0_eng_0_engtype_3D"
        .encode_utf16()
        .chain(std::iter::once(0))
        .collect();
    let name = read_name(&valid, 0, valid.len() * 2, 0).unwrap();
    assert_eq!(name, "pid_1_luid_0x0_0x1_phys_0_eng_0_engtype_3D");

    let nul_outside_used = vec![b'A' as u16, b'B' as u16, 0];
    let error = read_name(&nul_outside_used, 0, 4, 0).unwrap_err();
    assert!(error.message.contains("not NUL-terminated"));

    let error = read_name(&nul_outside_used, 6, 6, 0).unwrap_err();
    assert!(error.message.contains("outside the live returned"));

    let mut overlong = vec![b'A' as u16; MAX_PDH_INSTANCE_NAME_UTF16_UNITS + 2];
    *overlong.last_mut().unwrap() = 0;
    let error = read_name(&overlong, 0, overlong.len() * 2, 0).unwrap_err();
    assert!(error.message.contains("not NUL-terminated within"));
}

#[test]
fn rejects_malformed_utf16_and_names_that_overlap_the_item_array() {
    let malformed = vec![0xd800, 0];
    let error = read_name(&malformed, 0, 4, 0).unwrap_err();
    assert!(error.message.contains("invalid UTF-16"));

    let overlapping = vec![b'A' as u16, 0, b'B' as u16, 0];
    let error = read_name(&overlapping, 0, 8, 4).unwrap_err();
    assert!(error.message.contains("outside the live returned"));
    assert_eq!(read_name(&overlapping, 4, 8, 4).unwrap(), "B");
}

#[test]
fn names_beyond_the_basic_plane_are_read() {
    let units: Vec<u16> = "a\u{1f600}b".encode_utf16().chain(std::iter::once(0)).collect();
    assert_eq!(instance_name(&units).unwrap(), "a\u{1f600}b");
    assert_eq!(instance_name(&vec![0, 65]).unwrap_err().message, "PDH instance name is empty");
    let odd = NamePlace {
        name: BASE + 1,
        base: BASE,
        used_bytes: 8,
        capacity_bytes: 8,
        minimum_offset: 0,
    };
    assert!(odd.scanned_units().is_err());
    let over = NamePlace { used_bytes: 9, ..odd };
    assert_eq!(
        over.scanned_units().unwrap_err().message,
        "PDH instance-name buffer reports 9 used bytes for 8 bytes of capacity"
    );
    let wrapped = NamePlace { base: usize::MAX, used_bytes: 8, ..odd };
    assert!(wrapped.scanned_units().unwrap_err().message.contains("overflowed"));
}

#[test]
fn counter_calls_are_judged_by_their_status() {
    assert!(matches!(judge_sizing(0, 0, 3, ITEM_SIZE), Sizing::Empty(3)));
    match judge_sizing(0xc000_0bbc, 0, 0, ITEM_SIZE) {
        Sizing::Failed(error) => {
            assert_eq!(error.message, "PDH array sizing returned 0xc0000bbc");
            let (capability, rebuild) = reading_unavailable(&error);
            assert!(rebuild);
            assert_eq!(capability.error_kind, Some(CapabilityErrorKind::Transient));
        }
        other => panic!("{other:?}"),
    }
    assert!(matches!(
        judge_sizing(PDH_MORE_DATA, 25, 1, ITEM_SIZE),
        Sizing::Buffer(PdhBufferLayout { slots: 2, capacity_bytes: 48 })
    ));
    assert_eq!(judge_reading(0, 48, 48, 2, ITEM_SIZE).unwrap(), 2);
    assert_eq!(
        judge_reading(5, 48, 48, 2, ITEM_SIZE).unwrap_err().message,
        "PDH array read returned 0x00000005"
    );
    assert_eq!(
        collection_failed(0x800007d5).message,
        "PdhCollectQueryData returned 0x800007d5"
    );
    assert_eq!(
        session_unavailable("lost".into(), false).error_kind,
        Some(CapabilityErrorKind::Unsupported)
    );
    assert_eq!(
        session_unavailable("lost".into(), true).error_kind,
        Some(CapabilityErrorKind::Transient)
    );
}

#[test]
fn items_are_summed_up() {
    let summary = summarize(vec![
        ItemLook::InvalidStatus,
        ItemLook::Sample { name: Ok("a".into()), value: 1 },
        ItemLook::NotFinite,
        ItemLook::Sample { name: Ok("b".into()), value: 2 },
    ])
    .unwrap();
    assert_eq!(summary.total_item_count, 4);
    assert_eq!(summary.samples, vec![("a".to_string(), 1), ("b".to_string(), 2)]);
    assert_eq!(summary.invalid_status_count, 1);
    assert_eq!(summary.nonfinite_value_count, 1);
    let error = summarize(vec![
        ItemLook::Sample { name: Err(PdhReadError::message("first".into())), value: 1 },
        ItemLook::Sample { name: Err(PdhReadError::message("second".into())), value: 1 },
    ])
    .unwrap_err();
    assert_eq!(error.message, "first");
}
