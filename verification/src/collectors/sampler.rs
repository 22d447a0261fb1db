//! One sample of a host: what is read anew, and what a report says of the readings.

use crate::collectors::bounded::{
    bounded, extend_bounded, extended, limit_of, producer_collection_limit, push_bounded, pushed,
};
use crate::collectors::drm::LinuxGpuResult;
use crate::collectors::model::{
    absent, capability_views, gpu_views, present, Capability, CapabilityErrorKind, CapabilityView,
    GpuSnapshot, GpuView, TemperatureSnapshot,
};
use crate::collectors::order::{sort, sorted};
use crate::config::{MAX_REPORT_INTERVAL_SECONDS, MIN_REPORT_INTERVAL_MILLISECONDS};
use crate::identifier::{canonical, canonical_of, canonical_uuid, uuid_read, IdentifierFault};
use crate::platform::Platform;
use crate::schedule::SECOND;
use crate::text;
use vstd::prelude::*;

verus! {

/// How many elements of each list a report may carry.
#[derive(Clone, Copy, PartialEq, Eq, Structural, Debug)]
pub struct ReportLimits {
    pub cpu_cores: usize,
    pub networks: usize,
    pub disks: usize,
    pub temperatures: usize,
    pub gpus: usize,
    pub capabilities: usize,
}

// ---------------------------------------------------------------------------
// Time
// ---------------------------------------------------------------------------
/// One millisecond in nanoseconds.
pub const MILLISECOND: u64 = 1_000_000;

/// The shortest interval that a report may tell, in nanoseconds.
pub open spec fn shortest() -> int {
    MIN_REPORT_INTERVAL_MILLISECONDS * MILLISECOND
}

/// The longest interval that a report may tell, in nanoseconds.
pub open spec fn longest() -> int {
    MAX_REPORT_INTERVAL_SECONDS * SECOND
}

/// The interval that a report tells, in nanoseconds: what has passed since the last sample, but
/// never outside what the server takes. A report outside of it would be refused and lost, and a
/// reading that is a little off is better than none.
pub fn contract_interval(elapsed: u128) -> (r: u64)
    ensures
        r == if elapsed < shortest() {
            shortest()
        } else if elapsed > longest() {
            longest()
        } else {
            elapsed as int
        },
        shortest() <= r <= longest(),
{
    let low: u64 = MIN_REPORT_INTERVAL_MILLISECONDS * MILLISECOND;
    let high: u64 = MAX_REPORT_INTERVAL_SECONDS * SECOND;
    if elapsed < low as u128 {
        low
    } else if elapsed > high as u128 {
        high
    } else {
        elapsed as u64
    }
}

/// Whether the slow readings are due: at the first sample, and when their interval has passed in
/// whole seconds.
pub fn slow_readings_due(since_last: Option<u128>, slow_interval_seconds: u64) -> (r: bool)
    ensures
        r == match since_last {
            None => true,
            Some(elapsed) => elapsed as int / SECOND as int >= slow_interval_seconds,
        },
{
    match since_last {
        None => true,
        Some(elapsed) => elapsed / (SECOND as u128) >= slow_interval_seconds as u128,
    }
}

/// A count of processors as a report writes it.
pub fn wire_cpu_count(count: usize) -> (r: u32)
    ensures
        r == if count > u32::MAX {
            u32::MAX as int
        } else {
            count as int
        },
{
    if count > u32::MAX as usize {
        u32::MAX
    } else {
        count as u32
    }
}

// ---------------------------------------------------------------------------
// Temperatures of other systems than Linux
// ---------------------------------------------------------------------------
/// Some sensor gave a number.
pub open spec fn some_measured(temperatures: Seq<TemperatureSnapshot>) -> bool {
    exists|i: int| 0 <= i < temperatures.len() && (#[trigger] temperatures[i]).celsius is Some
}

/// Whether temperatures are measured.
pub open spec fn temperature_state(measured: bool) -> CapabilityView {
    if measured {
        present("system.temperature"@, "sysinfo/hwmon"@)
    } else {
        absent(
            "system.temperature"@,
            "sysinfo/hwmon"@,
            CapabilityErrorKind::Unsupported,
            "the operating system or hardware exposed no readable numeric sensor"@,
        )
    }
}

/// Whether temperatures are measured.
pub fn temperature_capability(temperatures: &Vec<TemperatureSnapshot>) -> (r: Capability)
    ensures
        r@ == temperature_state(some_measured(temperatures@)),
{
    let mut i: usize = 0;
    while i < temperatures.len()
        invariant
            i <= temperatures@.len(),
            forall|k: int| 0 <= k < i ==> (#[trigger] temperatures@[k]).celsius is None,
        decreases temperatures@.len() - i,
    {
        if temperatures[i].celsius.is_some() {
            return Capability::available("system.temperature", "sysinfo/hwmon");
        }
        i += 1;
    }
    Capability::unavailable(
        "system.temperature",
        "sysinfo/hwmon",
        CapabilityErrorKind::Unsupported,
        text::owned("the operating system or hardware exposed no readable numeric sensor"),
    )
}

/// Two readings are of the same sensor.
pub open spec fn same_sensor(a: TemperatureSnapshot, b: TemperatureSnapshot) -> bool {
    a.source@ == b.source@ && a.id@ == b.id@
}

/// Some reading of the list is of the same sensor.
pub open spec fn has_sensor(s: Seq<TemperatureSnapshot>, value: TemperatureSnapshot) -> bool {
    exists|i: int| 0 <= i < s.len() && same_sensor(#[trigger] s[i], value)
}

/// The first reading of each sensor.
pub open spec fn one_per_sensor(s: Seq<TemperatureSnapshot>) -> Seq<TemperatureSnapshot>
    decreases s.len(),
{
    if s.len() == 0 {
        s
    } else {
        let before = one_per_sensor(s.drop_last());
        if has_sensor(before, s.last()) {
            before
        } else {
            before.push(s.last())
        }
    }
}

fn holds_sensor(list: &Vec<TemperatureSnapshot>, value: &TemperatureSnapshot) -> (r: bool)
    ensures
        r == has_sensor(list@, *value),
{
    let mut i: usize = 0;
    while i < list.len()
        invariant
            i <= list@.len(),
            forall|k: int| 0 <= k < i ==> !same_sensor(#[trigger] list@[k], *value),
        decreases list@.len() - i,
    {
        if text::same(list[i].source.as_str(), value.source.as_str()) && text::same(
            list[i].id.as_str(),
            value.id.as_str(),
        ) {
            assert(same_sensor(list@[i as int], *value));
            return true;
        }
        i += 1;
    }
    false
}

/// The readings of a host's sensors, the first of each, and whether temperatures are measured.
pub fn collect_temperatures(readings: Vec<TemperatureSnapshot>) -> (r: (
    Vec<TemperatureSnapshot>,
    Capability,
))
    ensures
        r.0@ == one_per_sensor(readings@),
        r.1@ == temperature_state(some_measured(r.0@)),
{
    let ghost given = readings@;
    let mut rest = readings;
    let mut out: Vec<TemperatureSnapshot> = Vec::new();
    let ghost mut n: int = 0;
    assert(given.skip(0) =~= given);
    assert(given.take(0) =~= out@);
    while rest.len() > 0
        invariant
            0 <= n <= given.len(),
            rest@ == given.skip(n),
            out@ == one_per_sensor(given.take(n)),
        decreases rest@.len(),
    {
        let value = rest.remove(0);
        proof {
            assert(given.take(n + 1).drop_last() =~= given.take(n));
            assert(given.take(n + 1).last() == value);
        }
        if !holds_sensor(&out, &value) {
            out.push(value);
        }
        proof {
            assert(rest@ =~= given.skip(n + 1));
            n = n + 1;
        }
    }
    proof {
        assert(given.take(n) =~= given);
    }
    let capability = temperature_capability(&out);
    (out, capability)
}

// ---------------------------------------------------------------------------
// Capabilities
// ---------------------------------------------------------------------------
/// What every sample measures, with the temperatures.
pub open spec fn always_measured(temperature: CapabilityView) -> Seq<CapabilityView> {
    seq![
        present("system.cpu"@, "sysinfo"@),
        present("system.memory"@, "sysinfo"@),
        present("system.network"@, "sysinfo"@),
        present("system.disk"@, "sysinfo"@),
        temperature,
    ]
}

/// What every sample measures, with the temperatures.
pub fn core_capabilities(temperature: &Capability) -> (r: Vec<Capability>)
    ensures
        capability_views(r@) == always_measured(temperature@),
{
    let mut capabilities: Vec<Capability> = Vec::new();
    capabilities.push(Capability::available("system.cpu", "sysinfo"));
    capabilities.push(Capability::available("system.memory", "sysinfo"));
    capabilities.push(Capability::available("system.network", "sysinfo"));
    capabilities.push(Capability::available("system.disk", "sysinfo"));
    capabilities.push(temperature.copy());
    assert(capability_views(capabilities@) =~= always_measured(temperature@));
    capabilities
}

/// Two capabilities are told apart by neither name nor source.
pub open spec fn same_capability(a: Capability, b: Capability) -> bool {
    a.name@ == b.name@ && a.source@ == b.source@
}

/// The list without those that repeat the one before them.
pub open spec fn without_repeats(s: Seq<Capability>) -> Seq<Capability>
    decreases s.len(),
{
    if s.len() == 0 {
        s
    } else {
        let before = without_repeats(s.drop_last());
        if before.len() > 0 && same_capability(before.last(), s.last()) {
            before
        } else {
            before.push(s.last())
        }
    }
}

fn drop_repeats(list: Vec<Capability>) -> (r: Vec<Capability>)
    ensures
        r@ == without_repeats(list@),
{
    let ghost given = list@;
    let mut rest = list;
    let mut out: Vec<Capability> = Vec::new();
    let ghost mut n: int = 0;
    assert(given.skip(0) =~= given);
    assert(given.take(0) =~= out@);
    while rest.len() > 0
        invariant
            0 <= n <= given.len(),
            rest@ == given.skip(n),
            out@ == without_repeats(given.take(n)),
        decreases rest@.len(),
    {
        let value = rest.remove(0);
        proof {
            assert(given.take(n + 1).drop_last() =~= given.take(n));
            assert(given.take(n + 1).last() == value);
        }
        let repeated = out.len() > 0 && text::same(
            out[out.len() - 1].name.as_str(),
            value.name.as_str(),
        ) && text::same(out[out.len() - 1].source.as_str(), value.source.as_str());
        if !repeated {
            out.push(value);
        }
        proof {
            assert(rest@ =~= given.skip(n + 1));
            n = n + 1;
        }
    }
    proof {
        assert(given.take(n) =~= given);
    }
    out
}

/// The capability is missing because a collector failed, not because of the machine.
pub open spec fn is_collector_error(capability: CapabilityView) -> bool {
    !capability.available && (capability.error_kind == Some(CapabilityErrorKind::Transient)
        || capability.error_kind == Some(CapabilityErrorKind::InvalidData))
}

/// How many of the capabilities are missing because a collector failed.
pub open spec fn error_count(capabilities: Seq<Capability>) -> nat {
    capabilities.filter(|capability: Capability| is_collector_error(capability@)).len()
}

fn count_errors(capabilities: &Vec<Capability>) -> (r: u64)
    ensures
        r == error_count(capabilities@),
{
    let ghost failed = |capability: Capability| is_collector_error(capability@);
    let mut count: u64 = 0;
    let mut i: usize = 0;
    assert(capabilities@.take(0).filter(failed).len() == 0) by {
        reveal(Seq::filter);
    }
    while i < capabilities.len()
        invariant
            i <= capabilities.len(),
            count <= i,
            failed == (|capability: Capability| is_collector_error(capability@)),
            count == capabilities@.take(i as int).filter(failed).len(),
        decreases capabilities@.len() - i,
    {
        let capability = &capabilities[i];
        let wrong = match capability.error_kind {
            Some(CapabilityErrorKind::Transient) | Some(CapabilityErrorKind::InvalidData) => true,
            _ => false,
        };
        proof {
            let longer = capabilities@.take(i + 1);
            assert(longer.drop_last() =~= capabilities@.take(i as int));
            reveal(Seq::filter);
        }
        if !capability.available && wrong {
            count = count + 1;
        }
        i += 1;
    }
    proof {
        assert(capabilities@.take(i as int) =~= capabilities@);
    }
    count
}

/// What a report says of its readings: the capabilities by their names without repeats, and how
/// many of them a collector failed at.
pub fn report_capabilities(
    temperature: &Capability,
    gpu_capabilities: Vec<Capability>,
    maximum: usize,
) -> (r: (Vec<Capability>, u64))
    ensures
        exists|known: Seq<Capability>|
            capability_views(known) == always_measured(temperature@) && r.0@ == without_repeats(
                #[trigger] sorted(extended(known, gpu_capabilities@, maximum)),
            ),
        r.1 == error_count(r.0@),
{
    let mut capabilities = core_capabilities(temperature);
    let ghost known = capabilities@;
    extend_bounded(&mut capabilities, gpu_capabilities, maximum);
    let capabilities = drop_repeats(sort(capabilities));
    assert(capabilities@ == without_repeats(
        sorted(extended(known, gpu_capabilities@, maximum)),
    ));
    let errors: u64 = count_errors(&capabilities);
    (capabilities, errors)
}

// ---------------------------------------------------------------------------
// Graphics devices of all kinds
// ---------------------------------------------------------------------------
/// What the collectors of a platform gave. Each is left out where it is not built in.
#[derive(Debug)]
pub struct GpuCollectors {
    pub nvidia: Option<(Vec<GpuSnapshot>, Capability)>,
    pub linux: Option<LinuxGpuResult>,
    pub windows: Option<(Vec<GpuSnapshot>, Capability)>,
}

/// The capabilities that go with the Windows counters.
pub open spec fn windows_enrichment() -> Seq<CapabilityView> {
    seq![
        absent(
            "gpu.amd.vendor"@,
            "amd-adlx"@,
            CapabilityErrorKind::Unsupported,
            "ADLX enrichment is not present; WDDM utilization remains available"@,
        ),
        absent(
            "gpu.intel.vendor"@,
            "intel-igcl"@,
            CapabilityErrorKind::Unsupported,
            "IGCL enrichment is not present; WDDM utilization remains available"@,
        ),
    ]
}

/// The capabilities of a macOS host.
pub open spec fn macos_capabilities() -> Seq<CapabilityView> {
    seq![
        absent(
            "gpu.amd"@,
            "metal/thermal-state"@,
            CapabilityErrorKind::Unsupported,
            "AMD telemetry is not enabled in the macos baseline build"@,
        ),
        absent(
            "gpu.intel"@,
            "metal/thermal-state"@,
            CapabilityErrorKind::Unsupported,
            "Intel telemetry is not enabled in the macos baseline build"@,
        ),
        absent(
            "gpu.apple"@,
            "metal/thermal-state"@,
            CapabilityErrorKind::Unsupported,
            "public APIs do not expose stable whole-system Apple GPU utilization"@,
        ),
    ]
}

/// The devices that all collectors show together.
pub open spec fn all_gpus(given: GpuCollectors, maximum: usize) -> Seq<GpuView> {
    let first = match given.nvidia {
        Some(result) => extended(Seq::empty(), gpu_views(result.0@), maximum),
        None => Seq::empty(),
    };
    let second = match given.linux {
        Some(result) => extended(first, gpu_views(result.gpus@), maximum),
        None => first,
    };
    match given.windows {
        Some(result) => extended(second, gpu_views(result.0@), maximum),
        None => second,
    }
}

/// The capabilities that all collectors show together.
pub open spec fn all_gpu_capabilities(given: GpuCollectors, platform: Platform, maximum: usize) -> Seq<
    CapabilityView,
> {
    let first = match given.nvidia {
        Some(result) => pushed(Seq::empty(), result.1@, maximum),
        None => pushed(
            Seq::empty(),
            absent(
                "gpu.nvidia"@,
                "nvml"@,
                CapabilityErrorKind::Unsupported,
                "agent was built without the nvidia feature"@,
            ),
            maximum,
        ),
    };
    let second = match given.linux {
        Some(result) => extended(first, capability_views(result.capabilities@), maximum),
        None => first,
    };
    let third = match given.windows {
        Some(result) => pushed(
            pushed(pushed(second, result.1@, maximum), windows_enrichment()[0], maximum),
            windows_enrichment()[1],
            maximum,
        ),
        None => second,
    };
    if platform == Platform::Macos {
        extended(third, macos_capabilities(), maximum)
    } else {
        third
    }
}

fn push_capability(list: &mut Vec<Capability>, capability: Capability, maximum: usize)
    ensures
        capability_views(final(list)@) == pushed(
            capability_views(old(list)@),
            capability@,
            maximum,
        ),
{
    push_bounded(list, capability, maximum);
    assert(capability_views(list@) =~= pushed(
        capability_views(old(list)@),
        capability@,
        maximum,
    ));
}

fn extend_capabilities(list: &mut Vec<Capability>, more: Vec<Capability>, maximum: usize)
    ensures
        capability_views(final(list)@) == extended(
            capability_views(old(list)@),
            capability_views(more@),
            maximum,
        ),
{
    extend_bounded(list, more, maximum);
    assert(capability_views(list@) =~= extended(
        capability_views(old(list)@),
        capability_views(more@),
        maximum,
    ));
}

fn extend_gpus(list: &mut Vec<GpuSnapshot>, more: Vec<GpuSnapshot>, maximum: usize)
    ensures
        gpu_views(final(list)@) == extended(gpu_views(old(list)@), gpu_views(more@), maximum),
{
    extend_bounded(list, more, maximum);
    assert(gpu_views(list@) =~= extended(gpu_views(old(list)@), gpu_views(more@), maximum));
}

fn missing(name: &str, source: &str, message: &str) -> (r: Capability)
    ensures
        r@ == absent(name@, source@, CapabilityErrorKind::Unsupported, message@),
{
    Capability::unavailable(
        name,
        source,
        CapabilityErrorKind::Unsupported,
        text::owned(message),
    )
}

/// The devices and capabilities that all collectors show together: NVIDIA's first, then those of
/// the platform.
pub fn assemble_gpus(given: GpuCollectors, platform: Platform, limits: ReportLimits) -> (r: (
    Vec<GpuSnapshot>,
    Vec<Capability>,
))
    ensures
        gpu_views(r.0@) == all_gpus(given, limits.gpus),
        capability_views(r.1@) == all_gpu_capabilities(given, platform, limits.capabilities),
{
    let GpuCollectors { nvidia, linux, windows } = given;
    let mut gpus: Vec<GpuSnapshot> = Vec::new();
    let mut capabilities: Vec<Capability> = Vec::new();
    assert(gpu_views(gpus@) =~= Seq::empty());
    assert(capability_views(capabilities@) =~= Seq::empty());
    match nvidia {
        Some(result) => {
            extend_gpus(&mut gpus, result.0, limits.gpus);
            push_capability(&mut capabilities, result.1, limits.capabilities);
        },
        None => push_capability(
            &mut capabilities,
            missing("gpu.nvidia", "nvml", "agent was built without the nvidia feature"),
            limits.capabilities,
        ),
    }
    match linux {
        Some(result) => {
            extend_gpus(&mut gpus, result.gpus, limits.gpus);
            extend_capabilities(&mut capabilities, result.capabilities, limits.capabilities);
        },
        None => {},
    }
    match windows {
        Some(result) => {
            extend_gpus(&mut gpus, result.0, limits.gpus);
            push_capability(&mut capabilities, result.1, limits.capabilities);
            push_capability(
                &mut capabilities,
                missing(
                    "gpu.amd.vendor",
                    "amd-adlx",
                    "ADLX enrichment is not present; WDDM utilization remains available",
                ),
                limits.capabilities,
            );
            push_capability(
                &mut capabilities,
                missing(
                    "gpu.intel.vendor",
                    "intel-igcl",
                    "IGCL enrichment is not present; WDDM utilization remains available",
                ),
                limits.capabilities,
            );
        },
        None => {},
    }
    if platform == Platform::Macos {
        let mut more: Vec<Capability> = Vec::new();
        more.push(
            missing(
                "gpu.amd",
                "metal/thermal-state",
                "AMD telemetry is not enabled in the macos baseline build",
            ),
        );
        more.push(
            missing(
                "gpu.intel",
                "metal/thermal-state",
                "Intel telemetry is not enabled in the macos baseline build",
            ),
        );
        more.push(
            missing(
                "gpu.apple",
                "metal/thermal-state",
                "public APIs do not expose stable whole-system Apple GPU utilization",
            ),
        );
        assert(capability_views(more@) =~= macos_capabilities());
        extend_capabilities(&mut capabilities, more, limits.capabilities);
    }
    (gpus, capabilities)
}

// ---------------------------------------------------------------------------
// The identity of a paired host
// ---------------------------------------------------------------------------
/// Why the stored identity cannot be used.
#[derive(Clone, Copy, PartialEq, Eq, Structural, Debug)]
pub enum HostIdFault {
    NotUuid,
    NotCanonical,
}

impl HostIdFault {
    /// The words in which the fault is reported.
    pub open spec fn text(self) -> Seq<char> {
        match self {
            HostIdFault::NotUuid => "paired host identity is not a UUID"@,
            HostIdFault::NotCanonical =>
                "paired host identity must use canonical lowercase hyphenated UUID text"@,
        }
    }

    /// The words in which the fault is reported.
    pub fn message(&self) -> (r: String)
        ensures
            r@ == self.text(),
    {
        match self {
            HostIdFault::NotUuid => text::owned("paired host identity is not a UUID"),
            HostIdFault::NotCanonical => text::owned(
                "paired host identity must use canonical lowercase hyphenated UUID text",
            ),
        }
    }
}

/// The identity that a judged text gives.
pub open spec fn host_id_of(read: Result<u128, IdentifierFault>) -> Result<u128, HostIdFault> {
    match read {
        Ok(id) => Ok(id),
        Err(IdentifierFault::NotUuid) => Err(HostIdFault::NotUuid),
        Err(IdentifierFault::NotCanonical) => Err(HostIdFault::NotCanonical),
    }
}

/// The identity that the stored text gives, for what its trimmed text was read as.
pub fn judge_host_id(read: Option<u128>, stored: &str) -> (r: Result<u128, HostIdFault>)
    ensures
        r == host_id_of(canonical(read, text::trimmed(stored@))),
{
    match canonical_of(read, text::trim(stored).as_str()) {
        Ok(id) => Ok(id),
        Err(IdentifierFault::NotUuid) => Err(HostIdFault::NotUuid),
        Err(IdentifierFault::NotCanonical) => Err(HostIdFault::NotCanonical),
    }
}

/// The identity of a paired host, from the text that is stored.
pub fn load_host_identity(stored: &str) -> (r: Result<u128, HostIdFault>)
    ensures
        r == host_id_of(
            canonical(uuid_read(text::trimmed(stored@)), text::trimmed(stored@)),
        ),
{
    match canonical_uuid(text::trim(stored).as_str()) {
        Ok(id) => Ok(id),
        Err(IdentifierFault::NotUuid) => Err(HostIdFault::NotUuid),
        Err(IdentifierFault::NotCanonical) => Err(HostIdFault::NotCanonical),
    }
}

// ---------------------------------------------------------------------------
// The sampler
// ---------------------------------------------------------------------------
/// What is kept from one sample of a host to the next. Times are in nanoseconds on the clock of
/// the process.
#[derive(Debug)]
pub struct SystemSampler {
    pub last_sample: u64,
    pub last_slow_sample: Option<u64>,
    pub cached_temperatures: Vec<TemperatureSnapshot>,
    pub cached_temperature_capability: Capability,
}

/// How a sample begins.
#[derive(Clone, Copy, PartialEq, Eq, Structural, Debug)]
pub struct SampleStart {
    /// The interval that the report tells, in nanoseconds.
    pub interval: u64,
    /// The temperatures are read anew.
    pub refresh_slow: bool,
}

/// What a report takes from a sample besides the counters.
#[derive(Debug)]
pub struct SampleParts {
    pub temperatures: Vec<TemperatureSnapshot>,
    pub gpus: Vec<GpuSnapshot>,
    pub capabilities: Vec<Capability>,
    pub collector_errors: u64,
}

/// The time from `earlier` to `later`; none where the clock went back.
pub open spec fn passed(later: u64, earlier: u64) -> int {
    if later >= earlier {
        later - earlier
    } else {
        0
    }
}

/// The temperatures are due: none were read yet, or their interval has passed in whole seconds.
pub open spec fn slow_due(last: Option<u64>, now: u64, slow_interval_seconds: u64) -> bool {
    match last {
        None => true,
        Some(last) => passed(now, last) / (SECOND as int) >= slow_interval_seconds,
    }
}

impl SystemSampler {
    /// What the sampler keeps is within a report's limits.
    pub open spec fn valid(&self, limits: ReportLimits) -> bool {
        self.cached_temperatures@.len() <= limit_of(limits.temperatures)
    }

    /// A sampler that has read nothing yet.
    pub fn new(now: u64) -> (r: SystemSampler)
        ensures
            r.last_sample == now,
            r.last_slow_sample is None,
            r.cached_temperatures@.len() == 0,
            r.cached_temperature_capability@ == temperature_state(false),
            forall|limits: ReportLimits| #[trigger] r.valid(limits),
    {
        let none: Vec<TemperatureSnapshot> = Vec::new();
        let capability = temperature_capability(&none);
        SystemSampler {
            last_sample: now,
            last_slow_sample: None,
            cached_temperatures: none,
            cached_temperature_capability: capability,
        }
    }

    /// Begin a sample: the next interval counts from here.
    pub fn begin(&mut self, now: u64, slow_interval_seconds: u64) -> (r: SampleStart)
        ensures
            *final(self) == (SystemSampler { last_sample: now, ..*old(self) }),
            r.interval == if passed(now, old(self).last_sample) < shortest() {
                shortest()
            } else if passed(now, old(self).last_sample) > longest() {
                longest()
            } else {
                passed(now, old(self).last_sample)
            },
            r.refresh_slow == slow_due(old(self).last_slow_sample, now, slow_interval_seconds),
    {
        let interval: u64 = contract_interval(now.saturating_sub(self.last_sample) as u128);
        let since_slow: Option<u128> = match self.last_slow_sample {
            None => None,
            Some(last) => Some(now.saturating_sub(last) as u128),
        };
        self.last_sample = now;
        SampleStart { interval, refresh_slow: slow_readings_due(since_slow, slow_interval_seconds) }
    }

    /// Keep temperatures that were read anew.
    pub fn keep_temperatures(
        &mut self,
        temperatures: Vec<TemperatureSnapshot>,
        capability: Capability,
        now: u64,
        limits: ReportLimits,
    )
        ensures
            final(self).cached_temperatures@ == bounded(temperatures@, limits.temperatures),
            final(self).cached_temperature_capability == capability,
            final(self).last_slow_sample == Some(now),
            final(self).last_sample == old(self).last_sample,
            final(self).valid(limits),
    {
        let mut kept = temperatures;
        kept.truncate(producer_collection_limit(limits.temperatures));
        self.cached_temperatures = kept;
        self.cached_temperature_capability = capability;
        self.last_slow_sample = Some(now);
    }

    fn copy_temperatures(&self) -> (r: Vec<TemperatureSnapshot>)
        ensures
            r@ == self.cached_temperatures@,
    {
        let mut out: Vec<TemperatureSnapshot> = Vec::new();
        let mut i: usize = 0;
        while i < self.cached_temperatures.len()
            invariant
                i <= self.cached_temperatures@.len(),
                out@ == self.cached_temperatures@.take(i as int),
            decreases self.cached_temperatures@.len() - i,
        {
            out.push(self.cached_temperatures[i].copy());
            i += 1;
            assert(out@ =~= self.cached_temperatures@.take(i as int));
        }
        assert(self.cached_temperatures@.take(i as int) =~= self.cached_temperatures@);
        out
    }

    /// What a report takes from a sample: the temperatures as they were read last, the devices
    /// that the collectors show, and what is known of the readings.
    pub fn collect(
        &self,
        given: GpuCollectors,
        platform: Platform,
        limits: ReportLimits,
    ) -> (r: SampleParts)
        requires
            self.valid(limits),
        ensures
            r.temperatures@ == self.cached_temperatures@,
            r.temperatures@.len() <= limit_of(limits.temperatures),
            gpu_views(r.gpus@) == all_gpus(given, limits.gpus),
            exists|known: Seq<Capability>, devices: Seq<Capability>|
                capability_views(known) == always_measured(self.cached_temperature_capability@)
                    && capability_views(devices) == all_gpu_capabilities(
                    given,
                    platform,
                    limits.capabilities,
                ) && r.capabilities@ == without_repeats(
                    #[trigger] sorted(extended(known, devices, limits.capabilities)),
                ),
            r.collector_errors == error_count(r.capabilities@),
    {
        let (gpus, gpu_capabilities) = assemble_gpus(given, platform, limits);
        let (capabilities, collector_errors) = report_capabilities(
            &self.cached_temperature_capability,
            gpu_capabilities,
            limits.capabilities,
        );
        SampleParts {
            temperatures: self.copy_temperatures(),
            gpus,
            capabilities,
            collector_errors,
        }
    }
}

/// The temperatures stay as they were read until their interval has passed, and not longer.
pub proof fn slow_readings_last_their_interval(last: u64, now: u64, slow_interval_seconds: u64)
    ensures
        slow_due(Some(last), now, slow_interval_seconds) <==> passed(now, last)
            >= slow_interval_seconds * SECOND,
        slow_due(None, now, slow_interval_seconds),
{
    let elapsed = passed(now, last);
    let whole = elapsed / (SECOND as int);
    assert(whole >= slow_interval_seconds <==> elapsed >= slow_interval_seconds * SECOND)
        by (nonlinear_arith)
        requires
            whole == elapsed / (SECOND as int),
            SECOND == 1_000_000_000,
    ;
}

/// A report shows the devices of all collectors, each kind behind the one before it, and loses none
/// that it has room for.
pub proof fn the_devices_of_all_collectors_are_shown(given: GpuCollectors, maximum: usize)
    requires
        maximum < usize::MAX,
    ensures
        ({
            let nvidia = match given.nvidia {
                Some(result) => gpu_views(result.0@),
                None => Seq::empty(),
            };
            let linux = match given.linux {
                Some(result) => gpu_views(result.gpus@),
                None => Seq::empty(),
            };
            let windows = match given.windows {
                Some(result) => gpu_views(result.0@),
                None => Seq::empty(),
            };
            let all = nvidia + linux + windows;
            all_gpus(given, maximum) == if all.len() <= maximum + 1 {
                all
            } else {
                all.take(maximum + 1)
            }
        }),
{
    let nvidia = match given.nvidia {
        Some(result) => gpu_views(result.0@),
        None => Seq::empty(),
    };
    let linux = match given.linux {
        Some(result) => gpu_views(result.gpus@),
        None => Seq::empty(),
    };
    let windows = match given.windows {
        Some(result) => gpu_views(result.0@),
        None => Seq::empty(),
    };
    let all = nvidia + linux + windows;
    let cut = if all.len() <= maximum + 1 {
        all
    } else {
        all.take(maximum + 1)
    };
    assert(all_gpus(given, maximum) =~= cut);
}

/// Where there is room for all of them, a report tells of every collector: of NVIDIA also where it is
/// not built in, of what the kernel shows on Linux, and of the counters and what they lack on
/// Windows; and of what macOS lacks on macOS alone.
pub proof fn the_capabilities_of_all_collectors_are_told(
    given: GpuCollectors,
    platform: Platform,
    maximum: usize,
)
    requires
        maximum < usize::MAX,
        given.linux matches Some(result) ==> result.capabilities@.len() + 7 <= maximum,
        given.linux is None ==> 7 <= maximum,
    ensures
        ({
            let nvidia = match given.nvidia {
                Some(result) => seq![result.1@],
                None => seq![
                    absent(
                        "gpu.nvidia"@,
                        "nvml"@,
                        CapabilityErrorKind::Unsupported,
                        "agent was built without the nvidia feature"@,
                    ),
                ],
            };
            let linux = match given.linux {
                Some(result) => capability_views(result.capabilities@),
                None => Seq::empty(),
            };
            let windows = match given.windows {
                Some(result) => seq![result.1@] + windows_enrichment(),
                None => Seq::empty(),
            };
            let macos = if platform == Platform::Macos {
                macos_capabilities()
            } else {
                Seq::empty()
            };
            all_gpu_capabilities(given, platform, maximum) == nvidia + linux + windows + macos
        }),
{
    let nvidia = match given.nvidia {
        Some(result) => seq![result.1@],
        None => seq![
            absent(
                "gpu.nvidia"@,
                "nvml"@,
                CapabilityErrorKind::Unsupported,
                "agent was built without the nvidia feature"@,
            ),
        ],
    };
    let linux = match given.linux {
        Some(result) => capability_views(result.capabilities@),
        None => Seq::empty(),
    };
    let windows = match given.windows {
        Some(result) => seq![result.1@] + windows_enrichment(),
        None => Seq::empty(),
    };
    let macos = if platform == Platform::Macos {
        macos_capabilities()
    } else {
        Seq::empty()
    };
    assert(all_gpu_capabilities(given, platform, maximum) =~= nvidia + linux + windows + macos);
}

/// The readings that every report carries are available, and that of the temperatures is told as it
/// was found.
pub proof fn what_every_report_measures(temperature: CapabilityView)
    ensures
        ({
            let told = always_measured(temperature);
            &&& told.len() == 5
            &&& told[0].name == "system.cpu"@ && told[0].available
            &&& told[1].name == "system.memory"@ && told[1].available
            &&& told[2].name == "system.network"@ && told[2].available
            &&& told[3].name == "system.disk"@ && told[3].available
            &&& told[4] == temperature
        }),
{
}

/// Temperatures are available exactly where some sensor was measured.
pub proof fn when_temperatures_are_available(measured: bool)
    ensures
        temperature_state(measured).available == measured,
        !measured ==> temperature_state(measured).error_kind == Some(
            CapabilityErrorKind::Unsupported,
        ),
{
}

/// Of the readings of one sensor, known by its source and its id, the first is told, and no two are.
pub proof fn one_reading_per_sensor(s: Seq<TemperatureSnapshot>, i: int)
    requires
        0 <= i < s.len(),
    ensures
        has_sensor(one_per_sensor(s), s[i]),
        (forall|j: int| 0 <= j < i ==> !same_sensor(#[trigger] s[j], s[i])) ==> one_per_sensor(
            s,
        ).contains(s[i]),
        forall|a: int, b: int|
            0 <= a < b < one_per_sensor(s).len() ==> !same_sensor(
                #[trigger] one_per_sensor(s)[a],
                #[trigger] one_per_sensor(s)[b],
            ),
    decreases s.len(),
{
    let before = s.drop_last();
    let kept = one_per_sensor(before);
    let all = one_per_sensor(s);
    lemma_one_each(s);
    if i < s.len() - 1 {
        assert(before[i] == s[i]);
        one_reading_per_sensor(before, i);
        let k = choose|k: int| 0 <= k < kept.len() && same_sensor(#[trigger] kept[k], s[i]);
        assert(all[k] == kept[k]);
        if forall|j: int| 0 <= j < i ==> !same_sensor(#[trigger] s[j], s[i]) {
            assert forall|j: int| 0 <= j < i implies !same_sensor(#[trigger] before[j], s[i]) by {
                assert(before[j] == s[j]);
            }
            let m = choose|m: int| 0 <= m < kept.len() && kept[m] == s[i];
            assert(all[m] == s[i]);
        }
    } else {
        if !has_sensor(kept, s[i]) {
            assert(all.last() == s[i]);
            assert(same_sensor(all[all.len() - 1], s[i]));
        } else {
            lemma_kept_were_there(before);
            let k = choose|k: int| 0 <= k < kept.len() && same_sensor(#[trigger] kept[k], s[i]);
            let j = choose|j: int| 0 <= j < before.len() && before[j] == kept[k];
            assert(s[j] == before[j]);
            assert(same_sensor(s[j], s[i]));
            assert(same_sensor(all[k], s[i]));
        }
    }
}

proof fn lemma_one_each(s: Seq<TemperatureSnapshot>)
    ensures
        forall|a: int, b: int|
            0 <= a < b < one_per_sensor(s).len() ==> !same_sensor(
                #[trigger] one_per_sensor(s)[a],
                #[trigger] one_per_sensor(s)[b],
            ),
    decreases s.len(),
{
    if s.len() > 0 {
        let kept = one_per_sensor(s.drop_last());
        let all = one_per_sensor(s);
        lemma_one_each(s.drop_last());
        assert forall|a: int, b: int| 0 <= a < b < all.len() implies !same_sensor(
            #[trigger] all[a],
            #[trigger] all[b],
        ) by {
            assert(all[a] == kept[a]);
            if b < kept.len() {
                assert(all[b] == kept[b]);
            }
        }
    }
}

proof fn lemma_kept_were_there(s: Seq<TemperatureSnapshot>)
    ensures
        forall|k: int| 0 <= k < one_per_sensor(s).len() ==> s.contains(
            #[trigger] one_per_sensor(s)[k],
        ),
    decreases s.len(),
{
    if s.len() > 0 {
        let before = s.drop_last();
        let kept = one_per_sensor(before);
        let all = one_per_sensor(s);
        lemma_kept_were_there(before);
        assert forall|k: int| 0 <= k < all.len() implies s.contains(#[trigger] all[k]) by {
            if k < kept.len() {
                assert(all[k] == kept[k]);
                let j = choose|j: int| 0 <= j < before.len() && before[j] == kept[k];
                assert(s[j] == all[k]);
            } else {
                assert(s[s.len() - 1] == all[k]);
            }
        }
    }
}

/// Which capabilities count as failures of a collector: those that are missing for a fault that may
/// pass, or for data that make no sense.
pub proof fn what_counts_as_a_failure(capability: CapabilityView)
    ensures
        is_collector_error(capability) <==> !capability.available && (capability.error_kind == Some(
            CapabilityErrorKind::Transient,
        ) || capability.error_kind == Some(CapabilityErrorKind::InvalidData)),
        capability.available ==> !is_collector_error(capability),
{
}

/// A stored identity is taken exactly where it is canonical.
pub proof fn which_stored_identities_are_taken(read: Result<u128, IdentifierFault>)
    ensures
        read matches Ok(id) ==> host_id_of(read) == Ok::<u128, HostIdFault>(id),
        read is Err ==> host_id_of(read) is Err,
        shortest() == 100_000_000,
        longest() == 3_600_000_000_000,
{
}

/// The interval that a report tells is the time that has passed, held between a tenth of
/// a second and an hour, which is what the server takes.
pub proof fn which_intervals_are_told(elapsed: u128, r: u64)
    requires
        call_ensures(contract_interval, (elapsed,), r),
    ensures
        100_000_000 <= elapsed <= 3_600_000_000_000 ==> r == elapsed,
        elapsed < 100_000_000 ==> r == 100_000_000,
        elapsed > 3_600_000_000_000 ==> r == 3_600_000_000_000,
{
}

/// Slow readings are due at the first sample and whenever their interval has passed.
pub proof fn when_slow_readings_are_due(since_last: Option<u128>, seconds: u64, r: bool)
    requires
        call_ensures(slow_readings_due, (since_last, seconds), r),
    ensures
        since_last is None ==> r,
        since_last matches Some(elapsed) ==> (r <==> elapsed >= seconds * 1_000_000_000),
{
    if let Some(elapsed) = since_last {
        let whole = elapsed as int / 1_000_000_000;
        assert(1_000_000_000 * whole <= elapsed < 1_000_000_000 * whole + 1_000_000_000);
    }
}

/// A sample begins by taking the time since the last one, and counts from then on.
pub proof fn how_a_sample_begins()
    ensures
        forall|sampler: &mut SystemSampler, now: u64, slow: u64, r: SampleStart| #[trigger]
            call_ensures(SystemSampler::begin, (sampler, now, slow), r) ==> {
                let since = now - (*sampler).last_sample;
                &&& (*final(sampler)).last_sample == now
                &&& 100_000_000 <= since <= 3_600_000_000_000 ==> r.interval == since
                &&& since > 3_600_000_000_000 ==> r.interval == 3_600_000_000_000
                &&& since < 100_000_000 ==> r.interval == 100_000_000
                &&& (*sampler).last_slow_sample is None ==> r.refresh_slow
            },
{
}

} // verus!
