//! What a report is made of.

use crate::collectors::order::Keyed;
use crate::text;
use vstd::prelude::*;

verus! {

/// Why a capability is not available.
#[derive(Clone, Copy, PartialEq, Eq, Structural, Debug)]
pub enum CapabilityErrorKind {
    NotPresent,
    Unsupported,
    PermissionDenied,
    DriverMissing,
    Transient,
    InvalidData,
}

/// What the agent can measure, or why it cannot.
#[derive(Debug)]
pub struct Capability {
    pub name: String,
    pub source: String,
    pub available: bool,
    pub error_kind: Option<CapabilityErrorKind>,
    pub message: Option<String>,
}

/// A capability by its contents.
pub struct CapabilityView {
    pub name: Seq<char>,
    pub source: Seq<char>,
    pub available: bool,
    pub error_kind: Option<CapabilityErrorKind>,
    pub message: Option<Seq<char>>,
}

/// A capability that is there.
pub open spec fn present(name: Seq<char>, source: Seq<char>) -> CapabilityView {
    CapabilityView { name, source, available: true, error_kind: None, message: None }
}

/// A capability that is not, and why.
pub open spec fn absent(
    name: Seq<char>,
    source: Seq<char>,
    kind: CapabilityErrorKind,
    message: Seq<char>,
) -> CapabilityView {
    CapabilityView {
        name,
        source,
        available: false,
        error_kind: Some(kind),
        message: Some(message),
    }
}

impl View for Capability {
    type V = CapabilityView;

    open spec fn view(&self) -> CapabilityView {
        CapabilityView {
            name: self.name@,
            source: self.source@,
            available: self.available,
            error_kind: self.error_kind,
            message: text::opt_view(self.message),
        }
    }
}

impl Keyed for Capability {
    open spec fn key(&self) -> Seq<char> {
        self.name@
    }

    fn key_text(&self) -> (r: &str) {
        self.name.as_str()
    }
}

impl Capability {
    /// A capability that is there.
    pub fn available(name: &str, source: &str) -> (r: Capability)
        ensures
            r@ == present(name@, source@),
    {
        Capability {
            name: text::owned(name),
            source: text::owned(source),
            available: true,
            error_kind: None,
            message: None,
        }
    }

    /// A capability that is not, and why.
    pub fn unavailable(
        name: &str,
        source: &str,
        kind: CapabilityErrorKind,
        message: String,
    ) -> (r: Capability)
        ensures
            r@ == absent(name@, source@, kind, message@),
    {
        Capability {
            name: text::owned(name),
            source: text::owned(source),
            available: false,
            error_kind: Some(kind),
            message: Some(message),
        }
    }

    /// The same capability again.
    pub fn copy(&self) -> (r: Capability)
        ensures
            r == *self,
    {
        Capability {
            name: self.name.clone(),
            source: self.source.clone(),
            available: self.available,
            error_kind: self.error_kind,
            message: match &self.message {
                Some(message) => Some(message.clone()),
                None => None,
            },
        }
    }
}

/// The kinds of system errors that are told apart.
#[derive(Clone, Copy, PartialEq, Eq, Structural, Debug)]
pub enum IoKind {
    NotFound,
    PermissionDenied,
    InvalidData,
    Other,
}

/// A system error: its kind, and what it says of itself.
#[derive(Debug)]
pub struct IoFault {
    pub kind: IoKind,
    pub text: String,
}

/// Why a collector could not read what it wanted.
#[derive(Debug)]
pub struct CollectorError {
    pub kind: CapabilityErrorKind,
    pub message: String,
}

/// An error by its contents.
pub struct ErrorView {
    pub kind: CapabilityErrorKind,
    pub message: Seq<char>,
}

impl View for CollectorError {
    type V = ErrorView;

    open spec fn view(&self) -> ErrorView {
        ErrorView { kind: self.kind, message: self.message@ }
    }
}

/// The contents of errors.
pub open spec fn error_views(errors: Seq<CollectorError>) -> Seq<ErrorView> {
    errors.map_values(|error: CollectorError| error@)
}

/// An error about data that makes no sense.
pub open spec fn invalid_data(message: Seq<char>) -> ErrorView {
    ErrorView { kind: CapabilityErrorKind::InvalidData, message }
}

impl CollectorError {
    /// An error about data that makes no sense.
    pub fn invalid(message: String) -> (r: CollectorError)
        ensures
            r@ == invalid_data(message@),
    {
        CollectorError { kind: CapabilityErrorKind::InvalidData, message }
    }

    /// The same error again.
    pub fn copy(&self) -> (r: CollectorError)
        ensures
            r == *self,
    {
        CollectorError { kind: self.kind, message: self.message.clone() }
    }
}

/// The first of two errors.
pub open spec fn first_of(
    known: Option<CollectorError>,
    next: Option<CollectorError>,
) -> Option<CollectorError> {
    if known is Some {
        known
    } else {
        next
    }
}

/// Remember an error unless another came before it.
pub fn record_first_error(first_error: &mut Option<CollectorError>, error: CollectorError)
    ensures
        *final(first_error) == first_of(*old(first_error), Some(error)),
{
    if first_error.is_none() {
        *first_error = Some(error);
    }
}

/// `name` below the directory `base`.
pub open spec fn under(base: Seq<char>, name: Seq<char>) -> Seq<char> {
    if base.len() > 0 && base.last() == '/' {
        base + name
    } else {
        base + "/"@ + name
    }
}

/// `name` below the directory `base`.
pub fn path_under(base: &str, name: &str) -> (r: String)
    ensures
        r@ == under(base@, name@),
{
    let chars = text::to_chars(base);
    if chars.len() > 0 && chars[chars.len() - 1] == '/' {
        text::cat(base, name)
    } else {
        text::cat3(base, "/", name)
    }
}

/// The path is the directory or stands below it; both are resolved.
pub open spec fn is_within(path: Seq<char>, directory: Seq<char>) -> bool {
    path == directory || text::begins(path, under(directory, Seq::empty()))
}

/// Whether the path is the directory or stands below it; both are resolved.
pub fn within(path: &str, directory: &str) -> (r: bool)
    ensures
        r == is_within(path@, directory@),
{
    proof {
        reveal_strlit("");
        assert(""@ =~= Seq::<char>::empty());
    }
    text::same(path, directory) || text::starts_with(path, path_under(directory, "").as_str())
}

/// The temperature of one sensor.
#[derive(Debug)]
pub struct TemperatureSnapshot {
    pub id: String,
    pub label: String,
    pub celsius: Option<u64>,
    pub max_celsius: Option<u64>,
    pub critical_celsius: Option<u64>,
    pub source: String,
}

/// A temperature by its contents.
pub struct TemperatureView {
    pub id: Seq<char>,
    pub label: Seq<char>,
    pub celsius: Option<u64>,
    pub max_celsius: Option<u64>,
    pub critical_celsius: Option<u64>,
    pub source: Seq<char>,
}

impl View for TemperatureSnapshot {
    type V = TemperatureView;

    open spec fn view(&self) -> TemperatureView {
        TemperatureView {
            id: self.id@,
            label: self.label@,
            celsius: self.celsius,
            max_celsius: self.max_celsius,
            critical_celsius: self.critical_celsius,
            source: self.source@,
        }
    }
}

impl TemperatureSnapshot {
    /// The same reading again.
    pub fn copy(&self) -> (r: TemperatureSnapshot)
        ensures
            r == *self,
    {
        TemperatureSnapshot {
            id: self.id.clone(),
            label: self.label.clone(),
            celsius: self.celsius,
            max_celsius: self.max_celsius,
            critical_celsius: self.critical_celsius,
            source: self.source.clone(),
        }
    }
}

/// The contents of temperatures.
pub open spec fn temperature_views(temperatures: Seq<TemperatureSnapshot>) -> Seq<TemperatureView> {
    temperatures.map_values(|temperature: TemperatureSnapshot| temperature@)
}

impl Keyed for TemperatureSnapshot {
    open spec fn key(&self) -> Seq<char> {
        self.id@
    }

    fn key_text(&self) -> (r: &str) {
        self.id.as_str()
    }
}

/// One graphics device.
#[derive(Debug)]
pub struct GpuSnapshot {
    pub id: String,
    pub vendor: String,
    pub name: String,
    pub utilization_percent: Option<u64>,
    pub memory_total_bytes: Option<u64>,
    pub memory_used_bytes: Option<u64>,
    pub temperature_celsius: Option<u64>,
    pub power_watts: Option<u64>,
    pub core_clock_mhz: Option<u64>,
    pub memory_clock_mhz: Option<u64>,
    pub pcie_rx_bytes_per_second: Option<u64>,
    pub pcie_tx_bytes_per_second: Option<u64>,
    pub source: String,
}

/// A graphics device by its contents.
pub struct GpuView {
    pub id: Seq<char>,
    pub vendor: Seq<char>,
    pub name: Seq<char>,
    pub utilization_percent: Option<u64>,
    pub memory_total_bytes: Option<u64>,
    pub memory_used_bytes: Option<u64>,
    pub temperature_celsius: Option<u64>,
    pub power_watts: Option<u64>,
    pub core_clock_mhz: Option<u64>,
    pub memory_clock_mhz: Option<u64>,
    pub pcie_rx_bytes_per_second: Option<u64>,
    pub pcie_tx_bytes_per_second: Option<u64>,
    pub source: Seq<char>,
}

impl View for GpuSnapshot {
    type V = GpuView;

    open spec fn view(&self) -> GpuView {
        GpuView {
            id: self.id@,
            vendor: self.vendor@,
            name: self.name@,
            utilization_percent: self.utilization_percent,
            memory_total_bytes: self.memory_total_bytes,
            memory_used_bytes: self.memory_used_bytes,
            temperature_celsius: self.temperature_celsius,
            power_watts: self.power_watts,
            core_clock_mhz: self.core_clock_mhz,
            memory_clock_mhz: self.memory_clock_mhz,
            pcie_rx_bytes_per_second: self.pcie_rx_bytes_per_second,
            pcie_tx_bytes_per_second: self.pcie_tx_bytes_per_second,
            source: self.source@,
        }
    }
}

/// The contents of graphics devices.
pub open spec fn gpu_views(gpus: Seq<GpuSnapshot>) -> Seq<GpuView> {
    gpus.map_values(|gpu: GpuSnapshot| gpu@)
}

/// The contents of capabilities.
pub open spec fn capability_views(capabilities: Seq<Capability>) -> Seq<CapabilityView> {
    capabilities.map_values(|capability: Capability| capability@)
}

/// The first error is kept: a later one does not take its place.
pub proof fn the_first_error_is_kept(known: CollectorError, next: Option<CollectorError>)
    ensures
        first_of(Some(known), next) == Some(known),
        first_of(None, next) == next,
{
}

/// A name is put under a directory with one slash between them.
pub proof fn one_slash_stands_between(base: Seq<char>, name: Seq<char>)
    ensures
        under(base + "/"@, name) == base + "/"@ + name,
        base.len() > 0 && base.last() != '/' ==> under(base, name) == under(base + "/"@, name),
{
    reveal_strlit("/");
    assert((base + "/"@).last() == '/');
}

} // verus!
