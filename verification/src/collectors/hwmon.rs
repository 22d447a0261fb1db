//! Temperatures as the Linux kernel shows them below its hwmon class.

use crate::collectors::model::{
    absent, error_views, invalid_data, is_within, path_under, present, temperature_views, under,
    within, Capability, CapabilityErrorKind, CapabilityView, CollectorError, ErrorView, IoFault,
    IoKind, TemperatureSnapshot, TemperatureView,
};
use crate::collectors::order::{
    distinct, has_key, in_order, keep_first, nothing_is_added, sort, sorted,
    sorting_loses_nothing, sorting_orders_and_keeps, the_first_of_each_is_left,
    what_is_left_stays_in_order, Keyed,
};
use crate::text;
use vstd::prelude::*;

verus! {

/// Where the kernel shows its sensors.
pub fn hwmon_root() -> (r: &'static str)
    ensures
        r@ == "/sys/class/hwmon"@,
{
    "/sys/class/hwmon"
}

/// The kind of a capability error that a system error makes.
pub open spec fn classified(kind: IoKind) -> CapabilityErrorKind {
    match kind {
        IoKind::PermissionDenied => CapabilityErrorKind::PermissionDenied,
        IoKind::InvalidData => CapabilityErrorKind::InvalidData,
        _ => CapabilityErrorKind::Transient,
    }
}

/// The kind of a capability error that a system error makes.
pub fn classify_io_error(kind: IoKind) -> (r: CapabilityErrorKind)
    ensures
        r == classified(kind),
{
    match kind {
        IoKind::PermissionDenied => CapabilityErrorKind::PermissionDenied,
        IoKind::InvalidData => CapabilityErrorKind::InvalidData,
        _ => CapabilityErrorKind::Transient,
    }
}

/// The error that a system error makes.
pub open spec fn failed_to(action: Seq<char>, path: Seq<char>, fault: IoFault) -> ErrorView {
    ErrorView {
        kind: classified(fault.kind),
        message: action + " "@ + path + ": "@ + fault.text@,
    }
}

fn io_error(action: &str, path: &str, fault: &IoFault) -> (r: CollectorError)
    ensures
        r@ == failed_to(action@, path@, *fault),
{
    CollectorError {
        kind: classify_io_error(fault.kind),
        message: text::cat5(action, " ", path, ": ", fault.text.as_str()),
    }
}

fn invalid(before: &str, path: &str, after: &str) -> (r: CollectorError)
    ensures
        r@ == invalid_data(before@ + path@ + after@),
{
    CollectorError::invalid(text::cat3(before, path, after))
}

// ---------------------------------------------------------------------------
// Names
// ---------------------------------------------------------------------------
/// The name is that of a sensor device.
pub open spec fn names_hwmon(name: Seq<char>) -> bool {
    text::begins(name, "hwmon"@) && text::all_digits(name.skip(5)) && name.len() > 5
}

/// Whether the name is that of a sensor device.
pub fn is_hwmon_name(name: &str) -> (r: bool)
    ensures
        r == names_hwmon(name@),
{
    proof {
        reveal_strlit("hwmon");
    }
    match text::strip_prefix(name, "hwmon") {
        Some(index) => {
            assert(index@ =~= name@.skip(5));
            text::only_digits(&text::to_chars(index.as_str()))
        },
        None => false,
    }
}

/// The index that stands in the name of a temperature input.
pub open spec fn input_index(name: Seq<char>) -> Option<Seq<char>> {
    let rest = name.skip(4);
    let index = rest.take(rest.len() - 6);
    if text::begins(name, "temp"@) && text::ends(rest, "_input"@) && index.len() > 0
        && text::all_digits(index) {
        Some(index)
    } else {
        None
    }
}

/// The index that stands in the name of a temperature input.
pub fn temperature_input_index(name: &str) -> (r: Option<String>)
    ensures
        text::opt_view(r) == input_index(name@),
{
    proof {
        reveal_strlit("temp");
        reveal_strlit("_input");
    }
    let rest = match text::strip_prefix(name, "temp") {
        Some(rest) => rest,
        None => {
            return None;
        },
    };
    assert(rest@ =~= name@.skip(4));
    let index = match text::strip_suffix(rest.as_str(), "_input") {
        Some(index) => index,
        None => {
            return None;
        },
    };
    assert(index@ =~= rest@.take(rest@.len() - 6));
    if text::only_digits(&text::to_chars(index.as_str())) {
        Some(index)
    } else {
        None
    }
}

/// A resolved path may be read: below the kernel's own devices, or below another root itself.
pub open spec fn is_allowed(root: Seq<char>, root_canonical: Seq<char>, target: Seq<char>) -> bool {
    if root == "/sys/class/hwmon"@ {
        is_within(target, "/sys/devices"@)
    } else {
        is_within(target, root_canonical)
    }
}

/// Whether a resolved path may be read.
pub fn allowed_target(root: &str, root_canonical: &str, target: &str) -> (r: bool)
    ensures
        r == is_allowed(root@, root_canonical@, target@),
{
    if text::same(root, hwmon_root()) {
        within(target, "/sys/devices")
    } else {
        within(target, root_canonical)
    }
}

// ---------------------------------------------------------------------------
// Attributes
// ---------------------------------------------------------------------------
/// What reading an attribute as a text gave.
#[derive(Debug)]
pub enum AttributeLook {
    /// It could not be inspected; it is missing where the fault says so.
    NotInspected(IoFault),
    /// It is no regular file.
    NotRegular,
    Unreadable(IoFault),
    Text(String),
}

/// What reading an attribute as a number gave.
#[derive(Debug)]
pub enum NumberLook {
    NotInspected(IoFault),
    NotRegular,
    Unreadable(IoFault),
    /// It is no number, with what the parser says.
    NotNumeric(String),
    NotFinite,
    Value(u64),
}

/// The text of an attribute that may be missing, trimmed.
pub open spec fn trimmed_attribute(path: Seq<char>, look: AttributeLook) -> Result<
    Option<Seq<char>>,
    ErrorView,
> {
    match look {
        AttributeLook::NotInspected(fault) => if fault.kind == IoKind::NotFound {
            Ok(None)
        } else {
            Err(failed_to("failed to inspect hwmon attribute"@, path, fault))
        },
        AttributeLook::NotRegular => Err(
            invalid_data("hwmon attribute "@ + path + " is not a regular file"@),
        ),
        AttributeLook::Unreadable(fault) => Err(
            failed_to("failed to read hwmon attribute"@, path, fault),
        ),
        AttributeLook::Text(value) => if text::trimmed(value@).len() == 0 {
            Err(invalid_data("hwmon attribute "@ + path + " is empty"@))
        } else {
            Ok(Some(text::trimmed(value@)))
        },
    }
}

fn read_optional_trimmed(path: &str, look: &AttributeLook) -> (r: Result<
    Option<String>,
    CollectorError,
>)
    ensures
        match (r, trimmed_attribute(path@, *look)) {
            (Ok(given), Ok(expected)) => text::opt_view(given) == expected,
            (Err(given), Err(expected)) => given@ == expected,
            _ => false,
        },
{
    match look {
        AttributeLook::NotInspected(fault) => {
            if fault.kind == IoKind::NotFound {
                return Ok(None);
            }
            Err(io_error("failed to inspect hwmon attribute", path, fault))
        },
        AttributeLook::NotRegular => Err(invalid("hwmon attribute ", path, " is not a regular file")),
        AttributeLook::Unreadable(fault) => Err(
            io_error("failed to read hwmon attribute", path, fault),
        ),
        AttributeLook::Text(value) => {
            let trimmed = text::trim(value.as_str());
            if text::to_chars(trimmed.as_str()).len() == 0 {
                return Err(invalid("hwmon attribute ", path, " is empty"));
            }
            Ok(Some(trimmed))
        },
    }
}

/// The number of an attribute that must be there.
pub open spec fn required_number(path: Seq<char>, look: NumberLook) -> Result<u64, ErrorView> {
    match look {
        NumberLook::NotInspected(fault) => Err(
            failed_to("failed to inspect hwmon attribute"@, path, fault),
        ),
        NumberLook::NotRegular => Err(
            invalid_data("hwmon attribute "@ + path + " is not a regular file"@),
        ),
        NumberLook::Unreadable(fault) => Err(
            failed_to("failed to read hwmon attribute"@, path, fault),
        ),
        NumberLook::NotNumeric(error) => Err(
            invalid_data("hwmon attribute "@ + path + " is not numeric: "@ + error@),
        ),
        NumberLook::NotFinite => Err(
            invalid_data("hwmon attribute "@ + path + " is not finite"@),
        ),
        NumberLook::Value(value) => Ok(value),
    }
}

/// The number of an attribute that may be missing.
pub open spec fn optional_number(path: Seq<char>, look: NumberLook) -> Result<
    Option<u64>,
    ErrorView,
> {
    if look matches NumberLook::NotInspected(fault) && fault.kind == IoKind::NotFound {
        Ok(None)
    } else {
        match required_number(path, look) {
            Ok(value) => Ok(Some(value)),
            Err(error) => Err(error),
        }
    }
}

fn read_required_millidegrees(path: &str, look: &NumberLook) -> (r: Result<u64, CollectorError>)
    ensures
        match (r, required_number(path@, *look)) {
            (Ok(given), Ok(expected)) => given == expected,
            (Err(given), Err(expected)) => given@ == expected,
            _ => false,
        },
{
    match look {
        NumberLook::NotInspected(fault) => Err(
            io_error("failed to inspect hwmon attribute", path, fault),
        ),
        NumberLook::NotRegular => Err(invalid("hwmon attribute ", path, " is not a regular file")),
        NumberLook::Unreadable(fault) => Err(
            io_error("failed to read hwmon attribute", path, fault),
        ),
        NumberLook::NotNumeric(error) => Err(
            CollectorError::invalid(
                text::cat4("hwmon attribute ", path, " is not numeric: ", error.as_str()),
            ),
        ),
        NumberLook::NotFinite => Err(invalid("hwmon attribute ", path, " is not finite")),
        NumberLook::Value(value) => Ok(*value),
    }
}

/// The errors with one more where there is one.
pub open spec fn with_error<T>(errors: Seq<ErrorView>, result: Result<T, ErrorView>) -> Seq<
    ErrorView,
> {
    match result {
        Ok(_) => errors,
        Err(error) => errors.push(error),
    }
}

fn note(errors: &mut Vec<CollectorError>, error: CollectorError)
    ensures
        error_views(final(errors)@) == error_views(old(errors)@).push(error@),
{
    errors.push(error);
    assert(error_views(errors@) =~= error_views(old(errors)@).push(error@));
}

fn read_optional_millidegrees(
    path: &str,
    look: &NumberLook,
    errors: &mut Vec<CollectorError>,
) -> (r: Option<u64>)
    ensures
        error_views(final(errors)@) == with_error(
            error_views(old(errors)@),
            optional_number(path@, *look),
        ),
        r == match optional_number(path@, *look) {
            Ok(value) => value,
            Err(_) => None,
        },
{
    if let NumberLook::NotInspected(fault) = look {
        if fault.kind == IoKind::NotFound {
            return None;
        }
    }
    match read_required_millidegrees(path, look) {
        Ok(value) => Some(value),
        Err(error) => {
            note(errors, error);
            None
        },
    }
}

// ---------------------------------------------------------------------------
// One sensor
// ---------------------------------------------------------------------------
/// One temperature input of a device, with what reading it gave.
#[derive(Debug)]
pub struct SensorInput {
    /// The index as `temperature_input_index` finds it in the name of the input.
    pub index: String,
    pub input: NumberLook,
    pub label: AttributeLook,
    pub max: NumberLook,
    pub critical: NumberLook,
}

impl Keyed for SensorInput {
    open spec fn key(&self) -> Seq<char> {
        self.index@
    }

    fn key_text(&self) -> (r: &str) {
        self.index.as_str()
    }
}

/// What the sensors of a device come to: temperatures and errors.
pub struct Reading {
    pub temperatures: Seq<TemperatureView>,
    pub errors: Seq<ErrorView>,
}

/// What one sensor adds: nothing but its error where its input cannot be read, else a temperature,
/// with an error for each optional attribute that cannot.
pub open spec fn sensor_reading(
    known: Reading,
    path: Seq<char>,
    device: Seq<char>,
    driver: Seq<char>,
    sensor: SensorInput,
) -> Reading {
    let file = |suffix: Seq<char>| under(path, "temp"@ + sensor.index@ + suffix);
    match required_number(file("_input"@), sensor.input) {
        Err(error) => Reading { errors: known.errors.push(error), ..known },
        Ok(celsius) => {
            let label = trimmed_attribute(file("_label"@), sensor.label);
            let max = optional_number(file("_max"@), sensor.max);
            let critical = optional_number(file("_crit"@), sensor.critical);
            Reading {
                temperatures: known.temperatures.push(
                    TemperatureView {
                        id: device + ":"@ + sensor.index@,
                        label: driver + " "@ + (match label {
                            Ok(Some(words)) => words,
                            _ => "temp"@ + sensor.index@,
                        }),
                        celsius: Some(celsius),
                        max_celsius: match max {
                            Ok(value) => value,
                            Err(_) => None,
                        },
                        critical_celsius: match critical {
                            Ok(value) => value,
                            Err(_) => None,
                        },
                        source: "linux-hwmon"@,
                    },
                ),
                errors: with_error(with_error(with_error(known.errors, label), max), critical),
            }
        },
    }
}

fn collect_sensor(
    path: &str,
    device: &str,
    driver: &str,
    sensor: &SensorInput,
    temperatures: &mut Vec<TemperatureSnapshot>,
    errors: &mut Vec<CollectorError>,
)
    ensures
        (Reading {
            temperatures: temperature_views(final(temperatures)@),
            errors: error_views(final(errors)@),
        }) == sensor_reading(
            Reading {
                temperatures: temperature_views(old(temperatures)@),
                errors: error_views(old(errors)@),
            },
            path@,
            device@,
            driver@,
            *sensor,
        ),
{
    let index = sensor.index.as_str();
    let name = text::cat("temp", index);
    let celsius: u64 = match read_required_millidegrees(
        path_under(path, text::cat(name.as_str(), "_input").as_str()).as_str(),
        &sensor.input,
    ) {
        Ok(celsius) => celsius,
        Err(error) => {
            note(errors, error);
            return;
        },
    };
    let label = match read_optional_trimmed(
        path_under(path, text::cat(name.as_str(), "_label").as_str()).as_str(),
        &sensor.label,
    ) {
        Ok(Some(label)) => label,
        Ok(None) => text::cat("temp", index),
        Err(error) => {
            note(errors, error);
            text::cat("temp", index)
        },
    };
    let max_celsius = read_optional_millidegrees(
        path_under(path, text::cat(name.as_str(), "_max").as_str()).as_str(),
        &sensor.max,
        errors,
    );
    let critical_celsius = read_optional_millidegrees(
        path_under(path, text::cat(name.as_str(), "_crit").as_str()).as_str(),
        &sensor.critical,
        errors,
    );
    let temperature = TemperatureSnapshot {
        id: text::cat3(device, ":", index),
        label: text::cat3(driver, " ", label.as_str()),
        celsius: Some(celsius),
        max_celsius,
        critical_celsius,
        source: text::owned("linux-hwmon"),
    };
    temperatures.push(temperature);
    assert(temperature_views(temperatures@) =~= temperature_views(old(temperatures)@).push(
        temperature@,
    ));
}

// ---------------------------------------------------------------------------
// One device
// ---------------------------------------------------------------------------
/// What is at a resolved path.
#[derive(Debug)]
pub enum TargetLook {
    NotInspected(IoFault),
    NoDirectory,
    Directory,
}

/// What the optional link of a device to its hardware gave.
#[derive(Debug)]
pub enum LinkLook {
    /// It could not be inspected; it is missing where the fault says so.
    NotInspected(IoFault),
    /// It is neither a directory nor a link.
    NoDirectory,
    Unresolved(IoFault),
    Resolved { canonical: String, target: TargetLook },
}

/// One entry of a device's directory.
#[derive(Debug)]
pub enum FileEntry {
    Failed(IoFault),
    Input(SensorInput),
    /// Something else than a temperature input.
    Other,
}

/// What enumerating a device's directory gave.
#[derive(Debug)]
pub enum FilesLook {
    Unreadable(IoFault),
    Entries(Vec<FileEntry>),
}

/// What the directory of a device holds.
#[derive(Debug)]
pub struct DirectoryLook {
    pub link: LinkLook,
    pub name: AttributeLook,
    pub files: FilesLook,
}

/// What is at the resolved path of an entry. An entry that resolves to where it may not be read is
/// not read.
#[derive(Debug)]
pub enum ResolvedLook {
    NotRead,
    NotInspected(IoFault),
    NoDirectory,
    Directory(DirectoryLook),
}

/// What an entry of the root gave.
#[derive(Debug)]
pub enum EntryLook {
    NotInspected(IoFault),
    /// It is neither a directory nor a link.
    NoDirectory,
    Unresolved(IoFault),
    Resolved { canonical: String, target: ResolvedLook },
}

/// An entry of the root that is named like a sensor device.
#[derive(Debug)]
pub struct DeviceLook {
    pub path: String,
    /// The last component of the path.
    pub name: String,
    pub entry: EntryLook,
}

impl Keyed for DeviceLook {
    open spec fn key(&self) -> Seq<char> {
        self.name@
    }

    fn key_text(&self) -> (r: &str) {
        self.name.as_str()
    }
}

/// The directory that stands for the device whatever its number: its hardware where it is linked,
/// else itself.
pub open spec fn stable_device(
    root: Seq<char>,
    root_canonical: Seq<char>,
    path: Seq<char>,
    canonical: Seq<char>,
    link: LinkLook,
) -> Result<Seq<char>, ErrorView> {
    let at = under(path, "device"@);
    match link {
        LinkLook::NotInspected(fault) => if fault.kind == IoKind::NotFound {
            Ok(canonical)
        } else {
            Err(failed_to("failed to inspect optional hwmon device path"@, at, fault))
        },
        LinkLook::NoDirectory => Err(
            invalid_data("hwmon device path "@ + at + " is neither a directory nor a symlink"@),
        ),
        LinkLook::Unresolved(fault) => if fault.kind == IoKind::NotFound {
            Err(invalid_data("hwmon device path "@ + at + " is dangling"@))
        } else {
            Err(failed_to("failed to resolve optional hwmon device path"@, at, fault))
        },
        LinkLook::Resolved { canonical: resolved, target } => match target {
            TargetLook::NotInspected(fault) => Err(
                failed_to("failed to inspect resolved hwmon device path"@, resolved@, fault),
            ),
            TargetLook::NoDirectory => Err(
                invalid_data("hwmon device path "@ + at + " does not resolve to a directory"@),
            ),
            TargetLook::Directory => if is_allowed(root, root_canonical, resolved@) {
                Ok(resolved@)
            } else {
                Err(
                    invalid_data(
                        "hwmon device link "@ + at + " resolves outside the allowed device tree"@,
                    ),
                )
            },
        },
    }
}

fn optional_device_path(
    root: &str,
    root_canonical: &str,
    path: &str,
    canonical: &str,
    link: &LinkLook,
) -> (r: Result<String, CollectorError>)
    ensures
        match (r, stable_device(root@, root_canonical@, path@, canonical@, *link)) {
            (Ok(given), Ok(expected)) => given@ == expected,
            (Err(given), Err(expected)) => given@ == expected,
            _ => false,
        },
{
    let at = path_under(path, "device");
    match link {
        LinkLook::NotInspected(fault) => {
            if fault.kind == IoKind::NotFound {
                return Ok(text::owned(canonical));
            }
            Err(io_error("failed to inspect optional hwmon device path", at.as_str(), fault))
        },
        LinkLook::NoDirectory => Err(
            invalid("hwmon device path ", at.as_str(), " is neither a directory nor a symlink"),
        ),
        LinkLook::Unresolved(fault) => {
            if fault.kind == IoKind::NotFound {
                return Err(invalid("hwmon device path ", at.as_str(), " is dangling"));
            }
            Err(io_error("failed to resolve optional hwmon device path", at.as_str(), fault))
        },
        LinkLook::Resolved { canonical: resolved, target } => match target {
            TargetLook::NotInspected(fault) => Err(
                io_error("failed to inspect resolved hwmon device path", resolved.as_str(), fault),
            ),
            TargetLook::NoDirectory => Err(
                invalid("hwmon device path ", at.as_str(), " does not resolve to a directory"),
            ),
            TargetLook::Directory => {
                if allowed_target(root, root_canonical, resolved.as_str()) {
                    return Ok(resolved.clone());
                }
                Err(
                    invalid(
                        "hwmon device link ",
                        at.as_str(),
                        " resolves outside the allowed device tree",
                    ),
                )
            },
        },
    }
}

/// The temperature inputs among the entries.
pub open spec fn inputs_of(entries: Seq<FileEntry>) -> Seq<SensorInput>
    decreases entries.len(),
{
    if entries.len() == 0 {
        Seq::empty()
    } else {
        match entries.last() {
            FileEntry::Input(sensor) => inputs_of(entries.drop_last()).push(sensor),
            _ => inputs_of(entries.drop_last()),
        }
    }
}

/// The errors of enumerating a device's directory.
pub open spec fn entry_errors(
    known: Seq<ErrorView>,
    path: Seq<char>,
    entries: Seq<FileEntry>,
) -> Seq<ErrorView>
    decreases entries.len(),
{
    if entries.len() == 0 {
        known
    } else {
        let before = entry_errors(known, path, entries.drop_last());
        match entries.last() {
            FileEntry::Failed(fault) => before.push(
                failed_to("failed to read an entry from hwmon device"@, path, fault),
            ),
            _ => before,
        }
    }
}

fn take_inputs(path: &str, entries: Vec<FileEntry>, errors: &mut Vec<CollectorError>) -> (r: Vec<
    SensorInput,
>)
    ensures
        r@ == inputs_of(entries@),
        error_views(final(errors)@) == entry_errors(error_views(old(errors)@), path@, entries@),
{
    let ghost given = entries@;
    let mut rest = entries;
    let mut out: Vec<SensorInput> = Vec::new();
    let ghost mut n: int = 0;
    assert(given.skip(0) =~= given);
    assert(given.take(0) =~= Seq::empty());
    while rest.len() > 0
        invariant
            0 <= n <= given.len(),
            rest@ == given.skip(n),
            out@ == inputs_of(given.take(n)),
            error_views(errors@) == entry_errors(
                error_views(old(errors)@),
                path@,
                given.take(n),
            ),
        decreases rest@.len(),
    {
        let entry = rest.remove(0);
        proof {
            assert(given.take(n + 1).drop_last() =~= given.take(n));
            assert(given.take(n + 1).last() == entry);
        }
        match entry {
            FileEntry::Input(sensor) => out.push(sensor),
            FileEntry::Failed(fault) => note(
                errors,
                io_error("failed to read an entry from hwmon device", path, &fault),
            ),
            FileEntry::Other => {},
        }
        proof {
            assert(rest@ =~= given.skip(n + 1));
            n = n + 1;
        }
    }
    proof {
        assert(given.take(n) =~= given);
    }
    out
}

/// What the first `n` sensors add.
pub open spec fn sensor_readings(
    known: Reading,
    path: Seq<char>,
    device: Seq<char>,
    driver: Seq<char>,
    sensors: Seq<SensorInput>,
    n: int,
) -> Reading
    decreases n,
{
    if n <= 0 {
        known
    } else {
        sensor_reading(
            sensor_readings(known, path, device, driver, sensors, n - 1),
            path,
            device,
            driver,
            sensors[n - 1],
        )
    }
}

/// What the directory of a device adds.
pub open spec fn directory_reading(
    known: Reading,
    root: Seq<char>,
    root_canonical: Seq<char>,
    device: DeviceLook,
    canonical: Seq<char>,
    directory: DirectoryLook,
) -> Reading {
    let path = device.path@;
    match stable_device(root, root_canonical, path, canonical, directory.link) {
        Err(error) => Reading { errors: known.errors.push(error), ..known },
        Ok(stable) => {
            let name = trimmed_attribute(under(path, "name"@), directory.name);
            let driver = match name {
                Ok(Some(words)) => words,
                _ => device.name@,
            };
            let errors = with_error(known.errors, name);
            match directory.files {
                FilesLook::Unreadable(fault) => Reading {
                    errors: errors.push(
                        failed_to("failed to enumerate hwmon device"@, path, fault),
                    ),
                    ..known
                },
                FilesLook::Entries(entries) => {
                    let sensors = sorted(inputs_of(entries@));
                    sensor_readings(
                        Reading { errors: entry_errors(errors, path, entries@), ..known },
                        path,
                        stable,
                        driver,
                        sensors,
                        sensors.len() as int,
                    )
                },
            }
        },
    }
}

/// What a device adds.
pub open spec fn device_reading(
    known: Reading,
    root: Seq<char>,
    root_canonical: Seq<char>,
    device: DeviceLook,
) -> Reading {
    let path = device.path@;
    let failing = |error: ErrorView| Reading { errors: known.errors.push(error), ..known };
    match device.entry {
        EntryLook::NotInspected(fault) => failing(
            failed_to("failed to inspect hwmon entry"@, path, fault),
        ),
        EntryLook::NoDirectory => failing(
            invalid_data("hwmon entry "@ + path + " is neither a directory nor a symlink"@),
        ),
        EntryLook::Unresolved(fault) => if fault.kind == IoKind::NotFound {
            failing(invalid_data("hwmon entry "@ + path + " is dangling"@))
        } else {
            failing(failed_to("failed to resolve hwmon entry"@, path, fault))
        },
        EntryLook::Resolved { canonical, target } => if !is_allowed(
            root,
            root_canonical,
            canonical@,
        ) {
            failing(
                invalid_data(
                    "hwmon entry "@ + path + " resolves outside the allowed device tree"@,
                ),
            )
        } else {
            match target {
                ResolvedLook::NotRead => known,
                ResolvedLook::NotInspected(fault) => failing(
                    failed_to("failed to inspect resolved hwmon entry"@, canonical@, fault),
                ),
                ResolvedLook::NoDirectory => failing(
                    invalid_data("hwmon entry "@ + path + " does not resolve to a directory"@),
                ),
                ResolvedLook::Directory(directory) => directory_reading(
                    known,
                    root,
                    root_canonical,
                    device,
                    canonical@,
                    directory,
                ),
            }
        },
    }
}

/// What temperatures and errors are known.
pub open spec fn known(
    temperatures: Seq<TemperatureSnapshot>,
    errors: Seq<CollectorError>,
) -> Reading {
    Reading { temperatures: temperature_views(temperatures), errors: error_views(errors) }
}

fn collect_directory(
    root: &str,
    root_canonical: &str,
    path: &str,
    name: &str,
    canonical: &str,
    directory: DirectoryLook,
    temperatures: &mut Vec<TemperatureSnapshot>,
    errors: &mut Vec<CollectorError>,
)
    ensures
        forall|device: DeviceLook|
            device.path@ == path@ && device.name@ == name@ ==> known(
                final(temperatures)@,
                final(errors)@,
            ) == #[trigger] directory_reading(
                known(old(temperatures)@, old(errors)@),
                root@,
                root_canonical@,
                device,
                canonical@,
                directory,
            ),
{
    let DirectoryLook { link, name: named, files } = directory;
    let stable = match optional_device_path(root, root_canonical, path, canonical, &link) {
        Ok(stable) => stable,
        Err(error) => {
            note(errors, error);
            return;
        },
    };
    let driver = match read_optional_trimmed(path_under(path, "name").as_str(), &named) {
        Ok(Some(driver)) => driver,
        Ok(None) => text::owned(name),
        Err(error) => {
            note(errors, error);
            text::owned(name)
        },
    };
    let entries = match files {
        FilesLook::Unreadable(fault) => {
            note(errors, io_error("failed to enumerate hwmon device", path, &fault));
            return;
        },
        FilesLook::Entries(entries) => entries,
    };
    let sensors = sort(take_inputs(path, entries, errors));
    let ghost before = known(temperatures@, errors@);
    let mut i: usize = 0;
    while i < sensors.len()
        invariant
            i <= sensors@.len(),
            known(temperatures@, errors@) == sensor_readings(
                before,
                path@,
                stable@,
                driver@,
                sensors@,
                i as int,
            ),
        decreases sensors@.len() - i,
    {
        collect_sensor(path, stable.as_str(), driver.as_str(), &sensors[i], temperatures, errors);
        i += 1;
    }
}

/// Read one device.
pub fn collect_device(
    root: &str,
    root_canonical: &str,
    device: DeviceLook,
    temperatures: &mut Vec<TemperatureSnapshot>,
    errors: &mut Vec<CollectorError>,
)
    ensures
        known(final(temperatures)@, final(errors)@) == device_reading(
            known(old(temperatures)@, old(errors)@),
            root@,
            root_canonical@,
            device,
        ),
{
    let ghost given = device;
    let DeviceLook { path, name, entry } = device;
    match entry {
        EntryLook::NotInspected(fault) => note(
            errors,
            io_error("failed to inspect hwmon entry", path.as_str(), &fault),
        ),
        EntryLook::NoDirectory => note(
            errors,
            invalid("hwmon entry ", path.as_str(), " is neither a directory nor a symlink"),
        ),
        EntryLook::Unresolved(fault) => if fault.kind == IoKind::NotFound {
            note(errors, invalid("hwmon entry ", path.as_str(), " is dangling"));
        } else {
            note(errors, io_error("failed to resolve hwmon entry", path.as_str(), &fault));
        },
        EntryLook::Resolved { canonical, target } => {
            if !allowed_target(root, root_canonical, canonical.as_str()) {
                note(
                    errors,
                    invalid(
                        "hwmon entry ",
                        path.as_str(),
                        " resolves outside the allowed device tree",
                    ),
                );
                return;
            }
            match target {
                ResolvedLook::NotRead => {},
                ResolvedLook::NotInspected(fault) => note(
                    errors,
                    io_error(
                        "failed to inspect resolved hwmon entry",
                        canonical.as_str(),
                        &fault,
                    ),
                ),
                ResolvedLook::NoDirectory => note(
                    errors,
                    invalid("hwmon entry ", path.as_str(), " does not resolve to a directory"),
                ),
                ResolvedLook::Directory(directory) => {
                    let ghost before = known(temperatures@, errors@);
                    collect_directory(
                        root,
                        root_canonical,
                        path.as_str(),
                        name.as_str(),
                        canonical.as_str(),
                        directory,
                        temperatures,
                        errors,
                    );
                    assert(known(temperatures@, errors@) == directory_reading(
                        before,
                        root@,
                        root_canonical@,
                        given,
                        canonical@,
                        directory,
                    ));
                },
            }
        },
    }
}

// ---------------------------------------------------------------------------
// All devices
// ---------------------------------------------------------------------------
/// One entry of the root.
#[derive(Debug)]
pub enum RootEntry {
    Failed(IoFault),
    /// An entry that is named like a sensor device.
    Device(DeviceLook),
    Other,
}

/// What the root gave.
#[derive(Debug)]
pub enum RootLook {
    Missing,
    Unresolved(IoFault),
    Unreadable(IoFault),
    Entries { canonical: String, entries: Vec<RootEntry> },
}

/// The temperatures of a host, and whether they could be read.
#[derive(Debug)]
pub struct LinuxHwmonResult {
    pub temperatures: Vec<TemperatureSnapshot>,
    pub capability: Capability,
}

/// The devices among the entries.
pub open spec fn devices_of(entries: Seq<RootEntry>) -> Seq<DeviceLook>
    decreases entries.len(),
{
    if entries.len() == 0 {
        Seq::empty()
    } else {
        match entries.last() {
            RootEntry::Device(device) => devices_of(entries.drop_last()).push(device),
            _ => devices_of(entries.drop_last()),
        }
    }
}

/// The errors of enumerating the root.
pub open spec fn root_errors(root: Seq<char>, entries: Seq<RootEntry>) -> Seq<ErrorView>
    decreases entries.len(),
{
    if entries.len() == 0 {
        Seq::empty()
    } else {
        let before = root_errors(root, entries.drop_last());
        match entries.last() {
            RootEntry::Failed(fault) => before.push(
                failed_to("failed to read an entry from hwmon root"@, root, fault),
            ),
            _ => before,
        }
    }
}

/// What the first `n` devices add.
pub open spec fn device_readings(
    before: Reading,
    root: Seq<char>,
    root_canonical: Seq<char>,
    devices: Seq<DeviceLook>,
    n: int,
) -> Reading
    decreases n,
{
    if n <= 0 {
        before
    } else {
        device_reading(
            device_readings(before, root, root_canonical, devices, n - 1),
            root,
            root_canonical,
            devices[n - 1],
        )
    }
}

/// The capability that the errors leave: the first error decides, then whether anything was read.
pub open spec fn temperature_verdict(errors: Seq<ErrorView>, any: bool) -> CapabilityView {
    if errors.len() > 0 {
        absent("system.temperature"@, "sysinfo/hwmon"@, errors[0].kind, errors[0].message)
    } else if !any {
        absent(
            "system.temperature"@,
            "sysinfo/hwmon"@,
            CapabilityErrorKind::Unsupported,
            "the operating system or hardware exposed no readable numeric sensor"@,
        )
    } else {
        present("system.temperature"@, "sysinfo/hwmon"@)
    }
}

/// Everything that the entries of a root come to, before it is put in order.
pub open spec fn root_reading(root: Seq<char>, canonical: Seq<char>, entries: Seq<RootEntry>) -> Reading {
    let devices = sorted(devices_of(entries));
    device_readings(
        Reading { temperatures: Seq::empty(), errors: root_errors(root, entries) },
        root,
        canonical,
        devices,
        devices.len() as int,
    )
}

/// What a root comes to: the temperatures by their ids, the first of each, and the capability.
pub open spec fn root_result(
    root: Seq<char>,
    look: RootLook,
    temperatures: Seq<TemperatureSnapshot>,
    capability: CapabilityView,
) -> bool {
    match look {
        RootLook::Missing => temperatures.len() == 0 && capability == temperature_verdict(
            Seq::empty(),
            false,
        ),
        RootLook::Unresolved(fault) => temperatures.len() == 0 && capability
            == temperature_verdict(
            seq![failed_to("failed to resolve hwmon root"@, root, fault)],
            false,
        ),
        RootLook::Unreadable(fault) => temperatures.len() == 0 && capability
            == temperature_verdict(
            seq![failed_to("failed to enumerate hwmon root"@, root, fault)],
            false,
        ),
        RootLook::Entries { canonical, entries } => {
            let reading = root_reading(root, canonical@, entries@);
            &&& exists|read: Seq<TemperatureSnapshot>| #[trigger]
                temperature_views(read) == reading.temperatures && temperatures == distinct(
                    sorted(read),
                )
            &&& capability == temperature_verdict(reading.errors, temperatures.len() > 0)
        },
    }
}

fn temperature_capability(errors: &Vec<CollectorError>, any: bool) -> (r: Capability)
    ensures
        r@ == temperature_verdict(error_views(errors@), any),
{
    if errors.len() > 0 {
        assert(error_views(errors@)[0] == errors@[0]@);
        Capability::unavailable(
            "system.temperature",
            "sysinfo/hwmon",
            errors[0].kind,
            errors[0].message.clone(),
        )
    } else if !any {
        Capability::unavailable(
            "system.temperature",
            "sysinfo/hwmon",
            CapabilityErrorKind::Unsupported,
            text::owned("the operating system or hardware exposed no readable numeric sensor"),
        )
    } else {
        Capability::available("system.temperature", "sysinfo/hwmon")
    }
}

fn failed_result(error: CollectorError) -> (r: LinuxHwmonResult)
    ensures
        r.temperatures@.len() == 0,
        r.capability@ == temperature_verdict(seq![error@], false),
{
    let mut errors: Vec<CollectorError> = Vec::new();
    errors.push(error);
    assert(error_views(errors@) =~= seq![error@]);
    LinuxHwmonResult {
        temperatures: Vec::new(),
        capability: temperature_capability(&errors, false),
    }
}

fn take_devices(root: &str, entries: Vec<RootEntry>, errors: &mut Vec<CollectorError>) -> (r: Vec<
    DeviceLook,
>)
    requires
        old(errors)@.len() == 0,
    ensures
        r@ == devices_of(entries@),
        error_views(final(errors)@) == root_errors(root@, entries@),
{
    let ghost given = entries@;
    let mut rest = entries;
    let mut out: Vec<DeviceLook> = Vec::new();
    let ghost mut n: int = 0;
    assert(given.skip(0) =~= given);
    assert(given.take(0) =~= Seq::empty());
    assert(error_views(errors@) =~= Seq::empty());
    while rest.len() > 0
        invariant
            0 <= n <= given.len(),
            rest@ == given.skip(n),
            out@ == devices_of(given.take(n)),
            error_views(errors@) == root_errors(root@, given.take(n)),
        decreases rest@.len(),
    {
        let entry = rest.remove(0);
        proof {
            assert(given.take(n + 1).drop_last() =~= given.take(n));
            assert(given.take(n + 1).last() == entry);
        }
        match entry {
            RootEntry::Device(device) => out.push(device),
            RootEntry::Failed(fault) => note(
                errors,
                io_error("failed to read an entry from hwmon root", root, &fault),
            ),
            RootEntry::Other => {},
        }
        proof {
            assert(rest@ =~= given.skip(n + 1));
            n = n + 1;
        }
    }
    proof {
        assert(given.take(n) =~= given);
    }
    out
}

/// What the sensors below a root come to.
pub fn collect_from(root: &str, look: RootLook) -> (r: LinuxHwmonResult)
    ensures
        root_result(root@, look, r.temperatures@, r.capability@),
{
    let (root_canonical, entries) = match look {
        RootLook::Missing => {
            let errors: Vec<CollectorError> = Vec::new();
            assert(error_views(errors@) =~= Seq::empty());
            return LinuxHwmonResult {
                temperatures: Vec::new(),
                capability: temperature_capability(&errors, false),
            };
        },
        RootLook::Unresolved(fault) => {
            return failed_result(io_error("failed to resolve hwmon root", root, &fault));
        },
        RootLook::Unreadable(fault) => {
            return failed_result(io_error("failed to enumerate hwmon root", root, &fault));
        },
        RootLook::Entries { canonical, entries } => (canonical, entries),
    };
    let mut errors: Vec<CollectorError> = Vec::new();
    let mut temperatures: Vec<TemperatureSnapshot> = Vec::new();
    let mut devices = sort(take_devices(root, entries, &mut errors));
    let ghost all = devices@;
    let ghost before = known(temperatures@, errors@);
    assert(temperature_views(temperatures@) =~= Seq::empty());
    let ghost mut n: int = 0;
    assert(all.skip(0) =~= all);
    while devices.len() > 0
        invariant
            0 <= n <= all.len(),
            devices@ == all.skip(n),
            known(temperatures@, errors@) == device_readings(
                before,
                root@,
                root_canonical@,
                all,
                n,
            ),
        decreases devices@.len(),
    {
        let device = devices.remove(0);
        proof {
            assert(device == all[n]);
        }
        collect_device(root, root_canonical.as_str(), device, &mut temperatures, &mut errors);
        proof {
            assert(devices@ =~= all.skip(n + 1));
            n = n + 1;
        }
    }
    let ghost read = temperatures@;
    let temperatures = keep_first(sort(temperatures));
    let capability = temperature_capability(&errors, temperatures.len() > 0);
    proof {
        assert(temperature_views(read) == root_reading(
            root@,
            root_canonical@,
            entries@,
        ).temperatures);
    }
    LinuxHwmonResult { temperatures, capability }
}

/// A device that resolves to where it may not be read adds nothing but an error.
pub proof fn an_escaping_entry_is_not_read(
    before: Reading,
    root: Seq<char>,
    root_canonical: Seq<char>,
    device: DeviceLook,
    canonical: String,
    target: ResolvedLook,
)
    requires
        device.entry == (EntryLook::Resolved { canonical, target }),
        !is_allowed(root, root_canonical, canonical@),
    ensures
        device_reading(before, root, root_canonical, device).temperatures == before.temperatures,
        device_reading(before, root, root_canonical, device).errors.len() == before.errors.len()
            + 1,
{
}

/// A sensor never loses what was read before it, and adds a temperature exactly where its own
/// input could be read.
pub proof fn a_broken_sensor_costs_only_itself(
    before: Reading,
    path: Seq<char>,
    device: Seq<char>,
    driver: Seq<char>,
    sensor: SensorInput,
)
    ensures
        ({
            let after = sensor_reading(before, path, device, driver, sensor);
            &&& before.temperatures.is_prefix_of(after.temperatures)
            &&& after.temperatures.len() == before.temperatures.len() + (if sensor.input is Value {
                1nat
            } else {
                0nat
            })
            &&& before.errors.is_prefix_of(after.errors)
        }),
{
}

/// What a number that may be missing holds.
pub open spec fn value_in(look: NumberLook) -> Option<u64> {
    match look {
        NumberLook::Value(value) => Some(value),
        _ => None,
    }
}

/// An attribute that may be missing is there, but cannot be used.
pub open spec fn is_broken(look: NumberLook) -> bool {
    match look {
        NumberLook::Value(_) => false,
        NumberLook::NotInspected(fault) => fault.kind != IoKind::NotFound,
        _ => true,
    }
}

/// The temperature is the reading of this sensor: it shows the sensor's own input, and the limits
/// that its own attributes hold.
pub open spec fn shows(shown: TemperatureView, device: Seq<char>, sensor: SensorInput) -> bool {
    &&& shown.id == device + ":"@ + sensor.index@
    &&& sensor.input is Value
    &&& shown.celsius == Some(sensor.input->Value_0)
    &&& shown.max_celsius == value_in(sensor.max)
    &&& shown.critical_celsius == value_in(sensor.critical)
    &&& shown.source == "linux-hwmon"@
}

/// A sensor whose input can be read adds one temperature, which shows that input whatever the
/// other attributes hold, under the sensor's own label or else its number; and one error for each
/// of the other attributes that is there but cannot be used. A sensor whose input cannot be read
/// adds one error and nothing else.
pub proof fn a_temperature_is_what_its_sensor_reads(
    before: Reading,
    path: Seq<char>,
    device: Seq<char>,
    driver: Seq<char>,
    sensor: SensorInput,
)
    ensures
        ({
            let after = sensor_reading(before, path, device, driver, sensor);
            let shown = after.temperatures.last();
            let label_fails = match sensor.label {
                AttributeLook::NotInspected(fault) => fault.kind != IoKind::NotFound,
                AttributeLook::Text(words) => text::trimmed(words@).len() == 0,
                _ => true,
            };
            let failing = (if label_fails {
                1int
            } else {
                0
            }) + (if is_broken(sensor.max) {
                1int
            } else {
                0
            }) + (if is_broken(sensor.critical) {
                1int
            } else {
                0
            });
            &&& sensor.input is Value ==> {
                &&& after.temperatures == before.temperatures.push(shown)
                &&& shows(shown, device, sensor)
                &&& after.errors.len() == before.errors.len() + failing
                &&& (sensor.label matches AttributeLook::Text(words) && text::trimmed(
                    words@,
                ).len() > 0) ==> shown.label == driver + " "@ + text::trimmed(
                    sensor.label->Text_0@,
                )
                &&& !(sensor.label is Text) || label_fails ==> shown.label == driver + " "@ + (
                "temp"@ + sensor.index@)
            }
            &&& !(sensor.input is Value) ==> {
                &&& after.temperatures == before.temperatures
                &&& after.errors.len() == before.errors.len() + 1
            }
        }),
{
}

/// How many of the first `n` sensors have an input that can be read.
pub open spec fn readable(sensors: Seq<SensorInput>, n: int) -> nat
    decreases n,
{
    if n <= 0 {
        0
    } else {
        readable(sensors, n - 1) + (if sensors[n - 1].input is Value {
            1nat
        } else {
            0
        })
    }
}

/// A device adds a temperature for each of its sensors that can be read, in the order of the
/// sensors, and for nothing else; what was read before stays.
pub proof fn a_device_shows_its_sensors(
    before: Reading,
    path: Seq<char>,
    device: Seq<char>,
    driver: Seq<char>,
    sensors: Seq<SensorInput>,
    n: int,
)
    requires
        0 <= n <= sensors.len(),
    ensures
        ({
            let after = sensor_readings(before, path, device, driver, sensors, n);
            &&& before.temperatures.is_prefix_of(after.temperatures)
            &&& before.errors.is_prefix_of(after.errors)
            &&& after.temperatures.len() == before.temperatures.len() + readable(sensors, n)
            &&& forall|i: int|
                0 <= i < n && (#[trigger] sensors[i]).input is Value ==> shows(
                    after.temperatures[(before.temperatures.len() + readable(sensors, i)) as int],
                    device,
                    sensors[i],
                )
        }),
    decreases n,
{
    if n > 0 {
        a_device_shows_its_sensors(before, path, device, driver, sensors, n - 1);
        let middle = sensor_readings(before, path, device, driver, sensors, n - 1);
        let after = sensor_readings(before, path, device, driver, sensors, n);
        a_temperature_is_what_its_sensor_reads(middle, path, device, driver, sensors[n - 1]);
        assert forall|i: int|
            0 <= i < n && (#[trigger] sensors[i]).input is Value implies shows(
            after.temperatures[(before.temperatures.len() + readable(sensors, i)) as int],
            device,
            sensors[i],
        ) by {
            lemma_readable_grows(sensors, i, n - 1);
            if i < n - 1 {
                lemma_readable_grows(sensors, i + 1, n - 1);
            }
        }
    }
}

proof fn lemma_readable_grows(sensors: Seq<SensorInput>, i: int, n: int)
    requires
        0 <= i <= n,
    ensures
        readable(sensors, i) <= readable(sensors, n),
    decreases n - i,
{
    if i < n {
        lemma_readable_grows(sensors, i, n - 1);
    }
}

/// A device is known by the directory of its hardware, where it has a link to one that may be
/// read, and else by its own; a link that is there but cannot be used costs the device.
pub proof fn a_device_is_known_by_its_hardware(
    root: Seq<char>,
    root_canonical: Seq<char>,
    path: Seq<char>,
    canonical: Seq<char>,
    link: LinkLook,
)
    ensures
        ({
            let stable = stable_device(root, root_canonical, path, canonical, link);
            let linked = (link matches LinkLook::Resolved { canonical: resolved, target }
                && target is Directory && is_allowed(root, root_canonical, resolved@));
            let absent = (link matches LinkLook::NotInspected(fault) && fault.kind
                == IoKind::NotFound);
            &&& stable is Ok <==> linked || absent
            &&& linked ==> stable == Ok::<Seq<char>, ErrorView>(link->canonical@)
            &&& absent ==> stable == Ok::<Seq<char>, ErrorView>(canonical)
        }),
{
}

/// A path may be read below the kernel's devices where the root is the kernel's own, and below the
/// root itself otherwise.
pub proof fn what_may_be_read(root: Seq<char>, root_canonical: Seq<char>, target: Seq<char>)
    ensures
        root == "/sys/class/hwmon"@ ==> (is_allowed(root, root_canonical, target) <==> is_within(
            target,
            "/sys/devices"@,
        )),
        root != "/sys/class/hwmon"@ ==> (is_allowed(root, root_canonical, target) <==> is_within(
            target,
            root_canonical,
        )),
{
}

/// A device whose directory can be read shows all of its sensors under its hardware's path, each
/// once and in the order of their numbers' texts, and labels them with its driver's name, or with
/// its own where it has none. A broken name or entry costs an error, not the sensors.
pub proof fn a_readable_device_is_read(
    before: Reading,
    root: Seq<char>,
    root_canonical: Seq<char>,
    device: DeviceLook,
    canonical: String,
    directory: DirectoryLook,
    stable: Seq<char>,
    entries: Vec<FileEntry>,
)
    requires
        device.entry == (EntryLook::Resolved {
            canonical,
            target: ResolvedLook::Directory(directory),
        }),
        is_allowed(root, root_canonical, canonical@),
        stable_device(root, root_canonical, device.path@, canonical@, directory.link) == Ok::<
            Seq<char>,
            ErrorView,
        >(stable),
        directory.files == FilesLook::Entries(entries),
    ensures
        ({
            let after = device_reading(before, root, root_canonical, device);
            let sensors = sorted(inputs_of(entries@));
            let at = before.temperatures.len() as int;
            &&& before.temperatures.is_prefix_of(after.temperatures)
            &&& after.temperatures.len() == at + readable(sensors, sensors.len() as int)
            &&& forall|i: int|
                0 <= i < sensors.len() && (#[trigger] sensors[i]).input is Value ==> shows(
                    after.temperatures[at + readable(sensors, i)],
                    stable,
                    sensors[i],
                )
            &&& before.errors.is_prefix_of(after.errors)
            &&& (directory.name matches AttributeLook::Text(words) && text::trimmed(words@).len()
                > 0) && sensors.len() > 0 && sensors[0].input is Value && (
            sensors[0].label matches AttributeLook::NotInspected(fault) && fault.kind
                == IoKind::NotFound) ==> after.temperatures[at].label == text::trimmed(
                directory.name->Text_0@,
            ) + " "@ + ("temp"@ + sensors[0].index@)
        }),
{
    let sensors = sorted(inputs_of(entries@));
    let path = device.path@;
    let name = trimmed_attribute(under(path, "name"@), directory.name);
    let driver = match name {
        Ok(Some(words)) => words,
        _ => device.name@,
    };
    let errors = entry_errors(with_error(before.errors, name), path, entries@);
    let start = Reading { errors, ..before };
    lemma_entry_errors_grow(with_error(before.errors, name), path, entries@);
    let n = sensors.len() as int;
    a_device_shows_its_sensors(start, path, stable, driver, sensors, n);
    assert(before.errors.is_prefix_of(errors));
    assert(errors.is_prefix_of(device_reading(before, root, root_canonical, device).errors));
    if n > 0 && sensors[0].input is Value {
        a_device_shows_its_sensors(start, path, stable, driver, sensors, 1);
        lemma_first_stays(start, path, stable, driver, sensors, n);
        a_temperature_is_what_its_sensor_reads(start, path, stable, driver, sensors[0]);
        assert(sensor_readings(start, path, stable, driver, sensors, 1) == sensor_reading(
            sensor_readings(start, path, stable, driver, sensors, 0),
            path,
            stable,
            driver,
            sensors[0],
        ));
    }
}

proof fn lemma_first_stays(
    before: Reading,
    path: Seq<char>,
    device: Seq<char>,
    driver: Seq<char>,
    sensors: Seq<SensorInput>,
    n: int,
)
    requires
        1 <= n <= sensors.len(),
    ensures
        sensor_readings(before, path, device, driver, sensors, 1).temperatures.is_prefix_of(
            sensor_readings(before, path, device, driver, sensors, n).temperatures,
        ),
    decreases n,
{
    if n > 1 {
        lemma_first_stays(before, path, device, driver, sensors, n - 1);
        a_broken_sensor_costs_only_itself(
            sensor_readings(before, path, device, driver, sensors, n - 1),
            path,
            device,
            driver,
            sensors[n - 1],
        );
    }
}

/// How many entries could not be read.
pub open spec fn failed_entries(entries: Seq<FileEntry>) -> nat
    decreases entries.len(),
{
    if entries.len() == 0 {
        0
    } else {
        failed_entries(entries.drop_last()) + (if entries.last() is Failed {
            1nat
        } else {
            0
        })
    }
}

proof fn lemma_entry_errors_grow(known: Seq<ErrorView>, path: Seq<char>, entries: Seq<FileEntry>)
    ensures
        known.is_prefix_of(entry_errors(known, path, entries)),
        entry_errors(known, path, entries).len() == known.len() + failed_entries(entries),
    decreases entries.len(),
{
    if entries.len() > 0 {
        lemma_entry_errors_grow(known, path, entries.drop_last());
    }
}

/// The inputs of a device are exactly the inputs among its entries.
pub proof fn every_input_is_a_sensor(entries: Seq<FileEntry>)
    ensures
        forall|i: int| 0 <= i < entries.len() && (#[trigger] entries[i]) is Input ==> inputs_of(
            entries,
        ).contains(entries[i]->Input_0),
        forall|sensor: SensorInput| #[trigger] inputs_of(entries).contains(sensor)
            ==> entries.contains(FileEntry::Input(sensor)),
        inputs_of(entries).len() <= entries.len(),
    decreases entries.len(),
{
    if entries.len() > 0 {
        let before = entries.drop_last();
        every_input_is_a_sensor(before);
        let rest = inputs_of(before);
        let all = inputs_of(entries);
        assert forall|i: int| 0 <= i < entries.len() && (#[trigger] entries[i])
            is Input implies all.contains(entries[i]->Input_0) by {
            if i < before.len() {
                assert(before[i] == entries[i]);
                let k = choose|k: int| 0 <= k < rest.len() && rest[k] == entries[i]->Input_0;
                assert(all[k] == entries[i]->Input_0);
            } else {
                assert(all.last() == entries[i]->Input_0);
            }
        }
        assert forall|sensor: SensorInput| #[trigger] all.contains(sensor) implies entries.contains(
            FileEntry::Input(sensor),
        ) by {
            let k = choose|k: int| 0 <= k < all.len() && all[k] == sensor;
            if k < rest.len() {
                assert(rest[k] == sensor);
                assert(rest.contains(sensor));
                let j = choose|j: int|
                    0 <= j < before.len() && before[j] == FileEntry::Input(sensor);
                assert(entries[j] == FileEntry::Input(sensor));
            } else {
                assert(entries.last() == FileEntry::Input(sensor));
            }
        }
    }
}

/// An entry that cannot be used adds one error and no temperature; one whose directory lists
/// nothing that can be read, likewise keeps what was read.
pub proof fn a_broken_entry_adds_an_error(
    before: Reading,
    root: Seq<char>,
    root_canonical: Seq<char>,
    device: DeviceLook,
)
    requires
        !(device.entry is Resolved),
    ensures
        ({
            let after = device_reading(before, root, root_canonical, device);
            &&& after.temperatures == before.temperatures
            &&& after.errors.len() == before.errors.len() + 1
            &&& after.errors.drop_last() == before.errors
            &&& after.errors.last().kind == match device.entry {
                EntryLook::NotInspected(fault) => classified(fault.kind),
                EntryLook::Unresolved(fault) => if fault.kind == IoKind::NotFound {
                    CapabilityErrorKind::InvalidData
                } else {
                    classified(fault.kind)
                },
                _ => CapabilityErrorKind::InvalidData,
            }
        }),
{
    let after = device_reading(before, root, root_canonical, device);
    assert(after.errors.drop_last() =~= before.errors);
}

/// The temperatures are available exactly where something was read and nothing failed; else the
/// first failure tells why, or that there is nothing.
pub proof fn the_first_error_decides(errors: Seq<ErrorView>, any: bool)
    ensures
        ({
            let verdict = temperature_verdict(errors, any);
            &&& verdict.name == "system.temperature"@
            &&& verdict.source == "sysinfo/hwmon"@
            &&& verdict.available <==> errors.len() == 0 && any
            &&& errors.len() > 0 ==> verdict.error_kind == Some(errors[0].kind)
                && verdict.message == Some(errors[0].message)
            &&& errors.len() == 0 && !any ==> verdict.error_kind == Some(
                CapabilityErrorKind::Unsupported,
            )
            &&& verdict.available ==> verdict.error_kind is None && verdict.message is None
        }),
{
}

/// Permission and bad data are told apart; everything else may pass.
pub proof fn how_errors_are_classified(kind: IoKind)
    ensures
        classified(kind) == CapabilityErrorKind::PermissionDenied <==> kind
            == IoKind::PermissionDenied,
        classified(kind) == CapabilityErrorKind::InvalidData <==> kind == IoKind::InvalidData,
        kind != IoKind::PermissionDenied && kind != IoKind::InvalidData ==> classified(kind)
            == CapabilityErrorKind::Transient,
{
}

/// Every device of a root is read, on top of what those before it gave, and nothing of it is lost.
pub proof fn every_device_is_read(
    before: Reading,
    root: Seq<char>,
    root_canonical: Seq<char>,
    devices: Seq<DeviceLook>,
    i: int,
    n: int,
)
    requires
        0 <= i < n <= devices.len(),
    ensures
        ({
            let earlier = device_readings(before, root, root_canonical, devices, i);
            let own = device_reading(earlier, root, root_canonical, devices[i]);
            let all = device_readings(before, root, root_canonical, devices, n);
            &&& own.temperatures.is_prefix_of(all.temperatures)
            &&& own.errors.is_prefix_of(all.errors)
        }),
    decreases n,
{
    if i < n - 1 {
        every_device_is_read(before, root, root_canonical, devices, i, n - 1);
        lemma_device_keeps(
            device_readings(before, root, root_canonical, devices, n - 1),
            root,
            root_canonical,
            devices[n - 1],
        );
    }
}

proof fn lemma_device_keeps(
    before: Reading,
    root: Seq<char>,
    root_canonical: Seq<char>,
    device: DeviceLook,
)
    ensures
        before.temperatures.is_prefix_of(
            device_reading(before, root, root_canonical, device).temperatures,
        ),
        before.errors.is_prefix_of(device_reading(before, root, root_canonical, device).errors),
{
    match device.entry {
        EntryLook::Resolved { canonical, target } => {
            if is_allowed(root, root_canonical, canonical@) {
                if let ResolvedLook::Directory(directory) = target {
                    let stable = stable_device(
                        root,
                        root_canonical,
                        device.path@,
                        canonical@,
                        directory.link,
                    );
                    if let FilesLook::Entries(entries) = directory.files {
                        if stable is Ok {
                            a_readable_device_is_read(
                                before,
                                root,
                                root_canonical,
                                device,
                                canonical,
                                directory,
                                stable->Ok_0,
                                entries,
                            );
                        }
                    }
                }
            }
        },
        _ => {},
    }
}

/// What a root comes to: each temperature that was read is told under its id, none twice, in the
/// order of the ids, and nothing else is told. A root that is missing shows nothing; one that
/// cannot be read tells why.
pub proof fn what_a_root_comes_to(
    root: Seq<char>,
    look: RootLook,
    temperatures: Seq<TemperatureSnapshot>,
    capability: CapabilityView,
)
    requires
        root_result(root, look, temperatures, capability),
    ensures
        in_order(temperatures),
        forall|i: int, j: int|
            0 <= i < j < temperatures.len() ==> (#[trigger] temperatures[i]).id@ != (
            #[trigger] temperatures[j]).id@,
        !(look is Entries) ==> temperatures.len() == 0 && !capability.available,
        look is Missing ==> capability.error_kind == Some(CapabilityErrorKind::Unsupported),
        look matches RootLook::Unresolved(fault) ==> capability.error_kind == Some(
            classified(fault.kind),
        ),
        look matches RootLook::Unreadable(fault) ==> capability.error_kind == Some(
            classified(fault.kind),
        ),
        look matches RootLook::Entries { canonical, entries } ==> {
            let reading = root_reading(root, canonical@, entries@);
            &&& capability.available <==> reading.errors.len() == 0 && reading.temperatures.len() > 0
            &&& forall|k: int|
                0 <= k < reading.temperatures.len() ==> exists|i: int|
                    0 <= i < temperatures.len() && (#[trigger] temperatures[i]).id@ == (
                    #[trigger] reading.temperatures[k]).id
            &&& forall|i: int|
                0 <= i < temperatures.len() ==> reading.temperatures.contains(
                    (#[trigger] temperatures[i])@,
                )
        },
{
    if let RootLook::Entries { canonical, entries } = look {
        let reading = root_reading(root, canonical@, entries@);
        let read = choose|read: Seq<TemperatureSnapshot>| #[trigger]
            temperature_views(read) == reading.temperatures && temperatures == distinct(
                sorted(read),
            );
        let all = sorted(read);
        sorting_orders_and_keeps(read);
        what_is_left_stays_in_order(all);
        the_first_of_each_is_left(all, Seq::empty());
        assert forall|i: int, j: int| 0 <= i < j < temperatures.len() implies (
        #[trigger] temperatures[i]).id@ != (#[trigger] temperatures[j]).id@ by {
            assert(temperatures[i].key() != temperatures[j].key());
        }
        assert forall|k: int| 0 <= k < reading.temperatures.len() implies exists|i: int|
            0 <= i < temperatures.len() && (#[trigger] temperatures[i]).id@ == (
            #[trigger] reading.temperatures[k]).id by {
            assert(temperature_views(read)[k] == read[k]@);
            assert(read.contains(read[k]));
            sorting_loses_nothing(read, read[k]);
            let j = choose|j: int| 0 <= j < all.len() && all[j] == read[k];
            assert(all[j].key() == read[k].id@);
            assert(has_key(all, read[k].id@));
            the_first_of_each_is_left(all, read[k].id@);
            let i = choose|i: int|
                0 <= i < temperatures.len() && (#[trigger] temperatures[i]).key() == read[k].id@;
            assert(temperatures[i].id@ == reading.temperatures[k].id);
        }
        assert forall|i: int| 0 <= i < temperatures.len() implies reading.temperatures.contains(
            (#[trigger] temperatures[i])@,
        ) by {
            assert(temperatures.contains(temperatures[i]));
            nothing_is_added(all, temperatures[i]);
            sorting_loses_nothing(read, temperatures[i]);
            let k = choose|k: int| 0 <= k < read.len() && read[k] == temperatures[i];
            assert(temperature_views(read)[k] == temperatures[i]@);
        }
        if reading.temperatures.len() > 0 {
            let some = reading.temperatures[0];
        }
        if temperatures.len() > 0 {
            let some = temperatures[0];
        }
    }
}

} // verus!
