//! Graphics devices as the Linux kernel shows them below its DRM class.

use crate::collectors::bounded::{
    extend_bounded, extended, limit_of, producer_collection_limit, push_bounded, pushed,
};
use crate::collectors::model::{
    absent, capability_views, gpu_views, invalid_data, is_within, path_under, present,
    record_first_error, under, within, Capability, CapabilityErrorKind, CapabilityView,
    CollectorError, ErrorView, GpuSnapshot, GpuView, IoFault, IoKind,
};
use crate::text;
use vstd::prelude::*;

verus! {

/// Where the kernel shows its graphics devices.
pub fn drm_root() -> (r: &'static str)
    ensures
        r@ == "/sys/class/drm"@,
{
    "/sys/class/drm"
}

/// The kind of a capability error that a system error makes. Something that was there a moment ago
/// and is not found makes no sense.
pub open spec fn classified(kind: IoKind) -> CapabilityErrorKind {
    match kind {
        IoKind::PermissionDenied => CapabilityErrorKind::PermissionDenied,
        IoKind::NotFound | IoKind::InvalidData => CapabilityErrorKind::InvalidData,
        IoKind::Other => CapabilityErrorKind::Transient,
    }
}

/// The kind of a capability error that a system error makes.
pub fn classify_io_error(kind: IoKind) -> (r: CapabilityErrorKind)
    ensures
        r == classified(kind),
{
    match kind {
        IoKind::PermissionDenied => CapabilityErrorKind::PermissionDenied,
        IoKind::NotFound | IoKind::InvalidData => CapabilityErrorKind::InvalidData,
        IoKind::Other => CapabilityErrorKind::Transient,
    }
}

/// The error that a system error makes.
pub open spec fn failed(operation: Seq<char>, path: Seq<char>, fault: IoFault) -> ErrorView {
    ErrorView {
        kind: classified(fault.kind),
        message: operation + " "@ + path + " failed: "@ + fault.text@,
    }
}

fn io_error(operation: &str, path: &str, fault: &IoFault) -> (r: CollectorError)
    ensures
        r@ == failed(operation@, path@, *fault),
{
    CollectorError {
        kind: classify_io_error(fault.kind),
        message: text::cat5(operation, " ", path, " failed: ", fault.text.as_str()),
    }
}

/// The error about data at a path that makes no sense.
pub open spec fn wrong(path: Seq<char>, message: Seq<char>) -> ErrorView {
    invalid_data(path + ": "@ + message)
}

fn invalid(path: &str, message: &str) -> (r: CollectorError)
    ensures
        r@ == wrong(path@, message@),
{
    CollectorError::invalid(text::cat3(path, ": ", message))
}

/// The error of a root with more devices than are looked at.
pub open spec fn too_many(root: Seq<char>, maximum: usize) -> ErrorView {
    wrong(
        root,
        "primary-card enumeration exceeded producer limit of "@ + text::decimal(limit_of(maximum))
            + " inspected devices"@,
    )
}

/// The error of a root with more devices than are looked at.
pub fn enumeration_limit_error(root: &str, maximum: usize) -> (r: CollectorError)
    ensures
        r@ == too_many(root@, maximum),
{
    let limit: usize = producer_collection_limit(maximum);
    invalid(
        root,
        text::cat3(
            "primary-card enumeration exceeded producer limit of ",
            text::decimal_text(limit as u64).as_str(),
            " inspected devices",
        ).as_str(),
    )
}

/// The name is that of a device, not of one of its connectors or render nodes.
pub open spec fn names_card(name: Seq<char>) -> bool {
    text::begins(name, "card"@) && text::all_digits(name.skip(4)) && name.len() > 4
}

/// Whether the name is that of a device, not of one of its connectors or render nodes.
pub fn is_primary_card(name: &str) -> (r: bool)
    ensures
        r == names_card(name@),
{
    proof {
        reveal_strlit("card");
    }
    let suffix = match text::strip_prefix(name, "card") {
        Some(suffix) => suffix,
        None => {
            return false;
        },
    };
    assert(suffix@ =~= name@.skip(4));
    text::only_digits(&text::to_chars(suffix.as_str()))
}

// ---------------------------------------------------------------------------
// Attributes
// ---------------------------------------------------------------------------
/// What reading an attribute gave.
#[derive(Debug)]
pub enum SysfsLook {
    /// It could not be inspected; it is missing where the fault says so.
    NotInspected(IoFault),
    /// It is no regular file.
    NotRegular,
    /// It could not be read; it has gone meanwhile where the fault says so.
    Unreadable(IoFault),
    Text(String),
}

/// The text of an attribute that may be missing, trimmed.
pub open spec fn attribute(path: Seq<char>, look: SysfsLook) -> Result<Option<Seq<char>>, ErrorView> {
    match look {
        SysfsLook::NotInspected(fault) => if fault.kind == IoKind::NotFound {
            Ok(None)
        } else {
            Err(failed("inspect sysfs attribute"@, path, fault))
        },
        SysfsLook::NotRegular => Err(wrong(path, "sysfs attribute is not a regular file"@)),
        SysfsLook::Unreadable(fault) => if fault.kind == IoKind::NotFound {
            Ok(None)
        } else {
            Err(failed("read sysfs attribute"@, path, fault))
        },
        SysfsLook::Text(value) => if text::trimmed(value@).len() == 0 {
            Err(wrong(path, "sysfs attribute is empty"@))
        } else {
            Ok(Some(text::trimmed(value@)))
        },
    }
}

fn read_optional_trimmed(path: &str, look: &SysfsLook) -> (r: Result<Option<String>, CollectorError>)
    ensures
        match (r, attribute(path@, *look)) {
            (Ok(given), Ok(expected)) => text::opt_view(given) == expected,
            (Err(given), Err(expected)) => given@ == expected,
            _ => false,
        },
{
    match look {
        SysfsLook::NotInspected(fault) => {
            if fault.kind == IoKind::NotFound {
                return Ok(None);
            }
            Err(io_error("inspect sysfs attribute", path, fault))
        },
        SysfsLook::NotRegular => Err(invalid(path, "sysfs attribute is not a regular file")),
        SysfsLook::Unreadable(fault) => {
            if fault.kind == IoKind::NotFound {
                return Ok(None);
            }
            Err(io_error("read sysfs attribute", path, fault))
        },
        SysfsLook::Text(value) => {
            let trimmed = text::trim(value.as_str());
            if text::to_chars(trimmed.as_str()).len() == 0 {
                return Err(invalid(path, "sysfs attribute is empty"));
            }
            Ok(Some(trimmed))
        },
    }
}

/// Four hexadecimal digits.
pub open spec fn is_four_hex(s: Seq<char>) -> bool {
    s.len() == 4 && forall|i: int| 0 <= i < s.len() ==> text::is_hex(#[trigger] s[i])
}

/// The identifier that a PCI attribute must hold.
pub open spec fn pci_id(path: Seq<char>, look: SysfsLook) -> Result<Seq<char>, ErrorView> {
    match attribute(path, look) {
        Err(error) => Err(error),
        Ok(None) => Err(wrong(path, "required PCI identifier is missing"@)),
        Ok(Some(value)) => if !text::begins(value, "0x"@) {
            Err(wrong(path, "PCI identifier must start with 0x"@))
        } else if !is_four_hex(value.skip(2)) {
            Err(wrong(path, "PCI identifier must contain exactly four hexadecimal digits"@))
        } else {
            Ok(value)
        },
    }
}

fn four_hex(chars: &Vec<char>) -> (r: bool)
    ensures
        r == is_four_hex(chars@),
{
    chars.len() == 4 && text::all_hex(chars)
}

/// The identifier that a PCI attribute must hold.
pub fn read_required_pci_id(path: &str, look: &SysfsLook) -> (r: Result<String, CollectorError>)
    ensures
        match (r, pci_id(path@, *look)) {
            (Ok(given), Ok(expected)) => given@ == expected,
            (Err(given), Err(expected)) => given@ == expected,
            _ => false,
        },
{
    proof {
        reveal_strlit("0x");
    }
    let value = match read_optional_trimmed(path, look) {
        Err(error) => {
            return Err(error);
        },
        Ok(None) => {
            return Err(invalid(path, "required PCI identifier is missing"));
        },
        Ok(Some(value)) => value,
    };
    let digits = match text::strip_prefix(value.as_str(), "0x") {
        Some(digits) => digits,
        None => {
            return Err(invalid(path, "PCI identifier must start with 0x"));
        },
    };
    assert(digits@ =~= value@.skip(2));
    if !four_hex(&text::to_chars(digits.as_str())) {
        return Err(
            invalid(path, "PCI identifier must contain exactly four hexadecimal digits"),
        );
    }
    Ok(value)
}

/// The whole number of an attribute that may be missing.
pub open spec fn whole_number(path: Seq<char>, look: SysfsLook) -> Result<Option<u64>, ErrorView> {
    match attribute(path, look) {
        Err(error) => Err(error),
        Ok(None) => Ok(None),
        Ok(Some(value)) => match text::unsigned_value(value) {
            Some(n) => if n <= u64::MAX {
                Ok(Some(n as u64))
            } else {
                Err(wrong(path, "invalid unsigned integer: "@ + value))
            },
            None => Err(wrong(path, "invalid unsigned integer: "@ + value)),
        },
    }
}

/// The whole number of an attribute that may be missing.
pub fn read_u64(path: &str, look: &SysfsLook) -> (r: Result<Option<u64>, CollectorError>)
    ensures
        match (r, whole_number(path@, *look)) {
            (Ok(given), Ok(expected)) => given == expected,
            (Err(given), Err(expected)) => given@ == expected,
            _ => false,
        },
{
    let value = match read_optional_trimmed(path, look) {
        Err(error) => {
            return Err(error);
        },
        Ok(None) => {
            return Ok(None);
        },
        Ok(Some(value)) => value,
    };
    match text::parse_unsigned(&text::to_chars(value.as_str()), u64::MAX) {
        Some(n) => Ok(Some(n)),
        None => Err(
            invalid(path, text::cat("invalid unsigned integer: ", value.as_str()).as_str()),
        ),
    }
}

/// What a trimmed text is as a number with a fraction.
#[derive(Clone, Copy, PartialEq, Eq, Structural, Debug)]
pub enum Parsed {
    Invalid,
    NotFinite,
    Value(u64),
}

/// An attribute that holds a number with a fraction: what reading it gave, and what its trimmed
/// text is as a number.
#[derive(Debug)]
pub struct FractionLook {
    pub look: SysfsLook,
    pub parsed: Parsed,
}

/// The number of an attribute that may be missing.
pub open spec fn fraction(path: Seq<char>, given: FractionLook) -> Result<Option<u64>, ErrorView> {
    match attribute(path, given.look) {
        Err(error) => Err(error),
        Ok(None) => Ok(None),
        Ok(Some(value)) => match given.parsed {
            Parsed::Invalid => Err(wrong(path, "invalid number: "@ + value)),
            Parsed::NotFinite => Err(wrong(path, "number is not finite"@)),
            Parsed::Value(bits) => Ok(Some(bits)),
        },
    }
}

fn read_f64(path: &str, given: &FractionLook) -> (r: Result<Option<u64>, CollectorError>)
    ensures
        match (r, fraction(path@, *given)) {
            (Ok(given), Ok(expected)) => given == expected,
            (Err(given), Err(expected)) => given@ == expected,
            _ => false,
        },
{
    let value = match read_optional_trimmed(path, &given.look) {
        Err(error) => {
            return Err(error);
        },
        Ok(None) => {
            return Ok(None);
        },
        Ok(Some(value)) => value,
    };
    match given.parsed {
        Parsed::Invalid => Err(
            invalid(path, text::cat("invalid number: ", value.as_str()).as_str()),
        ),
        Parsed::NotFinite => Err(invalid(path, "number is not finite")),
        Parsed::Value(bits) => Ok(Some(bits)),
    }
}

/// The value of the first line that begins with `key`.
pub open spec fn line_value(lines: Seq<Seq<char>>, key: Seq<char>, n: int) -> Option<Seq<char>>
    decreases lines.len() - n,
{
    if n < 0 || n >= lines.len() {
        None
    } else if text::begins(without_return(lines[n]), key) {
        Some(without_return(lines[n]).skip(key.len() as int))
    } else {
        line_value(lines, key, n + 1)
    }
}

/// A line without the return at its end.
pub open spec fn without_return(line: Seq<char>) -> Seq<char> {
    if line.len() > 0 && line.last() == '\r' {
        line.drop_last()
    } else {
        line
    }
}

/// The slot that a device's event file names.
pub open spec fn slot(device: Seq<char>, uevent: SysfsLook) -> Result<Option<Seq<char>>, ErrorView> {
    match attribute(under(device, "uevent"@), uevent) {
        Err(error) => Err(error),
        Ok(None) => Ok(None),
        Ok(Some(value)) => Ok(line_value(text::pieces(value, '\n'), "PCI_SLOT_NAME="@, 0)),
    }
}

fn line_text(line: &Vec<char>) -> (r: String)
    ensures
        r@ == without_return(line@),
{
    if line.len() > 0 && line[line.len() - 1] == '\r' {
        let shown = text::range_text(line, 0, line.len() - 1);
        assert(shown@ =~= line@.drop_last());
        shown
    } else {
        text::from_chars(line)
    }
}

/// The slot that a device's event file names.
pub fn pci_slot(device: &str, uevent: &SysfsLook) -> (r: Result<Option<String>, CollectorError>)
    ensures
        match (r, slot(device@, *uevent)) {
            (Ok(given), Ok(expected)) => text::opt_view(given) == expected,
            (Err(given), Err(expected)) => given@ == expected,
            _ => false,
        },
{
    let value = match read_optional_trimmed(path_under(device, "uevent").as_str(), uevent) {
        Err(error) => {
            return Err(error);
        },
        Ok(None) => {
            return Ok(None);
        },
        Ok(Some(value)) => value,
    };
    let lines = text::split(&text::to_chars(value.as_str()), '\n');
    let ghost views = text::pieces(value@, '\n');
    let mut i: usize = 0;
    while i < lines.len()
        invariant
            i <= lines@.len(),
            views == text::char_views(lines@),
            line_value(views, "PCI_SLOT_NAME="@, 0) == line_value(
                views,
                "PCI_SLOT_NAME="@,
                i as int,
            ),
            slot(device@, *uevent) == Ok::<Option<Seq<char>>, ErrorView>(
                line_value(views, "PCI_SLOT_NAME="@, 0),
            ),
        decreases lines@.len() - i,
    {
        assert(views[i as int] == lines@[i as int]@);
        let line = line_text(&lines[i]);
        match text::strip_prefix(line.as_str(), "PCI_SLOT_NAME=") {
            Some(name) => {
                assert(name@ =~= line@.skip("PCI_SLOT_NAME="@.len() as int));
                return Ok(Some(name));
            },
            None => {},
        }
        i += 1;
    }
    Ok(None)
}

/// One entry of the directory of a device's own sensors.
#[derive(Debug)]
pub enum HwmonEntry {
    Failed(IoFault),
    NotInspected { path: String, fault: IoFault },
    NoDirectory { path: String },
    /// With the number that the wanted attribute of the directory holds.
    Directory { path: String, number: FractionLook },
}

/// What the directory of a device's own sensors gave.
#[derive(Debug)]
pub enum HwmonLook {
    /// It could not be inspected; it is missing where the fault says so.
    NotInspected(IoFault),
    NoDirectory,
    Unreadable(IoFault),
    Entries(Vec<HwmonEntry>),
}

/// The first number among the entries from the `n`th on; the first that makes no sense ends the
/// search.
pub open spec fn first_number(
    hwmon: Seq<char>,
    file: Seq<char>,
    entries: Seq<HwmonEntry>,
    n: int,
) -> Result<Option<u64>, ErrorView>
    decreases entries.len() - n,
{
    if n < 0 || n >= entries.len() {
        Ok(None)
    } else {
        match entries[n] {
            HwmonEntry::Failed(fault) => Err(failed("read hwmon entry in"@, hwmon, fault)),
            HwmonEntry::NotInspected { path, fault } => Err(
                failed("inspect hwmon entry"@, path@, fault),
            ),
            HwmonEntry::NoDirectory { path } => Err(
                wrong(path@, "hwmon entry is not a directory"@),
            ),
            HwmonEntry::Directory { path, number } => match fraction(under(path@, file), number) {
                Err(error) => Err(error),
                Ok(Some(bits)) => Ok(Some(bits)),
                Ok(None) => first_number(hwmon, file, entries, n + 1),
            },
        }
    }
}

/// The first number that a device's own sensors give.
pub open spec fn hwmon_number(device: Seq<char>, file: Seq<char>, look: HwmonLook) -> Result<
    Option<u64>,
    ErrorView,
> {
    let hwmon = under(device, "hwmon"@);
    match look {
        HwmonLook::NotInspected(fault) => if fault.kind == IoKind::NotFound {
            Ok(None)
        } else {
            Err(failed("inspect directory"@, hwmon, fault))
        },
        HwmonLook::NoDirectory => Err(wrong(hwmon, "expected a directory, not a link or file"@)),
        HwmonLook::Unreadable(fault) => Err(failed("read directory"@, hwmon, fault)),
        HwmonLook::Entries(entries) => first_number(hwmon, file, entries@, 0),
    }
}

fn first_hwmon_f64(device: &str, file: &str, look: &HwmonLook) -> (r: Result<
    Option<u64>,
    CollectorError,
>)
    ensures
        match (r, hwmon_number(device@, file@, *look)) {
            (Ok(given), Ok(expected)) => given == expected,
            (Err(given), Err(expected)) => given@ == expected,
            _ => false,
        },
{
    let hwmon = path_under(device, "hwmon");
    let entries = match look {
        HwmonLook::NotInspected(fault) => {
            if fault.kind == IoKind::NotFound {
                return Ok(None);
            }
            return Err(io_error("inspect directory", hwmon.as_str(), fault));
        },
        HwmonLook::NoDirectory => {
            return Err(invalid(hwmon.as_str(), "expected a directory, not a link or file"));
        },
        HwmonLook::Unreadable(fault) => {
            return Err(io_error("read directory", hwmon.as_str(), fault));
        },
        HwmonLook::Entries(entries) => entries,
    };
    let mut i: usize = 0;
    while i < entries.len()
        invariant
            i <= entries@.len(),
            hwmon_number(device@, file@, *look) == first_number(hwmon@, file@, entries@, i as int),
        decreases entries@.len() - i,
    {
        match &entries[i] {
            HwmonEntry::Failed(fault) => {
                return Err(io_error("read hwmon entry in", hwmon.as_str(), fault));
            },
            HwmonEntry::NotInspected { path, fault } => {
                return Err(io_error("inspect hwmon entry", path.as_str(), fault));
            },
            HwmonEntry::NoDirectory { path } => {
                return Err(invalid(path.as_str(), "hwmon entry is not a directory"));
            },
            HwmonEntry::Directory { path, number } => {
                match read_f64(path_under(path.as_str(), file).as_str(), number) {
                    Err(error) => {
                        return Err(error);
                    },
                    Ok(Some(bits)) => {
                        return Ok(Some(bits));
                    },
                    Ok(None) => {},
                }
            },
        }
        i += 1;
    }
    Ok(None)
}

// ---------------------------------------------------------------------------
// One card
// ---------------------------------------------------------------------------
/// What the attributes of a device gave. The numbers with a fraction are in the units of a report.
#[derive(Debug)]
pub struct CardAttributes {
    pub vendor: SysfsLook,
    pub device: SysfsLook,
    pub uevent: SysfsLook,
    pub busy: FractionLook,
    pub memory_total: SysfsLook,
    pub memory_used: SysfsLook,
    pub temperature: HwmonLook,
    pub power: HwmonLook,
    pub clock: FractionLook,
}

/// What a card comes to: a snapshot, and the errors of those of its attributes that could not be
/// read.
#[derive(Debug)]
pub struct CardReading {
    pub snapshot: GpuSnapshot,
    pub first_error: Option<CollectorError>,
    pub utilization_error: Option<CollectorError>,
}

/// The contents of an error that may be there.
pub open spec fn opt_error(error: Option<CollectorError>) -> Option<ErrorView> {
    match error {
        Some(error) => Some(error@),
        None => None,
    }
}

/// The error of a result.
pub open spec fn error_of<T>(result: Result<T, ErrorView>) -> Option<ErrorView> {
    match result {
        Ok(_) => None,
        Err(error) => Some(error),
    }
}

/// The first of two errors.
pub open spec fn earlier(known: Option<ErrorView>, next: Option<ErrorView>) -> Option<ErrorView> {
    if known is Some {
        known
    } else {
        next
    }
}

/// The number of a result, where there is one.
pub open spec fn number_of(result: Result<Option<u64>, ErrorView>) -> Option<u64> {
    match result {
        Ok(value) => value,
        Err(_) => None,
    }
}

/// A card by its contents.
pub struct CardView {
    pub snapshot: GpuView,
    pub first_error: Option<ErrorView>,
    pub utilization_error: Option<ErrorView>,
}

impl View for CardReading {
    type V = CardView;

    open spec fn view(&self) -> CardView {
        CardView {
            snapshot: self.snapshot@,
            first_error: opt_error(self.first_error),
            utilization_error: opt_error(self.utilization_error),
        }
    }
}

/// What a card comes to: without its device code nothing, else a snapshot of whatever else could
/// be read.
pub open spec fn card_reading(
    card: Seq<char>,
    device: Seq<char>,
    vendor: Seq<char>,
    given: CardAttributes,
) -> Result<CardView, ErrorView> {
    match pci_id(under(device, "device"@), given.device) {
        Err(error) => Err(error),
        Ok(code) => {
            let id = slot(device, given.uevent);
            let busy = fraction(under(device, "gpu_busy_percent"@), given.busy);
            let total = whole_number(under(device, "mem_info_vram_total"@), given.memory_total);
            let used = whole_number(under(device, "mem_info_vram_used"@), given.memory_used);
            let temperature = hwmon_number(device, "temp1_input"@, given.temperature);
            let power = hwmon_number(device, "power1_average"@, given.power);
            let clock = fraction(under(device, "gt_cur_freq_mhz"@), given.clock);
            let first = earlier(
                earlier(
                    earlier(
                        earlier(
                            earlier(earlier(error_of(id), error_of(busy)), error_of(total)),
                            error_of(used),
                        ),
                        error_of(temperature),
                    ),
                    error_of(power),
                ),
                error_of(clock),
            );
            Ok(
                CardView {
                    snapshot: GpuView {
                        id: match id {
                            Ok(Some(name)) => name,
                            _ => card,
                        },
                        vendor,
                        name: text::raised(vendor) + " "@ + code,
                        utilization_percent: number_of(busy),
                        memory_total_bytes: number_of(total),
                        memory_used_bytes: number_of(used),
                        temperature_celsius: number_of(temperature),
                        power_watts: number_of(power),
                        core_clock_mhz: number_of(clock),
                        memory_clock_mhz: None,
                        pcie_rx_bytes_per_second: None,
                        pcie_tx_bytes_per_second: None,
                        source: "linux-"@ + vendor + "-sysfs"@,
                    },
                    first_error: first,
                    utilization_error: error_of(busy),
                },
            )
        },
    }
}

/// Keep a number, or remember why there is none.
fn retain_sysfs(
    result: Result<Option<u64>, CollectorError>,
    first_error: &mut Option<CollectorError>,
) -> (r: Option<u64>)
    ensures
        r == match result {
            Ok(value) => value,
            Err(_) => None,
        },
        opt_error(*final(first_error)) == earlier(
            opt_error(*old(first_error)),
            match result {
                Ok(_) => None,
                Err(error) => Some(error@),
            },
        ),
{
    match result {
        Ok(value) => value,
        Err(error) => {
            record_first_error(first_error, error);
            None
        },
    }
}

/// Read one card of a vendor.
pub fn collect_card(card: &str, device: &str, vendor: &str, given: &CardAttributes) -> (r: Result<
    CardReading,
    CollectorError,
>)
    ensures
        match (r, card_reading(card@, device@, vendor@, *given)) {
            (Ok(reading), Ok(expected)) => reading@ == expected,
            (Err(error), Err(expected)) => error@ == expected,
            _ => false,
        },
{
    let code = match read_required_pci_id(path_under(device, "device").as_str(), &given.device) {
        Ok(code) => code,
        Err(error) => {
            return Err(error);
        },
    };
    let mut first_error: Option<CollectorError> = None;
    let id = match pci_slot(device, &given.uevent) {
        Ok(Some(name)) => name,
        Ok(None) => text::owned(card),
        Err(error) => {
            record_first_error(&mut first_error, error);
            text::owned(card)
        },
    };
    let busy = read_f64(path_under(device, "gpu_busy_percent").as_str(), &given.busy);
    let utilization_error = match &busy {
        Ok(_) => None,
        Err(error) => Some(error.copy()),
    };
    let utilization_percent = retain_sysfs(busy, &mut first_error);
    let memory_total_bytes = retain_sysfs(
        read_u64(path_under(device, "mem_info_vram_total").as_str(), &given.memory_total),
        &mut first_error,
    );
    let memory_used_bytes = retain_sysfs(
        read_u64(path_under(device, "mem_info_vram_used").as_str(), &given.memory_used),
        &mut first_error,
    );
    let temperature_celsius = retain_sysfs(
        first_hwmon_f64(device, "temp1_input", &given.temperature),
        &mut first_error,
    );
    let power_watts = retain_sysfs(
        first_hwmon_f64(device, "power1_average", &given.power),
        &mut first_error,
    );
    let core_clock_mhz = retain_sysfs(
        read_f64(path_under(device, "gt_cur_freq_mhz").as_str(), &given.clock),
        &mut first_error,
    );
    Ok(
        CardReading {
            snapshot: GpuSnapshot {
                id,
                vendor: text::owned(vendor),
                name: text::cat3(text::upper(vendor).as_str(), " ", code.as_str()),
                utilization_percent,
                memory_total_bytes,
                memory_used_bytes,
                temperature_celsius,
                power_watts,
                core_clock_mhz,
                memory_clock_mhz: None,
                pcie_rx_bytes_per_second: None,
                pcie_tx_bytes_per_second: None,
                source: text::cat3("linux-", vendor, "-sysfs"),
            },
            first_error,
            utilization_error,
        },
    )
}

/// What is at the resolved path of a card. One that resolves to where it may not be read is not
/// read.
#[derive(Debug)]
pub enum CardTarget {
    NotRead,
    NotInspected(IoFault),
    NoDirectory,
    Directory(CardAttributes),
}

/// What the entry of a card gave.
#[derive(Debug)]
pub enum CardLook {
    NotInspected(IoFault),
    /// It is neither a directory nor a link.
    NoDirectory,
    /// Its device could not be resolved.
    Unresolved(IoFault),
    /// The root could not be resolved.
    RootUnresolved(IoFault),
    Resolved { resolved: String, root_canonical: String, target: CardTarget },
}

/// A resolved device may be read: below the kernel's own devices, or below another root itself.
pub open spec fn is_allowed(root: Seq<char>, root_canonical: Seq<char>, resolved: Seq<char>) -> bool {
    if root == "/sys/class/drm"@ {
        is_within(resolved, "/sys/devices"@)
    } else {
        is_within(resolved, root_canonical)
    }
}

/// Whether a resolved device may be read.
pub fn allowed_device(root: &str, root_canonical: &str, resolved: &str) -> (r: bool)
    ensures
        r == is_allowed(root@, root_canonical@, resolved@),
{
    if text::same(root, drm_root()) {
        within(resolved, "/sys/devices")
    } else {
        within(resolved, root_canonical)
    }
}

/// The error of a card whose device cannot be read.
pub open spec fn card_error(root: Seq<char>, name: Seq<char>, look: CardLook) -> Option<ErrorView> {
    let entry = under(root, name);
    let link = under(entry, "device"@);
    match look {
        CardLook::NotInspected(fault) => Some(failed("inspect DRM entry"@, entry, fault)),
        CardLook::NoDirectory => Some(
            wrong(entry, "primary DRM entry is neither a directory nor a sysfs link"@),
        ),
        CardLook::Unresolved(fault) => Some(failed("resolve DRM device"@, link, fault)),
        CardLook::RootUnresolved(fault) => Some(failed("resolve DRM root"@, root, fault)),
        CardLook::Resolved { resolved, root_canonical, target } => if !is_allowed(
            root,
            root_canonical@,
            resolved@,
        ) {
            Some(wrong(link, "resolved outside the allowed sysfs tree to "@ + resolved@))
        } else {
            match target {
                CardTarget::NotInspected(fault) => Some(
                    failed("inspect DRM device"@, resolved@, fault),
                ),
                CardTarget::NoDirectory => Some(
                    wrong(resolved@, "DRM device is not a directory"@),
                ),
                _ => None,
            }
        },
    }
}

fn resolve_card_device(root: &str, name: &str, look: &CardLook) -> (r: Option<CollectorError>)
    ensures
        opt_error(r) == card_error(root@, name@, *look),
{
    let entry = path_under(root, name);
    let link = path_under(entry.as_str(), "device");
    match look {
        CardLook::NotInspected(fault) => Some(io_error("inspect DRM entry", entry.as_str(), fault)),
        CardLook::NoDirectory => Some(
            invalid(
                entry.as_str(),
                "primary DRM entry is neither a directory nor a sysfs link",
            ),
        ),
        CardLook::Unresolved(fault) => Some(io_error("resolve DRM device", link.as_str(), fault)),
        CardLook::RootUnresolved(fault) => Some(io_error("resolve DRM root", root, fault)),
        CardLook::Resolved { resolved, root_canonical, target } => {
            if !allowed_device(root, root_canonical.as_str(), resolved.as_str()) {
                return Some(
                    invalid(
                        link.as_str(),
                        text::cat(
                            "resolved outside the allowed sysfs tree to ",
                            resolved.as_str(),
                        ).as_str(),
                    ),
                );
            }
            match target {
                CardTarget::NotInspected(fault) => Some(
                    io_error("inspect DRM device", resolved.as_str(), fault),
                ),
                CardTarget::NoDirectory => Some(
                    invalid(resolved.as_str(), "DRM device is not a directory"),
                ),
                _ => None,
            }
        },
    }
}

// ---------------------------------------------------------------------------
// All cards
// ---------------------------------------------------------------------------
/// The cards of one vendor.
#[derive(Debug)]
pub struct VendorCollection {
    pub gpus: Vec<GpuSnapshot>,
    pub matched_devices: usize,
    pub first_error: Option<CollectorError>,
    pub coverage_error: Option<CollectorError>,
    pub utilization_error: Option<CollectorError>,
}

/// The cards of one vendor by their contents.
pub struct VendorView {
    pub gpus: Seq<GpuView>,
    pub matched_devices: nat,
    pub first_error: Option<ErrorView>,
    pub coverage_error: Option<ErrorView>,
    pub utilization_error: Option<ErrorView>,
}

impl View for VendorCollection {
    type V = VendorView;

    open spec fn view(&self) -> VendorView {
        VendorView {
            gpus: gpu_views(self.gpus@),
            matched_devices: self.matched_devices as nat,
            first_error: opt_error(self.first_error),
            coverage_error: opt_error(self.coverage_error),
            utilization_error: opt_error(self.utilization_error),
        }
    }
}

impl VendorView {
    /// The vendor without any card.
    pub open spec fn none() -> VendorView {
        VendorView {
            gpus: Seq::empty(),
            matched_devices: 0,
            first_error: None,
            coverage_error: None,
            utilization_error: None,
        }
    }

    /// The vendor when a card could not be looked at.
    pub open spec fn uncovered(self, error: ErrorView) -> VendorView {
        VendorView {
            coverage_error: earlier(self.coverage_error, Some(error)),
            first_error: earlier(self.first_error, Some(error)),
            ..self
        }
    }

    /// The vendor with one card more.
    pub open spec fn with_card(self, card: CardView, maximum: usize) -> VendorView {
        VendorView {
            first_error: earlier(self.first_error, card.first_error),
            utilization_error: earlier(self.utilization_error, card.utilization_error),
            gpus: pushed(self.gpus, card.snapshot, maximum),
            ..self
        }
    }

    /// The vendor with one card more, or what became of it.
    pub open spec fn after_card(self, card: Result<CardView, ErrorView>, maximum: usize) -> VendorView {
        let matched = VendorView { matched_devices: self.matched_devices + 1, ..self };
        match card {
            Ok(reading) => matched.with_card(reading, maximum),
            Err(error) => matched.uncovered(error),
        }
    }
}

impl VendorCollection {
    fn none() -> (r: VendorCollection)
        ensures
            r@ == VendorView::none(),
    {
        let gpus: Vec<GpuSnapshot> = Vec::new();
        assert(gpu_views(gpus@) =~= Seq::empty());
        VendorCollection {
            gpus,
            matched_devices: 0,
            first_error: None,
            coverage_error: None,
            utilization_error: None,
        }
    }

    /// A card could not be looked at.
    pub fn record_coverage_error(&mut self, error: CollectorError)
        ensures
            final(self)@ == old(self)@.uncovered(error@),
    {
        record_first_error(&mut self.coverage_error, error.copy());
        record_first_error(&mut self.first_error, error);
    }

    /// A card was read.
    pub fn record_card(&mut self, reading: CardReading, maximum: usize)
        ensures
            final(self)@ == old(self)@.with_card(reading@, maximum),
    {
        let CardReading { snapshot, first_error, utilization_error } = reading;
        match first_error {
            Some(error) => record_first_error(&mut self.first_error, error),
            None => {},
        }
        match utilization_error {
            Some(error) => record_first_error(&mut self.utilization_error, error),
            None => {},
        }
        push_bounded(&mut self.gpus, snapshot, maximum);
        assert(gpu_views(self.gpus@) =~= pushed(gpu_views(old(self).gpus@), snapshot@, maximum));
    }
}

/// Whether the cards of a vendor are measured: the first error decides, then whether there are any.
pub open spec fn vendor_capability(name: Seq<char>, source: Seq<char>, values: VendorView) -> CapabilityView {
    match values.first_error {
        Some(error) => absent(
            name,
            source,
            error.kind,
            "collected "@ + text::decimal(values.gpus.len()) + " of "@ + text::decimal(
                values.matched_devices,
            ) + " matching DRM devices; "@ + error.message,
        ),
        None => if values.gpus.len() == 0 {
            absent(
                name,
                source,
                CapabilityErrorKind::NotPresent,
                "no matching DRM device was exposed by the kernel"@,
            )
        } else {
            present(name, source)
        },
    }
}

/// Whether the cards of a vendor are measured.
pub fn capability_for(name: &str, source: &str, values: &VendorCollection) -> (r: Capability)
    ensures
        r@ == vendor_capability(name@, source@, values@),
{
    match &values.first_error {
        Some(error) => {
            let mut message = text::cat5(
                "collected ",
                text::decimal_text(values.gpus.len() as u64).as_str(),
                " of ",
                text::decimal_text(values.matched_devices as u64).as_str(),
                " matching DRM devices; ",
            );
            message.append(error.message.as_str());
            Capability::unavailable(name, source, error.kind, message)
        },
        None => {
            if values.gpus.len() == 0 {
                return Capability::unavailable(
                    name,
                    source,
                    CapabilityErrorKind::NotPresent,
                    text::owned("no matching DRM device was exposed by the kernel"),
                );
            }
            Capability::available(name, source)
        },
    }
}

/// Some card tells how busy it is.
pub open spec fn some_busy(gpus: Seq<GpuView>) -> bool {
    exists|i: int| 0 <= i < gpus.len() && (#[trigger] gpus[i]).utilization_percent is Some
}

/// Whether it is measured how busy the cards of a vendor are; nothing is said of a vendor that has
/// no card here.
pub open spec fn busy_capability(name: Seq<char>, source: Seq<char>, values: VendorView) -> Option<
    CapabilityView,
> {
    if values.matched_devices == 0 && values.gpus.len() == 0 {
        None
    } else {
        match earlier(values.utilization_error, values.coverage_error) {
            Some(error) => Some(absent(name, source, error.kind, error.message)),
            None => if some_busy(values.gpus) {
                Some(present(name, source))
            } else {
                Some(
                    absent(
                        name,
                        source,
                        CapabilityErrorKind::Unsupported,
                        "the loaded kernel driver exposed no read-only utilization counter"@,
                    ),
                )
            },
        }
    }
}

fn any_busy(gpus: &Vec<GpuSnapshot>) -> (r: bool)
    ensures
        r == some_busy(gpu_views(gpus@)),
{
    let ghost views = gpu_views(gpus@);
    let mut i: usize = 0;
    while i < gpus.len()
        invariant
            i <= gpus@.len(),
            views == gpu_views(gpus@),
            forall|k: int| 0 <= k < i ==> (#[trigger] views[k]).utilization_percent is None,
        decreases gpus@.len() - i,
    {
        assert(views[i as int] == gpus@[i as int]@);
        if gpus[i].utilization_percent.is_some() {
            return true;
        }
        i += 1;
    }
    false
}

/// Whether it is measured how busy the cards of a vendor are.
pub fn utilization_capability(name: &str, source: &str, values: &VendorCollection) -> (r: Option<
    Capability,
>)
    ensures
        match (r, busy_capability(name@, source@, values@)) {
            (Some(given), Some(expected)) => given@ == expected,
            (None, None) => true,
            _ => false,
        },
{
    if values.matched_devices == 0 && values.gpus.len() == 0 {
        return None;
    }
    let error = match &values.utilization_error {
        Some(error) => Some(error),
        None => match &values.coverage_error {
            Some(error) => Some(error),
            None => None,
        },
    };
    match error {
        Some(error) => Some(
            Capability::unavailable(name, source, error.kind, error.message.clone()),
        ),
        None => if any_busy(&values.gpus) {
            Some(Capability::available(name, source))
        } else {
            Some(
                Capability::unavailable(
                    name,
                    source,
                    CapabilityErrorKind::Unsupported,
                    text::owned(
                        "the loaded kernel driver exposed no read-only utilization counter",
                    ),
                ),
            )
        },
    }
}

/// One entry of the root.
#[derive(Debug)]
pub enum DrmEntry {
    Failed(IoFault),
    /// An entry that is named like a device.
    Card { name: String, look: CardLook },
    Other,
}

/// What the root gave.
#[derive(Debug)]
pub enum DrmLook {
    /// It could not be inspected; it is missing where the fault says so.
    NotInspected(IoFault),
    NoDirectory,
    Unreadable(IoFault),
    Entries(Vec<DrmEntry>),
}

/// The two vendors while the entries are gone through.
pub struct DrmState {
    pub amd: VendorView,
    pub intel: VendorView,
    pub inspected: nat,
    /// No further card is looked at.
    pub full: bool,
}

impl DrmState {
    /// Both vendors when something could not be looked at.
    pub open spec fn uncovered(self, error: ErrorView) -> DrmState {
        DrmState { amd: self.amd.uncovered(error), intel: self.intel.uncovered(error), ..self }
    }

    /// The vendors after a card that was read.
    pub open spec fn with_card(
        self,
        name: Seq<char>,
        device: Seq<char>,
        given: CardAttributes,
        maximum: usize,
    ) -> DrmState {
        match pci_id(under(device, "vendor"@), given.vendor) {
            Err(error) => self.uncovered(error),
            Ok(vendor) => if text::lowered(vendor) == text::lowered("0x1002"@) {
                DrmState {
                    amd: self.amd.after_card(
                        card_reading(name, device, "amd"@, given),
                        maximum,
                    ),
                    ..self
                }
            } else if text::lowered(vendor) == text::lowered("0x8086"@) {
                DrmState {
                    intel: self.intel.after_card(
                        card_reading(name, device, "intel"@, given),
                        maximum,
                    ),
                    ..self
                }
            } else {
                self
            },
        }
    }

    /// The vendors after one entry more.
    pub open spec fn next(self, root: Seq<char>, entry: DrmEntry, maximum: usize) -> DrmState {
        if self.full {
            self
        } else {
            match entry {
                DrmEntry::Failed(fault) => self.uncovered(
                    failed("read DRM directory entry in"@, root, fault),
                ),
                DrmEntry::Other => self,
                DrmEntry::Card { name, look } => if self.inspected >= limit_of(maximum) {
                    DrmState { full: true, ..self.uncovered(too_many(root, maximum)) }
                } else {
                    let inspected = DrmState { inspected: self.inspected + 1, ..self };
                    match card_error(root, name@, look) {
                        Some(error) => inspected.uncovered(error),
                        None => match look {
                            CardLook::Resolved {
                                resolved,
                                root_canonical,
                                target: CardTarget::Directory(given),
                            } => inspected.with_card(name@, resolved@, given, maximum),
                            _ => inspected,
                        },
                    }
                },
            }
        }
    }
}

/// The vendors after the first `n` entries.
pub open spec fn after_entries(root: Seq<char>, entries: Seq<DrmEntry>, maximum: usize, n: int) -> DrmState
    decreases n,
{
    if n <= 0 {
        DrmState { amd: VendorView::none(), intel: VendorView::none(), inspected: 0, full: false }
    } else {
        after_entries(root, entries, maximum, n - 1).next(root, entries[n - 1], maximum)
    }
}

/// The vendors below a root.
pub open spec fn vendors(root: Seq<char>, look: DrmLook, maximum: usize) -> DrmState {
    let none = DrmState {
        amd: VendorView::none(),
        intel: VendorView::none(),
        inspected: 0,
        full: false,
    };
    match look {
        DrmLook::NotInspected(fault) => if fault.kind == IoKind::NotFound {
            none
        } else {
            none.uncovered(failed("inspect directory"@, root, fault))
        },
        DrmLook::NoDirectory => none.uncovered(
            wrong(root, "expected a directory, not a link or file"@),
        ),
        DrmLook::Unreadable(fault) => none.uncovered(failed("read directory"@, root, fault)),
        DrmLook::Entries(entries) => after_entries(root, entries@, maximum, entries@.len() as int),
    }
}

/// The list with a capability more where there is one.
pub open spec fn and_also(
    capabilities: Seq<CapabilityView>,
    more: Option<CapabilityView>,
) -> Seq<CapabilityView> {
    match more {
        Some(capability) => capabilities.push(capability),
        None => capabilities,
    }
}

/// What the two vendors come to.
pub open spec fn drm_capabilities(state: DrmState) -> Seq<CapabilityView> {
    and_also(
        and_also(
            seq![
                vendor_capability("gpu.amd"@, "linux-amdgpu-sysfs"@, state.amd),
                vendor_capability("gpu.intel"@, "linux-i915/xe-sysfs"@, state.intel),
                absent(
                    "gpu.apple"@,
                    "linux-drm"@,
                    CapabilityErrorKind::NotPresent,
                    "Apple GPU telemetry is only relevant on macOS"@,
                ),
            ],
            busy_capability("gpu.amd.utilization"@, "linux-amdgpu-sysfs"@, state.amd),
        ),
        busy_capability("gpu.intel.utilization"@, "linux-i915/xe-sysfs"@, state.intel),
    )
}

/// The graphics devices of a host, and what of them could be read.
#[derive(Debug)]
pub struct LinuxGpuResult {
    pub gpus: Vec<GpuSnapshot>,
    pub capabilities: Vec<Capability>,
}

fn uncover(amd: &mut VendorCollection, intel: &mut VendorCollection, error: CollectorError)
    ensures
        final(amd)@ == old(amd)@.uncovered(error@),
        final(intel)@ == old(intel)@.uncovered(error@),
{
    amd.record_coverage_error(error.copy());
    intel.record_coverage_error(error);
}

fn record_attributes(
    amd: &mut VendorCollection,
    intel: &mut VendorCollection,
    name: &str,
    device: &str,
    given: &CardAttributes,
    maximum: usize,
)
    requires
        old(amd).matched_devices < usize::MAX,
        old(intel).matched_devices < usize::MAX,
    ensures
        forall|state: DrmState|
            state.amd == old(amd)@ && state.intel == old(intel)@ ==> (#[trigger] state.with_card(
                name@,
                device@,
                *given,
                maximum,
            )) == (DrmState { amd: final(amd)@, intel: final(intel)@, ..state }),
        final(amd).matched_devices <= old(amd).matched_devices + 1,
        final(intel).matched_devices <= old(intel).matched_devices + 1,
{
    let vendor = match read_required_pci_id(path_under(device, "vendor").as_str(), &given.vendor) {
        Ok(vendor) => vendor,
        Err(error) => {
            uncover(amd, intel, error);
            return;
        },
    };
    if text::same_ignoring_case(vendor.as_str(), "0x1002") {
        amd.matched_devices = amd.matched_devices + 1;
        match collect_card(name, device, "amd", given) {
            Ok(reading) => amd.record_card(reading, maximum),
            Err(error) => amd.record_coverage_error(error),
        }
    } else if text::same_ignoring_case(vendor.as_str(), "0x8086") {
        intel.matched_devices = intel.matched_devices + 1;
        match collect_card(name, device, "intel", given) {
            Ok(reading) => intel.record_card(reading, maximum),
            Err(error) => intel.record_coverage_error(error),
        }
    }
}

fn record_entry(
    amd: &mut VendorCollection,
    intel: &mut VendorCollection,
    root: &str,
    name: &str,
    look: &CardLook,
    maximum: usize,
)
    requires
        old(amd).matched_devices < usize::MAX,
        old(intel).matched_devices < usize::MAX,
    ensures
        forall|state: DrmState, entry: DrmEntry, owned: String|
            state.amd == old(amd)@ && state.intel == old(intel)@ && !state.full && owned@ == name@
                && entry == (DrmEntry::Card { name: owned, look: *look }) && state.inspected
                < limit_of(maximum) ==> (#[trigger] state.next(root@, entry, maximum))
                == (#[trigger] counted(state, owned, final(amd)@, final(intel)@)),
        final(amd).matched_devices <= old(amd).matched_devices + 1,
        final(intel).matched_devices <= old(intel).matched_devices + 1,
{
    match resolve_card_device(root, name, look) {
        Some(error) => {
            uncover(amd, intel, error);
        },
        None => match look {
            CardLook::Resolved { resolved, root_canonical, target } => match target {
                CardTarget::Directory(given) => {
                    record_attributes(amd, intel, name, resolved.as_str(), given, maximum);
                    assert forall|state: DrmState|
                        state.amd == old(amd)@ && state.intel == old(intel)@ implies (
                    #[trigger] DrmState { inspected: state.inspected + 1, ..state }.with_card(
                        name@,
                        resolved@,
                        *given,
                        maximum,
                    )) == (DrmState {
                        amd: amd@,
                        intel: intel@,
                        inspected: state.inspected + 1,
                        ..state
                    }) by {}
                },
                _ => {},
            },
            _ => {},
        },
    }
}

/// The vendors after a card that was counted.
pub open spec fn counted(state: DrmState, name: String, amd: VendorView, intel: VendorView) -> DrmState {
    DrmState { amd, intel, inspected: state.inspected + 1, ..state }
}

fn record_entries(
    amd: &mut VendorCollection,
    intel: &mut VendorCollection,
    root: &str,
    entries: &Vec<DrmEntry>,
    maximum: usize,
)
    requires
        old(amd)@ == VendorView::none(),
        old(intel)@ == VendorView::none(),
    ensures
        final(amd)@ == after_entries(root@, entries@, maximum, entries@.len() as int).amd,
        final(intel)@ == after_entries(root@, entries@, maximum, entries@.len() as int).intel,
{
    let limit: usize = producer_collection_limit(maximum);
    let mut inspected: usize = 0;
    let mut full = false;
    let mut i: usize = 0;
    while i < entries.len()
        invariant
            i <= entries@.len(),
            limit == limit_of(maximum),
            inspected <= limit,
            amd.matched_devices <= inspected,
            intel.matched_devices <= inspected,
            after_entries(root@, entries@, maximum, i as int) == (DrmState {
                amd: amd@,
                intel: intel@,
                inspected: inspected as nat,
                full,
            }),
        decreases entries@.len() - i,
    {
        let ghost state = after_entries(root@, entries@, maximum, i as int);
        if !full {
            match &entries[i] {
                DrmEntry::Failed(fault) => {
                    uncover(amd, intel, io_error("read DRM directory entry in", root, fault));
                },
                DrmEntry::Other => {},
                DrmEntry::Card { name, look } => {
                    if inspected >= limit {
                        uncover(amd, intel, enumeration_limit_error(root, maximum));
                        full = true;
                    } else {
                        record_entry(amd, intel, root, name.as_str(), look, maximum);
                        proof {
                            assert(state.next(root@, entries@[i as int], maximum) == counted(
                                state,
                                *name,
                                amd@,
                                intel@,
                            ));
                        }
                        inspected = inspected + 1;
                    }
                },
            }
        }
        i += 1;
    }
}

/// What the graphics devices below a root come to. No more cards are looked at, and no more
/// snapshots kept, than a list may hold that a report cuts at `maximum`.
pub fn collect_from(root: &str, look: DrmLook, maximum: usize) -> (r: LinuxGpuResult)
    ensures
        ({
            let state = vendors(root@, look, maximum);
            &&& gpu_views(r.gpus@) == extended(state.amd.gpus, state.intel.gpus, maximum)
            &&& capability_views(r.capabilities@) == drm_capabilities(state)
        }),
{
    let mut amd = VendorCollection::none();
    let mut intel = VendorCollection::none();
    match &look {
        DrmLook::NotInspected(fault) => {
            if fault.kind != IoKind::NotFound {
                uncover(&mut amd, &mut intel, io_error("inspect directory", root, fault));
            }
        },
        DrmLook::NoDirectory => uncover(
            &mut amd,
            &mut intel,
            invalid(root, "expected a directory, not a link or file"),
        ),
        DrmLook::Unreadable(fault) => uncover(
            &mut amd,
            &mut intel,
            io_error("read directory", root, fault),
        ),
        DrmLook::Entries(entries) => record_entries(&mut amd, &mut intel, root, entries, maximum),
    }
    let mut capabilities: Vec<Capability> = Vec::new();
    capabilities.push(capability_for("gpu.amd", "linux-amdgpu-sysfs", &amd));
    capabilities.push(capability_for("gpu.intel", "linux-i915/xe-sysfs", &intel));
    capabilities.push(
        Capability::unavailable(
            "gpu.apple",
            "linux-drm",
            CapabilityErrorKind::NotPresent,
            text::owned("Apple GPU telemetry is only relevant on macOS"),
        ),
    );
    let ghost base = capability_views(capabilities@);
    match utilization_capability("gpu.amd.utilization", "linux-amdgpu-sysfs", &amd) {
        Some(capability) => capabilities.push(capability),
        None => {},
    }
    let ghost middle = capability_views(capabilities@);
    assert(middle =~= and_also(
        base,
        busy_capability("gpu.amd.utilization"@, "linux-amdgpu-sysfs"@, amd@),
    ));
    match utilization_capability("gpu.intel.utilization", "linux-i915/xe-sysfs", &intel) {
        Some(capability) => capabilities.push(capability),
        None => {},
    }
    proof {
        let state = vendors(root@, look, maximum);
        assert(capability_views(capabilities@) =~= and_also(
            middle,
            busy_capability("gpu.intel.utilization"@, "linux-i915/xe-sysfs"@, intel@),
        ));
        assert(base =~= seq![
            vendor_capability("gpu.amd"@, "linux-amdgpu-sysfs"@, state.amd),
            vendor_capability("gpu.intel"@, "linux-i915/xe-sysfs"@, state.intel),
            absent(
                "gpu.apple"@,
                "linux-drm"@,
                CapabilityErrorKind::NotPresent,
                "Apple GPU telemetry is only relevant on macOS"@,
            ),
        ]);
    }
    let mut gpus = amd.gpus;
    let ghost first = gpus@;
    let ghost second = intel.gpus@;
    extend_bounded(&mut gpus, intel.gpus, maximum);
    assert(gpu_views(gpus@) =~= extended(gpu_views(first), gpu_views(second), maximum));
    LinuxGpuResult { gpus, capabilities }
}

/// A card whose telemetry makes no sense keeps its place: wherever its device code can be read
/// there is a snapshot, and an error beside it marks the capability.
pub proof fn malformed_telemetry_keeps_the_card(
    card: Seq<char>,
    device: Seq<char>,
    vendor: Seq<char>,
    given: CardAttributes,
)
    ensures
        card_reading(card, device, vendor, given) is Ok <==> pci_id(
            under(device, "device"@),
            given.device,
        ) is Ok,
        card_reading(card, device, vendor, given) matches Ok(reading)
            ==> (reading.utilization_error is Some ==> reading.first_error is Some),
{
}

/// A vendor any of whose cards met an error is not called available, and its error is the first.
pub proof fn an_error_marks_the_capability(
    name: Seq<char>,
    source: Seq<char>,
    values: VendorView,
    error: ErrorView,
)
    ensures
        !vendor_capability(name, source, values.uncovered(error)).available,
        values.first_error is None ==> vendor_capability(
            name,
            source,
            values.uncovered(error),
        ).error_kind == Some(error.kind),
{
}

/// What an attribute holds, where it can be read and holds more than blanks.
pub open spec fn held(look: SysfsLook) -> Option<Seq<char>> {
    match look {
        SysfsLook::Text(value) => if text::trimmed(value@).len() > 0 {
            Some(text::trimmed(value@))
        } else {
            None
        },
        _ => None,
    }
}

/// An attribute is missing, or has gone.
pub open spec fn is_missing(look: SysfsLook) -> bool {
    match look {
        SysfsLook::NotInspected(fault) => fault.kind == IoKind::NotFound,
        SysfsLook::Unreadable(fault) => fault.kind == IoKind::NotFound,
        _ => false,
    }
}

/// An attribute gives what it holds; one that is missing gives nothing, and every other an error.
pub proof fn what_an_attribute_gives(path: Seq<char>, look: SysfsLook)
    ensures
        held(look) is Some ==> attribute(path, look) == Ok::<Option<Seq<char>>, ErrorView>(
            held(look),
        ),
        is_missing(look) ==> attribute(path, look) == Ok::<Option<Seq<char>>, ErrorView>(None),
        held(look) is None && !is_missing(look) ==> attribute(path, look) is Err,
{
}

/// A number is the one that its attribute writes; one that is missing is none, and every other an
/// error.
pub proof fn what_a_number_gives(path: Seq<char>, look: SysfsLook, given: FractionLook)
    ensures
        whole_number(path, look) matches Ok(Some(n)) <==> (held(look) matches Some(value)
            && text::unsigned_value(value) == Some(whole_number(path, look)->Ok_0->0 as nat)),
        (held(look) matches Some(value) && (text::unsigned_value(value) matches Some(n) && n
            <= u64::MAX)) ==> whole_number(path, look) == Ok::<Option<u64>, ErrorView>(
            Some(text::unsigned_value(held(look)->0)->0 as u64),
        ),
        whole_number(path, look) == Ok::<Option<u64>, ErrorView>(None) <==> is_missing(look),
        held(given.look) is Some ==> fraction(path, given) == match given.parsed {
            Parsed::Value(bits) => Ok::<Option<u64>, ErrorView>(Some(bits)),
            Parsed::Invalid => Err(
                wrong(path, "invalid number: "@ + held(given.look)->0),
            ),
            Parsed::NotFinite => Err(wrong(path, "number is not finite"@)),
        },
        is_missing(given.look) ==> fraction(path, given) == Ok::<Option<u64>, ErrorView>(None),
        held(given.look) is None && !is_missing(given.look) ==> fraction(path, given) is Err,
{
}

/// A device code is four hexadecimal digits behind `0x`, and is taken as it stands.
pub proof fn which_codes_are_taken(path: Seq<char>, look: SysfsLook)
    ensures
        pci_id(path, look) is Ok <==> (held(look) matches Some(value) && text::begins(value, "0x"@)
            && value.skip(2).len() == 4 && forall|i: int|
            0 <= i < 4 ==> text::is_hex(#[trigger] value.skip(2)[i])),
        pci_id(path, look) is Ok ==> pci_id(path, look)->Ok_0 == held(look)->0,
{
}

/// What a number that may be missing or broken comes to in a snapshot.
pub open spec fn shown_fraction(given: FractionLook) -> Option<u64> {
    match given.parsed {
        Parsed::Value(bits) => if held(given.look) is Some {
            Some(bits)
        } else {
            None
        },
        _ => None,
    }
}

/// What a whole number that may be missing or broken comes to in a snapshot.
pub open spec fn shown_whole(look: SysfsLook) -> Option<u64> {
    match held(look) {
        Some(value) => match text::unsigned_value(value) {
            Some(n) => if n <= u64::MAX {
                Some(n as u64)
            } else {
                None
            },
            None => None,
        },
        None => None,
    }
}

/// A card shows its own attributes, each in its own place and none in another's: how busy it is, its
/// memory and how much of it is used, its clock, and what its sensors say. It goes by its slot, or by
/// its own name where that is not told, and by its vendor and device code.
pub proof fn a_card_shows_its_own_attributes(
    card: Seq<char>,
    device: Seq<char>,
    vendor: Seq<char>,
    given: CardAttributes,
)
    requires
        pci_id(under(device, "device"@), given.device) is Ok,
    ensures
        ({
            let reading = card_reading(card, device, vendor, given)->Ok_0;
            let shown = reading.snapshot;
            let temperature = hwmon_number(device, "temp1_input"@, given.temperature);
            let power = hwmon_number(device, "power1_average"@, given.power);
            let uevent = slot(device, given.uevent);
            let busy = fraction(under(device, "gpu_busy_percent"@), given.busy);
            let total = whole_number(under(device, "mem_info_vram_total"@), given.memory_total);
            let used = whole_number(under(device, "mem_info_vram_used"@), given.memory_used);
            let clock = fraction(under(device, "gt_cur_freq_mhz"@), given.clock);
            &&& card_reading(card, device, vendor, given) is Ok
            &&& shown.utilization_percent == shown_fraction(given.busy)
            &&& shown.memory_total_bytes == shown_whole(given.memory_total)
            &&& shown.memory_used_bytes == shown_whole(given.memory_used)
            &&& shown.core_clock_mhz == shown_fraction(given.clock)
            &&& shown.temperature_celsius == match temperature {
                Ok(value) => value,
                Err(_) => None,
            }
            &&& shown.power_watts == match power {
                Ok(value) => value,
                Err(_) => None,
            }
            &&& shown.memory_clock_mhz is None
            &&& shown.pcie_rx_bytes_per_second is None
            &&& shown.pcie_tx_bytes_per_second is None
            &&& uevent matches Ok(Some(name)) ==> shown.id == name
            &&& !(uevent matches Ok(Some(_))) ==> shown.id == card
            &&& shown.vendor == vendor
            &&& shown.name == text::raised(vendor) + " "@ + held(given.device)->0
            &&& shown.source == "linux-"@ + vendor + "-sysfs"@
            &&& reading.first_error is None <==> uevent is Ok && busy is Ok && total is Ok && used
                is Ok && temperature is Ok && power is Ok && clock is Ok
            &&& reading.utilization_error is Some <==> busy is Err
        }),
{
    which_codes_are_taken(under(device, "device"@), given.device);
    what_a_number_gives(
        under(device, "mem_info_vram_total"@),
        given.memory_total,
        given.busy,
    );
    what_a_number_gives(under(device, "mem_info_vram_used"@), given.memory_used, given.clock);
    what_a_number_gives(under(device, "gpu_busy_percent"@), given.memory_total, given.busy);
    what_a_number_gives(under(device, "gt_cur_freq_mhz"@), given.memory_total, given.clock);
}

/// A sensor's number is that of the first directory that has one; a directory without it is passed
/// over, and the first that is broken ends the search.
pub proof fn the_first_sensor_counts(
    hwmon: Seq<char>,
    file: Seq<char>,
    entries: Seq<HwmonEntry>,
    n: int,
    k: int,
)
    requires
        0 <= n <= k <= entries.len(),
        forall|i: int|
            n <= i < k ==> ((#[trigger] entries[i]) matches HwmonEntry::Directory { path, number }
                && is_missing(number.look)),
    ensures
        k == entries.len() ==> first_number(hwmon, file, entries, n) == Ok::<
            Option<u64>,
            ErrorView,
        >(None),
        k < entries.len() && (entries[k] matches HwmonEntry::Directory { path, number } && held(
            number.look,
        ) is Some && number.parsed is Value) ==> first_number(hwmon, file, entries, n) == Ok::<
            Option<u64>,
            ErrorView,
        >(Some(entries[k]->Directory_number.parsed->Value_0)),
        k < entries.len() && !(entries[k] is Directory) ==> first_number(hwmon, file, entries, n)
            is Err,
    decreases k - n,
{
    if n < k {
        assert(entries[n] is Directory);
        the_first_sensor_counts(hwmon, file, entries, n + 1, k);
    }
}

/// A slot is told by the first line that names it.
pub proof fn which_line_names_the_slot(lines: Seq<Seq<char>>, key: Seq<char>, n: int, k: int)
    requires
        0 <= n <= k <= lines.len(),
        forall|i: int| n <= i < k ==> !text::begins(without_return(#[trigger] lines[i]), key),
    ensures
        k == lines.len() ==> line_value(lines, key, n) is None,
        k < lines.len() && text::begins(without_return(lines[k]), key) ==> line_value(lines, key, n)
            == Some(without_return(lines[k]).skip(key.len() as int)),
    decreases k - n,
{
    if n < k {
        which_line_names_the_slot(lines, key, n + 1, k);
    }
}

/// A card that can be looked at counts for the vendor that its code names, and for no other: it is
/// matched, and adds its snapshot, or its error where it has no device code. A card of another
/// vendor counts for none, and one whose vendor cannot be read is an error of both.
pub proof fn a_card_counts_for_its_vendor(
    state: DrmState,
    root: Seq<char>,
    name: String,
    resolved: String,
    root_canonical: String,
    given: CardAttributes,
    maximum: usize,
)
    requires
        !state.full,
        state.inspected < limit_of(maximum),
        is_allowed(root, root_canonical@, resolved@),
    ensures
        ({
            let look = CardLook::Resolved {
                resolved,
                root_canonical,
                target: CardTarget::Directory(given),
            };
            let after = state.next(root, DrmEntry::Card { name, look }, maximum);
            let vendor = pci_id(under(resolved@, "vendor"@), given.vendor);
            let amd = (vendor matches Ok(code) && text::lowered(code) == text::lowered("0x1002"@));
            let intel = (vendor matches Ok(code) && text::lowered(code) == text::lowered(
                "0x8086"@,
            )) && !amd;
            let shown = card_reading(
                name@,
                resolved@,
                if amd {
                    "amd"@
                } else {
                    "intel"@
                },
                given,
            );
            &&& after.inspected == state.inspected + 1
            &&& !after.full
            &&& amd ==> {
                &&& after.intel == state.intel
                &&& after.amd.matched_devices == state.amd.matched_devices + 1
                &&& shown matches Ok(reading) ==> after.amd.gpus == pushed(
                    state.amd.gpus,
                    reading.snapshot,
                    maximum,
                )
                &&& shown is Err ==> after.amd.gpus == state.amd.gpus && after.amd.first_error
                    is Some && after.amd.coverage_error is Some
            }
            &&& intel ==> {
                &&& after.amd == state.amd
                &&& after.intel.matched_devices == state.intel.matched_devices + 1
                &&& shown matches Ok(reading) ==> after.intel.gpus == pushed(
                    state.intel.gpus,
                    reading.snapshot,
                    maximum,
                )
                &&& shown is Err ==> after.intel.gpus == state.intel.gpus && after.intel.first_error
                    is Some && after.intel.coverage_error is Some
            }
            &&& vendor is Ok && !amd && !intel ==> after.amd == state.amd && after.intel
                == state.intel
            &&& vendor is Err ==> after.amd.first_error is Some && after.intel.first_error is Some
                && after.amd.gpus == state.amd.gpus && after.intel.gpus == state.intel.gpus
        }),
{
}

/// A card that cannot be looked at is an error of both vendors and adds no device; so is an entry
/// that cannot be read, and the first card past the limit, behind which none is looked at.
pub proof fn a_broken_card_is_an_error_of_both(
    state: DrmState,
    root: Seq<char>,
    entry: DrmEntry,
    maximum: usize,
)
    requires
        !state.full,
        entry is Failed || (entry matches DrmEntry::Card { name, look } && (state.inspected
            >= limit_of(maximum) || card_error(root, name@, look) is Some)),
    ensures
        ({
            let after = state.next(root, entry, maximum);
            &&& after.amd.gpus == state.amd.gpus
            &&& after.intel.gpus == state.intel.gpus
            &&& after.amd.first_error is Some
            &&& after.intel.first_error is Some
            &&& after.amd.coverage_error is Some
            &&& after.intel.coverage_error is Some
            &&& state.amd.first_error is Some ==> after.amd.first_error == state.amd.first_error
            &&& after.full <==> entry is Card && state.inspected >= limit_of(maximum)
        }),
        forall|other: DrmEntry| (DrmState { full: true, ..state }).next(root, other, maximum) == (
        DrmState { full: true, ..state }),
        state.next(root, DrmEntry::Other, maximum) == state,
{
}

/// Which cards are looked at: those that resolve to a directory which may be read.
pub proof fn which_cards_are_looked_at(root: Seq<char>, name: Seq<char>, look: CardLook)
    ensures
        card_error(root, name, look) is None <==> (look matches CardLook::Resolved {
            resolved,
            root_canonical,
            target,
        } && is_allowed(root, root_canonical@, resolved@) && (target is Directory || target
            is NotRead)),
        forall|canonical: Seq<char>, resolved: Seq<char>| #[trigger]
            is_allowed("/sys/class/drm"@, canonical, resolved) <==> is_within(
                resolved,
                "/sys/devices"@,
            ),
        root != "/sys/class/drm"@ ==> forall|canonical: Seq<char>, resolved: Seq<char>| #[trigger]
            is_allowed(root, canonical, resolved) <==> is_within(resolved, canonical),
{
}

/// A vendor is available exactly where it has a device and met no error; else the first error tells
/// why, or that there is no device.
pub proof fn when_a_vendor_is_available(name: Seq<char>, source: Seq<char>, values: VendorView)
    ensures
        ({
            let shown = vendor_capability(name, source, values);
            &&& shown.name == name
            &&& shown.source == source
            &&& shown.available <==> values.first_error is None && values.gpus.len() > 0
            &&& values.first_error matches Some(error) ==> shown.error_kind == Some(error.kind)
            &&& values.first_error is None && values.gpus.len() == 0 ==> shown.error_kind == Some(
                CapabilityErrorKind::NotPresent,
            )
        }),
        ({
            let shown = busy_capability(name, source, values);
            let error = if values.utilization_error is Some {
                values.utilization_error
            } else {
                values.coverage_error
            };
            &&& shown is None <==> values.matched_devices == 0 && values.gpus.len() == 0
            &&& shown matches Some(capability) ==> {
                &&& capability.available <==> error is None && exists|i: int|
                    0 <= i < values.gpus.len() && (
                    #[trigger] values.gpus[i]).utilization_percent is Some
                &&& error matches Some(why) ==> capability.error_kind == Some(why.kind)
                    && capability.message == Some(why.message)
                &&& capability.name == name
            }
        }),
{
}

/// A root that is missing has no devices; one that cannot be read is an error of both vendors; and
/// of one that can every entry is taken, in order.
pub proof fn what_a_root_shows(root: Seq<char>, look: DrmLook, maximum: usize, n: int)
    ensures
        ({
            let state = vendors(root, look, maximum);
            &&& (look matches DrmLook::NotInspected(fault) && fault.kind == IoKind::NotFound)
                ==> state.amd.first_error is None && state.intel.first_error is None
            &&& !(look is Entries) ==> state.amd.gpus.len() == 0 && state.intel.gpus.len() == 0
            &&& look is NoDirectory || look is Unreadable || (look matches DrmLook::NotInspected(
                fault,
            ) && fault.kind != IoKind::NotFound) ==> state.amd.first_error is Some
                && state.intel.first_error is Some
            &&& (look matches DrmLook::Entries(entries) && entries@.len() == 0)
                ==> state.amd.gpus.len() == 0 && state.amd.first_error is None
        }),
        look matches DrmLook::Entries(entries) ==> (0 < n <= entries@.len() ==> after_entries(
            root,
            entries@,
            maximum,
            n,
        ) == after_entries(root, entries@, maximum, n - 1).next(root, entries@[n - 1], maximum)),
        look matches DrmLook::Entries(entries) ==> vendors(root, look, maximum) == after_entries(
            root,
            entries@,
            maximum,
            entries@.len() as int,
        ),
{
}

} // verus!
