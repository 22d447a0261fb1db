//! Graphics engines as Windows counts them.

use crate::collectors::model::{
    absent, present, Capability, CapabilityErrorKind, CapabilityView, GpuSnapshot, GpuView,
};
use crate::collectors::pdh_buffer::{
    checked_items, plan_pdh_buffer, planned, validate_pdh_result, PdhBufferLayout,
};
use crate::collectors::pdh_recovery::PDH_INVALID_HANDLE_STATUS;
use crate::identifier::hex_digit;
use crate::text;
use crate::wide::{length_until_nul, utf16};
use vstd::arithmetic::power::pow;
use vstd::prelude::*;

verus! {

// ---------------------------------------------------------------------------
// Names of engines
// ---------------------------------------------------------------------------
/// A number as the counter writes it in hexadecimal.
pub open spec fn is_hex_number(s: Seq<char>) -> bool {
    let digits = s.skip(2);
    text::begins(s, "0x"@) && 0 < digits.len() <= 16 && forall|i: int|
        0 <= i < digits.len() ==> text::is_hex(#[trigger] digits[i])
}

/// A number as the counter writes it in decimal.
pub open spec fn is_small_number(s: Seq<char>) -> bool {
    0 < s.len() <= 10 && text::all_digits(s) && text::digits_value(s) <= u32::MAX
}

/// A sign that the type of an engine may have.
pub open spec fn is_type_sign(c: char) -> bool {
    text::is_digit(c) || 'a' <= c <= 'z' || 'A' <= c <= 'Z' || c == '-' || c == '_'
}

/// The type of an engine.
pub open spec fn is_engine_type(s: Seq<char>) -> bool {
    0 < s.len() <= 64 && forall|i: int| 0 <= i < s.len() ==> is_type_sign(#[trigger] s[i])
}

/// The parts of an instance's name.
pub struct InstanceParts {
    pub pid: Seq<char>,
    pub luid: Seq<char>,
    pub phys: Seq<char>,
    pub engine: Seq<char>,
    pub engine_type: Seq<char>,
}

/// The name of an instance behind the mark of its process, taken apart.
pub open spec fn parts_of(after_pid: Seq<char>) -> Option<InstanceParts> {
    match text::cut(after_pid, "_luid_"@) {
        None => None,
        Some((pid, after_luid)) => match text::cut(after_luid, "_phys_"@) {
            None => None,
            Some((luid, after_phys)) => match text::cut(after_phys, "_eng_"@) {
                None => None,
                Some((phys, after_eng)) => match text::cut(after_eng, "_engtype_"@) {
                    None => None,
                    Some((engine, engine_type)) => Some(
                        InstanceParts { pid, luid, phys, engine, engine_type },
                    ),
                },
            },
        },
    }
}

/// Every part is what it should be.
pub open spec fn well_formed(parts: InstanceParts) -> bool {
    let luid = text::pieces(parts.luid, '_');
    &&& is_small_number(parts.pid)
    &&& luid.len() == 2
    &&& is_hex_number(luid[0])
    &&& is_hex_number(luid[1])
    &&& is_small_number(parts.phys)
    &&& is_small_number(parts.engine)
    &&& is_engine_type(parts.engine_type)
}

/// The engine that the parts name, whatever the process.
pub open spec fn engine_of(parts: InstanceParts) -> Seq<char> {
    let luid = text::pieces(parts.luid, '_');
    "engine:luid_"@ + text::lowered(luid[0]) + "_"@ + text::lowered(luid[1]) + "_phys_"@
        + parts.phys + "_eng_"@ + parts.engine + "_engtype_"@ + text::lowered(parts.engine_type)
}

/// The engine that an instance's name stands for; a name that is not understood stands for
/// itself.
pub open spec fn engine_key(name: Seq<char>) -> Seq<char> {
    let alone = "instance:"@ + name;
    if !text::begins(name, "pid_"@) {
        alone
    } else {
        match parts_of(name.skip(4)) {
            None => alone,
            Some(parts) => if well_formed(parts) {
                engine_of(parts)
            } else {
                alone
            },
        }
    }
}

fn hex_number(s: &Vec<char>) -> (r: bool)
    ensures
        r == is_hex_number(s@),
{
    proof {
        reveal_strlit("0x");
    }
    let prefix = text::to_chars("0x");
    if !text::is_at(s, &prefix, 0) {
        return false;
    }
    let digits = text::range_chars(s, 2, s.len());
    assert(digits@ =~= s@.skip(2));
    if digits.len() == 0 || digits.len() > 16 {
        return false;
    }
    text::all_hex(&digits)
}

fn small_number(s: &Vec<char>) -> (r: bool)
    ensures
        r == is_small_number(s@),
{
    if s.len() == 0 || s.len() > 10 || !text::only_digits(s) {
        return false;
    }
    assert(text::is_digit(s@[0]));
    match text::parse_unsigned(s, u32::MAX as u64) {
        Some(_) => true,
        None => false,
    }
}

fn engine_type_text(s: &Vec<char>) -> (r: bool)
    ensures
        r == is_engine_type(s@),
{
    if s.len() == 0 || s.len() > 64 {
        return false;
    }
    let mut i: usize = 0;
    while i < s.len()
        invariant
            i <= s@.len(),
            forall|k: int| 0 <= k < i ==> is_type_sign(#[trigger] s@[k]),
        decreases s@.len() - i,
    {
        let c = s[i];
        if !('0' <= c && c <= '9' || 'a' <= c && c <= 'z' || 'A' <= c && c <= 'Z' || c == '-' || c
            == '_') {
            assert(!is_type_sign(s@[i as int]));
            return false;
        }
        i += 1;
    }
    true
}

fn lower_chars(s: &Vec<char>) -> (r: String)
    ensures
        r@ == text::lowered(s@),
{
    text::lower(text::from_chars(s).as_str())
}

fn understood_engine(after_pid: &Vec<char>) -> (r: Option<String>)
    ensures
        match parts_of(after_pid@) {
            Some(parts) => if well_formed(parts) {
                text::opt_view(r) == Some(engine_of(parts))
            } else {
                r is None
            },
            None => r is None,
        },
{
    let (pid, after_luid) = match text::split_once(after_pid, "_luid_") {
        Some(parts) => parts,
        None => {
            return None;
        },
    };
    let (luid, after_phys) = match text::split_once(&after_luid, "_phys_") {
        Some(parts) => parts,
        None => {
            return None;
        },
    };
    let (phys, after_eng) = match text::split_once(&after_phys, "_eng_") {
        Some(parts) => parts,
        None => {
            return None;
        },
    };
    let (engine, engine_type) = match text::split_once(&after_eng, "_engtype_") {
        Some(parts) => parts,
        None => {
            return None;
        },
    };
    let halves = text::split(&luid, '_');
    let ghost views = text::pieces(luid@, '_');
    assert(views == text::char_views(halves@));
    if halves.len() != 2 {
        return None;
    }
    assert(views[0] == halves@[0]@ && views[1] == halves@[1]@);
    if !small_number(&pid) || !hex_number(&halves[0]) || !hex_number(&halves[1]) || !small_number(
        &phys,
    ) || !small_number(&engine) || !engine_type_text(&engine_type) {
        return None;
    }
    let mut key = text::owned("engine:luid_");
    key.append(lower_chars(&halves[0]).as_str());
    key.append("_");
    key.append(lower_chars(&halves[1]).as_str());
    key.append("_phys_");
    key.append(text::from_chars(&phys).as_str());
    key.append("_eng_");
    key.append(text::from_chars(&engine).as_str());
    key.append("_engtype_");
    key.append(lower_chars(&engine_type).as_str());
    Some(key)
}

/// The engine that an instance's name stands for.
pub fn physical_engine_key(instance_name: &str) -> (r: String)
    ensures
        r@ == engine_key(instance_name@),
{
    proof {
        reveal_strlit("pid_");
    }
    match text::strip_prefix(instance_name, "pid_") {
        None => text::cat("instance:", instance_name),
        Some(rest) => {
            assert(rest@ =~= instance_name@.skip(4));
            match understood_engine(&text::to_chars(rest.as_str())) {
                Some(key) => key,
                None => text::cat("instance:", instance_name),
            }
        },
    }
}

/// The first of the names that stands for the same engine as the `i`th.
pub open spec fn leader(names: Seq<Seq<char>>, i: int, j: int) -> bool {
    &&& 0 <= j <= i
    &&& engine_key(names[j]) == engine_key(names[i])
    &&& forall|k: int| 0 <= k < j ==> engine_key(#[trigger] names[k]) != engine_key(names[i])
}

/// For each instance the first one of the same engine: what is measured of those is added up.
pub fn engine_leaders(names: &Vec<String>) -> (r: Vec<usize>)
    ensures
        r@.len() == names@.len(),
        forall|i: int|
            0 <= i < names@.len() ==> leader(text::views(names@), i, #[trigger] r@[i] as int),
{
    let ghost views = text::views(names@);
    let mut keys: Vec<String> = Vec::new();
    let mut leaders: Vec<usize> = Vec::new();
    let mut i: usize = 0;
    while i < names.len()
        invariant
            i <= names@.len(),
            views == text::views(names@),
            keys@.len() == i,
            leaders@.len() == i,
            forall|k: int| 0 <= k < i ==> (#[trigger] keys@[k])@ == engine_key(views[k]),
            forall|k: int| 0 <= k < i ==> leader(views, k, #[trigger] leaders@[k] as int),
        decreases names@.len() - i,
    {
        let key = physical_engine_key(names[i].as_str());
        assert(key@ == engine_key(views[i as int]));
        let mut j: usize = 0;
        while j < i && !text::same(keys[j].as_str(), key.as_str())
            invariant
                j <= i,
                keys@.len() == i,
                views.len() == names@.len(),
                i < names@.len(),
                key@ == engine_key(views[i as int]),
                forall|k: int| 0 <= k < i ==> (#[trigger] keys@[k])@ == engine_key(views[k]),
                forall|k: int|
                    0 <= k < j ==> engine_key(#[trigger] views[k]) != engine_key(views[i as int]),
            decreases i - j,
        {
            assert(keys@[j as int]@ == engine_key(views[j as int]));
            j += 1;
        }
        if j < i {
            assert(keys@[j as int]@ == engine_key(views[j as int]));
        }
        assert(leader(views, i as int, j as int));
        keys.push(key);
        leaders.push(j);
        i += 1;
    }
    leaders
}

proof fn lemma_no_earlier_mark(pid: Seq<char>, rest: Seq<char>, at: int)
    requires
        text::all_digits(pid),
        0 <= at <= pid.len(),
    ensures
        text::position(pid + "_luid_"@ + rest, "_luid_"@, at) == Some(pid.len() as int),
    decreases pid.len() - at,
{
    reveal_strlit("_luid_");
    let mark = "_luid_"@;
    let s = pid + mark + rest;
    if at == pid.len() {
        assert(s.subrange(at, at + mark.len()) =~= mark);
    } else {
        assert(text::is_digit(pid[at]));
        assert(s[at] == pid[at]);
        if text::stands_at(s, mark, at) {
            assert(s.subrange(at, at + mark.len())[0] == s[at]);
            assert(mark[0] == '_');
        }
        lemma_no_earlier_mark(pid, rest, at + 1);
    }
}

/// The process does not matter: what two processes use of one engine is told under one key.
pub proof fn processes_share_their_engine(one: Seq<char>, other: Seq<char>, rest: Seq<char>)
    requires
        is_small_number(one),
        is_small_number(other),
        parts_of(one + "_luid_"@ + rest) matches Some(parts) && well_formed(parts),
    ensures
        engine_key("pid_"@ + one + "_luid_"@ + rest) == engine_key(
            "pid_"@ + other + "_luid_"@ + rest,
        ),
{
    reveal_strlit("pid_");
    reveal_strlit("_luid_");
    let mark = "_luid_"@;
    let first = one + mark + rest;
    let second = other + mark + rest;
    lemma_no_earlier_mark(one, rest, 0);
    lemma_no_earlier_mark(other, rest, 0);
    assert(first.take(one.len() as int) =~= one);
    assert(second.take(other.len() as int) =~= other);
    assert(first.skip((one.len() + mark.len()) as int) =~= rest);
    assert(second.skip((other.len() + mark.len()) as int) =~= rest);
    let first_name = "pid_"@ + one + mark + rest;
    let second_name = "pid_"@ + other + mark + rest;
    assert(first_name.subrange(0, 4) =~= "pid_"@);
    assert(second_name.subrange(0, 4) =~= "pid_"@);
    assert(first_name.skip(4) =~= first);
    assert(second_name.skip(4) =~= second);
}

/// A name that is not understood is a key of its own: it shares it with no other name.
pub proof fn names_that_are_not_understood_stay_apart(one: Seq<char>, other: Seq<char>)
    requires
        engine_key(one) == "instance:"@ + one,
        engine_key(other) == "instance:"@ + other,
        engine_key(one) == engine_key(other),
    ensures
        one == other,
{
    let mark = "instance:"@;
    assert((mark + one).skip(mark.len() as int) =~= one);
    assert((mark + other).skip(mark.len() as int) =~= other);
}

// ---------------------------------------------------------------------------
// Instance names in the buffer
// ---------------------------------------------------------------------------
/// The longest name of an instance, in UTF-16 code units.
pub const MAX_PDH_INSTANCE_NAME_UTF16_UNITS: usize = 1024;

/// Why a counter could not be read.
#[derive(Debug)]
pub struct PdhReadError {
    pub message: String,
    /// The status of the call that failed.
    pub status: Option<u32>,
}

/// The eight hexadecimal digits of a status.
pub open spec fn hex8(status: u32) -> Seq<char> {
    Seq::new(8, |i: int| hex_digit(nibble(status, i)))
}

/// The hexadecimal digit of a status at a place, the highest first.
pub open spec fn nibble(status: u32, place: int) -> int {
    status as int / pow(16, (7 - place) as nat) % 16
}

fn hex_char(d: u32) -> (r: char)
    requires
        d < 16,
    ensures
        r == hex_digit(d as int),
{
    if d < 10 {
        (0x30u8 + d as u8) as char
    } else {
        (0x57u8 + d as u8) as char
    }
}

fn hex8_text(status: u32) -> (r: String)
    ensures
        r@ == hex8(status),
{
    let mut out = text::owned("");
    proof {
        reveal_strlit("");
        reveal_with_fuel(pow, 9);
    }
    out.push(hex_char(status / 0x1000_0000));
    out.push(hex_char(status / 0x100_0000 % 16));
    out.push(hex_char(status / 0x10_0000 % 16));
    out.push(hex_char(status / 0x1_0000 % 16));
    out.push(hex_char(status / 0x1000 % 16));
    out.push(hex_char(status / 0x100 % 16));
    out.push(hex_char(status / 0x10 % 16));
    out.push(hex_char(status % 16));
    assert(out@ =~= hex8(status));
    out
}

/// What is said of a call that failed.
pub open spec fn returned(operation: Seq<char>, status: u32) -> Seq<char> {
    operation + " returned 0x"@ + hex8(status)
}

impl PdhReadError {
    /// The error of a call that failed.
    pub fn status(operation: &str, status: u32) -> (r: PdhReadError)
        ensures
            r.message@ == returned(operation@, status),
            r.status == Some(status),
    {
        PdhReadError {
            message: text::cat3(operation, " returned 0x", hex8_text(status).as_str()),
            status: Some(status),
        }
    }

    /// An error about what a call returned.
    pub fn message(message: String) -> (r: PdhReadError)
        ensures
            r.message == message,
            r.status is None,
    {
        PdhReadError { message, status: None }
    }
}

/// Where the name of an instance lies, as the addresses of a buffer and a name say.
#[derive(Clone, Copy, PartialEq, Eq, Structural, Debug)]
pub struct NamePlace {
    pub name: usize,
    pub base: usize,
    pub used_bytes: usize,
    pub capacity_bytes: usize,
    /// How many bytes of the buffer the items themselves take.
    pub minimum_offset: usize,
}

/// Why the place of a name is refused.
#[derive(Clone, Copy, PartialEq, Eq, Structural, Debug)]
pub enum PlaceFault {
    OverCapacity,
    UsedOverflow,
    CapacityOverflow,
    ArrayOverflow,
    Outside,
}

impl NamePlace {
    /// Why the place is refused: the name must lie behind the items, in the bytes that are used
    /// and those in the buffer, at an even address.
    pub open spec fn fault(self) -> Option<PlaceFault> {
        if self.used_bytes > self.capacity_bytes {
            Some(PlaceFault::OverCapacity)
        } else if self.base + self.used_bytes > usize::MAX {
            Some(PlaceFault::UsedOverflow)
        } else if self.base + self.capacity_bytes > usize::MAX {
            Some(PlaceFault::CapacityOverflow)
        } else if self.base + self.minimum_offset > usize::MAX {
            Some(PlaceFault::ArrayOverflow)
        } else if self.name == 0 || self.name < self.base + self.minimum_offset || self.name
            >= self.base + self.used_bytes || self.name % 2 != 0 {
            Some(PlaceFault::Outside)
        } else {
            None
        }
    }

    /// What is said of a fault.
    pub open spec fn fault_text(self, fault: PlaceFault) -> Seq<char> {
        match fault {
            PlaceFault::OverCapacity => "PDH instance-name buffer reports "@ + text::decimal(
                self.used_bytes as nat,
            ) + " used bytes for "@ + text::decimal(self.capacity_bytes as nat)
                + " bytes of capacity"@,
            PlaceFault::UsedOverflow => "PDH instance-name buffer address overflowed"@,
            PlaceFault::CapacityOverflow =>
                "PDH instance-name buffer capacity address overflowed"@,
            PlaceFault::ArrayOverflow => "PDH instance-name array boundary overflowed"@,
            PlaceFault::Outside =>
                "PDH instance name points outside the live returned name buffer"@,
        }
    }

    fn fault_message(&self, fault: PlaceFault) -> (r: PdhReadError)
        ensures
            r.message@ == self.fault_text(fault),
            r.status is None,
    {
        PdhReadError::message(
            match fault {
                PlaceFault::OverCapacity => text::cat5(
                    "PDH instance-name buffer reports ",
                    text::decimal_text(self.used_bytes as u64).as_str(),
                    " used bytes for ",
                    text::decimal_text(self.capacity_bytes as u64).as_str(),
                    " bytes of capacity",
                ),
                PlaceFault::UsedOverflow => text::owned(
                    "PDH instance-name buffer address overflowed",
                ),
                PlaceFault::CapacityOverflow => text::owned(
                    "PDH instance-name buffer capacity address overflowed",
                ),
                PlaceFault::ArrayOverflow => text::owned(
                    "PDH instance-name array boundary overflowed",
                ),
                PlaceFault::Outside => text::owned(
                    "PDH instance name points outside the live returned name buffer",
                ),
            },
        )
    }

    /// How many code units may be read from the name on: those in the bytes that are used, and no
    /// more than the longest name with its end.
    pub fn scanned_units(&self) -> (r: Result<usize, PdhReadError>)
        ensures
            match r {
                Ok(units) => self.fault() is None && units == ({
                    let available = (self.base + self.used_bytes - self.name) / 2;
                    if available < MAX_PDH_INSTANCE_NAME_UTF16_UNITS + 1 {
                        available
                    } else {
                        MAX_PDH_INSTANCE_NAME_UTF16_UNITS + 1
                    }
                }) && self.name + 2 * units <= self.base + self.used_bytes,
                Err(error) => self.fault() matches Some(fault) && error.message@
                    == self.fault_text(fault) && error.status is None,
            },
    {
        if self.used_bytes > self.capacity_bytes {
            return Err(self.fault_message(PlaceFault::OverCapacity));
        }
        if self.used_bytes > usize::MAX - self.base {
            return Err(self.fault_message(PlaceFault::UsedOverflow));
        }
        if self.capacity_bytes > usize::MAX - self.base {
            return Err(self.fault_message(PlaceFault::CapacityOverflow));
        }
        if self.minimum_offset > usize::MAX - self.base {
            return Err(self.fault_message(PlaceFault::ArrayOverflow));
        }
        let used_end: usize = self.base + self.used_bytes;
        if self.name == 0 || self.name < self.base + self.minimum_offset || self.name >= used_end
            || self.name % 2 != 0 {
            return Err(self.fault_message(PlaceFault::Outside));
        }
        let available: usize = (used_end - self.name) / 2;
        if available < MAX_PDH_INSTANCE_NAME_UTF16_UNITS + 1 {
            Ok(available)
        } else {
            Ok(MAX_PDH_INSTANCE_NAME_UTF16_UNITS + 1)
        }
    }
}

/// `String::from_utf16`: the text that the code units encode, where they encode one.
#[verifier::external_body]
fn read_utf16(units: &Vec<u16>) -> (r: Option<String>)
    ensures
        match r {
            Some(text) => utf16(text@) == units@,
            None => forall|s: Seq<char>| #[trigger] utf16(s) != units@,
        },
{
    String::from_utf16(units.as_slice()).ok()
}

fn units_before(units: &Vec<u16>, n: usize) -> (r: Vec<u16>)
    requires
        n <= units@.len(),
    ensures
        r@ == units@.take(n as int),
{
    let mut out: Vec<u16> = Vec::new();
    let mut i: usize = 0;
    while i < n
        invariant
            i <= n <= units@.len(),
            out@ == units@.take(i as int),
        decreases n - i,
    {
        out.push(units[i]);
        i += 1;
        assert(out@ =~= units@.take(i as int));
    }
    out
}

/// The name that stands at the front of the code units, up to its end.
pub fn instance_name(units: &Vec<u16>) -> (r: Result<String, PdhReadError>)
    ensures
        match r {
            Ok(name) => exists|n: int|
                0 < n < units@.len() && #[trigger] units@[n] == 0 && (forall|i: int|
                    0 <= i < n ==> units@[i] != 0) && utf16(name@) == units@.take(n),
            Err(error) => error.status is None && ({
                ||| error.message@
                    == "PDH instance name is not NUL-terminated within 1024 UTF-16 code units"@
                    && forall|i: int| 0 <= i < units@.len() ==> #[trigger] units@[i] != 0
                ||| error.message@ == "PDH instance name is empty"@ && units@.len() > 0
                    && units@[0] == 0
                ||| error.message@ == "PDH instance name contains invalid UTF-16"@ && exists|n: int|
                    0 < n < units@.len() && #[trigger] units@[n] == 0 && (forall|i: int|
                        0 <= i < n ==> units@[i] != 0) && forall|s: Seq<char>|
                        #[trigger] utf16(s) != units@.take(n)
            }),
        },
{
    let nul: usize = length_until_nul(units);
    if nul == units.len() {
        return Err(
            PdhReadError::message(
                text::owned(
                    "PDH instance name is not NUL-terminated within 1024 UTF-16 code units",
                ),
            ),
        );
    }
    if nul == 0 {
        return Err(PdhReadError::message(text::owned("PDH instance name is empty")));
    }
    let named = units_before(units, nul);
    assert(units@[nul as int] == 0);
    match read_utf16(&named) {
        Some(name) => Ok(name),
        None => Err(
            PdhReadError::message(text::owned("PDH instance name contains invalid UTF-16")),
        ),
    }
}

// ---------------------------------------------------------------------------
// Counters
// ---------------------------------------------------------------------------
/// The status of a call that went well.
pub const ERROR_SUCCESS: u32 = 0;

/// The status of a call that needs a buffer.
pub const PDH_MORE_DATA: u32 = 0x8000_07d2;

/// What a counter array holds.
#[derive(Debug)]
pub struct FormattedValuesSummary {
    pub total_item_count: usize,
    /// The names of the instances that have a value, with the values.
    pub samples: Vec<(String, u64)>,
    pub invalid_status_count: usize,
    pub nonfinite_value_count: usize,
}

/// What to do once the size of a counter array was asked for.
#[derive(Debug)]
pub enum Sizing {
    /// There is nothing to read, but so many items are said to be there.
    Empty(usize),
    Buffer(PdhBufferLayout),
    Failed(PdhReadError),
}

/// What to do once the size of a counter array was asked for.
pub fn judge_sizing(size_result: u32, byte_len: u32, item_count: u32, item_size: usize) -> (r: Sizing)
    ensures
        if size_result != PDH_MORE_DATA || byte_len == 0 {
            if size_result == ERROR_SUCCESS {
                r == Sizing::Empty(item_count as usize)
            } else {
                r matches Sizing::Failed(error) && error.message@ == returned(
                    "PDH array sizing"@,
                    size_result,
                ) && error.status == Some(size_result)
            }
        } else {
            match planned(byte_len, item_count, item_size) {
                Ok(layout) => r == Sizing::Buffer(layout),
                Err(fault) => r matches Sizing::Failed(error) && error.message@ == fault.text()
                    && error.status is None,
            }
        },
{
    if size_result != PDH_MORE_DATA || byte_len == 0 {
        return if size_result == ERROR_SUCCESS {
            Sizing::Empty(item_count as usize)
        } else {
            Sizing::Failed(PdhReadError::status("PDH array sizing", size_result))
        };
    }
    match plan_pdh_buffer(byte_len, item_count, item_size) {
        Ok(layout) => Sizing::Buffer(layout),
        Err(fault) => Sizing::Failed(PdhReadError::message(fault.message())),
    }
}

/// How many items may be read once the array was asked for.
pub fn judge_reading(
    result: u32,
    capacity_bytes: usize,
    byte_len: u32,
    item_count: u32,
    item_size: usize,
) -> (r: Result<usize, PdhReadError>)
    ensures
        if result != ERROR_SUCCESS {
            r matches Err(error) && error.message@ == returned("PDH array read"@, result)
                && error.status == Some(result)
        } else {
            match checked_items(capacity_bytes, byte_len, item_count, item_size) {
                Ok(items) => r == Ok::<usize, PdhReadError>(items),
                Err(fault) => r matches Err(error) && error.message@ == fault.text()
                    && error.status is None,
            }
        },
{
    if result != ERROR_SUCCESS {
        return Err(PdhReadError::status("PDH array read", result));
    }
    match validate_pdh_result(capacity_bytes, byte_len, item_count, item_size) {
        Ok(items) => Ok(items),
        Err(fault) => Err(PdhReadError::message(fault.message())),
    }
}

/// One item of a counter array.
#[derive(Debug)]
pub enum ItemLook {
    /// Its status says that its value is not valid.
    InvalidStatus,
    NotFinite,
    /// A value, with its name or why that cannot be read.
    Sample { name: Result<String, PdhReadError>, value: u64 },
}

/// What the first `n` items come to: the samples and the counts of the others; the first name that
/// cannot be read ends it.
pub open spec fn summed(items: Seq<ItemLook>, n: int) -> Result<
    (Seq<(String, u64)>, nat, nat),
    PdhReadError,
>
    decreases n,
{
    if n <= 0 {
        Ok((Seq::empty(), 0nat, 0nat))
    } else {
        match summed(items, n - 1) {
            Err(error) => Err(error),
            Ok((samples, invalid, nonfinite)) => match items[n - 1] {
                ItemLook::InvalidStatus => Ok((samples, invalid + 1, nonfinite)),
                ItemLook::NotFinite => Ok((samples, invalid, nonfinite + 1)),
                ItemLook::Sample { name: Ok(name), value } => Ok(
                    (samples.push((name, value)), invalid, nonfinite),
                ),
                ItemLook::Sample { name: Err(error), .. } => Err(error),
            },
        }
    }
}

proof fn lemma_summed_fails_early(items: Seq<ItemLook>, k: int, n: int)
    requires
        0 <= k <= n,
        summed(items, k) is Err,
    ensures
        summed(items, n) == summed(items, k),
    decreases n - k,
{
    if k < n {
        lemma_summed_fails_early(items, k, n - 1);
    }
}

/// What the items of a counter array come to.
pub fn summarize(items: Vec<ItemLook>) -> (r: Result<FormattedValuesSummary, PdhReadError>)
    ensures
        match summed(items@, items@.len() as int) {
            Ok((samples, invalid, nonfinite)) => r matches Ok(summary) && summary.total_item_count
                == items@.len() && summary.samples@ == samples && summary.invalid_status_count
                == invalid && summary.nonfinite_value_count == nonfinite,
            Err(error) => r == Err::<FormattedValuesSummary, PdhReadError>(error),
        },
{
    let ghost all = items@;
    let total: usize = items.len();
    let mut rest = items;
    let mut samples: Vec<(String, u64)> = Vec::new();
    let mut invalid: usize = 0;
    let mut nonfinite: usize = 0;
    let mut i: usize = 0;
    assert(all.skip(0) =~= all);
    assert(samples@ =~= Seq::empty());
    while i < total
        invariant
            i <= total,
            all == items@,
            total == all.len(),
            rest@ == all.skip(i as int),
            invalid <= i,
            nonfinite <= i,
            summed(all, i as int) == Ok::<(Seq<(String, u64)>, nat, nat), PdhReadError>(
                (samples@, invalid as nat, nonfinite as nat),
            ),
        decreases total - i,
    {
        let item = rest.remove(0);
        assert(item == all[i as int]);
        match item {
            ItemLook::InvalidStatus => {
                invalid = invalid + 1;
            },
            ItemLook::NotFinite => {
                nonfinite = nonfinite + 1;
            },
            ItemLook::Sample { name, value } => match name {
                Ok(name) => {
                    samples.push((name, value));
                },
                Err(error) => {
                    proof {
                        lemma_summed_fails_early(all, i + 1, total as int);
                    }
                    return Err(error);
                },
            },
        }
        assert(rest@ =~= all.skip(i + 1));
        i += 1;
    }
    Ok(
        FormattedValuesSummary {
            total_item_count: total,
            samples,
            invalid_status_count: invalid,
            nonfinite_value_count: nonfinite,
        },
    )
}

/// A sum that stays within its type.
pub open spec fn added(a: int, b: int) -> int {
    if a + b > usize::MAX {
        usize::MAX as int
    } else {
        a + b
    }
}

/// What a counter array comes to, beside its utilization.
pub open spec fn wddm_capability(total: int, valid: int, invalid: int, nonfinite: int) -> CapabilityView {
    let rejected = added(invalid, nonfinite);
    let accounted = added(valid, rejected);
    if total == 0 {
        absent(
            "gpu.windows.wddm"@,
            "windows-pdh"@,
            CapabilityErrorKind::NotPresent,
            "WDDM exposed no GPU Engine instances"@,
        )
    } else if rejected == 0 && valid == total {
        present("gpu.windows.wddm"@, "windows-pdh"@)
    } else {
        absent(
            "gpu.windows.wddm"@,
            "windows-pdh"@,
            CapabilityErrorKind::InvalidData,
            "WDDM returned "@ + text::decimal(total as nat) + " GPU Engine instances: "@
                + text::decimal(valid as nat) + " valid, "@ + text::decimal(invalid as nat)
                + " invalid counter status, "@ + text::decimal(nonfinite as nat)
                + " non-finite value, "@ + text::decimal(
                (if total > accounted {
                    total - accounted
                } else {
                    0
                }) as nat,
            ) + " unclassified"@,
        )
    }
}

/// What a counter array comes to: the utilization that its samples make together, and whether all
/// of it could be used.
pub fn finish_formatted_values(summary: &FormattedValuesSummary, utilization: Option<u64>) -> (r: (
    Option<u64>,
    Capability,
))
    ensures
        r.0 == if summary.total_item_count == 0 {
            None
        } else {
            utilization
        },
        r.1@ == wddm_capability(
            summary.total_item_count as int,
            summary.samples@.len() as int,
            summary.invalid_status_count as int,
            summary.nonfinite_value_count as int,
        ),
{
    if summary.total_item_count == 0 {
        return (
            None,
            Capability::unavailable(
                "gpu.windows.wddm",
                "windows-pdh",
                CapabilityErrorKind::NotPresent,
                text::owned("WDDM exposed no GPU Engine instances"),
            ),
        );
    }
    let valid: usize = summary.samples.len();
    let rejected: usize = summary.invalid_status_count.saturating_add(
        summary.nonfinite_value_count,
    );
    if rejected == 0 && valid == summary.total_item_count {
        return (utilization, Capability::available("gpu.windows.wddm", "windows-pdh"));
    }
    let accounted: usize = valid.saturating_add(rejected);
    let unclassified: usize = summary.total_item_count.saturating_sub(accounted);
    let mut message = text::cat5(
        "WDDM returned ",
        text::decimal_text(summary.total_item_count as u64).as_str(),
        " GPU Engine instances: ",
        text::decimal_text(valid as u64).as_str(),
        " valid, ",
    );
    message.append(text::decimal_text(summary.invalid_status_count as u64).as_str());
    message.append(" invalid counter status, ");
    message.append(text::decimal_text(summary.nonfinite_value_count as u64).as_str());
    message.append(" non-finite value, ");
    message.append(text::decimal_text(unclassified as u64).as_str());
    message.append(" unclassified");
    (
        utilization,
        Capability::unavailable(
            "gpu.windows.wddm",
            "windows-pdh",
            CapabilityErrorKind::InvalidData,
            message,
        ),
    )
}

// ---------------------------------------------------------------------------
// A round of collection
// ---------------------------------------------------------------------------
/// The capability where there is no query: it may come back where there ever was one.
pub fn session_unavailable(error: String, ever_succeeded: bool) -> (r: Capability)
    ensures
        r@ == absent(
            "gpu.windows.wddm"@,
            "windows-pdh"@,
            if ever_succeeded {
                CapabilityErrorKind::Transient
            } else {
                CapabilityErrorKind::Unsupported
            },
            error@,
        ),
{
    let kind = if ever_succeeded {
        CapabilityErrorKind::Transient
    } else {
        CapabilityErrorKind::Unsupported
    };
    Capability::unavailable("gpu.windows.wddm", "windows-pdh", kind, error)
}

/// The capability where a query could not be read, and whether the query has to be built anew.
pub fn reading_unavailable(error: &PdhReadError) -> (r: (Capability, bool))
    ensures
        r.0@ == absent(
            "gpu.windows.wddm"@,
            "windows-pdh"@,
            CapabilityErrorKind::Transient,
            error.message@,
        ),
        r.1 == (error.status == Some(PDH_INVALID_HANDLE_STATUS)),
{
    let rebuild = match error.status {
        Some(status) => status == PDH_INVALID_HANDLE_STATUS,
        None => false,
    };
    (
        Capability::unavailable(
            "gpu.windows.wddm",
            "windows-pdh",
            CapabilityErrorKind::Transient,
            error.message.clone(),
        ),
        rebuild,
    )
}

/// The error of a query that could not be collected.
pub fn collection_failed(status: u32) -> (r: PdhReadError)
    ensures
        r.message@ == returned("PdhCollectQueryData"@, status),
        r.status == Some(status),
{
    PdhReadError::status("PdhCollectQueryData", status)
}

/// The one device that Windows counts for all.
pub open spec fn wddm_gpu(utilization: u64) -> GpuView {
    GpuView {
        id: "windows-wddm"@,
        vendor: "unknown"@,
        name: "Windows WDDM GPU"@,
        utilization_percent: Some(utilization),
        memory_total_bytes: None,
        memory_used_bytes: None,
        temperature_celsius: None,
        power_watts: None,
        core_clock_mhz: None,
        memory_clock_mhz: None,
        pcie_rx_bytes_per_second: None,
        pcie_tx_bytes_per_second: None,
        source: "windows-pdh-gpu-engine"@,
    }
}

/// The one device that Windows counts for all.
pub fn wddm_snapshot(utilization: u64) -> (r: GpuSnapshot)
    ensures
        r@ == wddm_gpu(utilization),
{
    GpuSnapshot {
        id: text::owned("windows-wddm"),
        vendor: text::owned("unknown"),
        name: text::owned("Windows WDDM GPU"),
        utilization_percent: Some(utilization),
        memory_total_bytes: None,
        memory_used_bytes: None,
        temperature_celsius: None,
        power_watts: None,
        core_clock_mhz: None,
        memory_clock_mhz: None,
        pcie_rx_bytes_per_second: None,
        pcie_tx_bytes_per_second: None,
        source: text::owned("windows-pdh-gpu-engine"),
    }
}

/// A name of an instance is read only from the live part of the buffer behind the items: it begins
/// there, at an even address, and not a unit beyond its end is read, nor more than the longest name
/// with its end.
pub proof fn a_name_is_read_inside_the_buffer(place: NamePlace, r: Result<usize, PdhReadError>)
    requires
        call_ensures(NamePlace::scanned_units, (&place,), r),
    ensures
        r is Ok <==> {
            &&& place.used_bytes <= place.capacity_bytes
            &&& place.base + place.capacity_bytes <= usize::MAX
            &&& place.base + place.minimum_offset <= usize::MAX
            &&& place.name != 0
            &&& place.base + place.minimum_offset <= place.name < place.base + place.used_bytes
            &&& place.name % 2 == 0
        },
        r matches Ok(units) ==> {
            &&& place.name + 2 * units <= place.base + place.used_bytes
            &&& units <= 1025
            &&& units < 1025 ==> place.name + 2 * units + 2 > place.base + place.used_bytes
        },
{
}

/// Nothing is lost in the count: every item is a sample, an invalid status or a value that is not
/// finite, and the first name that cannot be read is the error of all.
pub proof fn every_item_is_counted(items: Seq<ItemLook>, n: int)
    requires
        0 <= n <= items.len(),
    ensures
        summed(items, n) is Ok <==> forall|i: int|
            0 <= i < n ==> !(#[trigger] items[i] matches ItemLook::Sample { name: Err(_), .. }),
        summed(items, n) matches Ok((samples, invalid, nonfinite)) ==> {
            &&& samples.len() + invalid + nonfinite == n
            &&& samples == samples_in(items, n)
            &&& invalid == of_kind(items, n, |item: ItemLook| item is InvalidStatus)
            &&& nonfinite == of_kind(items, n, |item: ItemLook| item is NotFinite)
        },
    decreases n,
{
    reveal(Seq::filter);
    if n > 0 {
        every_item_is_counted(items, n - 1);
        assert(items.take(n).drop_last() =~= items.take(n - 1));
        assert(items.take(n).last() == items[n - 1]);
    }
}

/// The names and values of the samples among the first `n` items, in their order.
pub open spec fn samples_in(items: Seq<ItemLook>, n: int) -> Seq<(String, u64)>
    decreases n,
{
    if n <= 0 {
        Seq::empty()
    } else {
        samples_in(items, n - 1) + match items[n - 1] {
            ItemLook::Sample { name: Ok(name), value } => seq![(name, value)],
            _ => Seq::empty(),
        }
    }
}

/// How many of the first `n` items are of a kind.
pub open spec fn of_kind(items: Seq<ItemLook>, n: int, kind: spec_fn(ItemLook) -> bool) -> nat {
    items.take(n).filter(kind).len()
}

/// Utilization is available exactly where there are engines and each of them gave a value; no
/// engine at all means that there is nothing to measure, and any other count is invalid data.
pub proof fn when_utilization_is_available(
    summary: FormattedValuesSummary,
    utilization: Option<u64>,
    r: (Option<u64>, Capability),
)
    requires
        call_ensures(finish_formatted_values, (&summary, utilization), r),
    ensures
        ({
            let total = summary.total_item_count;
            let whole = summary.samples@.len() == total && summary.invalid_status_count == 0
                && summary.nonfinite_value_count == 0;
            &&& total == 0 ==> r.0 is None
            &&& total > 0 ==> r.0 == utilization
            &&& r.1@.name == "gpu.windows.wddm"@
            &&& r.1@.available <==> total > 0 && whole
            &&& total == 0 ==> r.1@.error_kind == Some(CapabilityErrorKind::NotPresent)
            &&& total > 0 && !whole ==> r.1@.error_kind == Some(CapabilityErrorKind::InvalidData)
        }),
{
}

/// A sizing that reports more data is planned for; one that reports success and no data says that
/// there is nothing; any other is told with its status.
pub proof fn what_a_sizing_comes_to(
    size_result: u32,
    byte_len: u32,
    item_count: u32,
    item_size: usize,
    r: Sizing,
)
    requires
        call_ensures(judge_sizing, (size_result, byte_len, item_count, item_size), r),
    ensures
        r is Buffer <==> size_result == 0x8000_07d2 && byte_len > 0 && planned(
            byte_len,
            item_count,
            item_size,
        ) is Ok,
        r is Empty <==> size_result == 0,
        r matches Sizing::Empty(items) ==> items == item_count,
        r matches Sizing::Failed(error) ==> (error.status == Some(size_result) || error.status
            is None && size_result == 0x8000_07d2 && byte_len > 0),
{
}

/// Counters that cannot be opened are unsupported, unless they were once read: then they are gone
/// for a while.
pub proof fn when_counters_are_unsupported(error: String, ever_succeeded: bool, r: Capability)
    requires
        call_ensures(session_unavailable, (error, ever_succeeded), r),
    ensures
        !r@.available,
        r@.error_kind == Some(CapabilityErrorKind::Transient) <==> ever_succeeded,
        r@.error_kind == Some(CapabilityErrorKind::Unsupported) <==> !ever_succeeded,
        r@.message == Some(error@),
{
}

/// An engine that is understood is known by its adapter, its node and its kind, in small letters;
/// the process that uses it is not in its key.
pub proof fn what_an_engine_is_known_by(name: Seq<char>, parts: InstanceParts)
    requires
        text::begins(name, "pid_"@),
        parts_of(name.skip(4)) == Some(parts),
    ensures
        ({
            let luid = text::pieces(parts.luid, '_');
            let understood = is_small_number(parts.pid) && luid.len() == 2 && is_hex_number(luid[0])
                && is_hex_number(luid[1]) && is_small_number(parts.phys) && is_small_number(
                parts.engine,
            ) && is_engine_type(parts.engine_type);
            &&& understood ==> engine_key(name) == "engine:luid_"@ + text::lowered(luid[0]) + "_"@
                + text::lowered(luid[1]) + "_phys_"@ + parts.phys + "_eng_"@ + parts.engine
                + "_engtype_"@ + text::lowered(parts.engine_type)
            &&& !understood ==> engine_key(name) == "instance:"@ + name
        }),
{
}

/// A name that does not begin as one of an engine, or that lacks one of its marks, stands for
/// itself.
pub proof fn which_names_stand_for_themselves(name: Seq<char>)
    ensures
        !text::begins(name, "pid_"@) ==> engine_key(name) == "instance:"@ + name,
        parts_of(name.skip(4)) is None ==> engine_key(name) == "instance:"@ + name,
{
}

/// The parts of a name stand between its marks, in their order.
pub proof fn where_the_parts_of_a_name_stand(after_pid: Seq<char>)
    ensures
        parts_of(after_pid) matches Some(parts) ==> after_pid == parts.pid + "_luid_"@ + (parts.luid
            + "_phys_"@ + (parts.phys + "_eng_"@ + (parts.engine + "_engtype_"@
            + parts.engine_type))),
{
    text::a_text_is_cut_at_the_first_mark(after_pid, "_luid_"@);
    if let Some((_, after_luid)) = text::cut(after_pid, "_luid_"@) {
        text::a_text_is_cut_at_the_first_mark(after_luid, "_phys_"@);
        if let Some((_, after_phys)) = text::cut(after_luid, "_phys_"@) {
            text::a_text_is_cut_at_the_first_mark(after_phys, "_eng_"@);
            if let Some((_, after_eng)) = text::cut(after_phys, "_eng_"@) {
                text::a_text_is_cut_at_the_first_mark(after_eng, "_engtype_"@);
            }
        }
    }
}

} // verus!
