//! The access lists of the agent's program and state directories, in the security descriptor
//! definition language.

use crate::text;
use vstd::prelude::*;

verus! {

// ---------------------------------------------------------------------------
// Templates
// ---------------------------------------------------------------------------
/// The descriptor of the program directory: the system and the administrators have full access,
/// users and the service may read and execute.
pub open spec fn program_descriptor(service_sid: Seq<char>) -> Seq<char> {
    "O:SYD:P(A;OICI;FA;;;SY)(A;OICI;FA;;;BA)(A;OICI;0x1200a9;;;BU)(A;OICI;0x1200a9;;;"@
        + service_sid + ")"@
}

/// The descriptor of the program directory.
pub fn program_security_descriptor(service_sid: &str) -> (r: String)
    ensures
        r@ == program_descriptor(service_sid@),
{
    text::cat3(
        "O:SYD:P(A;OICI;FA;;;SY)(A;OICI;FA;;;BA)(A;OICI;0x1200a9;;;BU)(A;OICI;0x1200a9;;;",
        service_sid,
        ")",
    )
}

/// The descriptor of the state directory: the system and the administrators have full access,
/// the service may modify where it is named, and an owner may only read the descriptor.
pub open spec fn state_descriptor(service_sid: Option<Seq<char>>) -> Seq<char> {
    match service_sid {
        Some(sid) => "O:SYD:P(A;OICI;FA;;;SY)(A;OICI;FA;;;BA)"@ + ("(A;OICI;0x1301bf;;;"@ + sid
            + ")"@) + "(A;OICI;RC;;;OW)"@,
        None => "O:SYD:P(A;OICI;FA;;;SY)(A;OICI;FA;;;BA)"@ + "(A;OICI;RC;;;OW)"@,
    }
}

/// The descriptor of the state directory.
pub fn managed_state_security_descriptor(service_sid: Option<&str>) -> (r: String)
    ensures
        r@ == state_descriptor(
            match service_sid {
                Some(sid) => Some(sid@),
                None => None,
            },
        ),
{
    match service_sid {
        Some(sid) => {
            let ace = text::cat3("(A;OICI;0x1301bf;;;", sid, ")");
            text::cat3(
                "O:SYD:P(A;OICI;FA;;;SY)(A;OICI;FA;;;BA)",
                ace.as_str(),
                "(A;OICI;RC;;;OW)",
            )
        },
        None => text::cat("O:SYD:P(A;OICI;FA;;;SY)(A;OICI;FA;;;BA)", "(A;OICI;RC;;;OW)"),
    }
}

// ---------------------------------------------------------------------------
// Reading
// ---------------------------------------------------------------------------
/// Whose access list it is.
#[derive(Clone, Copy, PartialEq, Eq, Structural, Debug)]
pub enum DaclKind {
    Program,
    State,
}

/// Who is granted access.
#[derive(Clone, Copy, PartialEq, Eq, Structural, Debug)]
pub enum Party {
    System,
    Administrators,
    Users,
    OwnerRights,
    Service,
}

/// What is wrong with a descriptor.
#[derive(Debug)]
pub enum DaclFault {
    /// The owner is not the system.
    Owner,
    NoDacl,
    NoEntries,
    NotProtected,
    /// An entry has not the form that all of them have.
    Form { ace: String },
    Flags { ace: String },
    ObjectSpecific { ace: String },
    Duplicate(Party),
    Rights(Party),
    Trustee { trustee: String },
    Incomplete,
    ServiceMissing,
    ServicePresent,
}

/// The contents of [`DaclFault`].
pub enum DaclFaultView {
    Owner,
    NoDacl,
    NoEntries,
    NotProtected,
    Form(Seq<char>),
    Flags(Seq<char>),
    ObjectSpecific(Seq<char>),
    Duplicate(Party),
    Rights(Party),
    Trustee(Seq<char>),
    Incomplete,
    ServiceMissing,
    ServicePresent,
}

impl View for DaclFault {
    type V = DaclFaultView;

    open spec fn view(&self) -> DaclFaultView {
        match self {
            DaclFault::Owner => DaclFaultView::Owner,
            DaclFault::NoDacl => DaclFaultView::NoDacl,
            DaclFault::NoEntries => DaclFaultView::NoEntries,
            DaclFault::NotProtected => DaclFaultView::NotProtected,
            DaclFault::Form { ace } => DaclFaultView::Form(ace@),
            DaclFault::Flags { ace } => DaclFaultView::Flags(ace@),
            DaclFault::ObjectSpecific { ace } => DaclFaultView::ObjectSpecific(ace@),
            DaclFault::Duplicate(party) => DaclFaultView::Duplicate(*party),
            DaclFault::Rights(party) => DaclFaultView::Rights(*party),
            DaclFault::Trustee { trustee } => DaclFaultView::Trustee(trustee@),
            DaclFault::Incomplete => DaclFaultView::Incomplete,
            DaclFault::ServiceMissing => DaclFaultView::ServiceMissing,
            DaclFault::ServicePresent => DaclFaultView::ServicePresent,
        }
    }
}

/// Who has been granted access so far.
#[derive(Clone, Copy, PartialEq, Eq, Structural, Debug)]
pub struct Granted {
    pub system: bool,
    pub administrators: bool,
    pub users: bool,
    pub owner_rights: bool,
    pub service: bool,
}

impl Granted {
    /// Nobody.
    pub open spec fn nobody() -> Granted {
        Granted {
            system: false,
            administrators: false,
            users: false,
            owner_rights: false,
            service: false,
        }
    }

    /// Whether the party is among them.
    pub open spec fn has(self, party: Party) -> bool {
        match party {
            Party::System => self.system,
            Party::Administrators => self.administrators,
            Party::Users => self.users,
            Party::OwnerRights => self.owner_rights,
            Party::Service => self.service,
        }
    }

    /// With the party among them.
    pub open spec fn with(self, party: Party) -> Granted {
        match party {
            Party::System => Granted { system: true, ..self },
            Party::Administrators => Granted { administrators: true, ..self },
            Party::Users => Granted { users: true, ..self },
            Party::OwnerRights => Granted { owner_rights: true, ..self },
            Party::Service => Granted { service: true, ..self },
        }
    }

    fn holds(&self, party: Party) -> (r: bool)
        ensures
            r == self.has(party),
    {
        match party {
            Party::System => self.system,
            Party::Administrators => self.administrators,
            Party::Users => self.users,
            Party::OwnerRights => self.owner_rights,
            Party::Service => self.service,
        }
    }

    fn add(self, party: Party) -> (r: Granted)
        ensures
            r == self.with(party),
    {
        match party {
            Party::System => Granted { system: true, ..self },
            Party::Administrators => Granted { administrators: true, ..self },
            Party::Users => Granted { users: true, ..self },
            Party::OwnerRights => Granted { owner_rights: true, ..self },
            Party::Service => Granted { service: true, ..self },
        }
    }
}

/// Who a trustee is, by its short name or its identifier.
pub open spec fn party_of(kind: DaclKind, trustee: Seq<char>, service_sid: Seq<char>) -> Option<
    Party,
> {
    if trustee == "SY"@ || trustee == "S-1-5-18"@ {
        Some(Party::System)
    } else if trustee == "BA"@ || trustee == "S-1-5-32-544"@ {
        Some(Party::Administrators)
    } else if kind == DaclKind::Program && (trustee == "BU"@ || trustee == "S-1-5-32-545"@) {
        Some(Party::Users)
    } else if kind == DaclKind::State && (trustee == "OW"@ || trustee == "S-1-3-4"@) {
        Some(Party::OwnerRights)
    } else if trustee == service_sid {
        Some(Party::Service)
    } else {
        None
    }
}

fn find_party(kind: DaclKind, trustee: &str, service_sid: &str) -> (r: Option<Party>)
    ensures
        r == party_of(kind, trustee@, service_sid@),
{
    if text::same(trustee, "SY") || text::same(trustee, "S-1-5-18") {
        Some(Party::System)
    } else if text::same(trustee, "BA") || text::same(trustee, "S-1-5-32-544") {
        Some(Party::Administrators)
    } else if kind == DaclKind::Program && (text::same(trustee, "BU") || text::same(
        trustee,
        "S-1-5-32-545",
    )) {
        Some(Party::Users)
    } else if kind == DaclKind::State && (text::same(trustee, "OW") || text::same(
        trustee,
        "S-1-3-4",
    )) {
        Some(Party::OwnerRights)
    } else if text::same(trustee, service_sid) {
        Some(Party::Service)
    } else {
        None
    }
}

/// The rights are exactly those that the party is to have.
pub open spec fn rights_fit(kind: DaclKind, party: Party, rights: Seq<char>) -> bool {
    match party {
        Party::System | Party::Administrators => rights == "FA"@,
        Party::OwnerRights => rights == "RC"@,
        Party::Users => rights == "0x1200a9"@ || rights == "0x001200a9"@,
        Party::Service => match kind {
            DaclKind::Program => rights == "0x1200a9"@ || rights == "0x001200a9"@,
            DaclKind::State => rights == "0x1301bf"@ || rights == "0x001301bf"@,
        },
    }
}

fn check_rights(kind: DaclKind, party: Party, rights: &str) -> (r: bool)
    ensures
        r == rights_fit(kind, party, rights@),
{
    match party {
        Party::System | Party::Administrators => text::same(rights, "FA"),
        Party::OwnerRights => text::same(rights, "RC"),
        Party::Users => text::same(rights, "0x1200a9") || text::same(rights, "0x001200a9"),
        Party::Service => match kind {
            DaclKind::Program => text::same(rights, "0x1200a9") || text::same(
                rights,
                "0x001200a9",
            ),
            DaclKind::State => text::same(rights, "0x1301bf") || text::same(rights, "0x001301bf"),
        },
    }
}

/// The entry in what follows an opening bracket: up to the closing one.
pub open spec fn ace_of(piece: Seq<char>) -> Seq<char> {
    piece.take(text::first_index(piece, ')'))
}

/// The fields of an entry.
pub open spec fn fields_of(piece: Seq<char>) -> Seq<Seq<char>> {
    text::pieces(ace_of(piece), ';')
}

/// What comes of one more entry: it must allow access, pass it on to files and directories alike,
/// name no object type, and grant a party that has none yet exactly its rights.
pub open spec fn granted_by(
    kind: DaclKind,
    piece: Seq<char>,
    service_sid: Seq<char>,
    granted: Granted,
) -> Result<Granted, DaclFaultView> {
    let ace = ace_of(piece);
    let fields = fields_of(piece);
    let inherits = fields[1] == "OICI"@ || fields[1] == "CIOI"@;
    let plain = fields[3].len() == 0 && fields[4].len() == 0;
    if fields.len() != 6 || fields[0] != "A"@ {
        Err(DaclFaultView::Form(ace))
    } else if !inherits {
        Err(
            match kind {
                DaclKind::Program => DaclFaultView::Form(ace),
                DaclKind::State => DaclFaultView::Flags(ace),
            },
        )
    } else if !plain {
        Err(
            match kind {
                DaclKind::Program => DaclFaultView::Form(ace),
                DaclKind::State => DaclFaultView::ObjectSpecific(ace),
            },
        )
    } else {
        match party_of(kind, fields[5], service_sid) {
            None => Err(DaclFaultView::Trustee(fields[5])),
            Some(party) => if granted.has(party) {
                Err(DaclFaultView::Duplicate(party))
            } else if !rights_fit(kind, party, fields[2]) {
                Err(DaclFaultView::Rights(party))
            } else {
                Ok(granted.with(party))
            },
        }
    }
}

/// What comes of the first `n` entries.
pub open spec fn granted_to(
    kind: DaclKind,
    entries: Seq<Seq<char>>,
    service_sid: Seq<char>,
    n: int,
) -> Result<Granted, DaclFaultView>
    decreases n,
{
    if n <= 0 {
        Ok(Granted::nobody())
    } else {
        match granted_to(kind, entries, service_sid, n - 1) {
            Err(fault) => Err(fault),
            Ok(granted) => granted_by(kind, entries[n - 1], service_sid, granted),
        }
    }
}

/// `seen` sees a fault by its contents.
pub open spec fn seen<T>(r: Result<T, DaclFault>) -> Result<T, DaclFaultView> {
    match r {
        Ok(value) => Ok(value),
        Err(fault) => Err(fault@),
    }
}

/// The first position of `c`, or the length.
fn index_of(chars: &Vec<char>, c: char) -> (r: usize)
    ensures
        r == text::first_index(chars@, c),
        r <= chars@.len(),
{
    let mut i: usize = 0;
    assert(chars@.skip(0) == chars@);
    while i < chars.len() && chars[i] != c
        invariant
            i <= chars@.len(),
            text::first_index(chars@, c) == i + text::first_index(chars@.skip(i as int), c),
        decreases chars@.len() - i,
    {
        assert(chars@.skip(i as int).drop_first() == chars@.skip(i + 1));
        i += 1;
    }
    i
}

/// Take one more entry.
fn take_entry(kind: DaclKind, piece: &Vec<char>, service_sid: &str, granted: Granted) -> (r: Result<
    Granted,
    DaclFault,
>)
    ensures
        seen(r) == granted_by(kind, piece@, service_sid@, granted),
{
    let end: usize = index_of(piece, ')');
    let ace = text::range_chars(piece, 0, end);
    assert(ace@ == ace_of(piece@));
    let fields = text::split(&ace, ';');
    let ghost views = text::char_views(fields@);
    assert(views == fields_of(piece@));
    if fields.len() != 6 {
        assert(views.len() != 6);
        return Err(DaclFault::Form { ace: text::from_chars(&ace) });
    }
    assert(views[0] == fields@[0]@ && views[1] == fields@[1]@ && views[2] == fields@[2]@ && views[3]
        == fields@[3]@ && views[4] == fields@[4]@ && views[5] == fields@[5]@);
    if !text::same(text::from_chars(&fields[0]).as_str(), "A") {
        return Err(DaclFault::Form { ace: text::from_chars(&ace) });
    }
    let flags = text::from_chars(&fields[1]);
    if !text::same(flags.as_str(), "OICI") && !text::same(flags.as_str(), "CIOI") {
        return Err(
            match kind {
                DaclKind::Program => DaclFault::Form { ace: text::from_chars(&ace) },
                DaclKind::State => DaclFault::Flags { ace: text::from_chars(&ace) },
            },
        );
    }
    if fields[3].len() != 0 || fields[4].len() != 0 {
        return Err(
            match kind {
                DaclKind::Program => DaclFault::Form { ace: text::from_chars(&ace) },
                DaclKind::State => DaclFault::ObjectSpecific { ace: text::from_chars(&ace) },
            },
        );
    }
    let trustee = text::from_chars(&fields[5]);
    match find_party(kind, trustee.as_str(), service_sid) {
        None => Err(DaclFault::Trustee { trustee }),
        Some(party) => {
            if granted.holds(party) {
                return Err(DaclFault::Duplicate(party));
            }
            if !check_rights(kind, party, text::from_chars(&fields[2]).as_str()) {
                return Err(DaclFault::Rights(party));
            }
            Ok(granted.add(party))
        },
    }
}

/// The access list behind the first `D:`; that of a state directory ends where another begins.
pub open spec fn dacl_text(kind: DaclKind, sddl: Seq<char>, dacl: Option<Seq<char>>) -> bool {
    let mark = "D:"@;
    match dacl {
        None => text::first_at(sddl, mark, None),
        Some(found) => exists|at: int| #[trigger]
            text::first_at(sddl, mark, Some(at)) && {
                let rest = sddl.skip(at + mark.len());
                match kind {
                    DaclKind::Program => found == rest,
                    DaclKind::State => (text::first_at(rest, mark, None) && found == rest) || exists|
                        next: int,
                    | #[trigger]
                        text::first_at(rest, mark, Some(next)) && found == rest.take(next),
                }
            },
    }
}

fn find_dacl(kind: DaclKind, sddl: &Vec<char>) -> (r: Option<Vec<char>>)
    ensures
        dacl_text(
            kind,
            sddl@,
            match r {
                Some(dacl) => Some(dacl@),
                None => None,
            },
        ),
{
    let mark = text::to_chars("D:");
    match text::find(sddl, &mark) {
        None => None,
        Some(at) => {
            assert(text::stands_at(sddl@, mark@, at as int));
            assert(at + mark@.len() <= sddl.len());
            let rest = text::range_chars(sddl, at + mark.len(), sddl.len());
            assert(rest@ == sddl@.skip(at + mark@.len()));
            assert(text::first_at(sddl@, mark@, Some(at as int)));
            match kind {
                DaclKind::Program => Some(rest),
                DaclKind::State => match text::find(&rest, &mark) {
                    None => Some(rest),
                    Some(next) => {
                        assert(text::stands_at(rest@, mark@, next as int));
                        let dacl = text::range_chars(&rest, 0, next);
                        assert(dacl@ == rest@.take(next as int));
                        assert(text::first_at(rest@, mark@, Some(next as int)));
                        Some(dacl)
                    },
                },
            }
        },
    }
}

/// Who the access list grants access, given the list: it must be protected from what a parent
/// directory passes on.
pub open spec fn list_verdict(kind: DaclKind, dacl: Seq<char>, service_sid: Seq<char>) -> Result<
    Granted,
    DaclFaultView,
> {
    let parts = text::pieces(dacl, '(');
    if parts.len() < 2 {
        Err(DaclFaultView::NoEntries)
    } else if parts[0] != "P"@ {
        Err(DaclFaultView::NotProtected)
    } else {
        granted_to(kind, parts.drop_first(), service_sid, parts.len() - 1)
    }
}

/// The first fault among the entries is the fault of them all.
proof fn lemma_fault_stays(
    kind: DaclKind,
    entries: Seq<Seq<char>>,
    service_sid: Seq<char>,
    n: int,
    m: int,
)
    requires
        0 <= n <= m,
        granted_to(kind, entries, service_sid, n) is Err,
    ensures
        granted_to(kind, entries, service_sid, m) == granted_to(kind, entries, service_sid, n),
    decreases m - n,
{
    if n < m {
        lemma_fault_stays(kind, entries, service_sid, n, m - 1);
    }
}

fn read_list(kind: DaclKind, dacl: &Vec<char>, service_sid: &str) -> (r: Result<Granted, DaclFault>)
    ensures
        seen(r) == list_verdict(kind, dacl@, service_sid@),
{
    let parts = text::split(dacl, '(');
    let ghost views = text::char_views(parts@);
    assert(views == text::pieces(dacl@, '('));
    if parts.len() < 2 {
        assert(views.len() < 2);
        return Err(DaclFault::NoEntries);
    }
    assert(views[0] == parts@[0]@);
    if !text::same(text::from_chars(&parts[0]).as_str(), "P") {
        return Err(DaclFault::NotProtected);
    }
    let ghost entries = views.drop_first();
    let mut granted = Granted {
        system: false,
        administrators: false,
        users: false,
        owner_rights: false,
        service: false,
    };
    let mut i: usize = 1;
    while i < parts.len()
        invariant
            1 <= i <= parts@.len(),
            views == text::char_views(parts@),
            views == text::pieces(dacl@, '('),
            views.len() >= 2,
            views[0] == "P"@,
            entries == views.drop_first(),
            granted_to(kind, entries, service_sid@, i - 1) == Ok::<Granted, DaclFaultView>(granted),
        decreases parts@.len() - i,
    {
        assert(entries[i - 1] == parts@[i as int]@);
        match take_entry(kind, &parts[i], service_sid, granted) {
            Err(fault) => {
                proof {
                    lemma_fault_stays(kind, entries, service_sid@, i as int, views.len() - 1);
                }
                return Err(fault);
            },
            Ok(more) => {
                granted = more;
            },
        }
        i += 1;
    }
    Ok(granted)
}

/// The verdict on a descriptor by whom it grants access.
pub open spec fn complete(kind: DaclKind, granted: Granted, with_service: bool) -> Option<
    DaclFaultView,
> {
    match kind {
        DaclKind::Program => if granted.system && granted.administrators && granted.users
            && granted.service {
            None
        } else {
            Some(DaclFaultView::Incomplete)
        },
        DaclKind::State => if !(granted.system && granted.administrators && granted.owner_rights) {
            Some(DaclFaultView::Incomplete)
        } else if with_service && !granted.service {
            Some(DaclFaultView::ServiceMissing)
        } else if !with_service && granted.service {
            Some(DaclFaultView::ServicePresent)
        } else {
            None
        },
    }
}

/// The verdict on a descriptor: the system owns the files, and the protected access list grants
/// exactly the parties of the template exactly their rights. For the state directory
/// `with_service` tells whether the service is among them.
pub open spec fn descriptor_verdict(
    kind: DaclKind,
    sddl: Seq<char>,
    service_sid: Seq<char>,
    with_service: bool,
    verdict: Result<(), DaclFaultView>,
) -> bool {
    if !text::begins(sddl, "O:SY"@) {
        verdict == Err::<(), DaclFaultView>(DaclFaultView::Owner)
    } else {
        exists|dacl: Option<Seq<char>>| #[trigger]
            dacl_text(kind, sddl, dacl) && verdict == match dacl {
                None => Err::<(), DaclFaultView>(DaclFaultView::NoDacl),
                Some(dacl) => match list_verdict(kind, dacl, service_sid) {
                    Err(fault) => Err(fault),
                    Ok(granted) => match complete(kind, granted, with_service) {
                        Some(fault) => Err(fault),
                        None => Ok(()),
                    },
                },
            }
    }
}

fn check_descriptor(kind: DaclKind, sddl: &str, service_sid: &str, with_service: bool) -> (r:
    Result<(), DaclFault>)
    ensures
        descriptor_verdict(kind, sddl@, service_sid@, with_service, seen(r)),
{
    if !text::starts_with(sddl, "O:SY") {
        return Err(DaclFault::Owner);
    }
    let dacl = match find_dacl(kind, &text::to_chars(sddl)) {
        None => {
            assert(dacl_text(kind, sddl@, None));
            return Err(DaclFault::NoDacl);
        },
        Some(dacl) => dacl,
    };
    assert(dacl_text(kind, sddl@, Some(dacl@)));
    let granted = match read_list(kind, &dacl, service_sid) {
        Err(fault) => {
            return Err(fault);
        },
        Ok(granted) => granted,
    };
    match kind {
        DaclKind::Program => if granted.system && granted.administrators && granted.users
            && granted.service {
            Ok(())
        } else {
            Err(DaclFault::Incomplete)
        },
        DaclKind::State => if !(granted.system && granted.administrators && granted.owner_rights) {
            Err(DaclFault::Incomplete)
        } else if with_service && !granted.service {
            Err(DaclFault::ServiceMissing)
        } else if !with_service && granted.service {
            Err(DaclFault::ServicePresent)
        } else {
            Ok(())
        },
    }
}

/// Whether a descriptor is the one of the program directory.
pub fn parse_program_dacl(sddl: &str, service_sid: &str) -> (r: Result<(), DaclFault>)
    ensures
        descriptor_verdict(DaclKind::Program, sddl@, service_sid@, true, seen(r)),
{
    check_descriptor(DaclKind::Program, sddl, service_sid, true)
}

/// Whether a descriptor is the one of the state directory, with or without the service.
pub fn validate_managed_dacl(sddl: &str, service_sid: &str, require_service_access: bool) -> (r:
    Result<(), DaclFault>)
    ensures
        descriptor_verdict(
            DaclKind::State,
            sddl@,
            service_sid@,
            require_service_access,
            seen(r),
        ),
{
    check_descriptor(DaclKind::State, sddl, service_sid, require_service_access)
}

// ---------------------------------------------------------------------------
// Words
// ---------------------------------------------------------------------------
impl Party {
    /// What the party is called.
    pub open spec fn named(self) -> Seq<char> {
        match self {
            Party::System => "SYSTEM"@,
            Party::Administrators => "Administrators"@,
            Party::Users => "BUILTIN\\Users"@,
            Party::OwnerRights => "OWNER RIGHTS"@,
            Party::Service => "service SID"@,
        }
    }

    fn name(&self) -> (r: &'static str)
        ensures
            r@ == self.named(),
    {
        match self {
            Party::System => "SYSTEM",
            Party::Administrators => "Administrators",
            Party::Users => "BUILTIN\\Users",
            Party::OwnerRights => "OWNER RIGHTS",
            Party::Service => "service SID",
        }
    }

    /// The words for rights of the party that are not exactly those of the template.
    pub open spec fn rights_text(self, kind: DaclKind) -> Seq<char> {
        match (kind, self) {
            (DaclKind::Program, Party::System) => "program SYSTEM ACE is not full access"@,
            (DaclKind::Program, Party::Administrators) =>
                "program Administrators ACE is not full access"@,
            (DaclKind::Program, Party::Users) =>
                "program BUILTIN\\Users ACE is not exactly read/execute"@,
            (DaclKind::Program, _) => "program service ACE is not exactly read/execute"@,
            (DaclKind::State, Party::System) => "SYSTEM does not have exactly full access"@,
            (DaclKind::State, Party::Administrators) =>
                "Administrators do not have exactly full access"@,
            (DaclKind::State, Party::OwnerRights) =>
                "OWNER RIGHTS does not have ReadPermissions only"@,
            (DaclKind::State, _) => "service SID does not have exactly Modify access"@,
        }
    }

    fn rights_message(&self, kind: DaclKind) -> (r: &'static str)
        ensures
            r@ == self.rights_text(kind),
    {
        match (kind, *self) {
            (DaclKind::Program, Party::System) => "program SYSTEM ACE is not full access",
            (DaclKind::Program, Party::Administrators) =>
                "program Administrators ACE is not full access",
            (DaclKind::Program, Party::Users) =>
                "program BUILTIN\\Users ACE is not exactly read/execute",
            (DaclKind::Program, _) => "program service ACE is not exactly read/execute",
            (DaclKind::State, Party::System) => "SYSTEM does not have exactly full access",
            (DaclKind::State, Party::Administrators) =>
                "Administrators do not have exactly full access",
            (DaclKind::State, Party::OwnerRights) =>
                "OWNER RIGHTS does not have ReadPermissions only",
            (DaclKind::State, _) => "service SID does not have exactly Modify access",
        }
    }
}

impl DaclFaultView {
    /// The words in which the fault of `sddl` is reported.
    pub open spec fn text(self, kind: DaclKind, sddl: Seq<char>) -> Seq<char> {
        let program = kind == DaclKind::Program;
        match self {
            DaclFaultView::Owner => (if program {
                "program owner is not SYSTEM: "@
            } else {
                "managed state owner is not SYSTEM: "@
            }) + sddl,
            DaclFaultView::NoDacl => if program {
                "program security descriptor has no DACL"@
            } else {
                "security descriptor has no DACL"@
            },
            DaclFaultView::NoEntries => if program {
                "program DACL contains no ACEs"@
            } else {
                "managed state DACL contains no ACEs"@
            },
            DaclFaultView::NotProtected => (if program {
                "program DACL is not protected-only: "@
            } else {
                "managed state DACL control flags are not exactly protected-only: "@
            }) + sddl,
            DaclFaultView::Form(ace) => (if program {
                "unexpected program DACL ACE: ("@
            } else {
                "unexpected DACL ACE: ("@
            }) + ace + ")"@,
            DaclFaultView::Flags(ace) =>
                "managed state ACE flags are not exactly object/container inherit: ("@ + ace
                    + ")"@,
            DaclFaultView::ObjectSpecific(ace) =>
                "managed state contains an object-specific ACE: ("@ + ace + ")"@,
            DaclFaultView::Duplicate(party) => if program {
                "duplicate program "@ + party.named() + " ACE"@
            } else {
                "managed state contains duplicate "@ + party.named() + " ACEs"@
            },
            DaclFaultView::Rights(party) => party.rights_text(kind),
            DaclFaultView::Trustee(trustee) => (if program {
                "unexpected program DACL trustee "@
            } else {
                "unexpected state DACL trustee "@
            }) + trustee,
            DaclFaultView::Incomplete => if program {
                "program DACL does not match the current SYSTEM, Administrators, Users and service SID template"@
            } else {
                "managed state DACL is incomplete"@
            },
            DaclFaultView::ServiceMissing => "managed state DACL lacks the service SID"@,
            DaclFaultView::ServicePresent => "preserved state still grants the service SID"@,
        }
    }
}

impl DaclFault {
    /// The words in which the fault of `sddl` is reported.
    pub fn message(&self, kind: DaclKind, sddl: &str) -> (r: String)
        ensures
            r@ == self@.text(kind, sddl@),
    {
        let program = kind == DaclKind::Program;
        match self {
            DaclFault::Owner => if program {
                text::cat("program owner is not SYSTEM: ", sddl)
            } else {
                text::cat("managed state owner is not SYSTEM: ", sddl)
            },
            DaclFault::NoDacl => if program {
                text::owned("program security descriptor has no DACL")
            } else {
                text::owned("security descriptor has no DACL")
            },
            DaclFault::NoEntries => if program {
                text::owned("program DACL contains no ACEs")
            } else {
                text::owned("managed state DACL contains no ACEs")
            },
            DaclFault::NotProtected => if program {
                text::cat("program DACL is not protected-only: ", sddl)
            } else {
                text::cat(
                    "managed state DACL control flags are not exactly protected-only: ",
                    sddl,
                )
            },
            DaclFault::Form { ace } => if program {
                text::cat3("unexpected program DACL ACE: (", ace.as_str(), ")")
            } else {
                text::cat3("unexpected DACL ACE: (", ace.as_str(), ")")
            },
            DaclFault::Flags { ace } => text::cat3(
                "managed state ACE flags are not exactly object/container inherit: (",
                ace.as_str(),
                ")",
            ),
            DaclFault::ObjectSpecific { ace } => text::cat3(
                "managed state contains an object-specific ACE: (",
                ace.as_str(),
                ")",
            ),
            DaclFault::Duplicate(party) => if program {
                text::cat3("duplicate program ", party.name(), " ACE")
            } else {
                text::cat3("managed state contains duplicate ", party.name(), " ACEs")
            },
            DaclFault::Rights(party) => text::owned(party.rights_message(kind)),
            DaclFault::Trustee { trustee } => if program {
                text::cat("unexpected program DACL trustee ", trustee.as_str())
            } else {
                text::cat("unexpected state DACL trustee ", trustee.as_str())
            },
            DaclFault::Incomplete => if program {
                text::owned(
                    "program DACL does not match the current SYSTEM, Administrators, Users and service SID template",
                )
            } else {
                text::owned("managed state DACL is incomplete")
            },
            DaclFault::ServiceMissing => text::owned("managed state DACL lacks the service SID"),
            DaclFault::ServicePresent => text::owned(
                "preserved state still grants the service SID",
            ),
        }
    }
}

/// Whether a saved descriptor is to be protected again when it is restored: its control flags
/// stand before its first entry.
pub open spec fn restores_protected(dacl: Seq<char>) -> bool {
    dacl.take(text::first_index(dacl, '(')).contains('P')
}

/// Whether a saved descriptor is to be protected again; nothing where it has no access list.
pub fn restored_protection(sddl: &str) -> (r: Option<bool>)
    ensures
        match r {
            None => dacl_text(DaclKind::Program, sddl@, None),
            Some(protected) => exists|dacl: Seq<char>|
                dacl_text(DaclKind::Program, sddl@, Some(dacl)) && protected
                    == #[trigger] restores_protected(dacl),
        },
{
    match find_dacl(DaclKind::Program, &text::to_chars(sddl)) {
        None => None,
        Some(dacl) => {
            let end: usize = index_of(&dacl, '(');
            let control = text::range_chars(&dacl, 0, end);
            assert(control@ == dacl@.take(end as int));
            let protected = text::has_char(&control, 'P');
            assert(protected == restores_protected(dacl@));
            Some(protected)
        },
    }
}

/// Which account each name stands for: the system and the administrators everywhere, the users only
/// at the program, the rights of the owner only at the state, and the service by its own identifier.
pub proof fn which_accounts_are_known(kind: DaclKind, trustee: Seq<char>, service_sid: Seq<char>)
    ensures
        ({
            let party = party_of(kind, trustee, service_sid);
            &&& party == Some(Party::System) <==> trustee == "SY"@ || trustee == "S-1-5-18"@
            &&& trustee == "BA"@ || trustee == "S-1-5-32-544"@ ==> party == Some(
                Party::Administrators,
            )
            &&& party == Some(Party::Administrators) ==> trustee == "BA"@ || trustee
                == "S-1-5-32-544"@
            &&& party == Some(Party::Users) ==> kind == DaclKind::Program && (trustee == "BU"@
                || trustee == "S-1-5-32-545"@)
            &&& kind == DaclKind::Program && (trustee == "BU"@ || trustee == "S-1-5-32-545"@)
                ==> party == Some(Party::Users)
            &&& party == Some(Party::OwnerRights) ==> kind == DaclKind::State && (trustee == "OW"@
                || trustee == "S-1-3-4"@)
            &&& kind == DaclKind::State && (trustee == "OW"@ || trustee == "S-1-3-4"@) ==> party
                == Some(Party::OwnerRights)
            &&& party == Some(Party::Service) ==> trustee == service_sid
            &&& trustee == service_sid ==> party is Some
        }),
{
    reveal_strlit("SY");
    reveal_strlit("BA");
    reveal_strlit("BU");
    reveal_strlit("OW");
    reveal_strlit("S-1-5-18");
    reveal_strlit("S-1-5-32-544");
    reveal_strlit("S-1-5-32-545");
    reveal_strlit("S-1-3-4");
    assert("SY"@[0] != "BA"@[0]);
    assert("SY"@[0] != "BU"@[0]);
    assert("SY"@[0] != "OW"@[0]);
    assert("BA"@[1] != "BU"@[1]);
    assert("BA"@[0] != "OW"@[0]);
    assert("S-1-5-32-544"@[11] != "S-1-5-32-545"@[11]);
    assert("S-1-5-18"@.len() == 8 && "S-1-3-4"@.len() == 7 && "S-1-5-32-544"@.len() == 12
        && "S-1-5-32-545"@.len() == 12);
}

/// Which rights each account is to have: all of them, to read and run, to change, or to read the
/// rights alone; nothing more and nothing less.
pub proof fn which_rights_each_account_has(kind: DaclKind, party: Party, rights: Seq<char>)
    ensures
        party is System || party is Administrators ==> (rights_fit(kind, party, rights) <==> rights
            == "FA"@),
        party is OwnerRights ==> (rights_fit(kind, party, rights) <==> rights == "RC"@),
        party is Users || party is Service && kind == DaclKind::Program ==> (rights_fit(
            kind,
            party,
            rights,
        ) <==> rights == "0x1200a9"@ || rights == "0x001200a9"@),
        party is Service && kind == DaclKind::State ==> (rights_fit(kind, party, rights)
            <==> rights == "0x1301bf"@ || rights == "0x001301bf"@),
{
}

/// An entry that is accepted allows, is handed on to files and directories alike, names no object,
/// and grants a known account its rights for the first time; it adds that account and no other.
pub proof fn what_an_accepted_entry_says(
    kind: DaclKind,
    piece: Seq<char>,
    service_sid: Seq<char>,
    granted: Granted,
)
    ensures
        ({
            let fields = fields_of(piece);
            let party = party_of(kind, fields[5], service_sid);
            &&& granted_by(kind, piece, service_sid, granted) is Ok <==> {
                &&& fields.len() == 6
                &&& fields[0] == "A"@
                &&& fields[1] == "OICI"@ || fields[1] == "CIOI"@
                &&& fields[3].len() == 0
                &&& fields[4].len() == 0
                &&& party is Some
                &&& !granted.has(party->0)
                &&& rights_fit(kind, party->0, fields[2])
            }
            &&& granted_by(kind, piece, service_sid, granted) matches Ok(after) ==> {
                &&& after.has(party->0)
                &&& forall|other: Party|
                    other != party->0 ==> #[trigger] after.has(other) == granted.has(other)
            }
        }),
{
}

/// Who is granted nothing before the first entry, and who must be granted in the end.
pub proof fn who_must_be_granted(kind: DaclKind, granted: Granted, with_service: bool, party: Party)
    ensures
        !Granted::nobody().has(party),
        complete(kind, granted, with_service) is None <==> {
            &&& granted.has(Party::System)
            &&& granted.has(Party::Administrators)
            &&& kind == DaclKind::Program ==> granted.has(Party::Users) && granted.has(
                Party::Service,
            )
            &&& kind == DaclKind::State ==> granted.has(Party::OwnerRights) && granted.has(
                Party::Service,
            ) == with_service
        },
{
}

/// A descriptor that is accepted belongs to the system and has a list that is protected from what
/// stands above it.
pub proof fn an_accepted_descriptor_is_protected(
    kind: DaclKind,
    sddl: Seq<char>,
    service_sid: Seq<char>,
    with_service: bool,
    verdict: Result<(), DaclFaultView>,
)
    requires
        descriptor_verdict(kind, sddl, service_sid, with_service, verdict),
    ensures
        verdict == Err::<(), DaclFaultView>(DaclFaultView::Owner) <==> !text::begins(sddl, "O:SY"@),
        verdict is Ok ==> text::begins(sddl, "O:SY"@) && exists|dacl: Seq<char>| #[trigger]
            dacl_text(kind, sddl, Some(dacl)) && text::pieces(dacl, '(').len() >= 2 && text::pieces(
                dacl,
                '(',
            )[0] == "P"@,
{
    lemma_no_owner_fault(kind, service_sid);
}

proof fn lemma_no_owner_fault(kind: DaclKind, service_sid: Seq<char>)
    ensures
        forall|dacl: Seq<char>| #[trigger]
            list_verdict(kind, dacl, service_sid) != Err::<Granted, DaclFaultView>(
                DaclFaultView::Owner,
            ),
{
    assert forall|dacl: Seq<char>| #[trigger] list_verdict(kind, dacl, service_sid) != Err::<
        Granted,
        DaclFaultView,
    >(DaclFaultView::Owner) by {
        let parts = text::pieces(dacl, '(');
        lemma_entries_name_no_owner(kind, parts.drop_first(), service_sid, parts.len() - 1);
    }
}

proof fn lemma_entries_name_no_owner(
    kind: DaclKind,
    entries: Seq<Seq<char>>,
    service_sid: Seq<char>,
    n: int,
)
    ensures
        granted_to(kind, entries, service_sid, n) != Err::<Granted, DaclFaultView>(
            DaclFaultView::Owner,
        ),
    decreases n,
{
    if n > 0 {
        lemma_entries_name_no_owner(kind, entries, service_sid, n - 1);
    }
}

} // verus!
