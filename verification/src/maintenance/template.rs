//! What the templates of the access lists grant, as their readers see it.

use crate::maintenance::dacl::{
    ace_of, dacl_text, descriptor_verdict, fields_of, granted_by, granted_to,
    list_verdict, party_of, program_descriptor, rights_fit, state_descriptor, DaclFaultView,
    DaclKind, Granted, Party,
};
use crate::text;
use vstd::prelude::*;

verus! {

/// `sid` is written as the identifier of an account, and is not one of those that the templates
/// name themselves.
pub open spec fn is_service_sid(sid: Seq<char>) -> bool {
    &&& forall|i: int|
        0 <= i < sid.len() ==> (#[trigger] sid[i] == 'S' || sid[i] == '-' || text::is_digit(sid[i]))
    &&& sid != "S-1-5-18"@
    &&& sid != "S-1-5-32-544"@
    &&& sid != "S-1-5-32-545"@
    &&& sid != "S-1-3-4"@
}

/// A separator and a piece without one add that piece.
proof fn lemma_one_more_piece(a: Seq<char>, sep: char, b: Seq<char>)
    requires
        !b.contains(sep),
    ensures
        text::pieces(a.push(sep) + b, sep) == text::pieces(a, sep).push(b),
    decreases b.len(),
{
    let s = a.push(sep) + b;
    if b.len() == 0 {
        assert(s == a.push(sep));
        assert(s.drop_last() == a);
        assert(b == Seq::<char>::empty());
    } else {
        let shorter = b.drop_last();
        assert(b.contains(b.last()));
        assert(!shorter.contains(sep)) by {
            if shorter.contains(sep) {
                let i = shorter.index_of(sep);
                assert(b[i] == sep);
            }
        }
        lemma_one_more_piece(a, sep, shorter);
        assert(s.drop_last() == a.push(sep) + shorter);
        assert(s.last() == b.last());
        let before = text::pieces(a, sep).push(shorter);
        assert(before.drop_last() == text::pieces(a, sep));
        assert(shorter.push(b.last()) == b);
    }
}

/// The first occurrence of a character behind a text without it.
proof fn lemma_first_behind(a: Seq<char>, c: char)
    requires
        !a.contains(c),
    ensures
        text::first_index(a.push(c), c) == a.len(),
    decreases a.len(),
{
    let s = a.push(c);
    if a.len() > 0 {
        assert(a.contains(a[0]));
        let rest = a.drop_first();
        assert(!rest.contains(c)) by {
            if rest.contains(c) {
                let i = rest.index_of(c);
                assert(a[i + 1] == c);
            }
        }
        lemma_first_behind(rest, c);
        assert(s.drop_first() == rest.push(c));
    }
}

/// The text behind the opening bracket of an entry of the templates.
pub open spec fn entry(rights: Seq<char>, trustee: Seq<char>) -> Seq<char> {
    "A;OICI;"@ + rights + ";;;"@ + trustee + ")"@
}

/// `s` holds none of the characters that structure an access list.
pub open spec fn is_field(s: Seq<char>) -> bool {
    !s.contains(';') && !s.contains(')') && !s.contains('(') && !s.contains('D')
}

/// An entry of the templates has the fields that it was made of.
proof fn lemma_entry_fields(rights: Seq<char>, trustee: Seq<char>)
    requires
        is_field(rights),
        is_field(trustee),
    ensures
        fields_of(entry(rights, trustee)) == seq![
            "A"@,
            "OICI"@,
            rights,
            Seq::<char>::empty(),
            Seq::<char>::empty(),
            trustee,
        ],
        !entry(rights, trustee).contains('('),
        !entry(rights, trustee).contains('D'),
{
    reveal_strlit("A;OICI;");
    reveal_strlit(";;;");
    reveal_strlit(")");
    reveal_strlit("A");
    reveal_strlit("OICI");
    let a = "A"@;
    let b = "OICI"@;
    let e = Seq::<char>::empty();
    let ace = "A;OICI;"@ + rights + ";;;"@ + trustee;
    let whole = entry(rights, trustee);
    assert(whole == ace.push(')'));
    assert(!ace.contains(')')) by {
        if ace.contains(')') {
            let i = ace.index_of(')');
            if 7 <= i < 7 + rights.len() {
                assert(rights[i - 7] == ')');
            }
            if i >= 10 + rights.len() {
                assert(trustee[i - 10 - rights.len()] == ')');
            }
        }
    }
    lemma_first_behind(ace, ')');
    assert(ace_of(whole) == ace);
    assert(!a.contains(';'));
    assert(!b.contains(';'));
    assert(!e.contains(';'));
    let s1 = a.push(';') + b;
    let s2 = s1.push(';') + rights;
    let s3 = s2.push(';') + e;
    let s4 = s3.push(';') + e;
    let s5 = s4.push(';') + trustee;
    assert(s5 == ace);
    text::lemma_pieces_single(a, ';');
    lemma_one_more_piece(a, ';', b);
    lemma_one_more_piece(s1, ';', rights);
    lemma_one_more_piece(s2, ';', e);
    lemma_one_more_piece(s3, ';', e);
    lemma_one_more_piece(s4, ';', trustee);
    assert(fields_of(whole) == seq![a, b, rights, e, e, trustee]);
    assert(!whole.contains('(')) by {
        if whole.contains('(') {
            let i = whole.index_of('(');
            if 7 <= i < 7 + rights.len() {
                assert(rights[i - 7] == '(');
            }
            if 10 + rights.len() <= i < 10 + rights.len() + trustee.len() {
                assert(trustee[i - 10 - rights.len()] == '(');
            }
        }
    }
    assert(!whole.contains('D')) by {
        if whole.contains('D') {
            let i = whole.index_of('D');
            if 7 <= i < 7 + rights.len() {
                assert(rights[i - 7] == 'D');
            }
            if 10 + rights.len() <= i < 10 + rights.len() + trustee.len() {
                assert(trustee[i - 10 - rights.len()] == 'D');
            }
        }
    }
}

/// An entry of the templates grants its party, unless the party has its grant already.
proof fn lemma_entry_grants(
    kind: DaclKind,
    rights: Seq<char>,
    trustee: Seq<char>,
    service_sid: Seq<char>,
    party: Party,
    granted: Granted,
)
    requires
        is_field(rights),
        is_field(trustee),
        party_of(kind, trustee, service_sid) == Some(party),
        rights_fit(kind, party, rights),
        !granted.has(party),
    ensures
        granted_by(kind, entry(rights, trustee), service_sid, granted) == Ok::<
            Granted,
            DaclFaultView,
        >(granted.with(party)),
{
    lemma_entry_fields(rights, trustee);
}

/// The fixed names and rights of the templates hold none of the structuring characters.
proof fn lemma_fixed_fields()
    ensures
        is_field("SY"@),
        is_field("BA"@),
        is_field("BU"@),
        is_field("OW"@),
        is_field("FA"@),
        is_field("RC"@),
        is_field("0x1200a9"@),
        is_field("0x1301bf"@),
        "SY"@ != "BA"@,
        "BU"@ != "SY"@,
        "BU"@ != "BA"@,
        "OW"@ != "SY"@,
        "OW"@ != "BA"@,
        "S-1-5-18"@.len() == 8,
        "S-1-5-32-544"@.len() == 12,
        "S-1-5-32-545"@.len() == 12,
        "S-1-3-4"@.len() == 7,
        "SY"@.len() == 2,
        "BA"@.len() == 2,
        "BU"@.len() == 2,
        "OW"@.len() == 2,
        "SY"@[1] == 'Y',
        "BA"@[0] == 'B',
        "BU"@[0] == 'B',
        "OW"@[0] == 'O',
{
    reveal_strlit("SY");
    reveal_strlit("BA");
    reveal_strlit("BU");
    reveal_strlit("OW");
    reveal_strlit("FA");
    reveal_strlit("RC");
    reveal_strlit("0x1200a9");
    reveal_strlit("0x1301bf");
    reveal_strlit("S-1-5-18");
    reveal_strlit("S-1-5-32-544");
    reveal_strlit("S-1-5-32-545");
    reveal_strlit("S-1-3-4");
    assert("SY"@[1] != "BA"@[1]);
    assert("BU"@[0] != "SY"@[0]);
    assert("BU"@[1] != "BA"@[1]);
    assert("OW"@[0] != "SY"@[0]);
    assert("OW"@[0] != "BA"@[0]);
}

/// An account's identifier holds none of the structuring characters, and is not taken for one of
/// the parties that the templates name.
proof fn lemma_sid_is_the_service(kind: DaclKind, sid: Seq<char>)
    requires
        is_service_sid(sid),
    ensures
        is_field(sid),
        party_of(kind, sid, sid) == Some(Party::Service),
{
    lemma_fixed_fields();
    assert forall|c: char| c == ';' || c == ')' || c == '(' || c == 'D' implies !sid.contains(
        c,
    ) by {
        if sid.contains(c) {
            let i = sid.index_of(c);
            assert(sid[i] == c);
        }
    }
    if sid.len() == 2 {
        assert(sid[0] == 'S' || sid[0] == '-' || text::is_digit(sid[0]));
        assert(sid[1] == 'S' || sid[1] == '-' || text::is_digit(sid[1]));
    }
}

/// `a` with one more entry behind it.
pub open spec fn with_entry(a: Seq<char>, e: Seq<char>) -> Seq<char> {
    a.push('(') + e
}

/// The first `D:` of a descriptor of the templates stands behind its owner.
proof fn lemma_first_mark(sddl: Seq<char>)
    requires
        sddl.len() >= 6,
        sddl[0] == 'O',
        sddl[1] == ':',
        sddl[2] == 'S',
        sddl[3] == 'Y',
        sddl[4] == 'D',
        sddl[5] == ':',
    ensures
        text::begins(sddl, "O:SY"@),
        "D:"@.len() == 2,
        text::first_at(sddl, "D:"@, Some(4)),
        !text::first_at(sddl, "D:"@, None),
        forall|at: int| #[trigger] text::first_at(sddl, "D:"@, Some(at)) ==> at == 4,
{
    reveal_strlit("O:SY");
    reveal_strlit("D:");
    let mark = "D:"@;
    assert(sddl.subrange(0, 4) == "O:SY"@);
    assert(sddl.subrange(4, 6) == mark);
    assert(text::stands_at(sddl, mark, 4));
    assert forall|j: int| 0 <= j < 4 implies !#[trigger] text::stands_at(sddl, mark, j) by {
        if text::stands_at(sddl, mark, j) {
            assert(sddl.subrange(j, j + 2)[0] == sddl[j]);
        }
    }
}

/// A text without a `D` has no `D:`.
proof fn lemma_no_mark(s: Seq<char>)
    requires
        !s.contains('D'),
    ensures
        text::first_at(s, "D:"@, None),
        forall|at: int| !#[trigger] text::first_at(s, "D:"@, Some(at)),
{
    reveal_strlit("D:");
    assert forall|j: int| !#[trigger] text::stands_at(s, "D:"@, j) by {
        if text::stands_at(s, "D:"@, j) {
            assert(s.subrange(j, j + 2)[0] == s[j]);
            assert(s.contains(s[j]));
        }
    }
}

/// The descriptor that is written for the program directory is the one that is asked for there,
/// whatever the service's identifier.
pub proof fn the_program_template_is_accepted(sid: Seq<char>, verdict: Result<(), DaclFaultView>)
    requires
        is_service_sid(sid),
        descriptor_verdict(DaclKind::Program, program_descriptor(sid), sid, true, verdict),
    ensures
        verdict is Ok,
{
    let kind = DaclKind::Program;
    let sddl = program_descriptor(sid);
    lemma_fixed_fields();
    lemma_sid_is_the_service(kind, sid);
    let e1 = entry("FA"@, "SY"@);
    let e2 = entry("FA"@, "BA"@);
    let e3 = entry("0x1200a9"@, "BU"@);
    let e4 = entry("0x1200a9"@, sid);
    let p = "P"@;
    let d1 = with_entry(p, e1);
    let d2 = with_entry(d1, e2);
    let d3 = with_entry(d2, e3);
    let d4 = with_entry(d3, e4);
    let dacl = sddl.skip(6);
    assert(dacl == d4) by {
        reveal_strlit(
            "O:SYD:P(A;OICI;FA;;;SY)(A;OICI;FA;;;BA)(A;OICI;0x1200a9;;;BU)(A;OICI;0x1200a9;;;",
        );
        reveal_strlit("A;OICI;");
        reveal_strlit(";;;");
        reveal_strlit(")");
        reveal_strlit("P");
        reveal_strlit("SY");
        reveal_strlit("BA");
        reveal_strlit("BU");
        reveal_strlit("FA");
        reveal_strlit("0x1200a9");
        assert(dacl =~= d4);
    }
    lemma_entry_fields("FA"@, "SY"@);
    lemma_entry_fields("FA"@, "BA"@);
    lemma_entry_fields("0x1200a9"@, "BU"@);
    lemma_entry_fields("0x1200a9"@, sid);
    assert(!p.contains('(')) by {
        reveal_strlit("P");
    }
    text::lemma_pieces_single(p, '(');
    lemma_one_more_piece(p, '(', e1);
    lemma_one_more_piece(d1, '(', e2);
    lemma_one_more_piece(d2, '(', e3);
    lemma_one_more_piece(d3, '(', e4);
    let parts = text::pieces(dacl, '(');
    assert(parts == seq![p, e1, e2, e3, e4]);
    let entries = parts.drop_first();
    assert(entries == seq![e1, e2, e3, e4]);
    let g0 = Granted::nobody();
    let g1 = g0.with(Party::System);
    let g2 = g1.with(Party::Administrators);
    let g3 = g2.with(Party::Users);
    let g4 = g3.with(Party::Service);
    lemma_entry_grants(kind, "FA"@, "SY"@, sid, Party::System, g0);
    lemma_entry_grants(kind, "FA"@, "BA"@, sid, Party::Administrators, g1);
    lemma_entry_grants(kind, "0x1200a9"@, "BU"@, sid, Party::Users, g2);
    lemma_entry_grants(kind, "0x1200a9"@, sid, sid, Party::Service, g3);
    assert(granted_to(kind, entries, sid, 0) == Ok::<Granted, DaclFaultView>(g0));
    assert(granted_to(kind, entries, sid, 1) == Ok::<Granted, DaclFaultView>(g1));
    assert(granted_to(kind, entries, sid, 2) == Ok::<Granted, DaclFaultView>(g2));
    assert(granted_to(kind, entries, sid, 3) == Ok::<Granted, DaclFaultView>(g3));
    assert(granted_to(kind, entries, sid, 4) == Ok::<Granted, DaclFaultView>(g4));
    assert(list_verdict(kind, dacl, sid) == Ok::<Granted, DaclFaultView>(g4));
    assert(sddl[0] == 'O' && sddl[1] == ':' && sddl[2] == 'S' && sddl[3] == 'Y' && sddl[4] == 'D'
        && sddl[5] == ':' && sddl.len() >= 6) by {
        reveal_strlit(
            "O:SYD:P(A;OICI;FA;;;SY)(A;OICI;FA;;;BA)(A;OICI;0x1200a9;;;BU)(A;OICI;0x1200a9;;;",
        );
    }
    lemma_first_mark(sddl);
    assert forall|found: Option<Seq<char>>| #[trigger]
        dacl_text(kind, sddl, found) implies found == Some(dacl) by {}
}

/// The list of the state directory, given the entry of the service if there is one.
spec fn state_list(service: Option<Seq<char>>) -> Seq<char> {
    let two = with_entry(with_entry("P"@, entry("FA"@, "SY"@)), entry("FA"@, "BA"@));
    let three = match service {
        Some(sid) => with_entry(two, entry("0x1301bf"@, sid)),
        None => two,
    };
    with_entry(three, entry("RC"@, "OW"@))
}

proof fn lemma_state_text(service: Option<Seq<char>>)
    ensures
        state_descriptor(service).len() >= 6,
        state_descriptor(service).skip(6) == state_list(service),
        state_descriptor(service)[0] == 'O',
        state_descriptor(service)[1] == ':',
        state_descriptor(service)[2] == 'S',
        state_descriptor(service)[3] == 'Y',
        state_descriptor(service)[4] == 'D',
        state_descriptor(service)[5] == ':',
{
    reveal_strlit("O:SYD:P(A;OICI;FA;;;SY)(A;OICI;FA;;;BA)");
    reveal_strlit("(A;OICI;0x1301bf;;;");
    reveal_strlit("(A;OICI;RC;;;OW)");
    reveal_strlit("A;OICI;");
    reveal_strlit(";;;");
    reveal_strlit(")");
    reveal_strlit("P");
    reveal_strlit("SY");
    reveal_strlit("BA");
    reveal_strlit("OW");
    reveal_strlit("FA");
    reveal_strlit("RC");
    reveal_strlit("0x1301bf");
    assert(state_descriptor(service).skip(6) =~= state_list(service));
}

/// A piece without a character, put behind one without it, leaves it out.
proof fn lemma_still_without(a: Seq<char>, e: Seq<char>, c: char)
    requires
        !a.contains(c),
        !e.contains(c),
        c != '(',
    ensures
        !with_entry(a, e).contains(c),
{
    let s = with_entry(a, e);
    if s.contains(c) {
        let i = s.index_of(c);
        if i < a.len() {
            assert(a[i] == c);
        }
        if i > a.len() {
            assert(e[i - a.len() - 1] == c);
        }
    }
}

/// The descriptor that is written for the state directory is the one that is asked for there,
/// with the service and without it, and the one is not taken for the other.
pub proof fn the_state_template_is_accepted(
    sid: Seq<char>,
    written_with_service: bool,
    asked_with_service: bool,
    verdict: Result<(), DaclFaultView>,
)
    requires
        is_service_sid(sid),
        descriptor_verdict(
            DaclKind::State,
            state_descriptor(
                if written_with_service {
                    Some(sid)
                } else {
                    None
                },
            ),
            sid,
            asked_with_service,
            verdict,
        ),
    ensures
        verdict is Ok <==> written_with_service == asked_with_service,
        verdict is Err && asked_with_service ==> verdict == Err::<(), DaclFaultView>(
            DaclFaultView::ServiceMissing,
        ),
        verdict is Err && !asked_with_service ==> verdict == Err::<(), DaclFaultView>(
            DaclFaultView::ServicePresent,
        ),
{
    let kind = DaclKind::State;
    let service = if written_with_service {
        Some(sid)
    } else {
        None
    };
    let sddl = state_descriptor(service);
    lemma_fixed_fields();
    lemma_sid_is_the_service(kind, sid);
    lemma_state_text(service);
    let p = "P"@;
    let e1 = entry("FA"@, "SY"@);
    let e2 = entry("FA"@, "BA"@);
    let e3 = entry("0x1301bf"@, sid);
    let e4 = entry("RC"@, "OW"@);
    let d1 = with_entry(p, e1);
    let d2 = with_entry(d1, e2);
    let d3 = with_entry(d2, e3);
    let dacl = state_list(service);
    lemma_entry_fields("FA"@, "SY"@);
    lemma_entry_fields("FA"@, "BA"@);
    lemma_entry_fields("0x1301bf"@, sid);
    lemma_entry_fields("RC"@, "OW"@);
    assert(!p.contains('(') && !p.contains('D')) by {
        reveal_strlit("P");
    }
    lemma_still_without(p, e1, 'D');
    lemma_still_without(d1, e2, 'D');
    lemma_still_without(d2, e3, 'D');
    lemma_still_without(d2, e4, 'D');
    lemma_still_without(d3, e4, 'D');
    assert(!dacl.contains('D'));
    text::lemma_pieces_single(p, '(');
    lemma_one_more_piece(p, '(', e1);
    lemma_one_more_piece(d1, '(', e2);
    lemma_one_more_piece(d2, '(', e3);
    lemma_one_more_piece(d2, '(', e4);
    lemma_one_more_piece(d3, '(', e4);
    let parts = text::pieces(dacl, '(');
    let entries = parts.drop_first();
    let g0 = Granted::nobody();
    let g1 = g0.with(Party::System);
    let g2 = g1.with(Party::Administrators);
    let g3 = g2.with(Party::Service);
    lemma_entry_grants(kind, "FA"@, "SY"@, sid, Party::System, g0);
    lemma_entry_grants(kind, "FA"@, "BA"@, sid, Party::Administrators, g1);
    lemma_entry_grants(kind, "0x1301bf"@, sid, sid, Party::Service, g2);
    lemma_entry_grants(kind, "RC"@, "OW"@, sid, Party::OwnerRights, g2);
    lemma_entry_grants(kind, "RC"@, "OW"@, sid, Party::OwnerRights, g3);
    if written_with_service {
        assert(parts == seq![p, e1, e2, e3, e4]);
        assert(entries == seq![e1, e2, e3, e4]);
        assert(granted_to(kind, entries, sid, 0) == Ok::<Granted, DaclFaultView>(g0));
        assert(granted_to(kind, entries, sid, 1) == Ok::<Granted, DaclFaultView>(g1));
        assert(granted_to(kind, entries, sid, 2) == Ok::<Granted, DaclFaultView>(g2));
        assert(granted_to(kind, entries, sid, 3) == Ok::<Granted, DaclFaultView>(g3));
        assert(granted_to(kind, entries, sid, 4) == Ok::<Granted, DaclFaultView>(
            g3.with(Party::OwnerRights),
        ));
    } else {
        assert(parts == seq![p, e1, e2, e4]);
        assert(entries == seq![e1, e2, e4]);
        assert(granted_to(kind, entries, sid, 0) == Ok::<Granted, DaclFaultView>(g0));
        assert(granted_to(kind, entries, sid, 1) == Ok::<Granted, DaclFaultView>(g1));
        assert(granted_to(kind, entries, sid, 2) == Ok::<Granted, DaclFaultView>(g2));
        assert(granted_to(kind, entries, sid, 3) == Ok::<Granted, DaclFaultView>(
            g2.with(Party::OwnerRights),
        ));
    }
    lemma_first_mark(sddl);
    lemma_no_mark(dacl);
    assert forall|found: Option<Seq<char>>| #[trigger]
        dacl_text(kind, sddl, found) implies found == Some(dacl) by {}
}

// ---------------------------------------------------------------------------
// Lists of any parties in any order
// ---------------------------------------------------------------------------
/// The name by which the templates call a party.
pub open spec fn trustee_of(party: Party, sid: Seq<char>) -> Seq<char> {
    match party {
        Party::System => "SY"@,
        Party::Administrators => "BA"@,
        Party::Users => "BU"@,
        Party::OwnerRights => "OW"@,
        Party::Service => sid,
    }
}

/// The rights that the templates grant a party.
pub open spec fn rights_of(kind: DaclKind, party: Party) -> Seq<char> {
    match party {
        Party::System | Party::Administrators => "FA"@,
        Party::OwnerRights => "RC"@,
        Party::Users => "0x1200a9"@,
        Party::Service => match kind {
            DaclKind::Program => "0x1200a9"@,
            DaclKind::State => "0x1301bf"@,
        },
    }
}

/// The entry that grants a party its rights.
pub open spec fn entry_of(kind: DaclKind, party: Party, sid: Seq<char>) -> Seq<char> {
    entry(rights_of(kind, party), trustee_of(party, sid))
}

/// The access list that grants these parties their rights, in this order.
pub open spec fn list_of(kind: DaclKind, parties: Seq<Party>, sid: Seq<char>) -> Seq<char>
    decreases parties.len(),
{
    if parties.len() == 0 {
        "P"@
    } else {
        with_entry(
            list_of(kind, parties.drop_last(), sid),
            entry_of(kind, parties.last(), sid),
        )
    }
}

/// The descriptor with this access list.
pub open spec fn descriptor_of(kind: DaclKind, parties: Seq<Party>, sid: Seq<char>) -> Seq<char> {
    "O:SYD:"@ + list_of(kind, parties, sid)
}

/// The party is one of those that the descriptor of such a directory grants access.
pub open spec fn is_asked(kind: DaclKind, party: Party, with_service: bool) -> bool {
    match party {
        Party::System | Party::Administrators => true,
        Party::Users => kind == DaclKind::Program,
        Party::OwnerRights => kind == DaclKind::State,
        Party::Service => kind == DaclKind::Program || with_service,
    }
}

/// The party may be named in an access list of this kind.
pub open spec fn is_known(kind: DaclKind, party: Party) -> bool {
    is_asked(kind, party, true)
}

/// Who is granted access by the parties of a list.
spec fn granted_all(parties: Seq<Party>) -> Granted
    decreases parties.len(),
{
    if parties.len() == 0 {
        Granted::nobody()
    } else {
        granted_all(parties.drop_last()).with(parties.last())
    }
}

proof fn lemma_granted_all(parties: Seq<Party>)
    ensures
        forall|party: Party| #[trigger] granted_all(parties).has(party) <==> parties.contains(party),
    decreases parties.len(),
{
    if parties.len() > 0 {
        let before = parties.drop_last();
        lemma_granted_all(before);
        assert forall|party: Party| #[trigger]
            granted_all(parties).has(party) <==> parties.contains(party) by {
            assert(granted_all(parties).has(party) <==> granted_all(before).has(party) || party
                == parties.last());
            if before.contains(party) {
                assert(parties[before.index_of(party)] == party);
            }
            if parties.contains(party) {
                let i = parties.index_of(party);
                if i < before.len() {
                    assert(before[i] == party);
                }
            }
            if party == parties.last() {
                assert(parties[parties.len() - 1] == party);
            }
        }
    }
}

/// An entry of a list has its fields and is of one piece.
proof fn lemma_entry_of(kind: DaclKind, party: Party, sid: Seq<char>)
    requires
        is_service_sid(sid),
    ensures
        is_field(rights_of(kind, party)),
        is_field(trustee_of(party, sid)),
        fields_of(entry_of(kind, party, sid)) == seq![
            "A"@,
            "OICI"@,
            rights_of(kind, party),
            Seq::<char>::empty(),
            Seq::<char>::empty(),
            trustee_of(party, sid),
        ],
        !entry_of(kind, party, sid).contains('('),
        !entry_of(kind, party, sid).contains('D'),
        is_known(kind, party) ==> party_of(kind, trustee_of(party, sid), sid) == Some(party),
        rights_fit(kind, party, rights_of(kind, party)),
{
    lemma_fixed_fields();
    lemma_sid_is_the_service(kind, sid);
    lemma_entry_fields(rights_of(kind, party), trustee_of(party, sid));
}

/// A list falls into its entries.
proof fn lemma_list_pieces(kind: DaclKind, parties: Seq<Party>, sid: Seq<char>)
    requires
        is_service_sid(sid),
    ensures
        text::pieces(list_of(kind, parties, sid), '(') == seq!["P"@] + parties.map_values(
            |party: Party| entry_of(kind, party, sid),
        ),
        !list_of(kind, parties, sid).contains('D'),
    decreases parties.len(),
{
    let entries = parties.map_values(|party: Party| entry_of(kind, party, sid));
    if parties.len() == 0 {
        assert(!"P"@.contains('(') && !"P"@.contains('D')) by {
            reveal_strlit("P");
        }
        text::lemma_pieces_single("P"@, '(');
        assert(seq!["P"@] + entries == seq!["P"@]);
    } else {
        let before = parties.drop_last();
        let last = entry_of(kind, parties.last(), sid);
        lemma_list_pieces(kind, before, sid);
        lemma_entry_of(kind, parties.last(), sid);
        lemma_one_more_piece(list_of(kind, before, sid), '(', last);
        lemma_still_without(list_of(kind, before, sid), last, 'D');
        assert(seq!["P"@] + entries == (seq!["P"@] + before.map_values(
            |party: Party| entry_of(kind, party, sid),
        )).push(last));
    }
}

/// A list of parties that may be named grants them all access, as far as none comes twice.
proof fn lemma_list_grants(kind: DaclKind, parties: Seq<Party>, sid: Seq<char>, n: int)
    requires
        is_service_sid(sid),
        parties.no_duplicates(),
        0 <= n <= parties.len(),
        forall|i: int| 0 <= i < n ==> is_known(kind, #[trigger] parties[i]),
    ensures
        granted_to(
            kind,
            parties.map_values(|party: Party| entry_of(kind, party, sid)),
            sid,
            n,
        ) == Ok::<Granted, DaclFaultView>(granted_all(parties.take(n))),
    decreases n,
{
    if n > 0 {
        lemma_list_grants(kind, parties, sid, n - 1);
        let party = parties[n - 1];
        let before = parties.take(n - 1);
        assert(parties.take(n).drop_last() == before);
        lemma_entry_of(kind, party, sid);
        lemma_granted_all(before);
        assert(!before.contains(party)) by {
            if before.contains(party) {
                let i = before.index_of(party);
                assert(parties[i] == parties[n - 1]);
            }
        }
        lemma_entry_grants(
            kind,
            rights_of(kind, party),
            trustee_of(party, sid),
            sid,
            party,
            granted_all(before),
        );
    }
}

/// The access list of a descriptor is found whole.
proof fn lemma_list_is_found(list: Seq<char>)
    requires
        !list.contains('D'),
    ensures
        text::begins("O:SYD:"@ + list, "O:SY"@),
        forall|kind: DaclKind, found: Option<Seq<char>>| #[trigger]
            dacl_text(kind, "O:SYD:"@ + list, found) ==> found == Some(list),
{
    let sddl = "O:SYD:"@ + list;
    reveal_strlit("O:SYD:");
    assert(sddl.skip(6) == list);
    lemma_first_mark(sddl);
    lemma_no_mark(list);
}

/// The order of the entries does not matter: every list that grants exactly the parties of its
/// directory their rights, each once, is accepted.
pub proof fn every_order_of_the_entries_is_accepted(
    kind: DaclKind,
    parties: Seq<Party>,
    sid: Seq<char>,
    with_service: bool,
    verdict: Result<(), DaclFaultView>,
)
    requires
        is_service_sid(sid),
        parties.no_duplicates(),
        forall|party: Party| #[trigger]
            parties.contains(party) <==> is_asked(kind, party, with_service),
        descriptor_verdict(kind, descriptor_of(kind, parties, sid), sid, with_service, verdict),
    ensures
        verdict is Ok,
{
    let list = list_of(kind, parties, sid);
    lemma_list_pieces(kind, parties, sid);
    lemma_list_is_found(list);
    assert forall|i: int| 0 <= i < parties.len() implies is_known(kind, #[trigger] parties[i]) by {
        assert(parties.contains(parties[i]));
    }
    lemma_list_grants(kind, parties, sid, parties.len() as int);
    assert(parties.take(parties.len() as int) == parties);
    lemma_granted_all(parties);
    let entries = parties.map_values(|party: Party| entry_of(kind, party, sid));
    let parts = text::pieces(list, '(');
    assert(parts.drop_first() == entries);
    assert(parties.contains(Party::System));
    let granted = granted_all(parties);
    assert(granted.has(Party::System) && granted.has(Party::Administrators));
    assert(granted.has(Party::Users) == is_asked(kind, Party::Users, with_service));
    assert(granted.has(Party::OwnerRights) == is_asked(kind, Party::OwnerRights, with_service));
    assert(granted.has(Party::Service) == is_asked(kind, Party::Service, with_service));
    assert(list_verdict(kind, list, sid) == Ok::<Granted, DaclFaultView>(granted));
}

/// The descriptor of the program directory, which lets users read, is refused for the state
/// directory.
pub proof fn the_program_template_is_refused_for_the_state(
    sid: Seq<char>,
    with_service: bool,
    verdict: Result<(), DaclFaultView>,
)
    requires
        is_service_sid(sid),
        descriptor_verdict(DaclKind::State, program_descriptor(sid), sid, with_service, verdict),
    ensures
        verdict == Err::<(), DaclFaultView>(DaclFaultView::Trustee("BU"@)),
{
    let kind = DaclKind::State;
    let parties = seq![Party::System, Party::Administrators, Party::Users, Party::Service];
    let list = list_of(DaclKind::Program, parties, sid);
    lemma_program_text(sid);
    lemma_list_pieces(DaclKind::Program, parties, sid);
    lemma_list_is_found(list);
    let entries = parties.map_values(|party: Party| entry_of(DaclKind::Program, party, sid));
    let parts = text::pieces(list, '(');
    assert(parts.drop_first() == entries);
    lemma_fixed_fields();
    lemma_sid_is_the_service(kind, sid);
    let g0 = Granted::nobody();
    let g1 = g0.with(Party::System);
    let g2 = g1.with(Party::Administrators);
    lemma_entry_grants(kind, "FA"@, "SY"@, sid, Party::System, g0);
    lemma_entry_grants(kind, "FA"@, "BA"@, sid, Party::Administrators, g1);
    lemma_entry_of(DaclKind::Program, Party::Users, sid);
    assert("BU"@ != sid) by {
        assert(sid.len() == 2 ==> sid[0] == 'S' || sid[0] == '-' || text::is_digit(sid[0]));
    }
    assert("BU"@ != "OW"@) by {
        assert("BU"@[0] != "OW"@[0]);
    }
    assert(party_of(kind, "BU"@, sid) is None);
    assert(granted_to(kind, entries, sid, 0) == Ok::<Granted, DaclFaultView>(g0));
    assert(granted_to(kind, entries, sid, 1) == Ok::<Granted, DaclFaultView>(g1));
    assert(granted_to(kind, entries, sid, 2) == Ok::<Granted, DaclFaultView>(g2));
    assert(granted_to(kind, entries, sid, 3) == Err::<Granted, DaclFaultView>(
        DaclFaultView::Trustee("BU"@),
    ));
    assert(granted_to(kind, entries, sid, 4) == Err::<Granted, DaclFaultView>(
        DaclFaultView::Trustee("BU"@),
    ));
}

/// The descriptor of the program directory is that of its parties.
proof fn lemma_program_text(sid: Seq<char>)
    ensures
        program_descriptor(sid) == descriptor_of(
            DaclKind::Program,
            seq![Party::System, Party::Administrators, Party::Users, Party::Service],
            sid,
        ),
{
    let kind = DaclKind::Program;
    let parties = seq![Party::System, Party::Administrators, Party::Users, Party::Service];
    let d1 = with_entry("P"@, entry("FA"@, "SY"@));
    let d2 = with_entry(d1, entry("FA"@, "BA"@));
    let d3 = with_entry(d2, entry("0x1200a9"@, "BU"@));
    let d4 = with_entry(d3, entry("0x1200a9"@, sid));
    assert(list_of(kind, parties, sid) == d4) by {
        assert(parties.drop_last() == seq![Party::System, Party::Administrators, Party::Users]);
        assert(parties.drop_last().drop_last() == seq![Party::System, Party::Administrators]);
        assert(parties.drop_last().drop_last().drop_last() == seq![Party::System]);
        assert(seq![Party::System].drop_last() == Seq::<Party>::empty());
        reveal_with_fuel(list_of, 5);
    }
    reveal_strlit(
        "O:SYD:P(A;OICI;FA;;;SY)(A;OICI;FA;;;BA)(A;OICI;0x1200a9;;;BU)(A;OICI;0x1200a9;;;",
    );
    reveal_strlit("O:SYD:");
    reveal_strlit("A;OICI;");
    reveal_strlit(";;;");
    reveal_strlit(")");
    reveal_strlit("P");
    reveal_strlit("SY");
    reveal_strlit("BA");
    reveal_strlit("BU");
    reveal_strlit("FA");
    reveal_strlit("0x1200a9");
    assert(program_descriptor(sid) =~= "O:SYD:"@ + d4);
}

/// Where the first `n` entries are accepted, each of them grants a party exactly its rights, and
/// no two of them the same one.
proof fn lemma_accepted_entries(
    kind: DaclKind,
    entries: Seq<Seq<char>>,
    sid: Seq<char>,
    n: int,
)
    requires
        0 <= n <= entries.len(),
        granted_to(kind, entries, sid, n) is Ok,
    ensures
        forall|i: int|
            0 <= i < n ==> {
                let fields = fields_of(#[trigger] entries[i]);
                &&& fields.len() == 6
                &&& party_of(kind, fields[5], sid) matches Some(party)
                &&& rights_fit(kind, party, fields[2])
                &&& granted_to(kind, entries, sid, n)->Ok_0.has(party)
            },
        forall|i: int, j: int|
            0 <= i < j < n ==> party_of(kind, fields_of(#[trigger] entries[i])[5], sid) != party_of(
                kind,
                fields_of(#[trigger] entries[j])[5],
                sid,
            ),
    decreases n,
{
    if n > 0 {
        lemma_accepted_entries(kind, entries, sid, n - 1);
    }
}

/// Nobody else is let in: in a descriptor that is accepted every entry grants one of the parties
/// of its directory exactly its rights, and no two entries the same one. So an entry for any
/// other account, or with any other rights, has the descriptor refused.
pub proof fn every_other_account_is_refused(
    kind: DaclKind,
    sddl: Seq<char>,
    dacl: Seq<char>,
    sid: Seq<char>,
    with_service: bool,
    verdict: Result<(), DaclFaultView>,
)
    requires
        dacl_text(kind, sddl, Some(dacl)),
        descriptor_verdict(kind, sddl, sid, with_service, verdict),
        verdict is Ok,
    ensures
        ({
            let entries = text::pieces(dacl, '(').drop_first();
            &&& forall|i: int|
                0 <= i < entries.len() ==> {
                    let fields = fields_of(#[trigger] entries[i]);
                    &&& fields.len() == 6
                    &&& party_of(kind, fields[5], sid) matches Some(party)
                    &&& rights_fit(kind, party, fields[2])
                }
            &&& forall|i: int, j: int|
                0 <= i < j < entries.len() ==> party_of(
                    kind,
                    fields_of(#[trigger] entries[i])[5],
                    sid,
                ) != party_of(kind, fields_of(#[trigger] entries[j])[5], sid)
        }),
{
    lemma_one_list(kind, sddl, dacl);
    let parts = text::pieces(dacl, '(');
    lemma_accepted_entries(kind, parts.drop_first(), sid, parts.len() - 1);
}

/// A descriptor has one access list.
proof fn lemma_one_list(kind: DaclKind, sddl: Seq<char>, dacl: Seq<char>)
    requires
        dacl_text(kind, sddl, Some(dacl)),
    ensures
        forall|found: Option<Seq<char>>| #[trigger] dacl_text(kind, sddl, found) ==> found == Some(
            dacl,
        ),
{
    let mark = "D:"@;
    assert forall|s: Seq<char>, a: int, b: int| #[trigger]
        text::first_at(s, mark, Some(a)) && #[trigger] text::first_at(s, mark, Some(b)) implies a
        == b by {
        if a < b {
            assert(!text::stands_at(s, mark, a));
        }
        if b < a {
            assert(!text::stands_at(s, mark, b));
        }
    }
    assert forall|s: Seq<char>, a: int| #[trigger] text::first_at(s, mark, Some(a)) implies !(
    #[trigger] text::first_at(s, mark, None)) by {
        assert(text::stands_at(s, mark, a));
    }
}

/// The state directory never lets users in: its descriptor does not name them.
pub proof fn users_never_reach_the_state(sid: Seq<char>, with_service: bool)
    requires
        is_service_sid(sid),
    ensures
        !text::holds(
            state_descriptor(
                if with_service {
                    Some(sid)
                } else {
                    None
                },
            ),
            ";;;BU)"@,
        ),
{
    let service = if with_service {
        Some(sid)
    } else {
        None
    };
    let sddl = state_descriptor(service);
    reveal_strlit("O:SYD:P(A;OICI;FA;;;SY)(A;OICI;FA;;;BA)");
    reveal_strlit("(A;OICI;0x1301bf;;;");
    reveal_strlit("(A;OICI;RC;;;OW)");
    reveal_strlit(")");
    reveal_strlit(";;;BU)");
    let needle = ";;;BU)"@;
    assert forall|at: int| !#[trigger] text::stands_at(sddl, needle, at) by {
        if text::stands_at(sddl, needle, at) {
            let u = at + 4;
            assert(sddl.subrange(at, at + 6)[4] == sddl[u]);
            assert(sddl[u] == 'U');
            if with_service {
                let from = "O:SYD:P(A;OICI;FA;;;SY)(A;OICI;FA;;;BA)"@.len()
                    + "(A;OICI;0x1301bf;;;"@.len();
                if from <= u < from + sid.len() {
                    assert(sddl[u] == sid[u - from]);
                }
            }
        }
    }
}

} // verus!
