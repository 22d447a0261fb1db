//! The installed service: its account, its command line and its state.

use crate::text;
use crate::wide::{little_endian, to_little_endian, to_utf16, utf16};
use vstd::prelude::*;

verus! {

/// The name of the service.
pub fn windows_service_name() -> (r: &'static str)
    ensures
        r@ == "UnionCAgent"@,
{
    "UnionCAgent"
}

/// A process of its own.
pub const SERVICE_WIN32_OWN_PROCESS: u32 = 16;

/// Started with the machine.
pub const SERVICE_AUTO_START: u32 = 2;

pub const SERVICE_STOPPED: u32 = 1;

pub const SERVICE_START_PENDING: u32 = 2;

pub const SERVICE_STOP_PENDING: u32 = 3;

pub const SERVICE_RUNNING: u32 = 4;

// ---------------------------------------------------------------------------
// The account
// ---------------------------------------------------------------------------
/// The SHA-1 digest of bytes.
pub uninterp spec fn sha1_digest(bytes: Seq<u8>) -> Seq<u8>;

/// `sha1::Sha1::digest`: the digest of the bytes, which is twenty bytes long.
#[verifier::external_body]
fn sha1_of(bytes: &Vec<u8>) -> (r: Vec<u8>)
    ensures
        r@ == sha1_digest(bytes@),
        r@.len() == 20,
{
    <sha1::Sha1 as sha1::Digest>::digest(bytes.as_slice()).to_vec()
}

/// The number that four bytes write, the lowest first.
pub open spec fn word(bytes: Seq<u8>, k: int) -> nat {
    (bytes[4 * k] + 256 * bytes[4 * k + 1] + 65536 * bytes[4 * k + 2] + 16777216 * bytes[4 * k
        + 3]) as nat
}

/// The identifier of the account that a digest stands for: its five words behind the prefix of
/// all service accounts.
pub open spec fn sid_of(digest: Seq<u8>) -> Seq<char> {
    "S-1-5-80-"@ + text::decimal(word(digest, 0)) + "-"@ + text::decimal(word(digest, 1)) + "-"@
        + text::decimal(word(digest, 2)) + "-"@ + text::decimal(word(digest, 3)) + "-"@
        + text::decimal(word(digest, 4))
}

fn word_text(bytes: &Vec<u8>, k: usize) -> (r: String)
    requires
        4 * k + 4 <= bytes@.len(),
        k <= 5,
    ensures
        r@ == text::decimal(word(bytes@, k as int)),
{
    let value: u64 = (bytes[4 * k] as u64) + 256 * (bytes[4 * k + 1] as u64) + 65536 * (bytes[4 * k
        + 2] as u64) + 16777216 * (bytes[4 * k + 3] as u64);
    text::decimal_text(value)
}

/// The identifier of the account that a digest stands for, if it has exactly five words.
pub fn sid_of_digest(digest: &Vec<u8>) -> (r: Option<String>)
    ensures
        match r {
            Some(sid) => digest@.len() / 4 == 5 && sid@ == sid_of(digest@),
            None => digest@.len() / 4 != 5,
        },
{
    if digest.len() / 4 != 5 {
        return None;
    }
    Some(sid_text(digest))
}

fn sid_text(digest: &Vec<u8>) -> (r: String)
    requires
        digest@.len() >= 20,
    ensures
        r@ == sid_of(digest@),
{
    let mut out = text::owned("S-1-5-80-");
    out.append(word_text(digest, 0).as_str());
    out.append("-");
    out.append(word_text(digest, 1).as_str());
    out.append("-");
    out.append(word_text(digest, 2).as_str());
    out.append("-");
    out.append(word_text(digest, 3).as_str());
    out.append("-");
    out.append(word_text(digest, 4).as_str());
    out
}

/// The identifier of the service's account: Windows derives it from the name of the service, in
/// upper case and UTF-16.
pub fn service_sid_string() -> (r: String)
    ensures
        r@ == sid_of(sha1_digest(little_endian(utf16(text::raised("UnionCAgent"@))))),
{
    let name = text::upper(windows_service_name());
    let bytes = to_little_endian(&to_utf16(name.as_str()));
    let digest = sha1_of(&bytes);
    sid_text(&digest)
}

/// `sid` is made of the signs of an account's identifier.
pub open spec fn is_sid_text(sid: Seq<char>) -> bool {
    forall|i: int|
        0 <= i < sid.len() ==> (#[trigger] sid[i] == 'S' || sid[i] == '-' || text::is_digit(sid[i]))
}

proof fn lemma_decimal_is_sid_text(n: nat)
    ensures
        is_sid_text(text::decimal(n)),
        text::decimal(n).len() >= 1,
    decreases n,
{
    if n >= 10 {
        lemma_decimal_is_sid_text(n / 10);
    }
}

/// The identifier of a service's account is none of the built-in ones that the access lists name
/// beside it, whatever the digest.
pub proof fn a_service_account_is_no_builtin_one(digest: Seq<u8>)
    ensures
        crate::maintenance::template::is_service_sid(sid_of(digest)),
{
    let sid = sid_of(digest);
    reveal_strlit("S-1-5-80-");
    reveal_strlit("-");
    reveal_strlit("S-1-5-18");
    reveal_strlit("S-1-5-32-544");
    reveal_strlit("S-1-5-32-545");
    reveal_strlit("S-1-3-4");
    lemma_decimal_is_sid_text(word(digest, 0));
    lemma_decimal_is_sid_text(word(digest, 1));
    lemma_decimal_is_sid_text(word(digest, 2));
    lemma_decimal_is_sid_text(word(digest, 3));
    lemma_decimal_is_sid_text(word(digest, 4));
    let head = "S-1-5-80-"@;
    assert(is_sid_text(head));
    assert(is_sid_text("-"@));
    assert(is_sid_text(sid));
    assert(sid[6] == '8' && sid[4] == '5');
    assert("S-1-5-18"@[6] == '1');
    assert("S-1-5-32-544"@[6] == '3');
    assert("S-1-5-32-545"@[6] == '3');
    assert("S-1-3-4"@[4] == '3');
}

/// The names of the account that the service runs as.
pub open spec fn names_local_service(value: Seq<char>) -> bool {
    let name = text::lowered(text::trimmed(value));
    ||| name == "s-1-5-19"@
    ||| name == "localservice"@
    ||| name == "nt authority\\localservice"@
    ||| name == "nt authority\\local service"@
}

/// Whether a service that starts under this name runs as the account LOCAL SERVICE.
pub fn is_local_service_name(value: &str) -> (r: bool)
    ensures
        r == names_local_service(value@),
{
    let name = text::lower(text::trim(value).as_str());
    text::same(name.as_str(), "s-1-5-19") || text::same(name.as_str(), "localservice")
        || text::same(name.as_str(), "nt authority\\localservice") || text::same(
        name.as_str(),
        "nt authority\\local service",
    )
}

/// A system error as a result of COM carries it.
pub fn hresult_from_win32(code: u32) -> (r: i32)
    ensures
        r == (0x8007_0000u32 | code) as i32,
        code < 0x1_0000 ==> r == code - 0x7ff9_0000,
{
    assert(code < 0x1_0000 ==> (0x8007_0000u32 | code) as i32 == code - 0x7ff9_0000)
        by (bit_vector);
    #[verifier::truncate]
    let r: i32 = (0x8007_0000u32 | code) as i32;
    r
}

// ---------------------------------------------------------------------------
// The configuration
// ---------------------------------------------------------------------------
/// The service as it is configured, with its command line taken apart.
#[derive(Debug)]
pub struct ServiceConfig {
    pub service_type: u32,
    pub start_type: u32,
    pub arguments: Vec<String>,
    pub start_name: String,
}

/// Why a configured service is not the agent's.
#[derive(Clone, Copy, PartialEq, Eq, Structural, Debug)]
pub enum ServiceFault {
    NotOwnProcess,
    NotAutomatic,
    ArgumentCount,
    ImagePath,
    NotLocalService,
}

impl ServiceFault {
    /// The words in which the fault is reported.
    pub open spec fn text(self) -> Seq<char> {
        match self {
            ServiceFault::NotOwnProcess => "UnionCAgent is not an own-process service"@,
            ServiceFault::NotAutomatic => "UnionCAgent is not configured for automatic start"@,
            ServiceFault::ArgumentCount => "UnionCAgent ImagePath argument count is invalid"@,
            ServiceFault::ImagePath =>
                "UnionCAgent ImagePath does not match the fixed executable and arguments"@,
            ServiceFault::NotLocalService => "UnionCAgent does not run as LOCAL SERVICE"@,
        }
    }

    /// The words in which the fault is reported.
    pub fn message(&self) -> (r: String)
        ensures
            r@ == self.text(),
    {
        match self {
            ServiceFault::NotOwnProcess => text::owned("UnionCAgent is not an own-process service"),
            ServiceFault::NotAutomatic => text::owned(
                "UnionCAgent is not configured for automatic start",
            ),
            ServiceFault::ArgumentCount => text::owned(
                "UnionCAgent ImagePath argument count is invalid",
            ),
            ServiceFault::ImagePath => text::owned(
                "UnionCAgent ImagePath does not match the fixed executable and arguments",
            ),
            ServiceFault::NotLocalService => text::owned(
                "UnionCAgent does not run as LOCAL SERVICE",
            ),
        }
    }
}

/// The command line runs the fixed executable with the fixed configuration as a service.
pub open spec fn runs_fixed(arguments: Seq<Seq<char>>, program: Seq<char>, config: Seq<char>) -> bool {
    &&& text::lowered(arguments[0]) == text::lowered(program)
    &&& arguments[1] == "--windows-service"@
    &&& arguments[2] == "run"@
    &&& arguments[3] == "--config"@
    &&& text::lowered(arguments[4]) == text::lowered(config)
}

/// Whether the service is the agent's as it is installed.
pub open spec fn service_verdict(service: ServiceConfig, program: Seq<char>, config: Seq<char>) -> Result<
    (),
    ServiceFault,
> {
    if service.service_type != SERVICE_WIN32_OWN_PROCESS {
        Err(ServiceFault::NotOwnProcess)
    } else if service.start_type != SERVICE_AUTO_START {
        Err(ServiceFault::NotAutomatic)
    } else if service.arguments@.len() != 5 {
        Err(ServiceFault::ArgumentCount)
    } else if !runs_fixed(text::views(service.arguments@), program, config) {
        Err(ServiceFault::ImagePath)
    } else if !names_local_service(service.start_name@) {
        Err(ServiceFault::NotLocalService)
    } else {
        Ok(())
    }
}

/// Whether the service is the agent's as it is installed.
pub fn validate_agent_service(service: &ServiceConfig, program_exe: &str, config: &str) -> (r: Result<
    (),
    ServiceFault,
>)
    ensures
        r == service_verdict(*service, program_exe@, config@),
{
    if service.service_type != SERVICE_WIN32_OWN_PROCESS {
        return Err(ServiceFault::NotOwnProcess);
    }
    if service.start_type != SERVICE_AUTO_START {
        return Err(ServiceFault::NotAutomatic);
    }
    if service.arguments.len() != 5 {
        return Err(ServiceFault::ArgumentCount);
    }
    let arguments = &service.arguments;
    let fixed = text::same_ignoring_case(arguments[0].as_str(), program_exe) && text::same(
        arguments[1].as_str(),
        "--windows-service",
    ) && text::same(arguments[2].as_str(), "run") && text::same(arguments[3].as_str(), "--config")
        && text::same_ignoring_case(arguments[4].as_str(), config);
    if !fixed {
        return Err(ServiceFault::ImagePath);
    }
    if !is_local_service_name(service.start_name.as_str()) {
        return Err(ServiceFault::NotLocalService);
    }
    Ok(())
}

// ---------------------------------------------------------------------------
// The state
// ---------------------------------------------------------------------------
/// Why the state of the service is not what a transaction needs.
#[derive(Clone, Copy, PartialEq, Eq, Structural, Debug)]
pub enum ServiceStateFault {
    /// It neither runs nor has stopped.
    NotStable { state: u32 },
    /// It is in a state that no rollback waits for.
    Unsupported { state: u32 },
    /// It took too long to settle.
    StillPending,
    /// It took too long to reach a state.
    NotReached { expected: u32, state: u32 },
}

impl ServiceStateFault {
    /// The words in which the fault is reported.
    pub open spec fn text(self) -> Seq<char> {
        match self {
            ServiceStateFault::NotStable { state } =>
                "UnionCAgent is not in a stable running/stopped state ("@ + text::decimal(
                    state as nat,
                ) + ")"@,
            ServiceStateFault::Unsupported { state } =>
                "UnionCAgent entered unsupported rollback state "@ + text::decimal(state as nat),
            ServiceStateFault::StillPending =>
                "UnionCAgent did not reach a stable state within 30 seconds"@,
            ServiceStateFault::NotReached { expected, state } =>
                "UnionCAgent did not reach service state "@ + text::decimal(expected as nat)
                    + " within 30 seconds (current "@ + text::decimal(state as nat) + ")"@,
        }
    }

    /// The words in which the fault is reported.
    pub fn message(&self) -> (r: String)
        ensures
            r@ == self.text(),
    {
        match self {
            ServiceStateFault::NotStable { state } => text::cat3(
                "UnionCAgent is not in a stable running/stopped state (",
                text::decimal_text(*state as u64).as_str(),
                ")",
            ),
            ServiceStateFault::Unsupported { state } => text::cat(
                "UnionCAgent entered unsupported rollback state ",
                text::decimal_text(*state as u64).as_str(),
            ),
            ServiceStateFault::StillPending => text::owned(
                "UnionCAgent did not reach a stable state within 30 seconds",
            ),
            ServiceStateFault::NotReached { expected, state } => text::cat5(
                "UnionCAgent did not reach service state ",
                text::decimal_text(*expected as u64).as_str(),
                " within 30 seconds (current ",
                text::decimal_text(*state as u64).as_str(),
                ")",
            ),
        }
    }
}

/// Whether the service runs; it must neither start nor stop.
pub fn service_is_active(state: u32) -> (r: Result<bool, ServiceStateFault>)
    ensures
        r == if state == SERVICE_RUNNING {
            Ok::<bool, ServiceStateFault>(true)
        } else if state == SERVICE_STOPPED {
            Ok(false)
        } else {
            Err(ServiceStateFault::NotStable { state })
        },
{
    if state == SERVICE_RUNNING {
        Ok(true)
    } else if state == SERVICE_STOPPED {
        Ok(false)
    } else {
        Err(ServiceStateFault::NotStable { state })
    }
}

/// What a look at a service that is to settle comes to: whether it runs, or to look again.
pub fn settled(state: u32, expired: bool) -> (r: Result<Option<bool>, ServiceStateFault>)
    ensures
        r == if state == SERVICE_RUNNING {
            Ok::<Option<bool>, ServiceStateFault>(Some(true))
        } else if state == SERVICE_STOPPED {
            Ok(Some(false))
        } else if state != SERVICE_START_PENDING && state != SERVICE_STOP_PENDING {
            Err(ServiceStateFault::Unsupported { state })
        } else if expired {
            Err(ServiceStateFault::StillPending)
        } else {
            Ok(None)
        },
{
    if state == SERVICE_RUNNING {
        return Ok(Some(true));
    }
    if state == SERVICE_STOPPED {
        return Ok(Some(false));
    }
    if state != SERVICE_START_PENDING && state != SERVICE_STOP_PENDING {
        return Err(ServiceStateFault::Unsupported { state });
    }
    if expired {
        return Err(ServiceStateFault::StillPending);
    }
    Ok(None)
}

/// What a look at a service that is to reach a state comes to: whether it has, or to look again.
pub fn reached(state: u32, expected: u32, expired: bool) -> (r: Result<bool, ServiceStateFault>)
    ensures
        r == if state == expected {
            Ok::<bool, ServiceStateFault>(true)
        } else if expired {
            Err(ServiceStateFault::NotReached { expected, state })
        } else {
            Ok(false)
        },
{
    if state == expected {
        return Ok(true);
    }
    if expired {
        return Err(ServiceStateFault::NotReached { expected, state });
    }
    Ok(false)
}

/// A service that runs is active and one that has stopped is not; in any other state it can be said
/// to be neither.
pub proof fn when_a_service_is_active(state: u32, r: Result<bool, ServiceStateFault>)
    requires
        call_ensures(service_is_active, (state,), r),
    ensures
        r == Ok::<bool, ServiceStateFault>(true) <==> state == 4,
        r == Ok::<bool, ServiceStateFault>(false) <==> state == 1,
        state != 1 && state != 4 ==> r == Err::<bool, ServiceStateFault>(
            ServiceStateFault::NotStable { state },
        ),
{
}

/// A service settles by running or by having stopped. While it starts or stops it is looked at
/// again, until the time is over; any other state is an error at once.
pub proof fn when_a_service_has_settled(
    state: u32,
    expired: bool,
    r: Result<Option<bool>, ServiceStateFault>,
)
    requires
        call_ensures(settled, (state, expired), r),
    ensures
        state == 4 ==> r == Ok::<Option<bool>, ServiceStateFault>(Some(true)),
        state == 1 ==> r == Ok::<Option<bool>, ServiceStateFault>(Some(false)),
        (state == 2 || state == 3) && !expired ==> r == Ok::<Option<bool>, ServiceStateFault>(None),
        (state == 2 || state == 3) && expired ==> r == Err::<Option<bool>, ServiceStateFault>(
            ServiceStateFault::StillPending,
        ),
        state == 0 || state > 4 ==> r == Err::<Option<bool>, ServiceStateFault>(
            ServiceStateFault::Unsupported { state },
        ),
{
}

/// A state that is waited for is reached by being there, even at the last moment; until then it is
/// looked at again, and when the time is over both states are told.
pub proof fn when_a_state_is_reached(
    state: u32,
    expected: u32,
    expired: bool,
    r: Result<bool, ServiceStateFault>,
)
    requires
        call_ensures(reached, (state, expected, expired), r),
    ensures
        r == Ok::<bool, ServiceStateFault>(true) <==> state == expected,
        r == Ok::<bool, ServiceStateFault>(false) <==> state != expected && !expired,
        state != expected && expired ==> r == Err::<bool, ServiceStateFault>(
            ServiceStateFault::NotReached { expected, state },
        ),
{
}

/// A service is the agent's own exactly where it is a process of its own, starts with the system,
/// runs the fixed program with the fixed configuration and as the local service.
pub proof fn which_services_are_accepted(
    service: ServiceConfig,
    program: Seq<char>,
    config: Seq<char>,
)
    ensures
        ({
            let arguments = service.arguments@;
            let own = service.service_type == 16;
            let automatic = service.start_type == 2;
            let fixed = text::lowered(arguments[0]@) == text::lowered(program) && arguments[1]@
                == "--windows-service"@ && arguments[2]@ == "run"@ && arguments[3]@ == "--config"@
                && text::lowered(arguments[4]@) == text::lowered(config);
            let verdict = service_verdict(service, program, config);
            &&& verdict is Ok <==> own && automatic && arguments.len() == 5 && fixed
                && names_local_service(service.start_name@)
            &&& !own ==> verdict == Err::<(), ServiceFault>(ServiceFault::NotOwnProcess)
            &&& own && !automatic ==> verdict == Err::<(), ServiceFault>(
                ServiceFault::NotAutomatic,
            )
            &&& own && automatic && arguments.len() != 5 ==> verdict == Err::<(), ServiceFault>(
                ServiceFault::ArgumentCount,
            )
            &&& own && automatic && arguments.len() == 5 && !fixed ==> verdict == Err::<
                (),
                ServiceFault,
            >(ServiceFault::ImagePath)
            &&& own && automatic && arguments.len() == 5 && fixed && !names_local_service(
                service.start_name@,
            ) ==> verdict == Err::<(), ServiceFault>(ServiceFault::NotLocalService)
        }),
{
    let views = text::views(service.arguments@);
    if service.arguments@.len() == 5 {
        assert(views[0] == service.arguments@[0]@);
        assert(views[1] == service.arguments@[1]@);
        assert(views[2] == service.arguments@[2]@);
        assert(views[3] == service.arguments@[3]@);
        assert(views[4] == service.arguments@[4]@);
    }
}

/// The account of the local service goes by any of four names, in letters of either size and with
/// white space around; by no other.
pub proof fn which_names_are_the_local_service(value: Seq<char>)
    ensures
        names_local_service(value) <==> {
            let name = text::lowered(text::trimmed(value));
            name == "s-1-5-19"@ || name == "localservice"@ || name
                == "nt authority\\localservice"@ || name == "nt authority\\local service"@
        },
{
}

/// The security identifier of a service is made of the five words of a digest of its name, each
/// with its lowest byte first.
pub proof fn what_a_service_identifier_is_made_of(digest: Seq<u8>, k: int)
    requires
        digest.len() == 20,
        0 <= k < 5,
    ensures
        word(digest, k) == digest[4 * k] + 0x100 * digest[4 * k + 1] + 0x1_0000 * digest[4 * k + 2]
            + 0x100_0000 * digest[4 * k + 3],
        text::begins(sid_of(digest), "S-1-5-80-"@ + text::decimal(word(digest, 0)) + "-"@),
        sid_of(digest) == "S-1-5-80-"@ + text::joined(
            Seq::new(5, |i: int| text::decimal(word(digest, i))),
            "-"@,
        ),
{
    let parts = Seq::new(5, |i: int| text::decimal(word(digest, i)));
    let four = parts.drop_last();
    let three = four.drop_last();
    let two = three.drop_last();
    let one = two.drop_last();
    assert(text::joined(one, "-"@) == parts[0]);
    assert(text::joined(two, "-"@) == parts[0] + "-"@ + parts[1]);
    assert(text::joined(three, "-"@) == parts[0] + "-"@ + parts[1] + "-"@ + parts[2]);
    assert(text::joined(four, "-"@) == parts[0] + "-"@ + parts[1] + "-"@ + parts[2] + "-"@
        + parts[3]);
    assert(text::joined(parts, "-"@) == parts[0] + "-"@ + parts[1] + "-"@ + parts[2] + "-"@
        + parts[3] + "-"@ + parts[4]);
    assert(sid_of(digest) =~= "S-1-5-80-"@ + text::joined(parts, "-"@));
    let head = "S-1-5-80-"@ + text::decimal(word(digest, 0)) + "-"@;
    assert(sid_of(digest).subrange(0, head.len() as int) =~= head);
}

} // verus!
