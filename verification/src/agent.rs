//! The life of one agent process.

use crate::config::AgentCommand;
use crate::delivery::once::RunOnceOutcome;
use crate::platform::Platform;
use crate::text;
use vstd::prelude::*;
use vstd::utf8::{encode_scalar, encode_utf8};

verus! {

/// Which operation of the process is under way.
#[derive(Clone, Copy, PartialEq, Eq, Structural, Debug)]
pub enum AgentPhase {
    /// An operation that ends the process.
    Last,
    InstallingSignal,
    LookingForIdentity,
    Identifying,
    WarmingUp,
    /// Taking the one sample of a probe.
    Probing,
    OpeningSpool,
    ReportingReady,
    PreparingReporter,
    RunningOnce,
    Finished,
}

/// What came of the operation under way. An operation that fails ends the process with its
/// error, whatever it was.
#[derive(Clone, Copy, PartialEq, Eq, Structural, Debug)]
pub enum AgentEvent {
    SignalInstalled,
    /// Whether the host has an identity that is authorized now.
    AuthorizedIdentity(bool),
    /// The host is named; whether the shutdown was requested meanwhile.
    Identified { shutdown: bool },
    WarmedUp,
    /// The shutdown was requested while the process warmed up.
    Shutdown,
    /// The probe's sample is taken; whether the shutdown was requested meanwhile.
    Sampled { shutdown: bool },
    SpoolOpened,
    /// Whether the process that asked for readiness wants the agent to go on.
    ReadyReported(bool),
    /// There is a reporter, or the shutdown came first.
    ReporterPrepared(bool),
    Once(RunOnceOutcome),
    /// The last operation ended well.
    Done,
    Failed,
}

/// What to do next.
#[derive(Clone, Copy, PartialEq, Eq, Structural, Debug)]
pub enum AgentAction {
    PrintStatus,
    /// Run the doctor that changes and sends nothing.
    ReadOnlyDoctor,
    InstallSignal,
    /// Look for an identity that is authorized now.
    LookForIdentity,
    LoadIdentity,
    /// Go by a fresh name that is stored nowhere.
    TransientIdentity,
    Pair,
    /// Let the CPU counters settle.
    WarmUp,
    /// Take one sample.
    Sample,
    PrintProbe,
    OpenSpool,
    ReportReady,
    PrepareReporter,
    RunOnce,
    PrintDoctor,
    PrintOnce,
    RunLoop,
    Finish,
    /// End with the error of the operation that failed.
    Fail,
}

/// One agent process.
#[derive(Clone, Copy, PartialEq, Eq, Structural, Debug)]
pub struct AgentRun {
    pub command: AgentCommand,
    /// Somebody waits for the process to be ready.
    pub awaited: bool,
    pub phase: AgentPhase,
}

impl AgentRun {
    /// The event can come now.
    pub open spec fn awaits(self, event: AgentEvent) -> bool {
        event is Failed && self.phase != AgentPhase::Finished || match self.phase {
            AgentPhase::Last => event is Done,
            AgentPhase::InstallingSignal => event is SignalInstalled,
            AgentPhase::LookingForIdentity => event is AuthorizedIdentity,
            AgentPhase::Identifying => event is Identified,
            AgentPhase::WarmingUp => event is WarmedUp || event is Shutdown,
            AgentPhase::Probing => event is Sampled,
            AgentPhase::OpeningSpool => event is SpoolOpened,
            AgentPhase::ReportingReady => event is ReadyReported,
            AgentPhase::PreparingReporter => event is ReporterPrepared,
            AgentPhase::RunningOnce => event is Once,
            AgentPhase::Finished => false,
        }
    }

    /// The run in another phase, with what to do there.
    pub open spec fn to(self, phase: AgentPhase, action: AgentAction) -> (AgentRun, AgentAction) {
        (AgentRun { phase, ..self }, action)
    }

    /// The first step for a command: what only looks does nothing else.
    pub open spec fn first(command: AgentCommand, delivery: bool, awaited: bool) -> (
        AgentRun,
        AgentAction,
    ) {
        let run = AgentRun { command, awaited, phase: AgentPhase::Last };
        if command == AgentCommand::Status {
            run.to(AgentPhase::Last, AgentAction::PrintStatus)
        } else if command == AgentCommand::Doctor && !delivery {
            run.to(AgentPhase::Last, AgentAction::ReadOnlyDoctor)
        } else {
            run.to(AgentPhase::InstallingSignal, AgentAction::InstallSignal)
        }
    }

    /// The step that `event` leads to.
    pub open spec fn next(self, event: AgentEvent) -> (AgentRun, AgentAction) {
        match event {
            AgentEvent::Failed => self.to(AgentPhase::Finished, AgentAction::Fail),
            AgentEvent::Done => self.to(AgentPhase::Finished, AgentAction::Finish),
            AgentEvent::SignalInstalled => if self.command == AgentCommand::Probe {
                self.to(AgentPhase::Identifying, AgentAction::TransientIdentity)
            } else {
                self.to(AgentPhase::LookingForIdentity, AgentAction::LookForIdentity)
            },
            AgentEvent::AuthorizedIdentity(present) => if present {
                self.to(AgentPhase::Identifying, AgentAction::LoadIdentity)
            } else {
                self.to(AgentPhase::Identifying, AgentAction::TransientIdentity)
            },
            AgentEvent::Identified { shutdown } => if shutdown {
                self.to(AgentPhase::Finished, AgentAction::Finish)
            } else if self.command == AgentCommand::Pair {
                self.to(AgentPhase::Last, AgentAction::Pair)
            } else {
                self.to(AgentPhase::WarmingUp, AgentAction::WarmUp)
            },
            AgentEvent::Shutdown => self.to(AgentPhase::Finished, AgentAction::Finish),
            AgentEvent::WarmedUp => if self.command == AgentCommand::Probe {
                self.to(AgentPhase::Probing, AgentAction::Sample)
            } else {
                self.to(AgentPhase::OpeningSpool, AgentAction::OpenSpool)
            },
            AgentEvent::Sampled { shutdown } => if shutdown {
                self.to(AgentPhase::Finished, AgentAction::Finish)
            } else {
                self.to(AgentPhase::Last, AgentAction::PrintProbe)
            },
            AgentEvent::SpoolOpened => if self.awaited {
                self.to(AgentPhase::ReportingReady, AgentAction::ReportReady)
            } else {
                self.to(AgentPhase::PreparingReporter, AgentAction::PrepareReporter)
            },
            AgentEvent::ReadyReported(wanted) => if wanted {
                self.to(AgentPhase::PreparingReporter, AgentAction::PrepareReporter)
            } else {
                self.to(AgentPhase::Finished, AgentAction::Finish)
            },
            AgentEvent::ReporterPrepared(present) => if !present {
                self.to(AgentPhase::Finished, AgentAction::Finish)
            } else if self.command == AgentCommand::Once || self.command == AgentCommand::Doctor {
                self.to(AgentPhase::RunningOnce, AgentAction::RunOnce)
            } else {
                self.to(AgentPhase::Last, AgentAction::RunLoop)
            },
            AgentEvent::Once(outcome) => if outcome == RunOnceOutcome::Shutdown {
                self.to(AgentPhase::Finished, AgentAction::Finish)
            } else if self.command == AgentCommand::Doctor {
                self.to(AgentPhase::Last, AgentAction::PrintDoctor)
            } else {
                self.to(AgentPhase::Last, AgentAction::PrintOnce)
            },
        }
    }

    /// Begin to carry out a command. `doctor_delivery` asks the doctor for a real delivery, and
    /// `awaited` says that somebody waits for the process to be ready.
    pub fn start(command: AgentCommand, doctor_delivery: bool, awaited: bool) -> (r: (
        AgentRun,
        AgentAction,
    ))
        ensures
            r == AgentRun::first(command, doctor_delivery, awaited),
    {
        let mut run = AgentRun { command, awaited, phase: AgentPhase::Last };
        let action = if command == AgentCommand::Status {
            AgentAction::PrintStatus
        } else if command == AgentCommand::Doctor && !doctor_delivery {
            AgentAction::ReadOnlyDoctor
        } else {
            run.enter(AgentPhase::InstallingSignal, AgentAction::InstallSignal)
        };
        (run, action)
    }

    fn enter(&mut self, phase: AgentPhase, action: AgentAction) -> (r: AgentAction)
        ensures
            (*final(self), r) == old(self).to(phase, action),
    {
        self.phase = phase;
        action
    }

    /// Take the outcome of the operation under way and say what to do next.
    pub fn step(&mut self, event: AgentEvent) -> (r: AgentAction)
        requires
            old(self).awaits(event),
        ensures
            (*final(self), r) == old(self).next(event),
    {
        match event {
            AgentEvent::Failed => self.enter(AgentPhase::Finished, AgentAction::Fail),
            AgentEvent::Done => self.enter(AgentPhase::Finished, AgentAction::Finish),
            AgentEvent::SignalInstalled => if self.command == AgentCommand::Probe {
                self.enter(AgentPhase::Identifying, AgentAction::TransientIdentity)
            } else {
                self.enter(AgentPhase::LookingForIdentity, AgentAction::LookForIdentity)
            },
            AgentEvent::AuthorizedIdentity(present) => if present {
                self.enter(AgentPhase::Identifying, AgentAction::LoadIdentity)
            } else {
                self.enter(AgentPhase::Identifying, AgentAction::TransientIdentity)
            },
            AgentEvent::Identified { shutdown } => if shutdown {
                self.enter(AgentPhase::Finished, AgentAction::Finish)
            } else if self.command == AgentCommand::Pair {
                self.enter(AgentPhase::Last, AgentAction::Pair)
            } else {
                self.enter(AgentPhase::WarmingUp, AgentAction::WarmUp)
            },
            AgentEvent::Shutdown => self.enter(AgentPhase::Finished, AgentAction::Finish),
            AgentEvent::WarmedUp => if self.command == AgentCommand::Probe {
                self.enter(AgentPhase::Probing, AgentAction::Sample)
            } else {
                self.enter(AgentPhase::OpeningSpool, AgentAction::OpenSpool)
            },
            AgentEvent::Sampled { shutdown } => if shutdown {
                self.enter(AgentPhase::Finished, AgentAction::Finish)
            } else {
                self.enter(AgentPhase::Last, AgentAction::PrintProbe)
            },
            AgentEvent::SpoolOpened => if self.awaited {
                self.enter(AgentPhase::ReportingReady, AgentAction::ReportReady)
            } else {
                self.enter(AgentPhase::PreparingReporter, AgentAction::PrepareReporter)
            },
            AgentEvent::ReadyReported(wanted) => if wanted {
                self.enter(AgentPhase::PreparingReporter, AgentAction::PrepareReporter)
            } else {
                self.enter(AgentPhase::Finished, AgentAction::Finish)
            },
            AgentEvent::ReporterPrepared(present) => if !present {
                self.enter(AgentPhase::Finished, AgentAction::Finish)
            } else if self.command == AgentCommand::Once || self.command == AgentCommand::Doctor {
                self.enter(AgentPhase::RunningOnce, AgentAction::RunOnce)
            } else {
                self.enter(AgentPhase::Last, AgentAction::RunLoop)
            },
            AgentEvent::Once(outcome) => if outcome == RunOnceOutcome::Shutdown {
                self.enter(AgentPhase::Finished, AgentAction::Finish)
            } else if self.command == AgentCommand::Doctor {
                self.enter(AgentPhase::Last, AgentAction::PrintDoctor)
            } else {
                self.enter(AgentPhase::Last, AgentAction::PrintOnce)
            },
        }
    }
}

/// The status and the read-only doctor are over after one operation: they load no identity, open
/// no spool and send nothing.
pub proof fn looking_changes_nothing(command: AgentCommand, delivery: bool, awaited: bool)
    requires
        command == AgentCommand::Status || command == AgentCommand::Doctor && !delivery,
    ensures
        ({
            let (run, action) = AgentRun::first(command, delivery, awaited);
            &&& action == AgentAction::PrintStatus || action == AgentAction::ReadOnlyDoctor
            &&& run.next(AgentEvent::Done).1 == AgentAction::Finish
            &&& forall|event: AgentEvent| #[trigger]
                run.awaits(event) ==> event == AgentEvent::Done || event == AgentEvent::Failed
        }),
{
}

/// The process says that it is ready only once its spool is open, and does not wait for the
/// server's authorization before: a service that is not yet paired is healthy.
pub proof fn readiness_follows_the_spool(run: AgentRun, event: AgentEvent)
    requires
        run.awaits(event),
    ensures
        run.next(event).1 == AgentAction::ReportReady ==> event == AgentEvent::SpoolOpened,
        run.next(event).1 == AgentAction::PrepareReporter && run.awaited ==> event
            == AgentEvent::ReadyReported(true),
{
}

/// A shutdown ends the process well, wherever it is noticed.
pub proof fn a_shutdown_is_no_failure(run: AgentRun, event: AgentEvent)
    requires
        run.awaits(event),
        event == AgentEvent::Shutdown || event == (AgentEvent::Identified { shutdown: true })
            || event == (AgentEvent::Sampled { shutdown: true }) || event
            == AgentEvent::ReporterPrepared(false) || event == AgentEvent::Once(
            RunOnceOutcome::Shutdown,
        ),
    ensures
        run.next(event) == run.to(AgentPhase::Finished, AgentAction::Finish),
{
}

/// A probe neither reads a stored identity nor opens the spool nor reports anything.
pub proof fn a_probe_stays_local(run: AgentRun, event: AgentEvent)
    requires
        run.awaits(event),
        run.command == AgentCommand::Probe,
        run.phase != AgentPhase::LookingForIdentity,
        run.phase != AgentPhase::OpeningSpool,
        run.phase != AgentPhase::ReportingReady,
        run.phase != AgentPhase::PreparingReporter,
        run.phase != AgentPhase::RunningOnce,
    ensures
        run.next(event).0.command == AgentCommand::Probe,
        run.next(event).0.phase != AgentPhase::LookingForIdentity,
        run.next(event).0.phase != AgentPhase::OpeningSpool,
        run.next(event).0.phase != AgentPhase::ReportingReady,
        run.next(event).0.phase != AgentPhase::PreparingReporter,
        run.next(event).0.phase != AgentPhase::RunningOnce,
        run.next(event).1 != AgentAction::LoadIdentity,
        run.next(event).1 != AgentAction::OpenSpool,
        run.next(event).1 != AgentAction::RunOnce,
        run.next(event).1 != AgentAction::RunLoop,
{
}

// ---------------------------------------------------------------------------
// What a human reader is told
// ---------------------------------------------------------------------------
/// The words on a probe.
pub fn probe_text(
    logical_cpus: u64,
    networks: u64,
    disks: u64,
    capabilities: u64,
    collector_errors: u64,
) -> (r: String)
    ensures
        r@ == "Local collection succeeded: "@ + text::decimal(logical_cpus as nat)
            + " logical CPUs, "@ + text::decimal(networks as nat) + " network interfaces, "@
            + text::decimal(disks as nat) + " disks, "@ + text::decimal(capabilities as nat)
            + " capabilities ("@ + text::decimal(collector_errors as nat) + " collector errors)."@,
{
    let mut out = text::cat5(
        "Local collection succeeded: ",
        text::decimal_text(logical_cpus).as_str(),
        " logical CPUs, ",
        text::decimal_text(networks).as_str(),
        " network interfaces, ",
    );
    out.append(text::decimal_text(disks).as_str());
    out.append(" disks, ");
    out.append(text::decimal_text(capabilities).as_str());
    out.append(" capabilities (");
    out.append(text::decimal_text(collector_errors).as_str());
    out.append(" collector errors).");
    out
}

/// The words on a delivery that was asked for once: by the doctor, or by itself.
pub fn delivered_text(command: AgentCommand) -> (r: &'static str)
    ensures
        r@ == if command == AgentCommand::Doctor {
            "UnionC Agent doctor: healthy; end-to-end delivery succeeded and the spool is drained."@
        } else {
            "One telemetry snapshot was delivered successfully."@
        },
{
    if command == AgentCommand::Doctor {
        "UnionC Agent doctor: healthy; end-to-end delivery succeeded and the spool is drained."
    } else {
        "One telemetry snapshot was delivered successfully."
    }
}

/// What comes of an operation when all goes well and nobody asks for a shutdown; `authorized` tells
/// whether the host has an identity that is authorized now.
pub open spec fn goes_well(action: AgentAction, authorized: bool) -> AgentEvent {
    match action {
        AgentAction::InstallSignal => AgentEvent::SignalInstalled,
        AgentAction::LookForIdentity => AgentEvent::AuthorizedIdentity(authorized),
        AgentAction::LoadIdentity => AgentEvent::Identified { shutdown: false },
        AgentAction::TransientIdentity => AgentEvent::Identified { shutdown: false },
        AgentAction::WarmUp => AgentEvent::WarmedUp,
        AgentAction::Sample => AgentEvent::Sampled { shutdown: false },
        AgentAction::OpenSpool => AgentEvent::SpoolOpened,
        AgentAction::ReportReady => AgentEvent::ReadyReported(true),
        AgentAction::PrepareReporter => AgentEvent::ReporterPrepared(true),
        AgentAction::RunOnce => AgentEvent::Once(RunOnceOutcome::Delivered),
        _ => AgentEvent::Done,
    }
}

/// The process goes through those actions of the course, from the `i`th on, that are called for, and
/// through no others, and is then over.
pub open spec fn follows(
    run: AgentRun,
    action: AgentAction,
    authorized: bool,
    course: Seq<(bool, AgentAction)>,
    i: int,
) -> bool
    decreases course.len() - i,
{
    if i < 0 || i >= course.len() {
        run.phase is Finished && action == AgentAction::Finish
    } else if !course[i].0 {
        follows(run, action, authorized, course, i + 1)
    } else {
        let event = goes_well(action, authorized);
        let (after, next) = run.next(event);
        &&& run.awaits(event)
        &&& next == course[i].1
        &&& follows(after, next, authorized, course, i + 1)
    }
}

/// The course of each command. Status and the read-only doctor are one operation. Every other
/// command installs the signal and names the host, with the stored name where that is authorized
/// and the command is no probe; pairing then pairs. A probe warms up, samples and prints; the others
/// warm up, open the spool, say that they are ready where somebody waits for that, and prepare their
/// reporter, and then run the loop, or once, and print what came of it.
pub proof fn the_course_of_a_command(
    command: AgentCommand,
    delivery: bool,
    awaited: bool,
    authorized: bool,
)
    ensures
        ({
            let (run, action) = AgentRun::first(command, delivery, awaited);
            let looks = command == AgentCommand::Status || (command == AgentCommand::Doctor
                && !delivery);
            let probe = command == AgentCommand::Probe;
            let pair = command == AgentCommand::Pair;
            let once = command == AgentCommand::Once || (command == AgentCommand::Doctor
                && delivery);
            let stored = !looks && !probe && authorized;
            let reports = once || command == AgentCommand::Run;
            &&& action == if command == AgentCommand::Status {
                AgentAction::PrintStatus
            } else if looks {
                AgentAction::ReadOnlyDoctor
            } else {
                AgentAction::InstallSignal
            }
            &&& run.command == command
            &&& follows(
                run,
                action,
                authorized,
                seq![
                    (!looks && !probe, AgentAction::LookForIdentity),
                    (stored, AgentAction::LoadIdentity),
                    (!looks && !stored, AgentAction::TransientIdentity),
                    (pair, AgentAction::Pair),
                    (probe || reports, AgentAction::WarmUp),
                    (probe, AgentAction::Sample),
                    (probe, AgentAction::PrintProbe),
                    (reports, AgentAction::OpenSpool),
                    (reports && awaited, AgentAction::ReportReady),
                    (reports, AgentAction::PrepareReporter),
                    (once, AgentAction::RunOnce),
                    (command == AgentCommand::Once, AgentAction::PrintOnce),
                    (command == AgentCommand::Doctor && delivery, AgentAction::PrintDoctor),
                    (command == AgentCommand::Run, AgentAction::RunLoop),
                    (true, AgentAction::Finish),
                ],
                0,
            )
        }),
{
    reveal_with_fuel(follows, 17);
}

/// What fails ends the process with its error, and a process that nobody waits for any more ends
/// well.
pub proof fn what_ends_the_process(run: AgentRun)
    ensures
        run.next(AgentEvent::Failed).1 == AgentAction::Fail,
        run.next(AgentEvent::Failed).0.phase is Finished,
        run.next(AgentEvent::ReadyReported(false)).1 == AgentAction::Finish,
        run.next(AgentEvent::ReadyReported(false)).0.phase is Finished,
        !(run.phase is Finished) ==> run.awaits(AgentEvent::Failed),
        run.phase is WarmingUp <==> run.awaits(AgentEvent::Shutdown),
{
}

// ---------------------------------------------------------------------------
// A warning that comes too late to be an error
// ---------------------------------------------------------------------------
/// The most bytes of an error that such a warning carries.
pub const MAX_POST_COMMIT_EVENT_WARNING_DETAIL_BYTES: usize = 768;

/// The bytes that the sign of an omission takes.
pub const ELLIPSIS_BYTES: usize = 3;

/// The first `n` characters of `s` are as many as fit into `limit` bytes.
pub open spec fn fits_most(s: Seq<char>, limit: nat, n: int) -> bool {
    &&& 0 <= n <= s.len()
    &&& encode_utf8(s.take(n)).len() <= limit
    &&& n < s.len() ==> encode_utf8(s.take(n + 1)).len() > limit
}

/// `shown` is `detail`, or where that is too long as much of it as fits with the sign of an
/// omission behind it.
pub open spec fn bounded_detail(detail: Seq<char>, shown: Seq<char>) -> bool {
    if encode_utf8(detail).len() <= MAX_POST_COMMIT_EVENT_WARNING_DETAIL_BYTES {
        shown == detail
    } else {
        exists|n: int| #[trigger]
            fits_most(
                detail,
                (MAX_POST_COMMIT_EVENT_WARNING_DETAIL_BYTES - ELLIPSIS_BYTES) as nat,
                n,
            ) && shown == detail.take(n) + "…"@
    }
}

proof fn lemma_encode_push(s: Seq<char>, c: char)
    ensures
        encode_utf8(s.push(c)) == encode_utf8(s) + encode_scalar(c as u32),
    decreases s.len(),
{
    if s.len() == 0 {
        assert(s.push(c).drop_first() =~= Seq::<char>::empty());
        assert(s =~= Seq::<char>::empty());
        assert(encode_utf8(s) =~= Seq::<u8>::empty());
        assert(encode_utf8(s.push(c)) =~= encode_scalar(c as u32) + encode_utf8(
            s.push(c).drop_first(),
        ));
    } else {
        lemma_encode_push(s.drop_first(), c);
        assert(s.push(c).drop_first() =~= s.drop_first().push(c));
        assert(encode_utf8(s.push(c)) =~= encode_utf8(s) + encode_scalar(c as u32));
    }
}

fn encoded_length(c: char) -> (r: usize)
    ensures
        r == encode_scalar(c as u32).len(),
        r <= 4,
{
    let code: u32 = c as u32;
    if code <= 0x7f {
        1
    } else if code <= 0x7ff {
        2
    } else if code <= 0xffff {
        3
    } else {
        4
    }
}

/// How many characters fit into `limit` bytes.
fn fitting(chars: &Vec<char>, limit: usize) -> (n: usize)
    requires
        limit <= MAX_POST_COMMIT_EVENT_WARNING_DETAIL_BYTES,
    ensures
        fits_most(chars@, limit as nat, n as int),
{
    let mut n: usize = 0;
    let mut used: usize = 0;
    assert(chars@.take(0) =~= Seq::<char>::empty());
    while n < chars.len()
        invariant
            n <= chars@.len(),
            used == encode_utf8(chars@.take(n as int)).len(),
            used <= limit,
            limit <= MAX_POST_COMMIT_EVENT_WARNING_DETAIL_BYTES,
        decreases chars@.len() - n,
    {
        let width: usize = encoded_length(chars[n]);
        proof {
            lemma_encode_push(chars@.take(n as int), chars@[n as int]);
            assert(chars@.take(n as int).push(chars@[n as int]) =~= chars@.take(n + 1));
        }
        if used + width > limit {
            return n;
        }
        used = used + width;
        n += 1;
    }
    n
}

/// An error as it is shown after the pairing was committed.
pub fn post_commit_detail(detail: &str) -> (r: String)
    ensures
        bounded_detail(detail@, r@),
        encode_utf8(r@).len() <= MAX_POST_COMMIT_EVENT_WARNING_DETAIL_BYTES,
{
    if text::byte_length(detail) <= MAX_POST_COMMIT_EVENT_WARNING_DETAIL_BYTES {
        return text::owned(detail);
    }
    let chars = text::to_chars(detail);
    let limit: usize = MAX_POST_COMMIT_EVENT_WARNING_DETAIL_BYTES - ELLIPSIS_BYTES;
    let n: usize = fitting(&chars, limit);
    let mut shown = text::range_text(&chars, 0, n);
    shown.append("…");
    proof {
        assert(detail@.subrange(0, n as int) =~= detail@.take(n as int));
        assert(fits_most(
            detail@,
            (MAX_POST_COMMIT_EVENT_WARNING_DETAIL_BYTES - ELLIPSIS_BYTES) as nat,
            n as int,
        ));
        assert(shown@ == detail@.take(n as int) + "…"@);
        reveal_strlit("…");
        lemma_encode_push(detail@.take(n as int), '…');
        assert(shown@ =~= detail@.take(n as int).push('…'));
    }
    shown
}

/// The warning that the pairing was committed, but its event was not written.
pub fn post_commit_warning(detail: &str) -> (r: String)
    ensures
        exists|shown: Seq<char>| #[trigger]
            bounded_detail(detail@, shown) && r@
                == "Warning: pairing credentials and configuration were committed, but the paired event could not be written: "@
                + shown,
{
    let shown = post_commit_detail(detail);
    text::cat(
        "Warning: pairing credentials and configuration were committed, but the paired event could not be written: ",
        shown.as_str(),
    )
}

// ---------------------------------------------------------------------------
// Readiness under systemd
// ---------------------------------------------------------------------------
/// Somebody waits for readiness on a platform where the service manager can be told.
pub fn platform_ready_callback(platform: Platform) -> (r: bool)
    ensures
        r == (platform == Platform::Linux),
{
    platform == Platform::Linux
}

/// Where readiness is reported.
#[derive(Debug)]
pub enum NotifyAddress {
    /// A name in the abstract name space.
    Abstract(Vec<u8>),
    /// A path in the file system.
    Path(Vec<u8>),
}

/// Why readiness cannot be reported.
#[derive(Clone, Copy, PartialEq, Eq, Structural, Debug)]
pub enum NotifyFault {
    EmptyAbstractName,
    RelativePath,
    Truncated,
}

impl NotifyFault {
    /// The words in which the fault is reported.
    pub open spec fn text(self) -> Seq<char> {
        match self {
            NotifyFault::EmptyAbstractName =>
                "systemd notification socket has an empty abstract name"@,
            NotifyFault::RelativePath => "systemd notification socket path is not absolute"@,
            NotifyFault::Truncated => "systemd readiness notification was truncated"@,
        }
    }

    /// The words in which the fault is reported.
    pub fn message(&self) -> (r: String)
        ensures
            r@ == self.text(),
    {
        match self {
            NotifyFault::EmptyAbstractName => text::owned(
                "systemd notification socket has an empty abstract name",
            ),
            NotifyFault::RelativePath => text::owned(
                "systemd notification socket path is not absolute",
            ),
            NotifyFault::Truncated => text::owned("systemd readiness notification was truncated"),
        }
    }
}

/// The address that a notification socket is given by: behind `@` a name in the abstract name
/// space, else an absolute path.
pub fn notify_address(socket: &Vec<u8>) -> (r: Result<NotifyAddress, NotifyFault>)
    ensures
        match r {
            Ok(NotifyAddress::Abstract(name)) => socket@.len() > 1 && socket@[0] == 0x40 && name@
                == socket@.skip(1),
            Ok(NotifyAddress::Path(path)) => socket@.len() > 0 && socket@[0] == 0x2f && path@
                == socket@,
            Err(NotifyFault::EmptyAbstractName) => socket@ == seq![0x40u8],
            Err(NotifyFault::RelativePath) => socket@.len() == 0 || socket@[0] != 0x40 && socket@[0]
                != 0x2f,
            Err(NotifyFault::Truncated) => false,
        },
{
    if socket.len() > 0 && socket[0] == 0x40 {
        if socket.len() == 1 {
            assert(socket@ =~= seq![0x40u8]);
            return Err(NotifyFault::EmptyAbstractName);
        }
        let name = text::range_bytes(socket, 1, socket.len());
        assert(name@ =~= socket@.skip(1));
        return Ok(NotifyAddress::Abstract(name));
    }
    if socket.len() == 0 || socket[0] != 0x2f {
        return Err(NotifyFault::RelativePath);
    }
    let path = text::range_bytes(socket, 0, socket.len());
    assert(path@ =~= socket@);
    Ok(NotifyAddress::Path(path))
}

/// The message that reports readiness.
pub fn ready_message() -> (r: &'static str)
    ensures
        r@ == "READY=1"@,
{
    "READY=1"
}

/// Whether the whole message was sent.
pub fn readiness_sent(written: usize) -> (r: Result<(), NotifyFault>)
    ensures
        r == if written == "READY=1"@.len() {
            Ok::<(), NotifyFault>(())
        } else {
            Err(NotifyFault::Truncated)
        },
{
    proof {
        reveal_strlit("READY=1");
    }
    if written != 7 {
        return Err(NotifyFault::Truncated);
    }
    Ok(())
}

/// The supervisor's socket is a path or, behind an at sign, an abstract name; anything else is
/// refused.
pub proof fn which_sockets_are_told(socket: Vec<u8>, r: Result<NotifyAddress, NotifyFault>)
    requires
        call_ensures(notify_address, (&socket,), r),
    ensures
        r is Ok <==> socket@.len() > 0 && (socket@[0] == 0x2f || socket@[0] == 0x40 && socket@.len()
            > 1),
        (r matches Ok(NotifyAddress::Path(path))) <==> socket@.len() > 0 && socket@[0] == 0x2f,
        r matches Ok(NotifyAddress::Path(path)) ==> path@ == socket@,
        r matches Ok(NotifyAddress::Abstract(name)) ==> socket@ == seq![0x40u8] + name@,
{
    if socket@.len() > 0 {
        assert(socket@ =~= seq![socket@[0]] + socket@.skip(1));
    }
}

/// The supervisor has been told only where the whole message was sent.
pub proof fn when_readiness_is_told(written: usize, r: Result<(), NotifyFault>)
    requires
        call_ensures(readiness_sent, (written,), r),
    ensures
        r is Ok <==> written == 7,
{
    reveal_strlit("READY=1");
}

/// A detail that is short enough is shown as it is; of a longer one the beginning is shown, as much
/// as fits with the sign that something is missing.
pub proof fn how_a_detail_is_shown(detail: Seq<char>, shown: Seq<char>)
    requires
        bounded_detail(detail, shown),
    ensures
        encode_utf8(detail).len() <= 768 ==> shown == detail,
        encode_utf8(detail).len() > 768 ==> exists|n: int|
            0 <= n < detail.len() && shown == #[trigger] detail.take(n) + "…"@ && encode_utf8(
                detail.take(n),
            ).len() <= 765 && encode_utf8(detail.take(n + 1)).len() > 765,
{
    if encode_utf8(detail).len() > 768 {
        let n = choose|n: int| #[trigger]
            fits_most(
                detail,
                (MAX_POST_COMMIT_EVENT_WARNING_DETAIL_BYTES - ELLIPSIS_BYTES) as nat,
                n,
            ) && shown == detail.take(n) + "…"@;
        if n == detail.len() {
            assert(detail.take(n) =~= detail);
        }
        assert(shown == detail.take(n) + "…"@);
    }
}

} // verus!
