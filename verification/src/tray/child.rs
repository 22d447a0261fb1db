//! The agent that the tray's elevated helper starts to pair: its command line, its supervision,
//! and what its end means.

use crate::platform::{below, path_below};
use crate::schedule::SECOND;
use crate::text;
use crate::tray::events::EventFault;
use vstd::prelude::*;

verus! {

/// How long a pairing may take, in seconds.
pub const PAIR_OPERATION_SECONDS: u64 = 1200;

/// How much longer the helper waits before it cancels, in seconds.
pub const PAIR_CANCEL_GRACE_SECONDS: u64 = 15;

/// How long a cancelled agent has to end by itself, in nanoseconds.
pub const CONTAINMENT_NANOSECONDS: u64 = 30_000_000_000;

/// The most of the agent's diagnostics that is kept, in bytes.
pub const MAX_CHILD_STDERR_BYTES: usize = 65_536;

/// The name of the event by which the helper cancels the pairing.
pub fn cancel_event_name(nonce: &str) -> (r: String)
    ensures
        r@ == "Local\\UnionCAgentPairCancel-"@ + nonce@,
{
    text::cat("Local\\UnionCAgentPairCancel-", nonce)
}

/// The agent's command line.
pub open spec fn pair_arguments_text(
    config: Seq<char>,
    server: Seq<char>,
    cancel_event: Seq<char>,
    name: Option<Seq<char>>,
) -> Seq<Seq<char>> {
    let fixed = seq![
        "pair"@,
        "--tray-events"@,
        "--tray-activation-stdin"@,
        "--config"@,
        config,
        "--server"@,
        server,
        "--tray-cancel-event"@,
        cancel_event,
        "--tray-deadline-seconds"@,
        text::decimal(PAIR_OPERATION_SECONDS as nat),
        "--replace-pending-pairing"@,
    ];
    match name {
        None => fixed,
        Some(name) => fixed.push("--name"@).push(name),
    }
}

/// The agent's command line.
pub fn pair_arguments(config: &str, server: &str, cancel_event: &str, name: Option<&str>) -> (r: Vec<
    String,
>)
    ensures
        text::views(r@) == pair_arguments_text(
            config@,
            server@,
            cancel_event@,
            match name {
                Some(name) => Some(name@),
                None => None,
            },
        ),
{
    let mut out: Vec<String> = Vec::new();
    out.push(text::owned("pair"));
    out.push(text::owned("--tray-events"));
    out.push(text::owned("--tray-activation-stdin"));
    out.push(text::owned("--config"));
    out.push(text::owned(config));
    out.push(text::owned("--server"));
    out.push(text::owned(server));
    out.push(text::owned("--tray-cancel-event"));
    out.push(text::owned(cancel_event));
    out.push(text::owned("--tray-deadline-seconds"));
    out.push(text::decimal_text(PAIR_OPERATION_SECONDS));
    out.push(text::owned("--replace-pending-pairing"));
    if let Some(name) = name {
        out.push(text::owned("--name"));
        out.push(text::owned(name));
    }
    assert(text::views(out@) =~= pair_arguments_text(
        config@,
        server@,
        cancel_event@,
        match name {
            Some(name) => Some(name@),
            None => None,
        },
    ));
    out
}

/// Pairs of texts by their characters.
pub open spec fn pair_views(pairs: Seq<(String, String)>) -> Seq<(Seq<char>, Seq<char>)> {
    Seq::new(pairs.len(), |i: int| (pairs[i].0@, pairs[i].1@))
}

/// The whole environment of the agent: nothing is inherited, so that nothing of the user's
/// reaches a process with an administrator's rights. The two directories are those that Windows
/// itself names.
pub fn agent_environment(windows_directory: &str, program_data: &str) -> (r: Vec<(String, String)>)
    ensures
        pair_views(r@) == seq![
            ("SystemRoot"@, windows_directory@),
            ("WINDIR"@, windows_directory@),
            ("PROGRAMDATA"@, program_data@),
            ("UNIONC_AGENT_STATE_DIR"@, below(program_data@, "UnionC Agent"@)),
        ],
{
    let mut out: Vec<(String, String)> = Vec::new();
    out.push((text::owned("SystemRoot"), text::owned(windows_directory)));
    out.push((text::owned("WINDIR"), text::owned(windows_directory)));
    out.push((text::owned("PROGRAMDATA"), text::owned(program_data)));
    out.push((text::owned("UNIONC_AGENT_STATE_DIR"), path_below(program_data, "UnionC Agent")));
    assert(pair_views(out@) =~= seq![
        ("SystemRoot"@, windows_directory@),
        ("WINDIR"@, windows_directory@),
        ("PROGRAMDATA"@, program_data@),
        ("UNIONC_AGENT_STATE_DIR"@, below(program_data@, "UnionC Agent"@)),
    ]);
    out
}

// ---------------------------------------------------------------------------
// An agent that is left behind
// ---------------------------------------------------------------------------
/// How long an agent that is left behind has to end by itself, in seconds.
pub const LEFT_BEHIND_SECONDS: u64 = 30;

/// How long to rest between two looks at it, in milliseconds.
pub const LEFT_BEHIND_REST_MILLISECONDS: u64 = 100;

/// What a look at the agent's process gave.
#[derive(Clone, Copy, PartialEq, Eq, Structural, Debug)]
pub enum ProcessLook {
    Running,
    Exited,
    Failed,
}

/// What to do about an agent that is left behind.
#[derive(Clone, Copy, PartialEq, Eq, Structural, Debug)]
pub enum GuardStep {
    /// Set the event that cancels it.
    Cancel,
    /// Rest, then look again.
    Rest,
    /// End it by force and wait for its end.
    Kill,
    Done,
}

/// Watches over an agent until its end is known, so that none is left behind.
#[derive(Clone, Copy, PartialEq, Eq, Structural, Debug)]
pub struct PairChildGuard {
    /// The agent may still run.
    pub armed: bool,
    /// By when a cancelled agent has to have ended.
    pub deadline: u128,
}

impl PairChildGuard {
    /// Watch over an agent that was started.
    pub fn new() -> (r: PairChildGuard)
        ensures
            r == (PairChildGuard { armed: true, deadline: 0 }),
    {
        PairChildGuard { armed: true, deadline: 0 }
    }

    /// The end of the agent is known.
    pub fn disarm(&mut self)
        ensures
            *final(self) == (PairChildGuard { armed: false, ..*old(self) }),
    {
        self.armed = false;
    }

    /// The helper leaves: an agent that may still run is cancelled, and has its time from now on.
    pub fn leave(&mut self, now: u64) -> (r: GuardStep)
        ensures
            *final(self) == if old(self).armed {
                PairChildGuard { deadline: (now + LEFT_BEHIND_SECONDS * SECOND) as u128, ..*old(self) }
            } else {
                *old(self)
            },
            r == if old(self).armed {
                GuardStep::Cancel
            } else {
                GuardStep::Done
            },
    {
        if !self.armed {
            return GuardStep::Done;
        }
        self.deadline = (now as u128) + ((LEFT_BEHIND_SECONDS * SECOND) as u128);
        GuardStep::Cancel
    }

    /// What a look at a cancelled agent leads to.
    pub open spec fn after_look(self, look: ProcessLook, now: u64) -> GuardStep {
        if look == ProcessLook::Exited {
            GuardStep::Done
        } else if look == ProcessLook::Running && now < self.deadline {
            GuardStep::Rest
        } else {
            GuardStep::Kill
        }
    }

    /// Take a look at a cancelled agent and say what to do next.
    pub fn look(&self, look: ProcessLook, now: u64) -> (r: GuardStep)
        ensures
            r == self.after_look(look, now),
    {
        match look {
            ProcessLook::Exited => GuardStep::Done,
            ProcessLook::Running => if (now as u128) < self.deadline {
                GuardStep::Rest
            } else {
                GuardStep::Kill
            },
            ProcessLook::Failed => GuardStep::Kill,
        }
    }
}

/// An agent that still runs when the helper leaves at `left` is ended by force only after it had
/// its full time from then on, and it is not left running past that.
pub proof fn no_agent_is_left_behind(
    guard: PairChildGuard,
    left: u64,
    look: ProcessLook,
    now: u64,
)
    requires
        guard.deadline == left + LEFT_BEHIND_SECONDS * SECOND,
    ensures
        look == ProcessLook::Running ==> (guard.after_look(look, now) == GuardStep::Kill <==> now
            >= left + LEFT_BEHIND_SECONDS * SECOND),
        guard.after_look(look, now) == GuardStep::Done ==> look == ProcessLook::Exited,
        now >= left + LEFT_BEHIND_SECONDS * SECOND ==> guard.after_look(look, now)
            != GuardStep::Rest,
{
}

// ---------------------------------------------------------------------------
// Supervision
// ---------------------------------------------------------------------------
/// What the helper knows of the agent that it started.
#[derive(Clone, Copy, PartialEq, Eq, Structural, Debug)]
pub struct ChildWatch {
    /// When the pairing has taken too long.
    pub deadline: u128,
    /// The event stream has ended and its result was taken.
    pub events_taken: bool,
    /// When the pairing was cancelled.
    pub cancelled_at: Option<u64>,
}

/// How the event stream stands.
#[derive(Clone, Copy, PartialEq, Eq, Structural, Debug)]
pub enum StreamState {
    Open,
    /// It has ended; `failed` tells how.
    Ended { failed: bool },
}

/// What to do now.
#[derive(Clone, Copy, PartialEq, Eq, Structural, Debug)]
pub struct WatchStep {
    /// Cancel the pairing.
    pub cancel: bool,
    /// End the agent by force: it ignored the cancellation.
    pub kill: bool,
}

impl ChildWatch {
    /// The pairing was cancelled too long ago.
    pub open spec fn overdue(self, now: u64) -> bool {
        self.cancelled_at matches Some(at) && now - at >= CONTAINMENT_NANOSECONDS
    }

    /// A stream that failed, or a pairing past its deadline, is cancelled, once.
    pub open spec fn cancels(self, stream: StreamState, now: u64) -> bool {
        self.cancelled_at is None && ((!self.events_taken && stream == (StreamState::Ended {
            failed: true,
        })) || now >= self.deadline)
    }

    /// The watch after a look at an agent that still runs.
    pub open spec fn after(self, stream: StreamState, now: u64) -> ChildWatch {
        ChildWatch {
            events_taken: self.events_taken || stream is Ended,
            cancelled_at: if self.cancels(stream, now) {
                Some(now)
            } else {
                self.cancelled_at
            },
            ..self
        }
    }

    /// A watch over an agent that was just started.
    pub fn begin(now: u64) -> (r: Self)
        ensures
            r == (ChildWatch {
                deadline: (now + (PAIR_OPERATION_SECONDS + PAIR_CANCEL_GRACE_SECONDS)
                    * 1_000_000_000) as u128,
                events_taken: false,
                cancelled_at: None,
            }),
    {
        ChildWatch {
            deadline: (now as u128) + ((PAIR_OPERATION_SECONDS + PAIR_CANCEL_GRACE_SECONDS) as u128)
                * 1_000_000_000,
            events_taken: false,
            cancelled_at: None,
        }
    }

    /// Look at an agent that still runs.
    pub fn look(&mut self, stream: StreamState, now: u64) -> (r: WatchStep)
        ensures
            *final(self) == old(self).after(stream, now),
            r.cancel == old(self).cancels(stream, now),
            r.kill == final(self).overdue(now),
    {
        let mut cancel = false;
        if !self.events_taken {
            if let StreamState::Ended { failed } = stream {
                if failed && self.cancelled_at.is_none() {
                    cancel = true;
                    self.cancelled_at = Some(now);
                }
                self.events_taken = true;
            }
        }
        if (now as u128) >= self.deadline && self.cancelled_at.is_none() {
            cancel = true;
            self.cancelled_at = Some(now);
        }
        let kill = match self.cancelled_at {
            Some(at) => now >= at && now - at >= CONTAINMENT_NANOSECONDS,
            None => false,
        };
        WatchStep { cancel, kill }
    }
}

/// Force is the last resort: the agent is ended by force only after it was cancelled and had its
/// full time to end by itself.
pub proof fn force_follows_a_cancellation(watch: ChildWatch, stream: StreamState, now: u64)
    requires
        watch.after(stream, now).overdue(now),
    ensures
        watch.cancelled_at is Some,
        now - watch.cancelled_at->0 >= CONTAINMENT_NANOSECONDS,
        !watch.cancels(stream, now),
{
}

/// An agent past its deadline is always cancelled.
pub proof fn the_deadline_cancels(watch: ChildWatch, stream: StreamState, now: u64)
    requires
        now >= watch.deadline,
    ensures
        watch.after(stream, now).cancelled_at is Some,
{
}

// ---------------------------------------------------------------------------
// The end
// ---------------------------------------------------------------------------
/// How the event stream ended badly.
#[derive(Debug)]
pub enum StreamFailure {
    /// By a rule of the stream.
    Fault(EventFault),
    /// Otherwise, in these words.
    Other { message: String },
}

impl StreamFailure {
    /// The words in which the failure is reported.
    pub open spec fn text(self) -> Seq<char> {
        match self {
            StreamFailure::Fault(fault) => fault.text(),
            StreamFailure::Other { message } => message@,
        }
    }

    /// The words in which the failure is reported.
    pub fn message(&self) -> (r: String)
        ensures
            r@ == self.text(),
    {
        match self {
            StreamFailure::Fault(fault) => fault.message(),
            StreamFailure::Other { message } => message.clone(),
        }
    }

    /// The stream ended before the key was asked for.
    pub open spec fn is_missing_key(self) -> bool {
        self matches StreamFailure::Fault(EventFault::MissingAuthorizationKey)
    }
}

/// What a pairing comes to, from the agent's end, the event stream's, and the diagnostics.
///
/// An agent that fails before its first event necessarily leaves a stream in which no key was
/// asked for. That says something only where the agent left no diagnostics; otherwise it would
/// hide the real failure.
pub open spec fn reconciled(
    succeeded: bool,
    status: Seq<char>,
    events: Result<(), StreamFailure>,
    diagnostics: Seq<char>,
) -> Result<(), Seq<char>> {
    let said = text::trimmed(diagnostics);
    if succeeded {
        match events {
            Ok(()) => Ok(()),
            Err(failure) => Err("pairing event processing failed: "@ + failure.text()),
        }
    } else {
        Err(
            match events {
                Ok(()) => if said.len() == 0 {
                    "browser pairing exited with "@ + status
                } else {
                    "Agent pairing failed ("@ + status + "): "@ + said
                },
                Err(failure) => if said.len() == 0 {
                    "browser pairing exited with "@ + status + ": "@ + failure.text()
                } else if failure.is_missing_key() {
                    "Agent pairing failed ("@ + status + "): "@ + said
                } else {
                    "pairing event processing failed: "@ + failure.text()
                        + "; Agent pairing also failed ("@ + status + "): "@ + said
                },
            },
        )
    }
}

/// What a pairing comes to.
pub fn reconcile_pairing_child(
    child_succeeded: bool,
    child_status: &str,
    event_result: Result<(), StreamFailure>,
    diagnostics: &str,
) -> (r: Result<(), String>)
    ensures
        match reconciled(child_succeeded, child_status@, event_result, diagnostics@) {
            Ok(()) => r is Ok,
            Err(message) => r matches Err(given) && given@ == message,
        },
{
    if child_succeeded {
        return match event_result {
            Ok(()) => Ok(()),
            Err(failure) => Err(
                text::cat("pairing event processing failed: ", failure.message().as_str()),
            ),
        };
    }
    let said = text::trim(diagnostics);
    let silent = said.as_str().is_empty();
    match event_result {
        Ok(()) => if silent {
            Err(text::cat("browser pairing exited with ", child_status))
        } else {
            Err(text::cat4("Agent pairing failed (", child_status, "): ", said.as_str()))
        },
        Err(failure) => {
            if silent {
                return Err(
                    text::cat4(
                        "browser pairing exited with ",
                        child_status,
                        ": ",
                        failure.message().as_str(),
                    ),
                );
            }
            if let StreamFailure::Fault(EventFault::MissingAuthorizationKey) = failure {
                return Err(text::cat4("Agent pairing failed (", child_status, "): ", said.as_str()));
            }
            let mut message = text::cat5(
                "pairing event processing failed: ",
                failure.message().as_str(),
                "; Agent pairing also failed (",
                child_status,
                "): ",
            );
            message.append(said.as_str());
            Err(message)
        },
    }
}

/// What ends the helper's work: an agent that had to be ended by force is a failure whatever else
/// was heard.
pub fn pairing_outcome(
    forced: bool,
    child_succeeded: bool,
    child_status: &str,
    event_result: Result<(), StreamFailure>,
    diagnostics: &str,
) -> (r: Result<(), String>)
    ensures
        forced ==> (r matches Err(given) && given@
            == "pairing child ignored graceful cancellation and was contained after 30 seconds"@),
        !forced ==> match reconciled(child_succeeded, child_status@, event_result, diagnostics@) {
            Ok(()) => r is Ok,
            Err(message) => r matches Err(given) && given@ == message,
        },
{
    if forced {
        return Err(
            text::owned(
                "pairing child ignored graceful cancellation and was contained after 30 seconds",
            ),
        );
    }
    reconcile_pairing_child(child_succeeded, child_status, event_result, diagnostics)
}

/// A pairing succeeds only where both the agent and its event stream ended well.
pub proof fn success_needs_both(
    succeeded: bool,
    status: Seq<char>,
    events: Result<(), StreamFailure>,
    diagnostics: Seq<char>,
)
    ensures
        reconciled(succeeded, status, events, diagnostics) is Ok <==> succeeded && events is Ok,
{
}

// ---------------------------------------------------------------------------
// Diagnostics
// ---------------------------------------------------------------------------
/// What `String::from_utf8_lossy` makes of bytes.
pub uninterp spec fn lossy_text(bytes: Seq<u8>) -> Seq<char>;

/// `String::from_utf8_lossy`: bytes that are the encoding of a text come back as that text.
#[verifier::external_body]
fn read_lossy(bytes: &Vec<u8>) -> (r: String)
    ensures
        r@ == lossy_text(bytes@),
        forall|s: Seq<char>| bytes@ == #[trigger] vstd::utf8::encode_utf8(s) ==> r@ == s,
{
    String::from_utf8_lossy(bytes.as_slice()).to_string()
}

/// Keep of `chunk` what the limit leaves room for; whether something was left out.
pub fn retain_chunk(retained: &mut Vec<u8>, chunk: &Vec<u8>, limit: usize) -> (r: bool)
    requires
        old(retained)@.len() <= limit,
    ensures
        final(retained)@.len() <= limit,
        final(retained)@ == (old(retained)@ + chunk@).take(
            if old(retained)@.len() + chunk@.len() <= limit {
                (old(retained)@.len() + chunk@.len()) as int
            } else {
                limit as int
            },
        ),
        r == (old(retained)@.len() + chunk@.len() > limit),
{
    let remaining: usize = limit - retained.len();
    let ghost before = retained@;
    let ghost all = before + chunk@;
    let mut i: usize = 0;
    while i < chunk.len() && i < remaining
        invariant
            i <= chunk@.len(),
            i <= remaining,
            before.len() + remaining == limit,
            all == before + chunk@,
            retained@ == all.take(before.len() + i),
        decreases chunk@.len() - i,
    {
        retained.push(chunk[i]);
        i += 1;
        assert(retained@ == all.take(before.len() + i));
    }
    chunk.len() > remaining
}

/// The diagnostics as a text; where something was left out, they say so.
pub fn diagnostics_text(retained: &Vec<u8>, truncated: bool) -> (r: String)
    ensures
        r@ == if truncated {
            lossy_text(retained@) + "\n[diagnostics truncated]"@
        } else {
            lossy_text(retained@)
        },
{
    let mut diagnostics = read_lossy(retained);
    if truncated {
        diagnostics.append("\n[diagnostics truncated]");
    }
    diagnostics
}

/// The agent is cancelled once: at the first look at which its stream has newly ended badly, or its
/// time has run out. From then on it has thirty seconds, and is ended by force from there on.
pub proof fn when_an_agent_is_cancelled(watch: ChildWatch, stream: StreamState, now: u64)
    ensures
        ({
            let after = watch.after(stream, now);
            let late = now >= watch.deadline;
            let failed = !watch.events_taken && stream == (StreamState::Ended { failed: true });
            &&& watch.cancels(stream, now) <==> watch.cancelled_at is None && (late || failed)
            &&& watch.cancelled_at is Some ==> after.cancelled_at == watch.cancelled_at
            &&& watch.cancels(stream, now) ==> after.cancelled_at == Some(now)
            &&& watch.cancelled_at is None && !late && !failed ==> after.cancelled_at is None
            &&& after.events_taken <==> watch.events_taken || stream is Ended
            &&& after.deadline == watch.deadline
            &&& after.overdue(now) <==> (after.cancelled_at matches Some(at) && now >= at
                + 30_000_000_000)
        }),
{
}

/// What a pairing that ended is told: nothing where both the agent and its stream ended well; the
/// stream's fault alone where only that failed; the agent's own words, where it has any, wherever it
/// failed, and the stream's fault too unless it is only that the key was never asked for.
pub proof fn what_a_pairing_is_told(
    status: Seq<char>,
    failure: StreamFailure,
    diagnostics: Seq<char>,
)
    ensures
        ({
            let said = text::trimmed(diagnostics);
            let missing = (failure matches StreamFailure::Fault(
                EventFault::MissingAuthorizationKey,
            ));
            &&& reconciled(true, status, Ok(()), diagnostics) is Ok
            &&& reconciled(true, status, Err(failure), diagnostics) == Err::<(), Seq<char>>(
                "pairing event processing failed: "@ + failure.text(),
            )
            &&& said.len() == 0 ==> reconciled(false, status, Ok(()), diagnostics) == Err::<
                (),
                Seq<char>,
            >("browser pairing exited with "@ + status)
            &&& said.len() == 0 ==> reconciled(false, status, Err(failure), diagnostics) == Err::<
                (),
                Seq<char>,
            >("browser pairing exited with "@ + status + ": "@ + failure.text())
            &&& said.len() > 0 ==> reconciled(false, status, Ok(()), diagnostics) == Err::<
                (),
                Seq<char>,
            >("Agent pairing failed ("@ + status + "): "@ + said)
            &&& said.len() > 0 && missing ==> reconciled(
                false,
                status,
                Err(failure),
                diagnostics,
            ) == reconciled(false, status, Ok(()), diagnostics)
            &&& said.len() > 0 && !missing ==> reconciled(
                false,
                status,
                Err(failure),
                diagnostics,
            ) == Err::<(), Seq<char>>(
                "pairing event processing failed: "@ + failure.text()
                    + "; Agent pairing also failed ("@ + status + "): "@ + said,
            )
        }),
{
}

/// The agent is told to pair in the tray's own mode: with its events, its key over standard input,
/// this configuration and this server, the event that cancels it and twenty minutes of time, in
/// place of any request before; and under a name only where one is given.
pub proof fn how_the_agent_is_told(
    config: Seq<char>,
    server: Seq<char>,
    cancel_event: Seq<char>,
    name: Seq<char>,
)
    ensures
        ({
            let told = pair_arguments_text(config, server, cancel_event, None);
            let named = pair_arguments_text(config, server, cancel_event, Some(name));
            &&& told[0] == "pair"@
            &&& told[1] == "--tray-events"@
            &&& told[2] == "--tray-activation-stdin"@
            &&& told[3] == "--config"@ && told[4] == config
            &&& told[5] == "--server"@ && told[6] == server
            &&& told[7] == "--tray-cancel-event"@ && told[8] == cancel_event
            &&& told[9] == "--tray-deadline-seconds"@ && told[10] == text::decimal(1200)
            &&& told[11] == "--replace-pending-pairing"@
            &&& told.len() == 12
            &&& named == told + seq!["--name"@, name]
        }),
{
}

/// What a child said is kept from its beginning, up to the limit, and what was cut off is told.
pub proof fn the_beginning_is_kept()
    ensures
        forall|retained: &mut Vec<u8>, chunk: &Vec<u8>, limit: usize, cut: bool| #[trigger]
            call_ensures(retain_chunk, (retained, chunk, limit), cut) && (*retained)@.len() <= limit
                ==> {
                let before = (*retained)@;
                let after = (*final(retained))@;
                &&& cut <==> before.len() + chunk@.len() > limit
                &&& !cut ==> after == before + chunk@
                &&& cut ==> after.len() == limit
                &&& before.len() <= after.len()
                &&& forall|i: int| 0 <= i < after.len() ==> #[trigger] after[i] == (before
                    + chunk@)[i]
            },
{
}

/// A child that is left behind while it is watched is asked to end, and has thirty seconds for it;
/// one that is not watched any more is left alone.
pub proof fn how_a_child_is_left()
    ensures
        forall|guard: &mut PairChildGuard, now: u64, r: GuardStep| #[trigger]
            call_ensures(PairChildGuard::leave, (guard, now), r) ==> {
                &&& r == GuardStep::Cancel <==> (*guard).armed
                &&& r == GuardStep::Done <==> !(*guard).armed
                &&& (*final(guard)).armed == (*guard).armed
                &&& (*guard).armed ==> (*final(guard)).deadline == now + 30_000_000_000
                &&& !(*guard).armed ==> *final(guard) == *guard
            },
{
}

} // verus!
