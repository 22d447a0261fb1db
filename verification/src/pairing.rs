//! The interactive pairing command as a state machine.
//!
//! The program performs what a [`PairAction`] asks for and hands back what came of it as a
//! [`PairEvent`]. An outside operation that fails outright ends the command with its own error;
//! every other outcome is decided here.

use crate::config::OutputMode;
use crate::identifier::{hyphenated, uuid_text};
use crate::schedule::{
    double_backoff, doubled, doubled_times, jitter_with, jittered, DRAW_RANGE, SECOND,
};
use crate::text;
use vstd::prelude::*;

verus! {

/// The longest delay between two polls of an unreachable server, in seconds.
pub const LONGEST_POLL_BACKOFF_SECONDS: u64 = 60;

/// A pairing request that waits for a decision in the browser.
#[derive(Debug)]
pub struct PairingSession {
    pub generation: u128,
    pub request_id: u128,
    pub activation_url: String,
    /// Nanoseconds since the Unix epoch.
    pub expires_at: i128,
    /// Seconds between two polls.
    pub poll_interval: u64,
}

/// What a poll of the saved pairing request says.
#[derive(Debug)]
pub enum PairingProgress {
    Creating { generation: u128 },
    Waiting(PairingSession),
    Active { generation: u128, request_id: u128, instance_id: u128, report_endpoint: String },
    Denied { generation: u128, request_id: u128, activation_url: String },
    Expired { generation: u128, request_id: u128, activation_url: String },
}

/// How a wait ended.
#[derive(Clone, Copy, PartialEq, Eq, Structural, Debug)]
pub enum PairingWait {
    Elapsed,
    Shutdown,
    Cancelled,
    Deadline,
}

/// What the command line asked of the pairing command.
#[derive(Debug)]
pub struct PairOptions {
    pub tray_events: bool,
    pub tray_activation_stdin: bool,
    pub output_mode: OutputMode,
    pub jitter_percent: u8,
    pub endpoint: String,
}

/// Where the command reports to.
#[derive(Clone, Copy, PartialEq, Eq, Structural, Debug)]
pub enum PairChannel {
    /// One event per line for the tray.
    Tray,
    Human,
    Json,
}

impl PairOptions {
    /// Where the command reports to: the tray, where it asked for events.
    pub open spec fn spec_channel(self) -> PairChannel {
        if self.tray_events {
            PairChannel::Tray
        } else {
            match self.output_mode {
                OutputMode::Json => PairChannel::Json,
                OutputMode::Human => PairChannel::Human,
            }
        }
    }

    /// Where the command reports to.
    pub fn channel(&self) -> (r: PairChannel)
        ensures
            r == self.spec_channel(),
    {
        if self.tray_events {
            PairChannel::Tray
        } else {
            match self.output_mode {
                OutputMode::Json => PairChannel::Json,
                OutputMode::Human => PairChannel::Human,
            }
        }
    }
}

/// Why the pairing command fails.
#[derive(Debug)]
pub enum PairingFailure {
    /// Another request took this one's place.
    Superseded,
    /// The poll left the request in its creating phase.
    StillCreating,
    /// The activated request is another one, or belongs to another server or instance.
    SupersededOrRedirected,
    Denied { request_id: u128, activation_url: String },
    Expired { request_id: u128, activation_url: String },
    /// The saved request is gone.
    Disappeared,
    /// The request expired while the server could not be asked.
    ExpiredUnreachable { request_id: u128 },
    /// The tray cancelled the command.
    Cancelled,
    /// The tray's deadline passed.
    Deadline,
}

impl PairingFailure {
    /// The words in which the failure is reported.
    pub open spec fn text(self) -> Seq<char> {
        match self {
            PairingFailure::Superseded =>
                "this pairing request was superseded by another request; no credentials were changed"@,
            PairingFailure::StillCreating =>
                "current pairing poll left the request in its creating phase; no credentials were changed"@,
            PairingFailure::SupersededOrRedirected =>
                "this pairing request was superseded or returned a different server endpoint; no configuration was committed"@,
            PairingFailure::Denied { request_id, activation_url } => "browser pairing request "@
                + hyphenated(request_id)
                + " was denied; run `unionc-agent pair` to create a new request ("@
                + activation_url@ + ")"@,
            PairingFailure::Expired { request_id, activation_url } => "browser pairing request "@
                + hyphenated(request_id)
                + " expired; run `unionc-agent pair` to create a new request ("@ + activation_url@
                + ")"@,
            PairingFailure::Disappeared => "the persisted pairing request disappeared"@,
            PairingFailure::ExpiredUnreachable { request_id } => "browser pairing request "@
                + hyphenated(request_id)
                + " expired while the server was unreachable; run `unionc-agent pair --replace-pending-pairing` to explicitly create a fresh request"@,
            PairingFailure::Cancelled => "tray pairing was cancelled safely"@,
            PairingFailure::Deadline => "tray pairing reached its configured safety deadline"@,
        }
    }

    /// The words in which the failure is reported.
    pub fn message(&self) -> (r: String)
        ensures
            r@ == self.text(),
    {
        match self {
            PairingFailure::Superseded => text::owned(
                "this pairing request was superseded by another request; no credentials were changed",
            ),
            PairingFailure::StillCreating => text::owned(
                "current pairing poll left the request in its creating phase; no credentials were changed",
            ),
            PairingFailure::SupersededOrRedirected => text::owned(
                "this pairing request was superseded or returned a different server endpoint; no configuration was committed",
            ),
            PairingFailure::Denied { request_id, activation_url } => text::cat5(
                "browser pairing request ",
                uuid_text(*request_id).as_str(),
                " was denied; run `unionc-agent pair` to create a new request (",
                activation_url.as_str(),
                ")",
            ),
            PairingFailure::Expired { request_id, activation_url } => text::cat5(
                "browser pairing request ",
                uuid_text(*request_id).as_str(),
                " expired; run `unionc-agent pair` to create a new request (",
                activation_url.as_str(),
                ")",
            ),
            PairingFailure::Disappeared => text::owned("the persisted pairing request disappeared"),
            PairingFailure::ExpiredUnreachable { request_id } => text::cat3(
                "browser pairing request ",
                uuid_text(*request_id).as_str(),
                " expired while the server was unreachable; run `unionc-agent pair --replace-pending-pairing` to explicitly create a fresh request",
            ),
            PairingFailure::Cancelled => text::owned("tray pairing was cancelled safely"),
            PairingFailure::Deadline => text::owned(
                "tray pairing reached its configured safety deadline",
            ),
        }
    }
}

/// The tray event that tells why a pairing was stopped.
#[derive(Clone, Copy, PartialEq, Eq, Structural, Debug)]
pub enum StopEvent {
    /// `pairing_cancelled`
    Cancelled,
    /// `pairing_timeout`
    Timeout,
}

/// The end of a pairing that the tray stopped: first the event, where the tray asked for events,
/// then the failure.
#[derive(Debug)]
pub struct TrayStop {
    pub event: Option<StopEvent>,
    pub failure: PairingFailure,
}

/// What the end of a wait means for a pairing under the tray's control.
pub open spec fn tray_stop(tray_events: bool, outcome: PairingWait) -> Option<TrayStop> {
    match outcome {
        PairingWait::Cancelled => Some(
            TrayStop {
                event: if tray_events {
                    Some(StopEvent::Cancelled)
                } else {
                    None
                },
                failure: PairingFailure::Cancelled,
            },
        ),
        PairingWait::Deadline => Some(
            TrayStop {
                event: if tray_events {
                    Some(StopEvent::Timeout)
                } else {
                    None
                },
                failure: PairingFailure::Deadline,
            },
        ),
        _ => None,
    }
}

/// How to stop a pairing after `outcome`; nothing where the outcome stops none.
pub fn stop_tray_pairing(tray_events: bool, outcome: PairingWait) -> (r: Option<TrayStop>)
    ensures
        r == tray_stop(tray_events, outcome),
{
    let (event, failure) = match outcome {
        PairingWait::Cancelled => (StopEvent::Cancelled, PairingFailure::Cancelled),
        PairingWait::Deadline => (StopEvent::Timeout, PairingFailure::Deadline),
        _ => {
            return None;
        },
    };
    Some(
        TrayStop {
            event: if tray_events {
                Some(event)
            } else {
                None
            },
            failure,
        },
    )
}

/// Which operation the command has under way.
#[derive(Debug)]
pub enum PairPhase {
    /// Telling that the request waits for the browser.
    Announcing,
    /// Reading the authorization key that the tray sends.
    ReadingCode,
    /// Handing the key to the server.
    Activating,
    /// Asking the server.
    Polling,
    /// Waiting for the next turn to ask, with the request as last seen.
    Waiting(PairingSession),
    /// Waiting after the server could not be asked.
    BackingOff,
    /// Making the activated request the agent's configuration.
    Committing { instance_id: u128, report_endpoint: String },
    /// Nothing more to do.
    Finished,
}

/// A pairing command under way.
#[derive(Debug)]
pub struct PairingRun {
    pub options: PairOptions,
    /// The request that this command started or resumed.
    pub session: PairingSession,
    /// The instance that the authorization key named.
    pub activated: Option<u128>,
    /// The delay after the next poll that fails, in nanoseconds.
    pub backoff: u64,
    pub phase: PairPhase,
}

/// What came of the operation under way.
#[derive(Debug)]
pub enum PairEvent {
    Announced,
    CodeRead,
    /// The server took the key; it may have named an instance.
    Activated(Option<u128>),
    /// The poll's answer.
    Polled(Option<PairingProgress>),
    /// The poll failed, at this time in nanoseconds since the Unix epoch.
    PollFailed(i128),
    /// A wait ended, or cut short the operation under way.
    Waited(PairingWait),
    Committed,
}

impl PairEvent {
    /// A stop cut short the operation under way.
    pub open spec fn cuts_short(self) -> bool {
        self matches PairEvent::Waited(wait) && wait != PairingWait::Elapsed
    }
}

/// What to do next.
#[derive(Debug)]
pub enum PairAction {
    ReadCode,
    Activate { generation: u128, request_id: u128 },
    Poll,
    /// Wait this many nanoseconds.
    Wait(u128),
    Commit { generation: u128, request_id: u128, instance_id: u128, report_endpoint: String },
    /// Tell that the request stays pending, then end well.
    Interrupted { channel: PairChannel, request_id: u128, activation_url: String },
    /// Tell that the host is paired, then end well, also where the tray cannot be told.
    Paired { channel: PairChannel, request_id: u128, instance_id: u128, report_endpoint: String },
    /// End well.
    Finish,
    Stop(TrayStop),
    Fail(PairingFailure),
    /// Where `announce` holds, print that the request expired; then fail.
    FailExpired { announce: bool, failure: PairingFailure },
}

impl PairingRun {
    /// The command's own request.
    pub open spec fn is_own(self, generation: u128, request_id: u128) -> bool {
        generation == self.session.generation && request_id == self.session.request_id
    }

    /// The event can come in this phase: what was under way ended, or a stop cut it short.
    pub open spec fn awaits(self, event: PairEvent) -> bool {
        match self.phase {
            PairPhase::Announcing => event is Announced,
            PairPhase::ReadingCode => event is CodeRead || event.cuts_short(),
            PairPhase::Activating => event is Activated || event.cuts_short(),
            PairPhase::Polling => event is Polled || event is PollFailed || event.cuts_short(),
            PairPhase::Waiting(_) => event is Waited,
            PairPhase::BackingOff => event is Waited,
            PairPhase::Committing { .. } => event is Committed,
            PairPhase::Finished => false,
        }
    }

    /// The delays kept are those that the machine itself sets.
    pub open spec fn valid(self) -> bool {
        SECOND <= self.backoff <= LONGEST_POLL_BACKOFF_SECONDS * SECOND
    }

    /// The same command in another phase.
    pub open spec fn at(self, phase: PairPhase) -> PairingRun {
        PairingRun { phase, ..self }
    }

    /// The command's last step.
    pub open spec fn ends(self, action: PairAction) -> (PairingRun, PairAction) {
        (self.at(PairPhase::Finished), action)
    }

    /// A stop that cuts an operation short: a shutdown ends well, the tray's stops fail.
    pub open spec fn cut_short(self, wait: PairingWait) -> (PairingRun, PairAction) {
        match tray_stop(self.options.tray_events, wait) {
            Some(stop) => self.ends(PairAction::Stop(stop)),
            None => self.ends(PairAction::Finish),
        }
    }

    /// What a poll's answer leads to. Every answer must be about the command's own request, and
    /// only an activation that also matches the configured endpoint and the instance that the
    /// key named is committed.
    pub open spec fn answered(self, progress: PairingProgress) -> (PairingRun, PairAction) {
        match progress {
            PairingProgress::Creating { generation } => self.ends(
                PairAction::Fail(
                    if generation != self.session.generation {
                        PairingFailure::Superseded
                    } else {
                        PairingFailure::StillCreating
                    },
                ),
            ),
            PairingProgress::Waiting(waiting) => if !self.is_own(
                waiting.generation,
                waiting.request_id,
            ) {
                self.ends(PairAction::Fail(PairingFailure::Superseded))
            } else {
                (
                    PairingRun {
                        backoff: SECOND,
                        phase: PairPhase::Waiting(waiting),
                        ..self
                    },
                    PairAction::Wait((waiting.poll_interval * SECOND) as u128),
                )
            },
            PairingProgress::Active { generation, request_id, instance_id, report_endpoint } => if (
            !self.is_own(generation, request_id) || report_endpoint@ != self.options.endpoint@
                || (self.activated matches Some(expected) && expected != instance_id)) {
                self.ends(PairAction::Fail(PairingFailure::SupersededOrRedirected))
            } else {
                (
                    self.at(PairPhase::Committing { instance_id, report_endpoint }),
                    PairAction::Commit { generation, request_id, instance_id, report_endpoint },
                )
            },
            PairingProgress::Denied { generation, request_id, activation_url } => self.ends(
                PairAction::Fail(
                    if !self.is_own(generation, request_id) {
                        PairingFailure::Superseded
                    } else {
                        PairingFailure::Denied { request_id, activation_url }
                    },
                ),
            ),
            PairingProgress::Expired { generation, request_id, activation_url } => self.ends(
                PairAction::Fail(
                    if !self.is_own(generation, request_id) {
                        PairingFailure::Superseded
                    } else {
                        PairingFailure::Expired { request_id, activation_url }
                    },
                ),
            ),
        }
    }

    /// What a poll that failed at `now` leads to: the end, once the request has expired; before
    /// that a jittered wait.
    pub open spec fn unanswered(self, now: i128, draw: u64) -> (PairingRun, PairAction) {
        if now >= self.session.expires_at {
            self.ends(
                PairAction::FailExpired {
                    announce: self.options.spec_channel() == PairChannel::Json,
                    failure: PairingFailure::ExpiredUnreachable {
                        request_id: self.session.request_id,
                    },
                },
            )
        } else {
            (
                self.at(PairPhase::BackingOff),
                PairAction::Wait(
                    jittered(self.backoff, self.options.jitter_percent, draw) as u128,
                ),
            )
        }
    }

    /// The step that `event` leads to, with `draw` for a wait that is jittered.
    pub open spec fn next(self, event: PairEvent, draw: u64) -> (PairingRun, PairAction) {
        match event {
            PairEvent::Announced => if self.options.tray_activation_stdin {
                (self.at(PairPhase::ReadingCode), PairAction::ReadCode)
            } else {
                (self.at(PairPhase::Polling), PairAction::Poll)
            },
            PairEvent::CodeRead => (
                self.at(PairPhase::Activating),
                PairAction::Activate {
                    generation: self.session.generation,
                    request_id: self.session.request_id,
                },
            ),
            PairEvent::Activated(instance) => (
                PairingRun { activated: instance, phase: PairPhase::Polling, ..self },
                PairAction::Poll,
            ),
            PairEvent::Polled(None) => self.ends(PairAction::Fail(PairingFailure::Disappeared)),
            PairEvent::Polled(Some(progress)) => self.answered(progress),
            PairEvent::PollFailed(now) => self.unanswered(now, draw),
            PairEvent::Waited(wait) => match self.phase {
                PairPhase::Waiting(waiting) => match wait {
                    PairingWait::Elapsed => (self.at(PairPhase::Polling), PairAction::Poll),
                    PairingWait::Shutdown => self.ends(
                        PairAction::Interrupted {
                            channel: self.options.spec_channel(),
                            request_id: waiting.request_id,
                            activation_url: waiting.activation_url,
                        },
                    ),
                    _ => self.cut_short(wait),
                },
                PairPhase::BackingOff => if wait == PairingWait::Elapsed {
                    (
                        PairingRun {
                            backoff: doubled(
                                self.backoff as int,
                                LONGEST_POLL_BACKOFF_SECONDS * SECOND,
                            ) as u64,
                            phase: PairPhase::Polling,
                            ..self
                        },
                        PairAction::Poll,
                    )
                } else {
                    self.cut_short(wait)
                },
                _ => self.cut_short(wait),
            },
            PairEvent::Committed => match self.phase {
                PairPhase::Committing { instance_id, report_endpoint } => self.ends(
                    PairAction::Paired {
                        channel: self.options.spec_channel(),
                        request_id: self.session.request_id,
                        instance_id,
                        report_endpoint,
                    },
                ),
                _ => self.ends(PairAction::Finish),
            },
        }
    }
}

/// A command whose request was just started or resumed; its first act is to announce it.
pub fn start_pairing(options: PairOptions, session: PairingSession) -> (r: PairingRun)
    ensures
        r == (PairingRun {
            options,
            session,
            activated: None,
            backoff: SECOND,
            phase: PairPhase::Announcing,
        }),
        r.valid(),
{
    PairingRun { options, session, activated: None, backoff: SECOND, phase: PairPhase::Announcing }
}

/// What ends a command whose request could not be started before it was stopped.
pub fn stopped_before_start(options: &PairOptions, wait: PairingWait) -> (r: PairAction)
    requires
        wait != PairingWait::Elapsed,
    ensures
        r == match tray_stop(options.tray_events, wait) {
            Some(stop) => PairAction::Stop(stop),
            None => PairAction::Finish,
        },
{
    match stop_tray_pairing(options.tray_events, wait) {
        Some(stop) => PairAction::Stop(stop),
        None => PairAction::Finish,
    }
}

impl PairingRun {
    fn end(self, action: PairAction) -> (r: (PairingRun, PairAction))
        ensures
            r == self.ends(action),
    {
        let run = PairingRun { phase: PairPhase::Finished, ..self };
        (run, action)
    }

    fn cut(self, wait: PairingWait) -> (r: (PairingRun, PairAction))
        ensures
            r == self.cut_short(wait),
    {
        match stop_tray_pairing(self.options.tray_events, wait) {
            Some(stop) => self.end(PairAction::Stop(stop)),
            None => self.end(PairAction::Finish),
        }
    }

    fn own(&self, generation: u128, request_id: u128) -> (r: bool)
        ensures
            r == self.is_own(generation, request_id),
    {
        generation == self.session.generation && request_id == self.session.request_id
    }

    fn answer(self, progress: PairingProgress) -> (r: (PairingRun, PairAction))
        ensures
            r == self.answered(progress),
    {
        match progress {
            PairingProgress::Creating { generation } => {
                let failure = if generation != self.session.generation {
                    PairingFailure::Superseded
                } else {
                    PairingFailure::StillCreating
                };
                self.end(PairAction::Fail(failure))
            },
            PairingProgress::Waiting(waiting) => {
                if !self.own(waiting.generation, waiting.request_id) {
                    return self.end(PairAction::Fail(PairingFailure::Superseded));
                }
                assert(waiting.poll_interval * SECOND <= u64::MAX * SECOND) by (nonlinear_arith)
                    requires
                        waiting.poll_interval <= u64::MAX,
                ;
                let delay: u128 = (waiting.poll_interval as u128) * (SECOND as u128);
                let run = PairingRun {
                    backoff: SECOND,
                    phase: PairPhase::Waiting(waiting),
                    ..self
                };
                (run, PairAction::Wait(delay))
            },
            PairingProgress::Active { generation, request_id, instance_id, report_endpoint } => {
                let other_instance = match self.activated {
                    Some(expected) => expected != instance_id,
                    None => false,
                };
                if !self.own(generation, request_id) || !text::same(
                    report_endpoint.as_str(),
                    self.options.endpoint.as_str(),
                ) || other_instance {
                    return self.end(PairAction::Fail(PairingFailure::SupersededOrRedirected));
                }
                let run = PairingRun {
                    phase: PairPhase::Committing {
                        instance_id,
                        report_endpoint: report_endpoint.clone(),
                    },
                    ..self
                };
                (run, PairAction::Commit { generation, request_id, instance_id, report_endpoint })
            },
            PairingProgress::Denied { generation, request_id, activation_url } => {
                let failure = if !self.own(generation, request_id) {
                    PairingFailure::Superseded
                } else {
                    PairingFailure::Denied { request_id, activation_url }
                };
                self.end(PairAction::Fail(failure))
            },
            PairingProgress::Expired { generation, request_id, activation_url } => {
                let failure = if !self.own(generation, request_id) {
                    PairingFailure::Superseded
                } else {
                    PairingFailure::Expired { request_id, activation_url }
                };
                self.end(PairAction::Fail(failure))
            },
        }
    }

    /// Take the outcome of the operation under way and say what to do next.
    pub fn step(self, event: PairEvent, draw: u64) -> (r: (PairingRun, PairAction))
        requires
            self.valid(),
            self.awaits(event),
            draw < DRAW_RANGE,
        ensures
            r == self.next(event, draw),
            r.0.valid(),
    {
        match event {
            PairEvent::Announced => if self.options.tray_activation_stdin {
                (PairingRun { phase: PairPhase::ReadingCode, ..self }, PairAction::ReadCode)
            } else {
                (PairingRun { phase: PairPhase::Polling, ..self }, PairAction::Poll)
            },
            PairEvent::CodeRead => {
                let generation: u128 = self.session.generation;
                let request_id: u128 = self.session.request_id;
                (
                    PairingRun { phase: PairPhase::Activating, ..self },
                    PairAction::Activate { generation, request_id },
                )
            },
            PairEvent::Activated(instance) => (
                PairingRun { activated: instance, phase: PairPhase::Polling, ..self },
                PairAction::Poll,
            ),
            PairEvent::Polled(None) => self.end(PairAction::Fail(PairingFailure::Disappeared)),
            PairEvent::Polled(Some(progress)) => self.answer(progress),
            PairEvent::PollFailed(now) => {
                if now >= self.session.expires_at {
                    let announce = self.options.channel() == PairChannel::Json;
                    let request_id: u128 = self.session.request_id;
                    return self.end(
                        PairAction::FailExpired {
                            announce,
                            failure: PairingFailure::ExpiredUnreachable { request_id },
                        },
                    );
                }
                let delay: u64 = jitter_with(self.backoff, self.options.jitter_percent, draw);
                (
                    PairingRun { phase: PairPhase::BackingOff, ..self },
                    PairAction::Wait(delay as u128),
                )
            },
            PairEvent::Waited(wait) => {
                let channel = self.options.channel();
                match &self.phase {
                    PairPhase::Waiting(waiting) => match wait {
                        PairingWait::Elapsed => (
                            PairingRun { phase: PairPhase::Polling, ..self },
                            PairAction::Poll,
                        ),
                        PairingWait::Shutdown => {
                            let request_id: u128 = waiting.request_id;
                            let activation_url = waiting.activation_url.clone();
                            self.end(PairAction::Interrupted { channel, request_id, activation_url })
                        },
                        _ => self.cut(wait),
                    },
                    PairPhase::BackingOff => if wait == PairingWait::Elapsed {
                        let backoff: u64 = double_backoff(
                            self.backoff,
                            LONGEST_POLL_BACKOFF_SECONDS * SECOND,
                        );
                        (PairingRun { backoff, phase: PairPhase::Polling, ..self }, PairAction::Poll)
                    } else {
                        self.cut(wait)
                    },
                    _ => self.cut(wait),
                }
            },
            PairEvent::Committed => {
                let channel = self.options.channel();
                let request_id: u128 = self.session.request_id;
                let paired = match &self.phase {
                    PairPhase::Committing { instance_id, report_endpoint } => PairAction::Paired {
                        channel,
                        request_id,
                        instance_id: *instance_id,
                        report_endpoint: report_endpoint.clone(),
                    },
                    _ => PairAction::Finish,
                };
                self.end(paired)
            },
        }
    }
}

// ---------------------------------------------------------------------------
// What holds of every pairing command
// ---------------------------------------------------------------------------
/// Credentials change hands only for the command's own request, at the configured endpoint and
/// for the instance that the authorization key named, if it named one.
pub proof fn only_its_own_activation_is_committed(run: PairingRun, event: PairEvent, draw: u64)
    ensures
        run.next(event, draw).1 matches PairAction::Commit {
            generation,
            request_id,
            instance_id,
            report_endpoint,
        } ==> {
            &&& event == PairEvent::Polled(
                Some(
                    PairingProgress::Active { generation, request_id, instance_id, report_endpoint },
                ),
            )
            &&& run.is_own(generation, request_id)
            &&& report_endpoint@ == run.options.endpoint@
            &&& run.activated is Some ==> run.activated == Some(instance_id)
        },
{
}

/// A host is reported as paired only after the commit of what was activated.
pub proof fn paired_follows_a_commit(run: PairingRun, event: PairEvent, draw: u64)
    requires
        run.awaits(event),
    ensures
        run.next(event, draw).1 matches PairAction::Paired {
            channel,
            request_id,
            instance_id,
            report_endpoint,
        } ==> {
            &&& event is Committed
            &&& run.phase == (PairPhase::Committing { instance_id, report_endpoint })
            &&& request_id == run.session.request_id
        },
{
}

/// A shutdown ends the command well in every phase, and leaves the request as it is.
pub proof fn shutdown_ends_well(run: PairingRun, draw: u64)
    requires
        run.awaits(PairEvent::Waited(PairingWait::Shutdown)),
    ensures
        ({
            let (after, action) = run.next(PairEvent::Waited(PairingWait::Shutdown), draw);
            &&& action is Finish || action is Interrupted
            &&& after.phase is Finished
        }),
{
}

/// Where the tray stops the command, the command fails, and tells the tray so if it wants events.
pub proof fn tray_stops_are_told(run: PairingRun, wait: PairingWait, draw: u64)
    requires
        wait == PairingWait::Cancelled || wait == PairingWait::Deadline,
        run.awaits(PairEvent::Waited(wait)),
    ensures
        run.next(PairEvent::Waited(wait), draw).1 matches PairAction::Stop(stop) && (
        stop.event is Some <==> run.options.tray_events),
{
}

/// The command never takes up another request, nor other options.
pub proof fn the_request_never_changes(run: PairingRun, event: PairEvent, draw: u64)
    ensures
        run.next(event, draw).0.session == run.session,
        run.next(event, draw).0.options == run.options,
{
}

/// The command after `n` rounds in each of which the poll failed at `now` and the wait elapsed.
pub open spec fn after_failed_polls(run: PairingRun, n: nat, now: i128, draw: u64) -> PairingRun
    decreases n,
{
    if n == 0 {
        run
    } else {
        let before = after_failed_polls(run, (n - 1) as nat, now, draw);
        let waiting = before.next(PairEvent::PollFailed(now), draw).0;
        waiting.next(PairEvent::Waited(PairingWait::Elapsed), draw).0
    }
}

/// While the server cannot be asked and the request has not expired, the command goes on asking,
/// with delays that double up to the longest.
pub proof fn failed_polls_back_off(run: PairingRun, n: nat, now: i128, draw: u64)
    requires
        run.valid(),
        run.phase is Polling,
        now < run.session.expires_at,
    ensures
        ({
            let later = after_failed_polls(run, n, now, draw);
            &&& later.phase is Polling
            &&& later.valid()
            &&& later.session == run.session
            &&& later.options == run.options
            &&& later.backoff == doubled_times(
                run.backoff as int,
                LONGEST_POLL_BACKOFF_SECONDS * SECOND,
                n,
            )
        }),
    decreases n,
{
    if n > 0 {
        failed_polls_back_off(run, (n - 1) as nat, now, draw);
    }
}

/// An activation of the command's own request, at the configured endpoint and of the instance that
/// the authorization key named, if it named one, is committed with its own values; every other
/// activation ends the command without a commit.
pub proof fn its_own_activation_is_committed(
    run: PairingRun,
    generation: u128,
    request_id: u128,
    instance_id: u128,
    report_endpoint: String,
    draw: u64,
)
    ensures
        ({
            let (after, action) = run.next(
                PairEvent::Polled(
                    Some(
                        PairingProgress::Active {
                            generation,
                            request_id,
                            instance_id,
                            report_endpoint,
                        },
                    ),
                ),
                draw,
            );
            let own = generation == run.session.generation && request_id == run.session.request_id
                && report_endpoint@ == run.options.endpoint@ && (run.activated is None
                || run.activated == Some(instance_id));
            &&& own ==> action == (PairAction::Commit {
                generation,
                request_id,
                instance_id,
                report_endpoint,
            }) && after.phase == (PairPhase::Committing { instance_id, report_endpoint })
                && after.activated == run.activated
            &&& !own ==> action == PairAction::Fail(PairingFailure::SupersededOrRedirected)
                && after.phase is Finished
        }),
{
}

/// A commit that is done is told, with the values of the activation that was committed, to whom
/// the command reports: to the tray where it asked for events, else as the output mode says.
pub proof fn a_commit_is_told(
    run: PairingRun,
    instance_id: u128,
    report_endpoint: String,
    draw: u64,
)
    requires
        run.phase == (PairPhase::Committing { instance_id, report_endpoint }),
    ensures
        ({
            let (after, action) = run.next(PairEvent::Committed, draw);
            &&& after.phase is Finished
            &&& action matches PairAction::Paired {
                channel,
                request_id,
                instance_id: told,
                report_endpoint: endpoint,
            }
            &&& request_id == run.session.request_id
            &&& told == instance_id
            &&& endpoint == report_endpoint
            &&& channel == PairChannel::Tray <==> run.options.tray_events
            &&& channel == PairChannel::Json <==> !run.options.tray_events
                && run.options.output_mode == OutputMode::Json
        }),
{
}

/// While the command's own request waits for the browser the command waits the server's interval
/// and asks again, with its backoff started anew; a request that was refused or ran out ends it
/// with a failure that names the request, and so does one that took its place or is gone.
pub proof fn an_answer_is_about_the_own_request(
    run: PairingRun,
    progress: Option<PairingProgress>,
    draw: u64,
)
    requires
        !(progress matches Some(PairingProgress::Active { .. })),
    ensures
        ({
            let (after, action) = run.next(PairEvent::Polled(progress), draw);
            let waits = (progress matches Some(PairingProgress::Waiting(waiting))
                && waiting.generation == run.session.generation && waiting.request_id
                == run.session.request_id);
            &&& action is Wait <==> waits
            &&& action is Fail <==> !waits
            &&& !waits ==> after.phase is Finished
            &&& waits ==> {
                let waiting = progress->0->Waiting_0;
                &&& action == PairAction::Wait((waiting.poll_interval * 1_000_000_000) as u128)
                &&& after.backoff == 1_000_000_000
                &&& after.phase == PairPhase::Waiting(waiting)
                &&& after.activated == run.activated
                &&& after.next(PairEvent::Waited(PairingWait::Elapsed), draw).1 is Poll
                &&& after.next(PairEvent::Waited(PairingWait::Elapsed), draw).0.phase is Polling
            }
            &&& match progress {
                None => action == PairAction::Fail(PairingFailure::Disappeared),
                Some(PairingProgress::Creating { generation }) => action == PairAction::Fail(
                    if generation == run.session.generation {
                        PairingFailure::StillCreating
                    } else {
                        PairingFailure::Superseded
                    },
                ),
                Some(PairingProgress::Waiting(_)) => waits || action == PairAction::Fail(
                    PairingFailure::Superseded,
                ),
                Some(PairingProgress::Denied { generation, request_id, activation_url }) => action
                    == PairAction::Fail(
                    if generation == run.session.generation && request_id
                        == run.session.request_id {
                        PairingFailure::Denied { request_id, activation_url }
                    } else {
                        PairingFailure::Superseded
                    },
                ),
                Some(PairingProgress::Expired { generation, request_id, activation_url }) => action
                    == PairAction::Fail(
                    if generation == run.session.generation && request_id
                        == run.session.request_id {
                        PairingFailure::Expired { request_id, activation_url }
                    } else {
                        PairingFailure::Superseded
                    },
                ),
                _ => true,
            }
        }),
{
}

/// The command reads a key only where the tray sends one, hands it over for its own request, and
/// then asks the server, as it does at once where no key is sent.
pub proof fn the_key_comes_before_the_first_poll(
    run: PairingRun,
    instance: Option<u128>,
    draw: u64,
)
    ensures
        ({
            let (announced, first) = run.next(PairEvent::Announced, draw);
            let (read, second) = run.next(PairEvent::CodeRead, draw);
            let (activated, third) = run.next(PairEvent::Activated(instance), draw);
            &&& run.options.tray_activation_stdin ==> first is ReadCode && announced.phase
                is ReadingCode
            &&& !run.options.tray_activation_stdin ==> first is Poll && announced.phase is Polling
            &&& announced.activated == run.activated
            &&& announced.backoff == run.backoff
            &&& second == (PairAction::Activate {
                generation: run.session.generation,
                request_id: run.session.request_id,
            })
            &&& read.phase is Activating
            &&& read.backoff == run.backoff
            &&& third is Poll
            &&& activated.phase is Polling
            &&& activated.activated == instance
            &&& activated.backoff == run.backoff
        }),
{
}

/// A poll that fails is repeated after the jittered backoff, which then doubles up to a minute,
/// until the request has run out; from then on it ends the command, which prints so exactly where
/// it prints JSON.
pub proof fn a_failed_poll_is_repeated(run: PairingRun, now: i128, draw: u64)
    requires
        run.valid(),
        draw < DRAW_RANGE,
    ensures
        ({
            let (after, action) = run.next(PairEvent::PollFailed(now), draw);
            let (again, poll) = after.next(PairEvent::Waited(PairingWait::Elapsed), draw);
            &&& now < run.session.expires_at ==> {
                &&& action == PairAction::Wait(
                    jittered(run.backoff, run.options.jitter_percent, draw) as u128,
                )
                &&& after.phase is BackingOff
                &&& after.backoff == run.backoff
                &&& after.activated == run.activated
                &&& poll is Poll
                &&& again.phase is Polling
                &&& again.activated == run.activated
                &&& again.backoff == if 2 * run.backoff < 60 * 1_000_000_000 {
                    2 * run.backoff
                } else {
                    60int * 1_000_000_000
                }
            }
            &&& now >= run.session.expires_at ==> {
                &&& after.phase is Finished
                &&& action matches PairAction::FailExpired { announce, failure }
                &&& announce <==> !run.options.tray_events && run.options.output_mode
                    == OutputMode::Json
                &&& failure == (PairingFailure::ExpiredUnreachable {
                    request_id: run.session.request_id,
                })
            }
        }),
{
}

/// A stop ends the command at once in every phase that it can cut short: a shutdown ends it well,
/// and tells of a request that waits, with its page; the tray's cancellation and its deadline end
/// it each with its own failure and its own event, where the tray asked for events.
pub proof fn a_stop_ends_the_command(run: PairingRun, wait: PairingWait, draw: u64)
    requires
        run.awaits(PairEvent::Waited(wait)),
        wait != PairingWait::Elapsed,
    ensures
        ({
            let (after, action) = run.next(PairEvent::Waited(wait), draw);
            &&& after.phase is Finished
            &&& wait == PairingWait::Shutdown ==> match run.phase {
                PairPhase::Waiting(waiting) => {
                    &&& action matches PairAction::Interrupted {
                        channel,
                        request_id,
                        activation_url,
                    }
                    &&& request_id == waiting.request_id
                    &&& activation_url == waiting.activation_url
                    &&& channel == PairChannel::Tray <==> run.options.tray_events
                    &&& channel == PairChannel::Json <==> !run.options.tray_events
                        && run.options.output_mode == OutputMode::Json
                },
                _ => action is Finish,
            }
            &&& wait == PairingWait::Cancelled ==> action == PairAction::Stop(
                TrayStop {
                    event: if run.options.tray_events {
                        Some(StopEvent::Cancelled)
                    } else {
                        None
                    },
                    failure: PairingFailure::Cancelled,
                },
            )
            &&& wait == PairingWait::Deadline ==> action == PairAction::Stop(
                TrayStop {
                    event: if run.options.tray_events {
                        Some(StopEvent::Timeout)
                    } else {
                        None
                    },
                    failure: PairingFailure::Deadline,
                },
            )
        }),
{
}

/// Every operation of the command can end, and a stop can cut short those that may take long, but
/// never a commit; a command that is over takes no more events.
pub proof fn what_the_command_waits_for(run: PairingRun, wait: PairingWait)
    ensures
        run.phase is Announcing <==> run.awaits(PairEvent::Announced),
        run.phase is ReadingCode <==> run.awaits(PairEvent::CodeRead),
        run.phase is Activating <==> run.awaits(PairEvent::Activated(None)),
        run.phase is Polling <==> run.awaits(PairEvent::Polled(None)),
        run.phase is Polling <==> run.awaits(PairEvent::PollFailed(0)),
        run.phase is Committing <==> run.awaits(PairEvent::Committed),
        run.awaits(PairEvent::Waited(wait)) <==> run.phase is Waiting || run.phase is BackingOff
            || (wait != PairingWait::Elapsed && (run.phase is ReadingCode || run.phase is Activating
            || run.phase is Polling)),
{
}

} // verus!
