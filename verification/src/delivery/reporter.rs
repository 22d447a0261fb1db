//! How the agent comes by a reporter: an existing credential, a finished pairing, or a wait for
//! the browser.

use crate::identifier::{hyphenated, uuid_text};
use crate::pairing::PairingProgress;
use crate::schedule::{double_backoff, doubled, jitter_with, jittered, DRAW_RANGE, SECOND};
use crate::text;
use vstd::prelude::*;

verus! {

/// The longest delay between two polls that fail, in seconds.
pub const LONGEST_FAILURE_BACKOFF_SECONDS: u64 = 300;

/// The longest delay between two looks at a host that nobody has paired, in seconds.
pub const LONGEST_UNPAIRED_BACKOFF_SECONDS: u64 = 60;

/// The delay after a request that was denied or has expired, in seconds.
pub const CLOSED_REQUEST_SECONDS: u64 = 60;

/// What the log is told about the authorization. The same notice is not given twice in a row.
#[derive(Clone, Copy, PartialEq, Eq, Structural, Debug)]
pub enum AuthorizationNotice {
    Pending(u128),
    Denied(u128),
    Expired(u128),
    Unconfigured,
}

/// Why a command that does not wait gets no reporter.
#[derive(Debug)]
pub enum ReporterFailure {
    Pending { activation_url: String },
    Denied { request_id: u128, activation_url: String },
    Expired { request_id: u128, activation_url: String },
    NotAuthorized,
    /// The poll failed; its own error follows these words.
    PollFailed,
}

impl ReporterFailure {
    /// The words in which the failure is reported.
    pub open spec fn text(self) -> Seq<char> {
        match self {
            ReporterFailure::Pending { activation_url } =>
                "browser authorization is still pending; open "@ + activation_url@,
            ReporterFailure::Denied { request_id, activation_url } =>
                "browser authorization request "@ + hyphenated(request_id)
                    + " was denied; run pair again ("@ + activation_url@ + ")"@,
            ReporterFailure::Expired { request_id, activation_url } =>
                "browser authorization request "@ + hyphenated(request_id)
                    + " expired; run pair again ("@ + activation_url@ + ")"@,
            ReporterFailure::NotAuthorized =>
                "this host is not authorized; run `unionc-agent pair --server <url>` first"@,
            ReporterFailure::PollFailed => "failed to resume browser pairing"@,
        }
    }

    /// The words in which the failure is reported.
    pub fn message(&self) -> (r: String)
        ensures
            r@ == self.text(),
    {
        match self {
            ReporterFailure::Pending { activation_url } => text::cat(
                "browser authorization is still pending; open ",
                activation_url.as_str(),
            ),
            ReporterFailure::Denied { request_id, activation_url } => text::cat5(
                "browser authorization request ",
                uuid_text(*request_id).as_str(),
                " was denied; run pair again (",
                activation_url.as_str(),
                ")",
            ),
            ReporterFailure::Expired { request_id, activation_url } => text::cat5(
                "browser authorization request ",
                uuid_text(*request_id).as_str(),
                " expired; run pair again (",
                activation_url.as_str(),
                ")",
            ),
            ReporterFailure::NotAuthorized => text::owned(
                "this host is not authorized; run `unionc-agent pair --server <url>` first",
            ),
            ReporterFailure::PollFailed => text::owned("failed to resume browser pairing"),
        }
    }
}

/// Which operation is under way.
#[derive(Clone, Copy, PartialEq, Eq, Structural, Debug)]
pub enum ReporterPhase {
    /// Looking for a credential that works as it is.
    LookingUp,
    Polling,
    /// Waiting; afterwards the backoff doubles up to this many seconds, if it is to grow.
    Waiting { grow_to: Option<u64> },
    /// Taking over the credential of this pairing.
    Adopting { generation: u128, request_id: u128 },
    Finished,
}

/// The search for a reporter.
#[derive(Clone, Copy, PartialEq, Eq, Structural, Debug)]
pub struct ReporterSearch {
    /// The resident command waits for the browser; the others do not.
    pub resident: bool,
    pub jitter_percent: u8,
    pub backoff: u64,
    pub last_notice: Option<AuthorizationNotice>,
    pub phase: ReporterPhase,
}

/// What came of the operation under way.
#[derive(Debug)]
pub enum ReporterEvent {
    /// Whether a credential was found that works as it is.
    LookedUp(bool),
    Polled(Option<PairingProgress>),
    PollFailed,
    Waited,
    Adopted,
    Shutdown,
}

/// What to do next.
#[derive(Debug)]
pub enum ReporterAction {
    LookUp,
    Poll,
    /// Give the notice, if there is one, then wait this many nanoseconds.
    Wait { nanoseconds: u128, notice: Option<AuthorizationNotice> },
    /// Take over the credential of this pairing.
    Adopt { generation: u128, request_id: u128, instance_id: u128, report_endpoint: String },
    /// Use the credential that was found, which belongs to no pairing followed here.
    UseExisting,
    /// Use the credential of this pairing.
    UsePaired { generation: u128, request_id: u128 },
    /// End without a reporter.
    GiveUp,
    Fail(ReporterFailure),
}

impl ReporterSearch {
    /// The delays are those that the search itself sets.
    pub open spec fn valid(self) -> bool {
        &&& SECOND <= self.backoff <= LONGEST_FAILURE_BACKOFF_SECONDS * SECOND
        &&& self.phase matches ReporterPhase::Waiting { grow_to: Some(cap) } ==> 1 <= cap
            <= LONGEST_FAILURE_BACKOFF_SECONDS
    }

    /// The event can come now.
    pub open spec fn awaits(self, event: ReporterEvent) -> bool {
        match self.phase {
            ReporterPhase::LookingUp => event is LookedUp,
            ReporterPhase::Polling => event is Polled || event is PollFailed || event is Shutdown,
            ReporterPhase::Waiting { .. } => event is Waited || event is Shutdown,
            ReporterPhase::Adopting { .. } => event is Adopted,
            ReporterPhase::Finished => false,
        }
    }

    /// The same search in another phase.
    pub open spec fn at(self, phase: ReporterPhase) -> ReporterSearch {
        ReporterSearch { phase, ..self }
    }

    /// The search's last step.
    pub open spec fn ends(self, action: ReporterAction) -> (ReporterSearch, ReporterAction) {
        (self.at(ReporterPhase::Finished), action)
    }

    /// Another round: the resident command first looks for a credential, the others only ask.
    pub open spec fn round(self) -> (ReporterSearch, ReporterAction) {
        if self.resident {
            (self.at(ReporterPhase::LookingUp), ReporterAction::LookUp)
        } else {
            (self.at(ReporterPhase::Polling), ReporterAction::Poll)
        }
    }

    /// A wait, with a notice unless it was the last one given.
    pub open spec fn waits(
        self,
        nanoseconds: int,
        notice: Option<AuthorizationNotice>,
        grow_to: Option<u64>,
    ) -> (ReporterSearch, ReporterAction) {
        let news = notice is Some && notice != self.last_notice;
        (
            ReporterSearch {
                last_notice: if news {
                    notice
                } else {
                    self.last_notice
                },
                phase: ReporterPhase::Waiting { grow_to },
                ..self
            },
            ReporterAction::Wait {
                nanoseconds: nanoseconds as u128,
                notice: if news {
                    notice
                } else {
                    None
                },
            },
        )
    }

    /// What a poll's answer leads to.
    pub open spec fn answered(self, progress: Option<PairingProgress>, draw: u64) -> (
        ReporterSearch,
        ReporterAction,
    ) {
        match progress {
            Some(PairingProgress::Creating { .. }) => self.round(),
            Some(PairingProgress::Waiting(waiting)) => if self.resident {
                ReporterSearch { backoff: SECOND, ..self }.waits(
                    waiting.poll_interval * SECOND,
                    Some(AuthorizationNotice::Pending(waiting.request_id)),
                    None,
                )
            } else {
                self.ends(
                    ReporterAction::Fail(
                        ReporterFailure::Pending { activation_url: waiting.activation_url },
                    ),
                )
            },
            Some(
                PairingProgress::Active { generation, request_id, instance_id, report_endpoint },
            ) => (
                self.at(ReporterPhase::Adopting { generation, request_id }),
                ReporterAction::Adopt { generation, request_id, instance_id, report_endpoint },
            ),
            Some(PairingProgress::Denied { generation, request_id, activation_url }) =>
                if self.resident {
                    self.waits(
                        CLOSED_REQUEST_SECONDS * SECOND,
                        Some(AuthorizationNotice::Denied(request_id)),
                        None,
                    )
                } else {
                    self.ends(
                        ReporterAction::Fail(
                            ReporterFailure::Denied { request_id, activation_url },
                        ),
                    )
                },
            Some(PairingProgress::Expired { generation, request_id, activation_url }) =>
                if self.resident {
                    self.waits(
                        CLOSED_REQUEST_SECONDS * SECOND,
                        Some(AuthorizationNotice::Expired(request_id)),
                        None,
                    )
                } else {
                    self.ends(
                        ReporterAction::Fail(
                            ReporterFailure::Expired { request_id, activation_url },
                        ),
                    )
                },
            None => if self.resident {
                self.waits(
                    jittered(self.backoff, self.jitter_percent, draw),
                    Some(AuthorizationNotice::Unconfigured),
                    Some(LONGEST_UNPAIRED_BACKOFF_SECONDS),
                )
            } else {
                self.ends(ReporterAction::Fail(ReporterFailure::NotAuthorized))
            },
        }
    }

    /// The step that `event` leads to, with `draw` for a wait that is jittered.
    pub open spec fn next(self, event: ReporterEvent, draw: u64) -> (
        ReporterSearch,
        ReporterAction,
    ) {
        match event {
            ReporterEvent::LookedUp(found) => if found {
                self.ends(ReporterAction::UseExisting)
            } else {
                (self.at(ReporterPhase::Polling), ReporterAction::Poll)
            },
            ReporterEvent::Polled(progress) => self.answered(progress, draw),
            ReporterEvent::PollFailed => if self.resident {
                self.waits(
                    jittered(self.backoff, self.jitter_percent, draw),
                    None,
                    Some(LONGEST_FAILURE_BACKOFF_SECONDS),
                )
            } else {
                self.ends(ReporterAction::Fail(ReporterFailure::PollFailed))
            },
            ReporterEvent::Waited => match self.phase {
                ReporterPhase::Waiting { grow_to: Some(cap) } => ReporterSearch {
                    backoff: doubled(self.backoff as int, cap * SECOND) as u64,
                    ..self
                }.round(),
                _ => self.round(),
            },
            ReporterEvent::Adopted => match self.phase {
                ReporterPhase::Adopting { generation, request_id } => self.ends(
                    ReporterAction::UsePaired { generation, request_id },
                ),
                _ => self.ends(ReporterAction::GiveUp),
            },
            ReporterEvent::Shutdown => self.ends(ReporterAction::GiveUp),
        }
    }

    fn begin_round(&mut self) -> (r: ReporterAction)
        ensures
            (*final(self), r) == old(self).round(),
    {
        if self.resident {
            self.phase = ReporterPhase::LookingUp;
            ReporterAction::LookUp
        } else {
            self.phase = ReporterPhase::Polling;
            ReporterAction::Poll
        }
    }

    fn wait(
        &mut self,
        nanoseconds: u128,
        notice: Option<AuthorizationNotice>,
        grow_to: Option<u64>,
    ) -> (r: ReporterAction)
        ensures
            (*final(self), r) == old(self).waits(nanoseconds as int, notice, grow_to),
    {
        let news = match (notice, self.last_notice) {
            (None, _) => false,
            (Some(_), None) => true,
            (Some(given), Some(last)) => given != last,
        };
        self.phase = ReporterPhase::Waiting { grow_to };
        if news {
            self.last_notice = notice;
            ReporterAction::Wait { nanoseconds, notice }
        } else {
            ReporterAction::Wait { nanoseconds, notice: None }
        }
    }

    fn end(&mut self, action: ReporterAction) -> (r: ReporterAction)
        ensures
            (*final(self), r) == old(self).ends(action),
    {
        self.phase = ReporterPhase::Finished;
        action
    }

    fn answer(&mut self, progress: Option<PairingProgress>, draw: u64) -> (r: ReporterAction)
        requires
            old(self).valid(),
            draw < DRAW_RANGE,
        ensures
            (*final(self), r) == old(self).answered(progress, draw),
    {
        match progress {
            Some(PairingProgress::Creating { .. }) => self.begin_round(),
            Some(PairingProgress::Waiting(waiting)) => {
                if !self.resident {
                    return self.end(
                        ReporterAction::Fail(
                            ReporterFailure::Pending { activation_url: waiting.activation_url },
                        ),
                    );
                }
                self.backoff = SECOND;
                assert(waiting.poll_interval * SECOND <= u64::MAX * SECOND) by (nonlinear_arith)
                    requires
                        waiting.poll_interval <= u64::MAX,
                ;
                let delay: u128 = (waiting.poll_interval as u128) * (SECOND as u128);
                self.wait(delay, Some(AuthorizationNotice::Pending(waiting.request_id)), None)
            },
            Some(
                PairingProgress::Active { generation, request_id, instance_id, report_endpoint },
            ) => {
                self.phase = ReporterPhase::Adopting { generation, request_id };
                ReporterAction::Adopt { generation, request_id, instance_id, report_endpoint }
            },
            Some(PairingProgress::Denied { generation: _, request_id, activation_url }) => {
                if !self.resident {
                    return self.end(
                        ReporterAction::Fail(
                            ReporterFailure::Denied { request_id, activation_url },
                        ),
                    );
                }
                let delay: u128 = (CLOSED_REQUEST_SECONDS as u128) * (SECOND as u128);
                self.wait(delay, Some(AuthorizationNotice::Denied(request_id)), None)
            },
            Some(PairingProgress::Expired { generation: _, request_id, activation_url }) => {
                if !self.resident {
                    return self.end(
                        ReporterAction::Fail(
                            ReporterFailure::Expired { request_id, activation_url },
                        ),
                    );
                }
                let delay: u128 = (CLOSED_REQUEST_SECONDS as u128) * (SECOND as u128);
                self.wait(delay, Some(AuthorizationNotice::Expired(request_id)), None)
            },
            None => {
                if !self.resident {
                    return self.end(ReporterAction::Fail(ReporterFailure::NotAuthorized));
                }
                let delay: u64 = jitter_with(self.backoff, self.jitter_percent, draw);
                self.wait(
                    delay as u128,
                    Some(AuthorizationNotice::Unconfigured),
                    Some(LONGEST_UNPAIRED_BACKOFF_SECONDS),
                )
            },
        }
    }

    /// Begin the search.
    pub fn start(resident: bool, jitter_percent: u8) -> (r: (ReporterSearch, ReporterAction))
        ensures
            r == (ReporterSearch {
                resident,
                jitter_percent,
                backoff: SECOND,
                last_notice: None,
                phase: ReporterPhase::Polling,
            }).round(),
            r.0.valid(),
    {
        let mut search = ReporterSearch {
            resident,
            jitter_percent,
            backoff: SECOND,
            last_notice: None,
            phase: ReporterPhase::Polling,
        };
        let action = search.begin_round();
        (search, action)
    }

    /// Take the outcome of the operation under way and say what to do next.
    pub fn step(&mut self, event: ReporterEvent, draw: u64) -> (r: ReporterAction)
        requires
            old(self).valid(),
            old(self).awaits(event),
            draw < DRAW_RANGE,
        ensures
            (*final(self), r) == old(self).next(event, draw),
            final(self).valid(),
    {
        match event {
            ReporterEvent::LookedUp(found) => if found {
                self.end(ReporterAction::UseExisting)
            } else {
                self.phase = ReporterPhase::Polling;
                ReporterAction::Poll
            },
            ReporterEvent::Polled(progress) => self.answer(progress, draw),
            ReporterEvent::PollFailed => {
                if !self.resident {
                    return self.end(ReporterAction::Fail(ReporterFailure::PollFailed));
                }
                let delay: u64 = jitter_with(self.backoff, self.jitter_percent, draw);
                self.wait(delay as u128, None, Some(LONGEST_FAILURE_BACKOFF_SECONDS))
            },
            ReporterEvent::Waited => {
                if let ReporterPhase::Waiting { grow_to: Some(cap) } = self.phase {
                    self.backoff = double_backoff(self.backoff, cap * SECOND);
                }
                self.begin_round()
            },
            ReporterEvent::Adopted => match self.phase {
                ReporterPhase::Adopting { generation, request_id } => self.end(
                    ReporterAction::UsePaired { generation, request_id },
                ),
                _ => self.end(ReporterAction::GiveUp),
            },
            ReporterEvent::Shutdown => self.end(ReporterAction::GiveUp),
        }
    }
}

/// The resident command never fails for want of authorization: it waits, or it ends with a
/// reporter, or a shutdown ends it.
pub proof fn the_resident_command_never_fails(search: ReporterSearch, event: ReporterEvent, draw: u64)
    requires
        search.resident,
    ensures
        search.next(event, draw).1 !is Fail,
        search.next(event, draw).0.resident,
{
}

/// A command that is not resident never waits.
pub proof fn other_commands_never_wait(search: ReporterSearch, event: ReporterEvent, draw: u64)
    requires
        !search.resident,
    ensures
        search.next(event, draw).1 !is Wait,
{
}

/// The log is never given the notice that it was given last.
pub proof fn no_notice_is_repeated(search: ReporterSearch, event: ReporterEvent, draw: u64)
    ensures
        search.next(event, draw).1 matches ReporterAction::Wait { nanoseconds, notice } ==> (notice
            is Some ==> notice != search.last_notice && search.next(event, draw).0.last_notice
            == notice),
{
}

/// A credential that works as it is is used at once; without one the server is asked.
pub proof fn a_working_credential_is_used(search: ReporterSearch, draw: u64)
    ensures
        search.next(ReporterEvent::LookedUp(true), draw).1 == ReporterAction::UseExisting,
        search.next(ReporterEvent::LookedUp(true), draw).0.phase is Finished,
        search.next(ReporterEvent::LookedUp(false), draw).1 == ReporterAction::Poll,
        search.next(ReporterEvent::LookedUp(false), draw).0.phase is Polling,
{
}

/// An activation is taken up with the values that the server gave, and then used; a shutdown ends
/// the search without a reporter.
pub proof fn an_activation_is_used(
    search: ReporterSearch,
    generation: u128,
    request_id: u128,
    instance_id: u128,
    report_endpoint: String,
    draw: u64,
)
    ensures
        ({
            let (adopting, action) = search.next(
                ReporterEvent::Polled(
                    Some(
                        PairingProgress::Active {
                            generation,
                            request_id,
                            instance_id,
                            report_endpoint,
                        },
                    ),
                ),
                draw,
            );
            let (after, last) = adopting.next(ReporterEvent::Adopted, draw);
            &&& action == (ReporterAction::Adopt {
                generation,
                request_id,
                instance_id,
                report_endpoint,
            })
            &&& adopting.awaits(ReporterEvent::Adopted)
            &&& last == (ReporterAction::UsePaired { generation, request_id })
            &&& after.phase is Finished
            &&& search.next(ReporterEvent::Shutdown, draw).1 == ReporterAction::GiveUp
            &&& search.next(ReporterEvent::Shutdown, draw).0.phase is Finished
        }),
{
}

/// A command that does not wait fails with what keeps it from its authorization: the page of a
/// request that waits, the request that was refused or ran out, that there is none, or that the
/// server could not be asked.
pub proof fn what_keeps_a_command_from_reporting(
    search: ReporterSearch,
    event: ReporterEvent,
    draw: u64,
)
    requires
        !search.resident,
    ensures
        ({
            let (after, action) = search.next(event, draw);
            &&& event matches ReporterEvent::PollFailed ==> action == ReporterAction::Fail(
                ReporterFailure::PollFailed,
            )
            &&& event matches ReporterEvent::Polled(None) ==> action == ReporterAction::Fail(
                ReporterFailure::NotAuthorized,
            )
            &&& event matches ReporterEvent::Polled(Some(PairingProgress::Waiting(waiting)))
                ==> action == ReporterAction::Fail(
                ReporterFailure::Pending { activation_url: waiting.activation_url },
            )
            &&& event matches ReporterEvent::Polled(
                Some(PairingProgress::Denied { generation, request_id, activation_url }),
            ) ==> action == ReporterAction::Fail(
                ReporterFailure::Denied { request_id, activation_url },
            )
            &&& event matches ReporterEvent::Polled(
                Some(PairingProgress::Expired { generation, request_id, activation_url }),
            ) ==> action == ReporterAction::Fail(
                ReporterFailure::Expired { request_id, activation_url },
            )
            &&& event matches ReporterEvent::Polled(Some(PairingProgress::Creating { .. }))
                ==> action == ReporterAction::Poll && after.phase is Polling
            &&& action is Fail ==> after.phase is Finished && (event is Polled || event
                is PollFailed)
        }),
{
}

/// The resident command waits and looks again: the server's interval while a request waits, a
/// minute after one that was refused or ran out, and the jittered backoff where there is none or the
/// server cannot be asked. It gives a notice of each new state of its request, once.
pub proof fn how_long_the_resident_command_waits(
    search: ReporterSearch,
    event: ReporterEvent,
    draw: u64,
)
    requires
        search.resident,
        search.valid(),
        draw < DRAW_RANGE,
        event is PollFailed || event is Polled,
        !(event matches ReporterEvent::Polled(Some(PairingProgress::Active { .. }))),
        !(event matches ReporterEvent::Polled(Some(PairingProgress::Creating { .. }))),
    ensures
        ({
            let (after, action) = search.next(event, draw);
            let (again, look) = after.next(ReporterEvent::Waited, draw);
            let backed_off = jittered(search.backoff, search.jitter_percent, draw);
            let news = match event {
                ReporterEvent::Polled(Some(PairingProgress::Waiting(waiting))) => Some(
                    AuthorizationNotice::Pending(waiting.request_id),
                ),
                ReporterEvent::Polled(
                    Some(PairingProgress::Denied { generation, request_id, activation_url }),
                ) => Some(AuthorizationNotice::Denied(request_id)),
                ReporterEvent::Polled(
                    Some(PairingProgress::Expired { generation, request_id, activation_url }),
                ) => Some(AuthorizationNotice::Expired(request_id)),
                ReporterEvent::Polled(None) => Some(AuthorizationNotice::Unconfigured),
                _ => None,
            };
            &&& action matches ReporterAction::Wait { nanoseconds, notice }
            &&& nanoseconds == match event {
                ReporterEvent::Polled(Some(PairingProgress::Waiting(waiting))) =>
                    waiting.poll_interval * 1_000_000_000,
                ReporterEvent::Polled(Some(_)) => 60int * 1_000_000_000,
                _ => backed_off,
            }
            &&& notice == if news != search.last_notice {
                news
            } else {
                None
            }
            &&& news is Some ==> after.last_notice == news
            &&& news is None ==> after.last_notice == search.last_notice
            &&& look == ReporterAction::LookUp
            &&& again.phase is LookingUp
            &&& again.last_notice == after.last_notice
            &&& event matches ReporterEvent::Polled(Some(PairingProgress::Waiting(_)))
                ==> again.backoff == 1_000_000_000
            &&& (event matches ReporterEvent::Polled(Some(progress))
                && !(progress matches PairingProgress::Waiting(_))) ==> again.backoff
                == search.backoff
            &&& event == ReporterEvent::Polled(None) ==> again.backoff == if 2 * search.backoff < 60
                * 1_000_000_000 {
                2 * search.backoff
            } else {
                60int * 1_000_000_000
            }
            &&& event is PollFailed ==> again.backoff == if 2 * search.backoff < 300
                * 1_000_000_000 {
                2 * search.backoff
            } else {
                300int * 1_000_000_000
            }
        }),
{
    crate::schedule::lemma_jittered_fits(search.backoff, search.jitter_percent, draw);
    if let ReporterEvent::Polled(Some(PairingProgress::Waiting(waiting))) = event {
        assert(0 <= waiting.poll_interval * SECOND <= u64::MAX * SECOND) by (nonlinear_arith)
            requires
                0 <= waiting.poll_interval <= u64::MAX,
        ;
    }
}

/// A request that is being created is asked about again: by the resident command after another look
/// for a credential, by the others at once. What each operation waits for.
pub proof fn a_round_begins_with_a_look(search: ReporterSearch, generation: u128, draw: u64)
    ensures
        ({
            let (after, action) = search.next(
                ReporterEvent::Polled(Some(PairingProgress::Creating { generation })),
                draw,
            );
            &&& search.resident ==> action == ReporterAction::LookUp && after.phase is LookingUp
            &&& !search.resident ==> action == ReporterAction::Poll && after.phase is Polling
            &&& after.backoff == search.backoff
        }),
        search.phase is LookingUp <==> search.awaits(ReporterEvent::LookedUp(true)),
        search.phase is Polling <==> search.awaits(ReporterEvent::PollFailed),
        search.phase is Polling <==> search.awaits(ReporterEvent::Polled(None)),
        search.phase is Waiting <==> search.awaits(ReporterEvent::Waited),
        search.phase is Adopting <==> search.awaits(ReporterEvent::Adopted),
        search.awaits(ReporterEvent::Shutdown) <==> search.phase is Polling || search.phase
            is Waiting,
{
}

} // verus!
