//! The delivery worker: when to send stored reports, when to look for a new pairing, and when to
//! stop sending until the host is authorized again.

use crate::delivery::spool::{SpoolFault, SpoolHealth};
use crate::pairing::PairingProgress;
use crate::schedule::{
    double_backoff, doubled, jitter_draw, jitter_with, jittered, lemma_jittered_fits, DRAW_RANGE,
    LONGEST_JITTERED, SECOND,
};
use vstd::prelude::*;

verus! {

/// The longest delay between two deliveries or two pairing probes that fail, in seconds.
pub const LONGEST_BACKOFF_SECONDS: u64 = 300;

/// How long the worker sleeps when nothing is due, in seconds.
pub const IDLE_SECONDS: u64 = 3600;

/// Whether a delivery is due, and when the delivery's timer is to fire otherwise. A delivery
/// that is due has no timer: one that fired at once would cut every delivery short.
pub open spec fn timing(blocked: bool, retry_at: Option<u128>, now: u128) -> (bool, Option<u128>) {
    match retry_at {
        Some(at) if !blocked => if now >= at {
            (true, None)
        } else {
            (false, Some(at))
        },
        _ => (false, None),
    }
}

/// Whether a delivery is due, and when the delivery's timer is to fire otherwise.
pub fn delivery_timing(authorization_blocked: bool, retry_at: Option<u128>, now: u128) -> (r: (
    bool,
    Option<u128>,
))
    ensures
        r == timing(authorization_blocked, retry_at, now),
{
    if authorization_blocked {
        return (false, None);
    }
    match retry_at {
        Some(at) => if now >= at {
            (true, None)
        } else {
            (false, Some(at))
        },
        None => (false, None),
    }
}

/// When to probe again after a probe failed, the backoff after that, and the delay in between.
pub open spec fn failure_schedule(now: u64, backoff: u64, percent: u8, draw: u64) -> (
    u128,
    u64,
    u64,
) {
    let delay = jittered(backoff, percent, draw);
    (
        (now + delay) as u128,
        doubled(backoff as int, LONGEST_BACKOFF_SECONDS * SECOND) as u64,
        delay as u64,
    )
}

/// The schedule after a probe that failed, for a given draw.
pub fn failure_schedule_with(now: u64, backoff: u64, jitter_percent: u8, draw: u64) -> (r: (
    u128,
    u64,
    u64,
))
    requires
        backoff <= LONGEST_JITTERED,
        draw < DRAW_RANGE,
    ensures
        r == failure_schedule(now, backoff, jitter_percent, draw),
{
    let delay: u64 = jitter_with(backoff, jitter_percent, draw);
    let next_backoff: u64 = double_backoff(backoff, LONGEST_BACKOFF_SECONDS * SECOND);
    ((now as u128) + (delay as u128), next_backoff, delay)
}

/// The schedule after a probe that failed.
pub fn pairing_failure_schedule(now: u64, backoff: u64, jitter_percent: u8) -> (r: (u128, u64, u64))
    requires
        backoff <= LONGEST_JITTERED,
    ensures
        exists|draw: u64|
            draw < DRAW_RANGE && r == #[trigger] failure_schedule(
                now,
                backoff,
                jitter_percent,
                draw,
            ),
        jitter_percent == 0 ==> r.2 == backoff && r.0 == now + backoff,
        r.1 == doubled(backoff as int, LONGEST_BACKOFF_SECONDS * SECOND),
{
    let draw: u64 = jitter_draw();
    failure_schedule_with(now, backoff, jitter_percent, draw)
}

/// What the server makes of a report that it does not take.
#[derive(Clone, Copy, PartialEq, Eq, Structural, Debug)]
pub enum Rejection {
    /// The credential is not accepted.
    Unauthorized,
    /// The credential was revoked.
    Revoked,
    /// Anything else, such as a server out of reach.
    Other,
}

/// What came of sending a batch of stored reports.
#[derive(Clone, Copy, PartialEq, Eq, Structural, Debug)]
pub enum Flush {
    /// Nothing is stored any more.
    Drained,
    /// The batch is used up, and more may be stored.
    BatchComplete,
    /// A report was not taken.
    Rejected(Rejection),
    /// The spool itself failed.
    SpoolFailed,
}

/// Which operation, apart from waiting, the worker has under way.
#[derive(Clone, Copy, PartialEq, Eq, Structural, Debug)]
pub enum DeliveryPhase {
    /// None: it waits for whatever comes first.
    Selecting,
    /// Taking over the credential of this pairing.
    Adopting { generation: u128, request_id: u128 },
    /// Writing down that the host must be authorized again.
    MarkingReauth,
}

/// What the delivery worker remembers.
#[derive(Clone, Copy, Debug)]
pub struct DeliveryState {
    pub jitter_percent: u8,
    /// When to deliver next; nothing while nothing is stored or delivery is blocked.
    pub retry_at: Option<u128>,
    pub backoff: u64,
    pub flush_health: SpoolHealth,
    /// The credential was refused: nothing is sent until a new pairing.
    pub authorization_blocked: bool,
    pub pairing_retry_at: u128,
    pub pairing_backoff: u64,
    /// A pairing probe is under way.
    pub probing: bool,
    /// The generation and the request of the pairing in use.
    pub active_pairing: Option<(u128, u128)>,
    pub phase: DeliveryPhase,
}

/// What the worker does in one turn: start a probe, send a batch, and wait no longer than until
/// the deadline.
#[derive(Clone, Copy, PartialEq, Eq, Structural, Debug)]
pub struct DeliveryPlan {
    pub start_probe: bool,
    pub deliver: bool,
    pub deadline: u128,
}

/// What happened.
#[derive(Debug)]
pub enum DeliveryEvent {
    /// The shutdown flag changed, or nobody can change it any more.
    ShutdownChanged { closed: bool, requested: bool },
    /// The probe's task broke down.
    ProbeCrashed,
    ProbeFailed,
    Probed(Option<PairingProgress>),
    /// The credential of the new pairing was taken over.
    Adopted,
    /// It could not be: the pairing changed meanwhile.
    AdoptionFailed,
    Flushed(Flush),
    /// Whether the refused credential was still the current one.
    ReauthMarked(bool),
    ReauthUnknown,
    /// A report was stored; `false` where no more will be.
    Woken(bool),
    TimerElapsed,
}

/// Why the worker fails.
#[derive(Clone, Copy, PartialEq, Eq, Structural, Debug)]
pub enum DeliveryFailure {
    ProbeCrashed,
    Spool(SpoolFault),
}

/// What to do next.
#[derive(Debug)]
pub enum DeliveryAction {
    /// Take the next turn.
    Continue,
    /// Let other tasks run, then take the next turn.
    Yield,
    /// Remind of the activation page, then take the next turn.
    Remind { activation_url: String },
    /// Take over the credential of this pairing.
    Adopt { generation: u128, request_id: u128, instance_id: u128, report_endpoint: String },
    /// Let the sampler know the new host identity, then take the next turn.
    PublishHost,
    /// Write down that the host must be authorized again, if the credential is the current one.
    MarkReauth(Rejection),
    Stop,
    Fail(DeliveryFailure),
}

impl DeliveryState {
    /// The delays are those that the worker itself sets, and it has not given up on the spool.
    pub open spec fn valid(self) -> bool {
        &&& SECOND <= self.backoff <= LONGEST_BACKOFF_SECONDS * SECOND
        &&& SECOND <= self.pairing_backoff <= LONGEST_BACKOFF_SECONDS * SECOND
        &&& !self.flush_health.given_up()
    }

    /// The event can come now.
    pub open spec fn awaits(self, event: DeliveryEvent) -> bool {
        match self.phase {
            DeliveryPhase::Selecting => match event {
                DeliveryEvent::ProbeCrashed | DeliveryEvent::ProbeFailed
                | DeliveryEvent::Probed(_) => self.probing,
                DeliveryEvent::Flushed(_) => !self.authorization_blocked && self.retry_at is Some,
                DeliveryEvent::Adopted | DeliveryEvent::AdoptionFailed
                | DeliveryEvent::ReauthMarked(_) | DeliveryEvent::ReauthUnknown => false,
                _ => true,
            },
            DeliveryPhase::Adopting { .. } => event is Adopted || event is AdoptionFailed,
            DeliveryPhase::MarkingReauth => event is ReauthMarked || event is ReauthUnknown,
        }
    }

    /// The next turn's plan.
    pub open spec fn plan(self, now: u64) -> DeliveryPlan {
        let start_probe = !self.probing && now >= self.pairing_retry_at;
        let (deliver, delivery_timer) = timing(
            self.authorization_blocked,
            self.retry_at,
            now as u128,
        );
        let pairing_timer = if self.probing || start_probe {
            None
        } else {
            Some(self.pairing_retry_at)
        };
        DeliveryPlan {
            start_probe,
            deliver,
            deadline: match (delivery_timer, pairing_timer) {
                (Some(left), Some(right)) => if left <= right {
                    left
                } else {
                    right
                },
                (Some(left), None) => left,
                (None, Some(right)) => right,
                (None, None) => (now + IDLE_SECONDS * SECOND) as u128,
            },
        }
    }

    /// The next delivery comes after the jittered backoff.
    pub open spec fn retry_later(self, now: u64, draw: u64) -> DeliveryState {
        DeliveryState {
            retry_at: Some((now + jittered(self.backoff, self.jitter_percent, draw)) as u128),
            ..self
        }
    }

    /// The backoff of the deliveries grows.
    pub open spec fn slower(self) -> DeliveryState {
        DeliveryState {
            backoff: doubled(self.backoff as int, LONGEST_BACKOFF_SECONDS * SECOND) as u64,
            ..self
        }
    }

    /// The next probe comes after the jittered backoff, which grows.
    pub open spec fn probe_later(self, now: u64, draw: u64) -> DeliveryState {
        let (at, backoff, delay) = failure_schedule(
            now,
            self.pairing_backoff,
            self.jitter_percent,
            draw,
        );
        DeliveryState { pairing_retry_at: at, pairing_backoff: backoff, ..self }
    }

    /// The next probe comes in so many seconds.
    pub open spec fn probe_in(self, now: u64, seconds: u64) -> DeliveryState {
        DeliveryState { pairing_retry_at: (now + seconds * SECOND) as u128, ..self }
    }

    /// The spool was read.
    pub open spec fn spool_worked(self) -> DeliveryState {
        DeliveryState { flush_health: SpoolHealth { consecutive_failures: 0 }, ..self }
    }

    /// Nothing is sent until a new pairing, which is looked for at once.
    pub open spec fn blocked(self, now: u64) -> DeliveryState {
        DeliveryState {
            authorization_blocked: true,
            retry_at: None,
            pairing_retry_at: now as u128,
            ..self
        }
    }

    /// What a probe's answer leads to.
    pub open spec fn probed(self, progress: Option<PairingProgress>, now: u64) -> (
        DeliveryState,
        DeliveryAction,
    ) {
        let idle = DeliveryState { probing: false, ..self };
        match progress {
            Some(
                PairingProgress::Active { generation, request_id, instance_id, report_endpoint },
            ) => if self.active_pairing != Some((generation, request_id)) {
                (
                    DeliveryState {
                        phase: DeliveryPhase::Adopting { generation, request_id },
                        ..idle
                    },
                    DeliveryAction::Adopt { generation, request_id, instance_id, report_endpoint },
                )
            } else {
                (idle.probe_in(now, 60), DeliveryAction::Continue)
            },
            Some(PairingProgress::Waiting(waiting)) => (
                DeliveryState { pairing_backoff: SECOND, ..idle.probe_in(
                    now,
                    waiting.poll_interval,
                ) },
                if self.authorization_blocked {
                    DeliveryAction::Remind { activation_url: waiting.activation_url }
                } else {
                    DeliveryAction::Continue
                },
            ),
            Some(PairingProgress::Creating { .. }) => (
                idle.probe_in(now, 2),
                DeliveryAction::Continue,
            ),
            _ => (idle.probe_in(now, 60), DeliveryAction::Continue),
        }
    }

    /// What a batch leads to.
    pub open spec fn flushed(self, flush: Flush, now: u64, draw: u64) -> (
        DeliveryState,
        DeliveryAction,
    ) {
        match flush {
            Flush::Drained => (
                DeliveryState { retry_at: None, backoff: SECOND, ..self.spool_worked() },
                DeliveryAction::Continue,
            ),
            Flush::BatchComplete => (
                DeliveryState {
                    retry_at: Some(now as u128),
                    backoff: SECOND,
                    ..self.spool_worked()
                },
                DeliveryAction::Yield,
            ),
            Flush::SpoolFailed => {
                let counted = DeliveryState { flush_health: self.flush_health.failed(), ..self };
                if counted.flush_health.given_up() {
                    (
                        counted,
                        DeliveryAction::Fail(
                            DeliveryFailure::Spool(
                                SpoolFault {
                                    consecutive_failures: counted.flush_health.consecutive_failures,
                                },
                            ),
                        ),
                    )
                } else {
                    (counted.retry_later(now, draw).slower(), DeliveryAction::Continue)
                }
            },
            Flush::Rejected(Rejection::Other) => (
                self.spool_worked().retry_later(now, draw).slower(),
                DeliveryAction::Continue,
            ),
            Flush::Rejected(rejection) => (
                DeliveryState { phase: DeliveryPhase::MarkingReauth, ..self.spool_worked() },
                DeliveryAction::MarkReauth(rejection),
            ),
        }
    }

    /// The step that `event` leads to at `now`, with `draw` for a wait that is jittered.
    pub open spec fn next(self, event: DeliveryEvent, now: u64, draw: u64) -> (
        DeliveryState,
        DeliveryAction,
    ) {
        let selecting = DeliveryState { phase: DeliveryPhase::Selecting, ..self };
        match event {
            DeliveryEvent::ShutdownChanged { closed, requested } => (
                self,
                if closed || requested {
                    DeliveryAction::Stop
                } else {
                    DeliveryAction::Continue
                },
            ),
            DeliveryEvent::ProbeCrashed => (
                DeliveryState { probing: false, ..self },
                DeliveryAction::Fail(DeliveryFailure::ProbeCrashed),
            ),
            DeliveryEvent::ProbeFailed => (
                DeliveryState { probing: false, ..self }.probe_later(now, draw),
                DeliveryAction::Continue,
            ),
            DeliveryEvent::Probed(progress) => self.probed(progress, now),
            DeliveryEvent::Adopted => match self.phase {
                DeliveryPhase::Adopting { generation, request_id } => (
                    DeliveryState {
                        active_pairing: Some((generation, request_id)),
                        authorization_blocked: false,
                        retry_at: Some(now as u128),
                        backoff: SECOND,
                        pairing_backoff: SECOND,
                        ..selecting.probe_in(now, 60)
                    },
                    DeliveryAction::PublishHost,
                ),
                _ => (self, DeliveryAction::Continue),
            },
            DeliveryEvent::AdoptionFailed => (
                selecting.probe_later(now, draw),
                DeliveryAction::Continue,
            ),
            DeliveryEvent::Flushed(flush) => self.flushed(flush, now, draw),
            DeliveryEvent::ReauthMarked(true) | DeliveryEvent::ReauthUnknown => (
                selecting.blocked(now),
                DeliveryAction::Continue,
            ),
            DeliveryEvent::ReauthMarked(false) => (
                DeliveryState { pairing_retry_at: now as u128, ..selecting }.retry_later(now, draw),
                DeliveryAction::Continue,
            ),
            DeliveryEvent::Woken(false) => (self, DeliveryAction::Stop),
            DeliveryEvent::Woken(true) => (
                if !self.authorization_blocked && self.retry_at is None {
                    DeliveryState { retry_at: Some(now as u128), ..self }
                } else {
                    self
                },
                DeliveryAction::Continue,
            ),
            DeliveryEvent::TimerElapsed => (self, DeliveryAction::Continue),
        }
    }

    /// The worker as it starts: a delivery and a probe are due at once.
    pub fn starting_now(
        jitter_percent: u8,
        active_pairing: Option<(u128, u128)>,
        now: u64,
    ) -> (r: Self)
        ensures
            r == (DeliveryState {
                jitter_percent,
                retry_at: Some(now as u128),
                backoff: SECOND,
                flush_health: SpoolHealth { consecutive_failures: 0 },
                authorization_blocked: false,
                pairing_retry_at: now as u128,
                pairing_backoff: SECOND,
                probing: false,
                active_pairing,
                phase: DeliveryPhase::Selecting,
            }),
            r.valid(),
    {
        DeliveryState {
            jitter_percent,
            retry_at: Some(now as u128),
            backoff: SECOND,
            flush_health: SpoolHealth { consecutive_failures: 0 },
            authorization_blocked: false,
            pairing_retry_at: now as u128,
            pairing_backoff: SECOND,
            probing: false,
            active_pairing,
            phase: DeliveryPhase::Selecting,
        }
    }

    /// Plan the next turn at `now`; a probe that the plan starts is then under way.
    pub fn take_turn(&mut self, now: u64) -> (r: DeliveryPlan)
        ensures
            r == old(self).plan(now),
            *final(self) == (DeliveryState {
                probing: old(self).probing || r.start_probe,
                ..*old(self)
            }),
    {
        let start_probe = !self.probing && (now as u128) >= self.pairing_retry_at;
        if start_probe {
            self.probing = true;
        }
        let (deliver, delivery_timer) = delivery_timing(
            self.authorization_blocked,
            self.retry_at,
            now as u128,
        );
        let deadline: u128 = if self.probing {
            match delivery_timer {
                Some(left) => left,
                None => (now as u128) + (IDLE_SECONDS as u128) * (SECOND as u128),
            }
        } else {
            match delivery_timer {
                Some(left) => if left <= self.pairing_retry_at {
                    left
                } else {
                    self.pairing_retry_at
                },
                None => self.pairing_retry_at,
            }
        };
        DeliveryPlan { start_probe, deliver, deadline }
    }

    fn schedule_retry(&mut self, now: u64, draw: u64)
        requires
            old(self).valid(),
            draw < DRAW_RANGE,
        ensures
            *final(self) == old(self).retry_later(now, draw),
    {
        let delay: u64 = jitter_with(self.backoff, self.jitter_percent, draw);
        self.retry_at = Some((now as u128) + (delay as u128));
    }

    fn slow_down(&mut self)
        ensures
            *final(self) == old(self).slower(),
    {
        self.backoff = double_backoff(self.backoff, LONGEST_BACKOFF_SECONDS * SECOND);
    }

    fn schedule_probe(&mut self, now: u64, seconds: u64)
        ensures
            *final(self) == old(self).probe_in(now, seconds),
    {
        assert(seconds * SECOND <= u64::MAX * SECOND) by (nonlinear_arith)
            requires
                seconds <= u64::MAX,
        ;
        self.pairing_retry_at = (now as u128) + (seconds as u128) * (SECOND as u128);
    }

    fn postpone_probe(&mut self, now: u64, draw: u64)
        requires
            old(self).valid(),
            draw < DRAW_RANGE,
        ensures
            *final(self) == old(self).probe_later(now, draw),
    {
        let (at, backoff, _) = failure_schedule_with(
            now,
            self.pairing_backoff,
            self.jitter_percent,
            draw,
        );
        self.pairing_retry_at = at;
        self.pairing_backoff = backoff;
    }

    fn take_probe(&mut self, progress: Option<PairingProgress>, now: u64) -> (r: DeliveryAction)
        ensures
            (*final(self), r) == old(self).probed(progress, now),
    {
        self.probing = false;
        match progress {
            Some(
                PairingProgress::Active { generation, request_id, instance_id, report_endpoint },
            ) => {
                let known = match self.active_pairing {
                    Some((in_use, request)) => in_use == generation && request == request_id,
                    None => false,
                };
                if !known {
                    self.phase = DeliveryPhase::Adopting { generation, request_id };
                    return DeliveryAction::Adopt {
                        generation,
                        request_id,
                        instance_id,
                        report_endpoint,
                    };
                }
                self.schedule_probe(now, 60);
                DeliveryAction::Continue
            },
            Some(PairingProgress::Waiting(waiting)) => {
                self.pairing_backoff = SECOND;
                self.schedule_probe(now, waiting.poll_interval);
                if self.authorization_blocked {
                    DeliveryAction::Remind { activation_url: waiting.activation_url }
                } else {
                    DeliveryAction::Continue
                }
            },
            Some(PairingProgress::Creating { .. }) => {
                self.schedule_probe(now, 2);
                DeliveryAction::Continue
            },
            _ => {
                self.schedule_probe(now, 60);
                DeliveryAction::Continue
            },
        }
    }

    fn take_flush(&mut self, flush: Flush, now: u64, draw: u64) -> (r: DeliveryAction)
        requires
            old(self).valid(),
            draw < DRAW_RANGE,
        ensures
            (*final(self), r) == old(self).flushed(flush, now, draw),
    {
        match flush {
            Flush::Drained => {
                self.flush_health.record_success();
                self.retry_at = None;
                self.backoff = SECOND;
                DeliveryAction::Continue
            },
            Flush::BatchComplete => {
                self.flush_health.record_success();
                self.retry_at = Some(now as u128);
                self.backoff = SECOND;
                DeliveryAction::Yield
            },
            Flush::SpoolFailed => match self.flush_health.record_failure() {
                Err(fault) => DeliveryAction::Fail(DeliveryFailure::Spool(fault)),
                Ok(()) => {
                    self.schedule_retry(now, draw);
                    self.slow_down();
                    DeliveryAction::Continue
                },
            },
            Flush::Rejected(Rejection::Other) => {
                self.flush_health.record_success();
                self.schedule_retry(now, draw);
                self.slow_down();
                DeliveryAction::Continue
            },
            Flush::Rejected(rejection) => {
                self.flush_health.record_success();
                self.phase = DeliveryPhase::MarkingReauth;
                DeliveryAction::MarkReauth(rejection)
            },
        }
    }

    /// Take what happened and say what to do next.
    pub fn step(&mut self, event: DeliveryEvent, now: u64, draw: u64) -> (r: DeliveryAction)
        requires
            old(self).valid(),
            old(self).awaits(event),
            draw < DRAW_RANGE,
        ensures
            (*final(self), r) == old(self).next(event, now, draw),
            r is Fail || final(self).valid(),
    {
        match event {
            DeliveryEvent::ShutdownChanged { closed, requested } => if closed || requested {
                DeliveryAction::Stop
            } else {
                DeliveryAction::Continue
            },
            DeliveryEvent::ProbeCrashed => {
                self.probing = false;
                DeliveryAction::Fail(DeliveryFailure::ProbeCrashed)
            },
            DeliveryEvent::ProbeFailed => {
                self.probing = false;
                self.postpone_probe(now, draw);
                DeliveryAction::Continue
            },
            DeliveryEvent::Probed(progress) => self.take_probe(progress, now),
            DeliveryEvent::Adopted => {
                if let DeliveryPhase::Adopting { generation, request_id } = self.phase {
                    self.phase = DeliveryPhase::Selecting;
                    self.active_pairing = Some((generation, request_id));
                    self.authorization_blocked = false;
                    self.retry_at = Some(now as u128);
                    self.backoff = SECOND;
                    self.pairing_backoff = SECOND;
                    self.schedule_probe(now, 60);
                    DeliveryAction::PublishHost
                } else {
                    DeliveryAction::Continue
                }
            },
            DeliveryEvent::AdoptionFailed => {
                self.phase = DeliveryPhase::Selecting;
                self.postpone_probe(now, draw);
                DeliveryAction::Continue
            },
            DeliveryEvent::Flushed(flush) => self.take_flush(flush, now, draw),
            DeliveryEvent::ReauthMarked(true) | DeliveryEvent::ReauthUnknown => {
                self.phase = DeliveryPhase::Selecting;
                self.authorization_blocked = true;
                self.retry_at = None;
                self.pairing_retry_at = now as u128;
                DeliveryAction::Continue
            },
            DeliveryEvent::ReauthMarked(false) => {
                self.phase = DeliveryPhase::Selecting;
                self.pairing_retry_at = now as u128;
                self.schedule_retry(now, draw);
                DeliveryAction::Continue
            },
            DeliveryEvent::Woken(more) => {
                if !more {
                    return DeliveryAction::Stop;
                }
                if !self.authorization_blocked && self.retry_at.is_none() {
                    self.retry_at = Some(now as u128);
                }
                DeliveryAction::Continue
            },
            DeliveryEvent::TimerElapsed => DeliveryAction::Continue,
        }
    }
}

// ---------------------------------------------------------------------------
// What holds of the worker in every state
// ---------------------------------------------------------------------------
/// A turn never ends at once for want of patience: the deadline always lies ahead. In particular
/// a delivery that is due is not raced against its own expired timer.
pub proof fn the_deadline_lies_ahead(state: DeliveryState, now: u64)
    ensures
        state.plan(now).deadline > now,
{
}

/// While authorization is blocked nothing is sent, and no delivery timer wakes the worker.
pub proof fn nothing_is_sent_while_blocked(state: DeliveryState, now: u64)
    requires
        state.authorization_blocked,
    ensures
        !state.plan(now).deliver,
        state.plan(now) == (DeliveryState { retry_at: None, ..state }).plan(now),
{
}

/// Only the credential of a new pairing ends a block.
pub proof fn only_a_new_pairing_unblocks(
    state: DeliveryState,
    event: DeliveryEvent,
    now: u64,
    draw: u64,
)
    requires
        state.awaits(event),
        state.authorization_blocked,
    ensures
        !state.next(event, now, draw).0.authorization_blocked ==> {
            &&& event is Adopted
            &&& state.phase matches DeliveryPhase::Adopting { generation, request_id }
            &&& state.next(event, now, draw).0.active_pairing == Some((generation, request_id))
        },
{
}

/// A new report never shortens a backoff that is under way.
pub proof fn a_wake_never_shortens_a_backoff(state: DeliveryState, now: u64, draw: u64)
    requires
        state.retry_at is Some,
    ensures
        state.next(DeliveryEvent::Woken(true), now, draw).0 == state,
{
}

/// A delivery that is planned stays planned until the spool is drained or the credential is
/// refused; so stored reports are not forgotten.
pub proof fn a_planned_delivery_is_not_forgotten(
    state: DeliveryState,
    event: DeliveryEvent,
    now: u64,
    draw: u64,
)
    requires
        state.retry_at is Some,
        state.next(event, now, draw).0.retry_at is None,
    ensures
        event == DeliveryEvent::Flushed(Flush::Drained) || state.next(
            event,
            now,
            draw,
        ).0.authorization_blocked,
{
}

/// A refusal blocks delivery unless the refused credential had already been replaced, and a
/// pairing is looked for at once either way.
pub proof fn a_refusal_blocks_only_the_current_credential(
    state: DeliveryState,
    current: bool,
    now: u64,
    draw: u64,
)
    requires
        !state.authorization_blocked,
    ensures
        ({
            let after = state.next(DeliveryEvent::ReauthMarked(current), now, draw).0;
            &&& after.authorization_blocked == current
            &&& after.retry_at is Some == !current
            &&& !after.probing ==> after.plan(now).start_probe
        }),
{
}

/// A report that is stored is sent: while delivery is not blocked a wake leaves a delivery
/// planned, and where none was planned the next turn at that time delivers. A delivery that was
/// planned keeps its time, and nothing else changes.
pub proof fn a_stored_report_is_sent(state: DeliveryState, now: u64, later: u64, draw: u64)
    requires
        now <= later,
    ensures
        ({
            let (after, action) = state.next(DeliveryEvent::Woken(true), now, draw);
            &&& action is Continue
            &&& !state.authorization_blocked ==> after.retry_at is Some
            &&& !state.authorization_blocked && state.retry_at is None ==> after.plan(
                later,
            ).deliver && after.retry_at == Some(now as u128)
            &&& state.authorization_blocked || state.retry_at is Some ==> after.retry_at
                == state.retry_at
            &&& after == (DeliveryState { retry_at: after.retry_at, ..state })
        }),
{
}

/// A turn delivers exactly when a delivery is planned for then or before and is not blocked, and
/// starts a probe exactly when none is under way and its time has come. It never sleeps past a
/// delivery or a probe that is still to come, and wakes for nothing else; where nothing is to
/// come, it sleeps an hour.
pub proof fn a_turn_misses_nothing(state: DeliveryState, now: u64)
    ensures
        ({
            let plan = state.plan(now);
            let delivery_ahead = !state.authorization_blocked && (state.retry_at matches Some(at)
                && at > now);
            let probe_ahead = !state.probing && state.pairing_retry_at > now;
            &&& plan.deliver <==> !state.authorization_blocked && (state.retry_at matches Some(at)
                && at <= now)
            &&& plan.start_probe <==> !state.probing && state.pairing_retry_at <= now
            &&& delivery_ahead ==> plan.deadline <= state.retry_at->0
            &&& probe_ahead ==> plan.deadline <= state.pairing_retry_at
            &&& delivery_ahead || probe_ahead ==> {
                ||| delivery_ahead && plan.deadline == state.retry_at->0
                ||| probe_ahead && plan.deadline == state.pairing_retry_at
            }
            &&& !delivery_ahead && !probe_ahead ==> plan.deadline == now + 3600 * 1_000_000_000
        }),
{
}

/// A batch that leaves nothing stored ends the deliveries until the next wake; one after which
/// more may be stored is followed by another at once. Either way the backoff starts anew, and so
/// does the count of failures of the spool.
pub proof fn a_batch_that_was_taken_starts_anew(state: DeliveryState, now: u64, draw: u64)
    requires
        !state.authorization_blocked,
    ensures
        ({
            let (drained, rest) = state.next(DeliveryEvent::Flushed(Flush::Drained), now, draw);
            let (more, go_on) = state.next(
                DeliveryEvent::Flushed(Flush::BatchComplete),
                now,
                draw,
            );
            &&& rest is Continue
            &&& go_on is Yield
            &&& drained.retry_at is None
            &&& forall|later: u64| !#[trigger] drained.plan(later).deliver
            &&& more.plan(now).deliver
            &&& drained.backoff == 1_000_000_000
            &&& more.backoff == 1_000_000_000
            &&& drained.flush_health.consecutive_failures == 0
            &&& more.flush_health.consecutive_failures == 0
            &&& drained == (DeliveryState {
                retry_at: None,
                backoff: 1_000_000_000,
                flush_health: drained.flush_health,
                ..state
            })
            &&& more == (DeliveryState { retry_at: more.retry_at, ..drained })
        }),
{
}

/// A report that the server does not take, or a spool that fails, is tried again after the
/// jittered backoff, which doubles up to five minutes; delivery is not blocked by it. Only the
/// failures of the spool are counted, and the hundredth in a row ends the worker.
pub proof fn a_failed_batch_is_tried_again(state: DeliveryState, now: u64, draw: u64)
    requires
        state.valid(),
        draw < DRAW_RANGE,
    ensures
        ({
            let (refused, go_on) = state.next(
                DeliveryEvent::Flushed(Flush::Rejected(Rejection::Other)),
                now,
                draw,
            );
            let (broken, outcome) = state.next(
                DeliveryEvent::Flushed(Flush::SpoolFailed),
                now,
                draw,
            );
            let count = state.flush_health.consecutive_failures + 1;
            let longer = if 2 * state.backoff < 300 * 1_000_000_000 {
                2 * state.backoff
            } else {
                300int * 1_000_000_000
            };
            let at = now + jittered(state.backoff, state.jitter_percent, draw);
            &&& go_on is Continue
            &&& refused.retry_at matches Some(planned) && planned == at
            &&& refused.backoff == longer
            &&& refused.flush_health.consecutive_failures == 0
            &&& refused == (DeliveryState {
                retry_at: refused.retry_at,
                backoff: refused.backoff,
                flush_health: refused.flush_health,
                ..state
            })
            &&& broken.flush_health.consecutive_failures == count
            &&& count >= 100 ==> outcome == DeliveryAction::Fail(
                DeliveryFailure::Spool(SpoolFault { consecutive_failures: count as u32 }),
            )
            &&& count < 100 ==> outcome is Continue && (broken.retry_at matches Some(planned)
                && planned == at) && broken.backoff == longer
            &&& broken == (DeliveryState {
                retry_at: broken.retry_at,
                backoff: broken.backoff,
                flush_health: broken.flush_health,
                ..state
            })
        }),
{
    lemma_jittered_fits(state.backoff, state.jitter_percent, draw);
}

/// A refusal of the credential, and nothing else, is written down, with what was refused; until
/// that is done the worker does nothing else.
pub proof fn a_refused_credential_is_written_down(
    state: DeliveryState,
    event: DeliveryEvent,
    now: u64,
    draw: u64,
)
    requires
        state.awaits(event),
    ensures
        ({
            let (after, action) = state.next(event, now, draw);
            &&& action matches DeliveryAction::MarkReauth(rejection) ==> event
                == DeliveryEvent::Flushed(Flush::Rejected(rejection)) && rejection
                != Rejection::Other && after.phase == DeliveryPhase::MarkingReauth
            &&& (event matches DeliveryEvent::Flushed(Flush::Rejected(rejection)) && rejection
                != Rejection::Other) ==> action == DeliveryAction::MarkReauth(
                event->Flushed_0->Rejected_0,
            ) && after.retry_at == state.retry_at && after.backoff == state.backoff
            &&& action is MarkReauth <==> after.phase == DeliveryPhase::MarkingReauth
            &&& after.phase == DeliveryPhase::MarkingReauth ==> forall|other: DeliveryEvent| #[trigger]
                after.awaits(other) <==> other is ReauthMarked || other is ReauthUnknown
        }),
{
}

/// Once a refusal was written down, or where that failed, nothing is sent; where the refused
/// credential had been replaced meanwhile, the report is tried again after the jittered backoff.
/// A probe is due at once either way.
pub proof fn what_a_written_refusal_leads_to(
    state: DeliveryState,
    event: DeliveryEvent,
    now: u64,
    draw: u64,
)
    requires
        event is ReauthMarked || event is ReauthUnknown,
        !state.authorization_blocked,
    ensures
        ({
            let (after, action) = state.next(event, now, draw);
            let replaced = event == DeliveryEvent::ReauthMarked(false);
            &&& action is Continue
            &&& after.phase == DeliveryPhase::Selecting
            &&& after.pairing_retry_at == now
            &&& after.authorization_blocked == !replaced
            &&& replaced ==> after.retry_at == Some(
                (now + jittered(state.backoff, state.jitter_percent, draw)) as u128,
            )
            &&& !replaced ==> after.retry_at is None
            &&& after.backoff == state.backoff
            &&& after.active_pairing == state.active_pairing
            &&& after.flush_health == state.flush_health
            &&& after.probing == state.probing
            &&& after.pairing_backoff == state.pairing_backoff
        }),
{
}

/// An activation that is not yet in use is taken up, with the values that the probe gave, and the
/// one that is in use never again.
pub proof fn a_new_activation_is_taken_up(
    state: DeliveryState,
    event: DeliveryEvent,
    now: u64,
    draw: u64,
)
    requires
        state.awaits(event),
    ensures
        ({
            let (after, action) = state.next(event, now, draw);
            &&& action matches DeliveryAction::Adopt {
                generation,
                request_id,
                instance_id,
                report_endpoint,
            } ==> {
                &&& event == DeliveryEvent::Probed(
                    Some(
                        PairingProgress::Active {
                            generation,
                            request_id,
                            instance_id,
                            report_endpoint,
                        },
                    ),
                )
                &&& state.active_pairing != Some((generation, request_id))
                &&& after.phase == (DeliveryPhase::Adopting { generation, request_id })
            }
            &&& event matches DeliveryEvent::Probed(
                Some(
                    PairingProgress::Active {
                        generation,
                        request_id,
                        instance_id,
                        report_endpoint,
                    },
                ),
            ) ==> (action is Adopt <==> state.active_pairing != Some((generation, request_id)))
            &&& after.active_pairing != state.active_pairing ==> event is Adopted
            &&& event is Adopted ==> {
                &&& action is PublishHost
                &&& state.phase matches DeliveryPhase::Adopting { generation, request_id }
                &&& after.active_pairing == Some((generation, request_id))
                &&& !after.authorization_blocked
                &&& after.plan(now).deliver
                &&& after.phase == DeliveryPhase::Selecting
                &&& after.backoff == 1_000_000_000
                &&& after.pairing_backoff == 1_000_000_000
                &&& after.pairing_retry_at == now + 60 * 1_000_000_000
            }
            &&& action is PublishHost ==> event is Adopted
        }),
{
}

/// The next probe comes when the last answer says: after the server's own interval while a
/// request waits, after two seconds while one is created, and after a minute otherwise; after a
/// probe or an adoption that failed it comes after the jittered backoff, which doubles up to five
/// minutes. An answer ends the probe, and moves no delivery.
pub proof fn the_next_probe_follows_the_answer(
    state: DeliveryState,
    event: DeliveryEvent,
    now: u64,
    draw: u64,
)
    requires
        state.valid(),
        state.awaits(event),
        draw < DRAW_RANGE,
        event is Probed || event is ProbeFailed || event is AdoptionFailed,
    ensures
        ({
            let (after, action) = state.next(event, now, draw);
            let longer = if 2 * state.pairing_backoff < 300 * 1_000_000_000 {
                2 * state.pairing_backoff
            } else {
                300int * 1_000_000_000
            };
            &&& event is Probed || event is ProbeFailed ==> !after.probing
            &&& after.retry_at == state.retry_at
            &&& after.backoff == state.backoff
            &&& after.authorization_blocked == state.authorization_blocked
            &&& after.flush_health == state.flush_health
            &&& after.active_pairing == state.active_pairing
            &&& event is ProbeFailed || event is AdoptionFailed ==> action is Continue
                && after.phase == DeliveryPhase::Selecting && after.pairing_retry_at == now
                + jittered(state.pairing_backoff, state.jitter_percent, draw)
                && after.pairing_backoff == longer
            &&& event matches DeliveryEvent::Probed(progress) ==> match progress {
                Some(PairingProgress::Waiting(waiting)) => {
                    &&& after.pairing_retry_at == now + waiting.poll_interval * 1_000_000_000
                    &&& after.pairing_backoff == 1_000_000_000
                    &&& state.authorization_blocked ==> action == (DeliveryAction::Remind {
                        activation_url: waiting.activation_url,
                    })
                    &&& !state.authorization_blocked ==> action is Continue
                },
                Some(PairingProgress::Creating { .. }) => action is Continue
                    && after.pairing_retry_at == now + 2 * 1_000_000_000,
                _ => action is Adopt || (action is Continue && after.pairing_retry_at == now + 60
                    * 1_000_000_000),
            }
            &&& event is Probed && !(event->Probed_0 matches Some(PairingProgress::Waiting(_)))
                ==> after.pairing_backoff == state.pairing_backoff
        }),
{
    lemma_jittered_fits(state.pairing_backoff, state.jitter_percent, draw);
    if let DeliveryEvent::Probed(Some(PairingProgress::Waiting(waiting))) = event {
        assert(0 <= waiting.poll_interval * SECOND <= u64::MAX * SECOND) by (nonlinear_arith)
            requires
                0 <= waiting.poll_interval <= u64::MAX,
        ;
    }
}

/// The worker stops exactly when it is told to shut down, when nobody could tell it any more, or
/// when no more reports will be stored; it fails only where its probe broke down or the spool
/// failed for good. A timer that runs out changes nothing.
pub proof fn what_ends_the_worker(state: DeliveryState, event: DeliveryEvent, now: u64, draw: u64)
    requires
        state.awaits(event),
    ensures
        ({
            let (after, action) = state.next(event, now, draw);
            &&& action is Stop <==> event == DeliveryEvent::Woken(false) || (event matches
                DeliveryEvent::ShutdownChanged { closed, requested } && (closed || requested))
            &&& action is Stop || event is TimerElapsed || event is ShutdownChanged ==> after
                == state
            &&& event is TimerElapsed ==> action is Continue
            &&& event is ShutdownChanged && !(action is Stop) ==> action is Continue
            &&& event is ProbeCrashed <==> action == DeliveryAction::Fail(
                DeliveryFailure::ProbeCrashed,
            )
            &&& action is Fail ==> event is ProbeCrashed || event == DeliveryEvent::Flushed(
                Flush::SpoolFailed,
            )
        }),
{
}

/// After a failure the next try comes after the jittered backoff, which doubles up to five minutes.
pub proof fn the_schedule_after_a_failure(now: u64, backoff: u64, percent: u8, draw: u64)
    requires
        backoff <= LONGEST_JITTERED,
        draw < DRAW_RANGE,
    ensures
        ({
            let (at, longer, delay) = failure_schedule(now, backoff, percent, draw);
            &&& at == now + delay
            &&& delay == jittered(backoff, percent, draw)
            &&& longer == if 2 * backoff < 300 * 1_000_000_000 {
                2 * backoff
            } else {
                300int * 1_000_000_000
            }
        }),
{
    lemma_jittered_fits(backoff, percent, draw);
}

} // verus!
