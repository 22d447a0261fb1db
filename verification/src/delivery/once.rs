//! Sending the stored reports in batches, and the command that samples and delivers once.

use crate::delivery::worker::{Flush, Rejection};
use crate::text;
use vstd::prelude::*;

verus! {

/// A batch holds at most this many reports, so that a long backlog leaves room for other work.
pub const BATCH_LIMIT: u32 = 32;

/// What became of a report that was sent.
#[derive(Clone, Copy, PartialEq, Eq, Structural, Debug)]
pub enum SendOutcome {
    Delivered,
    /// The server will never take this report.
    RejectedForGood,
    /// The server did not take it now.
    Rejected(Rejection),
}

/// Which operation of a batch is under way.
#[derive(Clone, Copy, PartialEq, Eq, Structural, Debug)]
pub enum FlushPhase {
    Fetching,
    Sending,
    /// Taking the report off the spool; it was delivered, or refused for good.
    Acknowledging { delivered: bool },
    /// Offering the delivered report to the secondary output.
    Exporting,
    Finished,
}

/// A batch of stored reports on its way.
#[derive(Clone, Copy, PartialEq, Eq, Structural, Debug)]
pub struct FlushRun {
    /// How many reports have left the spool.
    pub handled: u32,
    pub phase: FlushPhase,
}

/// What came of the operation under way.
#[derive(Clone, Copy, PartialEq, Eq, Structural, Debug)]
pub enum FlushEvent {
    /// Whether a report is stored.
    Fetched(bool),
    Sent(SendOutcome),
    Acknowledged,
    Exported,
    /// The spool failed.
    SpoolFailed,
}

/// What to do next.
#[derive(Clone, Copy, PartialEq, Eq, Structural, Debug)]
pub enum FlushAction {
    /// Look for the oldest stored report.
    Fetch,
    /// Send it.
    Send,
    /// Take it off the spool.
    Acknowledge,
    /// Offer it to the secondary output.
    Export,
    Done(Flush),
}

impl FlushRun {
    /// The batch is not used up before it ends.
    pub open spec fn valid(self) -> bool {
        self.phase is Finished || self.handled < BATCH_LIMIT || self.phase is Exporting
            && self.handled == BATCH_LIMIT
    }

    /// The event can come now.
    pub open spec fn awaits(self, event: FlushEvent) -> bool {
        match self.phase {
            FlushPhase::Fetching => event is Fetched || event is SpoolFailed,
            FlushPhase::Sending => event is Sent,
            FlushPhase::Acknowledging { .. } => event is Acknowledged || event is SpoolFailed,
            FlushPhase::Exporting => event is Exported,
            FlushPhase::Finished => false,
        }
    }

    /// The batch's last step.
    pub open spec fn ends(self, outcome: Flush) -> (FlushRun, FlushAction) {
        (FlushRun { phase: FlushPhase::Finished, ..self }, FlushAction::Done(outcome))
    }

    /// The next report, unless the batch is used up.
    pub open spec fn goes_on(self) -> (FlushRun, FlushAction) {
        if self.handled >= BATCH_LIMIT {
            self.ends(Flush::BatchComplete)
        } else {
            (FlushRun { phase: FlushPhase::Fetching, ..self }, FlushAction::Fetch)
        }
    }

    /// The step that `event` leads to. A report leaves the spool before it is offered to the
    /// secondary output: a failure in between loses one export, where the other order would
    /// repeat it.
    pub open spec fn next(self, event: FlushEvent) -> (FlushRun, FlushAction) {
        match event {
            FlushEvent::Fetched(stored) => if stored {
                (FlushRun { phase: FlushPhase::Sending, ..self }, FlushAction::Send)
            } else {
                self.ends(Flush::Drained)
            },
            FlushEvent::Sent(SendOutcome::Rejected(rejection)) => self.ends(
                Flush::Rejected(rejection),
            ),
            FlushEvent::Sent(outcome) => (
                FlushRun {
                    phase: FlushPhase::Acknowledging {
                        delivered: outcome == SendOutcome::Delivered,
                    },
                    ..self
                },
                FlushAction::Acknowledge,
            ),
            FlushEvent::Acknowledged => {
                let counted = FlushRun { handled: (self.handled + 1) as u32, ..self };
                if self.phase == (FlushPhase::Acknowledging { delivered: true }) {
                    (FlushRun { phase: FlushPhase::Exporting, ..counted }, FlushAction::Export)
                } else {
                    counted.goes_on()
                }
            },
            FlushEvent::Exported => self.goes_on(),
            FlushEvent::SpoolFailed => self.ends(Flush::SpoolFailed),
        }
    }

    /// Begin a batch: look for the oldest stored report.
    pub fn start() -> (r: (FlushRun, FlushAction))
        ensures
            r == (FlushRun { handled: 0, phase: FlushPhase::Fetching }, FlushAction::Fetch),
            r.0.valid(),
    {
        (FlushRun { handled: 0, phase: FlushPhase::Fetching }, FlushAction::Fetch)
    }

    fn end(&mut self, outcome: Flush) -> (r: FlushAction)
        ensures
            (*final(self), r) == old(self).ends(outcome),
    {
        self.phase = FlushPhase::Finished;
        FlushAction::Done(outcome)
    }

    fn go_on(&mut self) -> (r: FlushAction)
        ensures
            (*final(self), r) == old(self).goes_on(),
    {
        if self.handled >= BATCH_LIMIT {
            self.end(Flush::BatchComplete)
        } else {
            self.phase = FlushPhase::Fetching;
            FlushAction::Fetch
        }
    }

    /// Take the outcome of the operation under way and say what to do next.
    pub fn step(&mut self, event: FlushEvent) -> (r: FlushAction)
        requires
            old(self).valid(),
            old(self).awaits(event),
        ensures
            (*final(self), r) == old(self).next(event),
            final(self).valid(),
    {
        match event {
            FlushEvent::Fetched(stored) => if stored {
                self.phase = FlushPhase::Sending;
                FlushAction::Send
            } else {
                self.end(Flush::Drained)
            },
            FlushEvent::Sent(SendOutcome::Rejected(rejection)) => self.end(
                Flush::Rejected(rejection),
            ),
            FlushEvent::Sent(outcome) => {
                let delivered = outcome == SendOutcome::Delivered;
                self.phase = FlushPhase::Acknowledging { delivered };
                FlushAction::Acknowledge
            },
            FlushEvent::Acknowledged => {
                self.handled = self.handled + 1;
                if self.phase == (FlushPhase::Acknowledging { delivered: true }) {
                    self.phase = FlushPhase::Exporting;
                    FlushAction::Export
                } else {
                    self.go_on()
                }
            },
            FlushEvent::Exported => self.go_on(),
            FlushEvent::SpoolFailed => self.end(Flush::SpoolFailed),
        }
    }
}

/// A report leaves the spool only when it was delivered or refused for good; one that the server
/// did not take now stays.
pub proof fn a_report_leaves_only_when_settled(run: FlushRun, event: FlushEvent)
    requires
        run.awaits(event),
    ensures
        run.next(event).1 == FlushAction::Acknowledge ==> event == FlushEvent::Sent(
            SendOutcome::Delivered,
        ) || event == FlushEvent::Sent(SendOutcome::RejectedForGood),
        event matches FlushEvent::Sent(SendOutcome::Rejected(rejection)) ==> run.next(event).1
            == FlushAction::Done(Flush::Rejected(rejection)),
{
}

/// Only a delivered report is exported, and only after it has left the spool.
pub proof fn exports_follow_the_acknowledgement(run: FlushRun, event: FlushEvent)
    requires
        run.awaits(event),
        run.next(event).1 == FlushAction::Export,
    ensures
        event == FlushEvent::Acknowledged,
        run.phase == (FlushPhase::Acknowledging { delivered: true }),
{
}

/// A report that is refused for good does not hold up those behind it.
pub proof fn a_refused_report_does_not_block(run: FlushRun)
    requires
        run.valid(),
        run.phase == FlushPhase::Sending,
        run.handled + 1 < BATCH_LIMIT,
    ensures
        ({
            let (sent, first) = run.next(FlushEvent::Sent(SendOutcome::RejectedForGood));
            let (after, second) = sent.next(FlushEvent::Acknowledged);
            &&& first == FlushAction::Acknowledge
            &&& second == FlushAction::Fetch
            &&& after.handled == run.handled + 1
        }),
{
}

// ---------------------------------------------------------------------------
// One sample, delivered once
// ---------------------------------------------------------------------------
/// Why the report at hand is put on the spool.
#[derive(Clone, Copy, PartialEq, Eq, Structural, Debug)]
pub enum Retention {
    /// The backlog could not be sent.
    Backlog,
    /// The spool could not be flushed.
    Spool,
    /// The server did not take the report now.
    Rejected,
    /// The agent was told to stop.
    Shutdown,
}

/// Which operation of the command is under way.
#[derive(Clone, Copy, PartialEq, Eq, Structural, Debug)]
pub enum OncePhase {
    /// Counting what is stored.
    Counting,
    Flushing,
    Sending,
    Retaining(Retention),
    Exporting,
    Finished,
}

/// What came of the operation under way.
#[derive(Clone, Copy, PartialEq, Eq, Structural, Debug)]
pub enum OnceEvent {
    Counted(u64),
    Flushed(Flush),
    Sent(SendOutcome),
    Retained,
    Exported,
    Shutdown,
}

/// Why the command fails.
#[derive(Clone, Copy, PartialEq, Eq, Structural, Debug)]
pub enum OnceFailure {
    BacklogPending,
    SpoolNotFlushed,
    RejectedForGood,
    Retained,
}

impl OnceFailure {
    /// The words in which the failure is reported, before its cause.
    pub open spec fn text(self) -> Seq<char> {
        match self {
            OnceFailure::BacklogPending =>
                "current report was retained while stored reports remain pending"@,
            OnceFailure::SpoolNotFlushed =>
                "current report was retained because the local spool could not be flushed"@,
            OnceFailure::RejectedForGood =>
                "report was rejected permanently and was not spooled"@,
            OnceFailure::Retained => "report was retained in the local spool"@,
        }
    }

    /// The words in which the failure is reported, before its cause.
    pub fn message(&self) -> (r: String)
        ensures
            r@ == self.text(),
    {
        match self {
            OnceFailure::BacklogPending => text::owned(
                "current report was retained while stored reports remain pending",
            ),
            OnceFailure::SpoolNotFlushed => text::owned(
                "current report was retained because the local spool could not be flushed",
            ),
            OnceFailure::RejectedForGood => text::owned(
                "report was rejected permanently and was not spooled",
            ),
            OnceFailure::Retained => text::owned("report was retained in the local spool"),
        }
    }
}

/// How the command ends when it does not fail.
#[derive(Clone, Copy, PartialEq, Eq, Structural, Debug)]
pub enum RunOnceOutcome {
    Delivered,
    Shutdown,
}

/// What to do next.
#[derive(Clone, Copy, PartialEq, Eq, Structural, Debug)]
pub enum OnceAction {
    /// Count what is stored.
    Count,
    /// Send a batch of what is stored.
    Flush,
    /// Send the report at hand.
    Send,
    /// Put it on the spool.
    Retain,
    /// Offer it to the secondary output; a failure there is only logged.
    Export,
    Finish(RunOnceOutcome),
    Fail(OnceFailure),
}

/// The event can come in this phase.
pub open spec fn once_awaits(phase: OncePhase, event: OnceEvent) -> bool {
    match phase {
        OncePhase::Counting => event is Counted,
        OncePhase::Flushing => event is Flushed || event is Shutdown,
        OncePhase::Sending => event is Sent || event is Shutdown,
        OncePhase::Retaining(_) => event is Retained,
        OncePhase::Exporting => event is Exported || event is Shutdown,
        OncePhase::Finished => false,
    }
}

/// How the command ends once the report is on the spool.
pub open spec fn once_retained(why: Retention) -> OnceAction {
    match why {
        Retention::Backlog => OnceAction::Fail(OnceFailure::BacklogPending),
        Retention::Spool => OnceAction::Fail(OnceFailure::SpoolNotFlushed),
        Retention::Rejected => OnceAction::Fail(OnceFailure::Retained),
        Retention::Shutdown => OnceAction::Finish(RunOnceOutcome::Shutdown),
    }
}

/// The step that `event` leads to: the whole backlog first, then the report at hand.
pub open spec fn once_next(phase: OncePhase, event: OnceEvent) -> (OncePhase, OnceAction) {
    match event {
        OnceEvent::Counted(stored) => if stored > 0 {
            (OncePhase::Flushing, OnceAction::Flush)
        } else {
            (OncePhase::Sending, OnceAction::Send)
        },
        OnceEvent::Flushed(Flush::Drained) | OnceEvent::Flushed(Flush::BatchComplete) => (
            OncePhase::Counting,
            OnceAction::Count,
        ),
        OnceEvent::Flushed(Flush::Rejected(_)) => (
            OncePhase::Retaining(Retention::Backlog),
            OnceAction::Retain,
        ),
        OnceEvent::Flushed(Flush::SpoolFailed) => (
            OncePhase::Retaining(Retention::Spool),
            OnceAction::Retain,
        ),
        OnceEvent::Sent(SendOutcome::Delivered) => (OncePhase::Exporting, OnceAction::Export),
        OnceEvent::Sent(SendOutcome::RejectedForGood) => (
            OncePhase::Finished,
            OnceAction::Fail(OnceFailure::RejectedForGood),
        ),
        OnceEvent::Sent(SendOutcome::Rejected(_)) => (
            OncePhase::Retaining(Retention::Rejected),
            OnceAction::Retain,
        ),
        OnceEvent::Retained => match phase {
            OncePhase::Retaining(why) => (OncePhase::Finished, once_retained(why)),
            _ => (OncePhase::Finished, OnceAction::Finish(RunOnceOutcome::Delivered)),
        },
        OnceEvent::Exported => (
            OncePhase::Finished,
            OnceAction::Finish(RunOnceOutcome::Delivered),
        ),
        OnceEvent::Shutdown => if phase == OncePhase::Exporting {
            (OncePhase::Finished, OnceAction::Finish(RunOnceOutcome::Delivered))
        } else {
            (OncePhase::Retaining(Retention::Shutdown), OnceAction::Retain)
        },
    }
}

/// Take the outcome of the operation under way and say what to do next.
pub fn run_once_step(phase: OncePhase, event: OnceEvent) -> (r: (OncePhase, OnceAction))
    requires
        once_awaits(phase, event),
    ensures
        r == once_next(phase, event),
{
    match event {
        OnceEvent::Counted(stored) => if stored > 0 {
            (OncePhase::Flushing, OnceAction::Flush)
        } else {
            (OncePhase::Sending, OnceAction::Send)
        },
        OnceEvent::Flushed(flush) => match flush {
            Flush::Drained | Flush::BatchComplete => (OncePhase::Counting, OnceAction::Count),
            Flush::Rejected(_) => (OncePhase::Retaining(Retention::Backlog), OnceAction::Retain),
            Flush::SpoolFailed => (OncePhase::Retaining(Retention::Spool), OnceAction::Retain),
        },
        OnceEvent::Sent(outcome) => match outcome {
            SendOutcome::Delivered => (OncePhase::Exporting, OnceAction::Export),
            SendOutcome::RejectedForGood => (
                OncePhase::Finished,
                OnceAction::Fail(OnceFailure::RejectedForGood),
            ),
            SendOutcome::Rejected(_) => (
                OncePhase::Retaining(Retention::Rejected),
                OnceAction::Retain,
            ),
        },
        OnceEvent::Retained => {
            let end = match phase {
                OncePhase::Retaining(Retention::Backlog) => OnceAction::Fail(
                    OnceFailure::BacklogPending,
                ),
                OncePhase::Retaining(Retention::Spool) => OnceAction::Fail(
                    OnceFailure::SpoolNotFlushed,
                ),
                OncePhase::Retaining(Retention::Rejected) => OnceAction::Fail(
                    OnceFailure::Retained,
                ),
                OncePhase::Retaining(Retention::Shutdown) => OnceAction::Finish(
                    RunOnceOutcome::Shutdown,
                ),
                _ => OnceAction::Finish(RunOnceOutcome::Delivered),
            };
            (OncePhase::Finished, end)
        },
        OnceEvent::Exported => (
            OncePhase::Finished,
            OnceAction::Finish(RunOnceOutcome::Delivered),
        ),
        OnceEvent::Shutdown => if phase == OncePhase::Exporting {
            (OncePhase::Finished, OnceAction::Finish(RunOnceOutcome::Delivered))
        } else {
            (OncePhase::Retaining(Retention::Shutdown), OnceAction::Retain)
        },
    }
}

/// The report at hand is never lost: the command ends only after it was delivered, refused for
/// good, or put on the spool.
pub proof fn the_report_is_never_lost(phase: OncePhase, event: OnceEvent)
    requires
        once_awaits(phase, event),
        once_next(phase, event).0 == OncePhase::Finished,
    ensures
        phase == OncePhase::Exporting || event == OnceEvent::Retained || event == OnceEvent::Sent(
            SendOutcome::RejectedForGood,
        ),
        once_next(phase, event).1 == OnceAction::Finish(RunOnceOutcome::Delivered) <==> phase
            == OncePhase::Exporting,
{
}

/// The report at hand is sent only when nothing older is stored.
pub proof fn the_backlog_goes_first(phase: OncePhase, event: OnceEvent)
    requires
        once_awaits(phase, event),
        once_next(phase, event).1 == OnceAction::Send,
    ensures
        event == OnceEvent::Counted(0),
{
}

/// How a batch over stored reports goes, given what comes of sending each of them and that the
/// spool works: how many of them leave the spool, and what the batch comes to; nothing where the
/// batch asks for something out of turn.
pub open spec fn batch_over(run: FlushRun, outcomes: Seq<SendOutcome>, i: int) -> Option<(int, Flush)>
    decreases outcomes.len() - i,
{
    let (fetched, first) = run.next(FlushEvent::Fetched(i < outcomes.len()));
    if first matches FlushAction::Done(outcome) {
        Some((i, first->Done_0))
    } else if first != FlushAction::Send || i < 0 || i >= outcomes.len() {
        None
    } else {
        let (sent, second) = fetched.next(FlushEvent::Sent(outcomes[i]));
        if second is Done {
            Some((i, second->Done_0))
        } else if second != FlushAction::Acknowledge {
            None
        } else {
            let (left, third) = sent.next(FlushEvent::Acknowledged);
            let (after, last) = if third == FlushAction::Export {
                left.next(FlushEvent::Exported)
            } else {
                (left, third)
            };
            if (third == FlushAction::Export) != (outcomes[i] == SendOutcome::Delivered) {
                None
            } else if last is Done {
                Some((i + 1, last->Done_0))
            } else if last != FlushAction::Fetch {
                None
            } else {
                batch_over(after, outcomes, i + 1)
            }
        }
    }
}

/// The first report from the `i`th on that the server does not take now, or their number.
pub open spec fn first_rejected(outcomes: Seq<SendOutcome>, i: int) -> int
    decreases outcomes.len() - i,
{
    if i < 0 || i >= outcomes.len() || outcomes[i] is Rejected {
        i
    } else {
        first_rejected(outcomes, i + 1)
    }
}

/// A batch sends the stored reports in their order: it stops at the first that the server does not
/// take now, which stays with all behind it, and else after thirty-two; what was delivered or
/// refused for good before that has left the spool. It is drained exactly where nothing is left.
pub proof fn a_batch_sends_in_order(run: FlushRun, outcomes: Seq<SendOutcome>, i: int)
    requires
        0 <= i <= outcomes.len(),
        run.phase is Fetching,
        run.handled < 32,
    ensures
        ({
            let stop = first_rejected(outcomes, i);
            let room = i + 32 - run.handled;
            batch_over(run, outcomes, i) == if stop >= room {
                Some((room, Flush::BatchComplete))
            } else if stop < outcomes.len() {
                Some((stop, Flush::Rejected(outcomes[stop]->Rejected_0)))
            } else {
                Some((outcomes.len() as int, Flush::Drained))
            }
        }),
    decreases outcomes.len() - i,
{
    lemma_first_rejected(outcomes, i);
    if i < outcomes.len() && !(outcomes[i] is Rejected) {
        let (fetched, first) = run.next(FlushEvent::Fetched(true));
        let (sent, second) = fetched.next(FlushEvent::Sent(outcomes[i]));
        let (left, third) = sent.next(FlushEvent::Acknowledged);
        let (after, last) = if third == FlushAction::Export {
            left.next(FlushEvent::Exported)
        } else {
            (left, third)
        };
        lemma_first_rejected(outcomes, i + 1);
        if last == FlushAction::Fetch {
            a_batch_sends_in_order(after, outcomes, i + 1);
        }
    }
}

proof fn lemma_first_rejected(outcomes: Seq<SendOutcome>, i: int)
    requires
        0 <= i <= outcomes.len(),
    ensures
        i <= first_rejected(outcomes, i) <= outcomes.len(),
        first_rejected(outcomes, i) < outcomes.len() ==> outcomes[first_rejected(outcomes, i)]
            is Rejected,
        i < outcomes.len() && !(outcomes[i] is Rejected) ==> first_rejected(outcomes, i) >= i + 1,
    decreases outcomes.len() - i,
{
    if i < outcomes.len() && !(outcomes[i] is Rejected) {
        lemma_first_rejected(outcomes, i + 1);
    }
}

/// A spool that fails ends a batch so, wherever that happens.
pub proof fn a_failing_spool_ends_the_batch(run: FlushRun)
    ensures
        run.next(FlushEvent::SpoolFailed).1 == FlushAction::Done(Flush::SpoolFailed),
        run.next(FlushEvent::SpoolFailed).0.phase is Finished,
        run.awaits(FlushEvent::SpoolFailed) <==> run.phase is Fetching || run.phase
            is Acknowledging,
{
}

/// What comes of the report at hand: it is sent once nothing older is stored, and batches are sent
/// until then. Where it is delivered the command ends well, after it was offered to the secondary
/// output; where it is refused for good the command fails; and where it, or something older, is not
/// taken, where the spool fails, or where the agent is told to stop before, it is kept, and the end
/// says why.
pub proof fn what_comes_of_the_report(
    phase: OncePhase,
    stored: u64,
    rejection: Rejection,
    delivered: OnceEvent,
)
    requires
        delivered == OnceEvent::Exported || delivered == OnceEvent::Shutdown,
    ensures
        once_next(phase, OnceEvent::Counted(0)).1 == OnceAction::Send,
        stored > 0 ==> once_next(phase, OnceEvent::Counted(stored)).1 == OnceAction::Flush,
        once_next(phase, OnceEvent::Flushed(Flush::Drained)).1 == OnceAction::Count,
        once_next(phase, OnceEvent::Flushed(Flush::BatchComplete)).1 == OnceAction::Count,
        ({
            let (kept, action) = once_next(phase, OnceEvent::Flushed(Flush::Rejected(rejection)));
            &&& action == OnceAction::Retain
            &&& once_next(kept, OnceEvent::Retained) == (
                OncePhase::Finished,
                OnceAction::Fail(OnceFailure::BacklogPending),
            )
        }),
        ({
            let (kept, action) = once_next(phase, OnceEvent::Flushed(Flush::SpoolFailed));
            &&& action == OnceAction::Retain
            &&& once_next(kept, OnceEvent::Retained) == (
                OncePhase::Finished,
                OnceAction::Fail(OnceFailure::SpoolNotFlushed),
            )
        }),
        ({
            let (kept, action) = once_next(
                phase,
                OnceEvent::Sent(SendOutcome::Rejected(rejection)),
            );
            &&& action == OnceAction::Retain
            &&& once_next(kept, OnceEvent::Retained) == (
                OncePhase::Finished,
                OnceAction::Fail(OnceFailure::Retained),
            )
        }),
        once_next(phase, OnceEvent::Sent(SendOutcome::RejectedForGood)) == (
            OncePhase::Finished,
            OnceAction::Fail(OnceFailure::RejectedForGood),
        ),
        ({
            let (sent, action) = once_next(phase, OnceEvent::Sent(SendOutcome::Delivered));
            &&& action == OnceAction::Export
            &&& once_next(sent, delivered) == (
                OncePhase::Finished,
                OnceAction::Finish(RunOnceOutcome::Delivered),
            )
        }),
        phase != OncePhase::Exporting ==> {
            let (kept, action) = once_next(phase, OnceEvent::Shutdown);
            &&& action == OnceAction::Retain
            &&& once_next(kept, OnceEvent::Retained) == (
                OncePhase::Finished,
                OnceAction::Finish(RunOnceOutcome::Shutdown),
            )
        },
{
}

/// Each operation of the command waits for its own outcome, and only counting and keeping cannot be
/// cut short.
pub proof fn what_the_command_waits_for(phase: OncePhase, event: OnceEvent, rejection: Rejection)
    ensures
        ({
            let (after, action) = once_next(phase, event);
            once_awaits(phase, event) ==> {
                &&& action == OnceAction::Count ==> forall|other: OnceEvent| #[trigger]
                    once_awaits(after, other) <==> other is Counted
                &&& action == OnceAction::Flush ==> forall|other: OnceEvent| #[trigger]
                    once_awaits(after, other) <==> other is Flushed || other is Shutdown
                &&& action == OnceAction::Send ==> forall|other: OnceEvent| #[trigger]
                    once_awaits(after, other) <==> other is Sent || other is Shutdown
                &&& action == OnceAction::Retain ==> forall|other: OnceEvent| #[trigger]
                    once_awaits(after, other) <==> other is Retained
                &&& action == OnceAction::Export ==> forall|other: OnceEvent| #[trigger]
                    once_awaits(after, other) <==> other is Exported || other is Shutdown
                &&& action is Finish || action is Fail ==> after == OncePhase::Finished
            }
        }),
{
}

} // verus!
