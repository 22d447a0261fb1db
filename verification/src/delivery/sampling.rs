//! The sampling loop of the resident agent.

use crate::delivery::spool::{SpoolFault, SpoolHealth};
use crate::schedule::{
    jitter_with, jittered, next_deadline, SamplingCadence, DRAW_RANGE, LONGEST_JITTERED, SECOND,
};
use crate::text;
use vstd::prelude::*;

verus! {

/// How long a delivery worker is given to stop.
pub const STOP_GRACE: u64 = 5 * SECOND;

/// What came of waking the delivery worker over its channel, which holds a single wake.
#[derive(Clone, Copy, PartialEq, Eq, Structural, Debug)]
pub enum Wake {
    Sent,
    /// An earlier wake still waits: this one adds nothing.
    Full,
    /// Nobody listens any more.
    Closed,
}

/// Whether the worker will look at the spool: a wake that still waits serves for both.
pub fn notified(wake: Wake) -> (r: bool)
    ensures
        r == (wake != Wake::Closed),
{
    match wake {
        Wake::Sent | Wake::Full => true,
        Wake::Closed => false,
    }
}

/// What a delivery worker's end means for the agent: its own result, or that the task failed.
pub open spec fn worker_result(result: Result<Result<(), String>, String>) -> Result<
    (),
    Seq<char>,
> {
    match result {
        Ok(Ok(())) => Ok(()),
        Ok(Err(error)) => Err(error@),
        Err(error) => Err("delivery worker task failed: "@ + error@),
    }
}

/// What a delivery worker's end means for the agent.
pub fn delivery_worker_result(result: Result<Result<(), String>, String>) -> (r: Result<
    (),
    String,
>)
    ensures
        match r {
            Ok(()) => worker_result(result) == Ok::<(), Seq<char>>(()),
            Err(error) => worker_result(result) == Err::<(), Seq<char>>(error@),
        },
{
    match result {
        Ok(Ok(())) => Ok(()),
        Ok(Err(error)) => Err(error),
        Err(error) => Err(text::cat("delivery worker task failed: ", error.as_str())),
    }
}

/// Which operation of the loop is under way.
#[derive(Clone, Copy, PartialEq, Eq, Structural, Debug)]
pub enum SamplingPhase {
    Waiting,
    /// Counting what is stored.
    Counting,
    Collecting,
    Storing,
    Waking,
    /// The delivery worker was told to stop.
    Stopping,
    Finished,
}

/// What came of the operation under way.
#[derive(Debug)]
pub enum SamplingEvent {
    /// The delivery worker ended by itself.
    WorkerEnded(Result<Result<(), String>, String>),
    Shutdown,
    Due,
    Counted(u64),
    CountFailed,
    Collected,
    /// The report is on the spool, or it could not be put there.
    Stored(bool),
    Woken(Wake),
    /// The delivery worker ended after it was told to stop.
    Stopped(Result<Result<(), String>, String>),
    /// It did not end within its grace.
    StopTimedOut,
}

/// Why the loop fails.
#[derive(Debug)]
pub enum SamplingFailure {
    Spool(SpoolFault),
    Worker(Result<Result<(), String>, String>),
}

/// What to do next.
#[derive(Debug)]
pub enum SamplingAction {
    /// Wait for the worker, the shutdown and the deadline, in this order.
    WaitUntil(u128),
    /// Count what is stored.
    Count,
    /// Take a sample that carries this count.
    Collect { pending: u64 },
    /// Put it on the spool.
    Store,
    /// Wake the delivery worker.
    Wake,
    /// Tell the worker to stop, and wait for that no longer than its grace.
    StopWorker,
    /// Cancel the worker; its reports stay on the spool.
    AbortWorker,
    Finish,
    Fail(SamplingFailure),
}

/// The sampling loop. It does nothing but bounded local work: every network operation is the
/// worker's, and cannot shift the next tick.
#[derive(Clone, Copy, PartialEq, Eq, Structural, Debug)]
pub struct SamplingLoop {
    pub interval: u64,
    pub jitter_percent: u8,
    pub read_health: SpoolHealth,
    pub write_health: SpoolHealth,
    pub deadline: u128,
    pub phase: SamplingPhase,
}

impl SamplingLoop {
    /// Neither count has reached the limit while the loop goes on.
    pub open spec fn valid(self) -> bool {
        &&& self.interval <= LONGEST_JITTERED
        &&& self.phase is Finished || !self.read_health.given_up() && !self.write_health.given_up()
        &&& self.deadline <= 2 * u64::MAX
    }

    /// The event can come now. A tick comes once its deadline has passed.
    pub open spec fn awaits(self, event: SamplingEvent, now: u64) -> bool {
        match self.phase {
            SamplingPhase::Waiting => event is WorkerEnded || event is Shutdown || event is Due
                && self.deadline <= now,
            SamplingPhase::Counting => event is Counted || event is CountFailed,
            SamplingPhase::Collecting => event is Collected,
            SamplingPhase::Storing => event is Stored,
            SamplingPhase::Waking => event is Woken && self.deadline <= now,
            SamplingPhase::Stopping => event is Stopped || event is StopTimedOut,
            SamplingPhase::Finished => false,
        }
    }

    /// The loop's end with the worker's own result.
    pub open spec fn ends(self, result: Result<Result<(), String>, String>) -> (
        SamplingLoop,
        SamplingAction,
    ) {
        (
            SamplingLoop { phase: SamplingPhase::Finished, ..self },
            if result is Ok && result->Ok_0 is Ok {
                SamplingAction::Finish
            } else {
                SamplingAction::Fail(SamplingFailure::Worker(result))
            },
        )
    }

    /// The loop's end because the spool fails for good.
    pub open spec fn gives_up(self, health: SpoolHealth) -> (SamplingLoop, SamplingAction) {
        (
            SamplingLoop { phase: SamplingPhase::Finished, ..self },
            SamplingAction::Fail(
                SamplingFailure::Spool(
                    SpoolFault { consecutive_failures: health.consecutive_failures },
                ),
            ),
        )
    }

    /// The step that `event` leads to.
    pub open spec fn next(self, event: SamplingEvent, now: u64, draw: u64) -> (
        SamplingLoop,
        SamplingAction,
    ) {
        match event {
            SamplingEvent::WorkerEnded(result) => self.ends(result),
            SamplingEvent::Shutdown => (
                SamplingLoop { phase: SamplingPhase::Stopping, ..self },
                SamplingAction::StopWorker,
            ),
            SamplingEvent::Due => (
                SamplingLoop { phase: SamplingPhase::Counting, ..self },
                SamplingAction::Count,
            ),
            SamplingEvent::Counted(pending) => (
                SamplingLoop {
                    read_health: SpoolHealth { consecutive_failures: 0 },
                    phase: SamplingPhase::Collecting,
                    ..self
                },
                SamplingAction::Collect { pending },
            ),
            SamplingEvent::CountFailed => {
                let failed = SamplingLoop { read_health: self.read_health.failed(), ..self };
                if failed.read_health.given_up() {
                    failed.gives_up(failed.read_health)
                } else {
                    (
                        SamplingLoop { phase: SamplingPhase::Collecting, ..failed },
                        SamplingAction::Collect { pending: 0 },
                    )
                }
            },
            SamplingEvent::Collected => (
                SamplingLoop { phase: SamplingPhase::Storing, ..self },
                SamplingAction::Store,
            ),
            SamplingEvent::Stored(true) => (
                SamplingLoop {
                    write_health: SpoolHealth { consecutive_failures: 0 },
                    phase: SamplingPhase::Waking,
                    ..self
                },
                SamplingAction::Wake,
            ),
            SamplingEvent::Stored(false) => {
                let failed = SamplingLoop { write_health: self.write_health.failed(), ..self };
                if failed.write_health.given_up() {
                    failed.gives_up(failed.write_health)
                } else {
                    (
                        SamplingLoop { phase: SamplingPhase::Waking, ..failed },
                        SamplingAction::Wake,
                    )
                }
            },
            SamplingEvent::Woken(_) => {
                let deadline = next_deadline(
                    self.deadline as int,
                    jittered(self.interval, self.jitter_percent, draw),
                    now as int,
                ) as u128;
                (
                    SamplingLoop { deadline, phase: SamplingPhase::Waiting, ..self },
                    SamplingAction::WaitUntil(deadline),
                )
            },
            SamplingEvent::Stopped(result) => self.ends(result),
            SamplingEvent::StopTimedOut => (
                SamplingLoop { phase: SamplingPhase::Finished, ..self },
                SamplingAction::AbortWorker,
            ),
        }
    }

    /// The loop as it starts: a sample is due at once.
    pub fn start(interval: u64, jitter_percent: u8, now: u64) -> (r: (SamplingLoop, SamplingAction))
        requires
            interval <= LONGEST_JITTERED,
        ensures
            r.0 == (SamplingLoop {
                interval,
                jitter_percent,
                read_health: SpoolHealth { consecutive_failures: 0 },
                write_health: SpoolHealth { consecutive_failures: 0 },
                deadline: now as u128,
                phase: SamplingPhase::Waiting,
            }),
            r.1 == SamplingAction::WaitUntil(now as u128),
            r.0.valid(),
    {
        let cadence = SamplingCadence::starting_now(now);
        let deadline: u128 = cadence.deadline();
        (
            SamplingLoop {
                interval,
                jitter_percent,
                read_health: SpoolHealth { consecutive_failures: 0 },
                write_health: SpoolHealth { consecutive_failures: 0 },
                deadline,
                phase: SamplingPhase::Waiting,
            },
            SamplingAction::WaitUntil(deadline),
        )
    }

    fn end(&mut self, result: Result<Result<(), String>, String>) -> (r: SamplingAction)
        ensures
            (*final(self), r) == old(self).ends(result),
    {
        self.phase = SamplingPhase::Finished;
        match result {
            Ok(Ok(())) => SamplingAction::Finish,
            other => SamplingAction::Fail(SamplingFailure::Worker(other)),
        }
    }

    fn give_up(&mut self, fault: SpoolFault) -> (r: SamplingAction)
        ensures
            *final(self) == (SamplingLoop { phase: SamplingPhase::Finished, ..*old(self) }),
            r == SamplingAction::Fail(SamplingFailure::Spool(fault)),
    {
        self.phase = SamplingPhase::Finished;
        SamplingAction::Fail(SamplingFailure::Spool(fault))
    }

    /// Take the outcome of the operation under way and say what to do next.
    pub fn step(&mut self, event: SamplingEvent, now: u64, draw: u64) -> (r: SamplingAction)
        requires
            old(self).valid(),
            old(self).awaits(event, now),
            draw < DRAW_RANGE,
        ensures
            (*final(self), r) == old(self).next(event, now, draw),
            final(self).valid(),
    {
        match event {
            SamplingEvent::WorkerEnded(result) => self.end(result),
            SamplingEvent::Shutdown => {
                self.phase = SamplingPhase::Stopping;
                SamplingAction::StopWorker
            },
            SamplingEvent::Due => {
                self.phase = SamplingPhase::Counting;
                SamplingAction::Count
            },
            SamplingEvent::Counted(pending) => {
                self.read_health.record_success();
                self.phase = SamplingPhase::Collecting;
                SamplingAction::Collect { pending }
            },
            SamplingEvent::CountFailed => {
                match self.read_health.record_failure() {
                    Err(fault) => self.give_up(fault),
                    Ok(()) => {
                        self.phase = SamplingPhase::Collecting;
                        SamplingAction::Collect { pending: 0 }
                    },
                }
            },
            SamplingEvent::Collected => {
                self.phase = SamplingPhase::Storing;
                SamplingAction::Store
            },
            SamplingEvent::Stored(stored) => {
                match self.write_health.try_enqueue(stored) {
                    Err(fault) => self.give_up(fault),
                    Ok(()) => {
                        self.phase = SamplingPhase::Waking;
                        SamplingAction::Wake
                    },
                }
            },
            SamplingEvent::Woken(_) => {
                let delay: u64 = jitter_with(self.interval, self.jitter_percent, draw);
                let mut cadence = SamplingCadence { deadline: self.deadline };
                cadence.schedule_next(delay, now);
                let deadline: u128 = cadence.deadline();
                self.deadline = deadline;
                self.phase = SamplingPhase::Waiting;
                SamplingAction::WaitUntil(deadline)
            },
            SamplingEvent::Stopped(result) => self.end(result),
            SamplingEvent::StopTimedOut => {
                self.phase = SamplingPhase::Finished;
                SamplingAction::AbortWorker
            },
        }
    }
}

/// A worker that does not take its wakes, or is gone, does not move the next tick: it is planned
/// from the last one alone.
pub proof fn a_full_channel_does_not_shift_the_cadence(
    state: SamplingLoop,
    one: Wake,
    other: Wake,
    now: u64,
    draw: u64,
)
    ensures
        state.next(SamplingEvent::Woken(one), now, draw) == state.next(
            SamplingEvent::Woken(other),
            now,
            draw,
        ),
{
}

/// A sample that cannot be stored, or whose backlog cannot be counted, costs that sample or that
/// count, not the agent: the loop goes on until the limit of failures in a row of one kind.
pub proof fn single_spool_failures_are_survived(
    state: SamplingLoop,
    event: SamplingEvent,
    now: u64,
    draw: u64,
)
    requires
        state.valid(),
        state.awaits(event, now),
        event is CountFailed || event is Stored,
    ensures
        state.next(event, now, draw).1 is Fail <==> ({
            ||| event is CountFailed && state.read_health.consecutive_failures + 1
                == SpoolHealth::MAX_CONSECUTIVE_FAILURES
            ||| event == SamplingEvent::Stored(false) && state.write_health.consecutive_failures
                + 1 == SpoolHealth::MAX_CONSECUTIVE_FAILURES
        }),
{
}

/// A shutdown ends well, whatever the worker makes of it in time; only a worker that ends with an
/// error of its own makes the agent fail.
pub proof fn a_shutdown_waits_for_the_worker(state: SamplingLoop, now: u64, draw: u64)
    requires
        state.phase == SamplingPhase::Waiting,
    ensures
        state.next(SamplingEvent::Shutdown, now, draw).1 == SamplingAction::StopWorker,
        ({
            let stopping = state.next(SamplingEvent::Shutdown, now, draw).0;
            &&& stopping.next(SamplingEvent::StopTimedOut, now, draw).1
                == SamplingAction::AbortWorker
            &&& forall|result: Result<Result<(), String>, String>|
                #![trigger stopping.next(SamplingEvent::Stopped(result), now, draw)]
                stopping.next(SamplingEvent::Stopped(result), now, draw).1
                    == SamplingAction::Finish <==> result is Ok && result->Ok_0 is Ok
        }),
{
}

/// A tick is a sample: what is stored is counted, a sample is taken that carries the count, it is
/// stored, and the worker is woken; then the loop waits for the next tick, which lies one jittered
/// interval after the last, or after now where that has passed.
pub proof fn a_tick_is_a_sample(state: SamplingLoop, pending: u64, wake: Wake, now: u64, draw: u64)
    requires
        state.valid(),
        state.phase is Waiting,
        state.deadline <= now,
        draw < DRAW_RANGE,
        state.interval > 0,
    ensures
        ({
            let (counting, first) = state.next(SamplingEvent::Due, now, draw);
            let (collecting, second) = counting.next(SamplingEvent::Counted(pending), now, draw);
            let (storing, third) = collecting.next(SamplingEvent::Collected, now, draw);
            let (waking, fourth) = storing.next(SamplingEvent::Stored(true), now, draw);
            let (waiting, fifth) = waking.next(SamplingEvent::Woken(wake), now, draw);
            let step = jittered(state.interval, state.jitter_percent, draw);
            &&& first is Count
            &&& second == (SamplingAction::Collect { pending })
            &&& third is Store
            &&& fourth is Wake
            &&& fifth matches SamplingAction::WaitUntil(at) && at == waiting.deadline
            &&& waiting.deadline == if state.deadline + step > now {
                state.deadline + step
            } else {
                now + step
            }
            &&& waiting.phase is Waiting
            &&& waiting.interval == state.interval
            &&& waiting.jitter_percent == state.jitter_percent
            &&& waiting.read_health.consecutive_failures == 0
            &&& waiting.write_health.consecutive_failures == 0
            &&& counting.awaits(SamplingEvent::Counted(pending), now)
            &&& collecting.awaits(SamplingEvent::Collected, now)
            &&& storing.awaits(SamplingEvent::Stored(true), now)
            &&& waking.awaits(SamplingEvent::Woken(wake), now)
        }),
{
    crate::schedule::lemma_jittered_fits(state.interval, state.jitter_percent, draw);
}

/// A count that fails is carried as none, and a sample that cannot be stored is still followed by a
/// wake; each is counted by itself until it succeeds, and the hundredth in a row ends the loop with
/// its number.
pub proof fn a_failure_costs_one_sample(state: SamplingLoop, now: u64, draw: u64)
    requires
        state.valid(),
        !(state.phase is Finished),
    ensures
        ({
            let (uncounted, collect) = state.next(SamplingEvent::CountFailed, now, draw);
            let (unstored, wake) = state.next(SamplingEvent::Stored(false), now, draw);
            let reads = state.read_health.consecutive_failures + 1;
            let writes = state.write_health.consecutive_failures + 1;
            &&& uncounted.read_health.consecutive_failures == reads
            &&& uncounted.write_health == state.write_health
            &&& unstored.write_health.consecutive_failures == writes
            &&& unstored.read_health == state.read_health
            &&& reads < 100 ==> collect == (SamplingAction::Collect { pending: 0 })
                && uncounted.phase is Collecting
            &&& reads >= 100 ==> collect == SamplingAction::Fail(
                SamplingFailure::Spool(SpoolFault { consecutive_failures: reads as u32 }),
            )
            &&& writes < 100 ==> wake is Wake && unstored.phase is Waking
            &&& writes >= 100 ==> wake == SamplingAction::Fail(
                SamplingFailure::Spool(SpoolFault { consecutive_failures: writes as u32 }),
            )
            &&& uncounted.deadline == state.deadline
            &&& unstored.deadline == state.deadline
        }),
{
}

/// A worker that ends takes the loop with it, well or badly as it ended itself; so it is after a
/// stop, and one that does not end in time is aborted.
pub proof fn the_worker_decides_the_end(
    state: SamplingLoop,
    result: Result<Result<(), String>, String>,
    now: u64,
    draw: u64,
)
    ensures
        ({
            let (ended, action) = state.next(SamplingEvent::WorkerEnded(result), now, draw);
            let (stopped, last) = state.next(SamplingEvent::Stopped(result), now, draw);
            let well = (result matches Ok(Ok(_)));
            &&& ended.phase is Finished
            &&& stopped.phase is Finished
            &&& well ==> action is Finish && last is Finish
            &&& !well ==> action == SamplingAction::Fail(SamplingFailure::Worker(result)) && last
                == SamplingAction::Fail(SamplingFailure::Worker(result))
            &&& state.next(SamplingEvent::Shutdown, now, draw).0.phase is Stopping
            &&& state.next(SamplingEvent::StopTimedOut, now, draw).0.phase is Finished
        }),
        worker_result(Ok(Ok(()))) is Ok,
        STOP_GRACE == 5_000_000_000,
{
}

/// The loop waits for its worker, the shutdown and its own tick, which does not come before its
/// time; while it stops, for the worker alone.
pub proof fn what_the_loop_waits_for(state: SamplingLoop, event: SamplingEvent, now: u64)
    ensures
        state.phase is Waiting ==> (state.awaits(event, now) <==> event is WorkerEnded || event
            is Shutdown || (event is Due && state.deadline <= now)),
        state.phase is Stopping ==> (state.awaits(event, now) <==> event is Stopped || event
            is StopTimedOut),
        state.phase is Counting ==> (state.awaits(event, now) <==> event is Counted || event
            is CountFailed),
        state.phase is Finished ==> !state.awaits(event, now),
{
}

} // verus!
