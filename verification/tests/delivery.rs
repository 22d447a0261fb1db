use unionc_agent::delivery::once::{
    run_once_step, FlushAction, FlushEvent, FlushRun, OnceAction, OnceEvent, OnceFailure, OncePhase,
    RunOnceOutcome, SendOutcome,
};
use unionc_agent::delivery::reporter::{
    AuthorizationNotice, ReporterAction, ReporterEvent, ReporterFailure, ReporterSearch,
};
use unionc_agent::delivery::sampling::{
    delivery_worker_result, notified, SamplingAction, SamplingEvent, SamplingFailure, SamplingLoop,
    Wake, STOP_GRACE,
};
use unionc_agent::delivery::spool::SpoolHealth;
use unionc_agent::delivery::worker::{
    delivery_timing, failure_schedule_with, pairing_failure_schedule, DeliveryAction,
    DeliveryEvent, DeliveryFailure, DeliveryState, Flush, Rejection,
};
use unionc_agent::pairing::{PairingProgress, PairingSession};
use unionc_agent::schedule::{
    double_backoff, jitter, jitter_draw, jitter_with, SamplingCadence, DRAW_RANGE, JITTER_FLOOR,
    SECOND,
};

fn zero_jitter_is_exact() {
    assert_eq!(jitter(10 * SECOND, 0), 10 * SECOND);
}

#[test]
fn tests_zero_jitter_is_exact() {
    zero_jitter_is_exact();
}

#[test]
fn main_zero_jitter_is_exact() {
    zero_jitter_is_exact();
}

fn cadence_skips_an_overrun_instead_of_bursting_missed_samples() {
    let mut cadence = SamplingCadence::starting_now(7 * SECOND);
    let start = cadence.deadline();
    cadence.schedule_next(10 * SECOND, 7 * SECOND + 25 * SECOND);
    assert_eq!(cadence.deadline(), start + 35 * SECOND as u128);
}

#[test]
fn tests_cadence_skips_an_overrun_instead_of_bursting_missed_samples() {
    cadence_skips_an_overrun_instead_of_bursting_missed_samples();
}

#[test]
fn main_cadence_skips_an_overrun_instead_of_bursting_missed_samples() {
    cadence_skips_an_overrun_instead_of_bursting_missed_samples();
}

fn a_full_delivery_notification_channel_does_not_shift_sampling_cadence() {
    let mut cadence = SamplingCadence::starting_now(0);
    let start = cadence.deadline();
    let mut wake = Wake::Sent;
    for index in 0..4_u64 {
        let now = cadence.deadline() as u64;
        assert_eq!(
            now as u128,
            start + (index * 10 * SECOND) as u128,
            "a blocked delivery consumer must not move sampling tick {index}"
        );
        assert!(notified(wake));
        wake = Wake::Full;
        cadence.schedule_next(10 * SECOND, now);
    }
    assert!(!notified(Wake::Closed));
}

#[test]
fn tests_a_full_delivery_notification_channel_does_not_shift_sampling_cadence() {
    a_full_delivery_notification_channel_does_not_shift_sampling_cadence();
}

#[test]
fn main_a_full_delivery_notification_channel_does_not_shift_sampling_cadence() {
    a_full_delivery_notification_channel_does_not_shift_sampling_cadence();
}

#[test]
fn a_ready_delivery_is_not_raced_against_its_expired_retry_timer() {
    let now = 1_000 * SECOND as u128;
    let (ready, next_retry) = delivery_timing(false, Some(now), now);
    assert!(ready);
    assert_eq!(next_retry, None);
}

#[test]
fn a_future_delivery_retry_remains_a_timer_until_it_is_ready() {
    let now = 1_000 * SECOND as u128;
    let retry_at = now + 5 * SECOND as u128;
    let (ready, next_retry) = delivery_timing(false, Some(retry_at), now);

    assert!(!ready);
    assert_eq!(next_retry, Some(retry_at));
}

#[test]
fn authorization_blocks_both_delivery_and_its_retry_timer() {
    let now = 1_000 * SECOND as u128;
    let (ready, next_retry) = delivery_timing(true, Some(now), now);

    assert!(!ready);
    assert_eq!(next_retry, None);
}

#[test]
fn persistent_pairing_snapshot_failures_back_off_and_cap() {
    let now = 50 * SECOND;
    let (retry_at, next_backoff, delay) = pairing_failure_schedule(now, SECOND, 0);
    assert_eq!(delay, SECOND);
    assert_eq!(retry_at, (now + SECOND) as u128);
    assert_eq!(next_backoff, 2 * SECOND);

    let (retry_at, next_backoff, delay) = pairing_failure_schedule(now, 300 * SECOND, 0);
    assert_eq!(delay, 300 * SECOND);
    assert_eq!(retry_at, (now + 300 * SECOND) as u128);
    assert_eq!(next_backoff, 300 * SECOND);
}

fn delivery_worker_shutdown_has_a_hard_upper_bound() {
    let (mut sampling, _) = SamplingLoop::start(10 * SECOND, 0, 0);
    assert!(matches!(sampling.step(SamplingEvent::Shutdown, 1, 0), SamplingAction::StopWorker));
    assert_eq!(STOP_GRACE, 5 * SECOND);
    assert!(matches!(
        sampling.step(SamplingEvent::StopTimedOut, 1 + STOP_GRACE, 0),
        SamplingAction::AbortWorker
    ));
}

#[test]
fn tests_delivery_worker_shutdown_has_a_hard_upper_bound() {
    delivery_worker_shutdown_has_a_hard_upper_bound();
}

#[test]
fn main_delivery_worker_shutdown_has_a_hard_upper_bound() {
    delivery_worker_shutdown_has_a_hard_upper_bound();
}

#[test]
fn cancelled_one_shot_retains_the_current_report_for_idempotent_retry() {
    let (phase, action) = run_once_step(OncePhase::Counting, OnceEvent::Counted(0));
    assert_eq!(action, OnceAction::Send);
    let (phase, action) = run_once_step(phase, OnceEvent::Shutdown);
    assert_eq!(action, OnceAction::Retain);
    let (_, action) = run_once_step(phase, OnceEvent::Retained);
    assert_eq!(action, OnceAction::Finish(RunOnceOutcome::Shutdown));
}

fn transient_spool_failures_do_not_stop_the_agent() {
    let mut health = SpoolHealth::default();
    for _ in 0..(SpoolHealth::MAX_CONSECUTIVE_FAILURES - 1) {
        health.record_failure().expect("未达阈值前必须继续运行");
    }
}

#[test]
fn tests_transient_spool_failures_do_not_stop_the_agent() {
    transient_spool_failures_do_not_stop_the_agent();
}

#[test]
fn main_transient_spool_failures_do_not_stop_the_agent() {
    transient_spool_failures_do_not_stop_the_agent();
}

fn sustained_spool_failures_eventually_stop_the_agent() {
    let mut health = SpoolHealth::default();
    for _ in 0..(SpoolHealth::MAX_CONSECUTIVE_FAILURES - 1) {
        health.record_failure().unwrap();
    }
    let error = health
        .record_failure()
        .expect_err("达到阈值必须返回错误以终止主循环");
    assert!(
        error.message().contains("持续性故障"),
        "错误信息应说明这是持续性故障而非偶发，实际为：{}",
        error.message()
    );
}

#[test]
fn tests_sustained_spool_failures_eventually_stop_the_agent() {
    sustained_spool_failures_eventually_stop_the_agent();
}

#[test]
fn main_sustained_spool_failures_eventually_stop_the_agent() {
    sustained_spool_failures_eventually_stop_the_agent();
}

fn a_single_success_resets_the_failure_streak() {
    let mut health = SpoolHealth::default();
    for _ in 0..(SpoolHealth::MAX_CONSECUTIVE_FAILURES - 1) {
        health.record_failure().unwrap();
    }
    health.record_success();
    for _ in 0..(SpoolHealth::MAX_CONSECUTIVE_FAILURES - 1) {
        health.record_failure().expect("成功一次后计数应归零");
    }
}

#[test]
fn tests_a_single_success_resets_the_failure_streak() {
    a_single_success_resets_the_failure_streak();
}

#[test]
fn main_a_single_success_resets_the_failure_streak() {
    a_single_success_resets_the_failure_streak();
}

// ---------------------------------------------------------------------------
// Time
// ---------------------------------------------------------------------------
#[test]
fn jitter_keeps_to_its_band_and_floor() {
    assert_eq!(jitter_with(10 * SECOND, 10, 0), 9 * SECOND);
    let highest = jitter_with(10 * SECOND, 10, DRAW_RANGE - 1);
    assert!(highest <= 11 * SECOND && highest > 10 * SECOND);
    assert_eq!(jitter_with(10 * SECOND, 10, DRAW_RANGE / 2), 10 * SECOND);
    assert_eq!(jitter_with(1, 10, 0), JITTER_FLOOR);
    for _ in 0..100 {
        let drawn = jitter(10 * SECOND, 50);
        assert!((5 * SECOND..=15 * SECOND).contains(&drawn));
        assert!(jitter_draw() < DRAW_RANGE);
    }
}

#[test]
fn random_draws_differ() {
    let first = jitter_draw();
    assert!((0..100).any(|_| jitter_draw() != first));
}

#[test]
fn backoffs_double_up_to_their_cap() {
    let mut backoff = SECOND;
    for expected in [2, 4, 8, 16, 32, 60, 60] {
        backoff = double_backoff(backoff, 60 * SECOND);
        assert_eq!(backoff, expected * SECOND);
    }
    assert_eq!(failure_schedule_with(0, 4 * SECOND, 50, 0), (2 * SECOND as u128, 8 * SECOND, 2 * SECOND));
    assert_eq!(
        failure_schedule_with(0, 1000 * SECOND, 0, 0),
        (1000 * SECOND as u128, 300 * SECOND, 1000 * SECOND)
    );
}

// ---------------------------------------------------------------------------
// The worker
// ---------------------------------------------------------------------------
fn waiting(request_id: u128) -> PairingProgress {
    PairingProgress::Waiting(PairingSession {
        generation: 1,
        request_id,
        activation_url: "https://unionc.example/activate".into(),
        expires_at: 100,
        poll_interval: 5,
    })
}

fn active(generation: u128, request_id: u128) -> PairingProgress {
    PairingProgress::Active {
        generation,
        request_id,
        instance_id: 9,
        report_endpoint: "https://unionc.example/report".into(),
    }
}

#[test]
fn a_refusal_blocks_until_a_new_pairing() {
    let mut state = DeliveryState::starting_now(0, Some((1, 2)), 0);
    let plan = state.take_turn(0);
    assert!(plan.deliver && plan.start_probe);
    let action = state.step(DeliveryEvent::Flushed(Flush::Rejected(Rejection::Unauthorized)), 0, 0);
    assert!(matches!(action, DeliveryAction::MarkReauth(Rejection::Unauthorized)));
    state.step(DeliveryEvent::ReauthMarked(true), 0, 0);
    assert!(state.authorization_blocked);
    assert!(!state.take_turn(SECOND).deliver);

    let action = state.step(DeliveryEvent::Probed(Some(active(3, 4))), SECOND, 0);
    assert!(matches!(action, DeliveryAction::Adopt { generation: 3, request_id: 4, .. }));
    state.step(DeliveryEvent::Adopted, SECOND, 0);
    assert!(!state.authorization_blocked);
    assert_eq!(state.active_pairing, Some((3, 4)));
    assert!(state.take_turn(SECOND).deliver);
}

#[test]
fn a_failed_delivery_is_retried_later() {
    let mut state = DeliveryState::starting_now(0, None, 0);
    state.take_turn(0);
    state.step(DeliveryEvent::Flushed(Flush::Rejected(Rejection::Other)), 0, 0);
    assert_eq!(state.retry_at, Some(SECOND as u128));
    state.step(DeliveryEvent::Woken(true), 0, 0);
    assert_eq!(state.retry_at, Some(SECOND as u128), "a wake never shortens a backoff");
    assert_eq!(state.backoff, 2 * SECOND);
    state.take_turn(SECOND);
    state.step(DeliveryEvent::Flushed(Flush::Drained), SECOND, 0);
    assert_eq!(state.backoff, SECOND);
    assert_eq!(state.retry_at, None);
}

#[test]
fn the_worker_ends_with_its_shutdown_or_its_probe() {
    let mut state = DeliveryState::starting_now(0, None, 0);
    assert!(matches!(
        state.step(DeliveryEvent::ShutdownChanged { closed: false, requested: true }, 0, 0),
        DeliveryAction::Stop
    ));
    let mut state = DeliveryState::starting_now(0, None, 0);
    state.take_turn(0);
    assert!(matches!(
        state.step(DeliveryEvent::ProbeCrashed, 0, 0),
        DeliveryAction::Fail(DeliveryFailure::ProbeCrashed)
    ));
    for blocked in [false, true] {
        let mut state = DeliveryState::starting_now(0, None, 0);
        state.authorization_blocked = blocked;
        state.take_turn(0);
        let action = state.step(DeliveryEvent::Probed(Some(waiting(2))), 0, 0);
        assert_eq!(matches!(action, DeliveryAction::Remind { .. }), blocked);
        assert_eq!(state.pairing_retry_at, 5 * SECOND as u128);
    }
}

#[test]
fn a_spool_that_keeps_failing_ends_the_worker() {
    let mut state = DeliveryState::starting_now(0, None, 0);
    let mut now = 0;
    for _ in 0..SpoolHealth::MAX_CONSECUTIVE_FAILURES - 1 {
        state.take_turn(now);
        assert!(!matches!(
            state.step(DeliveryEvent::Flushed(Flush::SpoolFailed), now, 0),
            DeliveryAction::Fail(_)
        ));
        now += 300 * SECOND;
    }
    state.take_turn(now);
    assert!(matches!(
        state.step(DeliveryEvent::Flushed(Flush::SpoolFailed), now, 0),
        DeliveryAction::Fail(DeliveryFailure::Spool(_))
    ));
}

// ---------------------------------------------------------------------------
// A batch, and the one-shot command
// ---------------------------------------------------------------------------
#[test]
fn a_batch_acknowledges_before_it_exports() {
    let (mut run, action) = FlushRun::start();
    assert_eq!(action, FlushAction::Fetch);
    assert_eq!(run.step(FlushEvent::Fetched(true)), FlushAction::Send);
    assert_eq!(run.step(FlushEvent::Sent(SendOutcome::Delivered)), FlushAction::Acknowledge);
    assert_eq!(run.step(FlushEvent::Acknowledged), FlushAction::Export);
    assert_eq!(run.step(FlushEvent::Exported), FlushAction::Fetch);
    assert_eq!(run.step(FlushEvent::Fetched(false)), FlushAction::Done(Flush::Drained));
}

#[test]
fn a_batch_ends_after_its_limit() {
    let (mut run, _) = FlushRun::start();
    for handled in 1..=32 {
        assert_eq!(run.step(FlushEvent::Fetched(true)), FlushAction::Send);
        run.step(FlushEvent::Sent(SendOutcome::RejectedForGood));
        let next = run.step(FlushEvent::Acknowledged);
        if handled < 32 {
            assert_eq!(next, FlushAction::Fetch);
        } else {
            assert_eq!(next, FlushAction::Done(Flush::BatchComplete));
        }
    }
}

#[test]
fn a_report_that_is_not_taken_stays_stored() {
    let (mut run, _) = FlushRun::start();
    run.step(FlushEvent::Fetched(true));
    assert_eq!(
        run.step(FlushEvent::Sent(SendOutcome::Rejected(Rejection::Other))),
        FlushAction::Done(Flush::Rejected(Rejection::Other))
    );
    let (mut run, _) = FlushRun::start();
    assert_eq!(run.step(FlushEvent::SpoolFailed), FlushAction::Done(Flush::SpoolFailed));
}

#[test]
fn the_one_shot_command_tells_each_failure() {
    let backlog = |event| {
        let (phase, _) = run_once_step(OncePhase::Counting, OnceEvent::Counted(3));
        let (phase, _) = run_once_step(phase, event);
        run_once_step(phase, OnceEvent::Retained).1
    };
    assert_eq!(
        backlog(OnceEvent::Flushed(Flush::Rejected(Rejection::Other))),
        OnceAction::Fail(OnceFailure::BacklogPending)
    );
    assert_eq!(
        backlog(OnceEvent::Flushed(Flush::SpoolFailed)),
        OnceAction::Fail(OnceFailure::SpoolNotFlushed)
    );
    let (phase, _) = run_once_step(OncePhase::Counting, OnceEvent::Counted(0));
    assert_eq!(
        run_once_step(phase, OnceEvent::Sent(SendOutcome::RejectedForGood)).1,
        OnceAction::Fail(OnceFailure::RejectedForGood)
    );
    let (kept, _) = run_once_step(phase, OnceEvent::Sent(SendOutcome::Rejected(Rejection::Other)));
    assert_eq!(
        run_once_step(kept, OnceEvent::Retained).1,
        OnceAction::Fail(OnceFailure::Retained)
    );
    let (sent, action) = run_once_step(phase, OnceEvent::Sent(SendOutcome::Delivered));
    assert_eq!(action, OnceAction::Export);
    assert_eq!(
        run_once_step(sent, OnceEvent::Exported).1,
        OnceAction::Finish(RunOnceOutcome::Delivered)
    );
    assert_eq!(OnceFailure::Retained.message(), "report was retained in the local spool");
}

// ---------------------------------------------------------------------------
// The search for a reporter
// ---------------------------------------------------------------------------
#[test]
fn a_resident_agent_waits_for_its_authorization() {
    let (mut search, action) = ReporterSearch::start(true, 0);
    assert!(matches!(action, ReporterAction::LookUp));
    assert!(matches!(search.step(ReporterEvent::LookedUp(false), 0), ReporterAction::Poll));
    match search.step(ReporterEvent::Polled(Some(waiting(7))), 0) {
        ReporterAction::Wait { nanoseconds, notice } => {
            assert_eq!(nanoseconds, 5 * SECOND as u128);
            assert_eq!(notice, Some(AuthorizationNotice::Pending(7)));
        }
        other => panic!("{other:?}"),
    }
    search.step(ReporterEvent::Waited, 0);
    search.step(ReporterEvent::LookedUp(false), 0);
    match search.step(ReporterEvent::Polled(Some(waiting(7))), 0) {
        ReporterAction::Wait { notice, .. } => assert_eq!(notice, None, "told once"),
        other => panic!("{other:?}"),
    }
    assert!(matches!(search.step(ReporterEvent::Shutdown, 0), ReporterAction::GiveUp));
}

#[test]
fn a_one_shot_command_does_not_wait() {
    let (mut search, _) = ReporterSearch::start(false, 0);
    search.step(ReporterEvent::LookedUp(false), 0);
    assert!(matches!(
        search.step(ReporterEvent::Polled(Some(waiting(7))), 0),
        ReporterAction::Fail(ReporterFailure::Pending { .. })
    ));
    let (mut search, _) = ReporterSearch::start(false, 0);
    search.step(ReporterEvent::LookedUp(false), 0);
    assert!(matches!(
        search.step(ReporterEvent::Polled(None), 0),
        ReporterAction::Fail(ReporterFailure::NotAuthorized)
    ));
    let (mut search, _) = ReporterSearch::start(false, 0);
    search.step(ReporterEvent::LookedUp(false), 0);
    assert!(matches!(
        search.step(ReporterEvent::PollFailed, 0),
        ReporterAction::Fail(ReporterFailure::PollFailed)
    ));
}

#[test]
fn a_closed_request_ends_a_one_shot_command() {
    let polled = |progress| {
        let (mut search, _) = ReporterSearch::start(false, 0);
        search.step(ReporterEvent::LookedUp(false), 0);
        search.step(ReporterEvent::Polled(Some(progress)), 0)
    };
    let denied = polled(PairingProgress::Denied {
        generation: 1,
        request_id: 2,
        activation_url: "u".into(),
    });
    assert!(matches!(
        denied,
        ReporterAction::Fail(ReporterFailure::Denied { request_id: 2, .. })
    ));
    match polled(PairingProgress::Expired {
        generation: 1,
        request_id: 2,
        activation_url: "u".into(),
    }) {
        ReporterAction::Fail(failure) => {
            assert!(matches!(failure, ReporterFailure::Expired { .. }));
            assert_eq!(
                failure.message(),
                "browser authorization request 00000000-0000-0000-0000-000000000002 expired; run pair again (u)"
            );
        }
        other => panic!("{other:?}"),
    }
}

#[test]
fn a_stored_or_new_pairing_gives_a_reporter() {
    let (mut search, _) = ReporterSearch::start(true, 0);
    assert!(matches!(search.step(ReporterEvent::LookedUp(true), 0), ReporterAction::UseExisting));
    let (mut search, _) = ReporterSearch::start(true, 0);
    search.step(ReporterEvent::LookedUp(false), 0);
    assert!(matches!(
        search.step(ReporterEvent::Polled(Some(active(3, 4))), 0),
        ReporterAction::Adopt { generation: 3, request_id: 4, .. }
    ));
    assert!(matches!(
        search.step(ReporterEvent::Adopted, 0),
        ReporterAction::UsePaired { generation: 3, request_id: 4 }
    ));
}

// ---------------------------------------------------------------------------
// Sampling
// ---------------------------------------------------------------------------
#[test]
fn a_tick_counts_collects_stores_and_wakes() {
    let (mut sampling, action) = SamplingLoop::start(10 * SECOND, 0, 5);
    assert!(matches!(action, SamplingAction::WaitUntil(5)));
    assert!(matches!(sampling.step(SamplingEvent::Due, 5, 0), SamplingAction::Count));
    assert!(matches!(
        sampling.step(SamplingEvent::Counted(3), 5, 0),
        SamplingAction::Collect { pending: 3 }
    ));
    assert!(matches!(sampling.step(SamplingEvent::Collected, 5, 0), SamplingAction::Store));
    assert!(matches!(sampling.step(SamplingEvent::Stored(true), 5, 0), SamplingAction::Wake));
    match sampling.step(SamplingEvent::Woken(Wake::Full), 5, 0) {
        SamplingAction::WaitUntil(deadline) => assert_eq!(deadline, (5 + 10 * SECOND) as u128),
        other => panic!("{other:?}"),
    }
}

#[test]
fn a_count_that_fails_is_taken_as_none() {
    let (mut sampling, _) = SamplingLoop::start(SECOND, 0, 0);
    sampling.step(SamplingEvent::Due, 0, 0);
    assert!(matches!(
        sampling.step(SamplingEvent::CountFailed, 0, 0),
        SamplingAction::Collect { pending: 0 }
    ));
    assert_eq!(sampling.read_health.consecutive_failures, 1);
}

#[test]
fn sampling_gives_up_on_a_dead_spool() {
    let (mut sampling, _) = SamplingLoop::start(SECOND, 0, 0);
    sampling.write_health.consecutive_failures = SpoolHealth::MAX_CONSECUTIVE_FAILURES - 1;
    sampling.step(SamplingEvent::Due, 0, 0);
    sampling.step(SamplingEvent::Counted(0), 0, 0);
    sampling.step(SamplingEvent::Collected, 0, 0);
    assert!(matches!(
        sampling.step(SamplingEvent::Stored(false), 0, 0),
        SamplingAction::Fail(SamplingFailure::Spool(_))
    ));
}

#[test]
fn the_end_of_the_worker_is_the_end_of_the_agent() {
    assert_eq!(delivery_worker_result(Ok(Ok(()))), Ok(()));
    assert_eq!(delivery_worker_result(Ok(Err("spool".into()))), Err("spool".into()));
    assert_eq!(
        delivery_worker_result(Err("panicked".into())),
        Err("delivery worker task failed: panicked".into())
    );
    let (mut sampling, _) = SamplingLoop::start(SECOND, 0, 0);
    assert!(matches!(
        sampling.step(SamplingEvent::WorkerEnded(Err("panicked".into())), 0, 0),
        SamplingAction::Fail(SamplingFailure::Worker(Err(_)))
    ));
}
