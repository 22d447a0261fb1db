use unionc_agent::agent::{
    delivered_text, notify_address, platform_ready_callback, post_commit_detail,
    post_commit_warning, probe_text, readiness_sent, ready_message, AgentAction, AgentEvent,
    AgentRun, NotifyAddress, NotifyFault, MAX_POST_COMMIT_EVENT_WARNING_DETAIL_BYTES,
};
use unionc_agent::config::{AgentCommand, AgentConfig, OutputMode};
use unionc_agent::delivery::once::RunOnceOutcome;
use unionc_agent::diagnostics::{
    inspect_configuration, inspect_credential, inspect_host_identity, inspect_spool,
    DiagnosticCheck, FileRead, SpoolEntry, SpoolListing,
};
use unionc_agent::pairing::{
    start_pairing, stop_tray_pairing, stopped_before_start, PairAction, PairEvent, PairOptions, PairingFailure, PairingProgress,
    PairingSession, PairingWait, StopEvent,
};
use unionc_agent::platform::{agent_version_output, package_version, Build, Platform};
use unionc_agent::schedule::SECOND;
use unionc_agent::service_host::{
    report_stopped, starting, HostControl, HostState, ServiceHost, ERROR_SERVICE_SPECIFIC_ERROR,
    SERVICE_FAILURE_PANIC, WAIT_HINT_MILLISECONDS,
};
use unionc_agent::status::{
    check_collection, check_configuration, check_state_directory, doctor_status, read_only_doctor,
    DirectoryLook, DoctorStatus, OverallState, StatusFacts,
};
use unionc_agent::wide::{length_until_nul, to_little_endian, to_utf16};

const LINUX: Build = Build { platform: Platform::Linux, otlp: false };
const HOST: &str = "bbbbbbbb-bbbb-4bbb-8bbb-bbbbbbbbbbbb";

// ---------------------------------------------------------------------------
// Diagnostics
// ---------------------------------------------------------------------------
fn content(text: &str) -> FileRead {
    FileRead::Text { content: text.into() }
}

#[test]
fn host_inspection_rejects_noncanonical_uuid_text() {
    let inspection = inspect_host_identity(
        "/state/host-id",
        content("BBBBBBBB-BBBB-4BBB-8BBB-BBBBBBBBBBBB"),
        0,
    );

    assert!(inspection.id.is_none());
    assert_eq!(inspection.check.status, "error");
    assert_eq!(inspection.check.code, Some("identity_invalid"));
}

#[test]
fn status_configuration_check_validates_effective_settings() {
    let mut config = AgentConfig::default();
    config.interval_seconds = 0;

    let check = inspect_configuration(&config, true, LINUX, 0);

    assert_eq!(check.status, "error");
    assert_eq!(check.code, Some("config_invalid"));
    assert!(check.message.contains("interval_seconds"));
}

#[test]
fn files_are_inspected_without_being_changed() {
    let host = inspect_host_identity("/state/host-id", content(HOST), 3);
    assert_eq!(host.id.as_deref(), Some(HOST));
    assert_eq!(host.check.status, "ok");
    assert_eq!(host.check.duration_ms, 3);
    let host = inspect_host_identity("/state/host-id", FileRead::Missing, 0);
    assert!(host.id.is_none() && host.check.status != "ok");
    let host =
        inspect_host_identity("/state/host-id", FileRead::Failed { error: "denied".into() }, 0);
    assert!(host.check.message.contains("denied"));

    assert!(inspect_credential("/state/agent-token", content("secret\n"), 0).present);
    assert!(!inspect_credential("/state/agent-token", content(" \n"), 0).present);
    assert!(!inspect_credential("/state/agent-token", FileRead::Missing, 0).present);
}

#[test]
fn a_spool_is_counted() {
    let file = |extension: Option<&str>, size: Result<u64, String>| SpoolEntry::File {
        path: "/spool/x".into(),
        extension: extension.map(ToString::to_string),
        size,
    };
    let spool = inspect_spool(
        "/spool",
        SpoolListing::Entries {
            entries: vec![
                file(Some("json"), Ok(10)),
                file(Some("json"), Ok(5)),
                file(None, Ok(7)),
                file(Some("tmp"), Ok(7)),
            ],
        },
        0,
    );
    assert_eq!(spool.pending_batches, 2);
    assert_eq!(spool.check.status, "ok");
    let missing = inspect_spool("/spool", SpoolListing::Missing, 0);
    assert_eq!(missing.pending_batches, 0);
    let failed =
        inspect_spool("/spool", SpoolListing::Unreadable { error: "denied".into() }, 0);
    assert_eq!(failed.check.status, "error");
}

fn check(status: &'static str) -> DiagnosticCheck {
    DiagnosticCheck {
        id: "x",
        status,
        code: None,
        message: "m".into(),
        remediation: None,
        duration_ms: 1,
    }
}

fn facts() -> StatusFacts {
    StatusFacts {
        configured: true,
        config_check: check("ok"),
        host: inspect_host_identity("/state/host-id", content(HOST), 0),
        credential: inspect_credential("/state/agent-token", content("secret"), 0),
        spool: inspect_spool("/spool", SpoolListing::Missing, 0),
        pairing_error: None,
        authorization_error: None,
        pairing: None,
        active_endpoint: Some("https://unionc.example/report".into()),
        active_binding_persisted: true,
        reauth_required: false,
        endpoint: "https://unionc.example/pairing".into(),
    }
}

#[test]
fn the_overall_state_follows_the_worst_fact() {
    assert_eq!(facts().overall_state(), OverallState::Configured);
    assert_eq!(
        StatusFacts { pairing_error: Some("broken".into()), ..facts() }.overall_state(),
        OverallState::Degraded
    );
    assert_eq!(
        StatusFacts { reauth_required: true, ..facts() }.overall_state(),
        OverallState::ReauthRequired
    );
    let pairing = Some(PairingProgress::Waiting(session()));
    assert_eq!(
        StatusFacts { pairing, active_endpoint: None, ..facts() }.overall_state(),
        OverallState::Pairing
    );
    let unconfigured = StatusFacts {
        configured: false,
        credential: inspect_credential("/state/agent-token", FileRead::Missing, 0),
        active_endpoint: None,
        active_binding_persisted: false,
        ..facts()
    };
    assert_eq!(unconfigured.overall_state(), OverallState::Unconfigured);
    assert_eq!(facts().status_endpoint().as_deref(), Some("https://unionc.example/report"));
    assert!(facts().human_text().contains(HOST));
}

#[test]
fn the_binding_of_an_active_credential_is_told() {
    let checked = |facts: StatusFacts| {
        let (status, code, _) = facts.binding_check();
        (status, code)
    };
    assert_eq!(checked(facts()), ("ok", None));
    assert_eq!(
        checked(StatusFacts { active_binding_persisted: false, ..facts() }),
        ("warning", Some("active_binding_missing"))
    );
    assert_eq!(checked(StatusFacts { active_endpoint: None, ..facts() }), ("skipped", None));
    let broken = StatusFacts { pairing_error: Some("broken".into()), ..facts() };
    assert_eq!(broken.status_endpoint(), None);
    assert_eq!(checked(broken), ("error", Some("active_pairing_snapshot_invalid")));
    assert_eq!(
        OverallState::Unconfigured.next_action(),
        "run `unionc-agent pair --server https://your-console`"
    );
}

#[test]
fn the_doctor_is_as_well_as_its_worst_check() {
    assert_eq!(doctor_status(&vec![check("ok"), check("skipped")]), DoctorStatus::Healthy);
    assert_eq!(doctor_status(&vec![check("ok"), check("warning")]), DoctorStatus::Attention);
    assert_eq!(doctor_status(&vec![check("warning"), check("error")]), DoctorStatus::Unhealthy);
    let report = read_only_doctor(
        check_configuration(&AgentConfig::default(), LINUX, 0),
        check_state_directory("/state", DirectoryLook::Directory, 0),
        inspect_host_identity("/state/host-id", content(HOST), 0),
        inspect_credential("/state/agent-token", content("secret"), 0),
        inspect_spool("/spool", SpoolListing::Missing, 0),
        check_collection(7, 0, 0),
        0,
    );
    assert_eq!(report.status, doctor_status(&report.checks));
    assert!(report.human_text().contains(report.status.name()));
    let lost = check_state_directory("/state", DirectoryLook::NoDirectory, 0);
    assert_eq!(lost.status, "error");
    let failed = check_state_directory(
        "/state",
        DirectoryLook::Failed { error: "denied".into() },
        0,
    );
    assert!(failed.message.contains("denied"));
    assert_ne!(check_collection(7, 2, 0).status, "ok");
}

// ---------------------------------------------------------------------------
// The process
// ---------------------------------------------------------------------------
#[test]
fn looking_does_nothing_else() {
    let (mut run, action) = AgentRun::start(AgentCommand::Status, false, false);
    assert_eq!(action, AgentAction::PrintStatus);
    assert_eq!(run.step(AgentEvent::Done), AgentAction::Finish);
    let (_, action) = AgentRun::start(AgentCommand::Doctor, false, false);
    assert_eq!(action, AgentAction::ReadOnlyDoctor);
}

#[test]
fn a_probe_sends_nothing() {
    let (mut run, action) = AgentRun::start(AgentCommand::Probe, false, false);
    assert_eq!(action, AgentAction::InstallSignal);
    assert_eq!(run.step(AgentEvent::SignalInstalled), AgentAction::TransientIdentity);
    assert_eq!(run.step(AgentEvent::Identified { shutdown: false }), AgentAction::WarmUp);
    assert_eq!(run.step(AgentEvent::WarmedUp), AgentAction::Sample);
    assert_eq!(run.step(AgentEvent::Sampled { shutdown: false }), AgentAction::PrintProbe);
    assert!(probe_text(8, 1, 2, 3, 4).contains('8'));
}

#[test]
fn readiness_follows_the_open_spool() {
    let (mut run, _) = AgentRun::start(AgentCommand::Run, false, true);
    assert_eq!(run.step(AgentEvent::SignalInstalled), AgentAction::LookForIdentity);
    assert_eq!(run.step(AgentEvent::AuthorizedIdentity(true)), AgentAction::LoadIdentity);
    assert_eq!(run.step(AgentEvent::Identified { shutdown: false }), AgentAction::WarmUp);
    assert_eq!(run.step(AgentEvent::WarmedUp), AgentAction::OpenSpool);
    assert_eq!(run.step(AgentEvent::SpoolOpened), AgentAction::ReportReady);
    assert_eq!(run.step(AgentEvent::ReadyReported(true)), AgentAction::PrepareReporter);
    assert_eq!(run.step(AgentEvent::ReporterPrepared(true)), AgentAction::RunLoop);
    assert_eq!(run.step(AgentEvent::Done), AgentAction::Finish);
}

#[test]
fn a_shutdown_ends_well_and_an_error_badly() {
    let (mut run, _) = AgentRun::start(AgentCommand::Once, false, false);
    run.step(AgentEvent::SignalInstalled);
    run.step(AgentEvent::AuthorizedIdentity(false));
    assert_eq!(run.step(AgentEvent::Identified { shutdown: true }), AgentAction::Finish);
    let (mut run, _) = AgentRun::start(AgentCommand::Once, false, false);
    assert_eq!(run.step(AgentEvent::Failed), AgentAction::Fail);
    let (mut run, _) = AgentRun::start(AgentCommand::Doctor, true, false);
    run.step(AgentEvent::SignalInstalled);
    run.step(AgentEvent::AuthorizedIdentity(true));
    run.step(AgentEvent::Identified { shutdown: false });
    run.step(AgentEvent::WarmedUp);
    run.step(AgentEvent::SpoolOpened);
    assert_eq!(run.step(AgentEvent::ReporterPrepared(true)), AgentAction::RunOnce);
    assert_eq!(
        run.step(AgentEvent::Once(RunOnceOutcome::Delivered)),
        AgentAction::PrintDoctor
    );
    assert_ne!(delivered_text(AgentCommand::Doctor), delivered_text(AgentCommand::Once));
}

#[test]
fn versions_are_told() {
    assert_eq!(package_version(), "0.3.2");
    assert!(agent_version_output().contains(package_version()));
}

#[test]
fn a_long_warning_is_cut_at_a_character() {
    assert_eq!(post_commit_detail("short"), "short");
    let long = "é".repeat(MAX_POST_COMMIT_EVENT_WARNING_DETAIL_BYTES);
    let cut = post_commit_detail(&long);
    assert!(cut.len() <= MAX_POST_COMMIT_EVENT_WARNING_DETAIL_BYTES);
    assert!(cut.starts_with("éé"));
    assert_ne!(cut, long);
    assert!(post_commit_warning("detail").contains("detail"));
}

#[test]
fn rejects_invalid_notification_addresses() {
    assert!(notify_address(&b"relative.sock".to_vec()).is_err());
    assert!(notify_address(&b"@".to_vec()).is_err());
}

#[test]
fn notification_addresses_are_told_apart() {
    match notify_address(&b"@name".to_vec()) {
        Ok(NotifyAddress::Abstract(name)) => assert_eq!(name, b"name"),
        other => panic!("{other:?}"),
    }
    match notify_address(&b"/run/notify".to_vec()) {
        Ok(NotifyAddress::Path(path)) => assert_eq!(path, b"/run/notify"),
        other => panic!("{other:?}"),
    }
    assert!(matches!(notify_address(&b"x".to_vec()), Err(NotifyFault::RelativePath)));
    assert!(matches!(notify_address(&b"@".to_vec()), Err(NotifyFault::EmptyAbstractName)));
    assert!(readiness_sent(ready_message().len()).is_ok());
    assert!(matches!(readiness_sent(1), Err(NotifyFault::Truncated)));
    assert!(platform_ready_callback(Platform::Linux));
}

// ---------------------------------------------------------------------------
// Pairing
// ---------------------------------------------------------------------------
fn session() -> PairingSession {
    PairingSession {
        generation: 1,
        request_id: 2,
        activation_url: "https://unionc.example/agent/activate/2".into(),
        expires_at: 100,
        poll_interval: 5,
    }
}

fn options(tray_events: bool) -> PairOptions {
    PairOptions {
        tray_events,
        tray_activation_stdin: tray_events,
        output_mode: OutputMode::Human,
        jitter_percent: 0,
        endpoint: "https://unionc.example/api/agent/v1/report".into(),
    }
}

fn tray_pairing_stops(wait: PairingWait, event: StopEvent) {
    let stop = stop_tray_pairing(true, wait).expect("the tray is told");
    assert_eq!(stop.event, Some(event));
    assert!(stop_tray_pairing(true, PairingWait::Elapsed).is_none());
    assert!(stop_tray_pairing(true, PairingWait::Shutdown).is_none());
}

#[test]
fn tests_tray_pairing_cancel_wakes_without_terminating_the_process() {
    tray_pairing_stops(PairingWait::Cancelled, StopEvent::Cancelled);
}

#[test]
fn main_tray_pairing_cancel_wakes_without_terminating_the_process() {
    tray_pairing_stops(PairingWait::Cancelled, StopEvent::Cancelled);
}

#[test]
fn tests_tray_pairing_deadline_is_observed_at_network_select_boundaries() {
    tray_pairing_stops(PairingWait::Deadline, StopEvent::Timeout);
}

#[test]
fn main_tray_pairing_deadline_is_observed_at_network_select_boundaries() {
    tray_pairing_stops(PairingWait::Deadline, StopEvent::Timeout);
}

fn active(request_id: u128) -> PairingProgress {
    PairingProgress::Active {
        generation: 1,
        request_id,
        instance_id: 9,
        report_endpoint: "https://unionc.example/api/agent/v1/report".into(),
    }
}

#[test]
fn a_pairing_commits_its_own_activation() {
    let run = start_pairing(options(false), session());
    let (run, action) = run.step(PairEvent::Announced, 0);
    assert!(matches!(action, PairAction::Poll));
    let (run, action) = run.step(PairEvent::Polled(Some(PairingProgress::Waiting(session()))), 0);
    match action {
        PairAction::Wait(nanoseconds) => assert_eq!(nanoseconds, 5 * SECOND as u128),
        other => panic!("{other:?}"),
    }
    let (run, action) = run.step(PairEvent::Waited(PairingWait::Elapsed), 0);
    assert!(matches!(action, PairAction::Poll));
    let (run, action) = run.step(PairEvent::Polled(Some(active(2))), 0);
    assert!(matches!(action, PairAction::Commit { instance_id: 9, .. }));
    let (_, action) = run.step(PairEvent::Committed, 0);
    assert!(matches!(action, PairAction::Paired { request_id: 2, .. }));
}

#[test]
fn a_pairing_may_be_stopped_before_its_request_is_there() {
    assert!(matches!(
        stopped_before_start(&options(true), PairingWait::Shutdown),
        PairAction::Finish
    ));
    match stopped_before_start(&options(false), PairingWait::Deadline) {
        PairAction::Stop(stop) => {
            assert_eq!(stop.event, None);
            assert_eq!(
                stop.failure.message(),
                "tray pairing reached its configured safety deadline"
            );
        }
        other => panic!("{other:?}"),
    }
}

#[test]
fn every_failed_pairing_is_told() {
    let polled = |progress| {
        let run = start_pairing(options(false), session());
        let (run, _) = run.step(PairEvent::Announced, 0);
        run.step(PairEvent::Polled(progress), 0).1
    };
    assert!(matches!(
        polled(Some(active(3))),
        PairAction::Fail(PairingFailure::SupersededOrRedirected)
    ));
    assert!(matches!(polled(None), PairAction::Fail(PairingFailure::Disappeared)));
    let denied = polled(Some(PairingProgress::Denied {
        generation: 1,
        request_id: 2,
        activation_url: "u".into(),
    }));
    assert!(matches!(denied, PairAction::Fail(PairingFailure::Denied { request_id: 2, .. })));
    let expired = polled(Some(PairingProgress::Expired {
        generation: 1,
        request_id: 2,
        activation_url: "u".into(),
    }));
    assert!(matches!(
        expired,
        PairAction::Fail(PairingFailure::Expired { .. }) | PairAction::FailExpired { .. }
    ));
    assert!(!PairingFailure::Disappeared.message().is_empty());
}

#[test]
fn failed_polls_back_off() {
    let mut run = start_pairing(options(false), session());
    run = run.step(PairEvent::Announced, 0).0;
    for expected in [1, 2, 4, 8, 16, 32, 60, 60] {
        let (next, action) = run.step(PairEvent::PollFailed(0), 0);
        match action {
            PairAction::Wait(nanoseconds) => {
                assert_eq!(nanoseconds, expected * SECOND as u128);
            }
            other => panic!("{other:?}"),
        }
        run = next.step(PairEvent::Waited(PairingWait::Elapsed), 0).0;
    }
    let (_, action) = run.step(PairEvent::PollFailed(101), 0);
    assert!(matches!(
        action,
        PairAction::FailExpired { failure: PairingFailure::ExpiredUnreachable { .. }, .. }
    ));
}

// ---------------------------------------------------------------------------
// The Windows service host
// ---------------------------------------------------------------------------
#[test]
fn a_stop_is_taken_once() {
    let mut host = ServiceHost {
        reported: starting(),
        shutdown_requested: false,
        progress_started: false,
    };
    assert_eq!(host.reported.wait_hint, WAIT_HINT_MILLISECONDS);
    let (order, go_on) = host.report_running();
    assert!(go_on);
    assert_eq!(order.report.unwrap().state, HostState::Running);
    host.taken(order.report.unwrap());
    let order = host.control(HostControl::Stop);
    assert!(order.request_shutdown && order.start_progress);
    host.taken(order.report.unwrap());
    assert!(!host.control(HostControl::Shutdown).start_progress);
    let (_, go_on) = host.report_running();
    assert!(!go_on, "a stopping service does not run again");
    assert_eq!(host.progress(4).unwrap().0.checkpoint, 4);
    host.taken(report_stopped(0));
    assert!(!host.control(HostControl::Stop).request_shutdown);
    assert_eq!(host.progress(4), None);
}

#[test]
fn a_failure_is_reported_with_its_code() {
    let host = ServiceHost {
        reported: starting(),
        shutdown_requested: false,
        progress_started: false,
    };
    let report = host.report_failure(true).unwrap();
    assert_eq!(report.state, HostState::Stopped);
    assert_eq!(report.exit_code, ERROR_SERVICE_SPECIFIC_ERROR);
    assert_eq!(report.service_exit_code, SERVICE_FAILURE_PANIC);
    assert_eq!(report_stopped(0).exit_code, 0);
}

#[test]
fn wide_texts_are_written_in_little_endian() {
    let units = to_utf16("aé\u{1f600}");
    assert_eq!(units, "aé\u{1f600}".encode_utf16().collect::<Vec<u16>>());
    assert_eq!(to_little_endian(&vec![0x0102, 0xa0b0]), vec![2, 1, 0xb0, 0xa0]);
    assert_eq!(length_until_nul(&vec![1, 2, 0, 3]), 2);
    assert_eq!(length_until_nul(&vec![1, 2]), 2);
}
