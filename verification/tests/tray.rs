use unionc_agent::identifier::{canonical_uuid, IdentifierFault};
use unionc_agent::tray::broker::{
    accept_pair_request, confirmation_text, not_paired_text, BrokerLook, BrowserWork, ConnectLook, Consent,
    HelperAction, HelperEvent, HelperPhase, HelperRun, PairRequestFault, ServeAction, ServeEvent, ServeFault, ServeRun, Work,
    WorkAction, WorkEvent, BROKER_EXIT_MILLISECONDS, PAIR_BROKER_EXIT_GRACE_SECONDS,
};
use unionc_agent::tray::child::{
    agent_environment, cancel_event_name, diagnostics_text, pair_arguments, pairing_outcome, reconcile_pairing_child,
    retain_chunk, ChildWatch, GuardStep, PairChildGuard, ProcessLook, StreamFailure, StreamState, WatchStep,
    CONTAINMENT_NANOSECONDS, PAIR_CANCEL_GRACE_SECONDS, PAIR_OPERATION_SECONDS,
};
use unionc_agent::tray::control::{
    busy_error, find_route, local_api_error, route_request, ControlAction, ControlFault, ControlSecrets,
    Route, Routed,
};
use unionc_agent::tray::elevated::{
    changed_text, elevated_pair_arguments, elevated_service_arguments, exit_busy, not_stopped_text, not_told_text, ChangeEvent,
    ChangeFault, ChangeStep, ElevatedAction, ElevatedEvent, ElevatedRun, ElevatedWork,
    ServiceChange, StopAction, StopAndExit, SERVICE_CHANGE_SECONDS,
};
use unionc_agent::tray::events::{
    browser_url_matches_server_origin, pair_pipe_name, read_bounded_line, validate_browser_url,
    validate_callback_nonce, validate_pair_ipc_message, EventFault, EventStep, PairEvents,
    PairIpcMessage, TrayPairEvent, MAX_NDJSON_LINE_BYTES, MAX_NDJSON_TOTAL_BYTES,
};
use unionc_agent::tray::http::{
    complete_request, find_bytes, head_length, next_body_read, parse_head, render_response_head,
    Header, HttpLimits, LocalHttpRequest, RequestFault,
};
use unionc_agent::tray::operation::{
    create_operation, find_operation, pairing_busy, pairing_end, service_busy, service_end,
    update_operation,
    BrowserOperation, OperationFault, OperationKind, OperationPhase, Slot, MAX_OPERATIONS,
};
use unionc_agent::tray::pipe::{
    accept_key, check_message, connect_deadline, exchanged_key, pipe_body_length, pipe_connect,
    pipe_frame, read_tray_activation_code, received_key, ConnectStep, ExchangeFault, KeyFault,
    PipeFault, SensitiveActivationCode, MAX_KEY_BYTES,
};
use unionc_agent::tray::preferences::{
    hex_text, load_preferences, preferences_readable, random_secret, remembered_server, server_to_probe,
    PreferencesFault, PreferencesFile, StoredPreferences, MAX_PREFERENCES_BYTES,
};
use unionc_agent::tray::probe::{
    elapsed_milliseconds, is_application_json, judge_answer, probe_failed, start_probe,
    ConnectionState, HealthAnswer, ProbeFailure, ProbeStart, ServerConnectionStatus, ServerHealth,
};
use unionc_agent::tray::service::{
    await_stable, await_state, copy_wide_fixed, judge_helper, offered_action, plan_service,
    tray_tooltip, HelperVerdict, ServiceAction, ServiceMove, ServiceState, WaitStep,
};
use unionc_agent::tray::session::{
    admits, constant_time_eq, issue, redeem, withdraw, Ticket, BOOTSTRAP_LIFETIME, MAX_TICKETS,
    SESSION_LIFETIME,
};
use unionc_agent::tray::window::{
    admits_connection, check_exit, configuration_address, handle_tray_command, still_running_text,
    ExitCheck, ExitFlow, MenuChoice, WindowAction, WindowEvent, COMMAND_EXIT, COMMAND_SERVICE,
};

use unionc_agent::tray::words::{
    accepted_text, awaiting_text, elevated_error_text, helper_context, helper_error_text,
    not_saved_text, pairing_failed_notice, progress_text, verdict_error_text, TrayFault,
};

const SECOND: u64 = 1_000_000_000;
const VERSION: &str = "0.3.2";

// ---------------------------------------------------------------------------
// The pairing child
// ---------------------------------------------------------------------------
fn missing_key() -> Result<(), StreamFailure> {
    Err(StreamFailure::Fault(EventFault::MissingAuthorizationKey))
}

#[test]
fn child_diagnostics_replace_the_secondary_missing_key_error() {
    let rendered = reconcile_pairing_child(
        false,
        "exit code 1",
        missing_key(),
        "Error: UnionC returned a non-JSON pairing response",
    )
    .unwrap_err();
    assert!(rendered.contains("UnionC returned a non-JSON pairing response"));
    assert!(!rendered.contains("Agent did not request an authorization key"));
}

#[test]
fn missing_key_error_is_retained_when_the_child_has_no_diagnostics() {
    let error = reconcile_pairing_child(false, "exit code 1", missing_key(), "").unwrap_err();
    assert!(error.contains("Agent did not request an authorization key"));
}

#[test]
fn child_stderr_does_not_hide_a_real_event_protocol_error() {
    let event_message = "Agent activation URL origin differs from the confirmed server";
    let rendered = reconcile_pairing_child(
        false,
        "exit code 1",
        Err(StreamFailure::Other { message: event_message.into() }),
        "Error: pairing child was cancelled after the event-stream failure",
    )
    .unwrap_err();
    assert!(rendered.starts_with("pairing event processing failed"));
    assert!(rendered.contains(event_message));
    assert!(rendered.contains("pairing child was cancelled"));
}

#[test]
fn a_child_without_events_or_words_is_told_by_its_status() {
    assert_eq!(reconcile_pairing_child(true, "exit code 0", Ok(()), "noise"), Ok(()));
    assert_eq!(
        reconcile_pairing_child(true, "exit code 0", missing_key(), "noise"),
        Err("pairing event processing failed: Agent did not request an authorization key".into())
    );
    assert_eq!(
        reconcile_pairing_child(false, "exit code 1", Ok(()), " \n"),
        Err("browser pairing exited with exit code 1".into())
    );
    assert_eq!(
        reconcile_pairing_child(false, "exit code 1", Ok(()), " no\n"),
        Err("Agent pairing failed (exit code 1): no".into())
    );
    assert_eq!(pairing_outcome(false, true, "exit code 0", Ok(()), ""), Ok(()));
    assert!(pairing_outcome(true, true, "exit code 0", Ok(()), "").is_err());
}

#[test]
fn the_child_is_told_everything() {
    let nonce = "b".repeat(64);
    assert_eq!(cancel_event_name(&nonce), format!("Local\\UnionCAgentPairCancel-{nonce}"));
    let given = pair_arguments("c", "s", "e", Some("n"));
    assert_eq!(
        given,
        vec![
            "pair",
            "--tray-events",
            "--tray-activation-stdin",
            "--config",
            "c",
            "--server",
            "s",
            "--tray-cancel-event",
            "e",
            "--tray-deadline-seconds",
            "1200",
            "--replace-pending-pairing",
            "--name",
            "n"
        ]
    );
    assert_eq!(pair_arguments("c", "s", "e", None).len(), 12);
}

#[test]
fn force_follows_an_ignored_cancellation() {
    let open = StreamState::Open;
    let mut watch = ChildWatch::begin(0);
    assert_eq!(watch.look(open, SECOND), WatchStep { cancel: false, kill: false });
    let grace = PAIR_CANCEL_GRACE_SECONDS * SECOND;
    let late = PAIR_OPERATION_SECONDS * SECOND + grace;
    assert!(!watch.look(open, late - 1).cancel);
    assert!(watch.look(open, late).cancel);
    assert!(!watch.look(open, late + 1).cancel, "cancelled once");
    assert!(!watch.look(open, late + CONTAINMENT_NANOSECONDS - 1).kill);
    assert!(watch.look(open, late + CONTAINMENT_NANOSECONDS).kill);

    let mut watch = ChildWatch::begin(0);
    assert!(watch.look(StreamState::Ended { failed: true }, SECOND).cancel);
    let mut watch = ChildWatch::begin(0);
    assert!(!watch.look(StreamState::Ended { failed: false }, SECOND).cancel);
}

#[test]
fn diagnostics_are_kept_up_to_a_limit() {
    let mut kept = Vec::new();
    assert!(!retain_chunk(&mut kept, &b"abc".to_vec(), 5));
    assert!(retain_chunk(&mut kept, &b"def".to_vec(), 5));
    assert_eq!(kept, b"abcde");
    assert_eq!(diagnostics_text(&vec![b'a', 0xff, b'b'], false), "a\u{fffd}b");
    assert!(diagnostics_text(&b"abc".to_vec(), true).starts_with("abc"));
    assert!(diagnostics_text(&b"abc".to_vec(), true).len() > 3);
}

// ---------------------------------------------------------------------------
// Events
// ---------------------------------------------------------------------------
#[test]
fn bounded_line_reader_rejects_before_growing_past_the_limit() {
    let input = vec![b'x'; MAX_NDJSON_LINE_BYTES + 1];
    let mut line = Vec::new();
    let mut refused = false;
    for chunk in input.chunks(1024) {
        match read_bounded_line(&mut line, &chunk.to_vec(), MAX_NDJSON_LINE_BYTES) {
            Ok(_) => {}
            Err(_) => refused = true,
        }
    }
    assert!(refused);
    assert!(line.len() <= MAX_NDJSON_LINE_BYTES);
}

#[test]
fn a_line_ends_with_its_line_feed() {
    let mut line = Vec::new();
    assert_eq!(read_bounded_line(&mut line, &b"ab".to_vec(), 10).unwrap(), (2, false));
    assert_eq!(read_bounded_line(&mut line, &b"c\nd".to_vec(), 10).unwrap(), (2, true));
    assert_eq!(line, b"abc\n");
}

#[test]
fn the_chunks_of_a_line_do_not_matter() {
    for size in 1..8 {
        let mut line = Vec::new();
        let mut ended = false;
        for chunk in b"abcdef\nrest".chunks(size) {
            if !ended {
                ended = read_bounded_line(&mut line, &chunk.to_vec(), 7).unwrap().1;
            }
        }
        assert!(ended);
        assert_eq!(line, b"abcdef\n");
    }
}

#[test]
fn a_pairing_request_is_judged_from_its_server_on() {
    let accepted = accept_pair_request("https://Server.Example/", Ok(Some("host".into())), Ok(()));
    let accepted = accepted.unwrap();
    assert_eq!(accepted.server, SERVER);
    assert_eq!(accepted.name.as_deref(), Some("host"));
    assert_eq!(accepted.preferences.server, SERVER);
    assert_eq!(accepted.preferences.name.as_deref(), Some("host"));
    let unnamed = accept_pair_request(SERVER, Ok(None), Ok(())).unwrap();
    assert!(unnamed.name.is_none() && unnamed.preferences.name.is_none());
    assert!(matches!(
        accept_pair_request("nonsense", Err("name".into()), Err("key".into())),
        Err(PairRequestFault::Server(_))
    ));
    let fault = accept_pair_request(SERVER, Err("name".into()), Err("key".into())).unwrap_err();
    assert!(matches!(fault, PairRequestFault::Name(_)));
    assert_eq!(fault.message(), "name");
    assert!(matches!(
        accept_pair_request(SERVER, Ok(None), Err("key".into())),
        Err(PairRequestFault::Key(why)) if why == "key"
    ));
}

const GENERATION: &str = "11111111-1111-4111-8111-111111111111";
const REQUEST: &str = "22222222-2222-4222-8222-222222222222";
const INSTANCE: &str = "33333333-3333-4333-8333-333333333333";
const SERVER: &str = "https://server.example";

fn message() -> PairIpcMessage {
    PairIpcMessage {
        generation: GENERATION.into(),
        request_id: REQUEST.into(),
        activation_url: format!("{SERVER}/agent/activate/{REQUEST}"),
        pairing_endpoint: format!("{SERVER}/api/agent/v2/pairing-requests"),
    }
}

fn waiting() -> TrayPairEvent {
    let message = message();
    TrayPairEvent::Waiting {
        generation: message.generation,
        request_id: message.request_id,
        activation_url: message.activation_url,
        pairing_endpoint: message.pairing_endpoint,
    }
}

fn paired(request_id: &str) -> TrayPairEvent {
    TrayPairEvent::Paired { request_id: request_id.into(), instance_id: INSTANCE.into() }
}

#[test]
fn pairing_ipc_requires_canonical_uuid_text() {
    let generation = uuid::Uuid::new_v4().to_string();
    let request_id = uuid::Uuid::new_v4().to_string();
    let server = "https://server.example";
    let message = PairIpcMessage {
        generation: generation.clone(),
        request_id: request_id.clone(),
        activation_url: format!("{server}/agent/activate/{request_id}"),
        pairing_endpoint: format!("{server}/api/agent/v2/pairing-requests"),
    };
    validate_pair_ipc_message(&message, server).unwrap();

    let uppercase = PairIpcMessage { generation: generation.to_uppercase(), ..message };
    assert!(validate_pair_ipc_message(&uppercase, server).is_err());
}

#[test]
fn a_message_speaks_of_the_confirmed_server_alone() {
    let judge = |given: PairIpcMessage| validate_pair_ipc_message(&given, SERVER).unwrap_err();
    assert!(matches!(
        judge(PairIpcMessage { request_id: "x".into(), ..message() }),
        EventFault::Identifier(_, IdentifierFault::NotUuid)
    ));
    assert!(matches!(
        judge(PairIpcMessage {
            pairing_endpoint: "https://other.example/api/agent/v2/pairing-requests".into(),
            ..message()
        }),
        EventFault::PairingOrigin | EventFault::PairingEndpoint
    ));
    assert!(matches!(
        judge(PairIpcMessage {
            activation_url: format!("https://other.example/agent/activate/{REQUEST}"),
            ..message()
        }),
        EventFault::MessageOrigin | EventFault::ActivationOrigin
    ));
    assert!(matches!(
        judge(PairIpcMessage {
            activation_url: format!("{SERVER}/agent/activate/{GENERATION}"),
            ..message()
        }),
        EventFault::ActivationUrl
    ));
}

#[test]
fn the_key_is_exchanged_once_and_for_its_request() {
    let mut events = PairEvents::begin();
    match events.take_event(waiting(), SERVER).unwrap() {
        EventStep::Exchange(given) => assert_eq!(given.request_id, REQUEST),
        EventStep::Continue => panic!("the key is asked for"),
    }
    assert!(matches!(events.take_event(waiting(), SERVER), Err(EventFault::TwoActivations)));
    assert!(matches!(
        events.take_event(paired(GENERATION), SERVER),
        Err(EventFault::OtherRequest)
    ));
    assert!(matches!(events.finish(), Err(EventFault::NotPaired)));
    events.take_event(paired(REQUEST), SERVER).unwrap();
    assert!(events.finish().is_ok());
    assert!(matches!(events.take_event(paired(REQUEST), SERVER), Err(EventFault::TwoPairings)));
}

#[test]
fn every_end_of_a_pairing_has_its_fault() {
    let mut events = PairEvents::begin();
    assert!(matches!(events.finish(), Err(EventFault::MissingAuthorizationKey)));
    assert!(matches!(
        events.take_event(paired(REQUEST), SERVER),
        Err(EventFault::PairedBeforeKey)
    ));
    assert!(matches!(
        events.take_event(TrayPairEvent::Interrupted { request_id: REQUEST.into() }, SERVER),
        Err(EventFault::Interrupted)
    ));
    assert!(matches!(
        events.take_event(TrayPairEvent::Cancelled, SERVER),
        Err(EventFault::Cancelled)
    ));
    assert!(matches!(
        events.take_event(TrayPairEvent::Timeout, SERVER),
        Err(EventFault::Deadline)
    ));
    assert_eq!(
        EventFault::MissingAuthorizationKey.message(),
        "Agent did not request an authorization key"
    );
}

#[test]
fn the_event_stream_is_bounded() {
    let mut events = PairEvents::begin();
    let mut line = b"{}\r\n".to_vec();
    events.accept_line(&mut line, 4).unwrap();
    assert_eq!(line, b"{}");
    let mut line = b"\n".to_vec();
    assert!(matches!(events.accept_line(&mut line, 1), Err(EventFault::EmptyLine)));
    let mut line = b"x\n".to_vec();
    assert!(matches!(
        events.accept_line(&mut line, MAX_NDJSON_TOTAL_BYTES),
        Err(EventFault::StreamTooLarge)
    ));
}

#[test]
fn addresses_for_the_browser_are_checked() {
    assert!(validate_browser_url("https://server.example/agent/activate/x"));
    assert!(!validate_browser_url("javascript:alert(1)"));
    assert!(browser_url_matches_server_origin("https://server.example/a", SERVER));
    assert!(!browser_url_matches_server_origin("https://server.example:8443/a", SERVER));
    assert!(validate_callback_nonce(&"0".repeat(64)));
    assert!(!validate_callback_nonce(&"g".repeat(64)));
    assert!(pair_pipe_name("n").ends_with('n'));
    assert_eq!(canonical_uuid(REQUEST).unwrap(), 0x22222222_2222_4222_8222_222222222222);
    assert_eq!(canonical_uuid("nothing"), Err(IdentifierFault::NotUuid));
    assert_eq!(
        canonical_uuid("22222222222242228222222222222222"),
        Err(IdentifierFault::NotCanonical)
    );
}

// ---------------------------------------------------------------------------
// The local control page
// ---------------------------------------------------------------------------
const LIMITS: HttpLimits = HttpLimits { head: 256, body: 64 };

fn head_of(text: &str) -> Result<LocalHttpRequest, RequestFault> {
    let received = text.as_bytes().to_vec();
    let length = head_length(&received, LIMITS)?.expect("a whole head");
    let head = parse_head(&received, length, LIMITS)?;
    next_body_read(received.len(), length, head.content_length)?;
    Ok(complete_request(head, &received, length))
}

#[test]
fn a_request_is_read_from_its_bytes() {
    let request = head_of(
        "POST /pair HTTP/1.1\r\nHost: 127.0.0.1:1\r\nContent-Length: 2\r\nX-A:  b \r\n\r\n{}",
    )
    .unwrap();
    assert_eq!(request.method, "POST");
    assert_eq!(request.target, "/pair");
    assert_eq!(request.headers.len(), 3);
    assert_eq!(request.headers[2].name, "x-a");
    assert_eq!(request.headers[2].value, "b");
    assert_eq!(request.body, b"{}");
    assert_eq!(find_bytes(&b"abcabc".to_vec(), &b"ca".to_vec()), Some(2));
    assert_eq!(find_bytes(&b"abc".to_vec(), &b"x".to_vec()), None);
}

#[test]
fn malformed_requests_are_refused() {
    let refuse = |text: &str| head_of(text).unwrap_err();
    assert!(matches!(refuse("GET /\r\n\r\n"), RequestFault::MalformedRequestLine));
    assert!(matches!(refuse("GET / HTTP/1.0\r\n\r\n"), RequestFault::HttpVersion));
    assert!(matches!(refuse("PUT / HTTP/1.1\r\n\r\n"), RequestFault::Method));
    assert!(matches!(refuse("GET x HTTP/1.1\r\n\r\n"), RequestFault::Target));
    assert!(matches!(refuse("GET /?a HTTP/1.1\r\n\r\n"), RequestFault::QueryOrFragment));
    assert!(matches!(
        refuse("GET / HTTP/1.1\r\nA: b\r\n c\r\n\r\n"),
        RequestFault::FoldedHeader
    ));
    assert!(matches!(refuse("GET / HTTP/1.1\r\nA\r\n\r\n"), RequestFault::MalformedHeader));
    assert!(matches!(refuse("GET / HTTP/1.1\r\nA b: c\r\n\r\n"), RequestFault::HeaderName));
    match refuse("GET / HTTP/1.1\r\nA: b\r\na: c\r\n\r\n") {
        RequestFault::DuplicateHeader { name } => assert_eq!(name, "a"),
        other => panic!("{other:?}"),
    }
    assert!(matches!(
        refuse("GET / HTTP/1.1\r\nTransfer-Encoding: chunked\r\n\r\n"),
        RequestFault::TransferEncoding
    ));
    assert!(matches!(
        refuse("GET / HTTP/1.1\r\nContent-Length: x\r\n\r\n"),
        RequestFault::ContentLength
    ));
    assert!(matches!(
        refuse("GET / HTTP/1.1\r\nContent-Length: 65\r\n\r\n"),
        RequestFault::BodyTooLarge
    ));
    assert!(matches!(
        refuse("GET / HTTP/1.1\r\nContent-Length: 1\r\n\r\nab"),
        RequestFault::Pipelining
    ));
    assert!(matches!(refuse("GET / HTTP/1.1\r\nA: \u{e9}\r\n\r\n"), RequestFault::HeadNotAscii));
    let mut bytes = b"GET / HTTP/1.1\r\nA: ".to_vec();
    bytes.extend_from_slice(&[0xff, 13, 10, 13, 10]);
    let length = head_length(&bytes, LIMITS).unwrap().unwrap();
    assert!(matches!(parse_head(&bytes, length, LIMITS), Err(RequestFault::HeadNotUtf8)));
    assert_eq!(head_length(&b"GET".to_vec(), LIMITS).unwrap(), None);
    assert!(matches!(
        head_length(&vec![b'a'; 256], LIMITS),
        Err(RequestFault::HeadTooLarge)
    ));
}

#[test]
fn responses_forbid_what_they_can() {
    let head = render_response_head("200 OK", "text/html", 12);
    assert!(head.starts_with("HTTP/1.1 200 OK\r\n"));
    assert!(head.contains("Content-Length: 12\r\n"));
    assert!(head.ends_with("\r\n\r\n"));
}

const ORIGIN: &str = "http://127.0.0.1:4321";

fn request(method: &str, target: &str, secret: Option<&str>, body: &[u8]) -> LocalHttpRequest {
    let mut headers = vec![("host", "127.0.0.1:4321".to_string())];
    if method == "POST" {
        headers.push(("origin", ORIGIN.to_string()));
        headers.push(("content-type", "application/JSON".to_string()));
        headers.push(("content-length", body.len().to_string()));
        headers.push(("x-unionc-tray", "1".to_string()));
    }
    if let Some(secret) = secret {
        headers.push(("authorization", format!("Bearer {secret}")));
    }
    LocalHttpRequest {
        method: method.into(),
        target: target.into(),
        headers: headers
            .into_iter()
            .map(|(name, value)| Header { name: name.into(), value })
            .collect(),
        body: body.to_vec(),
    }
}

fn without(mut request: LocalHttpRequest, name: &str) -> LocalHttpRequest {
    request.headers.retain(|header| header.name != name);
    request
}

#[test]
fn a_session_is_opened_by_a_ticket_and_then_used() {
    let ticket = "a".repeat(64);
    let session = "b".repeat(64);
    let mut secrets = ControlSecrets {
        bootstrap: vec![Ticket { secret: ticket.clone(), expires: 1_000 }],
        sessions: vec![],
    };
    let open = request("POST", "/session", Some(&ticket), b"{}");
    match route_request(&open, ORIGIN, &mut secrets, session.clone(), 10).unwrap() {
        Routed::Session { bearer } => assert_eq!(bearer, session),
        other => panic!("{other:?}"),
    }
    assert!(matches!(
        route_request(&open, ORIGIN, &mut secrets, "c".repeat(64), 11),
        Err(ControlFault::Capability)
    ));
    let act = request("POST", "/pair", Some(&session), b"{}");
    assert!(matches!(
        route_request(&act, ORIGIN, &mut secrets, String::new(), 12),
        Ok(Routed::Act(ControlAction::Pair))
    ));
    assert!(matches!(
        route_request(&act, ORIGIN, &mut secrets, String::new(), 12 + SESSION_LIFETIME),
        Err(ControlFault::NoSession)
    ));
}

#[test]
fn every_requirement_on_a_request_is_kept() {
    let secret = "a".repeat(64);
    let refuse = |given: LocalHttpRequest| find_route(&given, ORIGIN).unwrap_err();
    let post = || request("POST", "/state", Some(&secret), b"{}");
    assert!(matches!(refuse(without(post(), "host")), ControlFault::Host));
    assert!(matches!(refuse(without(post(), "origin")), ControlFault::Origin));
    assert!(matches!(refuse(without(post(), "content-type")), ControlFault::ContentType));
    assert!(matches!(refuse(without(post(), "content-length")), ControlFault::NoContentLength));
    assert!(matches!(refuse(without(post(), "x-unionc-tray")), ControlFault::Marker));
    assert!(matches!(refuse(without(post(), "authorization")), ControlFault::Bearer));
    assert!(matches!(
        refuse(request("POST", "/session", Some(&secret), b"")),
        ControlFault::SessionBody
    ));
    assert!(matches!(refuse(request("GET", "/", None, b"x")), ControlFault::GetWithBody));
    assert!(matches!(refuse(request("GET", "/x", None, b"")), ControlFault::UnknownRoute));
    assert!(matches!(find_route(&request("GET", "/", None, b""), ORIGIN), Ok(Route::Page)));
    assert!(matches!(
        find_route(&request("GET", "/app.js", None, b""), ORIGIN),
        Ok(Route::Script)
    ));
    let mut secrets = ControlSecrets {
        bootstrap: vec![Ticket { secret: secret.clone(), expires: 1_000 }],
        sessions: (0..MAX_TICKETS)
            .map(|index| Ticket { secret: index.to_string(), expires: 1_000 })
            .collect(),
    };
    assert!(matches!(
        route_request(
            &request("POST", "/session", Some(&secret), b"{}"),
            ORIGIN,
            &mut secrets,
            "b".repeat(64),
            1
        ),
        Err(ControlFault::TooManySessions)
    ));
}

#[test]
fn errors_are_told_to_the_page_by_their_kind() {
    assert_eq!(local_api_error("local session has expired").status, "401 Unauthorized");
    assert_eq!(local_api_error(pairing_busy()).code, "operation_conflict");
    assert_eq!(
        local_api_error("UnionCAgent service is not installed").status,
        "503 Service Unavailable"
    );
    let other = local_api_error("a plain fault");
    assert_eq!(other.status, "400 Bad Request");
    assert_eq!(other.message, "a plain fault");
}

#[test]
fn tickets_are_spent_and_expire() {
    let mut tickets = Vec::new();
    assert!(issue(&mut tickets, "one".into(), 0, BOOTSTRAP_LIFETIME));
    assert!(redeem(&mut tickets, "one", 1));
    assert!(!redeem(&mut tickets, "one", 2));
    assert!(issue(&mut tickets, "two".into(), 0, 10));
    assert!(admits(&mut tickets, "two", 9));
    assert!(!admits(&mut tickets, "two", 10));
    assert!(issue(&mut tickets, "three".into(), 0, 10));
    withdraw(&mut tickets, "three");
    assert!(!admits(&mut tickets, "three", 1));
    for index in 0..MAX_TICKETS {
        assert!(issue(&mut tickets, index.to_string(), 0, 10));
    }
    assert!(!issue(&mut tickets, "more".into(), 0, 10));
    assert!(constant_time_eq(&b"ab".to_vec(), &b"ab".to_vec()));
    assert!(!constant_time_eq(&b"ab".to_vec(), &b"ac".to_vec()));
    assert!(!constant_time_eq(&b"ab".to_vec(), &b"abc".to_vec()));
}

#[test]
fn operations_are_kept_up_to_a_limit() {
    let mut operations: Vec<BrowserOperation> = Vec::new();
    let id = |index: usize| format!("{index:064x}");
    for index in 0..=MAX_OPERATIONS {
        create_operation(
            &mut operations,
            id(index),
            OperationKind::Pair,
            OperationPhase::AwaitingUac,
            "m".into(),
        );
        if index == 5 {
            update_operation(
                &mut operations,
                &id(5),
                OperationPhase::Failed,
                "f".into(),
                Some(false),
            );
        }
    }
    assert_eq!(operations.len(), MAX_OPERATIONS);
    assert_eq!(find_operation(&operations, &id(5)), Err(OperationFault::NotFound));
    assert_eq!(find_operation(&operations, &id(0)), Ok(0), "one that ended goes first");
    assert_eq!(find_operation(&operations, "x"), Err(OperationFault::InvalidId));
    update_operation(
        &mut operations,
        &id(0),
        OperationPhase::Completed,
        "done".into(),
        Some(true),
    );
    assert!(operations[0].terminal);
    assert_eq!(operations[0].success, Some(true));
    assert_eq!(operations[0].phase.name(), "completed");
}

#[test]
fn pairing_slot_stays_exclusive_for_the_full_worker_lifetime() {
    let mut slot = Slot { taken: false };
    assert!(slot.claim());
    assert!(!slot.claim());
    slot.release();
    assert!(slot.claim());
}

#[test]
fn a_pairing_ends_in_one_of_three_ways() {
    let done = pairing_end(&Ok("运行中".into()));
    assert_eq!(done.phase, OperationPhase::Completed);
    assert!(done.success && done.message.ends_with("运行中"));
    let early = ServeFault::ExitedEarly { code: 0 }.message("");
    let called_off = pairing_end(&Err((early, "short".into())));
    assert_eq!(called_off.phase, OperationPhase::Cancelled);
    assert!(!called_off.show_error);
    let failed = pairing_end(&Err(("long".into(), "short".into())));
    assert_eq!(failed.message, "配对失败：short");
    assert!(failed.show_error);
}

// ---------------------------------------------------------------------------
// The probe of the server
// ---------------------------------------------------------------------------
fn strict_health(body: &str) -> Option<ServerHealth> {
    let value: serde_json::Value = serde_json::from_str(body).ok()?;
    let fields = value.as_object()?;
    let names: Vec<&str> = fields.keys().map(String::as_str).collect();
    if names.iter().any(|name| !["status", "version", "uptime_seconds"].contains(name)) {
        return None;
    }
    fields.get("uptime_seconds")?.as_u64()?;
    Some(ServerHealth {
        status: fields.get("status")?.as_str()?.into(),
        version: fields.get("version")?.as_str()?.into(),
    })
}

fn probe_health_response(
    status: u16,
    content_type: Option<&str>,
    body: &str,
) -> ServerConnectionStatus {
    judge_answer(
        HealthAnswer {
            status,
            content_type: content_type.map(ToString::to_string),
            body_bytes: Some(body.len() as u64),
            health: strict_health(body),
        },
        7,
    )
}

fn probe_health_body(body: &str) -> ServerConnectionStatus {
    probe_health_response(200, Some("application/json"), body)
}

#[test]
fn connection_probe_distinguishes_unconfigured_and_healthy_server() {
    let unconfigured = match start_probe("") {
        ProbeStart::Settled(status) => status,
        ProbeStart::Ask { .. } => panic!("there is nothing to ask"),
    };
    assert_eq!(unconfigured.status.name(), "unconfigured");
    assert!(unconfigured.version.is_none());

    let healthy = probe_health_body(&format!(
        r#"{{"status":"ok","version":"{VERSION}","uptime_seconds":1}}"#
    ));
    assert_eq!(healthy.status.name(), "online");
    assert_eq!(healthy.version.as_deref(), Some(VERSION));
    assert!(healthy.latency_ms.is_some());
}

#[test]
fn connection_probe_rejects_missing_or_mismatched_server_version() {
    let missing = probe_health_body(r#"{"status":"ok","uptime_seconds":1}"#);
    assert_eq!(missing.status.name(), "offline");
    assert!(missing.version.is_none());
    assert_eq!(
        missing.message,
        "Server 未返回可用的 UnionC 健康状态（格式或版本信息无效）"
    );

    let mismatched = probe_health_body(
        r#"{"status":"ok","version":"incompatible-test-version","uptime_seconds":1}"#,
    );
    assert_eq!(mismatched.status.name(), "offline");
    assert_eq!(mismatched.version.as_deref(), Some("incompatible-test-version"));
    assert!(mismatched.message.contains("版本不匹配"));
    assert!(mismatched.message.contains(VERSION));
}

#[test]
fn connection_probe_rejects_non_unionc_success_response() {
    let invalid = probe_health_body("<html>not UnionC</html>");
    assert_eq!(invalid.status.name(), "offline");
    assert!(invalid.message.contains("UnionC"));

    let current_body =
        format!(r#"{{"status":"ok","version":"{VERSION}","uptime_seconds":1}}"#);
    let wrong_status = probe_health_response(204, Some("application/json"), &current_body);
    assert_eq!(wrong_status.status.name(), "offline");
    assert!(wrong_status.message.contains("204"));

    for content_type in [None, Some("text/plain"), Some("application/vnd.unionc+json")] {
        let wrong_type = probe_health_response(200, content_type, &current_body);
        assert_eq!(wrong_type.status.name(), "offline");
        assert!(wrong_type.message.contains("Content-Type"));
    }
}

#[test]
fn a_probe_asks_the_servers_health() {
    match start_probe("https://server.example") {
        ProbeStart::Ask { url } => assert_eq!(url, "https://server.example/api/health"),
        ProbeStart::Settled(status) => panic!("{status:?}"),
    }
    match start_probe("nonsense") {
        ProbeStart::Settled(status) => assert_eq!(status.status, ConnectionState::Offline),
        ProbeStart::Ask { url } => panic!("{url}"),
    }
    assert_eq!(probe_failed(ProbeFailure::Timeout).message, "Server 连接超时");
    assert!(is_application_json("Application/JSON; charset=utf-8"));
    assert!(!is_application_json("application/jsonx"));
    assert_eq!(elapsed_milliseconds(1_999_999), 1);
    assert_eq!(elapsed_milliseconds(u128::MAX), u64::MAX);
}

// ---------------------------------------------------------------------------
// The pipe, and secrets
// ---------------------------------------------------------------------------
#[test]
fn frames_are_read_back() {
    let frame = pipe_frame(&b"abc".to_vec()).unwrap();
    assert_eq!(frame, vec![3, 0, 0, 0, b'a', b'b', b'c']);
    assert_eq!(pipe_body_length(&frame[..4].to_vec(), 16), Some(3));
    assert_eq!(pipe_body_length(&vec![17, 0, 0, 0], 16), None);
    assert_eq!(pipe_body_length(&vec![0, 0, 0, 0], 16), Some(0));
}

#[test]
fn keys_are_read_once_and_erased() {
    let mut code = SensitiveActivationCode::new("ключ".into());
    assert_eq!(code.as_bytes(), "ключ".as_bytes());
    assert_eq!(code.as_text(), Some("ключ"));
    code.wipe();
    assert!(code.as_bytes().iter().all(|byte| *byte == 0));
    let read = read_tray_activation_code(b"abc".to_vec(), Ok(())).ok().unwrap();
    assert_eq!(read.as_text(), Some("abc"));
    assert!(matches!(read_tray_activation_code(vec![0xff], Ok(())), Err(KeyFault::NotUtf8)));
    assert!(matches!(
        read_tray_activation_code(vec![b'a'; MAX_KEY_BYTES + 1], Ok(())),
        Err(KeyFault::TooLong)
    ));
}

#[test]
fn the_form_of_a_key_is_judged_last() {
    let refused = || Err("no key".to_string());
    assert!(matches!(
        read_tray_activation_code(b"abc\r\n".to_vec(), refused()),
        Err(KeyFault::Form(why)) if why == "no key"
    ));
    assert!(matches!(read_tray_activation_code(vec![0xff], refused()), Err(KeyFault::NotUtf8)));
    assert!(matches!(
        read_tray_activation_code(vec![b'a'; MAX_KEY_BYTES + 1], refused()),
        Err(KeyFault::TooLong)
    ));
    let key = received_key(b"abc\r\n".to_vec()).ok().unwrap();
    assert_eq!(accept_key(key, Ok(())).ok().unwrap().as_text(), Some("abc"));
    let key = received_key(b"abc".to_vec()).ok().unwrap();
    let fault = accept_key(key, refused()).err().unwrap();
    assert_eq!(fault.message(), "no key");
}

#[test]
fn the_helper_waits_for_the_pipe_and_judges_the_answer() {
    let deadline = connect_deadline(5);
    assert_eq!(deadline, 10_000_000_005);
    assert_eq!(pipe_connect(PipeFault::Busy, 10_000_000_004, deadline), ConnectStep::Wait);
    assert_eq!(pipe_connect(PipeFault::Absent, 5, deadline), ConnectStep::Wait);
    assert_eq!(pipe_connect(PipeFault::Absent, 10_000_000_005, deadline), ConnectStep::Fail);
    assert_eq!(pipe_connect(PipeFault::Other, 5, deadline), ConnectStep::Fail);
    assert!(check_message(16, 16).is_ok());
    let fault = check_message(17, 16).unwrap_err();
    assert_eq!(fault.message(), "pairing IPC message is too large");
    assert_eq!(
        ExchangeFault::Unreachable("5".into()).message(),
        "could not connect to the protected tray pipe: 5"
    );
    assert_eq!(exchanged_key(b"abc\n".to_vec(), Ok(())).ok().unwrap().as_bytes(), b"abc\n");
    assert!(matches!(exchanged_key(vec![0xff], Ok(())), Err(ExchangeFault::NotUtf8)));
    assert!(matches!(
        exchanged_key(b"abc".to_vec(), Err("no key".into())),
        Err(ExchangeFault::Form(why)) if why == "no key"
    ));
}

#[test]
fn the_agent_inherits_no_environment() {
    let expected: Vec<(String, String)> = [
        ("SystemRoot", "C:\\Windows"),
        ("WINDIR", "C:\\Windows"),
        ("PROGRAMDATA", "C:\\ProgramData"),
        ("UNIONC_AGENT_STATE_DIR", "C:\\ProgramData\\UnionC Agent"),
    ]
    .into_iter()
    .map(|(name, value)| (name.to_string(), value.to_string()))
    .collect();
    assert_eq!(agent_environment("C:\\Windows", "C:\\ProgramData"), expected);
}

#[test]
fn an_agent_that_is_left_behind_is_ended() {
    let mut guard = PairChildGuard::new();
    assert_eq!(guard.leave(1_000), GuardStep::Cancel);
    let limit = 1_000 + 30_000_000_000;
    assert_eq!(guard.look(ProcessLook::Running, limit - 1), GuardStep::Rest);
    assert_eq!(guard.look(ProcessLook::Running, limit), GuardStep::Kill);
    assert_eq!(guard.look(ProcessLook::Failed, 1_000), GuardStep::Kill);
    assert_eq!(guard.look(ProcessLook::Exited, limit), GuardStep::Done);
    let mut known = PairChildGuard::new();
    known.disarm();
    assert_eq!(known.leave(1_000), GuardStep::Done);
}

#[test]
fn preferences_are_good_or_refused() {
    let found = |server: &str, name: Result<Option<String>, String>| PreferencesFile::Found {
        length: MAX_PREFERENCES_BYTES,
        held: Ok(StoredPreferences { server: server.into(), name }),
    };
    let none = load_preferences(PreferencesFile::Missing).unwrap();
    assert!(none.server.is_empty() && none.name.is_none());
    let loaded = load_preferences(found("https://Server.Example/", Ok(Some("host".into()))));
    let loaded = loaded.unwrap();
    assert_eq!(loaded.server, SERVER);
    assert_eq!(loaded.name.as_deref(), Some("host"));
    assert!(load_preferences(found("", Ok(None))).unwrap().server.is_empty());
    assert!(matches!(
        load_preferences(found("nonsense", Err("name".into()))),
        Err(PreferencesFault::Server(_))
    ));
    assert!(matches!(
        load_preferences(found(SERVER, Err("name".into()))),
        Err(PreferencesFault::Name(why)) if why == "name"
    ));
    assert!(matches!(
        load_preferences(PreferencesFile::Unreadable("denied".into())),
        Err(PreferencesFault::Unreadable(why)) if why == "denied"
    ));
    let large = PreferencesFile::Found {
        length: MAX_PREFERENCES_BYTES + 1,
        held: Err("no JSON".into()),
    };
    assert_eq!(
        load_preferences(large).unwrap_err().message(),
        "tray preferences file is too large"
    );
    let broken = PreferencesFile::Found { length: 1, held: Err("no JSON".into()) };
    assert_eq!(load_preferences(broken).unwrap_err().message(), "tray preferences are invalid");
}

#[test]
fn secrets_are_random_and_written_in_hexadecimal() {
    assert_eq!(hex_text(&vec![0, 0x1f, 0xa0, 0xff]), "001fa0ff");
    let secret = random_secret();
    assert_eq!(secret.len(), 64);
    assert!(validate_callback_nonce(&secret));
    assert_ne!(secret, random_secret());
    assert_ne!(secret, "0".repeat(64));
}

#[test]
fn preferences_are_small_and_name_a_server() {
    assert!(preferences_readable(16_384));
    assert!(!preferences_readable(16_385));
    assert_eq!(remembered_server("https://host.example/").unwrap(), "https://host.example");
    assert_eq!(remembered_server("").unwrap(), "");
    assert!(remembered_server("nonsense").is_err());
    assert_eq!(server_to_probe("a".into(), "b".into()), "a");
    assert_eq!(server_to_probe("".into(), "b".into()), "b");
}

// ---------------------------------------------------------------------------
// The broker
// ---------------------------------------------------------------------------
#[test]
fn the_key_goes_to_the_launched_helper_alone() {
    let (mut run, action) = ServeRun::start(7, 0);
    assert_eq!(action, ServeAction::Connect);
    assert_eq!(
        run.step(ServeEvent::Connect(ConnectLook::Connected), 0),
        ServeAction::IdentifyClient
    );
    assert_eq!(run.step(ServeEvent::Client { pid: 7 }, 0), ServeAction::ReadMessage);
    assert_eq!(run.step(ServeEvent::Message, 0), ServeAction::SendKey);
    assert_eq!(
        run.step(ServeEvent::Sent, 0),
        ServeAction::EraseAndAwait { milliseconds: BROKER_EXIT_MILLISECONDS }
    );
    assert_eq!(
        run.step(ServeEvent::Broker(BrokerLook::Exited { code: 0 }), 0),
        ServeAction::Finish
    );
    assert_eq!(
        BROKER_EXIT_MILLISECONDS,
        (PAIR_OPERATION_SECONDS + PAIR_BROKER_EXIT_GRACE_SECONDS) * 1000
    );

    let (mut run, _) = ServeRun::start(7, 0);
    run.step(ServeEvent::Connect(ConnectLook::Connected), 0);
    assert_eq!(
        run.step(ServeEvent::Client { pid: 8 }, 0),
        ServeAction::Fail(ServeFault::OtherClient)
    );
}

#[test]
fn a_helper_that_does_not_come_is_waited_for_in_vain() {
    let (mut run, _) = ServeRun::start(7, 0);
    assert_eq!(
        run.step(ServeEvent::Connect(ConnectLook::Listening), 0),
        ServeAction::LookAtBroker
    );
    assert_eq!(run.step(ServeEvent::Broker(BrokerLook::Running), 0), ServeAction::Rest);
    assert_eq!(run.step(ServeEvent::Rested, 0), ServeAction::Connect);
    run.step(ServeEvent::Connect(ConnectLook::Listening), 0);
    let late = PAIR_OPERATION_SECONDS * SECOND;
    assert_eq!(
        run.step(ServeEvent::Broker(BrokerLook::Running), late),
        ServeAction::Fail(ServeFault::TimedOut)
    );
    let (_, action) = ServeRun::start(0, 0);
    assert_eq!(action, ServeAction::Fail(ServeFault::NoBroker));
}

#[test]
fn the_slot_is_released_before_the_news_are_told() {
    let (mut work, action) = BrowserWork::start(Work::Pair);
    let mut taken = vec![action];
    taken.push(work.step(WorkEvent::Claimed(true)));
    assert!(work.holds_slot);
    for _ in 0..5 {
        taken.push(work.step(WorkEvent::Done));
    }
    assert_eq!(
        taken,
        vec![
            WorkAction::Claim,
            WorkAction::OpenPipe,
            WorkAction::Launch,
            WorkAction::Remember(OperationKind::Pair),
            WorkAction::Announce(OperationPhase::Pairing),
            WorkAction::Serve,
            WorkAction::SavePreferences,
        ]
    );
    assert_eq!(work.step(WorkEvent::Done), WorkAction::Release);

    let (mut work, _) = BrowserWork::start(Work::Service(ServiceAction::Stop));
    assert_eq!(work.step(WorkEvent::Claimed(false)), WorkAction::Refuse);
}

#[test]
fn the_helper_asks_before_it_pairs() {
    let (mut helper, action) = HelperRun::start();
    assert_eq!(action, HelperAction::CheckRights);
    assert_eq!(helper.step(HelperEvent::Done), HelperAction::Claim);
    assert_eq!(helper.step(HelperEvent::Claimed(true)), HelperAction::Validate);
    assert_eq!(helper.step(HelperEvent::Done), HelperAction::Ask);
    let mut refused = helper;
    assert_eq!(
        refused.step(HelperEvent::Answered(Consent::Refused)),
        HelperAction::Finish
    );
    assert_eq!(helper.step(HelperEvent::Answered(Consent::Given)), HelperAction::Settle);
    assert_eq!(helper.step(HelperEvent::Settled(ServiceState::Running)), HelperAction::Pair);
    let mut failed = helper;
    assert_eq!(
        failed.step(HelperEvent::Failed),
        HelperAction::NotPaired { was: ServiceState::Running }
    );
    assert_eq!(helper.step(HelperEvent::Done), HelperAction::StopService);
    assert_eq!(helper.step(HelperEvent::Done), HelperAction::StartService);
    assert_eq!(helper.step(HelperEvent::Done), HelperAction::Finish);
    assert!(confirmation_text(SERVER, Some("host")).contains("host"));
    assert!(confirmation_text(SERVER, None).contains(SERVER));
    assert!(!not_paired_text(ServiceState::Running).is_empty());
}

// ---------------------------------------------------------------------------
// The service, and the window
// ---------------------------------------------------------------------------
#[test]
fn orders_go_to_the_opposite_state() {
    assert_eq!(
        plan_service(ServiceAction::Start, ServiceState::Stopped),
        ServiceMove::Order
    );
    assert_eq!(plan_service(ServiceAction::Stop, ServiceState::Stopped), ServiceMove::Done);
    assert_eq!(
        plan_service(ServiceAction::Stop, ServiceState::StopPending),
        ServiceMove::Wait
    );
    assert_eq!(
        plan_service(ServiceAction::Stop, ServiceState::Other(7)),
        ServiceMove::Refuse
    );
    assert_eq!(ServiceAction::named("stop"), Some(ServiceAction::Stop));
    assert_eq!(ServiceAction::named("restart"), None);
    assert_eq!(ServiceState::from_number(4), ServiceState::Running);
    assert_eq!(offered_action(Some(ServiceState::Running)), ServiceAction::Stop);
    assert_eq!(offered_action(None), ServiceAction::Start);
    assert_eq!(tray_tooltip(None), "UnionC Agent · 服务状态不可用");
    let (running, stopped) = (ServiceState::Running, ServiceState::Stopped);
    assert_eq!(await_state(running, running, 9, 1), WaitStep::Reached);
    assert_eq!(await_state(stopped, running, 0, 1), WaitStep::Again);
    assert_eq!(await_state(stopped, running, 1, 1), WaitStep::TimedOut);
    assert_eq!(await_stable(ServiceState::StartPending, 0, 1), WaitStep::Again);
    assert_eq!(await_stable(ServiceState::StartPending, 1, 1), WaitStep::TimedOut);
}

#[test]
fn a_helper_succeeds_only_where_the_service_moved() {
    let judge = |ended, code, state| judge_helper(ServiceAction::Start, ended, code, state);
    assert_eq!(judge(true, 0, ServiceState::Running), HelperVerdict::Done);
    assert_eq!(judge(false, 0, ServiceState::Running), HelperVerdict::TimedOut);
    assert_eq!(judge(true, 5, ServiceState::Running), HelperVerdict::ExitCode(5));
    assert_eq!(judge(true, 0, ServiceState::Stopped), HelperVerdict::NotReached);
}

#[test]
fn a_fixed_field_keeps_its_end() {
    let mut field = vec![0; 4];
    copy_wide_fixed(&mut field, &vec![1, 2, 3, 4, 5]);
    assert_eq!(field, vec![1, 2, 3, 0]);
    let mut empty = vec![];
    copy_wide_fixed(&mut empty, &vec![1]);
    assert!(empty.is_empty());
}

#[test]
fn the_tray_leaves_once_its_service_has_stopped() {
    let mut exit = ExitFlow { pending: false };
    assert_eq!(exit.handle(WindowEvent::ServiceStopped), WindowAction::Nothing);
    assert!(exit.request());
    assert!(!exit.request());
    assert_eq!(exit.handle(WindowEvent::ServiceStopped), WindowAction::CheckExit);
    assert!(!exit.pending);
    assert_eq!(check_exit(Some(ServiceState::Stopped)), ExitCheck::Leave);
    assert_eq!(
        check_exit(Some(ServiceState::Running)),
        ExitCheck::Stay(ServiceState::Running)
    );
    assert_eq!(check_exit(None), ExitCheck::Unknown);
    assert!(still_running_text(ServiceState::Running).contains("托盘将继续运行"));
    assert_eq!(
        handle_tray_command(COMMAND_SERVICE, ServiceAction::Stop),
        MenuChoice::ChangeService(ServiceAction::Stop)
    );
    assert_eq!(
        handle_tray_command(COMMAND_EXIT, ServiceAction::Stop),
        MenuChoice::ConfirmExit
    );
    assert_eq!(handle_tray_command(0, ServiceAction::Stop), MenuChoice::Nothing);
}

#[test]
fn the_page_is_opened_with_its_ticket() {
    assert_eq!(
        configuration_address(ORIGIN, "t", "pair").as_deref(),
        Some("http://127.0.0.1:4321/#t:pair")
    );
    assert_eq!(configuration_address(ORIGIN, "t", "other"), None);
    assert!(admits_connection(15));
    assert!(!admits_connection(16));
}

// ---------------------------------------------------------------------------
// With an administrator's rights
// ---------------------------------------------------------------------------
#[test]
fn a_service_is_ordered_once_and_waited_for() {
    let (mut change, step) = ServiceChange::start(ServiceAction::Stop);
    assert_eq!(step, ChangeStep::Query);
    assert_eq!(
        change.step(ChangeEvent::State(ServiceState::Running), 0),
        ChangeStep::Order(ServiceAction::Stop)
    );
    assert_eq!(change.step(ChangeEvent::Ordered, 5), ChangeStep::Query);
    let pending = ChangeEvent::State(ServiceState::StopPending);
    let late = 5 + SERVICE_CHANGE_SECONDS * SECOND;
    assert_eq!(change.step(pending, late - 1), ChangeStep::Rest);
    let mut stuck = change;
    match stuck.step(pending, late) {
        ChangeStep::Fail(fault) => assert!(fault.message().starts_with("timed out waiting")),
        other => panic!("{other:?}"),
    }
    assert_eq!(
        change.step(ChangeEvent::State(ServiceState::Stopped), late),
        ChangeStep::Finish
    );

    let (mut change, _) = ServiceChange::start(ServiceAction::Start);
    assert_eq!(
        change.step(ChangeEvent::State(ServiceState::Running), 0),
        ChangeStep::Finish
    );
    let (mut change, _) = ServiceChange::start(ServiceAction::Start);
    assert_eq!(
        change.step(ChangeEvent::State(ServiceState::Other(7)), 0),
        ChangeStep::Fail(ChangeFault::Cannot {
            action: ServiceAction::Start,
            state: ServiceState::Other(7)
        })
    );
    let (mut change, _) = ServiceChange::start(ServiceAction::Start);
    assert_eq!(change.step(ChangeEvent::Failed, 0), ChangeStep::FailWithError);
}

#[test]
fn the_elevated_helper_works_alone() {
    let start = || {
        let (mut run, action) = ElevatedRun::start(ElevatedWork::StopForExit);
        assert_eq!(action, ElevatedAction::CheckRights);
        assert_eq!(run.step(ElevatedEvent::Done), ElevatedAction::Claim);
        run
    };
    assert_eq!(start().step(ElevatedEvent::Claimed(false)), ElevatedAction::Busy);
    let mut run = start();
    assert_eq!(
        run.step(ElevatedEvent::Claimed(true)),
        ElevatedAction::Change(ServiceAction::Stop)
    );
    assert_eq!(run.step(ElevatedEvent::Done), ElevatedAction::Query);
    let mut restarted = run;
    assert_eq!(
        restarted.step(ElevatedEvent::State(ServiceState::Running)),
        ElevatedAction::NotStopped
    );
    assert_eq!(
        run.step(ElevatedEvent::State(ServiceState::Stopped)),
        ElevatedAction::Finish
    );

    let work = ElevatedWork::Service { action: ServiceAction::Start, notify: true };
    let (mut run, _) = ElevatedRun::start(work);
    run.step(ElevatedEvent::Done);
    run.step(ElevatedEvent::Claimed(true));
    assert_eq!(
        run.step(ElevatedEvent::Done),
        ElevatedAction::Tell(ServiceAction::Start)
    );
    assert_eq!(changed_text(ServiceAction::Start), "UnionC Agent 服务已启动。");
}

#[test]
fn an_exit_is_called_off_by_any_failure() {
    for good in 0..3 {
        let mut flow = ExitFlow { pending: false };
        let (mut stop, action) = StopAndExit::start(&mut flow);
        assert_eq!(action, StopAction::Launch);
        let mut expected = [StopAction::AwaitHelper, StopAction::Post].iter();
        for _ in 0..good {
            assert_eq!(Some(&stop.step(&mut flow, true)), expected.next());
            assert!(flow.pending);
        }
        let failure = [
            StopAction::FailWithError,
            StopAction::ShowNotStopped,
            StopAction::ShowNotTold,
        ][good];
        assert_eq!(stop.step(&mut flow, false), failure);
        assert!(!flow.pending);
    }
    let mut flow = ExitFlow { pending: true };
    assert_eq!(StopAndExit::start(&mut flow).1, StopAction::Refuse);
    assert!(exit_busy().contains("已经在进行中"));
    assert!(not_stopped_text("why").ends_with("\n\nwhy"));
    assert!(not_told_text().contains("无法通知"));
}

#[test]
fn a_pairing_helper_is_told_what_the_user_chose() {
    assert_eq!(
        elevated_pair_arguments("c2VydmVy", Some("bmFtZQ"), "nonce"),
        vec![
            "--elevated-pair",
            "--server-b64",
            "c2VydmVy",
            "--name-b64",
            "bmFtZQ",
            "--callback-nonce",
            "nonce"
        ]
    );
    assert_eq!(elevated_pair_arguments("s", None, "n").len(), 5);
}

// ---------------------------------------------------------------------------
// Words
// ---------------------------------------------------------------------------
#[test]
fn every_refusal_of_the_tray_has_its_words() {
    for (fault, words) in [
        (TrayFault::Section, "invalid local page section"),
        (TrayFault::TooManyTickets, "too many pending local browser sessions"),
        (TrayFault::ServiceAction, "service action must be start or stop"),
        (TrayFault::Nonce, "invalid pairing pipe nonce"),
        (TrayFault::FrameTooLarge, "pairing pipe frame is too large"),
        (TrayFault::FrameOverLimit, "pairing pipe frame exceeds its size limit"),
        (TrayFault::PreferencesTooLarge, "tray preferences file is too large"),
        (TrayFault::NotStable, "timed out waiting for the Agent service to become stable"),
        (
            TrayFault::NotElevated,
            "this internal operation requires Windows administrator elevation",
        ),
    ] {
        assert_eq!(fault.message(), words);
    }
    assert_eq!(
        ServeFault::Connection.message("ERROR"),
        "protected pairing pipe connection failed: ERROR"
    );
    assert_eq!(
        ServeFault::NoExit.message("WAIT_TIMEOUT"),
        "timed out or failed while waiting for the elevated pairing broker (WAIT_TIMEOUT)"
    );
    assert_eq!(busy_error().code, "local_control_busy");
}

#[test]
fn the_page_is_told_how_its_work_goes() {
    assert_eq!(awaiting_text(), "请确认 Windows 用户账户控制提示");
    assert_eq!(progress_text(Work::Pair), "正在创建请求、提交授权并等待 Server 确认");
    assert_eq!(progress_text(Work::Service(ServiceAction::Stop)), "正在停止 Agent 服务");
    assert!(accepted_text(Work::Pair).contains("授权密钥"));
    assert_eq!(
        accepted_text(Work::Service(ServiceAction::Start)),
        "请确认 Windows 用户账户控制提示。"
    );
    assert!(pairing_failed_notice().starts_with("UnionC Agent 配对失败"));
    assert!(not_saved_text().contains("preferences"));
    let done = service_end(ServiceAction::Stop, &Ok(()));
    assert_eq!(done.message, "Agent 服务已停止；下次开机仍会自动启动");
    assert!(done.success);
    let failed = service_end(ServiceAction::Stop, &Err("why".into()));
    assert_eq!(failed.message, "服务操作失败：why");
    assert_eq!(failed.phase, OperationPhase::Failed);
    assert!(!failed.show_error);
    assert!(service_busy().contains("服务操作正在进行中"));
}

#[test]
fn the_helpers_end_with_their_own_words() {
    assert_eq!(
        helper_error_text(HelperAction::NoQuestion(-7)).as_deref(),
        Some("Windows could not display the pairing confirmation (result -7)")
    );
    assert_eq!(
        helper_error_text(HelperAction::NoQuestion(i32::MIN)).as_deref(),
        Some("Windows could not display the pairing confirmation (result -2147483648)")
    );
    assert_eq!(
        helper_error_text(HelperAction::Busy).as_deref(),
        Some("another UnionC Agent pairing operation is already running")
    );
    assert!(helper_error_text(HelperAction::Unsupported(ServiceState::Other(7))).is_some());
    assert_eq!(helper_error_text(HelperAction::Finish), None);
    assert_eq!(
        helper_context(HelperPhase::Starting),
        Some("pairing succeeded but the Agent service could not be restarted")
    );
    assert_eq!(helper_context(HelperPhase::Asking), None);
    assert_eq!(
        elevated_error_text(ElevatedAction::NotStopped),
        Some("Agent service did not remain stopped")
    );
    assert_eq!(elevated_error_text(ElevatedAction::Finish), None);
    let told = |verdict| verdict_error_text(verdict, ServiceAction::Start, "WAIT_TIMEOUT");
    assert_eq!(told(HelperVerdict::Done), None);
    assert_eq!(
        told(HelperVerdict::TimedOut).as_deref(),
        Some("timed out or failed while waiting for the elevated stop operation (WAIT_TIMEOUT)")
    );
    assert_eq!(
        told(HelperVerdict::ExitCode(5)).as_deref(),
        Some("elevated stop operation failed with exit code 5")
    );
    assert_eq!(
        told(HelperVerdict::NotReached),
        Some(format!(
            "elevated service operation exited without reaching {}",
            ServiceState::Running.label()
        ))
    );
    let service = |notify| ElevatedWork::Service { action: ServiceAction::Stop, notify };
    assert_eq!(elevated_service_arguments(service(true)), vec!["--elevated-service", "stop"]);
    assert_eq!(
        elevated_service_arguments(service(false)),
        vec!["--elevated-service-browser", "stop"]
    );
    assert_eq!(
        elevated_service_arguments(ElevatedWork::StopForExit),
        vec!["--elevated-stop-for-exit"]
    );
}
