use unionc_agent::arguments::{
    parse_arguments, select_command, validate_pairing_control_invocation,
    validate_tray_cancel_event, validate_windows_service_invocation,
    validate_windows_service_position, ArgumentFault, Argument, Request,
};
use unionc_agent::config::{
    default_config_path, default_state_dir, non_empty, parse_bool, private_config_content,
    select_config_path, AgentCommand, AgentConfig, ConfigFault, Environment, OutputMode, MAX_REPORT_INTERVAL_SECONDS,
    MIN_REPORT_INTERVAL_MILLISECONDS,
};
use unionc_agent::endpoint::{
    is_loopback_host, origin_of, read_url, takes_path, trim_slashes, url_with_path, validate_endpoint,
    validate_pairing_endpoint, validate_persisted_pairing_transport, validate_server_base,
    EndpointFault, PairingEndpointFault, ServerFault, TransportFault, UrlParts,
};
use unionc_agent::platform::{agent_version_output, package_version, Build, Platform};

const LINUX: Build = Build { platform: Platform::Linux, otlp: false };
const LINUX_OTLP: Build = Build { platform: Platform::Linux, otlp: true };
const WINDOWS: Build = Build { platform: Platform::Windows, otlp: false };
const MACOS: Build = Build { platform: Platform::Macos, otlp: false };

const DEFAULT_ENDPOINT: &str = "http://127.0.0.1:8081/api/modules/host-monitoring/agent/v1/report";

fn words(given: &[&str]) -> Vec<String> {
    given.iter().map(|word| word.to_string()).collect()
}

fn no_environment() -> Environment {
    Environment {
        endpoint: None,
        pairing_endpoint: None,
        otlp_endpoint: None,
        otlp_token: None,
        state_dir: None,
        interval_seconds: None,
        slow_interval_seconds: None,
        tls_identity_pem: None,
        tls_identity_pkcs12: None,
        tls_identity_password: None,
        tls_ca_pem: None,
        allow_insecure_http: None,
    }
}

#[test]
fn package_version_output_is_exact() {
    assert_eq!(agent_version_output(), "unionc-agent 0.3.2");
    assert_eq!(package_version(), "0.3.2");
}

#[test]
fn selecting_more_than_one_command_is_rejected() {
    let mut selected = None;
    select_command(&mut selected, AgentCommand::Run, "run").unwrap();
    let error = select_command(&mut selected, AgentCommand::Probe, "probe")
        .expect_err("a second command must not override the first one");
    assert!(error.message().contains("multiple commands"));
    assert_eq!(selected, Some(AgentCommand::Run));
}

#[test]
fn explicit_missing_or_non_regular_config_is_lenient_only_for_status() {
    for (path, cause) in [
        ("/tmp/unionc/missing-config.json", "No such file or directory"),
        ("/tmp/unionc/directory-config", "config path is not a regular file"),
    ] {
        for command in [
            AgentCommand::Run,
            AgentCommand::Once,
            AgentCommand::Probe,
            AgentCommand::Pair,
            AgentCommand::Doctor,
        ] {
            let error = AgentConfig::load_selected_config(
                Some(path),
                Err(cause.to_string()),
                command,
                AgentConfig::default(),
            )
            .err()
            .expect("an explicit unusable config must stop non-status commands");
            assert!(error.message().contains(path));
        }

        let (config, issue) = AgentConfig::load_selected_config(
            Some(path),
            Err(cause.to_string()),
            AgentCommand::Status,
            AgentConfig::default(),
        )
        .ok()
        .expect("status must remain available for configuration diagnostics");
        assert_eq!(config.endpoint, DEFAULT_ENDPOINT);
        assert!(issue.as_deref().is_some_and(|message| message.contains(path)));
    }
}

#[test]
fn windows_service_flag_is_platform_gated() {
    let linux = Platform::Linux;
    assert!(validate_windows_service_invocation(false, AgentCommand::Run, linux).is_ok());
    assert!(validate_windows_service_invocation(true, AgentCommand::Run, linux).is_err());
    let windows = Platform::Windows;
    assert!(validate_windows_service_invocation(true, AgentCommand::Run, windows).is_ok());
    assert!(validate_windows_service_invocation(true, AgentCommand::Probe, windows).is_err());
}

#[test]
fn windows_service_flag_must_be_the_first_user_argument() {
    assert!(validate_windows_service_position(1).is_ok());
    assert!(validate_windows_service_position(2).is_err());
    assert!(validate_windows_service_position(3).is_err());
}

#[test]
fn explicit_pairing_replacement_is_public_but_pair_only() {
    assert!(
        validate_pairing_control_invocation(AgentCommand::Pair, false, false, true).is_ok(),
        "the recovery flag must not require the private tray event stream"
    );
    assert!(validate_pairing_control_invocation(AgentCommand::Run, false, false, true).is_err());
    assert!(
        validate_pairing_control_invocation(AgentCommand::Pair, false, true, false).is_err(),
        "the other tray controls must remain private"
    );
    assert!(validate_pairing_control_invocation(AgentCommand::Pair, true, true, true).is_ok());
}

#[test]
fn derives_v2_pairing_endpoint_from_v1_report_endpoint() {
    let config = AgentConfig {
        endpoint: "https://unionc.example/prefix/api/modules/host-monitoring/agent/v1/report"
            .into(),
        ..AgentConfig::default()
    };
    assert_eq!(
        config.pairing_endpoint(),
        "https://unionc.example/prefix/api/modules/host-monitoring/agent/v2/pairing-requests"
    );
}

#[test]
fn a_report_endpoint_of_another_shape_pairs_at_the_standard_path() {
    let config = AgentConfig {
        endpoint: "https://unionc.example/elsewhere?tenant=one".into(),
        ..AgentConfig::default()
    };
    assert_eq!(
        config.try_pairing_endpoint().as_deref(),
        Some("https://unionc.example/api/modules/host-monitoring/agent/v2/pairing-requests")
    );
    let broken = AgentConfig {
        endpoint: "not a URL".into(),
        ..AgentConfig::default()
    };
    assert!(broken.try_pairing_endpoint().is_none());
}

#[test]
fn pairing_server_must_be_a_root_management_console_origin() {
    let mut root = AgentConfig {
        server_override: Some("https://unionc.example/".into()),
        ..AgentConfig::default()
    };
    root.apply_pair_options().unwrap();
    assert_eq!(
        root.pairing_endpoint.as_deref(),
        Some("https://unionc.example/api/modules/host-monitoring/agent/v2/pairing-requests")
    );

    let mut path = AgentConfig {
        server_override: Some("https://unionc.example/console".into()),
        ..AgentConfig::default()
    };
    let error = path
        .apply_pair_options()
        .expect_err("a path would silently target the wrong pairing API");
    assert!(error.message().contains("without a path"));
}

#[test]
fn rejects_remote_plaintext_by_default() {
    assert!(validate_endpoint("http://192.0.2.10/report", false).is_err());
    assert!(validate_endpoint("http://127.0.0.1/report", false).is_ok());
    assert!(validate_endpoint("http://[::1]/report", false).is_ok());
    assert!(validate_endpoint("https://telemetry.example/report", false).is_ok());
}

#[test]
fn insecure_override_never_applies_to_browser_pairing() {
    assert!(
        validate_endpoint("http://192.0.2.10/api/modules/host-monitoring/agent/v1/report", true)
            .is_ok(),
        "the explicit override still permits telemetry on a trusted isolated network"
    );
    assert!(
        validate_pairing_endpoint(
            "http://192.0.2.10/api/modules/host-monitoring/agent/v2/pairing-requests"
        )
        .is_err(),
        "the same override must never expose browser pairing over remote plaintext HTTP"
    );

    let split_endpoints = AgentConfig {
        endpoint: "http://192.0.2.10/api/modules/host-monitoring/agent/v1/report".into(),
        pairing_endpoint: Some(
            "https://unionc.example/api/modules/host-monitoring/agent/v2/pairing-requests".into(),
        ),
        allow_insecure_http: true,
        ..AgentConfig::default()
    };
    split_endpoints.validate(AgentCommand::Run, LINUX).unwrap();
}

#[test]
fn remote_plaintext_pairing_requires_a_persisted_transport_policy() {
    let remote = "http://192.0.2.10/api/modules/host-monitoring/agent/v1/report";
    assert!(validate_persisted_pairing_transport(remote, false).is_err());
    assert!(validate_persisted_pairing_transport(remote, true).is_ok());
    assert!(
        validate_persisted_pairing_transport(
            "http://127.0.0.1:8081/api/modules/host-monitoring/agent/v1/report",
            false
        )
        .is_ok()
    );
    assert!(
        validate_persisted_pairing_transport(
            "https://unionc.example/api/modules/host-monitoring/agent/v1/report",
            false
        )
        .is_ok()
    );
}

#[test]
fn saving_pairing_config_preserves_the_original_plaintext_policy() {
    for original_policy in [false, true] {
        let original = AgentConfig {
            allow_insecure_http: original_policy,
            ..AgentConfig::default()
        };
        let path = format!("/tmp/unionc/config-{original_policy}.json");
        let (mut loaded, issue) = AgentConfig::load_selected_config(
            Some(&path),
            Ok(original),
            AgentCommand::Pair,
            AgentConfig::default(),
        )
        .ok()
        .unwrap();
        assert!(issue.is_none());
        assert_eq!(loaded.persisted_allow_insecure_http, original_policy);
        loaded.config_path = Some(path.clone());
        loaded.allow_insecure_http = !original_policy;
        let (target, saved) = loaded.persist_after_pairing("/etc/unionc-agent/config.json".into());
        assert_eq!(target, path);
        assert_eq!(saved.allow_insecure_http, original_policy);
    }
}

#[test]
fn pairing_endpoint_rejects_query_and_fragment_without_restricting_telemetry() {
    for endpoint in [
        "https://unionc.example/api/modules/host-monitoring/agent/v2/pairing-requests?tenant=one",
        "https://unionc.example/api/modules/host-monitoring/agent/v2/pairing-requests#bootstrap",
        "https://unionc.example/api/modules/host-monitoring/agent/v2/pairing-requests?#",
    ] {
        let config = AgentConfig {
            pairing_endpoint: Some(endpoint.into()),
            ..AgentConfig::default()
        };
        let error = config
            .validate(AgentCommand::Run, LINUX)
            .expect_err("pairing request paths cannot be appended after a query or fragment");
        assert!(error.message().contains("query or fragment"));
    }

    assert!(
        validate_endpoint("https://telemetry.example/report?tenant=one#client", false).is_ok(),
        "the generic telemetry endpoint keeps its existing query/fragment policy"
    );
}

#[test]
fn local_diagnostics_are_not_blocked_by_a_bad_network_endpoint() {
    let config = AgentConfig {
        endpoint: "not a URL".into(),
        ..AgentConfig::default()
    };
    assert!(config.validate(AgentCommand::Status, LINUX).is_ok());
    assert!(config.validate(AgentCommand::Probe, LINUX).is_ok());
    assert!(config.validate(AgentCommand::Doctor, LINUX).is_ok());
    assert!(config.validate(AgentCommand::Run, LINUX).is_err());
}

#[test]
fn doctor_delivery_explicitly_restores_network_validation() {
    let config = AgentConfig {
        endpoint: "not a URL".into(),
        doctor_delivery: true,
        ..AgentConfig::default()
    };
    assert!(config.validate(AgentCommand::Doctor, LINUX).is_err());
}

#[test]
fn tls_identity_password_requires_a_pkcs12_identity() {
    let config = AgentConfig {
        tls_identity_password: Some("secret".into()),
        ..AgentConfig::default()
    };
    let error = config
        .validate(AgentCommand::Run, LINUX)
        .expect_err("an otherwise unused TLS identity password must not be ignored");
    assert!(error.message().contains("tls_identity_pkcs12"));
}

#[test]
fn non_native_tls_backend_rejects_pkcs12_identity() {
    let config = AgentConfig {
        tls_identity_pkcs12: Some("client-identity.p12".into()),
        ..AgentConfig::default()
    };
    let error = config
        .validate(AgentCommand::Run, LINUX)
        .expect_err("an unsupported PKCS#12 identity must not be silently ignored");
    assert!(error.message().contains("tls_identity_pem"));
}

#[test]
fn native_tls_backend_rejects_pem_identity() {
    for build in [WINDOWS, MACOS] {
        let config = AgentConfig {
            tls_identity_pem: Some("client-identity.pem".into()),
            ..AgentConfig::default()
        };
        let error = config
            .validate(AgentCommand::Run, build)
            .expect_err("an unsupported PEM identity must not reach request construction");
        assert!(error.message().contains("tls_identity_pkcs12"));
    }
}

fn config_with_interval(interval_seconds: u64) -> AgentConfig {
    AgentConfig {
        interval_seconds,
        slow_interval_seconds: interval_seconds,
        ..AgentConfig::default()
    }
}

#[test]
fn rejects_interval_at_the_contract_limit_because_jitter_pushes_it_over() {
    let config = config_with_interval(MAX_REPORT_INTERVAL_SECONDS);
    assert!(config.jitter_percent > 0, "本用例依赖默认 jitter 非零");
    let error = config
        .validate(AgentCommand::Run, LINUX)
        .expect_err("配置值等于上限时，加上 jitter 必然越界，必须拒绝");
    let message = error.message();
    assert!(
        message.contains("3600") && message.contains("400"),
        "错误信息应说明上限与后果，实际为：{message}"
    );
}

#[test]
fn the_reported_maximum_interval_is_actually_accepted() {
    let rejected = config_with_interval(MAX_REPORT_INTERVAL_SECONDS);
    let suggested = rejected.max_interval_seconds_at_current_jitter();
    let config = config_with_interval(suggested);
    assert!(
        config.validate(AgentCommand::Run, LINUX).is_ok(),
        "错误信息里建议的 interval_seconds={suggested} 必须真的能通过校验"
    );
    assert!(
        config.worst_case_cycle_centiseconds() <= MAX_REPORT_INTERVAL_SECONDS as u128 * 100,
        "建议值的最坏周期不得越过契约上限"
    );
    assert_eq!(suggested, 3272);
    assert_eq!(config.worst_case_cycle_centiseconds(), 359_920);
}

#[test]
fn zero_jitter_allows_the_full_contract_range() {
    let config = AgentConfig {
        jitter_percent: 0,
        ..config_with_interval(MAX_REPORT_INTERVAL_SECONDS)
    };
    assert!(config.validate(AgentCommand::Run, LINUX).is_ok());
}

#[test]
fn rejects_two_hour_interval_that_would_be_silently_dropped() {
    assert!(
        config_with_interval(7200)
            .validate(AgentCommand::Run, LINUX)
            .is_err()
    );
}

#[test]
fn request_timeout_is_bounded_for_graceful_tray_cancellation() {
    let mut config = config_with_interval(10);
    config.request_timeout_seconds = 300;
    assert!(config.validate(AgentCommand::Run, LINUX).is_ok());
    config.request_timeout_seconds = 301;
    let error = config
        .validate(AgentCommand::Run, LINUX)
        .expect_err("unbounded network waits defeat tray cancellation guarantees");
    assert!(error.message().contains("300"));
}

#[test]
fn configured_otlp_requires_the_optional_feature() {
    let config = AgentConfig {
        otlp_endpoint: Some("https://collector.example/v1/metrics".into()),
        ..config_with_interval(10)
    };
    let error = config
        .validate(AgentCommand::Run, LINUX)
        .expect_err("a non-OTLP build must not silently ignore configured export");
    assert!(error.message().contains("--features otlp"));
}

#[test]
fn optional_otlp_feature_accepts_a_valid_endpoint() {
    let config = AgentConfig {
        otlp_endpoint: Some("https://collector.example/v1/metrics".into()),
        ..config_with_interval(10)
    };
    assert!(config.validate(AgentCommand::Run, LINUX_OTLP).is_ok());
}

#[test]
fn the_shortest_possible_cycle_stays_inside_the_server_contract() {
    let smallest_interval = 1.0_f64;
    let largest_jitter = 50.0_f64 / 100.0;
    let shortest_cycle = smallest_interval * (1.0 - largest_jitter);
    let minimum = MIN_REPORT_INTERVAL_MILLISECONDS as f64 / 1000.0;

    assert!(
        shortest_cycle > minimum,
        "最短可能周期 {shortest_cycle}s 已逼近契约下限 {minimum}s；\
         调整 jitter 上限或间隔下限时必须重新评估这条边界"
    );
}

#[test]
fn the_default_configuration_has_its_documented_values() {
    let config = AgentConfig::default();
    assert_eq!(config.endpoint, DEFAULT_ENDPOINT);
    assert_eq!(config.interval_seconds, 10);
    assert_eq!(config.slow_interval_seconds, 30);
    assert_eq!(config.interval(), 10_000_000_000);
    assert_eq!(
        config.request_timeout(),
        config.request_timeout_seconds as u128 * 1_000_000_000
    );
    assert_eq!(config.diagnostic_config_issue(), None);
    assert_eq!(config.state_dir, default_state_dir(Platform::Linux, None));
}

#[test]
fn paths_follow_the_platform() {
    assert_eq!(default_state_dir(Platform::Linux, None), "/var/lib/unionc-agent");
    assert_eq!(
        default_state_dir(Platform::Windows, Some("D:\\Data")),
        "D:\\Data\\UnionC Agent"
    );
    assert_eq!(
        default_state_dir(Platform::Windows, None),
        "C:\\ProgramData\\UnionC Agent"
    );
    assert_ne!(
        default_config_path(Platform::Linux, None),
        default_config_path(Platform::Macos, None)
    );
}

#[test]
fn words_for_truth_are_read() {
    for word in ["1", "true", "YES", " on "] {
        assert_eq!(parse_bool(word), Some(true));
    }
    for word in ["0", "False", "no", "off"] {
        assert_eq!(parse_bool(word), Some(false));
    }
    assert_eq!(parse_bool("maybe"), None);
    assert_eq!(non_empty("  x ".into()).as_deref(), Some("x"));
    assert_eq!(non_empty("  ".into()), None);
}

#[test]
fn every_bound_of_the_configuration_has_its_fault() {
    let check = |config: AgentConfig| config.validate(AgentCommand::Run, LINUX).unwrap_err();
    assert!(matches!(check(config_with_interval(0)), ConfigFault::ZeroInterval));
    assert!(matches!(
        check(AgentConfig { jitter_percent: 51, ..AgentConfig::default() }),
        ConfigFault::JitterTooLarge
    ));
    assert!(matches!(
        check(config_with_interval(3600)),
        ConfigFault::CycleTooLong { interval_seconds: 3600, .. }
    ));
    assert!(matches!(
        check(AgentConfig { slow_interval_seconds: 9, ..AgentConfig::default() }),
        ConfigFault::SlowIntervalTooShort
    ));
    assert!(matches!(
        check(AgentConfig { request_timeout_seconds: 0, ..AgentConfig::default() }),
        ConfigFault::ZeroTimeout
    ));
    assert!(matches!(
        check(AgentConfig { spool_max_bytes: 1, ..AgentConfig::default() }),
        ConfigFault::SpoolTooSmall
    ));
    assert!(matches!(
        check(AgentConfig {
            tls_identity_pem: Some("a".into()),
            tls_identity_pkcs12: Some("b".into()),
            ..AgentConfig::default()
        }),
        ConfigFault::TwoIdentities
    ));
    assert!(matches!(
        check(AgentConfig { request_timeout_seconds: 301, ..AgentConfig::default() }),
        ConfigFault::TimeoutTooLong
    ));
    assert!(matches!(
        check(AgentConfig { endpoint: "nonsense".into(), ..AgentConfig::default() }),
        ConfigFault::Endpoint(EndpointFault::Invalid { .. })
    ));
    assert!(matches!(
        check(AgentConfig {
            pairing_endpoint: Some("https://unionc.example/pairing?x".into()),
            ..AgentConfig::default()
        }),
        ConfigFault::PairingEndpoint(PairingEndpointFault::QueryOrFragment)
    ));
    assert!(matches!(
        check(AgentConfig {
            otlp_endpoint: Some("https://otlp.example".into()),
            ..AgentConfig::default()
        }),
        ConfigFault::OtlpNotBuiltIn
    ));
    assert!(matches!(
        check(AgentConfig {
            tls_identity_password: Some("p".into()),
            ..AgentConfig::default()
        }),
        ConfigFault::PasswordWithoutPkcs12
    ));
    let pkcs12 =
        AgentConfig { tls_identity_pkcs12: Some("a".into()), ..AgentConfig::default() };
    assert!(pkcs12.validate(AgentCommand::Run, WINDOWS).is_ok());
    assert!(matches!(check(pkcs12), ConfigFault::Pkcs12Unsupported));
    let pem = AgentConfig { tls_identity_pem: Some("a".into()), ..AgentConfig::default() };
    assert!(pem.validate(AgentCommand::Run, LINUX).is_ok());
    assert!(matches!(
        pem.validate(AgentCommand::Run, MACOS),
        Err(ConfigFault::PemUnsupported)
    ));
    assert!(matches!(
        AgentConfig {
            server_override: Some("https://a.example".into()),
            endpoint_override: Some("https://b.example".into()),
            ..AgentConfig::default()
        }
        .apply_pair_options(),
        Err(ConfigFault::ServerAndEndpoint)
    ));
    assert!(matches!(
        AgentConfig { server_override: Some("nonsense".into()), ..AgentConfig::default() }
            .apply_pair_options(),
        Err(ConfigFault::Server(ServerFault::Invalid))
    ));
    let issue = AgentConfig { config_issue: Some("broken".into()), ..AgentConfig::default() };
    assert!(matches!(
        issue.validate_for_diagnostics(LINUX),
        Err(ConfigFault::Issue { .. })
    ));
    assert_eq!(issue.validate_for_diagnostics(LINUX).unwrap_err().message(), "broken");
    assert_eq!(issue.diagnostic_config_issue(), Some("broken"));
}

#[test]
fn the_environment_overrides_the_file() {
    let env = Environment {
        interval_seconds: Some("20".into()),
        slow_interval_seconds: Some("60".into()),
        state_dir: Some("/srv/agent".into()),
        allow_insecure_http: Some("yes".into()),
        ..no_environment()
    };
    let config = AgentConfig::default().apply_environment(env).ok().unwrap();
    assert_eq!(config.interval_seconds, 20);
    assert_eq!(config.slow_interval_seconds, 60);
    assert_eq!(config.state_dir, "/srv/agent");
    assert!(config.allow_insecure_http);
    assert!(!config.persisted_allow_insecure_http);

    let wrong = Environment { interval_seconds: Some("soon".into()), ..no_environment() };
    assert!(matches!(
        AgentConfig::default().apply_environment(wrong),
        Err(ConfigFault::EnvironmentInterval)
    ));
    let wrong = Environment { slow_interval_seconds: Some("-1".into()), ..no_environment() };
    assert!(matches!(
        AgentConfig::default().apply_environment(wrong),
        Err(ConfigFault::EnvironmentSlowInterval)
    ));
    let wrong = Environment { allow_insecure_http: Some("maybe".into()), ..no_environment() };
    assert!(matches!(
        AgentConfig::default().apply_environment(wrong),
        Err(ConfigFault::EnvironmentInsecureHttp)
    ));
}

#[test]
fn an_override_does_not_reach_what_is_saved() {
    let env = Environment { allow_insecure_http: Some("1".into()), ..no_environment() };
    let request = parse_arguments(&words(&["pair", "--server", "https://unionc.example"]), LINUX);
    let invocation = match request {
        Ok(Request::Invoke(invocation)) => invocation,
        _ => panic!("the arguments ask for a pairing"),
    };
    let config = AgentConfig::default()
        .configure(None, env, invocation, Some("/etc/agent.json".into()), LINUX)
        .ok()
        .unwrap();
    assert!(config.allow_insecure_http);
    let (path, saved) = config.persist_after_pairing("unused".into());
    assert_eq!(path, "/etc/agent.json");
    assert!(!saved.allow_insecure_http);
    assert_eq!(private_config_content(&vec![1, 2]), vec![1, 2, 10]);
}

#[test]
fn a_plain_remote_endpoint_is_not_made_durable() {
    let config = AgentConfig { allow_insecure_http: true, ..AgentConfig::default() };
    assert!(matches!(
        config.validate_durable_report_endpoint("http://192.0.2.10/report"),
        Err(ConfigFault::Transport(TransportFault::RemotePlaintext))
    ));
    assert!(config.validate_durable_report_endpoint("https://unionc.example/report").is_ok());
}

// ---------------------------------------------------------------------------
// Addresses
// ---------------------------------------------------------------------------
#[test]
fn addresses_are_taken_apart() {
    let url = read_url("HTTPS://user:pw@Host.Example:8443/a/../b?q#f").unwrap();
    assert_eq!(url.scheme, "https");
    assert_eq!(url.username, "user");
    assert!(url.password);
    assert_eq!(url.host.as_deref(), Some("host.example"));
    assert_eq!(url.path, "/b");
    assert_eq!(url.query.as_deref(), Some("q"));
    assert_eq!(url.fragment.as_deref(), Some("f"));
    assert!(!url.opaque);
    assert!(read_url("mailto:a@b").unwrap().opaque);
    assert_eq!(url.length, "https://user:pw@host.example:8443/b?q#f".len());
    assert!(read_url("nonsense").is_none());
    assert_eq!(
        url_with_path("https://host.example/a?q", "/b").as_deref(),
        Some("https://host.example/b")
    );
    assert_eq!(trim_slashes("https://host.example//"), "https://host.example");
    assert!(is_loopback_host(Some("localhost")));
    assert!(is_loopback_host(Some("127.0.0.1")));
    assert!(!is_loopback_host(Some("192.0.2.1")));
    assert!(!is_loopback_host(None));
}

#[test]
fn only_web_servers_have_an_origin() {
    assert_eq!(
        origin_of("HTTPS://user:pw@Host.Example:8443/a?q#f").as_deref(),
        Some("https://host.example:8443")
    );
    assert_eq!(origin_of("http://host.example:80/").as_deref(), Some("http://host.example"));
    assert!(origin_of("ftp://host.example/").is_none());
    assert!(origin_of("blob:https://host.example/1").is_none());
    assert!(origin_of("nonsense").is_none());
}

#[test]
fn deeply_nested_addresses_are_refused_by_their_scheme() {
    let nested = format!("{}https://host.example/", "blob:".repeat(50_000));
    assert!(matches!(
        validate_endpoint(&nested, true),
        Err(EndpointFault::Scheme { scheme }) if scheme == "blob"
    ));
    assert!(matches!(validate_server_base(&nested), Err(ServerFault::Scheme)));
    assert!(origin_of(&nested).is_none());
    let config = AgentConfig { endpoint: nested, ..AgentConfig::default() };
    assert!(config.validate(AgentCommand::Status, LINUX).is_ok());
    assert!(matches!(
        config.validate_for_diagnostics(LINUX),
        Err(ConfigFault::Endpoint(EndpointFault::Scheme { .. }))
    ));
}

#[test]
fn an_endpoint_without_a_server_has_nobody_to_ask() {
    let config = AgentConfig { endpoint: "nonsense".into(), ..AgentConfig::default() };
    assert!(config.try_pairing_endpoint().is_none());
    assert!(config.validate(AgentCommand::Probe, LINUX).is_ok());
    let config = AgentConfig { endpoint: "https://host.example/x?q".into(), ..config };
    assert_eq!(
        config.try_pairing_endpoint().as_deref(),
        Some("https://host.example/api/modules/host-monitoring/agent/v2/pairing-requests")
    );
}

fn parts(path: &str, query: Option<&str>, fragment: Option<&str>, length: usize) -> UrlParts {
    UrlParts {
        scheme: "https".into(),
        username: String::new(),
        password: false,
        host: Some("host.example".into()),
        path: path.into(),
        query: query.map(String::from),
        fragment: fragment.map(String::from),
        opaque: false,
        length,
    }
}

#[test]
fn an_address_takes_a_path_while_its_offsets_fit() {
    let limit = u32::MAX as usize;
    assert!(takes_path(&parts("/", None, None, limit - 10), 11));
    assert!(!takes_path(&parts("/", None, None, limit - 9), 11));
    assert!(takes_path(&parts("/0123456789", None, None, limit), 11));
    assert!(!takes_path(&parts("/0123456789", None, None, limit + 1), 1));
    assert!(takes_path(&parts("/", Some("query"), None, limit - 10 + 6), 11));
    assert!(takes_path(&parts("/", Some("query"), Some("f"), limit - 10 + 2), 11));
    assert!(!takes_path(&parts("/", Some("query"), Some("f"), limit - 10 + 3), 11));
    let opaque = |length| UrlParts { opaque: true, ..parts("", None, None, length) };
    assert!(takes_path(&opaque(limit - 13), 11));
    assert!(!takes_path(&opaque(limit - 12), 11));
}

#[test]
fn a_new_path_takes_its_own_length() {
    for address in ["https://host.example/a?q#f", "https://host.example", "mailto:a@b", "x:/a/b"] {
        let before = read_url(address).unwrap();
        let rewritten = url_with_path(address, "/api/health").unwrap();
        let tail = before.query.map_or(0, |query| 1 + query.len())
            + before.fragment.map_or(0, |fragment| 1 + fragment.len());
        let escaped = if before.opaque { 2 } else { 0 };
        assert_eq!(rewritten.len(), before.length - tail - before.path.len() + 11 + escaped);
    }
}

#[test]
fn the_refused_cycle_is_shown_as_a_double_gives_it() {
    for jitter_percent in 0..=50_u8 {
        for interval in (3601..9000).step_by(7).chain([
            3615,
            9_007_199_254_740_993,
            12_345_678_901_234_567_890,
            u64::MAX,
        ]) {
            let config = AgentConfig {
                interval_seconds: interval,
                jitter_percent,
                ..AgentConfig::default()
            };
            let worst = interval as f64 * (1.0 + jitter_percent as f64 / 100.0);
            let fault = config.validate(AgentCommand::Run, LINUX).unwrap_err();
            let shown = format!("a measured interval of up to {worst:.0}s, which");
            assert!(fault.message().contains(&shown), "{}", fault.message());
        }
    }
    let config = AgentConfig { interval_seconds: 3615, ..AgentConfig::default() };
    let fault = config.validate(AgentCommand::Run, LINUX).unwrap_err();
    assert!(fault.message().contains("up to 3977s"));
}

#[test]
fn defaults_depend_on_the_platform() {
    assert_eq!(default_state_dir(Platform::Windows, Some("D:\\")), "D:\\UnionC Agent");
    assert_eq!(default_state_dir(Platform::Windows, Some("D:")), "D:UnionC Agent");
    assert_eq!(default_state_dir(Platform::Windows, Some("")), "UnionC Agent");
    assert_eq!(
        default_config_path(Platform::Windows, Some("D:/Data/")),
        "D:/Data/UnionC Agent\\config.json"
    );
    assert_eq!(AgentConfig::defaults(Platform::Linux, None).state_dir, "/var/lib/unionc-agent");
    assert_eq!(
        AgentConfig::defaults(Platform::Windows, Some("D:\\Data")).state_dir,
        "D:\\Data\\UnionC Agent"
    );
    assert_eq!(
        AgentConfig::defaults(Platform::Windows, None).state_dir,
        "C:\\ProgramData\\UnionC Agent"
    );
    let macos = AgentConfig::defaults(Platform::Macos, None);
    assert_eq!(macos.state_dir, "/Library/Application Support/UnionC Agent");
    assert_eq!(macos.endpoint, DEFAULT_ENDPOINT);
    assert_eq!(AgentConfig::default().state_dir, "/var/lib/unionc-agent");
}

#[test]
fn every_address_fault_has_an_address() {
    assert!(matches!(validate_endpoint("nonsense", false), Err(EndpointFault::Invalid { .. })));
    assert!(matches!(
        validate_endpoint("https://user@host.example/", false),
        Err(EndpointFault::Credentials)
    ));
    assert!(matches!(
        validate_endpoint("ftp://host.example/", false),
        Err(EndpointFault::Scheme { .. })
    ));
    assert!(matches!(
        validate_endpoint("http://192.0.2.1/", false),
        Err(EndpointFault::RemotePlaintext)
    ));
    assert!(matches!(
        validate_pairing_endpoint("https://host.example/?a"),
        Err(PairingEndpointFault::QueryOrFragment)
    ));
    assert!(matches!(
        validate_persisted_pairing_transport("nonsense", true),
        Err(TransportFault::Invalid { .. })
    ));
    assert_eq!(validate_server_base("https://host.example").unwrap(), "https://host.example");
    assert!(matches!(validate_server_base("nonsense"), Err(ServerFault::Invalid)));
    assert!(matches!(validate_server_base("ftp://host.example"), Err(ServerFault::Scheme)));
    assert!(matches!(
        validate_server_base("https://u:p@host.example"),
        Err(ServerFault::Credentials)
    ));
    assert!(matches!(validate_server_base("https://host.example/a"), Err(ServerFault::Path)));
}

// ---------------------------------------------------------------------------
// Arguments
// ---------------------------------------------------------------------------
fn fault(given: &[&str], build: Build) -> ArgumentFault {
    match parse_arguments(&words(given), build) {
        Err(fault) => fault,
        Ok(_) => panic!("{given:?} must be refused"),
    }
}

#[test]
fn no_arguments_run_the_resident_agent() {
    match parse_arguments(&words(&[]), LINUX) {
        Ok(Request::Invoke(invocation)) => {
            assert_eq!(invocation.command, AgentCommand::Run);
            assert!(!invocation.windows_service);
            assert_eq!(invocation.output_mode, OutputMode::Human);
        }
        _ => panic!("nothing asks for the agent to run"),
    }
}

#[test]
fn arguments_are_read_as_they_are_given() {
    match parse_arguments(
        &words(&["doctor", "--delivery", "--json", "--config", "/etc/agent.json"]),
        LINUX,
    ) {
        Ok(Request::Invoke(invocation)) => {
            assert_eq!(invocation.command, AgentCommand::Doctor);
            assert!(invocation.doctor_delivery);
            assert_eq!(invocation.output_mode, OutputMode::Json);
            assert_eq!(invocation.config_path.as_deref(), Some("/etc/agent.json"));
        }
        _ => panic!("the doctor was asked for"),
    }
    match parse_arguments(&words(&["--config", "a", "--config", "b"]), LINUX) {
        Ok(Request::Invoke(invocation)) => {
            assert_eq!(invocation.config_path.as_deref(), Some("b"), "the last one counts");
        }
        _ => panic!("a path may be given again"),
    }
    assert!(matches!(parse_arguments(&words(&["--version"]), LINUX), Ok(Request::Version)));
    assert!(matches!(parse_arguments(&words(&["--help"]), LINUX), Ok(Request::Help)));
}

#[test]
fn every_argument_fault_has_its_arguments() {
    assert!(matches!(fault(&["run", "probe"], LINUX), ArgumentFault::MultipleCommands { .. }));
    assert!(matches!(
        fault(&["run", "--windows-service"], WINDOWS),
        ArgumentFault::ServiceNotFirst
    ));
    assert!(matches!(
        fault(
            &["pair", "--tray-deadline-seconds", "60", "--tray-deadline-seconds", "60"],
            LINUX
        ),
        ArgumentFault::Repeated(Argument::TrayDeadline)
    ));
    assert!(matches!(
        fault(&["--config"], LINUX),
        ArgumentFault::MissingValue(Argument::Config)
    ));
    assert!(matches!(fault(&["--output", "xml"], LINUX), ArgumentFault::OutputFormat { .. }));
    assert!(matches!(
        fault(&["--output", "human", "--json"], LINUX),
        ArgumentFault::OutputConflict
    ));
    assert!(matches!(fault(&["--name", "x"], LINUX), ArgumentFault::Unknown { .. }));
    assert!(matches!(
        fault(&["--windows-service", "--help"], WINDOWS),
        ArgumentFault::HelpInService
    ));
    assert!(matches!(fault(&["run", "--delivery"], LINUX), ArgumentFault::DeliveryNeedsDoctor));
    assert!(matches!(
        fault(&["--windows-service", "run"], LINUX),
        ArgumentFault::ServiceUnavailable
    ));
    assert!(matches!(
        fault(&["--windows-service", "probe"], WINDOWS),
        ArgumentFault::ServiceNeedsRun
    ));
    assert!(matches!(fault(&["run", "--tray-events"], LINUX), ArgumentFault::TrayEventsNeedPair));
    assert!(matches!(
        fault(&["run", "--replace-pending-pairing"], LINUX),
        ArgumentFault::ReplacementNeedsPair
    ));
    assert!(matches!(
        fault(&["pair", "--tray-events", "--tray-deadline-seconds", "soon"], LINUX),
        ArgumentFault::InvalidDeadline
    ));
    assert!(matches!(
        fault(&["pair", "--tray-events", "--tray-deadline-seconds", "59"], LINUX),
        ArgumentFault::DeadlineRange
    ));
    let nonce = "a".repeat(64);
    let event = format!("Local\\UnionCAgentPairCancel-{nonce}");
    assert!(validate_tray_cancel_event(&event, Platform::Windows).is_ok());
    assert!(matches!(
        validate_tray_cancel_event(&event, Platform::Linux),
        Err(ArgumentFault::CancelEventUnavailable)
    ));
    assert!(matches!(
        validate_tray_cancel_event("Local\\Other", Platform::Windows),
        Err(ArgumentFault::CancelEventName)
    ));
    assert!(matches!(
        fault(&["run", "--tray-activation-stdin"], LINUX),
        ArgumentFault::TrayControlsNeedPair
    ));
}

#[test]
fn the_command_line_names_the_configuration_first() {
    let select = |given: Option<&str>, environment: Option<&str>, is_file| {
        select_config_path(
            given.map(ToString::to_string),
            environment.map(ToString::to_string),
            "default".into(),
            is_file,
        )
    };
    assert_eq!(select(Some("a"), Some("b"), true).as_deref(), Some("a"));
    assert_eq!(select(None, Some("b"), true).as_deref(), Some("b"));
    assert_eq!(select(None, None, true).as_deref(), Some("default"));
    assert_eq!(select(None, None, false), None);
}
