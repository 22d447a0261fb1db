//! What an effective configuration is made of, setting by setting.

use crate::arguments::Invocation;
use crate::config::{
    default_state_text, number, truth, AgentCommand, AgentConfig, ConfigFault, Environment,
};
use crate::endpoint::{
    self, endpoint_verdict, pairing_endpoint_verdict, server_base, transport_verdict, url_at,
    url_read, without_slashes, EndpointFault, PairingEndpointFault, TransportFault, UrlView,
};
use crate::platform::{Build, Platform};
use crate::text;
use vstd::prelude::*;

verus! {

/// Reports may be sent to what was read: it is an address without credentials, of a server that is
/// reached over HTTPS, or over plain HTTP on this machine or where the policy allows it.
pub open spec fn may_be_sent_to(read: Option<UrlView>, allow_insecure_http: bool) -> bool {
    &&& read matches Some(url)
    &&& url.username.len() == 0
    &&& !url.password
    &&& url.scheme == "https"@ || (url.scheme == "http"@ && (allow_insecure_http
        || endpoint::is_loopback(url.host)))
}

/// An endpoint is accepted exactly where reports may be sent to it, and every refusal names its
/// reason: the address, credentials, plain HTTP to another machine, or another scheme.
pub proof fn which_endpoints_are_accepted(
    read: Option<UrlView>,
    endpoint: Seq<char>,
    allow_insecure_http: bool,
    verdict: Result<(), EndpointFault>,
)
    requires
        endpoint_verdict(read, endpoint, allow_insecure_http, verdict),
    ensures
        verdict is Ok <==> may_be_sent_to(read, allow_insecure_http),
        verdict matches Err(EndpointFault::Invalid { endpoint: named }) ==> read is None && named@
            == endpoint,
        verdict matches Err(EndpointFault::Credentials) ==> read matches Some(url) && (
        url.username.len() > 0 || url.password),
        verdict matches Err(EndpointFault::RemotePlaintext) ==> read matches Some(url) && url.scheme
            == "http"@ && !allow_insecure_http && !endpoint::is_loopback(url.host),
        verdict matches Err(EndpointFault::Scheme { scheme }) ==> read matches Some(url) && scheme@
            == url.scheme && url.scheme != "http"@ && url.scheme != "https"@,
        read is None ==> verdict matches Err(EndpointFault::Invalid { .. }),
        (read matches Some(url) && (url.username.len() > 0 || url.password)) ==> verdict matches Err(
            EndpointFault::Credentials,
        ),
{
    reveal_strlit("https");
    reveal_strlit("http");
}

/// The machine itself is `localhost`, the address `::1`, or any address of the network 127.
pub proof fn which_hosts_are_this_machine(host: Seq<char>)
    ensures
        !endpoint::is_loopback(None),
        endpoint::is_loopback(Some("localhost"@)),
        endpoint::is_loopback(Some("[::1]"@)),
        endpoint::is_loopback(Some(host)) && host != "localhost"@ && host != "[::1]"@ ==> {
            let octets = text::pieces(host, '.');
            &&& octets.len() == 4
            &&& octets[0] == "127"@
            &&& forall|i: int|
                0 <= i < 4 ==> 1 <= (#[trigger] octets[i]).len() <= 3 && text::all_digits(octets[i])
                    && text::digits_value(octets[i]) <= 255
        },
        ({
            let octets = text::pieces(host, '.');
            &&& octets.len() == 4
            &&& octets[0] == "127"@
            &&& forall|i: int|
                0 <= i < 4 ==> 1 <= (#[trigger] octets[i]).len() <= 3 && text::all_digits(octets[i])
                    && text::digits_value(octets[i]) <= 255
        }) ==> endpoint::is_loopback(Some(host)),
{
}

/// Pairing requests may be sent only where reports may be sent whatever the policy, and only to an
/// address without a query or a fragment.
pub proof fn which_pairing_endpoints_are_accepted(
    read: Option<UrlView>,
    endpoint: Seq<char>,
    verdict: Result<(), PairingEndpointFault>,
)
    requires
        pairing_endpoint_verdict(read, endpoint, verdict),
    ensures
        verdict is Ok <==> may_be_sent_to(read, false) && read->0.query is None && read->0.fragment
            is None,
        verdict matches Err(PairingEndpointFault::QueryOrFragment) ==> may_be_sent_to(read, false),
        verdict matches Err(PairingEndpointFault::Transport(_)) ==> !may_be_sent_to(read, false),
{
    reveal_strlit("https");
    reveal_strlit("http");
}

/// An address may be stored unless it is plain HTTP to another machine and the stored policy does
/// not allow that.
pub proof fn which_endpoints_are_durable(
    read: Option<UrlView>,
    endpoint: Seq<char>,
    stored_policy: bool,
    verdict: Result<(), TransportFault>,
)
    requires
        transport_verdict(read, endpoint, stored_policy, verdict),
    ensures
        verdict is Ok <==> (read matches Some(url) && (url.scheme != "http"@
            || endpoint::is_loopback(url.host) || stored_policy)),
        verdict matches Err(TransportFault::Invalid { endpoint: named }) ==> read is None && named@
            == endpoint,
        verdict matches Err(TransportFault::RemotePlaintext) ==> read is Some,
{
}

/// A server is named by its origin: an address of a web server without credentials, path, query or
/// fragment, and nothing else.
pub proof fn which_servers_are_named(server: Seq<char>)
    ensures
        server_base(server) is Ok <==> (url_read(server) matches Some(url) && (url.scheme
            == "https"@ || url.scheme == "http"@) && url.host is Some && url.username.len() == 0
            && !url.password && url.path == "/"@ && url.query is None && url.fragment is None),
        server_base(server) is Ok ==> endpoint::url_origin(server) is None || server_base(server)
            == Ok::<Seq<char>, endpoint::ServerFault>(endpoint::url_origin(server)->0),
{
}

/// Where pairing requests go: where they are set to go, else to the server of the reports, at the
/// pairing path in place of the report path.
pub proof fn where_pairing_requests_go(config: AgentConfig, base: Seq<char>)
    ensures
        config.pairing_endpoint matches Some(set) ==> config.pairing_text() == set@,
        config.pairing_endpoint is None && config.endpoint@ == base
            + "/api/modules/host-monitoring/agent/v1/report"@ ==> config.pairing_text() == base
            + "/api/modules/host-monitoring/agent/v2/pairing-requests"@,
        config.pairing_endpoint is None && !text::ends(
            config.endpoint@,
            "/api/modules/host-monitoring/agent/v1/report"@,
        ) ==> config.pairing_text() == without_slashes(
            url_at(
                config.endpoint@,
                "/api/modules/host-monitoring/agent/v2/pairing-requests"@,
                None,
                None,
            )->0,
        ),
        config.pairing_endpoint is Some ==> config.can_ask(),
        config.endpoint@ == base + "/api/modules/host-monitoring/agent/v1/report"@
            ==> config.can_ask(),
{
    let path = "/api/modules/host-monitoring/agent/v1/report"@;
    if config.endpoint@ == base + path {
        assert(config.endpoint@.subrange(base.len() as int, config.endpoint@.len() as int) == path);
        assert(config.endpoint@.take(base.len() as int) == base);
    }
}

/// What a configuration must meet for a command, in the words of its settings: the status command
/// takes any; every other wants an interval that with its jitter stays within an hour, a slow
/// interval that is not shorter, a timeout of one second to five minutes and a spool of a mebibyte;
/// and one that sends reports also wants addresses that may be sent to, no OTLP settings without
/// that output, and a client identity of the platform's one format.
pub proof fn what_a_configuration_must_meet(
    config: AgentConfig,
    command: AgentCommand,
    build: Build,
    verdict: Result<(), ConfigFault>,
)
    requires
        config.validated(command, build, verdict),
    ensures
        ({
            let bounded = {
                &&& config.interval_seconds > 0
                &&& config.jitter_percent <= 50
                &&& config.interval_seconds * (100 + config.jitter_percent) <= 360_000
                &&& config.slow_interval_seconds >= config.interval_seconds
                &&& 1 <= config.request_timeout_seconds <= 300
                &&& config.spool_max_bytes >= 1_048_576
            };
            let sends = command != AgentCommand::Probe && (command != AgentCommand::Doctor
                || config.doctor_delivery);
            let pairing = url_read(config.pairing_text());
            let reachable = {
                &&& may_be_sent_to(url_read(config.endpoint@), config.allow_insecure_http)
                &&& config.can_ask()
                &&& may_be_sent_to(pairing, false)
                &&& pairing->0.query is None
                &&& pairing->0.fragment is None
            };
            let otlp = if build.otlp {
                config.otlp_endpoint matches Some(output) ==> may_be_sent_to(
                    url_read(output@),
                    config.allow_insecure_http,
                )
            } else {
                config.otlp_endpoint is None && config.otlp_token is None
            };
            let identity = {
                &&& config.tls_identity_password is Some ==> config.tls_identity_pkcs12 is Some
                &&& build.platform == Platform::Linux ==> config.tls_identity_pkcs12 is None
                &&& build.platform != Platform::Linux ==> config.tls_identity_pem is None
            };
            &&& verdict is Ok <==> command == AgentCommand::Status || (bounded && (!sends || (
            reachable && otlp && identity)))
            &&& verdict matches Err(ConfigFault::ZeroInterval) ==> config.interval_seconds == 0
            &&& verdict matches Err(ConfigFault::JitterTooLarge) ==> config.jitter_percent > 50
            &&& verdict matches Err(
                ConfigFault::CycleTooLong { interval_seconds, jitter_percent },
            ) ==> interval_seconds == config.interval_seconds && jitter_percent
                == config.jitter_percent && interval_seconds * (100 + jitter_percent) > 360_000
            &&& verdict matches Err(ConfigFault::SlowIntervalTooShort)
                ==> config.slow_interval_seconds < config.interval_seconds
            &&& verdict matches Err(ConfigFault::ZeroTimeout) ==> config.request_timeout_seconds
                == 0
            &&& verdict matches Err(ConfigFault::TimeoutTooLong)
                ==> config.request_timeout_seconds > 300
            &&& verdict matches Err(ConfigFault::SpoolTooSmall) ==> config.spool_max_bytes
                < 1_048_576
            &&& verdict matches Err(ConfigFault::EndpointTooLong) ==> !config.can_ask() && bounded
            &&& verdict matches Err(ConfigFault::Endpoint(_)) ==> sends && bounded
            &&& verdict matches Err(ConfigFault::PairingEndpoint(_)) ==> sends && bounded
                && may_be_sent_to(url_read(config.endpoint@), config.allow_insecure_http)
            &&& verdict matches Err(ConfigFault::OtlpNotBuiltIn) ==> !build.otlp && (
            config.otlp_endpoint is Some || config.otlp_token is Some) && reachable
            &&& verdict matches Err(ConfigFault::TwoIdentities) ==> config.tls_identity_pem is Some
                && config.tls_identity_pkcs12 is Some
            &&& verdict matches Err(ConfigFault::PasswordWithoutPkcs12)
                ==> config.tls_identity_password is Some && config.tls_identity_pkcs12 is None
            &&& verdict matches Err(ConfigFault::Pkcs12Unsupported) ==> build.platform
                == Platform::Linux && config.tls_identity_pkcs12 is Some
            &&& verdict matches Err(ConfigFault::PemUnsupported) ==> build.platform
                != Platform::Linux && config.tls_identity_pem is Some
        }),
{
    reveal_strlit("https");
    reveal_strlit("http");
}

/// The text that the environment sets in place of another: trimmed, and none where it is blank.
pub open spec fn set_or_cleared(given: Option<String>, before: Option<String>) -> Option<Seq<char>> {
    match given {
        Some(value) => if text::trimmed(value@).len() == 0 {
            None
        } else {
            Some(text::trimmed(value@))
        },
        None => match before {
            Some(value) => Some(value@),
            None => None,
        },
    }
}

/// Where reports go in the end: with `--endpoint`, exactly there, for every command; with
/// `--server`, which pairing alone heeds, to the report path of that server; else where the
/// environment says, and else where the file says. Pairing requests follow: `pair --endpoint`
/// forgets another place for them, `pair --server` sets it, and every other command keeps it.
pub proof fn where_reports_go(
    loaded: AgentConfig,
    issue: Option<String>,
    env: Environment,
    invocation: Invocation,
    config_path: Option<String>,
    build: Build,
    effective: AgentConfig,
)
    requires
        loaded.configured(issue, env, invocation, config_path, build, Ok(effective)),
    ensures
        ({
            let pair = invocation.command == AgentCommand::Pair;
            &&& invocation.endpoint_override matches Some(given) ==> effective.endpoint@ == given@
            &&& invocation.endpoint_override is None && !(pair && invocation.server_override
                is Some) ==> effective.endpoint@ == match env.endpoint {
                Some(set) => set@,
                None => loaded.endpoint@,
            }
            &&& pair && invocation.server_override is Some ==> {
                &&& invocation.endpoint_override is None
                &&& server_base(invocation.server_override->0@) matches Ok(origin)
                &&& effective.endpoint@ == without_slashes(origin)
                    + "/api/modules/host-monitoring/agent/v1/report"@
                &&& effective.pairing_endpoint matches Some(pairing)
                &&& pairing@ == without_slashes(origin)
                    + "/api/modules/host-monitoring/agent/v2/pairing-requests"@
            }
            &&& pair && invocation.endpoint_override is Some ==> effective.pairing_endpoint is None
            &&& !pair || (invocation.server_override is None && invocation.endpoint_override
                is None) ==> text::opt_view(effective.pairing_endpoint) == set_or_cleared(
                env.pairing_endpoint,
                loaded.pairing_endpoint,
            )
        }),
{
    let after = choose|after: AgentConfig| #[trigger]
        loaded.overridden(env, after) && after.invoked(invocation, config_path, issue).settled(
            invocation.command,
            build,
            Ok(effective),
        );
}

/// Every other setting of the effective configuration is the environment's, where it sets it, and
/// else the file's; what belongs to the process is the command line's. Plain HTTP is allowed by the
/// command line, or by the environment, or else as the file has it, and what the file had is
/// remembered.
pub proof fn what_the_other_settings_are(
    loaded: AgentConfig,
    issue: Option<String>,
    env: Environment,
    invocation: Invocation,
    config_path: Option<String>,
    build: Build,
    effective: AgentConfig,
)
    requires
        loaded.configured(issue, env, invocation, config_path, build, Ok(effective)),
    ensures
        effective.interval_seconds == match env.interval_seconds {
            Some(set) => number(set@)->0,
            None => loaded.interval_seconds,
        },
        effective.slow_interval_seconds == match env.slow_interval_seconds {
            Some(set) => number(set@)->0,
            None => loaded.slow_interval_seconds,
        },
        effective.allow_insecure_http <==> invocation.allow_insecure_http || match env.allow_insecure_http {
            Some(set) => truth(set@) == Some(true),
            None => loaded.allow_insecure_http,
        },
        env.interval_seconds matches Some(set) ==> number(set@) is Some,
        env.slow_interval_seconds matches Some(set) ==> number(set@) is Some,
        env.allow_insecure_http matches Some(set) ==> truth(set@) is Some,
        text::opt_view(effective.otlp_endpoint) == set_or_cleared(
            env.otlp_endpoint,
            loaded.otlp_endpoint,
        ),
        text::opt_view(effective.otlp_token) == set_or_cleared(env.otlp_token, loaded.otlp_token),
        effective.state_dir@ == match env.state_dir {
            Some(set) => set@,
            None => loaded.state_dir@,
        },
        env.tls_identity_pem is Some ==> effective.tls_identity_pem == env.tls_identity_pem,
        env.tls_identity_pem is None ==> effective.tls_identity_pem == loaded.tls_identity_pem,
        env.tls_identity_pkcs12 is Some ==> effective.tls_identity_pkcs12
            == env.tls_identity_pkcs12,
        env.tls_identity_pkcs12 is None ==> effective.tls_identity_pkcs12
            == loaded.tls_identity_pkcs12,
        env.tls_identity_password is Some ==> effective.tls_identity_password
            == env.tls_identity_password,
        env.tls_identity_password is None ==> effective.tls_identity_password
            == loaded.tls_identity_password,
        env.tls_ca_pem is Some ==> effective.tls_ca_pem == env.tls_ca_pem,
        env.tls_ca_pem is None ==> effective.tls_ca_pem == loaded.tls_ca_pem,
        effective.request_timeout_seconds == loaded.request_timeout_seconds,
        effective.jitter_percent == loaded.jitter_percent,
        effective.spool_max_bytes == loaded.spool_max_bytes,
        effective.persisted_allow_insecure_http == loaded.persisted_allow_insecure_http,
        effective.config_path == config_path,
        effective.config_issue == issue,
        effective.server_override == invocation.server_override,
        effective.endpoint_override is None,
        effective.tray_events == invocation.tray_events,
        effective.tray_cancel_event == invocation.tray_cancel_event,
        effective.tray_deadline_seconds == invocation.tray_deadline_seconds,
        effective.tray_activation_stdin == invocation.tray_activation_stdin,
        effective.replace_pending_pairing == invocation.replace_pending_pairing,
        effective.output_mode == invocation.output_mode,
        effective.doctor_delivery == invocation.doctor_delivery,
{
    let after = choose|after: AgentConfig| #[trigger]
        loaded.overridden(env, after) && after.invoked(invocation, config_path, issue).settled(
            invocation.command,
            build,
            Ok(effective),
        );
}

/// Which variable of the environment, or which of the options of pairing, is refused before the
/// rest is looked at; and a configuration whose settings are all good is accepted.
pub proof fn what_is_refused_first(
    loaded: AgentConfig,
    issue: Option<String>,
    env: Environment,
    invocation: Invocation,
    config_path: Option<String>,
    build: Build,
    outcome: Result<AgentConfig, ConfigFault>,
)
    requires
        loaded.configured(issue, env, invocation, config_path, build, outcome),
    ensures
        ({
            let interval_fails = (env.interval_seconds matches Some(set) && number(set@) is None);
            let slow_fails = (env.slow_interval_seconds matches Some(set) && number(set@) is None);
            let policy_fails = (env.allow_insecure_http matches Some(set) && truth(set@) is None);
            let pair = invocation.command == AgentCommand::Pair;
            let read = !interval_fails && !slow_fails && !policy_fails;
            &&& interval_fails ==> outcome == Err::<AgentConfig, ConfigFault>(
                ConfigFault::EnvironmentInterval,
            )
            &&& slow_fails && !interval_fails ==> outcome == Err::<AgentConfig, ConfigFault>(
                ConfigFault::EnvironmentSlowInterval,
            )
            &&& policy_fails && !interval_fails && !slow_fails ==> outcome == Err::<
                AgentConfig,
                ConfigFault,
            >(ConfigFault::EnvironmentInsecureHttp)
            &&& read && pair && invocation.server_override is Some && invocation.endpoint_override
                is Some ==> outcome == Err::<AgentConfig, ConfigFault>(
                ConfigFault::ServerAndEndpoint,
            )
            &&& read && pair && invocation.endpoint_override is None && (
            invocation.server_override matches Some(server) && server_base(server@) is Err)
                ==> outcome == Err::<AgentConfig, ConfigFault>(
                ConfigFault::Server(server_base(invocation.server_override->0@)->Err_0),
            )
            &&& outcome matches Err(ConfigFault::EnvironmentInterval) ==> interval_fails
            &&& outcome matches Err(ConfigFault::EnvironmentSlowInterval) ==> slow_fails
            &&& outcome matches Err(ConfigFault::EnvironmentInsecureHttp) ==> policy_fails
            &&& outcome matches Err(ConfigFault::ServerAndEndpoint) ==> pair
            &&& outcome matches Err(ConfigFault::Server(_)) ==> pair
            &&& outcome matches Err(ConfigFault::Transport(_)) ==> pair
            &&& read && invocation.command == AgentCommand::Status ==> outcome is Ok
        }),
{
}

/// A configuration that is within its bounds is enough for a command that sends nothing.
pub proof fn a_local_command_needs_no_server(
    loaded: AgentConfig,
    issue: Option<String>,
    env: Environment,
    invocation: Invocation,
    config_path: Option<String>,
    build: Build,
    outcome: Result<AgentConfig, ConfigFault>,
)
    requires
        loaded.configured(issue, env, invocation, config_path, build, outcome),
        invocation.command == AgentCommand::Probe,
        env.interval_seconds is None,
        env.slow_interval_seconds is None,
        env.allow_insecure_http is None,
        1 <= loaded.interval_seconds <= loaded.slow_interval_seconds,
        loaded.jitter_percent <= 50,
        loaded.interval_seconds * (100 + loaded.jitter_percent) <= 360_000,
        1 <= loaded.request_timeout_seconds <= 300,
        loaded.spool_max_bytes >= 1_048_576,
    ensures
        outcome is Ok,
{
}

/// What a pairing saves is what it was made with, and nothing that belongs to the process; the file
/// keeps its policy on plain HTTP.
pub proof fn what_is_saved(config: AgentConfig)
    ensures
        ({
            let saved = config.durable();
            &&& saved.endpoint == config.endpoint
            &&& saved.pairing_endpoint == config.pairing_endpoint
            &&& saved.otlp_endpoint == config.otlp_endpoint
            &&& saved.otlp_token == config.otlp_token
            &&& saved.interval_seconds == config.interval_seconds
            &&& saved.slow_interval_seconds == config.slow_interval_seconds
            &&& saved.request_timeout_seconds == config.request_timeout_seconds
            &&& saved.jitter_percent == config.jitter_percent
            &&& saved.state_dir == config.state_dir
            &&& saved.spool_max_bytes == config.spool_max_bytes
            &&& saved.tls_identity_pem == config.tls_identity_pem
            &&& saved.tls_identity_pkcs12 == config.tls_identity_pkcs12
            &&& saved.tls_identity_password == config.tls_identity_password
            &&& saved.tls_ca_pem == config.tls_ca_pem
            &&& saved.allow_insecure_http == config.persisted_allow_insecure_http
            &&& saved.config_path is None
            &&& saved.server_override is None
            &&& saved.endpoint_override is None
            &&& !saved.tray_events
            &&& saved.tray_cancel_event is None
            &&& saved.tray_deadline_seconds is None
            &&& !saved.tray_activation_stdin
            &&& !saved.replace_pending_pairing
        }),
{
}

/// An endpoint may be kept exactly where the stored policy and the one in effect both allow it.
pub proof fn what_may_be_kept(
    config: AgentConfig,
    endpoint: Seq<char>,
    verdict: Result<(), ConfigFault>,
)
    requires
        config.durable_verdict(endpoint, verdict),
    ensures
        verdict is Ok <==> may_be_sent_to(url_read(endpoint), config.allow_insecure_http) && (
        url_read(endpoint)->0.scheme == "https"@ || endpoint::is_loopback(
            url_read(endpoint)->0.host,
        ) || config.persisted_allow_insecure_http),
{
    reveal_strlit("https");
    reveal_strlit("http");
    assert("https"@.len() != "http"@.len());
}

/// A setting says yes or no in one of four words each, in letters of either size and with blanks
/// around it, and never both.
pub proof fn how_a_policy_is_written(set: Seq<char>)
    ensures
        ({
            let word = text::lowered(text::trimmed(set));
            &&& truth(set) == Some(true) <==> word == "1"@ || word == "true"@ || word == "yes"@
                || word == "on"@
            &&& truth(set) == Some(false) <==> word == "0"@ || word == "false"@ || word == "no"@
                || word == "off"@
        }),
{
    reveal_strlit("1");
    reveal_strlit("true");
    reveal_strlit("yes");
    reveal_strlit("on");
    reveal_strlit("0");
    reveal_strlit("false");
    reveal_strlit("no");
    reveal_strlit("off");
    assert("1"@[0] != "0"@[0]);
    assert("true"@.len() == 4 && "yes"@.len() == 3 && "on"@.len() == 2);
    assert("false"@.len() == 5 && "no"@.len() == 2 && "off"@.len() == 3);
    assert("on"@[0] != "no"@[0]);
    assert("yes"@[0] != "off"@[0]);
}

/// The state of a host is kept where its platform keeps such things.
pub proof fn where_the_state_is_kept(program_data: Seq<char>)
    ensures
        default_state_text(Platform::Linux, program_data) == "/var/lib/unionc-agent"@,
        default_state_text(Platform::Macos, program_data)
            == "/Library/Application Support/UnionC Agent"@,
        program_data.len() > 2 && program_data.last() != '\\' && program_data.last() != '/'
            ==> default_state_text(Platform::Windows, program_data) == program_data + "\\"@
            + "UnionC Agent"@,
{
}

} // verus!
