//! The agent's configuration: what a file, the environment and a command line make of it.

use crate::arguments::Invocation;
use crate::double::{held, held_of, nearest, nearest_of};
use crate::endpoint::{
    self, endpoint_verdict, pairing_endpoint_verdict, server_base, transport_verdict, url_at,
    url_read, EndpointFault, PairingEndpointFault, ServerFault, TransportFault,
};
use crate::platform::{below, path_below, Build, Platform};
use crate::schedule::SECOND;
use crate::text;
use vstd::arithmetic::power2::{lemma2_to64_rest, pow2};
use vstd::prelude::*;

verus! {

/// What the agent is asked to do.
#[derive(Clone, Copy, PartialEq, Eq, Structural, Debug)]
pub enum AgentCommand {
    Run,
    Once,
    Probe,
    Pair,
    Doctor,
    Status,
}

/// How results are printed.
#[derive(Clone, Copy, PartialEq, Eq, Structural, Debug)]
pub enum OutputMode {
    Json,
    Human,
}

/// The longest interval between two samples that the server takes, in seconds.
///
/// A report carries the time that passed since the one before. The server refuses for good every
/// report whose interval is longer, so a configuration that can produce one is refused at start.
pub const MAX_REPORT_INTERVAL_SECONDS: u64 = 3600;

/// The shortest interval between two samples that the server takes, in milliseconds.
pub const MIN_REPORT_INTERVAL_MILLISECONDS: u64 = 100;

/// The largest jitter that may be configured, in percent.
pub const LARGEST_JITTER_PERCENT: u8 = 50;

/// The longest request timeout that may be configured, in seconds.
pub const LONGEST_REQUEST_TIMEOUT_SECONDS: u64 = 300;

/// The smallest spool that may be configured, in bytes.
pub const SMALLEST_SPOOL_BYTES: u64 = 1_048_576;

/// The agent's configuration.
pub struct AgentConfig {
    /// Where reports are sent.
    pub endpoint: String,
    /// Where pairing requests are sent; derived from the report endpoint where it is left out.
    pub pairing_endpoint: Option<String>,
    pub otlp_endpoint: Option<String>,
    pub otlp_token: Option<String>,
    pub interval_seconds: u64,
    pub slow_interval_seconds: u64,
    pub request_timeout_seconds: u64,
    pub jitter_percent: u8,
    pub state_dir: String,
    pub spool_max_bytes: u64,
    pub tls_identity_pem: Option<String>,
    pub tls_identity_pkcs12: Option<String>,
    pub tls_identity_password: Option<String>,
    pub tls_ca_pem: Option<String>,
    pub allow_insecure_http: bool,
    /// The policy on plain HTTP as the configuration file has it, before the environment or the
    /// command line overrides it.
    pub persisted_allow_insecure_http: bool,
    pub config_path: Option<String>,
    pub server_override: Option<String>,
    pub endpoint_override: Option<String>,
    /// Send the tray one event per line.
    pub tray_events: bool,
    /// The event by which the tray cancels a pairing.
    pub tray_cancel_event: Option<String>,
    /// How long a pairing under the tray's control may take.
    pub tray_deadline_seconds: Option<u64>,
    /// The tray sends the authorization key over standard input.
    pub tray_activation_stdin: bool,
    /// Give up an incomplete pairing request for a new one.
    pub replace_pending_pairing: bool,
    pub output_mode: OutputMode,
    /// `doctor` also delivers a report.
    pub doctor_delivery: bool,
    /// What was wrong with the configuration file, where the command goes on all the same.
    pub config_issue: Option<String>,
}

/// The path behind the origin at which reports are taken.
pub open spec fn report_path() -> Seq<char> {
    "/api/modules/host-monitoring/agent/v1/report"@
}

/// The path behind the origin at which pairing requests are taken.
pub open spec fn pairing_path() -> Seq<char> {
    "/api/modules/host-monitoring/agent/v2/pairing-requests"@
}

/// The state directory where none is configured.
pub open spec fn default_state_text(platform: Platform, program_data: Seq<char>) -> Seq<char> {
    match platform {
        Platform::Windows => below(program_data, "UnionC Agent"@),
        Platform::Macos => "/Library/Application Support/UnionC Agent"@,
        Platform::Linux => "/var/lib/unionc-agent"@,
    }
}

/// The state directory where none is configured; `program_data` is what the environment says of
/// the machine-wide data directory on Windows.
pub fn default_state_dir(platform: Platform, program_data: Option<&str>) -> (r: String)
    ensures
        r@ == default_state_text(
            platform,
            match program_data {
                Some(base) => base@,
                None => "C:\\ProgramData"@,
            },
        ),
{
    match platform {
        Platform::Windows => match program_data {
            Some(base) => path_below(base, "UnionC Agent"),
            None => path_below("C:\\ProgramData", "UnionC Agent"),
        },
        Platform::Macos => text::owned("/Library/Application Support/UnionC Agent"),
        Platform::Linux => text::owned("/var/lib/unionc-agent"),
    }
}

/// The configuration file where none is named.
pub open spec fn default_config_text(platform: Platform, program_data: Seq<char>) -> Seq<char> {
    match platform {
        Platform::Windows => default_state_text(platform, program_data) + "\\config.json"@,
        Platform::Macos => default_state_text(platform, program_data) + "/config.json"@,
        Platform::Linux => "/etc/unionc-agent/config.json"@,
    }
}

/// The configuration file where none is named.
pub fn default_config_path(platform: Platform, program_data: Option<&str>) -> (r: String)
    ensures
        r@ == default_config_text(
            platform,
            match program_data {
                Some(base) => base@,
                None => "C:\\ProgramData"@,
            },
        ),
{
    match platform {
        Platform::Windows => text::cat(
            default_state_dir(platform, program_data).as_str(),
            "\\config.json",
        ),
        Platform::Macos => text::cat(
            default_state_dir(platform, program_data).as_str(),
            "/config.json",
        ),
        Platform::Linux => text::owned("/etc/unionc-agent/config.json"),
    }
}

impl AgentConfig {
    /// Nothing is set but the defaults, with this state directory.
    pub open spec fn is_default(self, state_dir: Seq<char>) -> bool {
        &&& self.endpoint@ == "http://127.0.0.1:8081/api/modules/host-monitoring/agent/v1/report"@
        &&& self.pairing_endpoint is None
        &&& self.otlp_endpoint is None
        &&& self.otlp_token is None
        &&& self.interval_seconds == 10
        &&& self.slow_interval_seconds == 30
        &&& self.request_timeout_seconds == 10
        &&& self.jitter_percent == 10
        &&& self.state_dir@ == state_dir
        &&& self.spool_max_bytes == 67_108_864
        &&& self.tls_identity_pem is None
        &&& self.tls_identity_pkcs12 is None
        &&& self.tls_identity_password is None
        &&& self.tls_ca_pem is None
        &&& !self.allow_insecure_http
        &&& !self.persisted_allow_insecure_http
        &&& self.config_path is None
        &&& self.server_override is None
        &&& self.endpoint_override is None
        &&& !self.tray_events
        &&& self.tray_cancel_event is None
        &&& self.tray_deadline_seconds is None
        &&& !self.tray_activation_stdin
        &&& !self.replace_pending_pairing
        &&& self.output_mode == OutputMode::Human
        &&& !self.doctor_delivery
        &&& self.config_issue is None
    }

    /// The defaults of a platform; `program_data` is what the environment says of the machine-wide
    /// data directory on Windows.
    pub fn defaults(platform: Platform, program_data: Option<&str>) -> (r: AgentConfig)
        ensures
            r.is_default(
                default_state_text(
                    platform,
                    match program_data {
                        Some(base) => base@,
                        None => "C:\\ProgramData"@,
                    },
                ),
            ),
    {
        AgentConfig {
            endpoint: text::owned(
                "http://127.0.0.1:8081/api/modules/host-monitoring/agent/v1/report",
            ),
            pairing_endpoint: None,
            otlp_endpoint: None,
            otlp_token: None,
            interval_seconds: 10,
            slow_interval_seconds: 30,
            request_timeout_seconds: 10,
            jitter_percent: 10,
            state_dir: default_state_dir(platform, program_data),
            spool_max_bytes: 67_108_864,
            tls_identity_pem: None,
            tls_identity_pkcs12: None,
            tls_identity_password: None,
            tls_ca_pem: None,
            allow_insecure_http: false,
            persisted_allow_insecure_http: false,
            config_path: None,
            server_override: None,
            endpoint_override: None,
            tray_events: false,
            tray_cancel_event: None,
            tray_deadline_seconds: None,
            tray_activation_stdin: false,
            replace_pending_pairing: false,
            output_mode: OutputMode::Human,
            doctor_delivery: false,
            config_issue: None,
        }
    }
}

impl Default for AgentConfig {
    /// The defaults of a Linux host. Those of another platform come from
    /// [`AgentConfig::defaults`].
    fn default() -> (r: Self)
        ensures
            r.is_default(default_state_text(Platform::Linux, Seq::empty())),
    {
        AgentConfig::defaults(Platform::Linux, None)
    }
}

// ---------------------------------------------------------------------------
// Values out of texts
// ---------------------------------------------------------------------------
/// `s` without white space at its ends, unless nothing is left.
pub open spec fn filled(s: Seq<char>) -> Option<Seq<char>> {
    if text::trimmed(s).len() > 0 {
        Some(text::trimmed(s))
    } else {
        None
    }
}

/// `value` without white space at its ends, unless nothing is left.
pub fn non_empty(value: String) -> (r: Option<String>)
    ensures
        text::opt_view(r) == filled(value@),
{
    let value = text::trim(value.as_str());
    if value.as_str().is_empty() {
        None
    } else {
        Some(value)
    }
}

/// What `s` says as a yes or a no.
pub open spec fn truth(s: Seq<char>) -> Option<bool> {
    let word = text::lowered(text::trimmed(s));
    if word == "1"@ || word == "true"@ || word == "yes"@ || word == "on"@ {
        Some(true)
    } else if word == "0"@ || word == "false"@ || word == "no"@ || word == "off"@ {
        Some(false)
    } else {
        None
    }
}

/// What `value` says as a yes or a no.
pub fn parse_bool(value: &str) -> (r: Option<bool>)
    ensures
        r == truth(value@),
{
    let word = text::lower(text::trim(value).as_str());
    let word = word.as_str();
    if text::same(word, "1") || text::same(word, "true") || text::same(word, "yes") || text::same(
        word,
        "on",
    ) {
        Some(true)
    } else if text::same(word, "0") || text::same(word, "false") || text::same(word, "no")
        || text::same(word, "off") {
        Some(false)
    } else {
        None
    }
}

/// The number that `s` writes, if it fits sixty-four bits.
pub open spec fn number(s: Seq<char>) -> Option<u64> {
    match text::unsigned_value(s) {
        Some(n) if n <= u64::MAX => Some(n as u64),
        _ => None,
    }
}

fn parse_number(s: &str) -> (r: Option<u64>)
    ensures
        r == number(s@),
{
    text::parse_unsigned(&text::to_chars(s), u64::MAX)
}

// ---------------------------------------------------------------------------
// Faults
// ---------------------------------------------------------------------------
/// What is wrong with a configuration.
#[derive(Debug)]
pub enum ConfigFault {
    /// The environment sets no valid interval.
    EnvironmentInterval,
    EnvironmentSlowInterval,
    EnvironmentInsecureHttp,
    ServerAndEndpoint,
    Server(ServerFault),
    Transport(TransportFault),
    Endpoint(EndpointFault),
    PairingEndpoint(PairingEndpointFault),
    EndpointTooLong,
    ZeroInterval,
    JitterTooLarge,
    CycleTooLong { interval_seconds: u64, jitter_percent: u8 },
    SlowIntervalTooShort,
    ZeroTimeout,
    TimeoutTooLong,
    SpoolTooSmall,
    OtlpNotBuiltIn,
    TwoIdentities,
    PasswordWithoutPkcs12,
    Pkcs12Unsupported,
    PemUnsupported,
    /// The configuration file could not be used.
    Issue { issue: String },
}

/// How many bits `percent` hundredths take behind the point, beyond fifty-one, as a double.
pub open spec fn hundredth_bits(percent: nat) -> nat
    decreases
            if percent < 200 {
                200 - percent
            } else {
                0
            },
{
    if percent == 0 || percent >= 200 {
        0
    } else {
        1 + hundredth_bits(2 * percent)
    }
}

/// The longest interval in whole seconds that jitter makes of the configured one, as the product of
/// two doubles gives it: the factor is one plus the jitter's share, each rounded to a double, and
/// so are the interval and the product.
pub open spec fn shown_cycle(interval_seconds: u64, jitter_percent: u8) -> nat {
    let unit = pow2(51 + hundredth_bits(jitter_percent as nat));
    let factor = held(unit + nearest(jitter_percent as nat * unit, 100));
    nearest(held(held(interval_seconds as nat) * factor), unit)
}

/// The longest interval, in hundredths of a second, that jitter makes of the configured one.
pub open spec fn worst_cycle(interval_seconds: u64, jitter_percent: u8) -> nat {
    (interval_seconds * (100 + jitter_percent)) as nat
}

/// The longest interval, in whole seconds, that keeps within the server's limit at this jitter.
pub open spec fn longest_interval(jitter_percent: u8) -> int {
    MAX_REPORT_INTERVAL_SECONDS * 100 / (100 + jitter_percent)
}

impl ConfigFault {
    /// The words in which the fault is reported.
    pub open spec fn text(self) -> Seq<char> {
        match self {
            ConfigFault::EnvironmentInterval => "invalid interval"@,
            ConfigFault::EnvironmentSlowInterval => "invalid slow interval"@,
            ConfigFault::EnvironmentInsecureHttp =>
                "invalid UNIONC_AGENT_ALLOW_INSECURE_HTTP boolean: expected true/false, 1/0, yes/no, or on/off"@,
            ConfigFault::ServerAndEndpoint =>
                "pair accepts either --server or --endpoint, not both"@,
            ConfigFault::Server(fault) => "invalid --server URL: "@ + fault.text(),
            ConfigFault::Transport(fault) => fault.text(),
            ConfigFault::Endpoint(fault) => fault.text(),
            ConfigFault::PairingEndpoint(fault) => fault.text(),
            ConfigFault::EndpointTooLong => "the endpoint is too long to be an address"@,
            ConfigFault::ZeroInterval => "interval_seconds must be greater than zero"@,
            ConfigFault::JitterTooLarge => "jitter_percent must not exceed 50"@,
            ConfigFault::CycleTooLong { interval_seconds, jitter_percent } =>
                "interval_seconds ("@ + text::decimal(interval_seconds as nat)
                    + ") with jitter_percent ("@ + text::decimal(jitter_percent as nat)
                    + ") can produce a measured interval of up to "@ + text::decimal(
                    shown_cycle(interval_seconds, jitter_percent),
                )
                    + "s, which exceeds the server contract limit of 3600s; such reports are rejected with HTTP 400 and discarded from the spool. Use interval_seconds <= "@
                    + text::decimal(longest_interval(jitter_percent) as nat)
                    + " at this jitter, or lower jitter_percent"@,
            ConfigFault::SlowIntervalTooShort =>
                "slow_interval_seconds must be at least interval_seconds"@,
            ConfigFault::ZeroTimeout => "request_timeout_seconds must be greater than zero"@,
            ConfigFault::TimeoutTooLong =>
                "request_timeout_seconds must not exceed 300 seconds"@,
            ConfigFault::SpoolTooSmall => "spool_max_bytes must be at least 1 MiB"@,
            ConfigFault::OtlpNotBuiltIn =>
                "OTLP export is configured but this Agent was built without the optional `otlp` feature; rebuild with `--features otlp` or remove the OTLP settings"@,
            ConfigFault::TwoIdentities => "configure only one TLS client identity format"@,
            ConfigFault::PasswordWithoutPkcs12 =>
                "tls_identity_password requires tls_identity_pkcs12"@,
            ConfigFault::Pkcs12Unsupported =>
                "tls_identity_pkcs12 is supported only on Windows and macOS; use tls_identity_pem on this platform"@,
            ConfigFault::PemUnsupported =>
                "the native TLS backend requires tls_identity_pkcs12 instead of tls_identity_pem"@,
            ConfigFault::Issue { issue } => issue@,
        }
    }

    /// The words in which the fault is reported.
    pub fn message(&self) -> (r: String)
        ensures
            r@ == self.text(),
    {
        match self {
            ConfigFault::EnvironmentInterval => text::owned("invalid interval"),
            ConfigFault::EnvironmentSlowInterval => text::owned("invalid slow interval"),
            ConfigFault::EnvironmentInsecureHttp => text::owned(
                "invalid UNIONC_AGENT_ALLOW_INSECURE_HTTP boolean: expected true/false, 1/0, yes/no, or on/off",
            ),
            ConfigFault::ServerAndEndpoint => text::owned(
                "pair accepts either --server or --endpoint, not both",
            ),
            ConfigFault::Server(fault) => text::cat(
                "invalid --server URL: ",
                fault.message().as_str(),
            ),
            ConfigFault::Transport(fault) => fault.message(),
            ConfigFault::Endpoint(fault) => fault.message(),
            ConfigFault::PairingEndpoint(fault) => fault.message(),
            ConfigFault::EndpointTooLong => text::owned("the endpoint is too long to be an address"),
            ConfigFault::ZeroInterval => text::owned("interval_seconds must be greater than zero"),
            ConfigFault::JitterTooLarge => text::owned("jitter_percent must not exceed 50"),
            ConfigFault::CycleTooLong { interval_seconds, jitter_percent } => cycle_message(
                *interval_seconds,
                *jitter_percent,
            ),
            ConfigFault::SlowIntervalTooShort => text::owned(
                "slow_interval_seconds must be at least interval_seconds",
            ),
            ConfigFault::ZeroTimeout => text::owned(
                "request_timeout_seconds must be greater than zero",
            ),
            ConfigFault::TimeoutTooLong => text::owned(
                "request_timeout_seconds must not exceed 300 seconds",
            ),
            ConfigFault::SpoolTooSmall => text::owned("spool_max_bytes must be at least 1 MiB"),
            ConfigFault::OtlpNotBuiltIn => text::owned(
                "OTLP export is configured but this Agent was built without the optional `otlp` feature; rebuild with `--features otlp` or remove the OTLP settings",
            ),
            ConfigFault::TwoIdentities => text::owned(
                "configure only one TLS client identity format",
            ),
            ConfigFault::PasswordWithoutPkcs12 => text::owned(
                "tls_identity_password requires tls_identity_pkcs12",
            ),
            ConfigFault::Pkcs12Unsupported => text::owned(
                "tls_identity_pkcs12 is supported only on Windows and macOS; use tls_identity_pem on this platform",
            ),
            ConfigFault::PemUnsupported => text::owned(
                "the native TLS backend requires tls_identity_pkcs12 instead of tls_identity_pem",
            ),
            ConfigFault::Issue { issue } => issue.clone(),
        }
    }
}

/// The longest interval, in hundredths of a second, that jitter makes of the configured one.
fn worst_cycle_of(interval_seconds: u64, jitter_percent: u8) -> (r: u128)
    ensures
        r == worst_cycle(interval_seconds, jitter_percent),
{
    assert(0 <= interval_seconds * (100 + jitter_percent) <= u64::MAX * 355) by (nonlinear_arith)
        requires
            interval_seconds <= u64::MAX,
            jitter_percent <= 255,
    ;
    (interval_seconds as u128) * (100 + (jitter_percent as u128))
}

/// The unit of `percent` hundredths as a double.
fn hundredth_unit(percent: u8) -> (r: u128)
    ensures
        r == pow2(51 + hundredth_bits(percent as nat)),
        0 < r <= 0x800_0000_0000_0000,
{
    proof {
        lemma2_to64_rest();
        reveal_with_fuel(hundredth_bits, 9);
    }
    if percent == 0 || percent >= 200 {
        0x8_0000_0000_0000
    } else if percent >= 100 {
        0x10_0000_0000_0000
    } else if percent >= 50 {
        0x20_0000_0000_0000
    } else if percent >= 25 {
        0x40_0000_0000_0000
    } else if percent >= 13 {
        0x80_0000_0000_0000
    } else if percent >= 7 {
        0x100_0000_0000_0000
    } else if percent >= 4 {
        0x200_0000_0000_0000
    } else if percent >= 2 {
        0x400_0000_0000_0000
    } else {
        0x800_0000_0000_0000
    }
}

/// The longest interval in whole seconds that jitter makes of the configured one.
fn shown_cycle_of(interval_seconds: u64, jitter_percent: u8) -> (r: u128)
    ensures
        r == shown_cycle(interval_seconds, jitter_percent),
{
    let unit: u128 = hundredth_unit(jitter_percent);
    assert(jitter_percent * unit <= 255 * unit) by (nonlinear_arith)
        requires
            jitter_percent <= 255,
            unit > 0,
    ;
    let share: u128 = nearest_of((jitter_percent as u128) * unit, 100);
    let factor: u128 = held_of(unit + share);
    let interval: u128 = held_of(interval_seconds as u128);
    assert(interval * factor < 0x2_0000_0000_0000_0000 * 0x4000_0000_0000_0000) by (nonlinear_arith)
        requires
            interval < 0x2_0000_0000_0000_0000,
            factor <= 0x4000_0000_0000_0000,
    ;
    nearest_of(held_of(interval * factor), unit)
}

fn cycle_message(interval_seconds: u64, jitter_percent: u8) -> (r: String)
    ensures
        r@ == (ConfigFault::CycleTooLong { interval_seconds, jitter_percent }).text(),
{
    let worst: u128 = shown_cycle_of(interval_seconds, jitter_percent);
    let longest: u64 = MAX_REPORT_INTERVAL_SECONDS * 100 / (100 + (jitter_percent as u64));
    let mut out = text::cat5(
        "interval_seconds (",
        text::decimal_text(interval_seconds).as_str(),
        ") with jitter_percent (",
        text::decimal_text(jitter_percent as u64).as_str(),
        ") can produce a measured interval of up to ",
    );
    out.append(text::decimal_text_wide(worst).as_str());
    out.append(
        "s, which exceeds the server contract limit of 3600s; such reports are rejected with HTTP 400 and discarded from the spool. Use interval_seconds <= ",
    );
    out.append(text::decimal_text(longest).as_str());
    out.append(" at this jitter, or lower jitter_percent");
    out
}

// ---------------------------------------------------------------------------
// The environment
// ---------------------------------------------------------------------------
/// What the environment says of the configuration, variable by variable.
pub struct Environment {
    pub endpoint: Option<String>,
    pub pairing_endpoint: Option<String>,
    pub otlp_endpoint: Option<String>,
    pub otlp_token: Option<String>,
    pub state_dir: Option<String>,
    pub interval_seconds: Option<String>,
    pub slow_interval_seconds: Option<String>,
    pub tls_identity_pem: Option<String>,
    pub tls_identity_pkcs12: Option<String>,
    pub tls_identity_password: Option<String>,
    pub tls_ca_pem: Option<String>,
    pub allow_insecure_http: Option<String>,
}

impl Environment {
    /// The first variable that cannot be read.
    pub open spec fn fault(self) -> Option<ConfigFault> {
        if self.interval_seconds is Some && number(self.interval_seconds->0@) is None {
            Some(ConfigFault::EnvironmentInterval)
        } else if self.slow_interval_seconds is Some && number(self.slow_interval_seconds->0@)
            is None {
            Some(ConfigFault::EnvironmentSlowInterval)
        } else if self.allow_insecure_http is Some && truth(self.allow_insecure_http->0@) is None {
            Some(ConfigFault::EnvironmentInsecureHttp)
        } else {
            None
        }
    }
}

/// An override, where there is one.
pub open spec fn over<T>(given: Option<T>, before: T) -> T {
    match given {
        Some(value) => value,
        None => before,
    }
}

/// A text that the environment sets or, with nothing but white space, clears.
pub open spec fn over_filled(given: Option<String>, before: Option<String>) -> Option<Seq<char>> {
    match given {
        Some(value) => filled(value@),
        None => text::opt_view(before),
    }
}

/// A text that the environment sets.
pub open spec fn over_some(given: Option<String>, before: Option<String>) -> Option<String> {
    match given {
        Some(value) => Some(value),
        None => before,
    }
}

impl AgentConfig {
    /// `after` is this configuration with what the environment sets.
    pub open spec fn overridden(self, env: Environment, after: AgentConfig) -> bool {
        &&& after.endpoint == over(env.endpoint, self.endpoint)
        &&& text::opt_view(after.pairing_endpoint) == over_filled(
            env.pairing_endpoint,
            self.pairing_endpoint,
        )
        &&& text::opt_view(after.otlp_endpoint) == over_filled(
            env.otlp_endpoint,
            self.otlp_endpoint,
        )
        &&& text::opt_view(after.otlp_token) == over_filled(env.otlp_token, self.otlp_token)
        &&& after == (AgentConfig {
            endpoint: after.endpoint,
            pairing_endpoint: after.pairing_endpoint,
            otlp_endpoint: after.otlp_endpoint,
            otlp_token: after.otlp_token,
            state_dir: over(env.state_dir, self.state_dir),
            interval_seconds: match env.interval_seconds {
                Some(value) => number(value@)->0,
                None => self.interval_seconds,
            },
            slow_interval_seconds: match env.slow_interval_seconds {
                Some(value) => number(value@)->0,
                None => self.slow_interval_seconds,
            },
            tls_identity_pem: over_some(env.tls_identity_pem, self.tls_identity_pem),
            tls_identity_pkcs12: over_some(env.tls_identity_pkcs12, self.tls_identity_pkcs12),
            tls_identity_password: over_some(
                env.tls_identity_password,
                self.tls_identity_password,
            ),
            tls_ca_pem: over_some(env.tls_ca_pem, self.tls_ca_pem),
            allow_insecure_http: match env.allow_insecure_http {
                Some(value) => truth(value@)->0,
                None => self.allow_insecure_http,
            },
            ..self
        })
    }

    /// The configuration with what the environment sets.
    pub fn apply_environment(self, env: Environment) -> (r: Result<AgentConfig, ConfigFault>)
        ensures
            match env.fault() {
                Some(fault) => r == Err::<AgentConfig, ConfigFault>(fault),
                None => r matches Ok(after) && self.overridden(env, after),
            },
    {
        let interval_seconds: u64 = match set_number(env.interval_seconds, self.interval_seconds) {
            Some(seconds) => seconds,
            None => {
                return Err(ConfigFault::EnvironmentInterval);
            },
        };
        let slow_interval_seconds: u64 = match set_number(
            env.slow_interval_seconds,
            self.slow_interval_seconds,
        ) {
            Some(seconds) => seconds,
            None => {
                return Err(ConfigFault::EnvironmentSlowInterval);
            },
        };
        let allow_insecure_http: bool = match set_truth(
            env.allow_insecure_http,
            self.allow_insecure_http,
        ) {
            Some(allowed) => allowed,
            None => {
                return Err(ConfigFault::EnvironmentInsecureHttp);
            },
        };
        Ok(
            AgentConfig {
                endpoint: set_text(env.endpoint, self.endpoint),
                pairing_endpoint: set_filled(env.pairing_endpoint, self.pairing_endpoint),
                otlp_endpoint: set_filled(env.otlp_endpoint, self.otlp_endpoint),
                otlp_token: set_filled(env.otlp_token, self.otlp_token),
                state_dir: set_text(env.state_dir, self.state_dir),
                interval_seconds,
                slow_interval_seconds,
                tls_identity_pem: set_some(env.tls_identity_pem, self.tls_identity_pem),
                tls_identity_pkcs12: set_some(env.tls_identity_pkcs12, self.tls_identity_pkcs12),
                tls_identity_password: set_some(
                    env.tls_identity_password,
                    self.tls_identity_password,
                ),
                tls_ca_pem: set_some(env.tls_ca_pem, self.tls_ca_pem),
                allow_insecure_http,
                ..self
            },
        )
    }
}

fn set_text(given: Option<String>, before: String) -> (r: String)
    ensures
        r == over(given, before),
{
    match given {
        Some(value) => value,
        None => before,
    }
}

fn set_filled(given: Option<String>, before: Option<String>) -> (r: Option<String>)
    ensures
        text::opt_view(r) == over_filled(given, before),
{
    match given {
        Some(value) => non_empty(value),
        None => before,
    }
}

fn set_some(given: Option<String>, before: Option<String>) -> (r: Option<String>)
    ensures
        r == over_some(given, before),
{
    match given {
        Some(value) => Some(value),
        None => before,
    }
}

fn set_number(given: Option<String>, before: u64) -> (r: Option<u64>)
    ensures
        r == match given {
            Some(value) => number(value@),
            None => Some(before),
        },
{
    match given {
        Some(value) => parse_number(value.as_str()),
        None => Some(before),
    }
}

fn set_truth(given: Option<String>, before: bool) -> (r: Option<bool>)
    ensures
        r == match given {
            Some(value) => truth(value@),
            None => Some(before),
        },
{
    match given {
        Some(value) => parse_bool(value.as_str()),
        None => Some(before),
    }
}

// ---------------------------------------------------------------------------
// Addresses
// ---------------------------------------------------------------------------
/// Reports may be sent to `endpoint` under this policy.
pub open spec fn endpoint_accepted(endpoint: Seq<char>, allow_insecure_http: bool) -> bool {
    endpoint_verdict(url_read(endpoint), endpoint, allow_insecure_http, Ok(()))
}

/// Pairing requests may be sent to `endpoint`.
pub open spec fn pairing_accepted(endpoint: Seq<char>) -> bool {
    pairing_endpoint_verdict(url_read(endpoint), endpoint, Ok(()))
}

/// Where pairing requests go when reports go to `endpoint`: the same server, at its pairing path.
/// A report endpoint that ends in the report path keeps what stands before it.
pub open spec fn derived_pairing(endpoint: Seq<char>) -> Seq<char> {
    if text::ends(endpoint, report_path()) {
        endpoint.take(endpoint.len() - report_path().len()) + pairing_path()
    } else {
        endpoint::without_slashes(url_at(endpoint, pairing_path(), None, None)->0)
    }
}

impl AgentConfig {
    /// There is a place where pairing requests go: it is set, or the report endpoint ends in the
    /// report path, or it is a URL whose path can be rewritten.
    pub open spec fn can_ask(self) -> bool {
        self.pairing_endpoint is Some || text::ends(self.endpoint@, report_path()) || (url_read(
            self.endpoint@,
        ) matches Some(url) && url.takes(pairing_path().len() as int, None, None))
    }

    /// Where pairing requests go.
    pub open spec fn pairing_text(self) -> Seq<char> {
        match self.pairing_endpoint {
            Some(endpoint) => endpoint@,
            None => derived_pairing(self.endpoint@),
        }
    }

    /// Where pairing requests go. A report endpoint that is no URL has no server to ask.
    pub fn pairing_endpoint(&self) -> (r: String)
        requires
            self.can_ask(),
        ensures
            r@ == self.pairing_text(),
    {
        if let Some(endpoint) = &self.pairing_endpoint {
            return endpoint.clone();
        }
        if let Some(base) = text::strip_suffix(
            self.endpoint.as_str(),
            "/api/modules/host-monitoring/agent/v1/report",
        ) {
            return text::cat(
                base.as_str(),
                "/api/modules/host-monitoring/agent/v2/pairing-requests",
            );
        }
        proof {
            reveal_strlit("/api/modules/host-monitoring/agent/v2/pairing-requests");
        }
        match endpoint::url_with_path(
            self.endpoint.as_str(),
            "/api/modules/host-monitoring/agent/v2/pairing-requests",
        ) {
            Some(url) => endpoint::trim_slashes(url.as_str()),
            None => String::new(),
        }
    }

    /// Where pairing requests go, if the report endpoint has a server to ask.
    pub fn try_pairing_endpoint(&self) -> (r: Option<String>)
        ensures
            match r {
                Some(endpoint) => self.can_ask() && endpoint@ == self.pairing_text(),
                None => !self.can_ask(),
            },
    {
        if self.pairing_endpoint.is_some() || text::ends_with(
            self.endpoint.as_str(),
            "/api/modules/host-monitoring/agent/v1/report",
        ) {
            return Some(self.pairing_endpoint());
        }
        proof {
            reveal_strlit("/api/modules/host-monitoring/agent/v2/pairing-requests");
        }
        match endpoint::read_url(self.endpoint.as_str()) {
            Some(url) => if endpoint::takes_path(&url, 54) {
                Some(self.pairing_endpoint())
            } else {
                None
            },
            None => None,
        }
    }

    /// What the pairing command makes of `--server` and `--endpoint`: the endpoint and the pairing
    /// endpoint by their characters.
    pub open spec fn pair_options(self) -> Result<(Seq<char>, Option<Seq<char>>), ConfigFault> {
        match (self.server_override, self.endpoint_override) {
            (Some(_), Some(_)) => Err(ConfigFault::ServerAndEndpoint),
            (Some(server), None) => match server_base(server@) {
                Err(fault) => Err(ConfigFault::Server(fault)),
                Ok(base) => Ok(
                    (
                        endpoint::without_slashes(base) + report_path(),
                        Some(endpoint::without_slashes(base) + pairing_path()),
                    ),
                ),
            },
            (None, Some(given)) => Ok((given@, None)),
            (None, None) => Ok((self.endpoint@, text::opt_view(self.pairing_endpoint))),
        }
    }

    /// Apply `--server` or `--endpoint` to the pairing command.
    pub fn apply_pair_options(&mut self) -> (r: Result<(), ConfigFault>)
        ensures
            match old(self).pair_options() {
                Err(fault) => r == Err::<(), ConfigFault>(fault) && *final(self) == *old(self),
                Ok((endpoint, pairing)) => {
                    &&& r is Ok
                    &&& final(self).endpoint@ == endpoint
                    &&& text::opt_view(final(self).pairing_endpoint) == pairing
                    &&& *final(self) == (AgentConfig {
                        endpoint: final(self).endpoint,
                        pairing_endpoint: final(self).pairing_endpoint,
                        endpoint_override: None,
                        ..*old(self)
                    })
                },
            },
    {
        if self.server_override.is_some() && self.endpoint_override.is_some() {
            return Err(ConfigFault::ServerAndEndpoint);
        }
        if let Some(server) = &self.server_override {
            let base = match endpoint::validate_server_base(server.as_str()) {
                Err(fault) => {
                    return Err(ConfigFault::Server(fault));
                },
                Ok(base) => endpoint::trim_slashes(base.as_str()),
            };
            self.endpoint = text::cat(
                base.as_str(),
                "/api/modules/host-monitoring/agent/v1/report",
            );
            self.pairing_endpoint = Some(
                text::cat(
                    base.as_str(),
                    "/api/modules/host-monitoring/agent/v2/pairing-requests",
                ),
            );
        } else if let Some(endpoint) = self.endpoint_override.take() {
            self.endpoint = endpoint;
            self.pairing_endpoint = None;
        }
        Ok(())
    }

    /// The verdict on an endpoint that will outlive the process: plain HTTP to another machine
    /// needs both the stored policy and the one in effect.
    pub open spec fn durable_verdict(self, endpoint: Seq<char>, verdict: Result<(), ConfigFault>) -> bool {
        match verdict {
            Err(ConfigFault::Transport(fault)) => transport_verdict(
                url_read(endpoint),
                endpoint,
                self.persisted_allow_insecure_http,
                Err(fault),
            ),
            Err(ConfigFault::Endpoint(fault)) => {
                &&& transport_verdict(
                    url_read(endpoint),
                    endpoint,
                    self.persisted_allow_insecure_http,
                    Ok(()),
                )
                &&& endpoint_verdict(
                    url_read(endpoint),
                    endpoint,
                    self.allow_insecure_http,
                    Err(fault),
                )
            },
            Ok(()) => {
                &&& transport_verdict(
                    url_read(endpoint),
                    endpoint,
                    self.persisted_allow_insecure_http,
                    Ok(()),
                )
                &&& endpoint_accepted(endpoint, self.allow_insecure_http)
            },
            _ => false,
        }
    }

    /// Whether `report_endpoint` may be kept beyond this process.
    pub fn validate_durable_report_endpoint(&self, report_endpoint: &str) -> (r: Result<
        (),
        ConfigFault,
    >)
        ensures
            self.durable_verdict(report_endpoint@, r),
    {
        if let Err(fault) = endpoint::validate_persisted_pairing_transport(
            report_endpoint,
            self.persisted_allow_insecure_http,
        ) {
            return Err(ConfigFault::Transport(fault));
        }
        match endpoint::validate_endpoint(report_endpoint, self.allow_insecure_http) {
            Err(fault) => Err(ConfigFault::Endpoint(fault)),
            Ok(()) => Ok(()),
        }
    }
}

/// No override of the policy makes plain HTTP to another machine durable: without the stored
/// policy it is refused whatever the policy in effect.
pub proof fn overrides_never_make_plaintext_durable(config: AgentConfig, endpoint: Seq<char>)
    requires
        !config.persisted_allow_insecure_http,
        url_read(endpoint) is Some,
        url_read(endpoint)->0.scheme == "http"@,
        !endpoint::is_loopback(url_read(endpoint)->0.host),
    ensures
        !config.durable_verdict(endpoint, Ok(())),
{
}

// ---------------------------------------------------------------------------
// Validation
// ---------------------------------------------------------------------------
impl AgentConfig {
    /// The first value that is out of bounds by itself.
    pub open spec fn bounds_fault(self) -> Option<ConfigFault> {
        if self.interval_seconds == 0 {
            Some(ConfigFault::ZeroInterval)
        } else if self.jitter_percent > LARGEST_JITTER_PERCENT {
            Some(ConfigFault::JitterTooLarge)
        } else if worst_cycle(self.interval_seconds, self.jitter_percent)
            > MAX_REPORT_INTERVAL_SECONDS * 100 {
            Some(
                ConfigFault::CycleTooLong {
                    interval_seconds: self.interval_seconds,
                    jitter_percent: self.jitter_percent,
                },
            )
        } else if self.slow_interval_seconds < self.interval_seconds {
            Some(ConfigFault::SlowIntervalTooShort)
        } else if self.request_timeout_seconds == 0 {
            Some(ConfigFault::ZeroTimeout)
        } else if self.request_timeout_seconds > LONGEST_REQUEST_TIMEOUT_SECONDS {
            Some(ConfigFault::TimeoutTooLong)
        } else if self.spool_max_bytes < SMALLEST_SPOOL_BYTES {
            Some(ConfigFault::SpoolTooSmall)
        } else {
            None
        }
    }

    /// The command sends reports, so that the settings for sending matter.
    pub open spec fn delivers(self, command: AgentCommand) -> bool {
        match command {
            AgentCommand::Probe => false,
            AgentCommand::Doctor => self.doctor_delivery,
            _ => true,
        }
    }

    /// The first fault of the client identity.
    pub open spec fn identity_fault(self, build: Build) -> Option<ConfigFault> {
        if self.tls_identity_pem is Some && self.tls_identity_pkcs12 is Some {
            Some(ConfigFault::TwoIdentities)
        } else if self.tls_identity_password is Some && self.tls_identity_pkcs12 is None {
            Some(ConfigFault::PasswordWithoutPkcs12)
        } else if build.platform == Platform::Linux && self.tls_identity_pkcs12 is Some {
            Some(ConfigFault::Pkcs12Unsupported)
        } else if build.platform != Platform::Linux && self.tls_identity_pem is Some {
            Some(ConfigFault::PemUnsupported)
        } else {
            None
        }
    }

    /// The verdict on the configuration for `command`. The status command takes any; every other
    /// command wants values within their bounds, and one that sends reports also wants endpoints
    /// that may be used, no OTLP settings without that output, and a client identity that fits.
    pub open spec fn validated(
        self,
        command: AgentCommand,
        build: Build,
        verdict: Result<(), ConfigFault>,
    ) -> bool {
        if command == AgentCommand::Status {
            verdict == Ok::<(), ConfigFault>(())
        } else if self.bounds_fault() is Some {
            verdict == Err::<(), ConfigFault>(self.bounds_fault()->0)
        } else if !self.delivers(command) {
            verdict == Ok::<(), ConfigFault>(())
        } else if !endpoint_accepted(self.endpoint@, self.allow_insecure_http) {
            verdict matches Err(ConfigFault::Endpoint(fault)) && endpoint_verdict(
                url_read(self.endpoint@),
                self.endpoint@,
                self.allow_insecure_http,
                Err(fault),
            )
        } else if !self.can_ask() {
            verdict == Err::<(), ConfigFault>(ConfigFault::EndpointTooLong)
        } else if !pairing_accepted(self.pairing_text()) {
            verdict matches Err(ConfigFault::PairingEndpoint(fault)) && pairing_endpoint_verdict(
                url_read(self.pairing_text()),
                self.pairing_text(),
                Err(fault),
            )
        } else if !build.otlp && (self.otlp_endpoint is Some || self.otlp_token is Some) {
            verdict == Err::<(), ConfigFault>(ConfigFault::OtlpNotBuiltIn)
        } else if build.otlp && self.otlp_endpoint is Some && !endpoint_accepted(
            self.otlp_endpoint->0@,
            self.allow_insecure_http,
        ) {
            verdict matches Err(ConfigFault::Endpoint(fault)) && endpoint_verdict(
                url_read(self.otlp_endpoint->0@),
                self.otlp_endpoint->0@,
                self.allow_insecure_http,
                Err(fault),
            )
        } else {
            verdict == match self.identity_fault(build) {
                Some(fault) => Err::<(), ConfigFault>(fault),
                None => Ok(()),
            }
        }
    }

    fn check_bounds(&self) -> (r: Result<(), ConfigFault>)
        ensures
            r == match self.bounds_fault() {
                Some(fault) => Err::<(), ConfigFault>(fault),
                None => Ok(()),
            },
    {
        if self.interval_seconds == 0 {
            return Err(ConfigFault::ZeroInterval);
        }
        if self.jitter_percent > LARGEST_JITTER_PERCENT {
            return Err(ConfigFault::JitterTooLarge);
        }
        if self.worst_case_cycle_centiseconds() > (MAX_REPORT_INTERVAL_SECONDS as u128) * 100 {
            return Err(
                ConfigFault::CycleTooLong {
                    interval_seconds: self.interval_seconds,
                    jitter_percent: self.jitter_percent,
                },
            );
        }
        if self.slow_interval_seconds < self.interval_seconds {
            return Err(ConfigFault::SlowIntervalTooShort);
        }
        if self.request_timeout_seconds == 0 {
            return Err(ConfigFault::ZeroTimeout);
        }
        if self.request_timeout_seconds > LONGEST_REQUEST_TIMEOUT_SECONDS {
            return Err(ConfigFault::TimeoutTooLong);
        }
        if self.spool_max_bytes < SMALLEST_SPOOL_BYTES {
            return Err(ConfigFault::SpoolTooSmall);
        }
        Ok(())
    }

    fn check_identity(&self, build: Build) -> (r: Result<(), ConfigFault>)
        ensures
            r == match self.identity_fault(build) {
                Some(fault) => Err::<(), ConfigFault>(fault),
                None => Ok(()),
            },
    {
        if self.tls_identity_pem.is_some() && self.tls_identity_pkcs12.is_some() {
            return Err(ConfigFault::TwoIdentities);
        }
        if self.tls_identity_password.is_some() && self.tls_identity_pkcs12.is_none() {
            return Err(ConfigFault::PasswordWithoutPkcs12);
        }
        if build.platform == Platform::Linux && self.tls_identity_pkcs12.is_some() {
            return Err(ConfigFault::Pkcs12Unsupported);
        }
        if build.platform != Platform::Linux && self.tls_identity_pem.is_some() {
            return Err(ConfigFault::PemUnsupported);
        }
        Ok(())
    }

    /// Whether the configuration serves for `command`.
    pub fn validate(&self, command: AgentCommand, build: Build) -> (r: Result<(), ConfigFault>)
        ensures
            self.validated(command, build, r),
    {
        if command == AgentCommand::Status {
            return Ok(());
        }
        if let Err(fault) = self.check_bounds() {
            return Err(fault);
        }
        let delivers = match command {
            AgentCommand::Probe => false,
            AgentCommand::Doctor => self.doctor_delivery,
            _ => true,
        };
        if !delivers {
            return Ok(());
        }
        if let Err(fault) = endpoint::validate_endpoint(
            self.endpoint.as_str(),
            self.allow_insecure_http,
        ) {
            return Err(ConfigFault::Endpoint(fault));
        }
        match self.try_pairing_endpoint() {
            None => {
                return Err(ConfigFault::EndpointTooLong);
            },
            Some(pairing) => {
                if let Err(fault) = endpoint::validate_pairing_endpoint(pairing.as_str()) {
                    return Err(ConfigFault::PairingEndpoint(fault));
                }
            },
        }
        if !build.otlp && (self.otlp_endpoint.is_some() || self.otlp_token.is_some()) {
            return Err(ConfigFault::OtlpNotBuiltIn);
        }
        if build.otlp {
            if let Some(endpoint) = &self.otlp_endpoint {
                if let Err(fault) = endpoint::validate_endpoint(
                    endpoint.as_str(),
                    self.allow_insecure_http,
                ) {
                    return Err(ConfigFault::Endpoint(fault));
                }
            }
        }
        self.check_identity(build)
    }

    /// Whether the configuration would serve for the resident command. A configuration file that
    /// could not be used is the first fault.
    pub fn validate_for_diagnostics(&self, build: Build) -> (r: Result<(), ConfigFault>)
        ensures
            match self.config_issue {
                Some(issue) => r == Err::<(), ConfigFault>(ConfigFault::Issue { issue }),
                None => self.validated(AgentCommand::Run, build, r),
            },
    {
        if let Some(issue) = &self.config_issue {
            return Err(ConfigFault::Issue { issue: issue.clone() });
        }
        self.validate(AgentCommand::Run, build)
    }

    /// The longest interval, in hundredths of a second, that jitter makes of the configured one.
    pub fn worst_case_cycle_centiseconds(&self) -> (r: u128)
        ensures
            r == worst_cycle(self.interval_seconds, self.jitter_percent),
    {
        worst_cycle_of(self.interval_seconds, self.jitter_percent)
    }

    /// The longest interval that may be configured at the current jitter.
    pub fn max_interval_seconds_at_current_jitter(&self) -> (r: u64)
        ensures
            r == longest_interval(self.jitter_percent),
    {
        MAX_REPORT_INTERVAL_SECONDS * 100 / (100 + (self.jitter_percent as u64))
    }

    /// The time between two samples, in nanoseconds.
    pub fn interval(&self) -> (r: u128)
        ensures
            r == self.interval_seconds * SECOND,
    {
        assert(self.interval_seconds * SECOND <= u64::MAX * SECOND) by (nonlinear_arith)
            requires
                self.interval_seconds <= u64::MAX,
        ;
        (self.interval_seconds as u128) * (SECOND as u128)
    }

    /// How long a request may take, in nanoseconds.
    pub fn request_timeout(&self) -> (r: u128)
        ensures
            r == self.request_timeout_seconds * SECOND,
    {
        assert(self.request_timeout_seconds * SECOND <= u64::MAX * SECOND) by (nonlinear_arith)
            requires
                self.request_timeout_seconds <= u64::MAX,
        ;
        (self.request_timeout_seconds as u128) * (SECOND as u128)
    }

    /// What was wrong with the configuration file.
    pub fn diagnostic_config_issue(&self) -> (r: Option<&str>)
        ensures
            match r {
                Some(issue) => text::opt_view(self.config_issue) == Some(issue@),
                None => self.config_issue is None,
            },
    {
        match &self.config_issue {
            Some(issue) => Some(issue.as_str()),
            None => None,
        }
    }
}

/// The interval that a refusal suggests is accepted at the same jitter, and no longer one is.
pub proof fn the_suggested_interval_is_the_longest(jitter_percent: u8, interval_seconds: u64)
    ensures
        worst_cycle(interval_seconds, jitter_percent) <= MAX_REPORT_INTERVAL_SECONDS * 100
            <==> interval_seconds <= longest_interval(jitter_percent),
        jitter_percent <= LARGEST_JITTER_PERCENT ==> longest_interval(jitter_percent) >= 1,
{
    let divisor = 100 + jitter_percent;
    let limit = MAX_REPORT_INTERVAL_SECONDS * 100;
    assert(interval_seconds * divisor <= limit <==> interval_seconds <= limit / divisor)
        by (nonlinear_arith)
        requires
            divisor > 0,
            limit >= 0,
    ;
    assert(limit / divisor >= 1) by (nonlinear_arith)
        requires
            0 < divisor <= limit,
    ;
}

/// Whatever the jitter, the shortest cycle of a valid configuration, half of one second, is still
/// above the server's lower limit.
pub proof fn the_shortest_cycle_is_within_the_contract(config: AgentConfig)
    requires
        config.bounds_fault() is None,
    ensures
        config.interval_seconds * (100 - config.jitter_percent) * 10
            > MIN_REPORT_INTERVAL_MILLISECONDS,
{
    let seconds = config.interval_seconds as int;
    let share = 100 - config.jitter_percent;
    assert(seconds * share >= 50) by (nonlinear_arith)
        requires
            seconds >= 1,
            share >= 50,
    ;
}

// ---------------------------------------------------------------------------
// Loading and saving
// ---------------------------------------------------------------------------
/// Why a configuration file cannot be used.
#[derive(Debug)]
pub struct LoadFault {
    pub path: String,
    pub cause: String,
}

impl LoadFault {
    /// The words in which the fault is reported.
    pub open spec fn text(self) -> Seq<char> {
        "failed to load config "@ + self.path@ + ": "@ + self.cause@
    }

    /// The words in which the fault is reported.
    pub fn message(&self) -> (r: String)
        ensures
            r@ == self.text(),
    {
        text::cat4("failed to load config ", self.path.as_str(), ": ", self.cause.as_str())
    }
}

/// Which file is the configuration: the one that the command line names, else the one that the
/// environment names, else the default one where there is a file.
pub fn select_config_path(
    given: Option<String>,
    environment: Option<String>,
    default_path: String,
    default_is_file: bool,
) -> (r: Option<String>)
    ensures
        r == match (given, environment) {
            (Some(path), _) => Some(path),
            (None, Some(path)) => Some(path),
            (None, None) => if default_is_file {
                Some(default_path)
            } else {
                None
            },
        },
{
    match (given, environment) {
        (Some(path), _) => Some(path),
        (None, Some(path)) => Some(path),
        (None, None) => if default_is_file {
            Some(default_path)
        } else {
            None
        },
    }
}

impl AgentConfig {
    /// The configuration to start from: what the file at `path` holds, or `fallback` where no
    /// file is named. A file that cannot be used stops every command but status, which goes on
    /// with `fallback` and tells of it.
    pub fn load_selected_config(
        path: Option<&str>,
        loaded: Result<AgentConfig, String>,
        command: AgentCommand,
        fallback: AgentConfig,
    ) -> (r: Result<(AgentConfig, Option<String>), LoadFault>)
        ensures
            match (path, loaded) {
                (None, _) => r == Ok::<(AgentConfig, Option<String>), LoadFault>((fallback, None)),
                (Some(_), Ok(config)) => r == Ok::<(AgentConfig, Option<String>), LoadFault>(
                    (
                        AgentConfig {
                            persisted_allow_insecure_http: config.allow_insecure_http,
                            ..config
                        },
                        None,
                    ),
                ),
                (Some(path), Err(cause)) => if command == AgentCommand::Status {
                    r matches Ok((config, Some(issue))) && config == fallback && issue@
                        == "failed to load "@ + path@ + ": "@ + cause@
                } else {
                    r matches Err(fault) && fault.path@ == path@ && fault.cause == cause
                },
            },
    {
        let path = match path {
            None => {
                return Ok((fallback, None));
            },
            Some(path) => path,
        };
        match loaded {
            Ok(config) => {
                let allowed = config.allow_insecure_http;
                let mut config = config;
                config.persisted_allow_insecure_http = allowed;
                Ok((config, None))
            },
            Err(cause) => if command == AgentCommand::Status {
                let issue = text::cat4("failed to load ", path, ": ", cause.as_str());
                Ok((fallback, Some(issue)))
            } else {
                Err(LoadFault { path: text::owned(path), cause })
            },
        }
    }

    /// This configuration with what the command line sets.
    pub open spec fn invoked(
        self,
        invocation: Invocation,
        config_path: Option<String>,
        issue: Option<String>,
    ) -> AgentConfig {
        AgentConfig {
            config_path,
            server_override: invocation.server_override,
            endpoint_override: invocation.endpoint_override,
            tray_events: invocation.tray_events,
            tray_cancel_event: invocation.tray_cancel_event,
            tray_deadline_seconds: invocation.tray_deadline_seconds,
            tray_activation_stdin: invocation.tray_activation_stdin,
            replace_pending_pairing: invocation.replace_pending_pairing,
            output_mode: invocation.output_mode,
            doctor_delivery: invocation.doctor_delivery,
            config_issue: issue,
            allow_insecure_http: self.allow_insecure_http || invocation.allow_insecure_http,
            ..self
        }
    }

    /// The configuration with what the command line sets.
    pub fn apply_invocation(
        self,
        invocation: Invocation,
        config_path: Option<String>,
        issue: Option<String>,
    ) -> (r: AgentConfig)
        ensures
            r == self.invoked(invocation, config_path, issue),
    {
        AgentConfig {
            config_path,
            server_override: invocation.server_override,
            endpoint_override: invocation.endpoint_override,
            tray_events: invocation.tray_events,
            tray_cancel_event: invocation.tray_cancel_event,
            tray_deadline_seconds: invocation.tray_deadline_seconds,
            tray_activation_stdin: invocation.tray_activation_stdin,
            replace_pending_pairing: invocation.replace_pending_pairing,
            output_mode: invocation.output_mode,
            doctor_delivery: invocation.doctor_delivery,
            config_issue: issue,
            allow_insecure_http: self.allow_insecure_http || invocation.allow_insecure_http,
            ..self
        }
    }

    /// `after` is this configuration with the endpoint that the command line sets: the pairing
    /// command goes by its own options, the others by `--endpoint`.
    pub open spec fn redirected(self, command: AgentCommand, after: AgentConfig) -> bool {
        if command == AgentCommand::Pair {
            &&& self.pair_options() is Ok
            &&& after.endpoint@ == self.pair_options()->Ok_0.0
            &&& text::opt_view(after.pairing_endpoint) == self.pair_options()->Ok_0.1
            &&& after == (AgentConfig {
                endpoint: after.endpoint,
                pairing_endpoint: after.pairing_endpoint,
                endpoint_override: None,
                ..self
            })
        } else {
            after == (AgentConfig {
                endpoint: over(self.endpoint_override, self.endpoint),
                endpoint_override: None,
                ..self
            })
        }
    }

    /// The verdict on this configuration once its endpoint is settled.
    pub open spec fn settled_verdict(
        self,
        command: AgentCommand,
        build: Build,
        verdict: Result<(), ConfigFault>,
    ) -> bool {
        if command == AgentCommand::Pair && !self.durable_verdict(self.endpoint@, Ok(())) {
            verdict is Err && self.durable_verdict(self.endpoint@, verdict)
        } else {
            self.validated(command, build, verdict)
        }
    }

    /// What comes of a configuration that carries the settings of file, environment and command
    /// line.
    pub open spec fn settled(
        self,
        command: AgentCommand,
        build: Build,
        outcome: Result<AgentConfig, ConfigFault>,
    ) -> bool {
        if command == AgentCommand::Pair && self.pair_options() is Err {
            outcome == Err::<AgentConfig, ConfigFault>(self.pair_options()->Err_0)
        } else {
            match outcome {
                Ok(after) => self.redirected(command, after) && after.settled_verdict(
                    command,
                    build,
                    Ok(()),
                ),
                Err(fault) => exists|after: AgentConfig| #[trigger]
                    self.redirected(command, after) && after.settled_verdict(
                        command,
                        build,
                        Err(fault),
                    ),
            }
        }
    }

    /// Settle the endpoint and judge the configuration.
    pub fn settle(self, command: AgentCommand, build: Build) -> (r: Result<
        AgentConfig,
        ConfigFault,
    >)
        ensures
            self.settled(command, build, r),
    {
        let ghost before = self;
        let mut config = self;
        if command == AgentCommand::Pair {
            if let Err(fault) = config.apply_pair_options() {
                return Err(fault);
            }
            assert(before.redirected(command, config));
            if let Err(fault) = config.validate_durable_report_endpoint(config.endpoint.as_str()) {
                return Err(fault);
            }
        } else {
            if let Some(endpoint) = config.endpoint_override.take() {
                config.endpoint = endpoint;
            }
            assert(before.redirected(command, config));
        }
        match config.validate(command, build) {
            Err(fault) => Err(fault),
            Ok(()) => Ok(config),
        }
    }

    /// What comes of a loaded configuration, the environment and a command line.
    pub open spec fn configured(
        self,
        issue: Option<String>,
        env: Environment,
        invocation: Invocation,
        config_path: Option<String>,
        build: Build,
        outcome: Result<AgentConfig, ConfigFault>,
    ) -> bool {
        match env.fault() {
            Some(fault) => outcome == Err::<AgentConfig, ConfigFault>(fault),
            None => exists|after: AgentConfig| #[trigger]
                self.overridden(env, after) && after.invoked(
                    invocation,
                    config_path,
                    issue,
                ).settled(invocation.command, build, outcome),
        }
    }

    /// The configuration in effect: what was loaded, overridden by the environment, then by the
    /// command line, then judged for the command.
    pub fn configure(
        self,
        issue: Option<String>,
        env: Environment,
        invocation: Invocation,
        config_path: Option<String>,
        build: Build,
    ) -> (r: Result<AgentConfig, ConfigFault>)
        ensures
            self.configured(issue, env, invocation, config_path, build, r),
    {
        let command = invocation.command;
        match self.apply_environment(env) {
            Err(fault) => Err(fault),
            Ok(config) => config.apply_invocation(invocation, config_path, issue).settle(
                command,
                build,
            ),
        }
    }

    /// What is saved of this configuration: the policy on plain HTTP as the file had it, and
    /// nothing of what belongs to this process alone.
    pub open spec fn durable(self) -> AgentConfig {
        AgentConfig {
            allow_insecure_http: self.persisted_allow_insecure_http,
            config_path: None,
            server_override: None,
            endpoint_override: None,
            tray_events: false,
            tray_cancel_event: None,
            tray_deadline_seconds: None,
            tray_activation_stdin: false,
            replace_pending_pairing: false,
            ..self
        }
    }

    /// Where to save the configuration after pairing, and what to save.
    pub fn persist_after_pairing(self, default_path: String) -> (r: (String, AgentConfig))
        ensures
            r.0 == over(self.config_path, default_path),
            r.1 == self.durable(),
    {
        let path = match self.config_path {
            Some(path) => path,
            None => default_path,
        };
        let saved = AgentConfig {
            allow_insecure_http: self.persisted_allow_insecure_http,
            config_path: None,
            server_override: None,
            endpoint_override: None,
            tray_events: false,
            tray_cancel_event: None,
            tray_deadline_seconds: None,
            tray_activation_stdin: false,
            replace_pending_pairing: false,
            ..self
        };
        (path, saved)
    }
}

/// The content of a saved configuration file: the document and a line feed.
pub fn private_config_content(document: &Vec<u8>) -> (r: Vec<u8>)
    ensures
        r@ == document@.push(10),
{
    let mut content: Vec<u8> = Vec::new();
    let mut i: usize = 0;
    while i < document.len()
        invariant
            i <= document@.len(),
            content@ == document@.take(i as int),
        decreases document@.len() - i,
    {
        content.push(document[i]);
        i += 1;
        assert(content@ == document@.take(i as int));
    }
    assert(document@.take(i as int) == document@);
    content.push(10);
    content
}

/// Saving and loading again keeps the policy on plain HTTP that the file had, whatever was in
/// effect in between.
pub proof fn saving_keeps_the_stored_policy(config: AgentConfig)
    ensures
        config.durable().allow_insecure_http == config.persisted_allow_insecure_http,
        config.durable().endpoint == config.endpoint,
        config.durable().pairing_endpoint == config.pairing_endpoint,
{
}

/// A configuration in effect for a command other than status keeps within all bounds.
pub proof fn an_effective_configuration_is_within_bounds(
    loaded: AgentConfig,
    issue: Option<String>,
    env: Environment,
    invocation: Invocation,
    config_path: Option<String>,
    build: Build,
    effective: AgentConfig,
)
    requires
        loaded.configured(issue, env, invocation, config_path, build, Ok(effective)),
        invocation.command != AgentCommand::Status,
    ensures
        effective.bounds_fault() is None,
        effective.delivers(invocation.command) ==> endpoint_accepted(
            effective.endpoint@,
            effective.allow_insecure_http,
        ) && pairing_accepted(effective.pairing_text()),
        invocation.command == AgentCommand::Pair ==> effective.durable_verdict(
            effective.endpoint@,
            Ok(()),
        ),
{
}

/// The configuration is looked for where the command line says, else where the environment says, and
/// else in the usual place, if there is a file.
pub proof fn where_the_configuration_is_looked_for(
    given: Option<String>,
    environment: Option<String>,
    default_path: String,
    default_is_file: bool,
    r: Option<String>,
)
    requires
        call_ensures(select_config_path, (given, environment, default_path, default_is_file), r),
    ensures
        given is Some ==> r == given,
        given is None && environment is Some ==> r == environment,
        given is None && environment is None && default_is_file ==> r == Some(default_path),
        given is None && environment is None && !default_is_file ==> r is None,
{
}

/// Without a file the agent starts from its defaults. What a file says is taken as it stands, and
/// its own word on plaintext is remembered as the durable one. A file that cannot be read stops
/// every command but the one that tells the status, which goes on with the defaults and says so.
pub proof fn what_is_loaded(
    path: Option<&str>,
    loaded: Result<AgentConfig, String>,
    command: AgentCommand,
    fallback: AgentConfig,
    r: Result<(AgentConfig, Option<String>), LoadFault>,
)
    requires
        call_ensures(AgentConfig::load_selected_config, (path, loaded, command, fallback), r),
    ensures
        r is Err <==> path is Some && loaded is Err && command != AgentCommand::Status,
        path is None ==> (r matches Ok((config, issue)) && config == fallback && issue is None),
        path is Some && loaded is Ok ==> {
            let file = loaded->Ok_0;
            let config = r->Ok_0.0;
            &&& r->Ok_0.1 is None
            &&& config.endpoint == file.endpoint
            &&& config.pairing_endpoint == file.pairing_endpoint
            &&& config.allow_insecure_http == file.allow_insecure_http
            &&& config.persisted_allow_insecure_http == file.allow_insecure_http
            &&& config.state_dir == file.state_dir
        },
        path is Some && loaded is Err && command == AgentCommand::Status ==> (r matches Ok(
            (config, issue),
        ) && config == fallback && issue is Some),
        r matches Err(fault) ==> fault.path@ == path->0@ && Err::<AgentConfig, String>(fault.cause)
            == loaded,
{
}

/// A configuration that was found wanting is told as such; any other is judged as the resident
/// command would judge it.
pub proof fn what_diagnostics_judge(config: AgentConfig, build: Build, r: Result<(), ConfigFault>)
    requires
        call_ensures(AgentConfig::validate_for_diagnostics, (&config, build), r),
    ensures
        config.config_issue matches Some(issue) ==> r == Err::<(), ConfigFault>(
            ConfigFault::Issue { issue },
        ),
        config.config_issue is None ==> config.validated(AgentCommand::Run, build, r),
{
}

/// What is kept after a pairing goes where the configuration came from, or else to the usual place.
pub proof fn where_a_pairing_is_kept(
    config: AgentConfig,
    default_path: String,
    path: String,
    kept: AgentConfig,
)
    requires
        call_ensures(AgentConfig::persist_after_pairing, (config, default_path), (path, kept)),
    ensures
        config.config_path matches Some(given) ==> path == given,
        config.config_path is None ==> path == default_path,
        kept == config.durable(),
{
}

/// The pairing command takes a server or an endpoint, not both. With a server both addresses lie on
/// its origin; an endpoint is taken as given, and leaves the pairing address to be found from it;
/// with neither, what was configured stays.
pub proof fn what_the_pairing_options_change()
    ensures
        forall|config: &mut AgentConfig, r: Result<(), ConfigFault>| #[trigger]
            call_ensures(AgentConfig::apply_pair_options, (config,), r) ==> {
                let before = *config;
                let after = *final(config);
                &&& before.server_override is Some && before.endpoint_override is Some ==> r
                    == Err::<(), ConfigFault>(ConfigFault::ServerAndEndpoint)
                &&& r is Err ==> after == before
                &&& r is Err ==> before.server_override is Some
                &&& r is Ok ==> after.state_dir == before.state_dir && after.allow_insecure_http
                    == before.allow_insecure_http && after.endpoint_override is None
                &&& (before.endpoint_override matches Some(given) && before.server_override is None)
                    ==> r is Ok && after.endpoint@ == before.endpoint_override->0@
                    && after.pairing_endpoint is None
                &&& before.endpoint_override is None && before.server_override is None ==> r is Ok
                    && after.endpoint@ == before.endpoint@ && text::opt_view(after.pairing_endpoint)
                    == text::opt_view(before.pairing_endpoint)
                &&& (r is Ok && before.server_override is Some) ==> {
                    let base = endpoint::without_slashes(
                        server_base(before.server_override->0@)->Ok_0,
                    );
                    &&& after.endpoint@ == base + "/api/modules/host-monitoring/agent/v1/report"@
                    &&& after.pairing_endpoint matches Some(pairing)
                    &&& pairing@ == base
                        + "/api/modules/host-monitoring/agent/v2/pairing-requests"@
                }
            },
{
}

} // verus!
