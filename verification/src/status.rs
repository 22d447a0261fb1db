//! The status command and the read-only doctor: what the findings come to together.

use crate::config::{AgentConfig, ConfigFault};
use crate::diagnostics::{
    diagnosed, opt_text, CheckView, CredentialInspection, DiagnosticCheck, HostInspection,
    SpoolInspection,
};
use crate::pairing::PairingProgress;
use crate::platform::Build;
use crate::text;
use vstd::prelude::*;

verus! {

/// How the host stands.
#[derive(Clone, Copy, PartialEq, Eq, Structural, Debug)]
pub enum OverallState {
    Degraded,
    ReauthRequired,
    Pairing,
    Configured,
    Unconfigured,
}

impl OverallState {
    /// The name of the state.
    pub open spec fn named(self) -> Seq<char> {
        match self {
            OverallState::Degraded => "degraded"@,
            OverallState::ReauthRequired => "reauth_required"@,
            OverallState::Pairing => "pairing"@,
            OverallState::Configured => "configured"@,
            OverallState::Unconfigured => "unconfigured"@,
        }
    }

    /// The name of the state.
    pub fn name(&self) -> (r: &'static str)
        ensures
            r@ == self.named(),
    {
        match self {
            OverallState::Degraded => "degraded",
            OverallState::ReauthRequired => "reauth_required",
            OverallState::Pairing => "pairing",
            OverallState::Configured => "configured",
            OverallState::Unconfigured => "unconfigured",
        }
    }

    /// What to do next.
    pub open spec fn advised(self) -> Seq<char> {
        match self {
            OverallState::Degraded =>
                "repair the failed local check, then run `unionc-agent doctor`"@,
            OverallState::ReauthRequired =>
                "create a new pairing invitation in UnionC and pair this host again"@,
            OverallState::Pairing => "complete or resume the saved browser pairing request"@,
            OverallState::Unconfigured =>
                "run `unionc-agent pair --server https://your-console`"@,
            OverallState::Configured =>
                "run `unionc-agent doctor --delivery` for an explicit end-to-end delivery test"@,
        }
    }

    /// What to do next.
    pub fn next_action(&self) -> (r: &'static str)
        ensures
            r@ == self.advised(),
    {
        match self {
            OverallState::Degraded =>
                "repair the failed local check, then run `unionc-agent doctor`",
            OverallState::ReauthRequired =>
                "create a new pairing invitation in UnionC and pair this host again",
            OverallState::Pairing => "complete or resume the saved browser pairing request",
            OverallState::Unconfigured => "run `unionc-agent pair --server https://your-console`",
            OverallState::Configured =>
                "run `unionc-agent doctor --delivery` for an explicit end-to-end delivery test",
        }
    }
}

/// Everything that the status command has found.
#[derive(Debug)]
pub struct StatusFacts {
    /// The configuration file is present.
    pub configured: bool,
    pub config_check: DiagnosticCheck,
    pub host: HostInspection,
    pub credential: CredentialInspection,
    pub spool: SpoolInspection,
    /// Why the saved pairing could not be read.
    pub pairing_error: Option<String>,
    /// Why the saved authorization could not be read.
    pub authorization_error: Option<String>,
    pub pairing: Option<PairingProgress>,
    /// Where the active credential reports to.
    pub active_endpoint: Option<String>,
    pub active_binding_persisted: bool,
    /// The saved authorization says that the host must be authorized again.
    pub reauth_required: bool,
    /// Where the configuration reports to.
    pub endpoint: String,
}

/// A pairing request waits for its server or its browser.
pub open spec fn is_pending(progress: Option<PairingProgress>) -> bool {
    progress matches Some(known) && (known is Creating || known is Waiting)
}

/// Whether a pairing request waits for its server or its browser.
pub fn pairing_pending(progress: &Option<PairingProgress>) -> (r: bool)
    ensures
        r == is_pending(*progress),
{
    match progress {
        Some(PairingProgress::Creating { .. }) | Some(PairingProgress::Waiting(_)) => true,
        _ => false,
    }
}

impl StatusFacts {
    /// Some finding is an error.
    pub open spec fn has_error(self) -> bool {
        ||| self.config_check.status@ == "error"@
        ||| self.host.check.status@ == "error"@
        ||| self.credential.check.status@ == "error"@
        ||| self.spool.check.status@ == "error"@
        ||| self.pairing_error is Some
        ||| self.authorization_error is Some
    }

    /// How the host stands: an error outweighs everything, a lost authorization a pairing under
    /// way, and that a host that has all it needs.
    pub open spec fn overall(self) -> OverallState {
        if self.has_error() {
            OverallState::Degraded
        } else if self.reauth_required {
            OverallState::ReauthRequired
        } else if is_pending(self.pairing) {
            OverallState::Pairing
        } else if self.configured && self.host.id is Some && self.credential.present {
            OverallState::Configured
        } else {
            OverallState::Unconfigured
        }
    }

    /// The endpoint that reports go to, unless the saved pairing could not be read.
    pub open spec fn effective_endpoint(self) -> Option<Seq<char>> {
        if self.pairing_error is Some {
            None
        } else {
            match self.active_endpoint {
                Some(endpoint) => Some(endpoint@),
                None => Some(self.endpoint@),
            }
        }
    }

    /// The finding on the endpoint of the active credential: status, code and words.
    pub open spec fn binding(self) -> (Seq<char>, Option<Seq<char>>, Seq<char>) {
        match self.pairing_error {
            Some(error) => ("error"@, Some("active_pairing_snapshot_invalid"@), error@),
            None => if self.active_endpoint is Some && !self.active_binding_persisted {
                (
                    "warning"@,
                    Some("active_binding_missing"@),
                    "legacy Active state will create its private endpoint binding on the next run"@,
                )
            } else if self.active_endpoint is Some {
                (
                    "ok"@,
                    None,
                    "active credential endpoint binding is readable and current"@,
                )
            } else {
                ("skipped"@, None, "there is no Active pairing endpoint to inspect"@)
            },
        }
    }

    /// How the host stands.
    pub fn overall_state(&self) -> (r: OverallState)
        ensures
            r == self.overall(),
    {
        let failed = text::same(self.config_check.status, "error") || text::same(
            self.host.check.status,
            "error",
        ) || text::same(self.credential.check.status, "error") || text::same(
            self.spool.check.status,
            "error",
        ) || self.pairing_error.is_some() || self.authorization_error.is_some();
        if failed {
            OverallState::Degraded
        } else if self.reauth_required {
            OverallState::ReauthRequired
        } else if pairing_pending(&self.pairing) {
            OverallState::Pairing
        } else if self.configured && self.host.id.is_some() && self.credential.present {
            OverallState::Configured
        } else {
            OverallState::Unconfigured
        }
    }

    /// The endpoint that reports go to.
    pub fn status_endpoint(&self) -> (r: Option<String>)
        ensures
            text::opt_view(r) == self.effective_endpoint(),
    {
        if self.pairing_error.is_some() {
            return None;
        }
        match &self.active_endpoint {
            Some(endpoint) => Some(endpoint.clone()),
            None => Some(self.endpoint.clone()),
        }
    }

    /// The finding on the endpoint of the active credential.
    pub fn binding_check(&self) -> (r: (&'static str, Option<&'static str>, String))
        ensures
            (r.0@, opt_text(r.1), r.2@) == self.binding(),
    {
        match &self.pairing_error {
            Some(error) => ("error", Some("active_pairing_snapshot_invalid"), error.clone()),
            None => if self.active_endpoint.is_some() && !self.active_binding_persisted {
                (
                    "warning",
                    Some("active_binding_missing"),
                    text::owned(
                        "legacy Active state will create its private endpoint binding on the next run",
                    ),
                )
            } else if self.active_endpoint.is_some() {
                (
                    "ok",
                    None,
                    text::owned("active credential endpoint binding is readable and current"),
                )
            } else {
                (
                    "skipped",
                    None,
                    text::owned("there is no Active pairing endpoint to inspect"),
                )
            },
        }
    }

    /// What a human reader is shown.
    pub open spec fn human(self) -> Seq<char> {
        let missing = "not available"@;
        "UnionC Agent: "@ + self.overall().named() + "\n  Configuration: "@
            + self.config_check.status@ + "\n  Identity: "@ + (match self.host.id {
            Some(id) => id@,
            None => missing,
        }) + "\n  Credential: "@ + (if self.credential.present {
            "present"@
        } else {
            "missing"@
        }) + "\n  Endpoint: "@ + (match self.effective_endpoint() {
            Some(endpoint) => endpoint,
            None => missing,
        }) + "\n  Spool: "@ + text::decimal(self.spool.pending_batches as nat) + " pending, "@
            + text::decimal(self.spool.invalid_batches as nat) + " invalid, "@ + text::decimal(
            self.spool.total_bytes as nat,
        ) + " bytes\n  Next: "@ + self.overall().advised() + "\n"@
    }

    /// What a human reader is shown.
    pub fn human_text(&self) -> (r: String)
        ensures
            r@ == self.human(),
    {
        let state = self.overall_state();
        let mut out = text::cat4(
            "UnionC Agent: ",
            state.name(),
            "\n  Configuration: ",
            self.config_check.status,
        );
        out.append("\n  Identity: ");
        match &self.host.id {
            Some(id) => out.append(id.as_str()),
            None => out.append("not available"),
        }
        out.append("\n  Credential: ");
        if self.credential.present {
            out.append("present");
        } else {
            out.append("missing");
        }
        out.append("\n  Endpoint: ");
        match self.status_endpoint() {
            Some(endpoint) => out.append(endpoint.as_str()),
            None => out.append("not available"),
        }
        out.append("\n  Spool: ");
        out.append(text::decimal_text(self.spool.pending_batches as u64).as_str());
        out.append(" pending, ");
        out.append(text::decimal_text(self.spool.invalid_batches as u64).as_str());
        out.append(" invalid, ");
        out.append(text::decimal_text(self.spool.total_bytes).as_str());
        out.append(" bytes\n  Next: ");
        out.append(state.next_action());
        out.append("\n");
        out
    }
}

/// A host is called configured only with a configuration file, an identity and a credential, and
/// with no finding that is an error.
pub proof fn configured_means_complete(facts: StatusFacts)
    ensures
        facts.overall() == OverallState::Configured ==> facts.configured && facts.host.id is Some
            && facts.credential.present && !facts.has_error() && !facts.reauth_required,
        facts.has_error() <==> facts.overall() == OverallState::Degraded,
{
}

// ---------------------------------------------------------------------------
// The read-only doctor
// ---------------------------------------------------------------------------
/// How healthy the host is.
#[derive(Clone, Copy, PartialEq, Eq, Structural, Debug)]
pub enum DoctorStatus {
    Unhealthy,
    Attention,
    Healthy,
}

impl DoctorStatus {
    /// The name of the status.
    pub open spec fn named(self) -> Seq<char> {
        match self {
            DoctorStatus::Unhealthy => "unhealthy"@,
            DoctorStatus::Attention => "attention"@,
            DoctorStatus::Healthy => "healthy"@,
        }
    }

    /// The name of the status.
    pub fn name(&self) -> (r: &'static str)
        ensures
            r@ == self.named(),
    {
        match self {
            DoctorStatus::Unhealthy => "unhealthy",
            DoctorStatus::Attention => "attention",
            DoctorStatus::Healthy => "healthy",
        }
    }

    /// What to do next.
    pub open spec fn advised(self) -> Seq<char> {
        if self == DoctorStatus::Unhealthy {
            "repair the failed checks and run doctor again"@
        } else {
            "use --delivery only when a real server write is intended"@
        }
    }

    /// What to do next.
    pub fn next_action(&self) -> (r: &'static str)
        ensures
            r@ == self.advised(),
    {
        match self {
            DoctorStatus::Unhealthy => "repair the failed checks and run doctor again",
            _ => "use --delivery only when a real server write is intended",
        }
    }
}

/// The views of the findings.
pub open spec fn check_views(checks: Seq<DiagnosticCheck>) -> Seq<CheckView> {
    checks.map_values(|check: DiagnosticCheck| check@)
}

/// Some finding has this status.
pub open spec fn some_has(checks: Seq<CheckView>, status: Seq<char>) -> bool {
    exists|i: int| 0 <= i < checks.len() && (#[trigger] checks[i]).status == status
}

/// What the findings come to: an error makes the host unhealthy, a warning or something missing
/// asks for attention.
pub open spec fn doctored(checks: Seq<CheckView>) -> DoctorStatus {
    if some_has(checks, "error"@) {
        DoctorStatus::Unhealthy
    } else if some_has(checks, "warning"@) || some_has(checks, "missing"@) {
        DoctorStatus::Attention
    } else {
        DoctorStatus::Healthy
    }
}

fn any_has(checks: &Vec<DiagnosticCheck>, status: &str) -> (r: bool)
    ensures
        r == some_has(check_views(checks@), status@),
{
    let ghost views = check_views(checks@);
    let mut i: usize = 0;
    while i < checks.len()
        invariant
            i <= checks@.len(),
            views == check_views(checks@),
            forall|j: int| 0 <= j < i ==> (#[trigger] views[j]).status != status@,
        decreases checks@.len() - i,
    {
        assert(views[i as int] == checks@[i as int]@);
        if text::same(checks[i].status, status) {
            return true;
        }
        i += 1;
    }
    false
}

/// What the findings come to.
pub fn doctor_status(checks: &Vec<DiagnosticCheck>) -> (r: DoctorStatus)
    ensures
        r == doctored(check_views(checks@)),
{
    if any_has(checks, "error") {
        DoctorStatus::Unhealthy
    } else if any_has(checks, "warning") || any_has(checks, "missing") {
        DoctorStatus::Attention
    } else {
        DoctorStatus::Healthy
    }
}

/// What looking at the state directory gave.
#[derive(Debug)]
pub enum DirectoryLook {
    Directory,
    NoDirectory,
    Missing,
    Failed { error: String },
}

/// The doctor's finding on a configuration that was judged with this result.
pub open spec fn doctor_configuration(verdict: Result<(), ConfigFault>, ms: u64) -> CheckView {
    match verdict {
        Ok(()) => CheckView {
            id: "configuration"@,
            status: "ok"@,
            code: None,
            message: "effective configuration is valid"@,
            remediation: None,
            duration_ms: ms,
        },
        Err(fault) => CheckView {
            id: "configuration"@,
            status: "error"@,
            code: Some("config_invalid"@),
            message: fault.text(),
            remediation: Some("repair the reported setting before starting the service"@),
            duration_ms: ms,
        },
    }
}

/// The doctor's finding on the configuration.
pub fn check_configuration(config: &AgentConfig, build: Build, duration_ms: u64) -> (r:
    DiagnosticCheck)
    ensures
        exists|verdict: Result<(), ConfigFault>| #[trigger]
            diagnosed(*config, build, verdict) && r@ == doctor_configuration(verdict, duration_ms),
{
    let verdict = config.validate_for_diagnostics(build);
    assert(diagnosed(*config, build, verdict));
    match verdict {
        Ok(()) => DiagnosticCheck::new(
            "configuration",
            "ok",
            None,
            text::owned("effective configuration is valid"),
            None,
            duration_ms,
        ),
        Err(fault) => DiagnosticCheck::new(
            "configuration",
            "error",
            Some("config_invalid"),
            fault.message(),
            Some("repair the reported setting before starting the service"),
            duration_ms,
        ),
    }
}

/// The finding on the state directory at `path`.
pub open spec fn directory_finding(path: Seq<char>, look: DirectoryLook, ms: u64) -> CheckView {
    let finding = CheckView {
        id: "state_directory"@,
        status: "error"@,
        code: None,
        message: Seq::empty(),
        remediation: None,
        duration_ms: ms,
    };
    match look {
        DirectoryLook::Directory => CheckView {
            status: "ok"@,
            message: path + " is accessible"@,
            ..finding
        },
        DirectoryLook::NoDirectory => CheckView {
            code: Some("state_directory_invalid"@),
            message: path + " is not a directory"@,
            remediation: Some("restore the package-managed private state directory"@),
            ..finding
        },
        DirectoryLook::Missing => CheckView {
            status: "missing"@,
            message: "state directory has not been created yet"@,
            remediation: Some("pair this host or start the packaged service"@),
            ..finding
        },
        DirectoryLook::Failed { error } => CheckView {
            code: Some("state_directory_unreadable"@),
            message: "failed to inspect "@ + path + ": "@ + error@,
            remediation: Some(
                "check the service account, owner, permissions, and disk health"@,
            ),
            ..finding
        },
    }
}

/// The finding on the state directory at `path`.
pub fn check_state_directory(path: &str, look: DirectoryLook, duration_ms: u64) -> (r:
    DiagnosticCheck)
    ensures
        r@ == directory_finding(path@, look, duration_ms),
{
    match look {
        DirectoryLook::Directory => DiagnosticCheck::new(
            "state_directory",
            "ok",
            None,
            text::cat(path, " is accessible"),
            None,
            duration_ms,
        ),
        DirectoryLook::NoDirectory => DiagnosticCheck::new(
            "state_directory",
            "error",
            Some("state_directory_invalid"),
            text::cat(path, " is not a directory"),
            Some("restore the package-managed private state directory"),
            duration_ms,
        ),
        DirectoryLook::Missing => DiagnosticCheck::new(
            "state_directory",
            "missing",
            None,
            text::owned("state directory has not been created yet"),
            Some("pair this host or start the packaged service"),
            duration_ms,
        ),
        DirectoryLook::Failed { error } => DiagnosticCheck::new(
            "state_directory",
            "error",
            Some("state_directory_unreadable"),
            text::cat4("failed to inspect ", path, ": ", error.as_str()),
            Some("check the service account, owner, permissions, and disk health"),
            duration_ms,
        ),
    }
}

/// The finding on a sample that was taken.
pub open spec fn collection_finding(capabilities: nat, errors: nat, ms: u64) -> CheckView {
    CheckView {
        id: "local_collection"@,
        status: if errors == 0 {
            "ok"@
        } else {
            "warning"@
        },
        code: if errors == 0 {
            None
        } else {
            Some("collector_degraded"@)
        },
        message: "local snapshot completed with "@ + text::decimal(capabilities)
            + " capabilities and "@ + text::decimal(errors) + " collector errors"@,
        remediation: if errors == 0 {
            None
        } else {
            Some("inspect capability details with `unionc-agent probe --output json`"@)
        },
        duration_ms: ms,
    }
}

/// The finding on a sample that was taken.
pub fn check_collection(capabilities: u64, collector_errors: u64, duration_ms: u64) -> (r:
    DiagnosticCheck)
    ensures
        r@ == collection_finding(capabilities as nat, collector_errors as nat, duration_ms),
{
    let message = text::cat5(
        "local snapshot completed with ",
        text::decimal_text(capabilities).as_str(),
        " capabilities and ",
        text::decimal_text(collector_errors).as_str(),
        " collector errors",
    );
    if collector_errors == 0 {
        DiagnosticCheck::new("local_collection", "ok", None, message, None, duration_ms)
    } else {
        DiagnosticCheck::new(
            "local_collection",
            "warning",
            Some("collector_degraded"),
            message,
            Some("inspect capability details with `unionc-agent probe --output json`"),
            duration_ms,
        )
    }
}

/// The finding that nothing was sent.
pub open spec fn delivery_finding(ms: u64) -> CheckView {
    CheckView {
        id: "server_delivery"@,
        status: "skipped"@,
        code: None,
        message:
            "no report was sent; read-only doctor never drains the spool or changes credentials"@,
        remediation: Some(
            "use `unionc-agent doctor --delivery` for an explicit end-to-end test"@,
        ),
        duration_ms: ms,
    }
}

/// What the read-only doctor reports.
#[derive(Debug)]
pub struct DoctorReport {
    pub checks: Vec<DiagnosticCheck>,
    pub status: DoctorStatus,
}

/// The read-only doctor's report: the findings in order, the one that nothing was sent last.
pub fn read_only_doctor(
    configuration: DiagnosticCheck,
    state_directory: DiagnosticCheck,
    host: HostInspection,
    credential: CredentialInspection,
    spool: SpoolInspection,
    collection: DiagnosticCheck,
    delivery_ms: u64,
) -> (r: DoctorReport)
    ensures
        check_views(r.checks@) == seq![
            configuration@,
            state_directory@,
            host.check@,
            credential.check@,
            spool.check@,
            collection@,
            delivery_finding(delivery_ms),
        ],
        r.status == doctored(check_views(r.checks@)),
{
    let mut checks: Vec<DiagnosticCheck> = Vec::new();
    checks.push(configuration);
    checks.push(state_directory);
    checks.push(host.check);
    checks.push(credential.check);
    checks.push(spool.check);
    checks.push(collection);
    checks.push(
        DiagnosticCheck::new(
            "server_delivery",
            "skipped",
            None,
            text::owned(
                "no report was sent; read-only doctor never drains the spool or changes credentials",
            ),
            Some("use `unionc-agent doctor --delivery` for an explicit end-to-end test"),
            delivery_ms,
        ),
    );
    assert(check_views(checks@) =~= seq![
        configuration@,
        state_directory@,
        host.check@,
        credential.check@,
        spool.check@,
        collection@,
        delivery_finding(delivery_ms),
    ]);
    let status = doctor_status(&checks);
    DoctorReport { checks, status }
}

/// `s` with blanks behind it up to a width.
pub open spec fn padded(s: Seq<char>, width: nat) -> Seq<char>
    decreases width - s.len(),
{
    if s.len() >= width {
        s
    } else {
        padded(s.push(' '), width)
    }
}

fn pad(s: &str, width: usize) -> (r: String)
    ensures
        r@ == padded(s@, width as nat),
{
    let mut out = text::owned(s);
    let mut n: usize = text::to_chars(s).len();
    while n < width
        invariant
            n == out@.len(),
            padded(s@, width as nat) == padded(out@, width as nat),
        decreases width - n,
    {
        out.push(' ');
        n += 1;
    }
    out
}

/// The lines for the first `n` findings.
pub open spec fn doctor_lines(checks: Seq<CheckView>, n: int) -> Seq<char>
    decreases n,
{
    if n <= 0 {
        Seq::empty()
    } else {
        let check = checks[n - 1];
        doctor_lines(checks, n - 1) + "  "@ + padded(check.id, 18) + " "@ + padded(check.status, 9)
            + " "@ + check.message + "\n"@ + (match check.remediation {
            Some(words) => "    Next: "@ + words + "\n"@,
            None => Seq::empty(),
        })
    }
}

impl DoctorReport {
    /// What a human reader is shown.
    pub fn human_text(&self) -> (r: String)
        ensures
            r@ == "UnionC Agent doctor: "@ + self.status.named() + " (read-only)\n"@
                + doctor_lines(check_views(self.checks@), self.checks@.len() as int),
    {
        let ghost views = check_views(self.checks@);
        let mut out = text::cat3("UnionC Agent doctor: ", self.status.name(), " (read-only)\n");
        let ghost title = out@;
        let mut i: usize = 0;
        assert(title + doctor_lines(views, 0) == title);
        while i < self.checks.len()
            invariant
                i <= self.checks@.len(),
                views == check_views(self.checks@),
                out@ == title + doctor_lines(views, i as int),
            decreases self.checks@.len() - i,
        {
            let check = &self.checks[i];
            assert(views[i as int] == check@);
            out.append("  ");
            out.append(pad(check.id, 18).as_str());
            out.append(" ");
            out.append(pad(check.status, 9).as_str());
            out.append(" ");
            out.append(check.message.as_str());
            out.append("\n");
            match &check.remediation {
                Some(words) => {
                    out.append("    Next: ");
                    out.append(words.as_str());
                    out.append("\n");
                },
                None => {},
            }
            i += 1;
            assert(out@ =~= title + doctor_lines(views, i as int));
        }
        out
    }
}

/// The doctor never calls a host healthy while something is missing, warned of or wrong.
pub proof fn healthy_means_nothing_to_report(checks: Seq<CheckView>)
    ensures
        doctored(checks) == DoctorStatus::Healthy <==> forall|i: int|
            0 <= i < checks.len() ==> {
                &&& (#[trigger] checks[i]).status != "error"@
                &&& checks[i].status != "warning"@
                &&& checks[i].status != "missing"@
            },
{
    if doctored(checks) != DoctorStatus::Healthy {
        let i = choose|i: int|
            0 <= i < checks.len() && ((#[trigger] checks[i]).status == "error"@ || checks[i].status
                == "warning"@ || checks[i].status == "missing"@);
        assert(checks[i].status == checks[i].status);
    }
}

/// What a host is called: degraded where a finding is an error or a saved state cannot be read;
/// else in need of a new authorization where the saved one says so; else pairing while a request is
/// created or waits; else configured where its file, its identity and its credential are all there;
/// and else not configured.
pub proof fn what_a_host_is_called(facts: StatusFacts)
    ensures
        ({
            let broken = facts.config_check.status@ == "error"@ || facts.host.check.status@
                == "error"@ || facts.credential.check.status@ == "error"@
                || facts.spool.check.status@ == "error"@ || facts.pairing_error is Some
                || facts.authorization_error is Some;
            let pairing = match facts.pairing {
                Some(PairingProgress::Creating { .. }) => true,
                Some(PairingProgress::Waiting(_)) => true,
                _ => false,
            };
            let complete = facts.configured && facts.host.id is Some && facts.credential.present;
            let state = facts.overall();
            &&& state == OverallState::Degraded <==> broken
            &&& state == OverallState::ReauthRequired <==> !broken && facts.reauth_required
            &&& state == OverallState::Pairing <==> !broken && !facts.reauth_required && pairing
            &&& state == OverallState::Configured <==> !broken && !facts.reauth_required && !pairing
                && complete
            &&& state == OverallState::Unconfigured <==> !broken && !facts.reauth_required
                && !pairing && !complete
            &&& state.named() == match state {
                OverallState::Degraded => "degraded"@,
                OverallState::ReauthRequired => "reauth_required"@,
                OverallState::Pairing => "pairing"@,
                OverallState::Configured => "configured"@,
                OverallState::Unconfigured => "unconfigured"@,
            }
        }),
{
}

/// The endpoint that is shown is the one that the credential in use reports to, else the configured
/// one; none where the saved pairing cannot be read. The finding on that binding follows.
pub proof fn which_endpoint_is_shown(facts: StatusFacts)
    ensures
        facts.pairing_error is Some ==> facts.effective_endpoint() is None && facts.binding().0
            == "error"@ && facts.binding().2 == facts.pairing_error->0@,
        facts.pairing_error is None && facts.active_endpoint is Some ==> facts.effective_endpoint()
            == Some(facts.active_endpoint->0@) && facts.binding().0 == (
        if facts.active_binding_persisted {
            "ok"@
        } else {
            "warning"@
        }),
        facts.pairing_error is None && facts.active_endpoint is None ==> facts.effective_endpoint()
            == Some(facts.endpoint@) && facts.binding().0 == "skipped"@,
{
}

/// What the doctor calls a host: unhealthy with any error, else in need of attention with any
/// warning or anything missing, else healthy.
pub proof fn what_the_doctor_says(checks: Seq<CheckView>, i: int)
    requires
        0 <= i < checks.len(),
    ensures
        checks[i].status == "error"@ ==> doctored(checks) == DoctorStatus::Unhealthy,
        checks[i].status == "warning"@ || checks[i].status == "missing"@ ==> doctored(checks)
            != DoctorStatus::Healthy,
        doctored(checks) == DoctorStatus::Unhealthy ==> exists|k: int|
            0 <= k < checks.len() && (#[trigger] checks[k]).status == "error"@,
        doctored(checks) == DoctorStatus::Attention ==> exists|k: int|
            0 <= k < checks.len() && ((#[trigger] checks[k]).status == "warning"@ || checks[k].status
                == "missing"@),
{
    if doctored(checks) == DoctorStatus::Attention {
        if some_has(checks, "warning"@) {
            let k = choose|k: int| 0 <= k < checks.len() && (#[trigger] checks[k]).status
                == "warning"@;
            assert(checks[k].status == "warning"@);
        } else {
            let k = choose|k: int| 0 <= k < checks.len() && (#[trigger] checks[k]).status
                == "missing"@;
            assert(checks[k].status == "missing"@);
        }
    }
}

/// The doctor's findings: a configuration is good exactly where its verdict is; a state directory
/// where it is one, and missing where it is not there; a sample where no collector failed; and
/// nothing is ever delivered.
pub proof fn what_the_doctor_finds(
    verdict: Result<(), ConfigFault>,
    path: Seq<char>,
    look: DirectoryLook,
    capabilities: nat,
    errors: nat,
    ms: u64,
)
    ensures
        doctor_configuration(verdict, ms).status == (if verdict is Ok {
            "ok"@
        } else {
            "error"@
        }),
        verdict matches Err(fault) ==> doctor_configuration(verdict, ms).message == fault.text(),
        directory_finding(path, look, ms).status == match look {
            DirectoryLook::Directory => "ok"@,
            DirectoryLook::Missing => "missing"@,
            _ => "error"@,
        },
        collection_finding(capabilities, errors, ms).status == (if errors == 0 {
            "ok"@
        } else {
            "warning"@
        }),
        delivery_finding(ms).status == "skipped"@,
        doctor_configuration(verdict, ms).duration_ms == ms,
        directory_finding(path, look, ms).duration_ms == ms,
        collection_finding(capabilities, errors, ms).duration_ms == ms,
{
}

/// A reader is shown how the host stands, and of each part what was found: an identity and an
/// endpoint where there is one, and of the credential only that it is there.
pub proof fn what_a_reader_is_shown(facts: StatusFacts, r: String)
    requires
        call_ensures(StatusFacts::human_text, (&facts,), r),
    ensures
        ({
            let begun = "UnionC Agent: "@ + facts.overall().named() + "\n  Configuration: "@
                + facts.config_check.status@ + "\n  Identity: "@;
            let identified = begun + match facts.host.id {
                Some(id) => id@,
                None => "not available"@,
            } + "\n  Credential: "@;
            let reaching = "\n  Endpoint: "@ + match facts.effective_endpoint() {
                Some(endpoint) => endpoint,
                None => "not available"@,
            };
            let stored = "\n  Spool: "@ + text::decimal(facts.spool.pending_batches as nat)
                + " pending, "@ + text::decimal(facts.spool.invalid_batches as nat)
                + " invalid, "@ + text::decimal(facts.spool.total_bytes as nat) + " bytes"@;
            let advice = "\n  Next: "@ + facts.overall().advised() + "\n"@;
            &&& facts.credential.present ==> r@ == identified + "present"@ + reaching + stored
                + advice
            &&& !facts.credential.present ==> r@ == identified + "missing"@ + reaching + stored
                + advice
        }),
{
    reveal_strlit(" bytes\n  Next: ");
    reveal_strlit(" bytes");
    reveal_strlit("\n  Next: ");
    assert(" bytes\n  Next: "@ =~= " bytes"@ + "\n  Next: "@);
    let begun = "UnionC Agent: "@ + facts.overall().named() + "\n  Configuration: "@
        + facts.config_check.status@ + "\n  Identity: "@;
    let identified = begun + match facts.host.id {
        Some(id) => id@,
        None => "not available"@,
    } + "\n  Credential: "@;
    let reaching = "\n  Endpoint: "@ + match facts.effective_endpoint() {
        Some(endpoint) => endpoint,
        None => "not available"@,
    };
    let stored = "\n  Spool: "@ + text::decimal(facts.spool.pending_batches as nat) + " pending, "@
        + text::decimal(facts.spool.invalid_batches as nat) + " invalid, "@ + text::decimal(
        facts.spool.total_bytes as nat,
    ) + " bytes"@;
    let advice = "\n  Next: "@ + facts.overall().advised() + "\n"@;
    if facts.credential.present {
        assert(r@ =~= identified + "present"@ + reaching + stored + advice);
    } else {
        assert(r@ =~= identified + "missing"@ + reaching + stored + advice);
    }
}

/// The endpoint of the active credential is well where it is kept, a warning where it is still to
/// be kept, an error where it cannot be read, and skipped where there is none.
pub proof fn how_a_binding_is_found(facts: StatusFacts)
    ensures
        facts.pairing_error matches Some(error) ==> facts.binding() == (
            "error"@,
            Some("active_pairing_snapshot_invalid"@),
            error@,
        ),
        facts.pairing_error is None ==> facts.binding().0 == (if facts.active_endpoint is None {
            "skipped"@
        } else if facts.active_binding_persisted {
            "ok"@
        } else {
            "warning"@
        }),
        facts.pairing_error is None ==> (facts.binding().1 == Some("active_binding_missing"@)
            <==> facts.active_endpoint is Some && !facts.active_binding_persisted),
{
}

} // verus!
