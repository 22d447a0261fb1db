//! What the status and doctor commands find, without changing anything.

use crate::config::{AgentConfig, ConfigFault};
use crate::identifier::{canonical, canonical_uuid, uuid_read};
use crate::platform::Build;
use crate::text;
use vstd::prelude::*;

verus! {

/// One finding.
#[derive(Debug)]
pub struct DiagnosticCheck {
    pub id: &'static str,
    pub status: &'static str,
    pub code: Option<&'static str>,
    pub message: String,
    pub remediation: Option<String>,
    pub duration_ms: u64,
}

/// The contents of a [`DiagnosticCheck`].
pub struct CheckView {
    pub id: Seq<char>,
    pub status: Seq<char>,
    pub code: Option<Seq<char>>,
    pub message: Seq<char>,
    pub remediation: Option<Seq<char>>,
    pub duration_ms: u64,
}

/// The characters of an optional fixed text.
pub open spec fn opt_text(o: Option<&'static str>) -> Option<Seq<char>> {
    match o {
        Some(s) => Some(s@),
        None => None,
    }
}

impl View for DiagnosticCheck {
    type V = CheckView;

    open spec fn view(&self) -> CheckView {
        CheckView {
            id: self.id@,
            status: self.status@,
            code: opt_text(self.code),
            message: self.message@,
            remediation: text::opt_view(self.remediation),
            duration_ms: self.duration_ms,
        }
    }
}

impl DiagnosticCheck {
    /// A finding.
    pub fn new(
        id: &'static str,
        status: &'static str,
        code: Option<&'static str>,
        message: String,
        remediation: Option<&'static str>,
        duration_ms: u64,
    ) -> (r: Self)
        ensures
            r@ == (CheckView {
                id: id@,
                status: status@,
                code: opt_text(code),
                message: message@,
                remediation: opt_text(remediation),
                duration_ms,
            }),
    {
        DiagnosticCheck {
            id,
            status,
            code,
            message,
            remediation: match remediation {
                Some(words) => Some(text::owned(words)),
                None => None,
            },
            duration_ms,
        }
    }
}

/// What reading a file gave.
#[derive(Debug)]
pub enum FileRead {
    Text { content: String },
    Missing,
    Failed { error: String },
}

// ---------------------------------------------------------------------------
// Identity
// ---------------------------------------------------------------------------
/// What is found of the host's identity.
#[derive(Debug)]
pub struct HostInspection {
    pub id: Option<String>,
    pub check: DiagnosticCheck,
}

/// What is found of the host's identity in what was read of the file at `path`: its identifier,
/// where the file holds one in canonical form, and the finding.
pub open spec fn host_finding(path: Seq<char>, read: FileRead, ms: u64) -> (
    Option<Seq<char>>,
    CheckView,
) {
    let finding = CheckView {
        id: "identity"@,
        status: "error"@,
        code: None,
        message: Seq::empty(),
        remediation: None,
        duration_ms: ms,
    };
    match read {
        FileRead::Text { content } => {
            let value = text::trimmed(content@);
            if canonical(uuid_read(value), value) is Ok {
                (
                    Some(value),
                    CheckView {
                        status: "ok"@,
                        message: "host identity is readable and valid"@,
                        ..finding
                    },
                )
            } else {
                (
                    None,
                    CheckView {
                        code: Some("identity_invalid"@),
                        message: path
                            + " does not contain a canonical lowercase, hyphenated UUID"@,
                        remediation: Some("repair the state directory or pair this host again"@),
                        ..finding
                    },
                )
            }
        },
        FileRead::Missing => (
            None,
            CheckView {
                status: "missing"@,
                code: Some("identity_missing"@),
                message: "host identity has not been created yet"@,
                remediation: Some("pair this host before expecting authenticated reports"@),
                ..finding
            },
        ),
        FileRead::Failed { error } => (
            None,
            CheckView {
                code: Some("identity_unreadable"@),
                message: "failed to read "@ + path + ": "@ + error@,
                remediation: Some("check the state-directory owner and permissions"@),
                ..finding
            },
        ),
    }
}

/// What is found of the host's identity.
pub fn inspect_host_identity(path: &str, read: FileRead, duration_ms: u64) -> (r: HostInspection)
    ensures
        (text::opt_view(r.id), r.check@) == host_finding(path@, read, duration_ms),
{
    match read {
        FileRead::Text { content } => {
            let value = text::trim(content.as_str());
            if canonical_uuid(value.as_str()).is_ok() {
                HostInspection {
                    id: Some(value),
                    check: DiagnosticCheck::new(
                        "identity",
                        "ok",
                        None,
                        text::owned("host identity is readable and valid"),
                        None,
                        duration_ms,
                    ),
                }
            } else {
                HostInspection {
                    id: None,
                    check: DiagnosticCheck::new(
                        "identity",
                        "error",
                        Some("identity_invalid"),
                        text::cat(
                            path,
                            " does not contain a canonical lowercase, hyphenated UUID",
                        ),
                        Some("repair the state directory or pair this host again"),
                        duration_ms,
                    ),
                }
            }
        },
        FileRead::Missing => HostInspection {
            id: None,
            check: DiagnosticCheck::new(
                "identity",
                "missing",
                Some("identity_missing"),
                text::owned("host identity has not been created yet"),
                Some("pair this host before expecting authenticated reports"),
                duration_ms,
            ),
        },
        FileRead::Failed { error } => HostInspection {
            id: None,
            check: DiagnosticCheck::new(
                "identity",
                "error",
                Some("identity_unreadable"),
                text::cat4("failed to read ", path, ": ", error.as_str()),
                Some("check the state-directory owner and permissions"),
                duration_ms,
            ),
        },
    }
}

// ---------------------------------------------------------------------------
// Configuration
// ---------------------------------------------------------------------------
/// The finding on a configuration that was judged with this result.
pub open spec fn configuration_finding(
    verdict: Result<(), ConfigFault>,
    configured: bool,
    ms: u64,
) -> CheckView {
    let finding = CheckView {
        id: "configuration"@,
        status: "error"@,
        code: None,
        message: Seq::empty(),
        remediation: None,
        duration_ms: ms,
    };
    match verdict {
        Err(fault) => CheckView {
            code: Some("config_invalid"@),
            message: fault.text(),
            remediation: Some("repair the configuration file, then run status again"@),
            ..finding
        },
        Ok(()) => if configured {
            CheckView {
                status: "ok"@,
                message: "configuration file is present and its effective settings are valid"@,
                ..finding
            }
        } else {
            CheckView {
                status: "missing"@,
                code: Some("config_missing"@),
                message: "configuration file is not present"@,
                remediation: Some("pair this host to create its private configuration"@),
                ..finding
            }
        },
    }
}

/// The verdict of the diagnostics on a configuration.
pub open spec fn diagnosed(
    config: AgentConfig,
    build: Build,
    verdict: Result<(), ConfigFault>,
) -> bool {
    match config.config_issue {
        Some(issue) => verdict == Err::<(), ConfigFault>(ConfigFault::Issue { issue }),
        None => config.validated(crate::config::AgentCommand::Run, build, verdict),
    }
}

/// The finding on a configuration, with `configured` for a file that is present.
pub fn inspect_configuration(
    config: &AgentConfig,
    configured: bool,
    build: Build,
    duration_ms: u64,
) -> (r: DiagnosticCheck)
    ensures
        exists|verdict: Result<(), ConfigFault>| #[trigger]
            diagnosed(*config, build, verdict) && r@ == configuration_finding(
                verdict,
                configured,
                duration_ms,
            ),
{
    let verdict = config.validate_for_diagnostics(build);
    assert(diagnosed(*config, build, verdict));
    match verdict {
        Err(fault) => DiagnosticCheck::new(
            "configuration",
            "error",
            Some("config_invalid"),
            fault.message(),
            Some("repair the configuration file, then run status again"),
            duration_ms,
        ),
        Ok(()) => if configured {
            DiagnosticCheck::new(
                "configuration",
                "ok",
                None,
                text::owned("configuration file is present and its effective settings are valid"),
                None,
                duration_ms,
            )
        } else {
            DiagnosticCheck::new(
                "configuration",
                "missing",
                Some("config_missing"),
                text::owned("configuration file is not present"),
                Some("pair this host to create its private configuration"),
                duration_ms,
            )
        },
    }
}

// ---------------------------------------------------------------------------
// Credential
// ---------------------------------------------------------------------------
/// What is found of the host's credential.
#[derive(Debug)]
pub struct CredentialInspection {
    pub present: bool,
    pub check: DiagnosticCheck,
}

/// What is found of the host's credential in what was read of the file at `path`.
pub open spec fn credential_finding(path: Seq<char>, read: FileRead, ms: u64) -> (bool, CheckView) {
    let finding = CheckView {
        id: "credential"@,
        status: "error"@,
        code: None,
        message: Seq::empty(),
        remediation: None,
        duration_ms: ms,
    };
    match read {
        FileRead::Text { content } => if text::trimmed(content@).len() > 0 {
            (
                true,
                CheckView {
                    status: "ok"@,
                    message: "the private host credential is readable"@,
                    ..finding
                },
            )
        } else {
            (
                false,
                CheckView {
                    code: Some("credential_empty"@),
                    message: path + " is empty"@,
                    remediation: Some("pair this host again"@),
                    ..finding
                },
            )
        },
        FileRead::Missing => (
            false,
            CheckView {
                status: "missing"@,
                code: Some("credential_missing"@),
                message: "no host credential is stored yet"@,
                remediation: Some("pair this host before expecting authenticated reports"@),
                ..finding
            },
        ),
        FileRead::Failed { error } => (
            false,
            CheckView {
                code: Some("credential_unreadable"@),
                message: "failed to read "@ + path + ": "@ + error@,
                remediation: Some("check the state-directory owner and permissions"@),
                ..finding
            },
        ),
    }
}

/// What is found of the host's credential. The credential itself is in no finding.
pub fn inspect_credential(path: &str, read: FileRead, duration_ms: u64) -> (r: CredentialInspection)
    ensures
        (r.present, r.check@) == credential_finding(path@, read, duration_ms),
{
    match read {
        FileRead::Text { content } => if !text::trim(content.as_str()).as_str().is_empty() {
            CredentialInspection {
                present: true,
                check: DiagnosticCheck::new(
                    "credential",
                    "ok",
                    None,
                    text::owned("the private host credential is readable"),
                    None,
                    duration_ms,
                ),
            }
        } else {
            CredentialInspection {
                present: false,
                check: DiagnosticCheck::new(
                    "credential",
                    "error",
                    Some("credential_empty"),
                    text::cat(path, " is empty"),
                    Some("pair this host again"),
                    duration_ms,
                ),
            }
        },
        FileRead::Missing => CredentialInspection {
            present: false,
            check: DiagnosticCheck::new(
                "credential",
                "missing",
                Some("credential_missing"),
                text::owned("no host credential is stored yet"),
                Some("pair this host before expecting authenticated reports"),
                duration_ms,
            ),
        },
        FileRead::Failed { error } => CredentialInspection {
            present: false,
            check: DiagnosticCheck::new(
                "credential",
                "error",
                Some("credential_unreadable"),
                text::cat4("failed to read ", path, ": ", error.as_str()),
                Some("check the state-directory owner and permissions"),
                duration_ms,
            ),
        },
    }
}

// ---------------------------------------------------------------------------
// Spool
// ---------------------------------------------------------------------------
/// An entry of the spool directory.
#[derive(Debug)]
pub enum SpoolEntry {
    /// The directory could not be read further.
    Unreadable { error: String },
    File { path: String, extension: Option<String>, size: Result<u64, String> },
}

/// The spool directory.
#[derive(Debug)]
pub enum SpoolListing {
    Missing,
    Unreadable { error: String },
    Entries { entries: Vec<SpoolEntry> },
}

/// What is found of the spool.
#[derive(Debug)]
pub struct SpoolInspection {
    pub pending_batches: usize,
    pub invalid_batches: usize,
    pub total_bytes: u64,
    pub check: DiagnosticCheck,
}

/// What is counted in a spool.
pub struct SpoolCount {
    pub pending: nat,
    pub invalid: nat,
    pub bytes: nat,
    /// The words for what ended the counting, if something did.
    pub fault: Option<Seq<char>>,
}

/// What the first `n` entries of the spool at `path` count up to. Files with other extensions
/// do not count; the sum stays at the largest number once it would pass it.
pub open spec fn spool_count(path: Seq<char>, entries: Seq<SpoolEntry>, n: int) -> SpoolCount
    decreases n,
{
    if n <= 0 {
        SpoolCount { pending: 0, invalid: 0, bytes: 0, fault: None }
    } else {
        let before = spool_count(path, entries, n - 1);
        if before.fault is Some {
            before
        } else {
            match entries[n - 1] {
                SpoolEntry::Unreadable { error } => SpoolCount {
                    fault: Some("failed to enumerate "@ + path + ": "@ + error@),
                    ..before
                },
                SpoolEntry::File { path: file, extension, size } => {
                    let json = text::opt_view(extension) == Some("json"@);
                    let invalid = text::opt_view(extension) == Some("invalid"@);
                    if !json && !invalid {
                        before
                    } else {
                        let counted = if json {
                            SpoolCount { pending: before.pending + 1, ..before }
                        } else {
                            SpoolCount { invalid: before.invalid + 1, ..before }
                        };
                        match size {
                            Ok(bytes) => SpoolCount {
                                bytes: if before.bytes + bytes <= u64::MAX {
                                    before.bytes + bytes as nat
                                } else {
                                    u64::MAX as nat
                                },
                                ..counted
                            },
                            Err(error) => SpoolCount {
                                fault: Some("failed to inspect "@ + file@ + ": "@ + error@),
                                ..counted
                            },
                        }
                    }
                },
            }
        }
    }
}

/// The finding on a spool with this count.
pub open spec fn spool_finding(count: SpoolCount, ms: u64) -> CheckView {
    match count.fault {
        Some(words) => CheckView {
            id: "spool"@,
            status: "error"@,
            code: Some("spool_unreadable"@),
            message: words,
            remediation: Some(
                "check the state-directory owner, permissions, and disk health"@,
            ),
            duration_ms: ms,
        },
        None => CheckView {
            id: "spool"@,
            status: "ok"@,
            code: None,
            message: text::decimal(count.pending) + " pending, "@ + text::decimal(count.invalid)
                + " invalid, "@ + text::decimal(count.bytes) + " bytes"@,
            remediation: None,
            duration_ms: ms,
        },
    }
}

/// What is found of the spool at `path`.
pub open spec fn spool_view(path: Seq<char>, listing: SpoolListing, ms: u64) -> (
    SpoolCount,
    CheckView,
) {
    let nothing = SpoolCount { pending: 0, invalid: 0, bytes: 0, fault: None };
    match listing {
        SpoolListing::Missing => (
            nothing,
            CheckView {
                id: "spool"@,
                status: "missing"@,
                code: None,
                message: "the spool has not been created yet"@,
                remediation: None,
                duration_ms: ms,
            },
        ),
        SpoolListing::Unreadable { error } => (
            nothing,
            spool_finding(
                SpoolCount { fault: Some("failed to read "@ + path + ": "@ + error@), ..nothing },
                ms,
            ),
        ),
        SpoolListing::Entries { entries } => {
            let count = spool_count(path, entries@, entries@.len() as int);
            (count, spool_finding(count, ms))
        },
    }
}

fn spool_error(message: String, duration_ms: u64) -> (r: DiagnosticCheck)
    ensures
        r@ == spool_finding(
            SpoolCount { pending: 0, invalid: 0, bytes: 0, fault: Some(message@) },
            duration_ms,
        ),
{
    DiagnosticCheck::new(
        "spool",
        "error",
        Some("spool_unreadable"),
        message,
        Some("check the state-directory owner, permissions, and disk health"),
        duration_ms,
    )
}

/// Whether an extension is the given one.
fn extension_is(extension: &Option<String>, name: &str) -> (r: bool)
    ensures
        r == (text::opt_view(*extension) == Some(name@)),
{
    match extension {
        Some(given) => text::same(given.as_str(), name),
        None => false,
    }
}

/// A fault ends the counting for good.
proof fn lemma_spool_fault_stays(path: Seq<char>, entries: Seq<SpoolEntry>, n: int, m: int)
    requires
        0 <= n <= m,
        spool_count(path, entries, n).fault is Some,
    ensures
        spool_count(path, entries, m) == spool_count(path, entries, n),
    decreases m - n,
{
    if n < m {
        lemma_spool_fault_stays(path, entries, n, m - 1);
    }
}

fn count_spool(path: &str, entries: &Vec<SpoolEntry>, duration_ms: u64) -> (r: SpoolInspection)
    ensures
        ({
            let count = spool_count(path@, entries@, entries@.len() as int);
            &&& r.pending_batches == count.pending
            &&& r.invalid_batches == count.invalid
            &&& r.total_bytes == count.bytes
            &&& r.check@ == spool_finding(count, duration_ms)
        }),
{
    let mut pending: usize = 0;
    let mut invalid: usize = 0;
    let mut bytes: u64 = 0;
    let mut i: usize = 0;
    while i < entries.len()
        invariant
            i <= entries@.len(),
            pending + invalid <= i,
            spool_count(path@, entries@, i as int) == (SpoolCount {
                pending: pending as nat,
                invalid: invalid as nat,
                bytes: bytes as nat,
                fault: None,
            }),
        decreases entries@.len() - i,
    {
        match &entries[i] {
            SpoolEntry::Unreadable { error } => {
                proof {
                    lemma_spool_fault_stays(path@, entries@, i + 1, entries@.len() as int);
                }
                return SpoolInspection {
                    pending_batches: pending,
                    invalid_batches: invalid,
                    total_bytes: bytes,
                    check: spool_error(
                        text::cat4("failed to enumerate ", path, ": ", error.as_str()),
                        duration_ms,
                    ),
                };
            },
            SpoolEntry::File { path: file, extension, size } => {
                let json = extension_is(extension, "json");
                let refused = extension_is(extension, "invalid");
                if json || refused {
                    if json {
                        pending += 1;
                    } else {
                        invalid += 1;
                    }
                    match size {
                        Ok(length) => {
                            bytes = if *length <= u64::MAX - bytes {
                                bytes + *length
                            } else {
                                u64::MAX
                            };
                        },
                        Err(error) => {
                            proof {
                                lemma_spool_fault_stays(
                                    path@,
                                    entries@,
                                    i + 1,
                                    entries@.len() as int,
                                );
                            }
                            return SpoolInspection {
                                pending_batches: pending,
                                invalid_batches: invalid,
                                total_bytes: bytes,
                                check: spool_error(
                                    text::cat4(
                                        "failed to inspect ",
                                        file.as_str(),
                                        ": ",
                                        error.as_str(),
                                    ),
                                    duration_ms,
                                ),
                            };
                        },
                    }
                }
            },
        }
        i += 1;
    }
    let mut message = text::cat5(
        text::decimal_text(pending as u64).as_str(),
        " pending, ",
        text::decimal_text(invalid as u64).as_str(),
        " invalid, ",
        text::decimal_text(bytes).as_str(),
    );
    message.append(" bytes");
    SpoolInspection {
        pending_batches: pending,
        invalid_batches: invalid,
        total_bytes: bytes,
        check: DiagnosticCheck::new("spool", "ok", None, message, None, duration_ms),
    }
}

/// What is found of the spool at `path`.
pub fn inspect_spool(path: &str, listing: SpoolListing, duration_ms: u64) -> (r: SpoolInspection)
    ensures
        ({
            let (count, finding) = spool_view(path@, listing, duration_ms);
            &&& r.pending_batches == count.pending
            &&& r.invalid_batches == count.invalid
            &&& r.total_bytes == count.bytes
            &&& r.check@ == finding
        }),
{
    match listing {
        SpoolListing::Missing => SpoolInspection {
            pending_batches: 0,
            invalid_batches: 0,
            total_bytes: 0,
            check: DiagnosticCheck::new(
                "spool",
                "missing",
                None,
                text::owned("the spool has not been created yet"),
                None,
                duration_ms,
            ),
        },
        SpoolListing::Unreadable { error } => SpoolInspection {
            pending_batches: 0,
            invalid_batches: 0,
            total_bytes: 0,
            check: spool_error(
                text::cat4("failed to read ", path, ": ", error.as_str()),
                duration_ms,
            ),
        },
        SpoolListing::Entries { entries } => count_spool(path, &entries, duration_ms),
    }
}

/// An identity is shown exactly where the file holds a canonical one, blanks aside, and is then the
/// one in the file; a file that is not there is missing, and anything else is an error.
pub proof fn which_identity_is_shown(path: Seq<char>, read: FileRead, ms: u64)
    ensures
        ({
            let (id, check) = host_finding(path, read, ms);
            &&& id is Some <==> check.status == "ok"@
            &&& id is Some <==> (read matches FileRead::Text { content } && canonical(
                uuid_read(text::trimmed(content@)),
                text::trimmed(content@),
            ) is Ok)
            &&& id is Some ==> id == Some(text::trimmed(read->content@))
            &&& check.status == "missing"@ <==> read is Missing
            &&& check.id == "identity"@
            &&& check.duration_ms == ms
        }),
{
    reveal_strlit("ok");
    reveal_strlit("missing");
    reveal_strlit("error");
    assert("ok"@.len() != "missing"@.len());
    assert("ok"@.len() != "error"@.len());
    assert("error"@.len() != "missing"@.len());
}

/// A credential is present exactly where its file holds more than blanks; what the credential is is
/// not told.
pub proof fn when_a_credential_is_present(path: Seq<char>, read: FileRead, other: FileRead, ms: u64)
    ensures
        ({
            let (present, check) = credential_finding(path, read, ms);
            &&& present <==> check.status == "ok"@
            &&& present <==> (read matches FileRead::Text { content } && text::trimmed(
                content@,
            ).len() > 0)
            &&& check.status == "missing"@ <==> read is Missing
            &&& check.id == "credential"@
            &&& present && credential_finding(path, other, ms).0 ==> check == credential_finding(
                path,
                other,
                ms,
            ).1
        }),
{
    reveal_strlit("ok");
    reveal_strlit("missing");
    reveal_strlit("error");
    assert("ok"@.len() != "missing"@.len());
    assert("ok"@.len() != "error"@.len());
    assert("error"@.len() != "missing"@.len());
}

/// A configuration is found good where its settings are valid and its file is there, missing where
/// only the file is not, and an error, in the fault's own words, where a setting is not valid.
pub proof fn how_a_configuration_is_found(
    verdict: Result<(), ConfigFault>,
    configured: bool,
    ms: u64,
)
    ensures
        ({
            let check = configuration_finding(verdict, configured, ms);
            &&& check.id == "configuration"@
            &&& verdict is Ok && configured ==> check.status == "ok"@
            &&& verdict is Ok && !configured ==> check.status == "missing"@
            &&& verdict matches Err(fault) ==> check.status == "error"@ && check.message
                == fault.text()
        }),
{
}

/// How many of the first `n` entries have this extension.
pub open spec fn with_extension(entries: Seq<SpoolEntry>, extension: Seq<char>, n: int) -> nat
    decreases n,
{
    if n <= 0 {
        0
    } else {
        with_extension(entries, extension, n - 1) + (if entries[n - 1] matches SpoolEntry::File {
            path,
            extension: Some(given),
            size,
        } && given@ == extension {
            1nat
        } else {
            0
        })
    }
}

/// The bytes of the first `n` entries that are reports, good or bad.
pub open spec fn stored_bytes(entries: Seq<SpoolEntry>, n: int) -> nat
    decreases n,
{
    if n <= 0 {
        0
    } else {
        stored_bytes(entries, n - 1) + match entries[n - 1] {
            SpoolEntry::File { path, extension: Some(given), size: Ok(bytes) } => if given@
                == "json"@ || given@ == "invalid"@ {
                bytes as nat
            } else {
                0
            },
            _ => 0,
        }
    }
}

/// A spool that can be read is counted whole: the pending reports are its `json` files, the invalid
/// ones its `invalid` files, and the bytes are those of both, as far as they can be counted; other
/// files do not count.
pub proof fn a_spool_is_counted_whole(path: Seq<char>, entries: Seq<SpoolEntry>, n: int)
    requires
        0 <= n <= entries.len(),
        forall|i: int|
            0 <= i < entries.len() ==> ((#[trigger] entries[i]) matches SpoolEntry::File {
                path,
                extension,
                size,
            } && size is Ok),
    ensures
        ({
            let count = spool_count(path, entries, n);
            &&& count.fault is None
            &&& count.pending == with_extension(entries, "json"@, n)
            &&& count.invalid == with_extension(entries, "invalid"@, n)
            &&& count.bytes == if stored_bytes(entries, n) <= u64::MAX {
                stored_bytes(entries, n)
            } else {
                u64::MAX as nat
            }
        }),
    decreases n,
{
    reveal_strlit("json");
    reveal_strlit("invalid");
    assert("json"@.len() != "invalid"@.len());
    if n > 0 {
        a_spool_is_counted_whole(path, entries, n - 1);
        assert(entries[n - 1] is File);
    }
}

/// A spool is found good where it was counted to its end, missing where it is not there, and an
/// error where something could not be read.
pub proof fn how_a_spool_is_found(path: Seq<char>, listing: SpoolListing, ms: u64)
    ensures
        ({
            let (count, check) = spool_view(path, listing, ms);
            &&& check.id == "spool"@
            &&& listing is Missing ==> check.status == "missing"@ && count.pending == 0
                && count.invalid == 0 && count.bytes == 0
            &&& listing is Unreadable ==> check.status == "error"@
            &&& listing matches SpoolListing::Entries { entries } ==> count == spool_count(
                path,
                entries@,
                entries@.len() as int,
            ) && check.status == (if count.fault is None {
                "ok"@
            } else {
                "error"@
            })
        }),
{
}

/// Whatever is not well is told with its own code and a remedy; what is well needs neither.
pub proof fn every_fault_has_its_code_and_remedy(
    path: Seq<char>,
    read: FileRead,
    verdict: Result<(), ConfigFault>,
    configured: bool,
    listing: SpoolListing,
    ms: u64,
)
    ensures
        ({
            let (id, identity) = host_finding(path, read, ms);
            let (present, credential) = credential_finding(path, read, ms);
            let configuration = configuration_finding(verdict, configured, ms);
            let spool = spool_view(path, listing, ms).1;
            &&& id is Some ==> identity.code is None && identity.remediation is None
            &&& id is None ==> identity.remediation is Some && identity.code == Some(
                match read {
                    FileRead::Text { .. } => "identity_invalid"@,
                    FileRead::Missing => "identity_missing"@,
                    FileRead::Failed { .. } => "identity_unreadable"@,
                },
            )
            &&& read matches FileRead::Failed { error } ==> identity.message == "failed to read "@
                + path + ": "@ + error@
            &&& present <==> credential.code is None
            &&& present <==> credential.remediation is None
            &&& verdict is Err ==> configuration.code == Some("config_invalid"@)
                && configuration.remediation == Some(
                "repair the configuration file, then run status again"@,
            )
            &&& verdict is Ok && !configured ==> configuration.code == Some("config_missing"@)
                && configuration.remediation == Some(
                "pair this host to create its private configuration"@,
            ) && configuration.message == "configuration file is not present"@
            &&& verdict is Ok && configured ==> configuration.code is None
                && configuration.remediation is None && configuration.message
                == "configuration file is present and its effective settings are valid"@
            &&& configuration.duration_ms == ms && credential.duration_ms == ms
            &&& spool.duration_ms == ms
            &&& spool.code is Some <==> spool.remediation is Some
            &&& listing matches SpoolListing::Unreadable { error } ==> spool.code == Some(
                "spool_unreadable"@,
            ) && spool.message == "failed to read "@ + path + ": "@ + error@
        }),
{
}

/// A spool that could be counted is told by its three numbers.
pub proof fn how_a_count_is_told(count: SpoolCount, ms: u64)
    ensures
        count.fault is None ==> spool_finding(count, ms).message == text::decimal(count.pending)
            + " pending, "@ + text::decimal(count.invalid) + " invalid, "@ + text::decimal(
            count.bytes,
        ) + " bytes"@,
        count.fault matches Some(words) ==> spool_finding(count, ms).message == words,
{
}

} // verus!
