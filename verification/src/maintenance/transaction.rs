//! The transactions of the Windows installer.
//!
//! Every command of the maintenance program is a transaction: it asks for one operation after
//! the other, learns from each what it needs, and ends well or with a fault. What changes the
//! machine comes after everything that could refuse it.

use crate::text;
use vstd::prelude::*;

verus! {

/// The type of a service SID that is neither left out nor restricted.
pub const SERVICE_SID_TYPE_UNRESTRICTED: u32 = 1;

/// The format of the journals.
pub const SNAPSHOT_FORMAT: u32 = 2;

/// What the maintenance program is asked to do.
#[derive(Clone, Copy, PartialEq, Eq, Structural, Debug)]
pub enum MaintenanceCommand {
    PrepareInstall,
    ApplyInstall,
    RollbackInstall,
    CommitInstall,
    PreflightUninstall,
    RollbackUninstallPreflight,
    PreserveState,
    RollbackUninstall,
    CommitUninstall,
    PreparePurge,
    RollbackPurge,
    CommitPurge,
}

/// The command that a name stands for.
pub open spec fn command_named(name: Seq<char>) -> Option<MaintenanceCommand> {
    if name == "prepare-install"@ {
        Some(MaintenanceCommand::PrepareInstall)
    } else if name == "apply-install"@ {
        Some(MaintenanceCommand::ApplyInstall)
    } else if name == "rollback-install"@ {
        Some(MaintenanceCommand::RollbackInstall)
    } else if name == "commit-install"@ {
        Some(MaintenanceCommand::CommitInstall)
    } else if name == "preflight-uninstall"@ {
        Some(MaintenanceCommand::PreflightUninstall)
    } else if name == "rollback-uninstall-preflight"@ {
        Some(MaintenanceCommand::RollbackUninstallPreflight)
    } else if name == "preserve-state"@ {
        Some(MaintenanceCommand::PreserveState)
    } else if name == "rollback-uninstall"@ {
        Some(MaintenanceCommand::RollbackUninstall)
    } else if name == "commit-uninstall"@ {
        Some(MaintenanceCommand::CommitUninstall)
    } else if name == "prepare-purge"@ {
        Some(MaintenanceCommand::PreparePurge)
    } else if name == "rollback-purge"@ {
        Some(MaintenanceCommand::RollbackPurge)
    } else if name == "commit-purge"@ {
        Some(MaintenanceCommand::CommitPurge)
    } else {
        None
    }
}

/// Why the program's arguments are refused.
#[derive(Clone, Copy, PartialEq, Eq, Structural, Debug)]
pub enum CommandFault {
    Missing,
    Arguments,
    Unknown,
}

impl CommandFault {
    /// The words in which the fault is reported.
    pub open spec fn text(self) -> Seq<char> {
        match self {
            CommandFault::Missing => "expected one maintenance command"@,
            CommandFault::Arguments => "maintenance commands take no arguments"@,
            CommandFault::Unknown =>
                "unknown maintenance command; expected prepare-install, apply-install, rollback-install, commit-install, preflight-uninstall, preserve-state, rollback-uninstall-preflight, rollback-uninstall, commit-uninstall, prepare-purge, rollback-purge, or commit-purge"@,
        }
    }

    /// The words in which the fault is reported.
    pub fn message(&self) -> (r: String)
        ensures
            r@ == self.text(),
    {
        match self {
            CommandFault::Missing => text::owned("expected one maintenance command"),
            CommandFault::Arguments => text::owned("maintenance commands take no arguments"),
            CommandFault::Unknown => text::owned(
                "unknown maintenance command; expected prepare-install, apply-install, rollback-install, commit-install, preflight-uninstall, preserve-state, rollback-uninstall-preflight, rollback-uninstall, commit-uninstall, prepare-purge, rollback-purge, or commit-purge",
            ),
        }
    }
}

/// The command that the arguments ask for: exactly one, and a known one.
pub fn parse_command(arguments: &Vec<String>) -> (r: Result<MaintenanceCommand, CommandFault>)
    ensures
        r == if arguments@.len() == 0 {
            Err::<MaintenanceCommand, CommandFault>(CommandFault::Missing)
        } else if arguments@.len() > 1 {
            Err(CommandFault::Arguments)
        } else {
            match command_named(arguments@[0]@) {
                Some(command) => Ok(command),
                None => Err(CommandFault::Unknown),
            }
        },
{
    if arguments.len() == 0 {
        return Err(CommandFault::Missing);
    }
    if arguments.len() > 1 {
        return Err(CommandFault::Arguments);
    }
    let name = arguments[0].as_str();
    if text::same(name, "prepare-install") {
        Ok(MaintenanceCommand::PrepareInstall)
    } else if text::same(name, "apply-install") {
        Ok(MaintenanceCommand::ApplyInstall)
    } else if text::same(name, "rollback-install") {
        Ok(MaintenanceCommand::RollbackInstall)
    } else if text::same(name, "commit-install") {
        Ok(MaintenanceCommand::CommitInstall)
    } else if text::same(name, "preflight-uninstall") {
        Ok(MaintenanceCommand::PreflightUninstall)
    } else if text::same(name, "rollback-uninstall-preflight") {
        Ok(MaintenanceCommand::RollbackUninstallPreflight)
    } else if text::same(name, "preserve-state") {
        Ok(MaintenanceCommand::PreserveState)
    } else if text::same(name, "rollback-uninstall") {
        Ok(MaintenanceCommand::RollbackUninstall)
    } else if text::same(name, "commit-uninstall") {
        Ok(MaintenanceCommand::CommitUninstall)
    } else if text::same(name, "prepare-purge") {
        Ok(MaintenanceCommand::PreparePurge)
    } else if text::same(name, "rollback-purge") {
        Ok(MaintenanceCommand::RollbackPurge)
    } else if text::same(name, "commit-purge") {
        Ok(MaintenanceCommand::CommitPurge)
    } else {
        Err(CommandFault::Unknown)
    }
}

/// What an installation was like before it began.
#[derive(Clone, Copy, PartialEq, Eq, Structural, Debug)]
pub struct InstallSnapshot {
    pub program_existed: bool,
    pub state_existed: bool,
    pub original_service_sid_type: Option<u32>,
    pub original_failure_actions_on_non_crash: Option<bool>,
    pub original_service_running: bool,
    pub state_acl_saved: bool,
}

/// What an installation was like before it was removed.
#[derive(Clone, Copy, PartialEq, Eq, Structural, Debug)]
pub struct UninstallSnapshot {
    pub state_acl_saved: bool,
    pub service_was_running: bool,
}

/// Whether a journal or an ACL snapshot is of this program's format and version.
pub fn snapshot_supported(format: u32, application_version: &str) -> (r: bool)
    ensures
        r == (format == SNAPSHOT_FORMAT && application_version@ == "0.3.2"@),
{
    format == SNAPSHOT_FORMAT && text::same(
        application_version,
        crate::platform::package_version(),
    )
}

/// The fixed directories.
#[derive(Clone, Copy, PartialEq, Eq, Structural, Debug)]
pub enum Root {
    Program,
    State,
    Journal,
    UninstallJournal,
    Quarantine,
}

/// What must not be there.
#[derive(Clone, Copy, PartialEq, Eq, Structural, Debug)]
pub enum Absence {
    StaleInstallJournal,
    PendingUninstallJournal,
    PendingPurgeQuarantine,
    StaleUninstallJournal,
    AppearedState,
    ReplacementState,
}

impl Absence {
    /// The directory that must not be there.
    pub open spec fn at(self) -> Root {
        match self {
            Absence::StaleInstallJournal => Root::Journal,
            Absence::PendingUninstallJournal => Root::UninstallJournal,
            Absence::PendingPurgeQuarantine => Root::Quarantine,
            Absence::StaleUninstallJournal => Root::UninstallJournal,
            Absence::AppearedState => Root::State,
            Absence::ReplacementState => Root::State,
        }
    }

    /// What it is called.
    pub open spec fn called(self) -> Seq<char> {
        match self {
            Absence::StaleInstallJournal => "stale install journal"@,
            Absence::PendingUninstallJournal => "pending uninstall journal"@,
            Absence::PendingPurgeQuarantine => "pending purge quarantine"@,
            Absence::StaleUninstallJournal => "stale uninstall journal"@,
            Absence::AppearedState => "state root that appeared after install preflight"@,
            Absence::ReplacementState => "replacement state root"@,
        }
    }

    /// The directory that must not be there.
    pub fn root(&self) -> (r: Root)
        ensures
            r == self.at(),
    {
        match self {
            Absence::StaleInstallJournal => Root::Journal,
            Absence::PendingUninstallJournal => Root::UninstallJournal,
            Absence::PendingPurgeQuarantine => Root::Quarantine,
            Absence::StaleUninstallJournal => Root::UninstallJournal,
            Absence::AppearedState => Root::State,
            Absence::ReplacementState => Root::State,
        }
    }

    /// What it is called.
    pub fn label(&self) -> (r: &'static str)
        ensures
            r@ == self.called(),
    {
        match self {
            Absence::StaleInstallJournal => "stale install journal",
            Absence::PendingUninstallJournal => "pending uninstall journal",
            Absence::PendingPurgeQuarantine => "pending purge quarantine",
            Absence::StaleUninstallJournal => "stale uninstall journal",
            Absence::AppearedState => "state root that appeared after install preflight",
            Absence::ReplacementState => "replacement state root",
        }
    }
}

/// Why a transaction refuses to go on.
#[derive(Clone, Copy, PartialEq, Eq, Structural, Debug)]
pub enum TransactionFault {
    ProgramNotOwned,
    NoTrustedState,
    ExistingSidType,
    ProgramNotCreated,
    StateDisappeared,
    ServiceNotInstalled,
    SidTypeNotVerified,
    PolicyNotVerified,
    RollbackIncomplete,
    NeitherAccessMode,
    UnprotectedState,
    ProgramMissing,
    ServiceMissing,
    InstalledSidType,
    InstalledPolicy,
    ServiceGoneDuringUninstall,
    PreservationFailed,
    PreservationNotUndone,
    ServiceGoneDuringPurge,
    QuarantineRemains,
    RollbackServiceMissing,
    RestoredSidType,
    RestoredPolicy,
}

impl TransactionFault {
    /// The words in which the fault is reported.
    pub open spec fn text(self) -> Seq<char> {
        match self {
            TransactionFault::ProgramNotOwned =>
                "an existing program root is not owned by the current UnionCAgent service"@,
            TransactionFault::NoTrustedState =>
                "an existing UnionCAgent service has no trusted state root"@,
            TransactionFault::ExistingSidType =>
                "the existing UnionCAgent service SID type is not unrestricted"@,
            TransactionFault::ProgramNotCreated => "MSI did not create the program root"@,
            TransactionFault::StateDisappeared =>
                "the pre-existing Agent state root disappeared before apply"@,
            TransactionFault::ServiceNotInstalled =>
                "MSI did not install the UnionCAgent service"@,
            TransactionFault::SidTypeNotVerified =>
                "UnionCAgent service SID type verification failed"@,
            TransactionFault::PolicyNotVerified =>
                "UnionCAgent non-crash failure restart policy did not verify"@,
            TransactionFault::RollbackIncomplete =>
                "rollback was incomplete; the protected journal was retained"@,
            TransactionFault::NeitherAccessMode =>
                "fresh-install state root matches neither exact rollback-safe ACL mode"@,
            TransactionFault::UnprotectedState =>
                "an unmarked fresh-install state root is not protected by the exact pre-marker ACL"@,
            TransactionFault::ProgramMissing => "installed program root is missing"@,
            TransactionFault::ServiceMissing => "the installed UnionCAgent service is missing"@,
            TransactionFault::InstalledSidType =>
                "the installed UnionCAgent service SID type is not unrestricted"@,
            TransactionFault::InstalledPolicy =>
                "the installed UnionCAgent service does not restart after reported failures"@,
            TransactionFault::ServiceGoneDuringUninstall =>
                "UnionCAgent service disappeared during uninstall"@,
            TransactionFault::PreservationFailed =>
                "state preservation failed; the original ACL was restored"@,
            TransactionFault::PreservationNotUndone =>
                "state preservation and ACL rollback failed; the protected uninstall journal was retained"@,
            TransactionFault::ServiceGoneDuringPurge =>
                "UnionCAgent service disappeared during purge"@,
            TransactionFault::QuarantineRemains =>
                "purge was committed but protected quarantine remains"@,
            TransactionFault::RollbackServiceMissing =>
                "the rollback UnionCAgent service is not present"@,
            TransactionFault::RestoredSidType => "restored service SID type did not verify"@,
            TransactionFault::RestoredPolicy =>
                "restored non-crash failure policy did not verify"@,
        }
    }

    /// The words in which the fault is reported.
    pub fn message(&self) -> (r: String)
        ensures
            r@ == self.text(),
    {
        match self {
            TransactionFault::ProgramNotOwned => text::owned(
                "an existing program root is not owned by the current UnionCAgent service",
            ),
            TransactionFault::NoTrustedState => text::owned(
                "an existing UnionCAgent service has no trusted state root",
            ),
            TransactionFault::ExistingSidType => text::owned(
                "the existing UnionCAgent service SID type is not unrestricted",
            ),
            TransactionFault::ProgramNotCreated => text::owned(
                "MSI did not create the program root",
            ),
            TransactionFault::StateDisappeared => text::owned(
                "the pre-existing Agent state root disappeared before apply",
            ),
            TransactionFault::ServiceNotInstalled => text::owned(
                "MSI did not install the UnionCAgent service",
            ),
            TransactionFault::SidTypeNotVerified => text::owned(
                "UnionCAgent service SID type verification failed",
            ),
            TransactionFault::PolicyNotVerified => text::owned(
                "UnionCAgent non-crash failure restart policy did not verify",
            ),
            TransactionFault::RollbackIncomplete => text::owned(
                "rollback was incomplete; the protected journal was retained",
            ),
            TransactionFault::NeitherAccessMode => text::owned(
                "fresh-install state root matches neither exact rollback-safe ACL mode",
            ),
            TransactionFault::UnprotectedState => text::owned(
                "an unmarked fresh-install state root is not protected by the exact pre-marker ACL",
            ),
            TransactionFault::ProgramMissing => text::owned("installed program root is missing"),
            TransactionFault::ServiceMissing => text::owned(
                "the installed UnionCAgent service is missing",
            ),
            TransactionFault::InstalledSidType => text::owned(
                "the installed UnionCAgent service SID type is not unrestricted",
            ),
            TransactionFault::InstalledPolicy => text::owned(
                "the installed UnionCAgent service does not restart after reported failures",
            ),
            TransactionFault::ServiceGoneDuringUninstall => text::owned(
                "UnionCAgent service disappeared during uninstall",
            ),
            TransactionFault::PreservationFailed => text::owned(
                "state preservation failed; the original ACL was restored",
            ),
            TransactionFault::PreservationNotUndone => text::owned(
                "state preservation and ACL rollback failed; the protected uninstall journal was retained",
            ),
            TransactionFault::ServiceGoneDuringPurge => text::owned(
                "UnionCAgent service disappeared during purge",
            ),
            TransactionFault::QuarantineRemains => text::owned(
                "purge was committed but protected quarantine remains",
            ),
            TransactionFault::RollbackServiceMissing => text::owned(
                "the rollback UnionCAgent service is not present",
            ),
            TransactionFault::RestoredSidType => text::owned(
                "restored service SID type did not verify",
            ),
            TransactionFault::RestoredPolicy => text::owned(
                "restored non-crash failure policy did not verify",
            ),
        }
    }
}

/// The fault of a purge whose quarantine is left at `path`.
pub fn quarantine_remains_message(path: &str) -> (r: String)
    ensures
        r@ == TransactionFault::QuarantineRemains.text() + " at "@ + path@
            + "; reboot and remove that fixed directory as Administrator"@,
{
    text::cat4(
        TransactionFault::QuarantineRemains.message().as_str(),
        " at ",
        path,
        "; reboot and remove that fixed directory as Administrator",
    )
}

/// The fault of a rollback some of whose parts failed, with what each part said.
pub fn rollback_incomplete_message(failures: &Vec<String>) -> (r: String)
    ensures
        r@ == TransactionFault::RollbackIncomplete.text() + ": "@ + text::joined(
            text::views(failures@),
            "; "@,
        ),
{
    text::cat3(
        TransactionFault::RollbackIncomplete.message().as_str(),
        ": ",
        text::join(failures, "; ").as_str(),
    )
}

/// One operation on the machine, or the end of a transaction.
#[derive(Clone, Copy, PartialEq, Eq, Structural, Debug)]
pub enum Operation {
    /// Nothing yet.
    Begin,
    EnsureAbsent(Absence),
    /// Look for a root, which must then be a real directory.
    LookFor(Root),
    /// Look whether there is anything at a root.
    Exists(Root),
    ValidateDirectory(Root),
    ValidateTree(Root),
    ValidateExecutable,
    /// The tree of the program and the access to all of it.
    ValidateProgramTree,
    OpenService,
    /// The service is this program's, as it is installed.
    ValidateService,
    /// The marker of the state root, and the access to both.
    ValidateMarker { service_access: bool },
    /// The marker itself.
    ValidateMarkerFile,
    /// The access to the marker, for the service too.
    ValidateMarkerAccess,
    /// The access to the state root.
    ValidateStateAccess { service_access: bool },
    LookForMarker,
    WriteOrValidateMarker,
    QuerySidType,
    SetSidType(u32),
    QueryActive,
    QueryFailurePolicy,
    SetFailurePolicy(bool),
    /// Create a journal that only the system and administrators reach.
    CreateJournal(Root),
    WriteSnapshot,
    /// Put a snapshot that says that the ACL is saved in place of the other.
    ReplaceSnapshot,
    /// The tree of a journal that holds its snapshot.
    VerifySnapshot,
    /// The tree of a journal that holds everything.
    VerifyJournal,
    ReadInstallSnapshot,
    ReadUninstallSnapshot,
    QueryPurgeStarted,
    WritePurgeStarted,
    SaveAcl(Root),
    /// Look whether the ACL of a root was saved.
    AclSaved(Root),
    RestoreAcl(Root),
    CreateStateRoot,
    /// Let only the system and administrators reach the state root.
    SecureStateRoot,
    /// The same for everything below it.
    SecureStateForAdministrators,
    /// Let the service reach the state too.
    SecureStateForService,
    SecureProgram,
    WriteDefaultConfig,
    /// The tree of the state root once its marker is there.
    RevalidateState,
    /// Look whether a state root is left that the installation made.
    FreshStateLeft,
    /// Remove it, as a transaction of its own.
    RemoveFreshState,
    /// Look whether the state root holds anything.
    StateHoldsAnything,
    RemoveEmptyState,
    /// Restore the service, as a transaction of its own.
    RestoreService,
    RemoveTree(Root),
    /// Remove a journal after a failure; that this fails too is not told.
    DiscardJournal(Root),
    /// Move the state into quarantine.
    Quarantine,
    /// Move it back.
    Unquarantine,
    /// Wait until the service neither starts nor stops; whether it runs then.
    AwaitStable,
    StartService,
    StopService,
    AwaitRunning(bool),
    Finish,
    Fail(TransactionFault),
    /// Fail with the error of the operation that failed.
    FailWithError,
}

/// What came of an operation.
#[derive(Clone, Copy, PartialEq, Eq, Structural, Debug)]
pub enum Answer {
    Done,
    Said(bool),
    SidType(u32),
    Install(InstallSnapshot),
    Uninstall(UninstallSnapshot),
    Failed,
}

/// What a transaction has learnt.
#[derive(Clone, Copy, PartialEq, Eq, Structural, Debug)]
pub struct Facts {
    pub program: bool,
    pub state: bool,
    pub service: bool,
    pub running: bool,
    pub sid_type: u32,
    pub policy: bool,
    /// The answer to the last question of another kind.
    pub said: bool,
    pub install: InstallSnapshot,
    pub uninstall: UninstallSnapshot,
    /// There was an uninstall journal.
    pub journal: bool,
    /// Some part of a rollback, or the deletion of a quarantine, failed.
    pub part_failed: bool,
}

/// The operation asks a question.
pub open spec fn asks(op: Operation) -> bool {
    match op {
        Operation::LookFor(_) | Operation::Exists(_) | Operation::OpenService
        | Operation::LookForMarker | Operation::QueryActive | Operation::QueryFailurePolicy
        | Operation::QueryPurgeStarted | Operation::AclSaved(_) | Operation::FreshStateLeft
        | Operation::StateHoldsAnything | Operation::AwaitStable => true,
        _ => false,
    }
}

/// The transaction is over.
pub open spec fn is_end(op: Operation) -> bool {
    op is Finish || op is Fail || op is FailWithError
}

/// The answer is one that the operation can give.
pub open spec fn fits(op: Operation, answer: Answer) -> bool {
    &&& !is_end(op)
    &&& match answer {
        Answer::Failed => op != Operation::Begin,
        Answer::Said(_) => asks(op),
        Answer::SidType(_) => op == Operation::QuerySidType,
        Answer::Install(_) => op == Operation::ReadInstallSnapshot,
        Answer::Uninstall(_) => op == Operation::ReadUninstallSnapshot,
        Answer::Done => !asks(op) && op != Operation::QuerySidType && op
            != Operation::ReadInstallSnapshot && op != Operation::ReadUninstallSnapshot,
    }
}

impl Facts {
    /// What is known after an answer.
    pub open spec fn learning(self, op: Operation, answer: Answer) -> Facts {
        match answer {
            Answer::Said(said) => match op {
                Operation::LookFor(Root::Program) => Facts { program: said, ..self },
                Operation::LookFor(Root::State) => Facts { state: said, ..self },
                Operation::Exists(Root::UninstallJournal) => Facts { journal: said, ..self },
                Operation::OpenService => Facts { service: said, ..self },
                Operation::QueryActive => Facts { running: said, ..self },
                Operation::AwaitStable => Facts { running: said, ..self },
                Operation::QueryFailurePolicy => Facts { policy: said, ..self },
                _ => Facts { said, ..self },
            },
            Answer::SidType(sid_type) => Facts { sid_type, ..self },
            Answer::Install(install) => Facts { install, ..self },
            Answer::Uninstall(uninstall) => Facts { uninstall, ..self },
            _ => self,
        }
    }

    /// The snapshot of an installation that is about to change.
    pub open spec fn install_snapshot(self) -> InstallSnapshot {
        InstallSnapshot {
            program_existed: self.program,
            state_existed: self.state,
            original_service_sid_type: if self.service {
                Some(self.sid_type)
            } else {
                None
            },
            original_failure_actions_on_non_crash: if self.service {
                Some(self.policy)
            } else {
                None
            },
            original_service_running: self.service && self.running,
            state_acl_saved: self.state,
        }
    }

    pub(crate) fn learn(&mut self, op: Operation, answer: Answer)
        ensures
            *final(self) == old(self).learning(op, answer),
    {
        match answer {
            Answer::Said(said) => match op {
                Operation::LookFor(Root::Program) => self.program = said,
                Operation::LookFor(Root::State) => self.state = said,
                Operation::Exists(Root::UninstallJournal) => self.journal = said,
                Operation::OpenService => self.service = said,
                Operation::QueryActive => self.running = said,
                Operation::AwaitStable => self.running = said,
                Operation::QueryFailurePolicy => self.policy = said,
                _ => self.said = said,
            },
            Answer::SidType(sid_type) => self.sid_type = sid_type,
            Answer::Install(install) => self.install = install,
            Answer::Uninstall(uninstall) => self.uninstall = uninstall,
            _ => {},
        }
    }

    /// The snapshot that the installation's journal holds.
    pub fn snapshot(&self) -> (r: InstallSnapshot)
        ensures
            r == self.install_snapshot(),
    {
        InstallSnapshot {
            program_existed: self.program,
            state_existed: self.state,
            original_service_sid_type: if self.service {
                Some(self.sid_type)
            } else {
                None
            },
            original_failure_actions_on_non_crash: if self.service {
                Some(self.policy)
            } else {
                None
            },
            original_service_running: self.service && self.running,
            state_acl_saved: self.state,
        }
    }

    pub(crate) fn none() -> (r: Facts)
        ensures
            r == Facts::nothing(),
    {
        Facts {
            program: false,
            state: false,
            service: false,
            running: false,
            sid_type: 0,
            policy: false,
            said: false,
            install: InstallSnapshot {
                program_existed: false,
                state_existed: false,
                original_service_sid_type: None,
                original_failure_actions_on_non_crash: None,
                original_service_running: false,
                state_acl_saved: false,
            },
            uninstall: UninstallSnapshot { state_acl_saved: false, service_was_running: false },
            journal: false,
            part_failed: false,
        }
    }

    /// Nothing is known yet.
    pub open spec fn nothing() -> Facts {
        Facts {
            program: false,
            state: false,
            service: false,
            running: false,
            sid_type: 0,
            policy: false,
            said: false,
            install: InstallSnapshot {
                program_existed: false,
                state_existed: false,
                original_service_sid_type: None,
                original_failure_actions_on_non_crash: None,
                original_service_running: false,
                state_acl_saved: false,
            },
            uninstall: UninstallSnapshot { state_acl_saved: false, service_was_running: false },
            journal: false,
            part_failed: false,
        }
    }
}

/// A maintenance command is one word, and each word names its own command.
pub proof fn what_each_command_is_named(
    r: Result<MaintenanceCommand, CommandFault>,
    arguments: Vec<String>,
)
    requires
        call_ensures(parse_command, (&arguments,), r),
    ensures
        arguments@.len() == 0 <==> r == Err::<MaintenanceCommand, CommandFault>(
            CommandFault::Missing,
        ),
        arguments@.len() > 1 <==> r == Err::<MaintenanceCommand, CommandFault>(
            CommandFault::Arguments,
        ),
        r matches Ok(command) ==> arguments@.len() == 1 && arguments@[0]@ == match command {
            MaintenanceCommand::PrepareInstall => "prepare-install"@,
            MaintenanceCommand::ApplyInstall => "apply-install"@,
            MaintenanceCommand::RollbackInstall => "rollback-install"@,
            MaintenanceCommand::CommitInstall => "commit-install"@,
            MaintenanceCommand::PreflightUninstall => "preflight-uninstall"@,
            MaintenanceCommand::RollbackUninstallPreflight => "rollback-uninstall-preflight"@,
            MaintenanceCommand::PreserveState => "preserve-state"@,
            MaintenanceCommand::RollbackUninstall => "rollback-uninstall"@,
            MaintenanceCommand::CommitUninstall => "commit-uninstall"@,
            MaintenanceCommand::PreparePurge => "prepare-purge"@,
            MaintenanceCommand::RollbackPurge => "rollback-purge"@,
            MaintenanceCommand::CommitPurge => "commit-purge"@,
        },
        r == Err::<MaintenanceCommand, CommandFault>(CommandFault::Unknown) ==> {
            let given = arguments@[0]@;
            &&& given != "prepare-install"@ && given != "apply-install"@
            &&& given != "rollback-install"@ && given != "commit-install"@
            &&& given != "preflight-uninstall"@ && given != "rollback-uninstall-preflight"@
            &&& given != "preserve-state"@ && given != "rollback-uninstall"@
            &&& given != "commit-uninstall"@ && given != "prepare-purge"@
            &&& given != "rollback-purge"@ && given != "commit-purge"@
        },
{
}

/// Each question is answered where its answer is kept: what was found out about the program, the
/// state, the service and the journal changes nothing else.
pub proof fn each_answer_is_kept_in_its_place(facts: Facts, said: bool, sid_type: u32)
    ensures
        facts.learning(Operation::LookFor(Root::Program), Answer::Said(said)) == (Facts {
            program: said,
            ..facts
        }),
        facts.learning(Operation::LookFor(Root::State), Answer::Said(said)) == (Facts {
            state: said,
            ..facts
        }),
        facts.learning(Operation::OpenService, Answer::Said(said)) == (Facts {
            service: said,
            ..facts
        }),
        facts.learning(Operation::QueryActive, Answer::Said(said)) == (Facts {
            running: said,
            ..facts
        }),
        facts.learning(Operation::QueryFailurePolicy, Answer::Said(said)) == (Facts {
            policy: said,
            ..facts
        }),
        facts.learning(Operation::QuerySidType, Answer::SidType(sid_type)) == (Facts {
            sid_type,
            ..facts
        }),
        facts.learning(Operation::Exists(Root::UninstallJournal), Answer::Said(said)) == (Facts {
            journal: said,
            ..facts
        }),
        facts.learning(Operation::AwaitStable, Answer::Said(said)) == (Facts {
            running: said,
            ..facts
        }),
        facts.learning(Operation::SecureProgram, Answer::Done) == facts,
{
}

/// What must not be there is looked for where it would be.
pub proof fn where_absence_is_looked_for(absence: Absence)
    ensures
        absence.at() == Root::Journal <==> absence is StaleInstallJournal,
        absence.at() == Root::Quarantine <==> absence is PendingPurgeQuarantine,
        absence.at() == Root::State <==> absence is AppearedState || absence is ReplacementState,
        absence.at() == Root::UninstallJournal <==> absence is PendingUninstallJournal || absence
            is StaleUninstallJournal,
{
}

} // verus!
