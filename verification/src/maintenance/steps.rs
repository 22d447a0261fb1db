//! The order of the operations of each maintenance transaction.

use crate::maintenance::transaction::{
    fits, is_end, Absence, Answer, Facts, MaintenanceCommand, Operation, Root, TransactionFault,
    SERVICE_SID_TYPE_UNRESTRICTED,
};
use vstd::prelude::*;

verus! {

/// What the service is restored to.
#[derive(Clone, Copy, PartialEq, Eq, Structural, Debug)]
pub struct Restoration {
    pub sid_type: u32,
    /// It restarts after failures that it reports itself.
    pub policy: bool,
    pub running: bool,
    /// The access to the program is built anew; else it was restored already.
    pub secure_program: bool,
}

/// A transaction: a command, or a part of one that is a transaction of its own.
#[derive(Clone, Copy, PartialEq, Eq, Structural, Debug)]
pub enum Kind {
    Command(MaintenanceCommand),
    RemoveFreshState,
    RestoreService(Restoration),
}

/// What follows the deletion of a quarantine, whatever came of it.
pub open spec fn deleted_next(facts: Facts) -> Operation {
    if facts.journal {
        Operation::RemoveTree(Root::UninstallJournal)
    } else if facts.part_failed {
        Operation::Fail(TransactionFault::QuarantineRemains)
    } else {
        Operation::Finish
    }
}

fn deleted(facts: Facts) -> (r: Operation)
    ensures
        r == deleted_next(facts),
{
    if facts.journal {
        Operation::RemoveTree(Root::UninstallJournal)
    } else if facts.part_failed {
        Operation::Fail(TransactionFault::QuarantineRemains)
    } else {
        Operation::Finish
    }
}

/// The last part: the journal goes unless another part failed.
pub open spec fn last_part_next(facts: Facts) -> Operation {
    if facts.part_failed {
        Operation::Fail(TransactionFault::RollbackIncomplete)
    } else {
        Operation::RemoveTree(Root::Journal)
    }
}

fn last_part(facts: Facts) -> (r: Operation)
    ensures
        r == last_part_next(facts),
{
    if facts.part_failed {
        Operation::Fail(TransactionFault::RollbackIncomplete)
    } else {
        Operation::RemoveTree(Root::Journal)
    }
}

/// The part that removes a state root that the installation made, or the last.
pub open spec fn state_part_next(facts: Facts) -> Operation {
    if facts.install.state_existed {
        last_part_next(facts)
    } else {
        Operation::FreshStateLeft
    }
}

fn state_part(facts: Facts) -> (r: Operation)
    ensures
        r == state_part_next(facts),
{
    if facts.install.state_existed {
        last_part(facts)
    } else {
        Operation::FreshStateLeft
    }
}

/// The part that restores the service, or those behind it.
pub open spec fn service_part_next(facts: Facts) -> Operation {
    if facts.install.original_service_sid_type is Some {
        Operation::RestoreService
    } else {
        state_part_next(facts)
    }
}

fn service_part(facts: Facts) -> (r: Operation)
    ensures
        r == service_part_next(facts),
{
    if facts.install.original_service_sid_type.is_some() {
        Operation::RestoreService
    } else {
        state_part(facts)
    }
}

/// The part of an installation's rollback that restores the program's ACL, or those behind it.
pub open spec fn program_part_next(facts: Facts) -> Operation {
    if facts.install.program_existed {
        Operation::AclSaved(Root::Program)
    } else {
        service_part_next(facts)
    }
}

fn program_part(facts: Facts) -> (r: Operation)
    ensures
        r == program_part_next(facts),
{
    if facts.install.program_existed {
        Operation::AclSaved(Root::Program)
    } else {
        service_part(facts)
    }
}

/// What follows a successful operation in an installation's preparation: everything is checked
/// before the journal is made.
pub open spec fn prepare_install_next(op: Operation, facts: Facts) -> Operation {
    match op {
        Operation::Begin => Operation::EnsureAbsent(Absence::StaleInstallJournal),
        Operation::EnsureAbsent(Absence::StaleInstallJournal) => Operation::EnsureAbsent(
            Absence::PendingUninstallJournal,
        ),
        Operation::EnsureAbsent(Absence::PendingUninstallJournal) => Operation::EnsureAbsent(
            Absence::PendingPurgeQuarantine,
        ),
        Operation::EnsureAbsent(_) => Operation::LookFor(Root::Program),
        Operation::LookFor(Root::Program) => if facts.program {
            Operation::ValidateTree(Root::Program)
        } else {
            Operation::LookFor(Root::State)
        },
        Operation::ValidateTree(Root::Program) => Operation::LookFor(Root::State),
        Operation::LookFor(_) => if facts.state {
            Operation::ValidateTree(Root::State)
        } else {
            Operation::OpenService
        },
        Operation::ValidateTree(_) => Operation::OpenService,
        Operation::OpenService => if facts.program && !facts.service {
            Operation::Fail(TransactionFault::ProgramNotOwned)
        } else if facts.service {
            Operation::ValidateService
        } else if facts.state {
            Operation::ValidateMarker { service_access: false }
        } else {
            Operation::CreateJournal(Root::Journal)
        },
        Operation::ValidateService => Operation::ValidateProgramTree,
        Operation::ValidateProgramTree => if facts.state {
            Operation::ValidateMarker { service_access: true }
        } else {
            Operation::Fail(TransactionFault::NoTrustedState)
        },
        Operation::ValidateMarker { service_access: true } => Operation::QuerySidType,
        Operation::QuerySidType => if facts.sid_type == SERVICE_SID_TYPE_UNRESTRICTED {
            Operation::QueryActive
        } else {
            Operation::Fail(TransactionFault::ExistingSidType)
        },
        Operation::QueryActive => Operation::QueryFailurePolicy,
        Operation::QueryFailurePolicy => Operation::CreateJournal(Root::Journal),
        Operation::ValidateMarker { service_access: false } => Operation::CreateJournal(
            Root::Journal,
        ),
        Operation::CreateJournal(_) => Operation::WriteSnapshot,
        Operation::WriteSnapshot => Operation::VerifySnapshot,
        Operation::VerifySnapshot => if facts.state {
            Operation::SaveAcl(Root::State)
        } else if facts.program {
            Operation::SaveAcl(Root::Program)
        } else {
            Operation::VerifyJournal
        },
        Operation::SaveAcl(Root::State) => if facts.program {
            Operation::SaveAcl(Root::Program)
        } else {
            Operation::VerifyJournal
        },
        Operation::SaveAcl(_) => Operation::VerifyJournal,
        Operation::VerifyJournal => Operation::Finish,
        _ => Operation::FailWithError,
    }
}

fn prepare_install(op: Operation, facts: Facts) -> (r: Operation)
    ensures
        r == prepare_install_next(op, facts),
{
    match op {
        Operation::Begin => Operation::EnsureAbsent(Absence::StaleInstallJournal),
        Operation::EnsureAbsent(Absence::StaleInstallJournal) => Operation::EnsureAbsent(
            Absence::PendingUninstallJournal,
        ),
        Operation::EnsureAbsent(Absence::PendingUninstallJournal) => Operation::EnsureAbsent(
            Absence::PendingPurgeQuarantine,
        ),
        Operation::EnsureAbsent(_) => Operation::LookFor(Root::Program),
        Operation::LookFor(Root::Program) => if facts.program {
            Operation::ValidateTree(Root::Program)
        } else {
            Operation::LookFor(Root::State)
        },
        Operation::ValidateTree(Root::Program) => Operation::LookFor(Root::State),
        Operation::LookFor(_) => if facts.state {
            Operation::ValidateTree(Root::State)
        } else {
            Operation::OpenService
        },
        Operation::ValidateTree(_) => Operation::OpenService,
        Operation::OpenService => if facts.program && !facts.service {
            Operation::Fail(TransactionFault::ProgramNotOwned)
        } else if facts.service {
            Operation::ValidateService
        } else if facts.state {
            Operation::ValidateMarker { service_access: false }
        } else {
            Operation::CreateJournal(Root::Journal)
        },
        Operation::ValidateService => Operation::ValidateProgramTree,
        Operation::ValidateProgramTree => if facts.state {
            Operation::ValidateMarker { service_access: true }
        } else {
            Operation::Fail(TransactionFault::NoTrustedState)
        },
        Operation::ValidateMarker { service_access: true } => Operation::QuerySidType,
        Operation::QuerySidType => if facts.sid_type == SERVICE_SID_TYPE_UNRESTRICTED {
            Operation::QueryActive
        } else {
            Operation::Fail(TransactionFault::ExistingSidType)
        },
        Operation::QueryActive => Operation::QueryFailurePolicy,
        Operation::QueryFailurePolicy => Operation::CreateJournal(Root::Journal),
        Operation::ValidateMarker { service_access: false } => Operation::CreateJournal(
            Root::Journal,
        ),
        Operation::CreateJournal(_) => Operation::WriteSnapshot,
        Operation::WriteSnapshot => Operation::VerifySnapshot,
        Operation::VerifySnapshot => if facts.state {
            Operation::SaveAcl(Root::State)
        } else if facts.program {
            Operation::SaveAcl(Root::Program)
        } else {
            Operation::VerifyJournal
        },
        Operation::SaveAcl(Root::State) => if facts.program {
            Operation::SaveAcl(Root::Program)
        } else {
            Operation::VerifyJournal
        },
        Operation::SaveAcl(_) => Operation::VerifyJournal,
        Operation::VerifyJournal => Operation::Finish,
        _ => Operation::FailWithError,
    }
}

/// What follows a successful operation in an installation once its files are there: the service and
/// its state are set up.
pub open spec fn apply_install_next(op: Operation, facts: Facts) -> Operation {
    match op {
        Operation::Begin => Operation::ReadInstallSnapshot,
        Operation::ReadInstallSnapshot => Operation::LookFor(Root::Program),
        Operation::LookFor(Root::Program) => if facts.program {
            Operation::ValidateTree(Root::Program)
        } else {
            Operation::Fail(TransactionFault::ProgramNotCreated)
        },
        Operation::ValidateTree(Root::Program) => Operation::ValidateExecutable,
        Operation::ValidateExecutable => if facts.install.state_existed {
            Operation::LookFor(Root::State)
        } else {
            Operation::EnsureAbsent(Absence::AppearedState)
        },
        Operation::LookFor(_) => if facts.state {
            Operation::ValidateTree(Root::State)
        } else {
            Operation::Fail(TransactionFault::StateDisappeared)
        },
        Operation::ValidateTree(_) => Operation::OpenService,
        Operation::EnsureAbsent(_) => Operation::CreateStateRoot,
        Operation::CreateStateRoot => Operation::ValidateDirectory(Root::State),
        Operation::ValidateDirectory(_) => Operation::SecureStateRoot,
        Operation::SecureStateRoot => Operation::ValidateStateAccess { service_access: false },
        Operation::ValidateStateAccess { .. } => Operation::WriteDefaultConfig,
        Operation::WriteDefaultConfig => Operation::OpenService,
        Operation::OpenService => if facts.service {
            Operation::ValidateService
        } else {
            Operation::Fail(TransactionFault::ServiceNotInstalled)
        },
        Operation::ValidateService => Operation::SetSidType(SERVICE_SID_TYPE_UNRESTRICTED),
        Operation::SetSidType(_) => Operation::QuerySidType,
        Operation::QuerySidType => if facts.sid_type == SERVICE_SID_TYPE_UNRESTRICTED {
            Operation::SetFailurePolicy(true)
        } else {
            Operation::Fail(TransactionFault::SidTypeNotVerified)
        },
        Operation::SetFailurePolicy(_) => Operation::QueryFailurePolicy,
        Operation::QueryFailurePolicy => if facts.policy {
            Operation::SecureProgram
        } else {
            Operation::Fail(TransactionFault::PolicyNotVerified)
        },
        Operation::SecureProgram => Operation::ValidateProgramTree,
        Operation::ValidateProgramTree => Operation::WriteOrValidateMarker,
        Operation::WriteOrValidateMarker => Operation::RevalidateState,
        Operation::RevalidateState => Operation::SecureStateForService,
        Operation::SecureStateForService => Operation::ValidateMarker { service_access: true },
        Operation::ValidateMarker { .. } => Operation::Finish,
        _ => Operation::FailWithError,
    }
}

fn apply_install(op: Operation, facts: Facts) -> (r: Operation)
    ensures
        r == apply_install_next(op, facts),
{
    match op {
        Operation::Begin => Operation::ReadInstallSnapshot,
        Operation::ReadInstallSnapshot => Operation::LookFor(Root::Program),
        Operation::LookFor(Root::Program) => if facts.program {
            Operation::ValidateTree(Root::Program)
        } else {
            Operation::Fail(TransactionFault::ProgramNotCreated)
        },
        Operation::ValidateTree(Root::Program) => Operation::ValidateExecutable,
        Operation::ValidateExecutable => if facts.install.state_existed {
            Operation::LookFor(Root::State)
        } else {
            Operation::EnsureAbsent(Absence::AppearedState)
        },
        Operation::LookFor(_) => if facts.state {
            Operation::ValidateTree(Root::State)
        } else {
            Operation::Fail(TransactionFault::StateDisappeared)
        },
        Operation::ValidateTree(_) => Operation::OpenService,
        Operation::EnsureAbsent(_) => Operation::CreateStateRoot,
        Operation::CreateStateRoot => Operation::ValidateDirectory(Root::State),
        Operation::ValidateDirectory(_) => Operation::SecureStateRoot,
        Operation::SecureStateRoot => Operation::ValidateStateAccess { service_access: false },
        Operation::ValidateStateAccess { .. } => Operation::WriteDefaultConfig,
        Operation::WriteDefaultConfig => Operation::OpenService,
        Operation::OpenService => if facts.service {
            Operation::ValidateService
        } else {
            Operation::Fail(TransactionFault::ServiceNotInstalled)
        },
        Operation::ValidateService => Operation::SetSidType(SERVICE_SID_TYPE_UNRESTRICTED),
        Operation::SetSidType(_) => Operation::QuerySidType,
        Operation::QuerySidType => if facts.sid_type == SERVICE_SID_TYPE_UNRESTRICTED {
            Operation::SetFailurePolicy(true)
        } else {
            Operation::Fail(TransactionFault::SidTypeNotVerified)
        },
        Operation::SetFailurePolicy(_) => Operation::QueryFailurePolicy,
        Operation::QueryFailurePolicy => if facts.policy {
            Operation::SecureProgram
        } else {
            Operation::Fail(TransactionFault::PolicyNotVerified)
        },
        Operation::SecureProgram => Operation::ValidateProgramTree,
        Operation::ValidateProgramTree => Operation::WriteOrValidateMarker,
        Operation::WriteOrValidateMarker => Operation::RevalidateState,
        Operation::RevalidateState => Operation::SecureStateForService,
        Operation::SecureStateForService => Operation::ValidateMarker { service_access: true },
        Operation::ValidateMarker { .. } => Operation::Finish,
        _ => Operation::FailWithError,
    }
}

/// What follows a successful operation in an installation's rollback: each part is tried, and the
/// journal goes only when all of them succeeded.
pub open spec fn rollback_install_next(op: Operation, facts: Facts) -> Operation {
    match op {
        Operation::Begin => Operation::Exists(Root::Journal),
        Operation::Exists(Root::Journal) => if facts.said {
            Operation::ValidateDirectory(Root::Journal)
        } else {
            Operation::Finish
        },
        Operation::ValidateDirectory(_) => Operation::ValidateTree(Root::Journal),
        Operation::ValidateTree(_) => Operation::ReadInstallSnapshot,
        Operation::ReadInstallSnapshot => if facts.install.state_acl_saved {
            Operation::AclSaved(Root::State)
        } else {
            program_part_next(facts)
        },
        Operation::AclSaved(Root::State) => if facts.said {
            Operation::Exists(Root::State)
        } else {
            program_part_next(facts)
        },
        Operation::Exists(Root::State) => if facts.said {
            Operation::RestoreAcl(Root::State)
        } else {
            program_part_next(facts)
        },
        Operation::RestoreAcl(Root::State) => program_part_next(facts),
        Operation::AclSaved(_) => if facts.said {
            Operation::Exists(Root::Program)
        } else {
            service_part_next(facts)
        },
        Operation::Exists(_) => if facts.said {
            Operation::RestoreAcl(Root::Program)
        } else {
            service_part_next(facts)
        },
        Operation::RestoreAcl(_) => service_part_next(facts),
        Operation::RestoreService => state_part_next(facts),
        Operation::FreshStateLeft => if facts.said {
            Operation::RemoveFreshState
        } else {
            last_part_next(facts)
        },
        Operation::RemoveFreshState => last_part_next(facts),
        Operation::RemoveTree(_) => Operation::Finish,
        _ => Operation::FailWithError,
    }
}

fn rollback_install(op: Operation, facts: Facts) -> (r: Operation)
    ensures
        r == rollback_install_next(op, facts),
{
    match op {
        Operation::Begin => Operation::Exists(Root::Journal),
        Operation::Exists(Root::Journal) => if facts.said {
            Operation::ValidateDirectory(Root::Journal)
        } else {
            Operation::Finish
        },
        Operation::ValidateDirectory(_) => Operation::ValidateTree(Root::Journal),
        Operation::ValidateTree(_) => Operation::ReadInstallSnapshot,
        Operation::ReadInstallSnapshot => if facts.install.state_acl_saved {
            Operation::AclSaved(Root::State)
        } else {
            program_part(facts)
        },
        Operation::AclSaved(Root::State) => if facts.said {
            Operation::Exists(Root::State)
        } else {
            program_part(facts)
        },
        Operation::Exists(Root::State) => if facts.said {
            Operation::RestoreAcl(Root::State)
        } else {
            program_part(facts)
        },
        Operation::RestoreAcl(Root::State) => program_part(facts),
        Operation::AclSaved(_) => if facts.said {
            Operation::Exists(Root::Program)
        } else {
            service_part(facts)
        },
        Operation::Exists(_) => if facts.said {
            Operation::RestoreAcl(Root::Program)
        } else {
            service_part(facts)
        },
        Operation::RestoreAcl(_) => service_part(facts),
        Operation::RestoreService => state_part(facts),
        Operation::FreshStateLeft => if facts.said {
            Operation::RemoveFreshState
        } else {
            last_part(facts)
        },
        Operation::RemoveFreshState => last_part(facts),
        Operation::RemoveTree(_) => Operation::Finish,
        _ => Operation::FailWithError,
    }
}

/// What follows a successful operation in an installation's commit: its journal goes.
pub open spec fn commit_install_next(op: Operation, facts: Facts) -> Operation {
    match op {
        Operation::Begin => Operation::Exists(Root::Journal),
        Operation::Exists(_) => if facts.said {
            Operation::ValidateDirectory(Root::Journal)
        } else {
            Operation::Finish
        },
        Operation::ValidateDirectory(_) => Operation::ValidateTree(Root::Journal),
        Operation::ValidateTree(_) => Operation::ReadInstallSnapshot,
        Operation::ReadInstallSnapshot => Operation::RemoveTree(Root::Journal),
        Operation::RemoveTree(_) => Operation::Finish,
        _ => Operation::FailWithError,
    }
}

fn commit_install(op: Operation, facts: Facts) -> (r: Operation)
    ensures
        r == commit_install_next(op, facts),
{
    match op {
        Operation::Begin => Operation::Exists(Root::Journal),
        Operation::Exists(_) => if facts.said {
            Operation::ValidateDirectory(Root::Journal)
        } else {
            Operation::Finish
        },
        Operation::ValidateDirectory(_) => Operation::ValidateTree(Root::Journal),
        Operation::ValidateTree(_) => Operation::ReadInstallSnapshot,
        Operation::ReadInstallSnapshot => Operation::RemoveTree(Root::Journal),
        Operation::RemoveTree(_) => Operation::Finish,
        _ => Operation::FailWithError,
    }
}

/// What follows a successful operation in a removal's preflight: everything is checked before the
/// journal is made.
pub open spec fn preflight_uninstall_next(op: Operation, facts: Facts) -> Operation {
    match op {
        Operation::Begin => Operation::EnsureAbsent(Absence::StaleUninstallJournal),
        Operation::EnsureAbsent(_) => Operation::LookFor(Root::Program),
        Operation::LookFor(Root::Program) => if facts.program {
            Operation::ValidateExecutable
        } else {
            Operation::Fail(TransactionFault::ProgramMissing)
        },
        Operation::ValidateExecutable => Operation::ValidateProgramTree,
        Operation::ValidateProgramTree => Operation::OpenService,
        Operation::OpenService => if facts.service {
            Operation::ValidateService
        } else {
            Operation::Fail(TransactionFault::ServiceMissing)
        },
        Operation::ValidateService => Operation::QuerySidType,
        Operation::QuerySidType => if facts.sid_type == SERVICE_SID_TYPE_UNRESTRICTED {
            Operation::QueryFailurePolicy
        } else {
            Operation::Fail(TransactionFault::InstalledSidType)
        },
        Operation::QueryFailurePolicy => if facts.policy {
            Operation::LookFor(Root::State)
        } else {
            Operation::Fail(TransactionFault::InstalledPolicy)
        },
        Operation::LookFor(_) => if facts.state {
            Operation::ValidateTree(Root::State)
        } else {
            Operation::QueryActive
        },
        Operation::ValidateTree(_) => Operation::ValidateMarker { service_access: true },
        Operation::ValidateMarker { .. } => Operation::QueryActive,
        Operation::QueryActive => Operation::CreateJournal(Root::UninstallJournal),
        Operation::CreateJournal(_) => Operation::WriteSnapshot,
        Operation::WriteSnapshot => Operation::Finish,
        _ => Operation::FailWithError,
    }
}

fn preflight_uninstall(op: Operation, facts: Facts) -> (r: Operation)
    ensures
        r == preflight_uninstall_next(op, facts),
{
    match op {
        Operation::Begin => Operation::EnsureAbsent(Absence::StaleUninstallJournal),
        Operation::EnsureAbsent(_) => Operation::LookFor(Root::Program),
        Operation::LookFor(Root::Program) => if facts.program {
            Operation::ValidateExecutable
        } else {
            Operation::Fail(TransactionFault::ProgramMissing)
        },
        Operation::ValidateExecutable => Operation::ValidateProgramTree,
        Operation::ValidateProgramTree => Operation::OpenService,
        Operation::OpenService => if facts.service {
            Operation::ValidateService
        } else {
            Operation::Fail(TransactionFault::ServiceMissing)
        },
        Operation::ValidateService => Operation::QuerySidType,
        Operation::QuerySidType => if facts.sid_type == SERVICE_SID_TYPE_UNRESTRICTED {
            Operation::QueryFailurePolicy
        } else {
            Operation::Fail(TransactionFault::InstalledSidType)
        },
        Operation::QueryFailurePolicy => if facts.policy {
            Operation::LookFor(Root::State)
        } else {
            Operation::Fail(TransactionFault::InstalledPolicy)
        },
        Operation::LookFor(_) => if facts.state {
            Operation::ValidateTree(Root::State)
        } else {
            Operation::QueryActive
        },
        Operation::ValidateTree(_) => Operation::ValidateMarker { service_access: true },
        Operation::ValidateMarker { .. } => Operation::QueryActive,
        Operation::QueryActive => Operation::CreateJournal(Root::UninstallJournal),
        Operation::CreateJournal(_) => Operation::WriteSnapshot,
        Operation::WriteSnapshot => Operation::Finish,
        _ => Operation::FailWithError,
    }
}

/// What follows a successful operation in the rollback of a removal's preflight, which leaves the
/// journal to a later rollback that owns it.
pub open spec fn rollback_uninstall_preflight_next(op: Operation, facts: Facts) -> Operation {
    match op {
        Operation::Begin => Operation::Exists(Root::UninstallJournal),
        Operation::Exists(_) => if facts.journal {
            Operation::ReadUninstallSnapshot
        } else {
            Operation::Finish
        },
        Operation::ReadUninstallSnapshot => if facts.uninstall.state_acl_saved {
            Operation::Finish
        } else {
            Operation::QueryPurgeStarted
        },
        Operation::QueryPurgeStarted => if facts.said {
            Operation::Finish
        } else {
            Operation::RemoveTree(Root::UninstallJournal)
        },
        Operation::RemoveTree(_) => Operation::Finish,
        _ => Operation::FailWithError,
    }
}

fn rollback_uninstall_preflight(op: Operation, facts: Facts) -> (r: Operation)
    ensures
        r == rollback_uninstall_preflight_next(op, facts),
{
    match op {
        Operation::Begin => Operation::Exists(Root::UninstallJournal),
        Operation::Exists(_) => if facts.journal {
            Operation::ReadUninstallSnapshot
        } else {
            Operation::Finish
        },
        Operation::ReadUninstallSnapshot => if facts.uninstall.state_acl_saved {
            Operation::Finish
        } else {
            Operation::QueryPurgeStarted
        },
        Operation::QueryPurgeStarted => if facts.said {
            Operation::Finish
        } else {
            Operation::RemoveTree(Root::UninstallJournal)
        },
        Operation::RemoveTree(_) => Operation::Finish,
        _ => Operation::FailWithError,
    }
}

/// What follows a successful operation in a removal that keeps the state: its ACL is saved before
/// the service loses its access.
pub open spec fn preserve_state_next(op: Operation, facts: Facts) -> Operation {
    match op {
        Operation::Begin => Operation::Exists(Root::State),
        Operation::Exists(_) => if facts.said {
            Operation::ReadUninstallSnapshot
        } else {
            Operation::Finish
        },
        Operation::ReadUninstallSnapshot => Operation::ValidateDirectory(Root::State),
        Operation::ValidateDirectory(_) => Operation::ValidateTree(Root::State),
        Operation::ValidateTree(_) => Operation::OpenService,
        Operation::OpenService => if facts.service {
            Operation::ValidateService
        } else {
            Operation::Fail(TransactionFault::ServiceGoneDuringUninstall)
        },
        Operation::ValidateService => Operation::ValidateMarker { service_access: true },
        Operation::ValidateMarker { service_access: true } => Operation::SaveAcl(Root::State),
        Operation::SaveAcl(_) => Operation::ReplaceSnapshot,
        Operation::ReplaceSnapshot => Operation::SecureStateForAdministrators,
        Operation::SecureStateForAdministrators => Operation::ValidateMarker {
            service_access: false,
        },
        Operation::ValidateMarker { service_access: false } => Operation::Finish,
        Operation::AclSaved(_) => if facts.said {
            Operation::RestoreAcl(Root::State)
        } else {
            Operation::DiscardJournal(Root::UninstallJournal)
        },
        Operation::RestoreAcl(_) => Operation::DiscardJournal(Root::UninstallJournal),
        Operation::DiscardJournal(_) => Operation::Fail(TransactionFault::PreservationFailed),
        _ => Operation::FailWithError,
    }
}

fn preserve_state(op: Operation, facts: Facts) -> (r: Operation)
    ensures
        r == preserve_state_next(op, facts),
{
    match op {
        Operation::Begin => Operation::Exists(Root::State),
        Operation::Exists(_) => if facts.said {
            Operation::ReadUninstallSnapshot
        } else {
            Operation::Finish
        },
        Operation::ReadUninstallSnapshot => Operation::ValidateDirectory(Root::State),
        Operation::ValidateDirectory(_) => Operation::ValidateTree(Root::State),
        Operation::ValidateTree(_) => Operation::OpenService,
        Operation::OpenService => if facts.service {
            Operation::ValidateService
        } else {
            Operation::Fail(TransactionFault::ServiceGoneDuringUninstall)
        },
        Operation::ValidateService => Operation::ValidateMarker { service_access: true },
        Operation::ValidateMarker { service_access: true } => Operation::SaveAcl(Root::State),
        Operation::SaveAcl(_) => Operation::ReplaceSnapshot,
        Operation::ReplaceSnapshot => Operation::SecureStateForAdministrators,
        Operation::SecureStateForAdministrators => Operation::ValidateMarker {
            service_access: false,
        },
        Operation::ValidateMarker { service_access: false } => Operation::Finish,
        Operation::AclSaved(_) => if facts.said {
            Operation::RestoreAcl(Root::State)
        } else {
            Operation::DiscardJournal(Root::UninstallJournal)
        },
        Operation::RestoreAcl(_) => Operation::DiscardJournal(Root::UninstallJournal),
        Operation::DiscardJournal(_) => Operation::Fail(TransactionFault::PreservationFailed),
        _ => Operation::FailWithError,
    }
}

/// What follows a successful operation in a removal's rollback: state and service come back before
/// the journal goes.
pub open spec fn rollback_uninstall_next(op: Operation, facts: Facts) -> Operation {
    match op {
        Operation::Begin => Operation::Exists(Root::UninstallJournal),
        Operation::Exists(Root::UninstallJournal) => if facts.journal {
            Operation::ReadUninstallSnapshot
        } else {
            Operation::Finish
        },
        Operation::ReadUninstallSnapshot => if facts.uninstall.state_acl_saved {
            Operation::Exists(Root::State)
        } else {
            Operation::RestoreService
        },
        Operation::Exists(_) => if facts.said {
            Operation::ValidateTree(Root::State)
        } else {
            Operation::RestoreService
        },
        Operation::ValidateTree(_) => Operation::RestoreAcl(Root::State),
        Operation::RestoreAcl(_) => Operation::RestoreService,
        Operation::RestoreService => Operation::RemoveTree(Root::UninstallJournal),
        Operation::RemoveTree(_) => Operation::Finish,
        _ => Operation::FailWithError,
    }
}

fn rollback_uninstall(op: Operation, facts: Facts) -> (r: Operation)
    ensures
        r == rollback_uninstall_next(op, facts),
{
    match op {
        Operation::Begin => Operation::Exists(Root::UninstallJournal),
        Operation::Exists(Root::UninstallJournal) => if facts.journal {
            Operation::ReadUninstallSnapshot
        } else {
            Operation::Finish
        },
        Operation::ReadUninstallSnapshot => if facts.uninstall.state_acl_saved {
            Operation::Exists(Root::State)
        } else {
            Operation::RestoreService
        },
        Operation::Exists(_) => if facts.said {
            Operation::ValidateTree(Root::State)
        } else {
            Operation::RestoreService
        },
        Operation::ValidateTree(_) => Operation::RestoreAcl(Root::State),
        Operation::RestoreAcl(_) => Operation::RestoreService,
        Operation::RestoreService => Operation::RemoveTree(Root::UninstallJournal),
        Operation::RemoveTree(_) => Operation::Finish,
        _ => Operation::FailWithError,
    }
}

/// What follows a successful operation in a removal's commit: its journal goes.
pub open spec fn commit_uninstall_next(op: Operation, facts: Facts) -> Operation {
    match op {
        Operation::Begin => Operation::Exists(Root::UninstallJournal),
        Operation::Exists(_) => if facts.journal {
            Operation::ReadUninstallSnapshot
        } else {
            Operation::Finish
        },
        Operation::ReadUninstallSnapshot => Operation::RemoveTree(Root::UninstallJournal),
        Operation::RemoveTree(_) => Operation::Finish,
        _ => Operation::FailWithError,
    }
}

fn commit_uninstall(op: Operation, facts: Facts) -> (r: Operation)
    ensures
        r == commit_uninstall_next(op, facts),
{
    match op {
        Operation::Begin => Operation::Exists(Root::UninstallJournal),
        Operation::Exists(_) => if facts.journal {
            Operation::ReadUninstallSnapshot
        } else {
            Operation::Finish
        },
        Operation::ReadUninstallSnapshot => Operation::RemoveTree(Root::UninstallJournal),
        Operation::RemoveTree(_) => Operation::Finish,
        _ => Operation::FailWithError,
    }
}

/// What follows a successful operation in a purge's preparation: the state is moved away, not
/// deleted.
pub open spec fn prepare_purge_next(op: Operation, facts: Facts) -> Operation {
    match op {
        Operation::Begin => Operation::ReadUninstallSnapshot,
        Operation::ReadUninstallSnapshot => Operation::EnsureAbsent(
            Absence::PendingPurgeQuarantine,
        ),
        Operation::EnsureAbsent(_) => Operation::Exists(Root::State),
        Operation::Exists(_) => if facts.said {
            Operation::ValidateDirectory(Root::State)
        } else {
            Operation::Finish
        },
        Operation::ValidateDirectory(Root::State) => Operation::ValidateTree(Root::State),
        Operation::ValidateTree(_) => Operation::OpenService,
        Operation::OpenService => if facts.service {
            Operation::ValidateService
        } else {
            Operation::Fail(TransactionFault::ServiceGoneDuringPurge)
        },
        Operation::ValidateService => Operation::ValidateMarker { service_access: true },
        Operation::ValidateMarker { .. } => Operation::WritePurgeStarted,
        Operation::WritePurgeStarted => Operation::Quarantine,
        Operation::Quarantine => Operation::ValidateDirectory(Root::Quarantine),
        Operation::ValidateDirectory(_) => Operation::Finish,
        _ => Operation::FailWithError,
    }
}

fn prepare_purge(op: Operation, facts: Facts) -> (r: Operation)
    ensures
        r == prepare_purge_next(op, facts),
{
    match op {
        Operation::Begin => Operation::ReadUninstallSnapshot,
        Operation::ReadUninstallSnapshot => Operation::EnsureAbsent(
            Absence::PendingPurgeQuarantine,
        ),
        Operation::EnsureAbsent(_) => Operation::Exists(Root::State),
        Operation::Exists(_) => if facts.said {
            Operation::ValidateDirectory(Root::State)
        } else {
            Operation::Finish
        },
        Operation::ValidateDirectory(Root::State) => Operation::ValidateTree(Root::State),
        Operation::ValidateTree(_) => Operation::OpenService,
        Operation::OpenService => if facts.service {
            Operation::ValidateService
        } else {
            Operation::Fail(TransactionFault::ServiceGoneDuringPurge)
        },
        Operation::ValidateService => Operation::ValidateMarker { service_access: true },
        Operation::ValidateMarker { .. } => Operation::WritePurgeStarted,
        Operation::WritePurgeStarted => Operation::Quarantine,
        Operation::Quarantine => Operation::ValidateDirectory(Root::Quarantine),
        Operation::ValidateDirectory(_) => Operation::Finish,
        _ => Operation::FailWithError,
    }
}

/// What follows a successful operation in a purge's rollback: the state is moved back, and the
/// service restored, before the journal goes.
pub open spec fn rollback_purge_next(op: Operation, facts: Facts) -> Operation {
    match op {
        Operation::Begin => Operation::Exists(Root::UninstallJournal),
        Operation::Exists(Root::UninstallJournal) => if facts.journal {
            Operation::ReadUninstallSnapshot
        } else {
            Operation::Finish
        },
        Operation::ReadUninstallSnapshot => Operation::Exists(Root::Quarantine),
        Operation::Exists(_) => if facts.said {
            Operation::ValidateDirectory(Root::Quarantine)
        } else {
            Operation::RestoreService
        },
        Operation::ValidateDirectory(_) => Operation::ValidateTree(Root::Quarantine),
        Operation::ValidateTree(_) => Operation::EnsureAbsent(Absence::ReplacementState),
        Operation::EnsureAbsent(_) => Operation::Unquarantine,
        Operation::Unquarantine => Operation::RestoreService,
        Operation::RestoreService => Operation::RemoveTree(Root::UninstallJournal),
        Operation::RemoveTree(_) => Operation::Finish,
        _ => Operation::FailWithError,
    }
}

fn rollback_purge(op: Operation, facts: Facts) -> (r: Operation)
    ensures
        r == rollback_purge_next(op, facts),
{
    match op {
        Operation::Begin => Operation::Exists(Root::UninstallJournal),
        Operation::Exists(Root::UninstallJournal) => if facts.journal {
            Operation::ReadUninstallSnapshot
        } else {
            Operation::Finish
        },
        Operation::ReadUninstallSnapshot => Operation::Exists(Root::Quarantine),
        Operation::Exists(_) => if facts.said {
            Operation::ValidateDirectory(Root::Quarantine)
        } else {
            Operation::RestoreService
        },
        Operation::ValidateDirectory(_) => Operation::ValidateTree(Root::Quarantine),
        Operation::ValidateTree(_) => Operation::EnsureAbsent(Absence::ReplacementState),
        Operation::EnsureAbsent(_) => Operation::Unquarantine,
        Operation::Unquarantine => Operation::RestoreService,
        Operation::RestoreService => Operation::RemoveTree(Root::UninstallJournal),
        Operation::RemoveTree(_) => Operation::Finish,
        _ => Operation::FailWithError,
    }
}

/// What follows a successful operation in a purge's commit: the quarantine goes, and the journal
/// with it whatever came of that.
pub open spec fn commit_purge_next(op: Operation, facts: Facts) -> Operation {
    match op {
        Operation::Begin => Operation::Exists(Root::UninstallJournal),
        Operation::Exists(Root::UninstallJournal) => if facts.journal {
            Operation::ReadUninstallSnapshot
        } else {
            Operation::Exists(Root::Quarantine)
        },
        Operation::ReadUninstallSnapshot => Operation::Exists(Root::Quarantine),
        Operation::Exists(_) => if facts.said {
            Operation::ValidateDirectory(Root::Quarantine)
        } else {
            deleted_next(facts)
        },
        Operation::ValidateDirectory(_) => Operation::ValidateTree(Root::Quarantine),
        Operation::ValidateTree(_) => Operation::RemoveTree(Root::Quarantine),
        Operation::RemoveTree(Root::Quarantine) => deleted_next(facts),
        Operation::RemoveTree(_) => if facts.part_failed {
            Operation::Fail(TransactionFault::QuarantineRemains)
        } else {
            Operation::Finish
        },
        _ => Operation::FailWithError,
    }
}

fn commit_purge(op: Operation, facts: Facts) -> (r: Operation)
    ensures
        r == commit_purge_next(op, facts),
{
    match op {
        Operation::Begin => Operation::Exists(Root::UninstallJournal),
        Operation::Exists(Root::UninstallJournal) => if facts.journal {
            Operation::ReadUninstallSnapshot
        } else {
            Operation::Exists(Root::Quarantine)
        },
        Operation::ReadUninstallSnapshot => Operation::Exists(Root::Quarantine),
        Operation::Exists(_) => if facts.said {
            Operation::ValidateDirectory(Root::Quarantine)
        } else {
            deleted(facts)
        },
        Operation::ValidateDirectory(_) => Operation::ValidateTree(Root::Quarantine),
        Operation::ValidateTree(_) => Operation::RemoveTree(Root::Quarantine),
        Operation::RemoveTree(Root::Quarantine) => deleted(facts),
        Operation::RemoveTree(_) => if facts.part_failed {
            Operation::Fail(TransactionFault::QuarantineRemains)
        } else {
            Operation::Finish
        },
        _ => Operation::FailWithError,
    }
}

/// What follows a successful operation in the removal of a state root that an installation made and
/// did not finish: only one of the two exact access modes, or an empty directory, is removed.
pub open spec fn remove_fresh_state_next(op: Operation, facts: Facts) -> Operation {
    match op {
        Operation::Begin => Operation::ValidateDirectory(Root::State),
        Operation::ValidateDirectory(_) => Operation::ValidateTree(Root::State),
        Operation::ValidateTree(_) => Operation::LookForMarker,
        Operation::LookForMarker => if facts.said {
            Operation::ValidateMarkerFile
        } else {
            Operation::ValidateStateAccess { service_access: false }
        },
        Operation::ValidateMarkerFile => Operation::ValidateMarkerAccess,
        Operation::ValidateMarkerAccess => Operation::ValidateStateAccess {
            service_access: false,
        },
        Operation::ValidateStateAccess { .. } => Operation::RemoveTree(Root::State),
        Operation::StateHoldsAnything => if facts.said {
            Operation::Fail(TransactionFault::UnprotectedState)
        } else {
            Operation::RemoveEmptyState
        },
        Operation::RemoveTree(_) => Operation::Finish,
        Operation::RemoveEmptyState => Operation::Finish,
        _ => Operation::FailWithError,
    }
}

fn remove_fresh_state(op: Operation, facts: Facts) -> (r: Operation)
    ensures
        r == remove_fresh_state_next(op, facts),
{
    match op {
        Operation::Begin => Operation::ValidateDirectory(Root::State),
        Operation::ValidateDirectory(_) => Operation::ValidateTree(Root::State),
        Operation::ValidateTree(_) => Operation::LookForMarker,
        Operation::LookForMarker => if facts.said {
            Operation::ValidateMarkerFile
        } else {
            Operation::ValidateStateAccess { service_access: false }
        },
        Operation::ValidateMarkerFile => Operation::ValidateMarkerAccess,
        Operation::ValidateMarkerAccess => Operation::ValidateStateAccess {
            service_access: false,
        },
        Operation::ValidateStateAccess { .. } => Operation::RemoveTree(Root::State),
        Operation::StateHoldsAnything => if facts.said {
            Operation::Fail(TransactionFault::UnprotectedState)
        } else {
            Operation::RemoveEmptyState
        },
        Operation::RemoveTree(_) => Operation::Finish,
        Operation::RemoveEmptyState => Operation::Finish,
        _ => Operation::FailWithError,
    }
}

/// What follows a successful operation in the restoration of the service: its settings are written
/// and read back before it is started or stopped.
pub open spec fn restore_service_next(op: Operation, facts: Facts, wanted: Restoration) -> Operation {
    match op {
        Operation::Begin => Operation::OpenService,
        Operation::OpenService => if facts.service {
            Operation::ValidateService
        } else {
            Operation::Fail(TransactionFault::RollbackServiceMissing)
        },
        Operation::ValidateService => if wanted.secure_program {
            Operation::SecureProgram
        } else {
            Operation::ValidateProgramTree
        },
        Operation::SecureProgram => Operation::ValidateProgramTree,
        Operation::ValidateProgramTree => Operation::SetSidType(wanted.sid_type),
        Operation::SetSidType(_) => Operation::QuerySidType,
        Operation::QuerySidType => if facts.sid_type == wanted.sid_type {
            Operation::SetFailurePolicy(wanted.policy)
        } else {
            Operation::Fail(TransactionFault::RestoredSidType)
        },
        Operation::SetFailurePolicy(_) => Operation::QueryFailurePolicy,
        Operation::QueryFailurePolicy => if facts.policy == wanted.policy {
            Operation::AwaitStable
        } else {
            Operation::Fail(TransactionFault::RestoredPolicy)
        },
        Operation::AwaitStable => if wanted.running && !facts.running {
            Operation::StartService
        } else if !wanted.running && facts.running {
            Operation::StopService
        } else {
            Operation::AwaitRunning(wanted.running)
        },
        Operation::StartService => Operation::AwaitRunning(wanted.running),
        Operation::StopService => Operation::AwaitRunning(wanted.running),
        Operation::AwaitRunning(_) => Operation::Finish,
        _ => Operation::FailWithError,
    }
}

fn restore_service(op: Operation, facts: Facts, wanted: Restoration) -> (r: Operation)
    ensures
        r == restore_service_next(op, facts, wanted),
{
    match op {
        Operation::Begin => Operation::OpenService,
        Operation::OpenService => if facts.service {
            Operation::ValidateService
        } else {
            Operation::Fail(TransactionFault::RollbackServiceMissing)
        },
        Operation::ValidateService => if wanted.secure_program {
            Operation::SecureProgram
        } else {
            Operation::ValidateProgramTree
        },
        Operation::SecureProgram => Operation::ValidateProgramTree,
        Operation::ValidateProgramTree => Operation::SetSidType(wanted.sid_type),
        Operation::SetSidType(_) => Operation::QuerySidType,
        Operation::QuerySidType => if facts.sid_type == wanted.sid_type {
            Operation::SetFailurePolicy(wanted.policy)
        } else {
            Operation::Fail(TransactionFault::RestoredSidType)
        },
        Operation::SetFailurePolicy(_) => Operation::QueryFailurePolicy,
        Operation::QueryFailurePolicy => if facts.policy == wanted.policy {
            Operation::AwaitStable
        } else {
            Operation::Fail(TransactionFault::RestoredPolicy)
        },
        Operation::AwaitStable => if wanted.running && !facts.running {
            Operation::StartService
        } else if !wanted.running && facts.running {
            Operation::StopService
        } else {
            Operation::AwaitRunning(wanted.running)
        },
        Operation::StartService => Operation::AwaitRunning(wanted.running),
        Operation::StopService => Operation::AwaitRunning(wanted.running),
        Operation::AwaitRunning(_) => Operation::Finish,
        _ => Operation::FailWithError,
    }
}

/// What follows a successful operation.
pub open spec fn follow_next(kind: Kind, op: Operation, facts: Facts) -> Operation {
    match kind {
        Kind::Command(MaintenanceCommand::PrepareInstall) => prepare_install_next(op, facts),
        Kind::Command(MaintenanceCommand::ApplyInstall) => apply_install_next(op, facts),
        Kind::Command(MaintenanceCommand::RollbackInstall) => rollback_install_next(op, facts),
        Kind::Command(MaintenanceCommand::CommitInstall) => commit_install_next(op, facts),
        Kind::Command(MaintenanceCommand::PreflightUninstall) => preflight_uninstall_next(op, facts),
        Kind::Command(MaintenanceCommand::RollbackUninstallPreflight) => rollback_uninstall_preflight_next(op, facts),
        Kind::Command(MaintenanceCommand::PreserveState) => preserve_state_next(op, facts),
        Kind::Command(MaintenanceCommand::RollbackUninstall) => rollback_uninstall_next(op, facts),
        Kind::Command(MaintenanceCommand::CommitUninstall) => commit_uninstall_next(op, facts),
        Kind::Command(MaintenanceCommand::PreparePurge) => prepare_purge_next(op, facts),
        Kind::Command(MaintenanceCommand::RollbackPurge) => rollback_purge_next(op, facts),
        Kind::Command(MaintenanceCommand::CommitPurge) => commit_purge_next(op, facts),
        Kind::RemoveFreshState => remove_fresh_state_next(op, facts),
        Kind::RestoreService(wanted) => restore_service_next(op, facts, wanted),
    }
}

fn follow(kind: Kind, op: Operation, facts: Facts) -> (r: Operation)
    ensures
        r == follow_next(kind, op, facts),
{
    match kind {
        Kind::Command(MaintenanceCommand::PrepareInstall) => prepare_install(op, facts),
        Kind::Command(MaintenanceCommand::ApplyInstall) => apply_install(op, facts),
        Kind::Command(MaintenanceCommand::RollbackInstall) => rollback_install(op, facts),
        Kind::Command(MaintenanceCommand::CommitInstall) => commit_install(op, facts),
        Kind::Command(MaintenanceCommand::PreflightUninstall) => preflight_uninstall(op, facts),
        Kind::Command(MaintenanceCommand::RollbackUninstallPreflight) => rollback_uninstall_preflight(op, facts),
        Kind::Command(MaintenanceCommand::PreserveState) => preserve_state(op, facts),
        Kind::Command(MaintenanceCommand::RollbackUninstall) => rollback_uninstall(op, facts),
        Kind::Command(MaintenanceCommand::CommitUninstall) => commit_uninstall(op, facts),
        Kind::Command(MaintenanceCommand::PreparePurge) => prepare_purge(op, facts),
        Kind::Command(MaintenanceCommand::RollbackPurge) => rollback_purge(op, facts),
        Kind::Command(MaintenanceCommand::CommitPurge) => commit_purge(op, facts),
        Kind::RemoveFreshState => remove_fresh_state(op, facts),
        Kind::RestoreService(wanted) => restore_service(op, facts, wanted),
    }
}

/// The transaction goes on where this operation fails, and remembers the failure.
pub open spec fn is_tolerated(kind: Kind, op: Operation) -> bool {
    match kind {
        Kind::Command(MaintenanceCommand::RollbackInstall) => match op {
            Operation::RestoreAcl(_) | Operation::RestoreService | Operation::RemoveFreshState =>
                true,
            _ => false,
        },
        Kind::Command(MaintenanceCommand::CommitPurge) => match op {
            Operation::ValidateDirectory(_)
            | Operation::ValidateTree(_)
            | Operation::RemoveTree(Root::Quarantine) => true,
            _ => false,
        },
        _ => false,
    }
}

fn tolerated(kind: Kind, op: Operation) -> (r: bool)
    ensures
        r == is_tolerated(kind, op),
{
    match kind {
        Kind::Command(MaintenanceCommand::RollbackInstall) => match op {
            Operation::RestoreAcl(_) | Operation::RestoreService | Operation::RemoveFreshState =>
                true,
            _ => false,
        },
        Kind::Command(MaintenanceCommand::CommitPurge) => match op {
            Operation::ValidateDirectory(_)
            | Operation::ValidateTree(_)
            | Operation::RemoveTree(Root::Quarantine) => true,
            _ => false,
        },
        _ => false,
    }
}

/// What follows a failure that is tolerated.
pub open spec fn resume_next(kind: Kind, op: Operation, facts: Facts) -> Operation {
    match kind {
        Kind::Command(MaintenanceCommand::CommitPurge) => deleted_next(facts),
        _ => follow_next(kind, op, facts),
    }
}

fn resume(kind: Kind, op: Operation, facts: Facts) -> (r: Operation)
    ensures
        r == resume_next(kind, op, facts),
{
    match kind {
        Kind::Command(MaintenanceCommand::CommitPurge) => deleted(facts),
        _ => follow(kind, op, facts),
    }
}

/// What follows a failure that is not: in most places the end.
pub open spec fn failure_next(kind: Kind, op: Operation, facts: Facts) -> Operation {
    match kind {
        Kind::Command(MaintenanceCommand::PrepareInstall) => match op {
            Operation::WriteSnapshot | Operation::VerifySnapshot => Operation::DiscardJournal(
                Root::Journal,
            ),
            _ => Operation::FailWithError,
        },
        Kind::Command(MaintenanceCommand::PreflightUninstall) => match op {
            Operation::WriteSnapshot => Operation::DiscardJournal(Root::UninstallJournal),
            _ => Operation::FailWithError,
        },
        Kind::Command(MaintenanceCommand::PreserveState) => match op {
            Operation::SaveAcl(_)
            | Operation::ReplaceSnapshot
            | Operation::SecureStateForAdministrators
            | Operation::ValidateMarker { service_access: false } => Operation::AclSaved(
                Root::State,
            ),
            Operation::RestoreAcl(_) => Operation::Fail(TransactionFault::PreservationNotUndone),
            Operation::DiscardJournal(_) => Operation::Fail(TransactionFault::PreservationFailed),
            _ => Operation::FailWithError,
        },
        Kind::Command(MaintenanceCommand::CommitPurge) => match op {
            Operation::RemoveTree(Root::UninstallJournal) => if facts.part_failed {
                Operation::Fail(TransactionFault::QuarantineRemains)
            } else {
                Operation::FailWithError
            },
            _ => Operation::FailWithError,
        },
        Kind::RemoveFreshState => match op {
            Operation::ValidateStateAccess { service_access: false } => if facts.said {
                Operation::ValidateStateAccess { service_access: true }
            } else {
                Operation::StateHoldsAnything
            },
            Operation::ValidateStateAccess { service_access: true } => Operation::Fail(
                TransactionFault::NeitherAccessMode,
            ),
            _ => Operation::FailWithError,
        },
        _ => Operation::FailWithError,
    }
}

fn on_failure(kind: Kind, op: Operation, facts: Facts) -> (r: Operation)
    ensures
        r == failure_next(kind, op, facts),
{
    match kind {
        Kind::Command(MaintenanceCommand::PrepareInstall) => match op {
            Operation::WriteSnapshot | Operation::VerifySnapshot => Operation::DiscardJournal(
                Root::Journal,
            ),
            _ => Operation::FailWithError,
        },
        Kind::Command(MaintenanceCommand::PreflightUninstall) => match op {
            Operation::WriteSnapshot => Operation::DiscardJournal(Root::UninstallJournal),
            _ => Operation::FailWithError,
        },
        Kind::Command(MaintenanceCommand::PreserveState) => match op {
            Operation::SaveAcl(_)
            | Operation::ReplaceSnapshot
            | Operation::SecureStateForAdministrators
            | Operation::ValidateMarker { service_access: false } => Operation::AclSaved(
                Root::State,
            ),
            Operation::RestoreAcl(_) => Operation::Fail(TransactionFault::PreservationNotUndone),
            Operation::DiscardJournal(_) => Operation::Fail(TransactionFault::PreservationFailed),
            _ => Operation::FailWithError,
        },
        Kind::Command(MaintenanceCommand::CommitPurge) => match op {
            Operation::RemoveTree(Root::UninstallJournal) => if facts.part_failed {
                Operation::Fail(TransactionFault::QuarantineRemains)
            } else {
                Operation::FailWithError
            },
            _ => Operation::FailWithError,
        },
        Kind::RemoveFreshState => match op {
            Operation::ValidateStateAccess { service_access: false } => if facts.said {
                Operation::ValidateStateAccess { service_access: true }
            } else {
                Operation::StateHoldsAnything
            },
            Operation::ValidateStateAccess { service_access: true } => Operation::Fail(
                TransactionFault::NeitherAccessMode,
            ),
            _ => Operation::FailWithError,
        },
        _ => Operation::FailWithError,
    }
}

/// A transaction under way.
#[derive(Clone, Copy, PartialEq, Eq, Structural, Debug)]
pub struct Transaction {
    pub kind: Kind,
    pub facts: Facts,
    /// The operation under way.
    pub at: Operation,
}

impl Transaction {
    /// The transaction after an answer.
    pub open spec fn next(self, answer: Answer) -> Transaction {
        let facts = self.facts.learning(self.at, answer);
        if answer != Answer::Failed {
            Transaction { facts, at: follow_next(self.kind, self.at, facts), ..self }
        } else if is_tolerated(self.kind, self.at) {
            let facts = Facts { part_failed: true, ..facts };
            Transaction { facts, at: resume_next(self.kind, self.at, facts), ..self }
        } else {
            Transaction { facts, at: failure_next(self.kind, self.at, facts), ..self }
        }
    }

    /// A transaction that has not begun.
    pub fn begin(kind: Kind) -> (r: Transaction)
        ensures
            r == (Transaction { kind, facts: Facts::nothing(), at: Operation::Begin }),
    {
        Transaction { kind, facts: Facts::none(), at: Operation::Begin }
    }

    /// Take the answer of the operation under way and say what to do next.
    pub fn step(&mut self, answer: Answer) -> (r: Operation)
        requires
            fits(old(self).at, answer),
        ensures
            *final(self) == old(self).next(answer),
            r == final(self).at,
    {
        self.facts.learn(self.at, answer);
        let op = if answer != Answer::Failed {
            follow(self.kind, self.at, self.facts)
        } else if tolerated(self.kind, self.at) {
            self.facts.part_failed = true;
            resume(self.kind, self.at, self.facts)
        } else {
            on_failure(self.kind, self.at, self.facts)
        };
        self.at = op;
        op
    }

    /// What the service is restored to in this transaction.
    pub open spec fn restored(self) -> Restoration {
        if self.kind == Kind::Command(MaintenanceCommand::RollbackInstall) {
            Restoration {
                sid_type: match self.facts.install.original_service_sid_type {
                    Some(sid_type) => sid_type,
                    None => SERVICE_SID_TYPE_UNRESTRICTED,
                },
                policy: self.facts.install.original_failure_actions_on_non_crash != Some(false),
                running: self.facts.install.original_service_running,
                secure_program: false,
            }
        } else {
            Restoration {
                sid_type: SERVICE_SID_TYPE_UNRESTRICTED,
                policy: true,
                running: self.facts.uninstall.service_was_running,
                secure_program: true,
            }
        }
    }

    /// What the service is restored to in this transaction.
    pub fn restoration(&self) -> (r: Restoration)
        ensures
            r == self.restored(),
    {
        match self.kind {
            Kind::Command(MaintenanceCommand::RollbackInstall) => Restoration {
                sid_type: match self.facts.install.original_service_sid_type {
                    Some(sid_type) => sid_type,
                    None => SERVICE_SID_TYPE_UNRESTRICTED,
                },
                policy: match self.facts.install.original_failure_actions_on_non_crash {
                    Some(policy) => policy,
                    None => true,
                },
                running: self.facts.install.original_service_running,
                secure_program: false,
            },
            _ => Restoration {
                sid_type: SERVICE_SID_TYPE_UNRESTRICTED,
                policy: true,
                running: self.facts.uninstall.service_was_running,
                secure_program: true,
            },
        }
    }
}

/// What a preparation has established when it reaches an operation.
pub open spec fn established(op: Operation, facts: Facts) -> bool {
    let coherent = {
        &&& facts.program ==> facts.service
        &&& facts.service ==> facts.state && facts.sid_type == SERVICE_SID_TYPE_UNRESTRICTED
    };
    match op {
        Operation::ValidateService | Operation::ValidateProgramTree => facts.service,
        Operation::ValidateMarker { service_access: true } => facts.service && facts.state,
        Operation::QuerySidType => facts.service && facts.state,
        Operation::QueryActive | Operation::QueryFailurePolicy => coherent,
        Operation::ValidateMarker { service_access: false } => coherent,
        Operation::CreateJournal(_)
        | Operation::WriteSnapshot
        | Operation::VerifySnapshot
        | Operation::SaveAcl(_)
        | Operation::VerifyJournal
        | Operation::Finish => coherent,
        _ => true,
    }
}

/// An installation is prepared only where what is there belongs together: a program has its
/// service, and a service has its state and an unrestricted SID. This holds of every step, and so
/// nothing is written before it is known.
pub proof fn only_a_coherent_installation_is_prepared(transaction: Transaction, answer: Answer)
    requires
        transaction.kind == Kind::Command(MaintenanceCommand::PrepareInstall),
        fits(transaction.at, answer),
        established(transaction.at, transaction.facts),
    ensures
        established(transaction.next(answer).at, transaction.next(answer).facts),
        ({
            let facts = transaction.next(answer).facts;
            transaction.next(answer).at == Operation::CreateJournal(Root::Journal) ==> {
                &&& facts.program ==> facts.service
                &&& facts.service ==> facts.state && facts.sid_type
                    == SERVICE_SID_TYPE_UNRESTRICTED
            }
        }),
{
}

/// The operation only looks.
pub open spec fn only_looks(op: Operation) -> bool {
    match op {
        Operation::Begin
        | Operation::EnsureAbsent(_)
        | Operation::LookFor(_)
        | Operation::Exists(_)
        | Operation::ValidateDirectory(_)
        | Operation::ValidateTree(_)
        | Operation::ValidateExecutable
        | Operation::ValidateProgramTree
        | Operation::OpenService
        | Operation::ValidateService
        | Operation::ValidateMarker { .. }
        | Operation::QuerySidType
        | Operation::QueryActive
        | Operation::QueryFailurePolicy
        | Operation::ReadUninstallSnapshot => true,
        _ => false,
    }
}

/// The preparations of an installation and of a removal end in a failure of a check without having
/// changed anything: once an operation is more than a look, no look follows, so that every look
/// has been preceded by looks alone.
pub proof fn a_refused_preparation_changes_nothing(transaction: Transaction, answer: Answer)
    requires
        fits(transaction.at, answer),
        transaction.kind == Kind::Command(MaintenanceCommand::PrepareInstall) || transaction.kind
            == Kind::Command(MaintenanceCommand::PreflightUninstall),
        !only_looks(transaction.at),
    ensures
        !only_looks(transaction.next(answer).at),
{
}

/// A rollback of an installation gives up its journal only when no part of it has failed.
pub proof fn an_incomplete_rollback_keeps_its_journal(transaction: Transaction, answer: Answer)
    requires
        fits(transaction.at, answer),
        transaction.kind == Kind::Command(MaintenanceCommand::RollbackInstall),
        transaction.at != Operation::RemoveTree(Root::Journal),
    ensures
        transaction.next(answer).at == Operation::RemoveTree(Root::Journal)
            ==> !transaction.next(answer).facts.part_failed,
        transaction.facts.part_failed ==> transaction.next(answer).facts.part_failed,
        answer == Answer::Failed && (transaction.at is RestoreAcl || transaction.at
            == Operation::RestoreService || transaction.at == Operation::RemoveFreshState)
            ==> transaction.next(answer).facts.part_failed && transaction.next(answer).at
            != Operation::FailWithError,
{
}

/// A rollback or a commit without its journal is over at once: it has nothing to undo or to keep.
pub proof fn without_a_journal_there_is_nothing_to_do(command: MaintenanceCommand, facts: Facts)
    requires
        command == MaintenanceCommand::RollbackInstall || command
            == MaintenanceCommand::CommitInstall || command
            == MaintenanceCommand::RollbackUninstallPreflight || command
            == MaintenanceCommand::RollbackUninstall || command
            == MaintenanceCommand::CommitUninstall || command
            == MaintenanceCommand::RollbackPurge,
    ensures
        ({
            let begun = Transaction { kind: Kind::Command(command), facts, at: Operation::Begin };
            let looking = begun.next(Answer::Done);
            &&& looking.at is Exists
            &&& looking.next(Answer::Said(false)).at == Operation::Finish
        }),
{
}

/// The rollback of a removal's preflight does not touch a journal that a later step has taken
/// over, by saving an ACL or by starting a purge.
pub proof fn a_taken_journal_stays(transaction: Transaction, answer: Answer)
    requires
        fits(transaction.at, answer),
        transaction.kind == Kind::Command(MaintenanceCommand::RollbackUninstallPreflight),
        transaction.at == Operation::QueryPurgeStarted
            ==> !transaction.facts.uninstall.state_acl_saved,
    ensures
        transaction.next(answer).at == Operation::RemoveTree(Root::UninstallJournal)
            ==> answer == Answer::Said(false) && transaction.at == Operation::QueryPurgeStarted
            && !transaction.facts.uninstall.state_acl_saved,
        transaction.next(answer).at == Operation::QueryPurgeStarted
            ==> !transaction.next(answer).facts.uninstall.state_acl_saved,
{
}

/// Where the state cannot be preserved its journal is given up only after the saved ACL was
/// restored, or where none was saved.
pub proof fn a_failed_preservation_is_undone_first(transaction: Transaction, answer: Answer)
    requires
        fits(transaction.at, answer),
        transaction.kind == Kind::Command(MaintenanceCommand::PreserveState),
        transaction.next(answer).at == Operation::DiscardJournal(Root::UninstallJournal),
    ensures
        (transaction.at is RestoreAcl && answer == Answer::Done) || (transaction.at is AclSaved
            && answer == Answer::Said(false)),
{
}

/// A service is started or stopped only where it is not yet as it was, and only after its
/// settings were read back as they were written.
pub proof fn a_service_is_moved_only_where_needed(wanted: Restoration, facts: Facts)
    ensures
        restore_service_next(Operation::AwaitStable, facts, wanted) == Operation::StartService
            <==> wanted.running && !facts.running,
        restore_service_next(Operation::AwaitStable, facts, wanted) == Operation::StopService
            <==> !wanted.running && facts.running,
        restore_service_next(Operation::QueryFailurePolicy, facts, wanted)
            == Operation::AwaitStable ==> facts.policy == wanted.policy,
        restore_service_next(Operation::QuerySidType, facts, wanted)
            == Operation::SetFailurePolicy(wanted.policy) ==> facts.sid_type == wanted.sid_type,
{
}

/// Every transaction that is over stays over: no answer fits its end.
pub proof fn an_end_is_final(op: Operation, answer: Answer)
    requires
        is_end(op),
    ensures
        !fits(op, answer),
{
}

} // verus!
