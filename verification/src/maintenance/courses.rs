//! The course of each maintenance transaction, from its first operation to its end.

use crate::maintenance::steps::{Kind, Restoration, Transaction};
use crate::maintenance::transaction::{
    fits, is_end, Absence, Answer, Facts, InstallSnapshot, MaintenanceCommand, Operation, Root,
    TransactionFault, UninstallSnapshot, SERVICE_SID_TYPE_UNRESTRICTED,
};
use vstd::prelude::*;

verus! {

/// A machine on which every operation succeeds, by what it answers to each question.
pub struct Machine {
    pub program: bool,
    pub state: bool,
    pub service: bool,
    pub running: bool,
    pub sid_type: u32,
    pub policy: bool,
    pub install: InstallSnapshot,
    pub uninstall: UninstallSnapshot,
    pub journal: bool,
    pub uninstall_journal: bool,
    pub quarantine: bool,
    pub state_acl: bool,
    pub program_acl: bool,
    pub purge_started: bool,
    pub marker: bool,
    pub holds_anything: bool,
}

impl Machine {
    /// Whether something is at a root.
    pub open spec fn has(self, root: Root) -> bool {
        match root {
            Root::Program => self.program,
            Root::State => self.state,
            Root::Journal => self.journal,
            Root::UninstallJournal => self.uninstall_journal,
            Root::Quarantine => self.quarantine,
        }
    }

    /// The answer to an operation.
    pub open spec fn answer(self, op: Operation) -> Answer {
        match op {
            Operation::LookFor(root) => Answer::Said(self.has(root)),
            Operation::Exists(root) => Answer::Said(self.has(root)),
            Operation::FreshStateLeft => Answer::Said(self.state),
            Operation::OpenService => Answer::Said(self.service),
            Operation::QueryActive => Answer::Said(self.running),
            Operation::AwaitStable => Answer::Said(self.running),
            Operation::QueryFailurePolicy => Answer::Said(self.policy),
            Operation::QueryPurgeStarted => Answer::Said(self.purge_started),
            Operation::AclSaved(Root::State) => Answer::Said(self.state_acl),
            Operation::AclSaved(_) => Answer::Said(self.program_acl),
            Operation::LookForMarker => Answer::Said(self.marker),
            Operation::StateHoldsAnything => Answer::Said(self.holds_anything),
            Operation::QuerySidType => Answer::SidType(self.sid_type),
            Operation::ReadInstallSnapshot => Answer::Install(self.install),
            Operation::ReadUninstallSnapshot => Answer::Uninstall(self.uninstall),
            _ => Answer::Done,
        }
    }
}

/// A transaction that has not begun.
pub open spec fn begun(kind: Kind) -> Transaction {
    Transaction { kind, facts: Facts::nothing(), at: Operation::Begin }
}

/// On this machine the transaction goes through those operations of the course, from the `i`th on,
/// that are called for, one after the other, and through no others.
pub open spec fn takes(
    transaction: Transaction,
    machine: Machine,
    course: Seq<(bool, Operation)>,
    i: int,
) -> bool
    decreases course.len() - i,
{
    if i < 0 || i >= course.len() {
        is_end(transaction.at)
    } else if !course[i].0 {
        takes(transaction, machine, course, i + 1)
    } else {
        let after = transaction.next(machine.answer(transaction.at));
        &&& fits(transaction.at, machine.answer(transaction.at))
        &&& after.at == course[i].1
        &&& takes(after, machine, course, i + 1)
    }
}

/// The preparation of an installation looks at everything before it makes its journal; it is
/// refused where a program has no service, or a service has no state or not an unrestricted SID.
/// The journal holds the snapshot first, then the access lists of what was there.
pub proof fn the_course_of_a_preparation(m: Machine)
    ensures
        ({
            let unowned = m.program && !m.service;
            let stateless = m.service && !m.state;
            let restricted = m.service && m.state && m.sid_type != SERVICE_SID_TYPE_UNRESTRICTED;
            let good = !unowned && !stateless && !restricted;
            takes(
                begun(Kind::Command(MaintenanceCommand::PrepareInstall)),
                m,
                seq![
                    (true, Operation::EnsureAbsent(Absence::StaleInstallJournal)),
                    (true, Operation::EnsureAbsent(Absence::PendingUninstallJournal)),
                    (true, Operation::EnsureAbsent(Absence::PendingPurgeQuarantine)),
                    (true, Operation::LookFor(Root::Program)),
                    (m.program, Operation::ValidateTree(Root::Program)),
                    (true, Operation::LookFor(Root::State)),
                    (m.state, Operation::ValidateTree(Root::State)),
                    (true, Operation::OpenService),
                    (unowned, Operation::Fail(TransactionFault::ProgramNotOwned)),
                    (m.service, Operation::ValidateService),
                    (m.service, Operation::ValidateProgramTree),
                    (stateless, Operation::Fail(TransactionFault::NoTrustedState)),
                    (m.service && m.state, Operation::ValidateMarker { service_access: true }),
                    (m.service && m.state, Operation::QuerySidType),
                    (restricted, Operation::Fail(TransactionFault::ExistingSidType)),
                    (good && m.service, Operation::QueryActive),
                    (good && m.service, Operation::QueryFailurePolicy),
                    (
                        good && !m.service && m.state,
                        Operation::ValidateMarker { service_access: false },
                    ),
                    (good, Operation::CreateJournal(Root::Journal)),
                    (good, Operation::WriteSnapshot),
                    (good, Operation::VerifySnapshot),
                    (good && m.state, Operation::SaveAcl(Root::State)),
                    (good && m.program, Operation::SaveAcl(Root::Program)),
                    (good, Operation::VerifyJournal),
                    (good, Operation::Finish),
                ],
                0,
            )
        }),
{
    reveal_with_fuel(takes, 26);
}

/// The application of an installation sets up the state where there was none, then the service and
/// the access to program and state, each read back before the next; it finishes only behind the
/// last of them, whether or not the state was there before.
pub proof fn the_course_of_an_application(m: Machine)
    ensures
        ({
            let before = m.install.state_existed;
            let lost = m.program && before && !m.state;
            let fresh = m.program && !before;
            let there = m.program && !lost;
            let served = there && m.service;
            let unrestricted = served && m.sid_type == SERVICE_SID_TYPE_UNRESTRICTED;
            let good = unrestricted && m.policy;
            takes(
                begun(Kind::Command(MaintenanceCommand::ApplyInstall)),
                m,
                seq![
                    (true, Operation::ReadInstallSnapshot),
                    (true, Operation::LookFor(Root::Program)),
                    (!m.program, Operation::Fail(TransactionFault::ProgramNotCreated)),
                    (m.program, Operation::ValidateTree(Root::Program)),
                    (m.program, Operation::ValidateExecutable),
                    (m.program && before, Operation::LookFor(Root::State)),
                    (lost, Operation::Fail(TransactionFault::StateDisappeared)),
                    (m.program && before && m.state, Operation::ValidateTree(Root::State)),
                    (fresh, Operation::EnsureAbsent(Absence::AppearedState)),
                    (fresh, Operation::CreateStateRoot),
                    (fresh, Operation::ValidateDirectory(Root::State)),
                    (fresh, Operation::SecureStateRoot),
                    (fresh, Operation::ValidateStateAccess { service_access: false }),
                    (fresh, Operation::WriteDefaultConfig),
                    (there, Operation::OpenService),
                    (
                        there && !m.service,
                        Operation::Fail(TransactionFault::ServiceNotInstalled),
                    ),
                    (served, Operation::ValidateService),
                    (served, Operation::SetSidType(SERVICE_SID_TYPE_UNRESTRICTED)),
                    (served, Operation::QuerySidType),
                    (
                        served && !unrestricted,
                        Operation::Fail(TransactionFault::SidTypeNotVerified),
                    ),
                    (unrestricted, Operation::SetFailurePolicy(true)),
                    (unrestricted, Operation::QueryFailurePolicy),
                    (
                        unrestricted && !m.policy,
                        Operation::Fail(TransactionFault::PolicyNotVerified),
                    ),
                    (good, Operation::SecureProgram),
                    (good, Operation::ValidateProgramTree),
                    (good, Operation::WriteOrValidateMarker),
                    (good, Operation::RevalidateState),
                    (good, Operation::SecureStateForService),
                    (good, Operation::ValidateMarker { service_access: true }),
                    (good, Operation::Finish),
                ],
                0,
            )
        }),
{
    reveal_with_fuel(takes, 31);
}

/// The rollback of an installation restores what its snapshot says was there: the saved access
/// lists, the service, and the absence of a state; then its journal goes.
pub proof fn the_course_of_a_rollback(m: Machine)
    ensures
        ({
            let look_state = m.journal && m.install.state_acl_saved;
            let look_program = m.journal && m.install.program_existed;
            let fresh = m.journal && !m.install.state_existed;
            takes(
                begun(Kind::Command(MaintenanceCommand::RollbackInstall)),
                m,
                seq![
                    (true, Operation::Exists(Root::Journal)),
                    (m.journal, Operation::ValidateDirectory(Root::Journal)),
                    (m.journal, Operation::ValidateTree(Root::Journal)),
                    (m.journal, Operation::ReadInstallSnapshot),
                    (look_state, Operation::AclSaved(Root::State)),
                    (look_state && m.state_acl, Operation::Exists(Root::State)),
                    (look_state && m.state_acl && m.state, Operation::RestoreAcl(Root::State)),
                    (look_program, Operation::AclSaved(Root::Program)),
                    (look_program && m.program_acl, Operation::Exists(Root::Program)),
                    (
                        look_program && m.program_acl && m.program,
                        Operation::RestoreAcl(Root::Program),
                    ),
                    (
                        m.journal && m.install.original_service_sid_type is Some,
                        Operation::RestoreService,
                    ),
                    (fresh, Operation::FreshStateLeft),
                    (fresh && m.state, Operation::RemoveFreshState),
                    (m.journal, Operation::RemoveTree(Root::Journal)),
                    (true, Operation::Finish),
                ],
                0,
            )
        }),
{
    reveal_with_fuel(takes, 16);
}

/// A commit of an installation, if it has a journal, looks at it and then removes it.
pub proof fn the_course_of_a_commit(m: Machine)
    ensures
        takes(
            begun(Kind::Command(MaintenanceCommand::CommitInstall)),
            m,
            seq![
                (true, Operation::Exists(Root::Journal)),
                (m.journal, Operation::ValidateDirectory(Root::Journal)),
                (m.journal, Operation::ValidateTree(Root::Journal)),
                (m.journal, Operation::ReadInstallSnapshot),
                (m.journal, Operation::RemoveTree(Root::Journal)),
                (true, Operation::Finish),
            ],
            0,
        ),
{
    reveal_with_fuel(takes, 7);
}

/// The preflight of a removal wants the whole installation as it was made before it writes down
/// whether the service runs.
pub proof fn the_course_of_a_preflight(m: Machine)
    ensures
        ({
            let served = m.program && m.service;
            let unrestricted = served && m.sid_type == SERVICE_SID_TYPE_UNRESTRICTED;
            let good = unrestricted && m.policy;
            takes(
                begun(Kind::Command(MaintenanceCommand::PreflightUninstall)),
                m,
                seq![
                    (true, Operation::EnsureAbsent(Absence::StaleUninstallJournal)),
                    (true, Operation::LookFor(Root::Program)),
                    (!m.program, Operation::Fail(TransactionFault::ProgramMissing)),
                    (m.program, Operation::ValidateExecutable),
                    (m.program, Operation::ValidateProgramTree),
                    (m.program, Operation::OpenService),
                    (m.program && !m.service, Operation::Fail(TransactionFault::ServiceMissing)),
                    (served, Operation::ValidateService),
                    (served, Operation::QuerySidType),
                    (
                        served && !unrestricted,
                        Operation::Fail(TransactionFault::InstalledSidType),
                    ),
                    (unrestricted, Operation::QueryFailurePolicy),
                    (
                        unrestricted && !m.policy,
                        Operation::Fail(TransactionFault::InstalledPolicy),
                    ),
                    (good, Operation::LookFor(Root::State)),
                    (good && m.state, Operation::ValidateTree(Root::State)),
                    (good && m.state, Operation::ValidateMarker { service_access: true }),
                    (good, Operation::QueryActive),
                    (good, Operation::CreateJournal(Root::UninstallJournal)),
                    (good, Operation::WriteSnapshot),
                    (good, Operation::Finish),
                ],
                0,
            )
        }),
{
    reveal_with_fuel(takes, 20);
}

/// The rollback of a preflight removes the journal, unless a later step has taken it over.
pub proof fn the_course_of_a_preflight_rollback(m: Machine)
    ensures
        ({
            let own = m.uninstall_journal && !m.uninstall.state_acl_saved;
            takes(
                begun(Kind::Command(MaintenanceCommand::RollbackUninstallPreflight)),
                m,
                seq![
                    (true, Operation::Exists(Root::UninstallJournal)),
                    (m.uninstall_journal, Operation::ReadUninstallSnapshot),
                    (own, Operation::QueryPurgeStarted),
                    (own && !m.purge_started, Operation::RemoveTree(Root::UninstallJournal)),
                    (true, Operation::Finish),
                ],
                0,
            )
        }),
{
    reveal_with_fuel(takes, 6);
}

/// A removal that keeps the state saves its access list and notes that in the journal before it
/// takes the service's access away, and looks whether that worked.
pub proof fn the_course_of_a_preservation(m: Machine)
    ensures
        ({
            let good = m.state && m.service;
            takes(
                begun(Kind::Command(MaintenanceCommand::PreserveState)),
                m,
                seq![
                    (true, Operation::Exists(Root::State)),
                    (m.state, Operation::ReadUninstallSnapshot),
                    (m.state, Operation::ValidateDirectory(Root::State)),
                    (m.state, Operation::ValidateTree(Root::State)),
                    (m.state, Operation::OpenService),
                    (
                        m.state && !m.service,
                        Operation::Fail(TransactionFault::ServiceGoneDuringUninstall),
                    ),
                    (good, Operation::ValidateService),
                    (good, Operation::ValidateMarker { service_access: true }),
                    (good, Operation::SaveAcl(Root::State)),
                    (good, Operation::ReplaceSnapshot),
                    (good, Operation::SecureStateForAdministrators),
                    (good, Operation::ValidateMarker { service_access: false }),
                    (good || !m.state, Operation::Finish),
                ],
                0,
            )
        }),
{
    reveal_with_fuel(takes, 14);
}

/// The rollback of a removal restores the access list that was saved, if the state is there, and
/// the service; then the journal goes.
pub proof fn the_course_of_a_removal_rollback(m: Machine)
    ensures
        ({
            let saved = m.uninstall_journal && m.uninstall.state_acl_saved;
            takes(
                begun(Kind::Command(MaintenanceCommand::RollbackUninstall)),
                m,
                seq![
                    (true, Operation::Exists(Root::UninstallJournal)),
                    (m.uninstall_journal, Operation::ReadUninstallSnapshot),
                    (saved, Operation::Exists(Root::State)),
                    (saved && m.state, Operation::ValidateTree(Root::State)),
                    (saved && m.state, Operation::RestoreAcl(Root::State)),
                    (m.uninstall_journal, Operation::RestoreService),
                    (m.uninstall_journal, Operation::RemoveTree(Root::UninstallJournal)),
                    (true, Operation::Finish),
                ],
                0,
            )
        }),
{
    reveal_with_fuel(takes, 9);
}

/// A commit of a removal, if it has a journal, reads it and then removes it.
pub proof fn the_course_of_a_removal_commit(m: Machine)
    ensures
        takes(
            begun(Kind::Command(MaintenanceCommand::CommitUninstall)),
            m,
            seq![
                (true, Operation::Exists(Root::UninstallJournal)),
                (m.uninstall_journal, Operation::ReadUninstallSnapshot),
                (m.uninstall_journal, Operation::RemoveTree(Root::UninstallJournal)),
                (true, Operation::Finish),
            ],
            0,
        ),
{
    reveal_with_fuel(takes, 5);
}

/// The preparation of a purge moves a state that is the service's own into quarantine, after it
/// noted in the journal that it does.
pub proof fn the_course_of_a_purge(m: Machine)
    ensures
        ({
            let good = m.state && m.service;
            takes(
                begun(Kind::Command(MaintenanceCommand::PreparePurge)),
                m,
                seq![
                    (true, Operation::ReadUninstallSnapshot),
                    (true, Operation::EnsureAbsent(Absence::PendingPurgeQuarantine)),
                    (true, Operation::Exists(Root::State)),
                    (m.state, Operation::ValidateDirectory(Root::State)),
                    (m.state, Operation::ValidateTree(Root::State)),
                    (m.state, Operation::OpenService),
                    (
                        m.state && !m.service,
                        Operation::Fail(TransactionFault::ServiceGoneDuringPurge),
                    ),
                    (good, Operation::ValidateService),
                    (good, Operation::ValidateMarker { service_access: true }),
                    (good, Operation::WritePurgeStarted),
                    (good, Operation::Quarantine),
                    (good, Operation::ValidateDirectory(Root::Quarantine)),
                    (good || !m.state, Operation::Finish),
                ],
                0,
            )
        }),
{
    reveal_with_fuel(takes, 14);
}

/// The rollback of a purge moves a quarantined state back where none has taken its place, and
/// restores the service; then the journal goes.
pub proof fn the_course_of_a_purge_rollback(m: Machine)
    ensures
        ({
            let moved = m.uninstall_journal && m.quarantine;
            takes(
                begun(Kind::Command(MaintenanceCommand::RollbackPurge)),
                m,
                seq![
                    (true, Operation::Exists(Root::UninstallJournal)),
                    (m.uninstall_journal, Operation::ReadUninstallSnapshot),
                    (m.uninstall_journal, Operation::Exists(Root::Quarantine)),
                    (moved, Operation::ValidateDirectory(Root::Quarantine)),
                    (moved, Operation::ValidateTree(Root::Quarantine)),
                    (moved, Operation::EnsureAbsent(Absence::ReplacementState)),
                    (moved, Operation::Unquarantine),
                    (m.uninstall_journal, Operation::RestoreService),
                    (m.uninstall_journal, Operation::RemoveTree(Root::UninstallJournal)),
                    (true, Operation::Finish),
                ],
                0,
            )
        }),
{
    reveal_with_fuel(takes, 11);
}

/// The commit of a purge deletes the quarantine, if there is one, and then the journal, if there is
/// one.
pub proof fn the_course_of_a_purge_commit(m: Machine)
    ensures
        takes(
            begun(Kind::Command(MaintenanceCommand::CommitPurge)),
            m,
            seq![
                (true, Operation::Exists(Root::UninstallJournal)),
                (m.uninstall_journal, Operation::ReadUninstallSnapshot),
                (true, Operation::Exists(Root::Quarantine)),
                (m.quarantine, Operation::ValidateDirectory(Root::Quarantine)),
                (m.quarantine, Operation::ValidateTree(Root::Quarantine)),
                (m.quarantine, Operation::RemoveTree(Root::Quarantine)),
                (m.uninstall_journal, Operation::RemoveTree(Root::UninstallJournal)),
                (true, Operation::Finish),
            ],
            0,
        ),
{
    reveal_with_fuel(takes, 9);
}

/// A state root that an unfinished installation made is removed once it, and its marker where it
/// has one, have been looked at.
pub proof fn the_course_of_a_fresh_removal(m: Machine)
    ensures
        takes(
            begun(Kind::RemoveFreshState),
            m,
            seq![
                (true, Operation::ValidateDirectory(Root::State)),
                (true, Operation::ValidateTree(Root::State)),
                (true, Operation::LookForMarker),
                (m.marker, Operation::ValidateMarkerFile),
                (m.marker, Operation::ValidateMarkerAccess),
                (true, Operation::ValidateStateAccess { service_access: false }),
                (true, Operation::RemoveTree(Root::State)),
                (true, Operation::Finish),
            ],
            0,
        ),
{
    reveal_with_fuel(takes, 9);
}

/// A service is restored by writing its settings and reading each back, and only then started or
/// stopped where it is not as it was; that is waited for.
pub proof fn the_course_of_a_restoration(m: Machine, wanted: Restoration)
    ensures
        ({
            let typed = m.service && m.sid_type == wanted.sid_type;
            let good = typed && m.policy == wanted.policy;
            takes(
                begun(Kind::RestoreService(wanted)),
                m,
                seq![
                    (true, Operation::OpenService),
                    (!m.service, Operation::Fail(TransactionFault::RollbackServiceMissing)),
                    (m.service, Operation::ValidateService),
                    (m.service && wanted.secure_program, Operation::SecureProgram),
                    (m.service, Operation::ValidateProgramTree),
                    (m.service, Operation::SetSidType(wanted.sid_type)),
                    (m.service, Operation::QuerySidType),
                    (m.service && !typed, Operation::Fail(TransactionFault::RestoredSidType)),
                    (typed, Operation::SetFailurePolicy(wanted.policy)),
                    (typed, Operation::QueryFailurePolicy),
                    (typed && !good, Operation::Fail(TransactionFault::RestoredPolicy)),
                    (good, Operation::AwaitStable),
                    (good && wanted.running && !m.running, Operation::StartService),
                    (good && !wanted.running && m.running, Operation::StopService),
                    (good, Operation::AwaitRunning(wanted.running)),
                    (good, Operation::Finish),
                ],
                0,
            )
        }),
{
    reveal_with_fuel(takes, 17);
}

/// An operation that fails ends its transaction with its own error, but for these: a snapshot that
/// cannot be kept takes its journal with it; a preservation is undone first; the parts of a
/// rollback, and the deletion of a quarantine, are left behind and remembered; and a fresh state
/// root with the wrong access is looked at again.
pub proof fn what_a_failure_leads_to(transaction: Transaction)
    requires
        fits(transaction.at, Answer::Failed),
    ensures
        ({
            let after = transaction.next(Answer::Failed);
            let op = transaction.at;
            let part = match transaction.kind {
                Kind::Command(MaintenanceCommand::RollbackInstall) => op is RestoreAcl || op
                    is RestoreService || op is RemoveFreshState,
                Kind::Command(MaintenanceCommand::CommitPurge) => op is ValidateDirectory || op
                    is ValidateTree || op == Operation::RemoveTree(Root::Quarantine),
                _ => false,
            };
            &&& after.kind == transaction.kind
            &&& after.facts == (Facts {
                part_failed: transaction.facts.part_failed || part,
                ..transaction.facts
            })
            &&& match transaction.kind {
                Kind::Command(MaintenanceCommand::PrepareInstall) => if op is WriteSnapshot || op
                    is VerifySnapshot {
                    after.at == Operation::DiscardJournal(Root::Journal) && after.next(
                        Answer::Done,
                    ).at == Operation::FailWithError && after.next(Answer::Failed).at
                        == Operation::FailWithError
                } else {
                    after.at == Operation::FailWithError
                },
                Kind::Command(MaintenanceCommand::PreflightUninstall) => if op is WriteSnapshot {
                    after.at == Operation::DiscardJournal(Root::UninstallJournal) && after.next(
                        Answer::Done,
                    ).at == Operation::FailWithError && after.next(Answer::Failed).at
                        == Operation::FailWithError
                } else {
                    after.at == Operation::FailWithError
                },
                Kind::Command(MaintenanceCommand::PreserveState) => if op is SaveAcl || op
                    is ReplaceSnapshot || op is SecureStateForAdministrators || op == (
                Operation::ValidateMarker { service_access: false }) {
                    let undone = after.next(Answer::Said(true)).next(Answer::Done);
                    let nothing = after.next(Answer::Said(false));
                    let stuck = after.next(Answer::Said(true)).next(Answer::Failed);
                    &&& after.at == Operation::AclSaved(Root::State)
                    &&& after.next(Answer::Said(true)).at == Operation::RestoreAcl(Root::State)
                    &&& undone.at == Operation::DiscardJournal(Root::UninstallJournal)
                    &&& nothing.at == Operation::DiscardJournal(Root::UninstallJournal)
                    &&& undone.next(Answer::Done).at == Operation::Fail(
                        TransactionFault::PreservationFailed,
                    )
                    &&& undone.next(Answer::Failed).at == Operation::Fail(
                        TransactionFault::PreservationFailed,
                    )
                    &&& stuck.at == Operation::Fail(TransactionFault::PreservationNotUndone)
                } else {
                    op is RestoreAcl || op is DiscardJournal || after.at
                        == Operation::FailWithError
                },
                Kind::Command(MaintenanceCommand::CommitPurge) => if part {
                    let gone = after.next(Answer::Done);
                    &&& transaction.facts.journal ==> after.at == Operation::RemoveTree(
                        Root::UninstallJournal,
                    ) && gone.at == Operation::Fail(TransactionFault::QuarantineRemains)
                        && after.next(Answer::Failed).at == Operation::Fail(
                        TransactionFault::QuarantineRemains,
                    )
                    &&& !transaction.facts.journal ==> after.at == Operation::Fail(
                        TransactionFault::QuarantineRemains,
                    )
                } else {
                    after.at == Operation::FailWithError || (op == Operation::RemoveTree(
                        Root::UninstallJournal,
                    ) && transaction.facts.part_failed && after.at == Operation::Fail(
                        TransactionFault::QuarantineRemains,
                    ))
                },
                Kind::Command(MaintenanceCommand::RollbackInstall) => if part {
                    after.at == transaction.next(Answer::Done).at || (
                    transaction.next(Answer::Done).at == Operation::RemoveTree(Root::Journal)
                        && after.at == Operation::Fail(TransactionFault::RollbackIncomplete))
                } else {
                    after.at == Operation::FailWithError
                },
                Kind::RemoveFreshState => if op == (Operation::ValidateStateAccess {
                    service_access: false,
                }) {
                    if transaction.facts.said {
                        after.at == (Operation::ValidateStateAccess { service_access: true })
                            && after.next(Answer::Done).at == Operation::RemoveTree(Root::State)
                            && after.next(Answer::Failed).at == Operation::Fail(
                            TransactionFault::NeitherAccessMode,
                        )
                    } else {
                        after.at == Operation::StateHoldsAnything && after.next(
                            Answer::Said(true),
                        ).at == Operation::Fail(TransactionFault::UnprotectedState) && after.next(
                            Answer::Said(false),
                        ).at == Operation::RemoveEmptyState && after.next(
                            Answer::Said(false),
                        ).next(Answer::Done).at == Operation::Finish
                    }
                } else {
                    op == (Operation::ValidateStateAccess { service_access: true }) || after.at
                        == Operation::FailWithError
                },
                _ => after.at == Operation::FailWithError,
            }
        }),
{
}

/// A rollback some part of which has failed goes on with the other parts and then fails, whatever
/// else succeeds: it never removes its journal.
pub proof fn a_failed_part_shows_at_the_end(transaction: Transaction, answer: Answer)
    requires
        fits(transaction.at, answer),
        transaction.kind == Kind::Command(MaintenanceCommand::RollbackInstall),
        transaction.facts.part_failed,
        transaction.at is RestoreAcl || transaction.at is RestoreService || transaction.at
            is RemoveFreshState || transaction.at is AclSaved || transaction.at is FreshStateLeft
            || transaction.at == Operation::Exists(Root::State) || transaction.at
            == Operation::Exists(Root::Program),
    ensures
        ({
            let after = transaction.next(answer).at;
            &&& !(after is RemoveTree) && !(after is Finish)
            &&& after is Fail ==> after == Operation::Fail(TransactionFault::RollbackIncomplete)
        }),
{
}

/// What a transaction learns is what it is told: each answer is kept where later operations look
/// for it, and nothing else changes.
pub proof fn what_is_told_is_kept(facts: Facts, said: bool, sid_type: u32, snapshot: InstallSnapshot, removal: UninstallSnapshot)
    ensures
        facts.learning(Operation::LookFor(Root::Program), Answer::Said(said)) == (Facts {
            program: said,
            ..facts
        }),
        facts.learning(Operation::LookFor(Root::State), Answer::Said(said)) == (Facts {
            state: said,
            ..facts
        }),
        facts.learning(Operation::OpenService, Answer::Said(said)) == (Facts {
            service: said,
            ..facts
        }),
        facts.learning(Operation::QueryActive, Answer::Said(said)) == (Facts {
            running: said,
            ..facts
        }),
        facts.learning(Operation::AwaitStable, Answer::Said(said)) == (Facts {
            running: said,
            ..facts
        }),
        facts.learning(Operation::QueryFailurePolicy, Answer::Said(said)) == (Facts {
            policy: said,
            ..facts
        }),
        facts.learning(Operation::Exists(Root::UninstallJournal), Answer::Said(said)) == (Facts {
            journal: said,
            ..facts
        }),
        facts.learning(Operation::QuerySidType, Answer::SidType(sid_type)) == (Facts {
            sid_type,
            ..facts
        }),
        facts.learning(Operation::ReadInstallSnapshot, Answer::Install(snapshot)) == (Facts {
            install: snapshot,
            ..facts
        }),
        facts.learning(Operation::ReadUninstallSnapshot, Answer::Uninstall(removal)) == (Facts {
            uninstall: removal,
            ..facts
        }),
        forall|op: Operation| #[trigger] facts.learning(op, Answer::Done) == facts,
        forall|op: Operation| #[trigger] facts.learning(op, Answer::Failed) == facts,
{
}

/// The snapshot of a preparation says what the preparation saw, and of a service only where there
/// is one; the access list of a state is saved exactly where there is a state.
pub proof fn the_snapshot_says_what_was_there(facts: Facts)
    ensures
        ({
            let snapshot = facts.install_snapshot();
            &&& snapshot.program_existed == facts.program
            &&& snapshot.state_existed == facts.state
            &&& snapshot.state_acl_saved == facts.state
            &&& facts.service ==> snapshot.original_service_sid_type == Some(facts.sid_type)
                && snapshot.original_failure_actions_on_non_crash == Some(facts.policy)
                && snapshot.original_service_running == facts.running
            &&& !facts.service ==> snapshot.original_service_sid_type is None
                && snapshot.original_failure_actions_on_non_crash is None
                && !snapshot.original_service_running
        }),
{
}

/// A service comes back as its snapshot says it was: the rollback of an installation restores its
/// type, its policy, which restarts where none was noted, and whether it ran, and leaves the access
/// to the program as it was restored; that of a removal makes it what an installation makes it, and
/// builds the access to the program anew.
pub proof fn a_service_is_restored_as_it_was(transaction: Transaction)
    ensures
        ({
            let restored = transaction.restored();
            let install = transaction.facts.install;
            &&& transaction.kind == Kind::Command(MaintenanceCommand::RollbackInstall) ==> {
                &&& install.original_service_sid_type matches Some(sid_type) ==> restored.sid_type
                    == sid_type
                &&& install.original_failure_actions_on_non_crash matches Some(policy)
                    ==> restored.policy == policy
                &&& install.original_failure_actions_on_non_crash is None ==> restored.policy
                &&& restored.running == install.original_service_running
                &&& !restored.secure_program
            }
            &&& transaction.kind != Kind::Command(MaintenanceCommand::RollbackInstall) ==> {
                &&& restored.sid_type == 1
                &&& restored.policy
                &&& restored.running == transaction.facts.uninstall.service_was_running
                &&& restored.secure_program
            }
        }),
{
}

} // verus!
