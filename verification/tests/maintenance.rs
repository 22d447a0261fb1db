use unionc_agent::maintenance::dacl::{
    managed_state_security_descriptor, parse_program_dacl, program_security_descriptor,
    restored_protection, validate_managed_dacl, DaclFault, DaclKind, Party,
};
use unionc_agent::maintenance::files::{
    directory_fault_message, ensure_absolute_root, file_fault_message, judge_acl_snapshot,
    judge_acl_target, judge_directory, judge_marker_file, judge_regular_single_link,
    judge_tree_entry, purge_started, purge_started_content, restoration_order, sort_entries,
    state_marker, state_marker_content, tree_fault_message, AclEntry, AclFault, FileFault,
    FixedPaths, Found, KnownFolder, RootFault,
};
use unionc_agent::maintenance::service::{
    hresult_from_win32, is_local_service_name, reached, service_is_active, service_sid_string,
    settled, sid_of_digest, validate_agent_service, ServiceConfig, ServiceFault,
    ServiceStateFault, SERVICE_AUTO_START, SERVICE_RUNNING, SERVICE_START_PENDING,
    SERVICE_STOPPED, SERVICE_STOP_PENDING, SERVICE_WIN32_OWN_PROCESS,
};
use unionc_agent::maintenance::steps::{Kind, Restoration, Transaction};
use unionc_agent::maintenance::transaction::{
    parse_command, quarantine_remains_message, rollback_incomplete_message, snapshot_supported,
    Absence, Answer, CommandFault, InstallSnapshot, MaintenanceCommand, Operation, Root,
    TransactionFault, UninstallSnapshot,
};

const SERVICE_SID: &str = "S-1-5-80-1-2-3-4-5";

#[test]
fn service_sid_is_stable_and_has_five_subauthorities() {
    let sid = service_sid_string();
    assert!(sid.starts_with("S-1-5-80-"));
    assert_eq!(sid.split('-').count(), 9);
    assert_eq!(sid, service_sid_string());
}

#[test]
fn the_service_sid_is_the_digest_of_its_name() {
    assert_eq!(
        service_sid_string(),
        "S-1-5-80-959391808-43278808-2305701071-1216870025-3441853377"
    );
    let digest: Vec<u8> = (0..20).collect();
    assert_eq!(
        sid_of_digest(&digest).unwrap(),
        format!(
            "S-1-5-80-{}-{}-{}-{}-{}",
            0x03020100_u32, 0x07060504_u32, 0x0b0a0908_u32, 0x0f0e0d0c_u32, 0x13121110_u32
        )
    );
    assert_eq!(sid_of_digest(&vec![0; 19]), None);
}

#[test]
fn the_order_of_the_entries_does_not_matter() {
    let entries = [
        "(A;OICI;FA;;;SY)".to_string(),
        "(A;OICI;FA;;;BA)".to_string(),
        "(A;OICI;0x1200a9;;;BU)".to_string(),
        format!("(A;OICI;0x1200a9;;;{SERVICE_SID})"),
    ];
    let mut orders = 0;
    for code in 0..256_usize {
        let order = [code & 3, code >> 2 & 3, code >> 4 & 3, code >> 6 & 3];
        let distinct = (0..4).all(|entry| order.contains(&entry));
        let list: String = order.iter().map(|entry| entries[*entry].as_str()).collect();
        let verdict = parse_program_dacl(&format!("O:SYD:P{list}"), SERVICE_SID);
        assert_eq!(verdict.is_ok(), distinct);
        orders += usize::from(distinct);
    }
    assert_eq!(orders, 24);
}

#[test]
fn the_program_directory_is_not_taken_for_the_state() {
    for with_service in [false, true] {
        assert!(matches!(
            validate_managed_dacl(
                &program_security_descriptor(SERVICE_SID),
                SERVICE_SID,
                with_service
            ),
            Err(DaclFault::Trustee { trustee }) if trustee == "BU"
        ));
    }
    let installed = managed_state_security_descriptor(Some(SERVICE_SID));
    assert!(matches!(
        validate_managed_dacl(&format!("{installed}(A;OICI;FA;;;WD)"), SERVICE_SID, true),
        Err(DaclFault::Trustee { trustee }) if trustee == "WD"
    ));
}

#[test]
fn parser_accepts_only_the_current_program_template() {
    let obsolete_service_only = format!(
        "O:SYD:P(A;OICI;FA;;;SY)(A;OICI;FA;;;BA)\
         (A;OICI;0x1200a9;;;{SERVICE_SID})"
    );
    assert!(parse_program_dacl(&obsolete_service_only, SERVICE_SID).is_err());

    let tray_enabled = program_security_descriptor(SERVICE_SID);
    parse_program_dacl(&tray_enabled, SERVICE_SID).unwrap();

    let users_can_write = tray_enabled.replace("(A;OICI;0x1200a9;;;BU)", "(A;OICI;FA;;;BU)");
    assert!(parse_program_dacl(&users_can_write, SERVICE_SID).is_err());

    let unexpected_authenticated_users =
        tray_enabled.replace("(A;OICI;0x1200a9;;;BU)", "(A;OICI;0x1200a9;;;AU)");
    assert!(parse_program_dacl(&unexpected_authenticated_users, SERVICE_SID).is_err());
}

#[test]
fn tray_execute_access_never_leaks_into_mutable_state_template() {
    let program = program_security_descriptor(SERVICE_SID);
    assert!(program.contains("(A;OICI;0x1200a9;;;BU)"));

    let installed_state = managed_state_security_descriptor(Some(SERVICE_SID));
    let preserved_state = managed_state_security_descriptor(None);
    assert!(!installed_state.contains(";;;BU)"));
    assert!(!preserved_state.contains(";;;BU)"));
    assert_eq!(
        installed_state,
        format!(
            "O:SYD:P(A;OICI;FA;;;SY)(A;OICI;FA;;;BA)\
             (A;OICI;0x1301bf;;;{SERVICE_SID})(A;OICI;RC;;;OW)"
        )
    );
}

#[test]
fn the_state_template_is_accepted_as_it_is_written() {
    let installed = managed_state_security_descriptor(Some(SERVICE_SID));
    let preserved = managed_state_security_descriptor(None);
    assert!(validate_managed_dacl(&installed, SERVICE_SID, true).is_ok());
    assert!(validate_managed_dacl(&preserved, SERVICE_SID, false).is_ok());
    assert!(matches!(
        validate_managed_dacl(&preserved, SERVICE_SID, true),
        Err(DaclFault::ServiceMissing)
    ));
    assert!(matches!(
        validate_managed_dacl(&installed, SERVICE_SID, false),
        Err(DaclFault::ServicePresent)
    ));
}

#[test]
fn every_fault_of_an_access_list_is_told() {
    let parse = |sddl: &str| parse_program_dacl(sddl, SERVICE_SID).unwrap_err();
    assert!(matches!(parse("O:BUD:P(A;OICI;FA;;;SY)"), DaclFault::Owner));
    assert!(matches!(parse("O:SY"), DaclFault::NoDacl));
    assert!(matches!(parse("O:SYD:P"), DaclFault::NoEntries));
    assert!(matches!(parse("O:SYD:AI(A;OICI;FA;;;SY)"), DaclFault::NotProtected));
    assert!(matches!(parse("O:SYD:P(D;OICI;FA;;;SY)"), DaclFault::Form { .. }));
    for entry in ["(A;OICIID;FA;;;SY)", "(A;OICI;FA;x;;SY)"] {
        assert!(matches!(parse(&format!("O:SYD:P{entry}")), DaclFault::Form { .. }));
    }
    let judge =
        |sddl: &str| validate_managed_dacl(sddl, SERVICE_SID, true).unwrap_err();
    assert!(matches!(judge("O:SYD:P(A;OICIID;FA;;;SY)"), DaclFault::Flags { .. }));
    assert!(matches!(judge("O:SYD:P(A;OICI;FA;x;;SY)"), DaclFault::ObjectSpecific { .. }));
    assert!(matches!(
        parse("O:SYD:P(A;OICI;FA;;;SY)(A;OICI;FA;;;SY)"),
        DaclFault::Duplicate(Party::System)
    ));
    let rights = parse("O:SYD:P(A;OICI;FR;;;BA)");
    assert!(matches!(rights, DaclFault::Rights(Party::Administrators)));
    assert!(!rights.message(DaclKind::Program, "").is_empty());
    assert!(matches!(parse("O:SYD:P(A;OICI;FA;;;WD)"), DaclFault::Trustee { .. }));
    assert!(matches!(parse("O:SYD:P(A;OICI;FA;;;SY)"), DaclFault::Incomplete));
    assert_eq!(
        DaclFault::ServiceMissing.message(DaclKind::State, ""),
        "managed state DACL lacks the service SID"
    );
}

#[test]
fn protection_is_restored_as_it_was() {
    assert_eq!(restored_protection("O:SYD:PAI(A;;FA;;;SY)"), Some(true));
    assert_eq!(restored_protection("O:SYD:AI(A;;FA;;;PU)"), Some(false));
    assert_eq!(restored_protection("O:SY"), None);
}

// ---------------------------------------------------------------------------
// The service
// ---------------------------------------------------------------------------
const EXE: &str = "C:\\Program Files\\UnionC Agent\\unionc-agent.exe";
const CONFIG: &str = "C:\\ProgramData\\UnionC Agent\\config.json";

fn service() -> ServiceConfig {
    ServiceConfig {
        service_type: SERVICE_WIN32_OWN_PROCESS,
        start_type: SERVICE_AUTO_START,
        arguments: [EXE, "--windows-service", "run", "--config", CONFIG]
            .iter()
            .map(|item| item.to_string())
            .collect(),
        start_name: "NT AUTHORITY\\LocalService".into(),
    }
}

#[test]
fn only_the_agents_own_service_is_accepted() {
    let judge = |given: &ServiceConfig| validate_agent_service(given, EXE, CONFIG);
    assert_eq!(judge(&service()), Ok(()));
    assert_eq!(
        judge(&ServiceConfig { service_type: 32, ..service() }),
        Err(ServiceFault::NotOwnProcess)
    );
    assert_eq!(
        judge(&ServiceConfig { start_type: 3, ..service() }),
        Err(ServiceFault::NotAutomatic)
    );
    assert_eq!(
        judge(&ServiceConfig { arguments: vec![EXE.into()], ..service() }),
        Err(ServiceFault::ArgumentCount)
    );
    let mut other = service();
    other.arguments[0] = "C:\\Other.exe".into();
    assert_eq!(judge(&other), Err(ServiceFault::ImagePath));
    assert_eq!(
        judge(&ServiceConfig { start_name: "LocalSystem".into(), ..service() }),
        Err(ServiceFault::NotLocalService)
    );
    assert_eq!(
        ServiceFault::NotLocalService.message(),
        "UnionCAgent does not run as LOCAL SERVICE"
    );
    assert!(is_local_service_name("s-1-5-19"));
    assert!(!is_local_service_name("s-1-5-18"));
}

#[test]
fn a_service_is_waited_for_until_it_settles() {
    assert_eq!(service_is_active(SERVICE_RUNNING), Ok(true));
    assert_eq!(service_is_active(SERVICE_STOPPED), Ok(false));
    assert_eq!(service_is_active(7), Err(ServiceStateFault::NotStable { state: 7 }));
    assert_eq!(settled(SERVICE_STOPPED, false), Ok(Some(false)));
    assert_eq!(settled(SERVICE_RUNNING, true), Ok(Some(true)));
    assert_eq!(settled(SERVICE_START_PENDING, false), Ok(None));
    assert_eq!(settled(SERVICE_STOP_PENDING, true), Err(ServiceStateFault::StillPending));
    assert_eq!(settled(7, false), Err(ServiceStateFault::Unsupported { state: 7 }));
    assert_eq!(reached(SERVICE_RUNNING, SERVICE_RUNNING, true), Ok(true));
    assert_eq!(reached(SERVICE_STOPPED, SERVICE_RUNNING, false), Ok(false));
    assert_eq!(
        reached(SERVICE_STOPPED, SERVICE_RUNNING, true),
        Err(ServiceStateFault::NotReached { expected: 4, state: 1 })
    );
    assert_eq!(hresult_from_win32(5), 0x8007_0005_u32 as i32);
}

// ---------------------------------------------------------------------------
// Files
// ---------------------------------------------------------------------------
fn folder(path: &str) -> KnownFolder {
    KnownFolder { path: path.into(), absolute: true, has_parent: true }
}

#[test]
fn the_paths_are_fixed() {
    let paths =
        FixedPaths::discover(&folder("C:\\Program Files"), &folder("C:\\ProgramData")).unwrap();
    assert_eq!(paths.program_exe, EXE);
    assert_eq!(paths.config, CONFIG);
    assert_eq!(paths.state_root, "C:\\ProgramData\\UnionC Agent");
    assert_eq!(paths.journal_root, "C:\\ProgramData\\UnionC Agent.install-journal-0.3.2");
    assert_eq!(
        paths.uninstall_journal_root,
        "C:\\ProgramData\\UnionC Agent.uninstall-journal-0.3.2"
    );
    assert_eq!(paths.quarantine_root, "C:\\ProgramData\\UnionC Agent.purge-quarantine-0.3.2");
    let relative = KnownFolder { absolute: false, ..folder("x") };
    let drive = KnownFolder { has_parent: false, ..folder("C:\\") };
    assert_eq!(ensure_absolute_root(&relative), Err(RootFault::NotAbsolute));
    assert_eq!(ensure_absolute_root(&drive), Err(RootFault::FilesystemRoot));
    assert_eq!(
        FixedPaths::discover(&folder("C:\\Program Files"), &drive).unwrap_err(),
        "ProgramData resolved to a filesystem root"
    );
    assert_eq!(
        FixedPaths::discover(&relative, &drive).unwrap_err(),
        "Program Files did not resolve to an absolute path"
    );
}

const FILE: Found = Found { is_directory: false, is_file: true, is_reparse_point: false, links: 1 };
const DIRECTORY: Found =
    Found { is_directory: true, is_file: false, is_reparse_point: false, links: 1 };

#[test]
fn only_plain_files_and_directories_are_managed() {
    assert_eq!(judge_directory(DIRECTORY), Ok(()));
    assert_eq!(judge_directory(FILE), Err(FileFault::NotDirectory));
    assert_eq!(
        judge_directory(Found { is_reparse_point: true, ..DIRECTORY }),
        Err(FileFault::ReparsePoint)
    );
    assert_eq!(judge_regular_single_link(FILE), Ok(()));
    assert_eq!(judge_regular_single_link(DIRECTORY), Err(FileFault::NotRegular));
    assert_eq!(
        judge_regular_single_link(Found { links: 2, ..FILE }),
        Err(FileFault::ManyLinks)
    );
    assert_eq!(judge_tree_entry(DIRECTORY), Ok(true));
    assert_eq!(judge_tree_entry(FILE), Ok(false));
    assert_eq!(
        judge_tree_entry(Found { is_reparse_point: true, ..DIRECTORY }),
        Err(FileFault::ReparsePoint)
    );
    assert_eq!(
        tree_fault_message(FileFault::ManyLinks, "x"),
        "managed tree contains a multiply-linked file: x"
    );
    assert_eq!(
        directory_fault_message(FileFault::NotDirectory, "state root", "x"),
        "state root is not a directory: x"
    );
    assert_eq!(
        file_fault_message(FileFault::Content, "state marker"),
        "state marker content is invalid"
    );
}

#[test]
fn markers_hold_exactly_their_content() {
    assert_eq!(state_marker(), ".unionc-agent-managed-0.3.2");
    let content = state_marker_content().as_bytes().to_vec();
    assert_eq!(judge_marker_file(FILE, &content), Ok(()));
    assert_eq!(judge_marker_file(FILE, &b"other".to_vec()), Err(FileFault::Content));
    assert_eq!(judge_marker_file(DIRECTORY, &content), Err(FileFault::NotRegular));
    assert_eq!(purge_started(None), Some(false));
    assert_eq!(purge_started(Some(purge_started_content().as_bytes().to_vec())), Some(true));
    assert_eq!(purge_started(Some(content)), None);
}

fn entry(path: &str, depth: usize) -> AclEntry {
    AclEntry {
        path: path.encode_utf16().collect(),
        depth,
        plain: true,
        is_directory: depth < 2,
        sddl: "O:SY".into(),
    }
}

#[test]
fn saved_access_lists_are_judged_before_they_are_restored() {
    let entries = vec![entry("a\\b", 2), entry("", 0), entry("a", 1)];
    assert_eq!(judge_acl_snapshot(2, "0.3.2", &entries), Ok(()));
    assert_eq!(judge_acl_snapshot(1, "0.3.2", &entries), Err(AclFault::Version));
    assert_eq!(judge_acl_snapshot(2, "0.3.1", &entries), Err(AclFault::Version));
    assert_eq!(judge_acl_snapshot(2, "0.3.2", &vec![]), Err(AclFault::Empty));
    assert_eq!(
        judge_acl_snapshot(2, "0.3.2", &vec![entry("", 0), entry("", 0)]),
        Err(AclFault::Duplicate)
    );
    assert_eq!(judge_acl_snapshot(2, "0.3.2", &vec![entry("a", 1)]), Err(AclFault::NoRoot));
    assert_eq!(restoration_order(&entries), vec![1, 2, 0]);
    let sorted = sort_entries(entries);
    let depths: Vec<usize> = sorted.iter().map(|item| item.depth).collect();
    assert_eq!(depths, vec![0, 1, 2]);
    assert!(snapshot_supported(2, "0.3.2"));
    assert!(!snapshot_supported(3, "0.3.2"));

    assert_eq!(judge_acl_target(&entry("a", 1), DIRECTORY), Ok(()));
    assert_eq!(
        judge_acl_target(&AclEntry { plain: false, ..entry("..", 1) }, DIRECTORY),
        Err(AclFault::NotRelative)
    );
    assert_eq!(
        judge_acl_target(&entry("a", 1), Found { is_reparse_point: true, ..DIRECTORY }),
        Err(AclFault::Reparse)
    );
    assert_eq!(judge_acl_target(&entry("a", 1), FILE), Err(AclFault::TypeChanged));
    assert_eq!(
        judge_acl_target(&entry("a\\b", 2), Found { links: 2, ..FILE }),
        Err(AclFault::ManyLinks)
    );
}

// ---------------------------------------------------------------------------
// Transactions
// ---------------------------------------------------------------------------
fn words(given: &[&str]) -> Vec<String> {
    given.iter().map(|item| item.to_string()).collect()
}

#[test]
fn commands_are_named_alone() {
    assert_eq!(
        parse_command(&words(&["rollback-purge"])),
        Ok(MaintenanceCommand::RollbackPurge)
    );
    assert_eq!(parse_command(&words(&[])), Err(CommandFault::Missing));
    assert_eq!(parse_command(&words(&["commit-purge", "x"])), Err(CommandFault::Arguments));
    assert_eq!(parse_command(&words(&["purge"])), Err(CommandFault::Unknown));
    assert_eq!(CommandFault::Missing.message(), "expected one maintenance command");
    assert_eq!(
        rollback_incomplete_message(&words(&["a", "b"])),
        "rollback was incomplete; the protected journal was retained: a; b"
    );
    assert!(quarantine_remains_message("x").contains('x'));
    assert_eq!(Absence::StaleInstallJournal.label(), "stale install journal");
    assert_eq!(Absence::ReplacementState.root(), Root::State);
}

/// Answers each operation until the transaction ends, and tells the operations in their order.
fn run<F: Fn(Operation) -> Answer>(kind: Kind, answer: F) -> Vec<Operation> {
    let mut transaction = Transaction::begin(kind);
    let mut operation = transaction.step(Answer::Done);
    let mut taken = Vec::new();
    loop {
        taken.push(operation);
        match operation {
            Operation::Finish | Operation::Fail(_) | Operation::FailWithError => return taken,
            _ => operation = transaction.step(answer(operation)),
        }
    }
}

fn last(taken: &[Operation]) -> Operation {
    *taken.last().unwrap()
}

/// An answer as a sound installation gives it.
fn installed(operation: Operation) -> Answer {
    match operation {
        Operation::QuerySidType => Answer::SidType(1),
        Operation::ReadInstallSnapshot => Answer::Install(InstallSnapshot {
            program_existed: true,
            state_existed: true,
            original_service_sid_type: Some(1),
            original_failure_actions_on_non_crash: Some(true),
            original_service_running: true,
            state_acl_saved: true,
        }),
        Operation::ReadUninstallSnapshot => Answer::Uninstall(UninstallSnapshot {
            state_acl_saved: true,
            service_was_running: true,
        }),
        Operation::LookFor(_)
        | Operation::Exists(_)
        | Operation::OpenService
        | Operation::LookForMarker
        | Operation::QueryActive
        | Operation::QueryFailurePolicy
        | Operation::QueryPurgeStarted
        | Operation::AclSaved(_)
        | Operation::FreshStateLeft
        | Operation::StateHoldsAnything
        | Operation::AwaitStable => Answer::Said(true),
        _ => Answer::Done,
    }
}

#[test]
fn a_coherent_installation_is_prepared() {
    let taken = run(Kind::Command(MaintenanceCommand::PrepareInstall), installed);
    assert_eq!(last(&taken), Operation::Finish);
    let journal =
        taken.iter().position(|item| *item == Operation::CreateJournal(Root::Journal)).unwrap();
    assert!(taken[..journal].contains(&Operation::ValidateMarker { service_access: true }));
    assert_eq!(
        &taken[journal..],
        &[
            Operation::CreateJournal(Root::Journal),
            Operation::WriteSnapshot,
            Operation::VerifySnapshot,
            Operation::SaveAcl(Root::State),
            Operation::SaveAcl(Root::Program),
            Operation::VerifyJournal,
            Operation::Finish,
        ]
    );
}

#[test]
fn an_incoherent_installation_is_refused_before_anything_changes() {
    for (missing, fault) in [
        (Operation::OpenService, TransactionFault::ProgramNotOwned),
        (Operation::LookFor(Root::State), TransactionFault::NoTrustedState),
    ] {
        let taken = run(Kind::Command(MaintenanceCommand::PrepareInstall), |operation| {
            if operation == missing {
                Answer::Said(false)
            } else {
                installed(operation)
            }
        });
        assert_eq!(last(&taken), Operation::Fail(fault));
        assert!(!taken.contains(&Operation::CreateJournal(Root::Journal)));
    }
    let taken = run(Kind::Command(MaintenanceCommand::PrepareInstall), |operation| {
        if operation == Operation::QuerySidType {
            Answer::SidType(3)
        } else {
            installed(operation)
        }
    });
    assert_eq!(last(&taken), Operation::Fail(TransactionFault::ExistingSidType));
}

#[test]
fn nothing_is_undone_without_a_journal() {
    for (command, journal) in [
        (MaintenanceCommand::RollbackInstall, Root::Journal),
        (MaintenanceCommand::CommitInstall, Root::Journal),
        (MaintenanceCommand::RollbackUninstall, Root::UninstallJournal),
        (MaintenanceCommand::CommitUninstall, Root::UninstallJournal),
    ] {
        let taken = run(Kind::Command(command), |_| Answer::Said(false));
        assert_eq!(taken, vec![Operation::Exists(journal), Operation::Finish]);
    }
}

#[test]
fn an_incomplete_rollback_goes_on_and_keeps_its_journal() {
    let taken = run(Kind::Command(MaintenanceCommand::RollbackInstall), |operation| {
        if operation == Operation::RestoreAcl(Root::State) {
            Answer::Failed
        } else {
            installed(operation)
        }
    });
    assert!(taken.contains(&Operation::RestoreAcl(Root::Program)));
    assert!(taken.contains(&Operation::RestoreService));
    assert!(!taken.contains(&Operation::RemoveTree(Root::Journal)));
    assert_eq!(last(&taken), Operation::Fail(TransactionFault::RollbackIncomplete));

    let taken = run(Kind::Command(MaintenanceCommand::RollbackInstall), installed);
    assert_eq!(
        &taken[taken.len() - 2..],
        &[Operation::RemoveTree(Root::Journal), Operation::Finish]
    );
}

#[test]
fn a_failed_preservation_restores_the_access_list() {
    let taken = run(Kind::Command(MaintenanceCommand::PreserveState), |operation| {
        if operation == Operation::SecureStateForAdministrators {
            Answer::Failed
        } else {
            installed(operation)
        }
    });
    assert_eq!(
        &taken[taken.len() - 4..],
        &[
            Operation::AclSaved(Root::State),
            Operation::RestoreAcl(Root::State),
            Operation::DiscardJournal(Root::UninstallJournal),
            Operation::Fail(TransactionFault::PreservationFailed),
        ]
    );
}

#[test]
fn every_command_finishes_or_tells_why() {
    for (command, fails) in [
        (MaintenanceCommand::ApplyInstall, false),
        (MaintenanceCommand::RollbackInstall, false),
        (MaintenanceCommand::CommitInstall, false),
        (MaintenanceCommand::PreflightUninstall, false),
        (MaintenanceCommand::RollbackUninstallPreflight, false),
        (MaintenanceCommand::PreserveState, false),
        (MaintenanceCommand::RollbackUninstall, false),
        (MaintenanceCommand::CommitUninstall, false),
        (MaintenanceCommand::PreparePurge, false),
        (MaintenanceCommand::CommitPurge, false),
    ] {
        let taken = run(Kind::Command(command), installed);
        assert_eq!(last(&taken) != Operation::Finish, fails, "{command:?}: {taken:?}");
    }
}

#[test]
fn a_service_moves_only_where_it_must() {
    for running in [false, true] {
        let restoration =
            Restoration { sid_type: 1, policy: true, running, secure_program: false };
        let taken = run(Kind::RestoreService(restoration), |operation| {
            if operation == Operation::AwaitStable {
                Answer::Said(running)
            } else {
                installed(operation)
            }
        });
        assert_eq!(last(&taken), Operation::Finish);
        assert!(!taken.contains(&Operation::StartService));
        assert!(!taken.contains(&Operation::StopService));
        let taken = run(Kind::RestoreService(restoration), |operation| {
            if operation == Operation::AwaitStable {
                Answer::Said(!running)
            } else {
                installed(operation)
            }
        });
        assert_eq!(taken.contains(&Operation::StartService), running);
        assert_eq!(taken.contains(&Operation::StopService), !running);
    }
}
