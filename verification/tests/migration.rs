use migrate_to_uv::errors::{manage_migration_errors, manage_migration_warnings, unrecoverable_errors, MigrationError};
use migrate_to_uv::migration::{
    convert_to_uv_step, delete_migrated_files, dry_run_output, lock_dependencies, lock_failure_message,
    migration_outcome_message, remove_constraint_dependencies, revert_changes, MigrationAction,
    MigrationEvent, RevertPlan,
};
use migrate_to_uv::options::{ConverterOptions, LockType};

#[test]
fn migration_course() {
    let options = ConverterOptions::default();
    assert_eq!(convert_to_uv_step(&options, MigrationEvent::PyprojectBuilt), MigrationAction::WritePyproject);
    assert_eq!(convert_to_uv_step(&options, MigrationEvent::PyprojectWritten), MigrationAction::LockDependencies);
    assert_eq!(
        convert_to_uv_step(&options, MigrationEvent::LockFinished { succeeded: true }),
        MigrationAction::RemoveConstraintDependencies
    );
    assert_eq!(
        convert_to_uv_step(&options, MigrationEvent::LockFinished { succeeded: false }),
        MigrationAction::RevertChanges
    );
    assert_eq!(convert_to_uv_step(&options, MigrationEvent::ConstraintsRemoved), MigrationAction::DeleteMigratedFiles);
    assert_eq!(convert_to_uv_step(&options, MigrationEvent::MigratedFilesDeleted), MigrationAction::ReportOutcome);
    let dry = ConverterOptions { dry_run: true, ..Default::default() };
    assert_eq!(convert_to_uv_step(&dry, MigrationEvent::PyprojectBuilt), MigrationAction::PrintDryRun);
}

#[test]
fn test_revert_changes_no_pyproject() {
    let options = ConverterOptions::default();
    assert_eq!(
        convert_to_uv_step(&options, MigrationEvent::LockFinished { succeeded: false }),
        MigrationAction::RevertChanges
    );
    // No `pyproject.toml` existed before the migration: the one written is removed.
    assert!(matches!(revert_changes(false, None), RevertPlan::Remove));
    assert_eq!(
        lock_failure_message(),
        "Could not lock dependencies, aborting the migration. Consider using \"\u{1b}[1m--ignore-locked-versions\u{1b}[0m\" if you don't need to keep versions from the lock file, or \"\u{1b}[1m--skip-lock\u{1b}[0m\" if you don't want to lock dependencies at all."
    );
}

#[test]
fn revert_removes_new_pyproject() {
    assert!(matches!(revert_changes(false, None), RevertPlan::Remove));
}

#[test]
fn revert_restores_former_pyproject() {
    let old = b"[project]\nname = \"foo\"\n".to_vec();
    match revert_changes(true, Some(old.clone())) {
        RevertPlan::Restore(content) => assert_eq!(content, old),
        RevertPlan::Remove => panic!("the former pyproject.toml must be restored"),
    }
}

#[test]
fn files_deleted_unless_kept() {
    let files = vec!["poetry.lock".to_string(), "poetry.toml".to_string()];
    assert_eq!(delete_migrated_files(&ConverterOptions::default(), files.clone()), files);
    let keep = ConverterOptions { keep_old_metadata: true, ..Default::default() };
    assert!(delete_migrated_files(&keep, files).is_empty());
}

#[test]
fn lock_plan() {
    let options = ConverterOptions::default();
    assert_eq!(lock_dependencies(&options, true), Some(LockType::LockWithConstraints));
    assert_eq!(lock_dependencies(&options, false), Some(LockType::LockWithoutConstraints));
    let skip = ConverterOptions { skip_lock: true, ..Default::default() };
    assert_eq!(lock_dependencies(&skip, true), None);
}

#[test]
fn constraint_removal_plan() {
    let options = ConverterOptions::default();
    assert_eq!(remove_constraint_dependencies(&options, true), (true, Some(LockType::ConstraintsRemoval)));
    assert_eq!(remove_constraint_dependencies(&options, false), (false, None));
    let skip = ConverterOptions { skip_lock: true, ..Default::default() };
    assert_eq!(remove_constraint_dependencies(&skip, true), (true, None));
}

#[test]
fn messages() {
    assert_eq!(dry_run_output("[project]\n"), "\u{1b}[1mMigrated pyproject.toml:\u{1b}[0m\n[project]\n");
    assert_eq!(
        lock_failure_message(),
        "Could not lock dependencies, aborting the migration. Consider using \"\u{1b}[1m--ignore-locked-versions\u{1b}[0m\" if you don't need to keep versions from the lock file, or \"\u{1b}[1m--skip-lock\u{1b}[0m\" if you don't want to lock dependencies at all."
    );
    assert_eq!(
        migration_outcome_message("Poetry", false),
        "\u{1b}[32m\u{1b}[1mSuccessfully migrated project from Poetry to uv!\n\u{1b}[0m\u{1b}[39m"
    );
    assert_eq!(
        migration_outcome_message("pip", true),
        "\u{1b}[33m\u{1b}[1mPartially migrated project from pip to uv, as errors occurred during the migration.\n\u{1b}[0m\u{1b}[39m"
    );
}

fn err(message: &str, recoverable: bool) -> MigrationError {
    MigrationError::new(message.to_string(), recoverable)
}

#[test]
fn errors_report() {
    let errors = vec![err("w1", true), err("e1", false), err("w2", true), err("e2", false)];
    assert_eq!(unrecoverable_errors(&errors), vec!["e1", "e2"]);
    assert_eq!(manage_migration_warnings(&errors), vec!["w1", "w2"]);
    let report = manage_migration_errors(&errors, false);
    assert!(report.had_errors && report.abort);
    assert_eq!(
        report.lines,
        vec![
            "Could not automatically migrate the project to uv because of the following errors:",
            "- e1",
            "- e2"
        ]
    );
    let report = manage_migration_errors(&errors, true);
    assert!(report.had_errors && !report.abort);
    assert_eq!(report.lines[0], "The following errors occurred during the migration:");
}

#[test]
fn only_warnings_do_not_stop() {
    let errors = vec![err("w1", true)];
    let report = manage_migration_errors(&errors, false);
    assert!(!report.had_errors && !report.abort && report.lines.is_empty());
    let report = manage_migration_errors(&vec![], false);
    assert!(!report.had_errors && !report.abort);
}
