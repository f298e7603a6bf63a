//! The course of a migration: which step follows which, what is undone when locking fails,
//! which files go, how uv locks, and what the user is told.
use crate::options::{ConverterOptions, LockType};
use crate::style::{bold, bold_text, green, green_text, yellow, yellow_text};
use vstd::prelude::*;
use vstd::string::*;

verus! {

/// What has just happened in a migration.
#[derive(Clone, Copy, PartialEq, Eq, Debug, Structural)]
pub enum MigrationEvent {
    /// The migrated `pyproject.toml` was built, and the errors were dealt with.
    PyprojectBuilt,
    /// The migrated `pyproject.toml` was written.
    PyprojectWritten,
    /// Locking the dependencies with uv ended, successfully or not.
    LockFinished { succeeded: bool },
    /// The constraints kept from the former lock file were removed.
    ConstraintsRemoved,
    /// The former package manager's files were deleted.
    MigratedFilesDeleted,
}

/// What a migration does next.
#[derive(Clone, Copy, PartialEq, Eq, Debug, Structural)]
pub enum MigrationAction {
    /// Print the migrated `pyproject.toml` and the warnings, and stop: nothing is written.
    PrintDryRun,
    /// Write the migrated `pyproject.toml`.
    WritePyproject,
    /// Lock the dependencies with uv.
    LockDependencies,
    /// Put `pyproject.toml` back as it was, report the failure and stop with an error.
    RevertChanges,
    /// Remove the constraints kept from the former lock file.
    RemoveConstraintDependencies,
    /// Delete the former package manager's files.
    DeleteMigratedFiles,
    /// Report how the migration went, then the warnings.
    ReportOutcome,
}

/// The step that follows `event`.
pub open spec fn next_action(dry_run: bool, event: MigrationEvent) -> MigrationAction {
    match event {
        MigrationEvent::PyprojectBuilt => if dry_run {
            MigrationAction::PrintDryRun
        } else {
            MigrationAction::WritePyproject
        },
        MigrationEvent::PyprojectWritten => MigrationAction::LockDependencies,
        MigrationEvent::LockFinished { succeeded } => if succeeded {
            MigrationAction::RemoveConstraintDependencies
        } else {
            MigrationAction::RevertChanges
        },
        MigrationEvent::ConstraintsRemoved => MigrationAction::DeleteMigratedFiles,
        MigrationEvent::MigratedFilesDeleted => MigrationAction::ReportOutcome,
    }
}

/// Performs the conversion from the current package manager to uv, one step at a time: the
/// step to take after `event`. In a dry run the migrated `pyproject.toml` is only printed; if
/// locking fails, the changes are reverted and the migration aborts.
pub fn convert_to_uv_step(options: &ConverterOptions, event: MigrationEvent) -> (r:
    MigrationAction)
    ensures
        r == next_action(options.dry_run, event),
{
    match event {
        MigrationEvent::PyprojectBuilt => if options.dry_run {
            MigrationAction::PrintDryRun
        } else {
            MigrationAction::WritePyproject
        },
        MigrationEvent::PyprojectWritten => MigrationAction::LockDependencies,
        MigrationEvent::LockFinished { succeeded } => if succeeded {
            MigrationAction::RemoveConstraintDependencies
        } else {
            MigrationAction::RevertChanges
        },
        MigrationEvent::ConstraintsRemoved => MigrationAction::DeleteMigratedFiles,
        MigrationEvent::MigratedFilesDeleted => MigrationAction::ReportOutcome,
    }
}

/// How `pyproject.toml` is put back when a migration is aborted.
#[derive(Clone, Debug)]
pub enum RevertPlan {
    /// Write back the former content.
    Restore(Vec<u8>),
    /// There was no `pyproject.toml`: delete the one written.
    Remove,
}

/// Revert any change made, in case the migration is aborted after some files have already been
/// modified: the former `pyproject.toml` is written back, or, when there was none, the new one
/// is removed. `old_pyproject` is the former content, which is known whenever there was a file.
pub fn revert_changes(had_pyproject: bool, old_pyproject: Option<Vec<u8>>) -> (r: RevertPlan)
    requires
        had_pyproject ==> old_pyproject is Some,
    ensures
        had_pyproject ==> (r matches RevertPlan::Restore(content) && content@
            == old_pyproject->0@),
        !had_pyproject ==> r is Remove,
{
    if had_pyproject {
        match old_pyproject {
            Some(content) => RevertPlan::Restore(content),
            None => RevertPlan::Remove,
        }
    } else {
        RevertPlan::Remove
    }
}

/// Files tied to the current package manager to delete at the end of the migration: all of
/// `files`, unless the user has chosen to keep the current package manager's data.
pub fn delete_migrated_files(options: &ConverterOptions, files: Vec<String>) -> (r: Vec<String>)
    ensures
        options.keep_old_metadata ==> r@.len() == 0,
        !options.keep_old_metadata ==> r@ == files@,
{
    if options.keep_old_metadata {
        return Vec::new();
    }
    files
}

/// How the dependencies are locked with uv: not at all when the user opted out of it; keeping
/// the versions of the former lock file when the converter respects them.
pub fn lock_dependencies(options: &ConverterOptions, respect_locked_versions: bool) -> (r: Option<
    LockType,
>)
    ensures
        r == (if options.skip_lock {
            None
        } else if respect_locked_versions {
            Some(LockType::LockWithConstraints)
        } else {
            Some(LockType::LockWithoutConstraints)
        }),
{
    let lock_type = if respect_locked_versions {
        LockType::LockWithConstraints
    } else {
        LockType::LockWithoutConstraints
    };
    if options.skip_lock {
        return None;
    }
    Some(lock_type)
}

/// Whether the `constraint-dependencies` of `[tool.uv]` are removed once locked (only when the
/// converter respected the former locked versions), and how the dependencies are then locked
/// again to remove the constraints from the lock file (not when the user opted out of locking).
pub fn remove_constraint_dependencies(options: &ConverterOptions, respect_locked_versions: bool) -> (r: (
    bool,
    Option<LockType>,
))
    ensures
        r.0 == respect_locked_versions,
        r.1 == (if respect_locked_versions && !options.skip_lock {
            Some(LockType::ConstraintsRemoval)
        } else {
            None
        }),
{
    if !respect_locked_versions {
        return (false, None);
    }
    if options.skip_lock {
        (true, None)
    } else {
        (true, Some(LockType::ConstraintsRemoval))
    }
}

/// What a dry run prints: a bold title, then the migrated `pyproject.toml`.
pub open spec fn dry_run_text(pyproject: Seq<char>) -> Seq<char> {
    bold_text("Migrated pyproject.toml:"@) + "\n"@ + pyproject
}

/// The output of a dry run.
pub fn dry_run_output(updated_pyproject: &str) -> (r: String)
    ensures
        r@ == dry_run_text(updated_pyproject@),
{
    let mut r = bold("Migrated pyproject.toml:");
    r.append("\n");
    r.append(updated_pyproject);
    r
}

/// The error reported when locking fails and the migration is aborted.
pub open spec fn lock_failure_text() -> Seq<char> {
    "Could not lock dependencies, aborting the migration. Consider using \""@ + bold_text(
        "--ignore-locked-versions"@,
    ) + "\" if you don't need to keep versions from the lock file, or \""@ + bold_text(
        "--skip-lock"@,
    ) + "\" if you don't want to lock dependencies at all."@
}

/// The error reported when locking fails.
pub fn lock_failure_message() -> (r: String)
    ensures
        r@ == lock_failure_text(),
{
    let mut r = String::from_str(
        "Could not lock dependencies, aborting the migration. Consider using \"",
    );
    let ignore = bold("--ignore-locked-versions");
    r.append(ignore.as_str());
    r.append("\" if you don't need to keep versions from the lock file, or \"");
    let skip = bold("--skip-lock");
    r.append(skip.as_str());
    r.append("\" if you don't want to lock dependencies at all.");
    r
}

/// The final report of a migration from `package_manager`: in bold yellow when some errors
/// were ignored, in bold green otherwise.
pub open spec fn outcome_text(package_manager: Seq<char>, had_errors: bool) -> Seq<char> {
    if had_errors {
        yellow_text(
            bold_text(
                "Partially migrated project from "@ + package_manager
                    + " to uv, as errors occurred during the migration.\n"@,
            ),
        )
    } else {
        green_text(
            bold_text("Successfully migrated project from "@ + package_manager + " to uv!\n"@),
        )
    }
}

/// The final report of a migration.
pub fn migration_outcome_message(package_manager: &str, had_errors: bool) -> (r: String)
    ensures
        r@ == outcome_text(package_manager@, had_errors),
{
    if had_errors {
        let mut text = String::from_str("Partially migrated project from ");
        text.append(package_manager);
        text.append(" to uv, as errors occurred during the migration.\n");
        let styled = bold(text.as_str());
        yellow(styled.as_str())
    } else {
        let mut text = String::from_str("Successfully migrated project from ");
        text.append(package_manager);
        text.append(" to uv!\n");
        let styled = bold(text.as_str());
        green(styled.as_str())
    }
}

/// The course of a migration that is not a dry run and whose locking succeeds: write
/// `pyproject.toml`, lock, remove the constraints, delete the former files, report. A dry run
/// writes nothing, and a failed locking reverts the changes.
pub proof fn law_migration_course()
    ensures
        next_action(false, MigrationEvent::PyprojectBuilt) == MigrationAction::WritePyproject,
        next_action(false, MigrationEvent::PyprojectWritten) == MigrationAction::LockDependencies,
        next_action(false, MigrationEvent::LockFinished { succeeded: true })
            == MigrationAction::RemoveConstraintDependencies,
        next_action(false, MigrationEvent::ConstraintsRemoved)
            == MigrationAction::DeleteMigratedFiles,
        next_action(false, MigrationEvent::MigratedFilesDeleted) == MigrationAction::ReportOutcome,
        next_action(true, MigrationEvent::PyprojectBuilt) == MigrationAction::PrintDryRun,
        forall|dry_run: bool|
            next_action(dry_run, MigrationEvent::LockFinished { succeeded: false })
                == MigrationAction::RevertChanges,
{
}

} // verus!
