//! The options a user chooses for a migration, and the questions the converters ask of them.
use vstd::prelude::*;

verus! {

/// How development dependency groups are written for uv.
#[derive(Clone, Copy, PartialEq, Eq, Debug, Structural)]
pub enum DependencyGroupsStrategy {
    SetDefaultGroupsAll,
    SetDefaultGroups,
    IncludeInDev,
    KeepExisting,
    MergeIntoDev,
}

/// The build backend a user asks the migration to use.
#[derive(Clone, Copy, PartialEq, Eq, Debug, Structural)]
pub enum BuildBackend {
    Hatch,
    Uv,
}

/// How `uv lock` is run.
#[derive(Clone, Copy, PartialEq, Eq, Debug, Structural)]
pub enum LockType {
    /// Lock while keeping the versions of the current lock file, as constraints.
    LockWithConstraints,
    /// Lock without any constraint.
    LockWithoutConstraints,
    /// Lock again, after the constraints were removed from `pyproject.toml`.
    ConstraintsRemoval,
}

/// The options chosen by the user for a migration.
#[derive(Debug, Clone, PartialEq, Eq)]
pub struct ConverterOptions {
    pub project_path: String,
    pub dry_run: bool,
    pub skip_lock: bool,
    pub skip_uv_checks: bool,
    pub ignore_locked_versions: bool,
    pub replace_project_section: bool,
    pub keep_current_build_backend: bool,
    pub keep_old_metadata: bool,
    pub ignore_errors: bool,
    pub dependency_groups_strategy: Option<DependencyGroupsStrategy>,
    pub build_backend: Option<BuildBackend>,
}

impl Default for ConverterOptions {
    fn default() -> (r: ConverterOptions)
        ensures
            r.project_path@ == Seq::<char>::empty(),
            !r.dry_run,
            !r.skip_lock,
            !r.skip_uv_checks,
            !r.ignore_locked_versions,
            !r.replace_project_section,
            !r.keep_current_build_backend,
            !r.keep_old_metadata,
            !r.ignore_errors,
            r.dependency_groups_strategy is None,
            r.build_backend is None,
    {
        ConverterOptions {
            project_path: String::new(),
            dry_run: false,
            skip_lock: false,
            skip_uv_checks: false,
            ignore_locked_versions: false,
            replace_project_section: false,
            keep_current_build_backend: false,
            keep_old_metadata: false,
            ignore_errors: false,
            dependency_groups_strategy: None,
            build_backend: None,
        }
    }
}

impl ConverterOptions {
    /// Path to the project to migrate.
    pub fn get_project_path(&self) -> (r: String)
        ensures
            r@ == self.project_path@,
    {
        self.project_path.clone()
    }

    /// Whether the changes are printed out instead of made for real.
    pub fn is_dry_run(&self) -> (r: bool)
        ensures
            r == self.dry_run,
    {
        self.dry_run
    }

    /// Whether locking dependencies at the end of the migration is skipped.
    pub fn skip_lock(&self) -> (r: bool)
        ensures
            r == self.skip_lock,
    {
        self.skip_lock
    }

    /// Whether an existing `[project]` section is replaced instead of completed.
    pub fn replace_project_section(&self) -> (r: bool)
        ensures
            r == self.replace_project_section,
    {
        self.replace_project_section
    }

    /// Whether the current build backend is kept.
    pub fn keep_current_build_backend(&self) -> (r: bool)
        ensures
            r == self.keep_current_build_backend,
    {
        self.keep_current_build_backend
    }

    /// Whether the current package manager's data is kept at the end of the migration.
    pub fn keep_old_metadata(&self) -> (r: bool)
        ensures
            r == self.keep_old_metadata,
    {
        self.keep_old_metadata
    }

    /// Whether the migration goes on in spite of errors.
    pub fn ignore_errors(&self) -> (r: bool)
        ensures
            r == self.ignore_errors,
    {
        self.ignore_errors
    }

    /// Whether the versions locked by the current package manager are kept when locking with
    /// uv (the default for package managers that have a lock file).
    pub fn respect_locked_versions(&self) -> (r: bool)
        ensures
            r == !self.ignore_locked_versions,
    {
        !self.ignore_locked_versions
    }

    /// Strategy used to write development dependency groups.
    pub fn get_dependency_groups_strategy(&self) -> (r: Option<DependencyGroupsStrategy>)
        ensures
            r == self.dependency_groups_strategy,
    {
        self.dependency_groups_strategy
    }
}

} // verus!
