//! Migration of projects managed with Poetry.
use crate::build_backend::{
    backend_name, build_system_view, chosen_build_backend, get_build_backend,
    get_new_build_system, hatch_chosen, migrated_build_system, BackendAttempt, BuildBackendObject,
    BuildSystem,
};
use crate::errors::{errors_view, MigrationError, MigrationErrorView};
use crate::project::{built_project, License, Project, UvSettings};
use indexmap::IndexMap;
use crate::options::ConverterOptions;
use crate::pyproject_doc::{
    holds_entry, is_table, lemma_without_absent_key, lemma_without_key_append, parse_pyproject,
    remove_entry, remove_subtable_key, subtable_entries, subtable_key_list, subtable_keys,
    table_at, text_without_entry, toml_document, without_key,
};
use crate::style::{bold, bold_text};
use crate::text::str_eq;
use toml_edit::DocumentMut;
use vstd::prelude::*;
use vstd::string::*;

verus! {

/// A project managed with Poetry.
#[derive(Debug, Clone, PartialEq, Eq)]
pub struct Poetry {
    pub converter_options: ConverterOptions,
}

/// Whether the item under `tool` is a table.
pub open spec fn tool_table_present(doc: DocumentMut) -> bool {
    table_at(doc, "tool"@)
}

/// Whether the `tool` table holds an item `poetry`, of any kind.
pub open spec fn tool_has_poetry(doc: DocumentMut) -> bool {
    holds_entry(doc, "tool"@, "poetry"@)
}

/// The keys of `tool.poetry`, in document order, when `tool` and `tool.poetry` are both
/// tables; `None` otherwise.
pub open spec fn poetry_table_keys(doc: DocumentMut) -> Option<Seq<Seq<char>>> {
    subtable_keys(doc, "tool"@, "poetry"@)
}

/// The entries of `tool.poetry`, rendered with their comments, by key.
pub open spec fn poetry_entries(doc: DocumentMut) -> Map<Seq<char>, Seq<char>> {
    subtable_entries(doc, "tool"@, "poetry"@)
}

/// What the document holds apart from `tool.poetry`.
pub open spec fn doc_outside_poetry(doc: DocumentMut) -> Seq<char> {
    text_without_entry(doc, "tool"@, "poetry"@)
}

/// A package pinned in `poetry.lock`.
#[derive(Debug, Clone)]
pub struct LockedPackage {
    pub name: String,
    pub version: String,
}

/// What was found of `poetry.lock`.
#[derive(Debug, Clone)]
pub enum PoetryLockContent {
    /// There is no `poetry.lock`.
    Missing,
    /// `poetry.lock` could not be parsed.
    Unparsable,
    /// The packages pinned in `poetry.lock`.
    Parsed(Vec<LockedPackage>),
}

/// The constraint that pins `package` to its locked version.
pub open spec fn pin(package: LockedPackage) -> Seq<char> {
    package.name@ + "=="@ + package.version@
}

/// The warning given when `poetry.lock` cannot be parsed.
pub open spec fn unparsable_lock_message() -> Seq<char> {
    "\""@ + bold_text("poetry.lock"@)
        + "\" could not be parsed, so dependencies were not kept to their previous locked versions."@
}

/// Whether `poetry.lock` is read to constrain the dependencies: not in a dry run, nor when the
/// user asked to ignore locked versions.
pub open spec fn poetry_reads_lock(options: ConverterOptions) -> bool {
    !options.dry_run && !options.ignore_locked_versions
}

/// The constraints that keep the dependencies at the versions `poetry.lock` pins, and the
/// warning given when that file cannot be parsed: nothing when `poetry.lock` is not read, is
/// missing or pins nothing.
pub open spec fn lock_constraints(options: ConverterOptions, lock: PoetryLockContent) -> (
    Option<Seq<Seq<char>>>,
    Option<MigrationErrorView>,
) {
    if !poetry_reads_lock(options) {
        (None, None)
    } else {
        match lock {
            PoetryLockContent::Missing => (None, None),
            PoetryLockContent::Unparsable => (
                None,
                Some(MigrationErrorView { error: unparsable_lock_message(), recoverable: true }),
            ),
            PoetryLockContent::Parsed(packages) => if packages@.len() == 0 {
                (None, None)
            } else {
                (Some(packages@.map_values(|p: LockedPackage| pin(p))), None)
            },
        }
    }
}

/// The view of an optional error.
pub open spec fn error_view_of(e: Option<MigrationError>) -> Option<MigrationErrorView> {
    match e {
        Some(e) => Some(e@),
        None => None,
    }
}

/// The keys of `[tool.poetry]` that configure Poetry's build backend.
pub open spec fn build_key(key: Seq<char>) -> bool {
    key == "packages"@ || key == "include"@ || key == "exclude"@
}

/// The keys among `keys` that configure Poetry's build backend, in order.
pub open spec fn build_keys(keys: Seq<Seq<char>>) -> Seq<Seq<char>>
    decreases keys.len(),
{
    if keys.len() == 0 {
        Seq::empty()
    } else {
        let rest = build_keys(keys.drop_last());
        if build_key(keys.last()) {
            rest.push(keys.last())
        } else {
            rest
        }
    }
}

/// The keys of `[tool.poetry]` left after the migration, when the build backend is kept: those
/// that configure the build backend, or no section at all when there is none of them.
pub open spec fn remaining_poetry_keys(keys: Option<Seq<Seq<char>>>) -> Option<Seq<Seq<char>>> {
    match keys {
        Some(ks) => if build_keys(ks).len() > 0 {
            Some(build_keys(ks))
        } else {
            None
        },
        None => None,
    }
}

/// Every key that [`build_keys`] keeps configures the build backend.
pub proof fn lemma_build_keys_are_build_keys(keys: Seq<Seq<char>>)
    ensures
        forall|k: Seq<char>| build_keys(keys).contains(k) ==> build_key(k),
    decreases keys.len(),
{
    if keys.len() > 0 {
        lemma_build_keys_are_build_keys(keys.drop_last());
        let rest = build_keys(keys.drop_last());
        if build_key(keys.last()) {
            assert forall|k: Seq<char>| rest.push(keys.last()).contains(k) implies build_key(k) by {
                let j = choose|j: int| 0 <= j < rest.push(keys.last()).len() && rest.push(
                    keys.last(),
                )[j] == k;
                if j < rest.len() {
                    assert(rest.contains(rest[j]));
                }
            }
        }
    }
}

fn is_build_key(key: &str) -> (r: bool)
    ensures
        r == build_key(key@),
{
    str_eq(key, "packages") || str_eq(key, "include") || str_eq(key, "exclude")
}

/// What removing the `[tool.poetry]` section does to a document, from `before` to `after`, under
/// the options `options`:
/// - whatever lies outside `tool.poetry` stays as it was, and the entries left in `tool.poetry`
///   are entries it had, with the same values and comments;
/// - nothing changes when the old metadata is kept or `tool` is not a table;
/// - otherwise, when the current build backend is kept, only the keys that configure it stay,
///   and the section goes when none of them is left; the whole section goes when it is not.
pub open spec fn poetry_section_removed(
    options: ConverterOptions,
    before: DocumentMut,
    after: DocumentMut,
) -> bool {
    &&& doc_outside_poetry(after) == doc_outside_poetry(before)
    &&& poetry_entries(after).submap_of(poetry_entries(before))
    &&& options.keep_current_build_backend ==> forall|k: Seq<char>|
        build_key(k) && #[trigger] poetry_entries(before).dom().contains(k) ==> poetry_entries(
            after,
        ).dom().contains(k)
    &&& !options.keep_old_metadata && !options.keep_current_build_backend && tool_table_present(
        before,
    ) ==> poetry_entries(after).dom() == Set::<Seq<char>>::empty()
    &&& options.keep_old_metadata ==> after == before
    &&& !tool_table_present(before) ==> after == before
    &&& tool_table_present(after) == tool_table_present(before)
    &&& !options.keep_old_metadata && tool_table_present(before) ==> poetry_table_keys(after) == (
    if options.keep_current_build_backend {
        remaining_poetry_keys(poetry_table_keys(before))
    } else {
        None
    })
    &&& options.keep_current_build_backend && poetry_table_keys(before) is None ==> after == before
    &&& !options.keep_old_metadata && tool_table_present(before) && poetry_table_keys(after) is None
        && poetry_table_keys(before) is Some ==> !tool_has_poetry(after)
    &&& !options.keep_old_metadata && tool_table_present(before)
        && !options.keep_current_build_backend ==> !tool_has_poetry(after)
}

/// The name of the migrated project: Poetry's, or a default one, as uv requires a name that is
/// not empty.
pub open spec fn project_name_text(name: Option<String>) -> Seq<char> {
    match name {
        Some(n) => n@,
        None => "project"@,
    }
}

/// The version of the migrated project: Poetry's, or a default one.
pub open spec fn project_version_text(version: Option<String>) -> Seq<char> {
    match version {
        Some(v) => v@,
        None => "0.0.1"@,
    }
}

/// An optional error, as a sequence of zero or one error.
pub open spec fn optional_errors(e: Option<MigrationErrorView>) -> Seq<MigrationErrorView> {
    match e {
        Some(e) => seq![e],
        None => Seq::empty(),
    }
}

/// The warning given once the build backend was migrated to `backend`, if it was.
pub open spec fn backend_notices<U, H>(backend: Option<BuildBackendObject<U, H>>) -> Seq<
    MigrationErrorView,
> {
    match backend {
        Some(b) => seq![
            MigrationErrorView { error: build_backend_notice_text(backend_name(b)), recoverable: true },
        ],
        None => Seq::empty(),
    }
}

/// The groups of entry points of Poetry's `plugins`, in order.
pub uninterp spec fn plugin_groups(plugins: IndexMap<String, IndexMap<String, String>>) -> Seq<
    Seq<char>,
>;

/// The entry points of the group `group` of Poetry's `plugins`, names and object references in
/// order, when there is such a group.
pub uninterp spec fn plugin_group(
    plugins: IndexMap<String, IndexMap<String, String>>,
    group: Seq<char>,
) -> Option<Seq<(Seq<char>, Seq<char>)>>;

/// The entry points that a group holds, names and object references in order.
pub uninterp spec fn entry_points_of(group: IndexMap<String, String>) -> Seq<(Seq<char>, Seq<char>)>;

/// Takes the group `group` out of `plugins` (`IndexMap::shift_remove`, which keeps the order
/// of the other groups and leaves them as they are).
#[verifier::external_body]
fn take_plugin_group(plugins: &mut IndexMap<String, IndexMap<String, String>>, group: &str) -> (r:
    Option<IndexMap<String, String>>)
    ensures
        plugin_groups(*final(plugins)) == without_key(plugin_groups(*old(plugins)), group@),
        r is Some == plugin_group(*old(plugins), group@) is Some,
        r matches Some(g) ==> plugin_group(*old(plugins), group@) == Some(entry_points_of(g)),
        plugin_group(*final(plugins), group@) is None,
        forall|k: Seq<char>|
            k != group@ ==> #[trigger] plugin_group(*final(plugins), k) == plugin_group(
                *old(plugins),
                k,
            ),
{
    plugins.shift_remove(group)
}

/// Poetry's `plugins` split as uv's `[project]` section wants them: the console scripts, the
/// GUI scripts, and the other groups of entry points.
pub struct PluginSplit {
    /// The `console_scripts` group, which goes with the scripts.
    pub console_scripts: Option<IndexMap<String, String>>,
    /// The `gui_scripts` group.
    pub gui_scripts: Option<IndexMap<String, String>>,
    /// The other groups, in order.
    pub entry_points: Option<IndexMap<String, IndexMap<String, String>>>,
}

/// Whether `taken` is the group `group` of `plugins`, or `None` when there is no such group.
pub open spec fn group_taken(
    plugins: IndexMap<String, IndexMap<String, String>>,
    group: Seq<char>,
    taken: Option<IndexMap<String, String>>,
) -> bool {
    match taken {
        Some(g) => plugin_group(plugins, group) == Some(entry_points_of(g)),
        None => plugin_group(plugins, group) is None,
    }
}

/// Whether `split` is `plugins` split into console scripts, GUI scripts and the other groups,
/// the latter in their order and unchanged; nothing at all when there are no plugins.
pub open spec fn plugins_split(
    plugins: Option<IndexMap<String, IndexMap<String, String>>>,
    split: PluginSplit,
) -> bool {
    match plugins {
        None => split.console_scripts is None && split.gui_scripts is None
            && split.entry_points is None,
        Some(p) => {
            &&& group_taken(p, "console_scripts"@, split.console_scripts)
            &&& group_taken(p, "gui_scripts"@, split.gui_scripts)
            &&& split.entry_points is Some
            &&& plugin_groups(split.entry_points->0) == without_key(
                without_key(plugin_groups(p), "console_scripts"@),
                "gui_scripts"@,
            )
            &&& plugin_group(split.entry_points->0, "console_scripts"@) is None
            &&& plugin_group(split.entry_points->0, "gui_scripts"@) is None
            &&& forall|k: Seq<char>|
                k != "console_scripts"@ && k != "gui_scripts"@ ==> #[trigger] plugin_group(
                    split.entry_points->0,
                    k,
                ) == plugin_group(p, k)
        },
    }
}

/// Split Poetry's `plugins`: `console_scripts` and `gui_scripts` are taken out, and the other
/// groups are the entry points.
pub fn split_plugins(plugins: Option<IndexMap<String, IndexMap<String, String>>>) -> (r:
    PluginSplit)
    ensures
        plugins_split(plugins, r),
{
    match plugins {
        None => PluginSplit { console_scripts: None, gui_scripts: None, entry_points: None },
        Some(mut p) => {
            let ghost original = p;
            proof {
                reveal_strlit("console_scripts");
                reveal_strlit("gui_scripts");
            }
            assert("console_scripts"@ != "gui_scripts"@) by {
                assert("console_scripts"@[0] != "gui_scripts"@[0]);
            }
            let console_scripts = take_plugin_group(&mut p, "console_scripts");
            let gui_scripts = take_plugin_group(&mut p, "gui_scripts");
            PluginSplit { console_scripts, gui_scripts, entry_points: Some(p) }
        },
    }
}

/// The `[project]` section made of `[tool.poetry]`: `project` named `name`, with Poetry's
/// `license` as a license text, and the GUI scripts and entry points taken from its plugins.
pub open spec fn poetry_project(
    project: Project,
    name: String,
    license: Option<String>,
    gui_scripts: Option<IndexMap<String, String>>,
    entry_points: Option<IndexMap<String, IndexMap<String, String>>>,
) -> Project {
    Project {
        name: Some(name),
        license: match license {
            Some(l) => Some(License::String(l)),
            None => None,
        },
        gui_scripts,
        entry_points,
        ..project
    }
}

/// The parts of the `pyproject.toml` of a project migrated from Poetry.
pub struct UvPyproject<U, H> {
    /// The `[build-system]` section to write, when it changes.
    pub build_system: Option<BuildSystem>,
    /// The build backend the package distribution was migrated to, if any.
    pub build_backend: Option<BuildBackendObject<U, H>>,
    /// The `[project]` section.
    pub project: Project,
    /// The `console_scripts` group of Poetry's plugins, to go with the scripts of `[project]`.
    pub console_scripts: Option<IndexMap<String, String>>,
    /// The `[tool.uv]` settings: whether the project is a package, as Poetry's package mode
    /// says, and the constraints kept from `poetry.lock`.
    pub uv: UvSettings,
    /// The document read, with what the migration removes of `[tool.poetry]` removed.
    pub document: DocumentMut,
}

impl Poetry {
    /// Name of the package manager.
    pub fn get_package_manager_name(&self) -> (r: String)
        ensures
            r@ == "Poetry"@,
    {
        String::from_str("Poetry")
    }

    /// The options chosen by the user for the migration.
    pub fn get_converter_options(&self) -> (r: &ConverterOptions)
        ensures
            r == &self.converter_options,
    {
        &self.converter_options
    }

    /// Whether the versions locked by Poetry are kept when locking with uv.
    pub fn respect_locked_versions(&self) -> (r: bool)
        ensures
            r == !self.converter_options.ignore_locked_versions,
    {
        !self.converter_options.ignore_locked_versions
    }

    /// The files deleted at the end of the migration.
    pub fn get_migrated_files_to_delete(&self) -> (r: Vec<String>)
        ensures
            r.deep_view() == seq!["poetry.lock"@, "poetry.toml"@],
    {
        let mut files: Vec<String> = Vec::new();
        files.push(String::from_str("poetry.lock"));
        files.push(String::from_str("poetry.toml"));
        assert(files.deep_view() =~= seq!["poetry.lock"@, "poetry.toml"@]);
        files
    }

    /// Whether `poetry.lock` is looked for, to keep the dependencies at their locked versions.
    pub fn reads_poetry_lock(&self) -> (r: bool)
        ensures
            r == poetry_reads_lock(self.converter_options),
    {
        !self.converter_options.dry_run && self.respect_locked_versions()
    }

    /// Dependencies constraints to set in `constraint-dependencies` under `[tool.uv]`, to keep
    /// dependencies at the versions `poetry.lock` pins (`lock`), and the warning given when that
    /// file cannot be parsed. No constraint when `poetry.lock` is not read (see
    /// [`Poetry::reads_poetry_lock`]), is missing, cannot be parsed, or pins nothing.
    pub fn get_constraint_dependencies(&self, lock: PoetryLockContent) -> (r: (
        Option<Vec<String>>,
        Option<MigrationError>,
    ))
        ensures
            r.0.deep_view() == lock_constraints(self.converter_options, lock).0,
            error_view_of(r.1) == lock_constraints(self.converter_options, lock).1,
    {
        if !self.reads_poetry_lock() {
            return (None, None);
        }
        match lock {
            PoetryLockContent::Missing => (None, None),
            PoetryLockContent::Unparsable => {
                let mut message = String::from_str("\"");
                let styled = bold("poetry.lock");
                message.append(styled.as_str());
                message.append(
                    "\" could not be parsed, so dependencies were not kept to their previous locked versions.",
                );
                (None, Some(MigrationError::new(message, true)))
            },
            PoetryLockContent::Parsed(packages) => {
                let ghost pins = packages@.map_values(|p: LockedPackage| pin(p));
                let mut constraints: Vec<String> = Vec::new();
                let mut i: usize = 0;
                while i < packages.len()
                    invariant
                        pins == packages@.map_values(|p: LockedPackage| pin(p)),
                        i <= packages.len(),
                        constraints.deep_view() == pins.take(i as int),
                    decreases packages.len() - i,
                {
                    let mut c = packages[i].name.clone();
                    c.append("==");
                    c.append(packages[i].version.as_str());
                    let ghost before = constraints.deep_view();
                    let ghost made = c@;
                    assert(made == pin(packages@[i as int]));
                    assert(pins.take(i + 1) =~= pins.take(i as int).push(made));
                    constraints.push(c);
                    assert(constraints.deep_view() =~= before.push(made));
                    assert(constraints.deep_view() =~= pins.take(i + 1));
                    i = i + 1;
                }
                assert(pins.take(packages.len() as int) =~= pins);
                if constraints.len() == 0 {
                    (None, None)
                } else {
                    (Some(constraints), None)
                }
            },
        }
    }

    /// Build the `pyproject.toml` of the project for uv, from the current one (its text
    /// `pyproject_toml`, with its `[build-system]` and `[project]` sections), from what was made
    /// of `[tool.poetry]` (the `[project]` section `project`, Poetry's project name, version,
    /// license, plugins and package mode), from what the uv and Hatch builders made of the
    /// package distribution, from what was found of `poetry.lock` (`lock`) and from the version
    /// of the installed uv. In order: the build backend is chosen, the build system follows from
    /// it, the constraints are read, the plugins are split, the `[project]` section is built
    /// (with a default name and version when Poetry has none, Poetry's license as a license text,
    /// and the GUI scripts and entry points from the plugins),
    /// `[tool.poetry]` is removed from the document, and the migration of the build backend is
    /// reported. Returns `None` when the text is not TOML.
    pub fn build_uv_pyproject<U, H>(
        &self,
        pyproject_toml: &str,
        current_build_system: Option<BuildSystem>,
        current_project: Option<Project>,
        project: Project,
        poetry_name: Option<String>,
        poetry_version: Option<String>,
        license: Option<String>,
        plugins: Option<IndexMap<String, IndexMap<String, String>>>,
        package_mode: Option<bool>,
        uv: BackendAttempt<U>,
        hatch: BackendAttempt<H>,
        lock: PoetryLockContent,
        uv_version: Option<&str>,
    ) -> (r: Option<(UvPyproject<U, H>, Vec<MigrationError>)>)
        ensures
            r is Some <==> toml_document(pyproject_toml@) is Some,
            r matches Some(built) ==> ({
                let options = self.converter_options;
                let chosen = chosen_build_backend(
                    options.keep_current_build_backend,
                    options.build_backend,
                    options.ignore_errors,
                    uv.backend,
                    uv.errors.deep_view(),
                    hatch.backend,
                    hatch.errors.deep_view(),
                );
                let constraints = lock_constraints(options, lock);
                let m = built.0;
                &&& m.build_backend == chosen.0
                &&& build_system_view(m.build_system) == migrated_build_system(
                    build_system_view(current_build_system),
                    options.keep_current_build_backend,
                    hatch_chosen(chosen.0, options.build_backend),
                    match uv_version {
                        Some(t) => Some(t@),
                        None => None,
                    },
                )
                &&& exists|name: String, version: String, split: PluginSplit|
                    name@ == project_name_text(poetry_name) && version@ == project_version_text(
                        poetry_version,
                    ) && plugins_split(plugins, split) && m.console_scripts == split.console_scripts
                        && m.project == #[trigger] built_project(
                        current_project,
                        poetry_project(
                            project,
                            name,
                            license,
                            split.gui_scripts,
                            split.entry_points,
                        ),
                        version,
                        options.replace_project_section,
                    )
                &&& m.uv.package == package_mode
                &&& m.uv.constraint_dependencies.deep_view() == constraints.0
                &&& poetry_section_removed(options, toml_document(pyproject_toml@)->0, m.document)
                &&& errors_view(built.1@) == chosen.1 + optional_errors(constraints.1)
                    + backend_notices(chosen.0)
            }),
    {
        let mut document = match parse_pyproject(pyproject_toml) {
            Some(d) => d,
            None => {
                return None;
            },
        };
        let ghost parsed = document;
        let (build_backend, mut errors) = get_build_backend(&self.converter_options, uv, hatch);
        let backend_ref = match &build_backend {
            Some(b) => Some(b),
            None => None,
        };
        let build_system = get_new_build_system(
            current_build_system,
            self.converter_options.keep_current_build_backend,
            backend_ref,
            self.converter_options.build_backend,
            uv_version,
        );
        let (constraint_dependencies, lock_error) = self.get_constraint_dependencies(lock);
        let ghost chosen_errors = errors_view(errors@);
        match lock_error {
            Some(e) => {
                errors.push(e);
            },
            None => {},
        }
        assert(errors_view(errors@) =~= chosen_errors + optional_errors(error_view_of(lock_error)));
        let name = match poetry_name {
            Some(n) => n,
            None => String::from_str("project"),
        };
        let version = match poetry_version {
            Some(v) => v,
            None => String::from_str("0.0.1"),
        };
        let split = split_plugins(plugins);
        let ghost name_used = name;
        let ghost version_used = version;
        let ghost from_poetry = project;
        let ghost license_used = license;
        let ghost split_used = split;
        let license = match license {
            Some(l) => Some(License::String(l)),
            None => None,
        };
        let migrated = self.converter_options.build_project(
            current_project,
            Project {
                name: Some(name),
                license,
                gui_scripts: split.gui_scripts,
                entry_points: split.entry_points,
                ..project
            },
            version,
        );
        assert(migrated == built_project(
            current_project,
            poetry_project(
                from_poetry,
                name_used,
                license_used,
                split_used.gui_scripts,
                split_used.entry_points,
            ),
            version_used,
            self.converter_options.replace_project_section,
        ));
        self.remove_pyproject_poetry_section(&mut document);
        let ghost before_notice = errors_view(errors@);
        match &build_backend {
            Some(b) => {
                errors.push(build_backend_notice(b));
            },
            None => {},
        }
        assert(errors_view(errors@) =~= before_notice + backend_notices(build_backend));
        Some(
            (
                UvPyproject {
                    build_system,
                    build_backend,
                    project: migrated,
                    console_scripts: split.console_scripts,
                    uv: UvSettings { package: package_mode, constraint_dependencies },
                    document,
                },
                errors,
            ),
        )
    }

    /// Remove the `[tool.poetry]` section from `pyproject.toml`, unless the user has asked for
    /// the old metadata to be kept. When the current build backend is kept, only the keys that
    /// do not configure it are removed, and the section only goes when none of them is left.
    /// Nothing changes when `tool` is not a table. Whatever lies outside `tool.poetry` stays as
    /// it was, and so do the entries of `tool.poetry` that are kept, values and comments.
    pub fn remove_pyproject_poetry_section(&self, pyproject: &mut DocumentMut)
        ensures
            poetry_section_removed(self.converter_options, *old(pyproject), *final(pyproject)),
    {
        if self.converter_options.keep_old_metadata {
            return;
        }
        if !is_table(pyproject, "tool") {
            return;
        }
        if !self.converter_options.keep_current_build_backend {
            remove_entry(pyproject, "tool", "poetry");
            return;
        }
        let keys = match subtable_key_list(pyproject, "tool", "poetry") {
            Some(keys) => keys,
            None => {
                return;
            },
        };
        let ghost all = keys.deep_view();
        let ghost original = *pyproject;
        let mut found_keys_to_keep = false;
        let mut i: usize = 0;
        assert(all.take(0) =~= Seq::<Seq<char>>::empty());
        assert(build_keys(all.take(0)) + all.skip(0) =~= all);
        while i < keys.len()
            invariant
                all == keys.deep_view(),
                all.no_duplicates(),
                i <= keys.len(),
                tool_table_present(*pyproject),
                poetry_table_keys(*pyproject) == Some(build_keys(all.take(i as int)) + all.skip(
                    i as int,
                )),
                found_keys_to_keep == (build_keys(all.take(i as int)).len() > 0),
                forall|k: Seq<char>|
                    #[trigger] poetry_entries(original).dom().contains(k) <==> all.contains(k),
                doc_outside_poetry(*pyproject) == doc_outside_poetry(original),
                poetry_entries(*pyproject).submap_of(poetry_entries(original)),
                forall|k: Seq<char>|
                    build_key(k) && #[trigger] poetry_entries(original).dom().contains(k)
                        ==> poetry_entries(*pyproject).dom().contains(k),
            decreases keys.len() - i,
        {
            let ghost kept = build_keys(all.take(i as int));
            let ghost key = all[i as int];
            assert(all.take(i + 1).drop_last() =~= all.take(i as int));
            assert(all.take(i + 1).last() == key);
            assert(all.skip(i as int) =~= seq![key] + all.skip(i + 1));
            if is_build_key(keys[i].as_str()) {
                found_keys_to_keep = true;
                assert(kept + all.skip(i as int) =~= kept.push(key) + all.skip(i + 1));
            } else {
                remove_subtable_key(pyproject, "tool", "poetry", keys[i].as_str());
                proof {
                    lemma_without_key_append(kept, all.skip(i as int), key);
                    lemma_without_key_append(seq![key], all.skip(i + 1), key);
                    lemma_build_keys_are_build_keys(all.take(i as int));
                    lemma_without_absent_key(kept, key);
                    let rest = all.skip(i + 1);
                    assert(!rest.contains(key)) by {
                        if rest.contains(key) {
                            let j = choose|j: int| 0 <= j < rest.len() && #[trigger] rest[j] == key;
                            assert(all[i + 1 + j] == all[i as int]);
                        }
                    }
                    lemma_without_absent_key(all.skip(i + 1), key);
                    assert(without_key(seq![key], key) =~= Seq::<Seq<char>>::empty()) by {
                        assert(seq![key].drop_last() =~= Seq::<Seq<char>>::empty());
                        assert(without_key(Seq::<Seq<char>>::empty(), key) =~= Seq::<
                            Seq<char>,
                        >::empty());
                    }
                    assert(Seq::<Seq<char>>::empty() + all.skip(i + 1) =~= all.skip(i + 1));
                }
            }
            i = i + 1;
        }
        assert(all.take(keys.len() as int) =~= all);
        assert(all.skip(keys.len() as int) =~= Seq::<Seq<char>>::empty());
        assert(build_keys(all) + Seq::<Seq<char>>::empty() =~= build_keys(all));
        if !found_keys_to_keep {
            proof {
                assert forall|k: Seq<char>|
                    build_key(k) && #[trigger] poetry_entries(original).dom().contains(
                        k,
                    ) implies false by {
                    lemma_build_keys_keep_build_keys(all, k);
                }
            }
            remove_entry(pyproject, "tool", "poetry");
        }
    }
}

/// A key among `keys` that configures the build backend is among [`build_keys`] of them.
proof fn lemma_build_keys_keep_build_keys(keys: Seq<Seq<char>>, k: Seq<char>)
    requires
        keys.contains(k),
        build_key(k),
    ensures
        build_keys(keys).contains(k),
    decreases keys.len(),
{
    let init = keys.drop_last();
    if keys.last() == k {
        assert(build_keys(keys) == build_keys(init).push(k));
        assert(build_keys(keys)[build_keys(init).len() as int] == k);
    } else {
        let j = choose|j: int| 0 <= j < keys.len() && keys[j] == k;
        assert(j < keys.len() - 1);
        assert(init[j] == k);
        lemma_build_keys_keep_build_keys(init, k);
        let w = choose|w: int| 0 <= w < build_keys(init).len() && build_keys(init)[w] == k;
        if build_key(keys.last()) {
            assert(build_keys(keys)[w] == k);
        }
    }
}

/// Keeping only the build keys of keys that are all build keys keeps them all.
pub proof fn lemma_build_keys_idempotent(keys: Seq<Seq<char>>)
    ensures
        build_keys(build_keys(keys)) == build_keys(keys),
    decreases keys.len(),
{
    if keys.len() > 0 {
        lemma_build_keys_idempotent(keys.drop_last());
        let rest = build_keys(keys.drop_last());
        if build_key(keys.last()) {
            assert(rest.push(keys.last()).drop_last() =~= rest);
        }
    }
}

/// Cleaning the `[tool.poetry]` section while keeping the build backend a second time leaves
/// its keys as the first time did.
pub proof fn law_poetry_section_cleanup_idempotent(keys: Option<Seq<Seq<char>>>)
    ensures
        remaining_poetry_keys(remaining_poetry_keys(keys)) == remaining_poetry_keys(keys),
{
    if let Some(ks) = keys {
        lemma_build_keys_idempotent(ks);
    }
}

/// When the current build backend is kept, no build backend is chosen, the `[build-system]`
/// section is left as it is, and neither errors nor warnings about the build backend are
/// recorded, whatever the builders produced.
pub proof fn law_kept_build_backend_untouched<U, H>(
    build_backend: Option<crate::options::BuildBackend>,
    ignore_errors: bool,
    uv: Option<U>,
    uv_errors: Seq<Seq<char>>,
    hatch: Option<H>,
    hatch_errors: Seq<Seq<char>>,
    current: Option<crate::build_backend::BuildSystemView>,
    uv_version: Option<Seq<char>>,
)
    ensures
        ({
            let chosen = chosen_build_backend(
                true,
                build_backend,
                ignore_errors,
                uv,
                uv_errors,
                hatch,
                hatch_errors,
            );
            &&& chosen.0 is None
            &&& chosen.1 == Seq::<MigrationErrorView>::empty()
            &&& backend_notices(chosen.0) == Seq::<MigrationErrorView>::empty()
            &&& migrated_build_system(
                current,
                true,
                hatch_chosen(chosen.0, build_backend),
                uv_version,
            ) is None
        }),
{
}

/// The warning given once the build backend was migrated.
pub open spec fn build_backend_notice_text(name: Seq<char>) -> Seq<char> {
    "Build backend was migrated to "@ + name
        + ". It is highly recommended to check that files and data included in the source distribution and wheels are the same after the migration."@
}

/// The warning given once the build backend was migrated to `backend`.
pub fn build_backend_notice<U, H>(backend: &BuildBackendObject<U, H>) -> (r: MigrationError)
    ensures
        r@ == (MigrationErrorView {
            error: build_backend_notice_text(backend_name(*backend)),
            recoverable: true,
        }),
{
    let mut message = String::from_str("Build backend was migrated to ");
    let name = backend.display_name();
    message.append(name.as_str());
    message.append(
        ". It is highly recommended to check that files and data included in the source distribution and wheels are the same after the migration.",
    );
    MigrationError::new(message, true)
}

/// The `[project]` section made of `[tool.poetry]` is the section given, with the name set,
/// Poetry's license as a license text, and the GUI scripts and entry points given; every other
/// field passes through unchanged.
pub proof fn law_poetry_project_fields(
    project: Project,
    name: String,
    license: Option<String>,
    gui_scripts: Option<IndexMap<String, String>>,
    entry_points: Option<IndexMap<String, IndexMap<String, String>>>,
)
    ensures
        ({
            let r = poetry_project(project, name, license, gui_scripts, entry_points);
            &&& r.name == Some(name)
            &&& license matches Some(l) ==> r.license == Some(License::String(l))
            &&& license is None ==> r.license is None
            &&& r.gui_scripts == gui_scripts
            &&& r.entry_points == entry_points
            &&& r.version == project.version
            &&& r.description == project.description
            &&& r.authors == project.authors
            &&& r.requires_python == project.requires_python
            &&& r.readme == project.readme
            &&& r.maintainers == project.maintainers
            &&& r.keywords == project.keywords
            &&& r.classifiers == project.classifiers
            &&& r.dependencies == project.dependencies
            &&& r.optional_dependencies == project.optional_dependencies
            &&& r.urls == project.urls
            &&& r.scripts == project.scripts
            &&& r.dynamic == project.dynamic
            &&& r.remaining_fields == project.remaining_fields
        }),
{
}

/// The migrated `[project]` section of a Poetry project carries what was made of
/// `[tool.poetry]`: all of it when the section is replaced or there is none yet, and every
/// field that the current section does not set otherwise.
pub proof fn law_migrated_poetry_project(
    current: Option<Project>,
    project: Project,
    name: String,
    version: String,
    license: Option<String>,
    gui_scripts: Option<IndexMap<String, String>>,
    entry_points: Option<IndexMap<String, IndexMap<String, String>>>,
    replace_project_section: bool,
)
    ensures
        ({
            let r = built_project(
                current,
                poetry_project(project, name, license, gui_scripts, entry_points),
                version,
                replace_project_section,
            );
            &&& replace_project_section || current is None ==> {
                &&& r.name == Some(name)
                &&& r.version == Some(version)
                &&& license matches Some(l) ==> r.license == Some(License::String(l))
                &&& license is None ==> r.license is None
                &&& r.gui_scripts == gui_scripts
                &&& r.entry_points == entry_points
                &&& r.description == project.description
                &&& r.authors == project.authors
                &&& r.requires_python == project.requires_python
                &&& r.readme == project.readme
                &&& r.maintainers == project.maintainers
                &&& r.keywords == project.keywords
                &&& r.classifiers == project.classifiers
                &&& r.dependencies == project.dependencies
                &&& r.optional_dependencies == project.optional_dependencies
                &&& r.urls == project.urls
                &&& r.scripts == project.scripts
                &&& r.dynamic == project.dynamic
                &&& r.remaining_fields == project.remaining_fields
            }
            &&& !replace_project_section ==> (current matches Some(c) ==> {
                &&& c.name is None ==> r.name == Some(name)
                &&& c.description is None ==> r.description == project.description
                &&& c.authors is None ==> r.authors == project.authors
                &&& c.requires_python is None ==> r.requires_python == project.requires_python
                &&& c.readme is None ==> r.readme == project.readme
                &&& c.maintainers is None ==> r.maintainers == project.maintainers
                &&& c.keywords is None ==> r.keywords == project.keywords
                &&& c.classifiers is None ==> r.classifiers == project.classifiers
                &&& c.dependencies is None ==> r.dependencies == project.dependencies
                &&& c.optional_dependencies is None ==> r.optional_dependencies
                    == project.optional_dependencies
                &&& c.urls is None ==> r.urls == project.urls
                &&& c.scripts is None ==> r.scripts == project.scripts
                &&& c.gui_scripts is None ==> r.gui_scripts == gui_scripts
                &&& c.entry_points is None ==> r.entry_points == entry_points
            })
        }),
{
}

/// When the current build backend is kept, the keys left in `[tool.poetry]` are among
/// `packages`, `include` and `exclude`, and each of these that the section had is left.
pub proof fn law_kept_poetry_keys(keys: Seq<Seq<char>>)
    ensures
        remaining_poetry_keys(Some(keys)) matches Some(kept) ==> forall|k: Seq<char>|
            #[trigger] kept.contains(k) ==> k == "packages"@ || k == "include"@ || k == "exclude"@,
        forall|k: Seq<char>|
            (k == "packages"@ || k == "include"@ || k == "exclude"@) && #[trigger] keys.contains(k)
                ==> (remaining_poetry_keys(Some(keys)) matches Some(kept) && kept.contains(k)),
{
    lemma_build_keys_are_build_keys(keys);
    assert forall|k: Seq<char>| #[trigger] build_keys(keys).contains(k) implies k == "packages"@
        || k == "include"@ || k == "exclude"@ by {
        assert(build_key(k));
    }
    assert forall|k: Seq<char>|
        (k == "packages"@ || k == "include"@ || k == "exclude"@) && #[trigger] keys.contains(k)
            implies (remaining_poetry_keys(Some(keys)) matches Some(kept) && kept.contains(k)) by {
        lemma_build_keys_keep_build_keys(keys, k);
    }
}

/// After `[tool.poetry]` is cleaned with the current build backend kept, every key left in it
/// is `packages`, `include` or `exclude`: a key such as `dependencies` never stays.
pub proof fn law_only_build_keys_stay(
    options: ConverterOptions,
    before: DocumentMut,
    after: DocumentMut,
)
    requires
        poetry_section_removed(options, before, after),
        !options.keep_old_metadata,
        tool_table_present(before),
    ensures
        poetry_table_keys(after) matches Some(kept) ==> forall|k: Seq<char>|
            #[trigger] kept.contains(k) ==> k == "packages"@ || k == "include"@ || k == "exclude"@,
{
    if let Some(keys) = poetry_table_keys(before) {
        law_kept_poetry_keys(keys);
    }
}

/// A Poetry project without a name is migrated as `project`, and one without a version as
/// `0.0.1`; otherwise Poetry's name and version are kept.
pub proof fn law_default_name_and_version(name: Option<String>, version: Option<String>)
    ensures
        name is None ==> project_name_text(name) == "project"@,
        version is None ==> project_version_text(version) == "0.0.1"@,
        name matches Some(n) ==> project_name_text(name) == n@,
        version matches Some(v) ==> project_version_text(version) == v@,
{
}

} // verus!
