//! The PEP 621 `[project]` section, and how the section built from another package manager's
//! metadata is merged into the one a project may already have.
use crate::options::ConverterOptions;
use crate::text::str_eq;
use indexmap::IndexMap;
use vstd::prelude::*;

verus! {

#[verifier::external_type_specification]
#[verifier::external_body]
#[verifier::reject_recursive_types(K)]
#[verifier::reject_recursive_types(V)]
#[verifier::reject_recursive_types(S)]
pub struct ExIndexMap<K, V, S>(IndexMap<K, V, S>);

#[verifier::external_type_specification]
#[verifier::external_body]
pub struct ExTomlValue(toml::Value);

/// An author or a maintainer of a project.
#[derive(Clone, Debug)]
pub struct AuthorOrMaintainer {
    pub name: Option<String>,
    pub email: Option<String>,
}

/// The `license` of a project: an SPDX expression, or a table naming a license text or file.
#[derive(Clone, Debug)]
pub enum License {
    String(String),
    Text { text: String },
    File { file: String },
}

/// The `readme` of a project: a path, or a table.
#[derive(Clone, Debug)]
pub enum Readme {
    Path(String),
    Table { file: Option<String>, text: Option<String>, content_type: Option<String> },
}

/// The `[project]` section of `pyproject.toml` (PEP 621). Keys that the migration does not
/// know are kept, with their values, in `remaining_fields`.
pub struct Project {
    pub name: Option<String>,
    pub version: Option<String>,
    pub description: Option<String>,
    pub authors: Option<Vec<AuthorOrMaintainer>>,
    pub requires_python: Option<String>,
    pub readme: Option<Readme>,
    pub license: Option<License>,
    pub maintainers: Option<Vec<AuthorOrMaintainer>>,
    pub keywords: Option<Vec<String>>,
    pub classifiers: Option<Vec<String>>,
    pub dependencies: Option<Vec<String>>,
    pub optional_dependencies: Option<IndexMap<String, Vec<String>>>,
    pub urls: Option<IndexMap<String, String>>,
    pub scripts: Option<IndexMap<String, String>>,
    pub gui_scripts: Option<IndexMap<String, String>>,
    pub entry_points: Option<IndexMap<String, IndexMap<String, String>>>,
    pub dynamic: Option<Vec<String>>,
    pub remaining_fields: IndexMap<String, toml::Value>,
}

/// `a` when it is set, `b` otherwise (`Option::or`).
pub open spec fn or_else<T>(a: Option<T>, b: Option<T>) -> Option<T> {
    match a {
        Some(x) => Some(x),
        None => b,
    }
}

/// Whether `version` is listed among the dynamic fields of `project`.
pub open spec fn declares_dynamic_version(project: Option<Project>) -> bool {
    match project {
        Some(p) => match p.dynamic {
            Some(d) => d.deep_view().contains("version"@),
            None => false,
        },
        None => false,
    }
}

/// The version written in the migrated `[project]` section: none when the current section
/// sets it dynamically (and is kept), `version` otherwise.
pub open spec fn migrated_version(
    current: Option<Project>,
    version: String,
    replace_project_section: bool,
) -> Option<String> {
    if !replace_project_section && declares_dynamic_version(current) {
        None
    } else {
        Some(version)
    }
}

/// `project`, with `version` in place of its version.
pub open spec fn with_version(project: Project, version: Option<String>) -> Project {
    Project { version, ..project }
}

/// Each field of `current` that is set, or else the one of `project`; the unknown keys are
/// those of `current`.
pub open spec fn merge_projects(current: Project, project: Project, version: Option<String>) -> Project {
    Project {
        name: or_else(current.name, project.name),
        version: or_else(current.version, version),
        description: or_else(current.description, project.description),
        authors: or_else(current.authors, project.authors),
        requires_python: or_else(current.requires_python, project.requires_python),
        readme: or_else(current.readme, project.readme),
        license: or_else(current.license, project.license),
        maintainers: or_else(current.maintainers, project.maintainers),
        keywords: or_else(current.keywords, project.keywords),
        classifiers: or_else(current.classifiers, project.classifiers),
        dependencies: or_else(current.dependencies, project.dependencies),
        optional_dependencies: or_else(current.optional_dependencies, project.optional_dependencies),
        urls: or_else(current.urls, project.urls),
        scripts: or_else(current.scripts, project.scripts),
        gui_scripts: or_else(current.gui_scripts, project.gui_scripts),
        entry_points: or_else(current.entry_points, project.entry_points),
        dynamic: or_else(current.dynamic, project.dynamic),
        remaining_fields: current.remaining_fields,
    }
}

/// The migrated `[project]` section: `project` with the version set, when the section is
/// replaced or there is none yet; otherwise the current section, completed with `project`.
pub open spec fn built_project(
    current: Option<Project>,
    project: Project,
    version: String,
    replace_project_section: bool,
) -> Project {
    let v = migrated_version(current, version, replace_project_section);
    if replace_project_section {
        with_version(project, v)
    } else {
        match current {
            Some(c) => merge_projects(c, project, v),
            None => with_version(project, v),
        }
    }
}

/// The `[project]` section made from requirements files: the name `name` and the
/// dependencies `dependencies`, with the fields `remaining_fields` and nothing else set.
pub open spec fn requirements_project(
    name: String,
    dependencies: Option<Vec<String>>,
    remaining_fields: IndexMap<String, toml::Value>,
) -> Project {
    Project {
        name: Some(name),
        version: None,
        description: None,
        authors: None,
        requires_python: None,
        readme: None,
        license: None,
        maintainers: None,
        keywords: None,
        classifiers: None,
        dependencies,
        optional_dependencies: None,
        urls: None,
        scripts: None,
        gui_scripts: None,
        entry_points: None,
        dynamic: None,
        remaining_fields,
    }
}

/// The names of the fields that a map of fields holds, in order.
pub uninterp spec fn field_names(fields: IndexMap<String, toml::Value>) -> Seq<Seq<char>>;

/// A new map of fields, which holds none (`IndexMap::new`).
#[verifier::external_body]
pub(crate) fn no_fields() -> (r: IndexMap<String, toml::Value>)
    ensures
        field_names(r).len() == 0,
{
    IndexMap::new()
}

/// What the migration writes under `[tool.uv]`.
pub struct UvSettings {
    /// `package`: whether uv builds and installs the project as a package.
    pub package: Option<bool>,
    /// `constraint-dependencies`: the versions to keep dependencies at.
    pub constraint_dependencies: Option<Vec<String>>,
}

/// `a` when it is set, `b` otherwise.
fn or_else_exec<T>(a: Option<T>, b: Option<T>) -> (r: Option<T>)
    ensures
        r == or_else(a, b),
{
    match a {
        Some(x) => Some(x),
        None => b,
    }
}

fn lists_version(dynamic: &Vec<String>) -> (r: bool)
    ensures
        r == dynamic.deep_view().contains("version"@),
{
    let mut i: usize = 0;
    while i < dynamic.len()
        invariant
            i <= dynamic.len(),
            forall|k: int| 0 <= k < i ==> dynamic.deep_view()[k] != "version"@,
        decreases dynamic.len() - i,
    {
        if str_eq(dynamic[i].as_str(), "version") {
            assert(dynamic.deep_view()[i as int] == "version"@);
            return true;
        }
        i = i + 1;
    }
    false
}

impl ConverterOptions {
    /// Build PEP 621 `[project]` section, keeping existing fields if the section is already
    /// defined, unless the user has chosen to replace the existing section. The version is
    /// required by uv unless it is set dynamically; when the section is replaced, `dynamic`
    /// goes away with it, so the version is set.
    pub fn build_project(&self, current_project: Option<Project>, project: Project, version: String) -> (r:
        Project)
        ensures
            r == built_project(current_project, project, version, self.replace_project_section),
    {
        let dynamic_version = match &current_project {
            Some(current) => match &current.dynamic {
                Some(d) => lists_version(d),
                None => false,
            },
            None => false,
        };
        let version = if !self.replace_project_section && dynamic_version {
            None
        } else {
            Some(version)
        };
        if self.replace_project_section {
            return Project { version, ..project };
        }
        let current = match current_project {
            Some(c) => c,
            None => {
                return Project { version, ..project };
            },
        };
        Project {
            name: or_else_exec(current.name, project.name),
            version: or_else_exec(current.version, version),
            description: or_else_exec(current.description, project.description),
            authors: or_else_exec(current.authors, project.authors),
            requires_python: or_else_exec(current.requires_python, project.requires_python),
            readme: or_else_exec(current.readme, project.readme),
            license: or_else_exec(current.license, project.license),
            maintainers: or_else_exec(current.maintainers, project.maintainers),
            keywords: or_else_exec(current.keywords, project.keywords),
            classifiers: or_else_exec(current.classifiers, project.classifiers),
            dependencies: or_else_exec(current.dependencies, project.dependencies),
            optional_dependencies: or_else_exec(current.optional_dependencies, project.optional_dependencies),
            urls: or_else_exec(current.urls, project.urls),
            scripts: or_else_exec(current.scripts, project.scripts),
            gui_scripts: or_else_exec(current.gui_scripts, project.gui_scripts),
            entry_points: or_else_exec(current.entry_points, project.entry_points),
            dynamic: or_else_exec(current.dynamic, project.dynamic),
            remaining_fields: current.remaining_fields,
        }
    }
}

/// Replacing the `[project]` section gives the section built from the other package manager,
/// with the version set, whatever the current section holds.
pub proof fn law_replaced_project_has_version(
    current: Option<Project>,
    project: Project,
    version: String,
)
    ensures
        built_project(current, project, version, true) == with_version(project, Some(version)),
{
}

/// When the current `[project]` section sets its version dynamically and has no version, the
/// migrated section has no version either (uv needs none then).
pub proof fn law_dynamic_version_not_set(current: Project, project: Project, version: String)
    requires
        declares_dynamic_version(Some(current)),
        current.version is None,
    ensures
        built_project(Some(current), project, version, false).version is None,
{
}

/// Every field already set in the current `[project]` section is kept as it is by the merge,
/// and so are its unknown keys.
pub proof fn law_current_fields_win(current: Project, project: Project, version: String)
    ensures
        ({
            let r = built_project(Some(current), project, version, false);
            &&& current.name is Some ==> r.name == current.name
            &&& current.version is Some ==> r.version == current.version
            &&& current.description is Some ==> r.description == current.description
            &&& current.authors is Some ==> r.authors == current.authors
            &&& current.requires_python is Some ==> r.requires_python == current.requires_python
            &&& current.readme is Some ==> r.readme == current.readme
            &&& current.license is Some ==> r.license == current.license
            &&& current.maintainers is Some ==> r.maintainers == current.maintainers
            &&& current.keywords is Some ==> r.keywords == current.keywords
            &&& current.classifiers is Some ==> r.classifiers == current.classifiers
            &&& current.dependencies is Some ==> r.dependencies == current.dependencies
            &&& current.optional_dependencies is Some ==> r.optional_dependencies
                == current.optional_dependencies
            &&& current.urls is Some ==> r.urls == current.urls
            &&& current.scripts is Some ==> r.scripts == current.scripts
            &&& current.gui_scripts is Some ==> r.gui_scripts == current.gui_scripts
            &&& current.entry_points is Some ==> r.entry_points == current.entry_points
            &&& current.dynamic is Some ==> r.dynamic == current.dynamic
            &&& r.remaining_fields == current.remaining_fields
        }),
{
}

/// Every field that the current `[project]` section does not set is taken, by the merge, from
/// the migrated section; so is the version, unless the current section sets it dynamically.
pub proof fn law_missing_fields_taken_from_migrated(
    current: Project,
    project: Project,
    version: String,
)
    ensures
        ({
            let r = built_project(Some(current), project, version, false);
            &&& current.name is None ==> r.name == project.name
            &&& current.version is None && !declares_dynamic_version(Some(current)) ==> r.version
                == Some(version)
            &&& current.description is None ==> r.description == project.description
            &&& current.authors is None ==> r.authors == project.authors
            &&& current.requires_python is None ==> r.requires_python == project.requires_python
            &&& current.readme is None ==> r.readme == project.readme
            &&& current.license is None ==> r.license == project.license
            &&& current.maintainers is None ==> r.maintainers == project.maintainers
            &&& current.keywords is None ==> r.keywords == project.keywords
            &&& current.classifiers is None ==> r.classifiers == project.classifiers
            &&& current.dependencies is None ==> r.dependencies == project.dependencies
            &&& current.optional_dependencies is None ==> r.optional_dependencies
                == project.optional_dependencies
            &&& current.urls is None ==> r.urls == project.urls
            &&& current.scripts is None ==> r.scripts == project.scripts
            &&& current.gui_scripts is None ==> r.gui_scripts == project.gui_scripts
            &&& current.entry_points is None ==> r.entry_points == project.entry_points
            &&& current.dynamic is None ==> r.dynamic == project.dynamic
        }),
{
}

/// When the section is replaced, or there is none yet, the migrated section is the one built
/// from the other package manager, field by field, with the version set.
pub proof fn law_new_section_is_the_migrated_one(
    current: Option<Project>,
    project: Project,
    version: String,
    replace_project_section: bool,
)
    requires
        replace_project_section || current is None,
    ensures
        ({
            let r = built_project(current, project, version, replace_project_section);
            &&& r.name == project.name
            &&& r.version == Some(version)
            &&& r.description == project.description
            &&& r.authors == project.authors
            &&& r.requires_python == project.requires_python
            &&& r.readme == project.readme
            &&& r.license == project.license
            &&& r.maintainers == project.maintainers
            &&& r.keywords == project.keywords
            &&& r.classifiers == project.classifiers
            &&& r.dependencies == project.dependencies
            &&& r.optional_dependencies == project.optional_dependencies
            &&& r.urls == project.urls
            &&& r.scripts == project.scripts
            &&& r.gui_scripts == project.gui_scripts
            &&& r.entry_points == project.entry_points
            &&& r.dynamic == project.dynamic
            &&& r.remaining_fields == project.remaining_fields
        }),
{
}

/// Merging the same section into the result of a merge changes nothing: migrating twice is
/// migrating once.
pub proof fn law_build_project_idempotent(
    current: Option<Project>,
    project: Project,
    version: String,
)
    ensures
        built_project(Some(built_project(current, project, version, false)), project, version, false)
            == built_project(current, project, version, false),
{
    let once = built_project(current, project, version, false);
    match current {
        Some(c) => {
            if declares_dynamic_version(Some(c)) {
                assert(once.dynamic == c.dynamic);
                assert(declares_dynamic_version(Some(once)));
            }
            if !declares_dynamic_version(Some(c)) {
                assert(once.version is Some);
            }
        },
        None => {
            assert(once.version == Some(version));
        },
    }
}

} // verus!
