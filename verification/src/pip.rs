//! Migration of projects whose dependencies are listed in pip or pip-tools requirements files.
use crate::options::ConverterOptions;
use crate::project::{built_project, field_names, no_fields, requirements_project, Project, UvSettings};
use crate::pyproject_doc::{parse_pyproject, toml_document};
use crate::text::{replace, replace_all};
use indexmap::IndexMap;
use toml_edit::DocumentMut;
use vstd::prelude::*;
use vstd::string::*;

verus! {

/// A project managed with pip or pip-tools.
#[derive(Debug, Clone, PartialEq, Eq)]
pub struct Pip {
    pub converter_options: ConverterOptions,
    pub requirements_files: Vec<String>,
    pub dev_requirements_files: Vec<String>,
    pub is_pip_tools: bool,
}

/// The lock file that pip-tools compiles from a requirements file: `.in` becomes `.txt`.
pub open spec fn compiled_requirements_file(file: Seq<char>) -> Seq<char> {
    replace_all(file, ".in"@, ".txt"@)
}

/// The files deleted after the migration, for the requirements files `files`: each file, and
/// for pip-tools also the file compiled from it, right after it.
pub open spec fn requirements_files_to_delete(files: Seq<Seq<char>>, is_pip_tools: bool) -> Seq<
    Seq<char>,
>
    decreases files.len(),
{
    if files.len() == 0 {
        Seq::empty()
    } else {
        let rest = requirements_files_to_delete(files.drop_last(), is_pip_tools);
        if is_pip_tools {
            rest.push(files.last()).push(compiled_requirements_file(files.last()))
        } else {
            rest.push(files.last())
        }
    }
}

/// The requirements files of a project, then its development requirements files.
pub open spec fn all_requirements_files(pip: Pip) -> Seq<Seq<char>> {
    pip.requirements_files.deep_view() + pip.dev_requirements_files.deep_view()
}

/// Whether locked versions are kept: only pip-tools locks versions.
pub open spec fn pip_respects_locked_versions(pip: Pip) -> bool {
    pip.is_pip_tools && !pip.converter_options.ignore_locked_versions
}

/// Whether the locked versions are read to constrain the dependencies.
pub open spec fn pip_reads_constraints(pip: Pip) -> bool {
    pip.is_pip_tools && !pip.converter_options.dry_run && pip_respects_locked_versions(pip)
}

/// The constraints for `constraint-dependencies`, from the dependencies `locked` read from the
/// files pip-tools compiled: none when they are not read or none was found.
pub open spec fn pip_constraints(pip: Pip, locked: Option<Vec<String>>) -> Option<Vec<String>> {
    if pip_reads_constraints(pip) {
        match locked {
            Some(d) => if d@.len() == 0 {
                None
            } else {
                Some(d)
            },
            None => None,
        }
    } else {
        None
    }
}

/// The parts of the `pyproject.toml` of a project migrated from requirements files.
pub struct PipUvPyproject {
    /// The `[project]` section.
    pub project: Project,
    /// The development dependencies, for the dependency group `dev`.
    pub dev_dependencies: Option<Vec<String>>,
    /// The `[tool.uv]` settings: the project is not a package, and the constraints kept from
    /// the files pip-tools compiled.
    pub uv: UvSettings,
    /// The document read.
    pub document: DocumentMut,
}

fn push_files_to_delete(
    out: &mut Vec<String>,
    files: &Vec<String>,
    is_pip_tools: bool,
    Ghost(prefix): Ghost<Seq<Seq<char>>>,
)
    requires
        old(out).deep_view() == requirements_files_to_delete(prefix, is_pip_tools),
    ensures
        final(out).deep_view() == requirements_files_to_delete(
            prefix + files.deep_view(),
            is_pip_tools,
        ),
{
    let ghost names = files.deep_view();
    let mut i: usize = 0;
    assert(prefix + names.take(0) =~= prefix);
    while i < files.len()
        invariant
            names == files.deep_view(),
            i <= files.len(),
            out.deep_view() == requirements_files_to_delete(
                prefix + names.take(i as int),
                is_pip_tools,
            ),
        decreases files.len() - i,
    {
        let ghost before = out.deep_view();
        assert((prefix + names.take(i + 1)).drop_last() =~= prefix + names.take(i as int));
        assert((prefix + names.take(i + 1)).last() == names[i as int]);
        out.push(files[i].clone());
        if is_pip_tools {
            out.push(replace(files[i].as_str(), ".in", ".txt"));
            assert(out.deep_view() =~= before.push(names[i as int]).push(
                compiled_requirements_file(names[i as int]),
            ));
        } else {
            assert(out.deep_view() =~= before.push(names[i as int]));
        }
        i = i + 1;
    }
    assert(names.take(files.len() as int) =~= names);
}

fn compiled_files(out: &mut Vec<String>, files: &Vec<String>)
    ensures
        final(out).deep_view() == old(out).deep_view() + files.deep_view().map_values(
            |f: Seq<char>| compiled_requirements_file(f),
        ),
{
    let ghost start = out.deep_view();
    let ghost names = files.deep_view();
    let mut i: usize = 0;
    assert(names.take(0).map_values(|f: Seq<char>| compiled_requirements_file(f)) =~= Seq::<
        Seq<char>,
    >::empty());
    assert(out.deep_view() =~= start + names.take(0).map_values(
        |f: Seq<char>| compiled_requirements_file(f),
    ));
    while i < files.len()
        invariant
            names == files.deep_view(),
            i <= files.len(),
            out.deep_view() == start + names.take(i as int).map_values(
                |f: Seq<char>| compiled_requirements_file(f),
            ),
        decreases files.len() - i,
    {
        let ghost before = out.deep_view();
        out.push(replace(files[i].as_str(), ".in", ".txt"));
        assert(out.deep_view() =~= before.push(compiled_requirements_file(names[i as int])));
        assert(names.take(i + 1).map_values(|f: Seq<char>| compiled_requirements_file(f))
            =~= names.take(i as int).map_values(|f: Seq<char>| compiled_requirements_file(f)).push(
            compiled_requirements_file(names[i as int]),
        ));
        i = i + 1;
    }
    assert(names.take(files.len() as int) =~= names);
}

impl Pip {
    /// Name of the package manager.
    pub fn get_package_manager_name(&self) -> (r: String)
        ensures
            r@ == (if self.is_pip_tools {
                "pip-tools"@
            } else {
                "pip"@
            }),
    {
        if self.is_pip_tools {
            return String::from_str("pip-tools");
        }
        String::from_str("pip")
    }

    /// The options chosen by the user for the migration.
    pub fn get_converter_options(&self) -> (r: &ConverterOptions)
        ensures
            r == &self.converter_options,
    {
        &self.converter_options
    }

    /// There are no locked dependencies for pip, so locked versions are only respected for
    /// pip-tools, and only when the user did not ask to ignore them.
    pub fn respect_locked_versions(&self) -> (r: bool)
        ensures
            r == pip_respects_locked_versions(*self),
    {
        self.is_pip_tools && !self.converter_options.ignore_locked_versions
    }

    /// The files deleted at the end of the migration: every requirements file, then every
    /// development requirements file; for pip-tools, each followed by the `.txt` file compiled
    /// from it.
    pub fn get_migrated_files_to_delete(&self) -> (r: Vec<String>)
        ensures
            r.deep_view() == requirements_files_to_delete(
                all_requirements_files(*self),
                self.is_pip_tools,
            ),
    {
        let mut files_to_delete: Vec<String> = Vec::new();
        assert(files_to_delete.deep_view() =~= requirements_files_to_delete(
            Seq::empty(),
            self.is_pip_tools,
        ));
        push_files_to_delete(
            &mut files_to_delete,
            &self.requirements_files,
            self.is_pip_tools,
            Ghost(Seq::empty()),
        );
        assert(Seq::<Seq<char>>::empty() + self.requirements_files.deep_view()
            =~= self.requirements_files.deep_view());
        push_files_to_delete(
            &mut files_to_delete,
            &self.dev_requirements_files,
            self.is_pip_tools,
            Ghost(self.requirements_files.deep_view()),
        );
        files_to_delete
    }

    /// Build the `pyproject.toml` of the project for uv, from the current one (its text
    /// `pyproject_toml` and its `[project]` section), the dependencies and development
    /// dependencies read from the requirements files, and the locked dependencies read from the
    /// files pip-tools compiled (see [`Pip::constraint_dependency_files`]). The `[project]`
    /// section gets a default name, as uv requires one, and a default version. Returns `None`
    /// when the text is not TOML.
    pub fn build_uv_pyproject(
        &self,
        pyproject_toml: &str,
        current_project: Option<Project>,
        dependencies: Option<Vec<String>>,
        dev_dependencies: Option<Vec<String>>,
        locked: Option<Vec<String>>,
    ) -> (r: Option<PipUvPyproject>)
        ensures
            r is Some <==> toml_document(pyproject_toml@) is Some,
            r matches Some(m) ==> ({
                &&& m.document == toml_document(pyproject_toml@)->0
                &&& m.dev_dependencies == dev_dependencies
                &&& m.uv.package == Some(false)
                &&& m.uv.constraint_dependencies == pip_constraints(*self, locked)
                &&& self.converter_options.replace_project_section || current_project is None
                    ==> field_names(m.project.remaining_fields).len() == 0
                &&& exists|name: String, version: String, fields: IndexMap<String, toml::Value>|
                    name@ == "project"@ && version@ == "0.0.1"@ && field_names(fields).len() == 0
                        && m.project
                        == #[trigger] built_project(
                        current_project,
                        requirements_project(name, dependencies, fields),
                        version,
                        self.converter_options.replace_project_section,
                    )
            }),
    {
        let document = match parse_pyproject(pyproject_toml) {
            Some(d) => d,
            None => {
                return None;
            },
        };
        let name = String::from_str("project");
        let version = String::from_str("0.0.1");
        let fields = no_fields();
        let ghost name_used = name;
        let ghost version_used = version;
        let ghost fields_used = fields;
        let ghost dependencies_used = dependencies;
        let project = Project {
            name: Some(name),
            version: None,
            description: None,
            authors: None,
            requires_python: None,
            readme: None,
            license: None,
            maintainers: None,
            keywords: None,
            classifiers: None,
            dependencies,
            optional_dependencies: None,
            urls: None,
            scripts: None,
            gui_scripts: None,
            entry_points: None,
            dynamic: None,
            remaining_fields: fields,
        };
        let migrated = self.converter_options.build_project(current_project, project, version);
        assert(migrated == built_project(
            current_project,
            requirements_project(name_used, dependencies_used, fields_used),
            version_used,
            self.converter_options.replace_project_section,
        ));
        let constraint_dependencies = self.get_constraint_dependencies(locked);
        Some(
            PipUvPyproject {
                project: migrated,
                dev_dependencies,
                uv: UvSettings { package: Some(false), constraint_dependencies },
                document,
            },
        )
    }

    /// The files from which the locked versions are read: the `.txt` files compiled by
    /// pip-tools from each requirements file. `None` when locked versions are not kept (pip, a
    /// dry run, or locked versions ignored).
    pub fn constraint_dependency_files(&self) -> (r: Option<Vec<String>>)
        ensures
            r is Some == pip_reads_constraints(*self),
            r matches Some(files) ==> files.deep_view() == all_requirements_files(
                *self,
            ).map_values(|f: Seq<char>| compiled_requirements_file(f)),
    {
        if !self.is_pip_tools || self.converter_options.dry_run || !self.respect_locked_versions() {
            return None;
        }
        let mut files: Vec<String> = Vec::new();
        compiled_files(&mut files, &self.requirements_files);
        compiled_files(&mut files, &self.dev_requirements_files);
        assert(all_requirements_files(*self).map_values(
            |f: Seq<char>| compiled_requirements_file(f),
        ) =~= Seq::<Seq<char>>::empty() + self.requirements_files.deep_view().map_values(
            |f: Seq<char>| compiled_requirements_file(f),
        ) + self.dev_requirements_files.deep_view().map_values(
            |f: Seq<char>| compiled_requirements_file(f),
        ));
        Some(files)
    }

    /// Dependencies constraints to set in `constraint-dependencies` under `[tool.uv]`, from the
    /// dependencies `locked` read from the files of [`Pip::constraint_dependency_files`]: none
    /// when locked versions are not kept or none was found.
    pub fn get_constraint_dependencies(&self, locked: Option<Vec<String>>) -> (r: Option<
        Vec<String>,
    >)
        ensures
            r == pip_constraints(*self, locked),
    {
        if !self.is_pip_tools || self.converter_options.dry_run || !self.respect_locked_versions() {
            return None;
        }
        match locked {
            Some(dependencies) => {
                if dependencies.len() == 0 {
                    return None;
                }
                Some(dependencies)
            },
            None => None,
        }
    }
}

/// pip-tools deletes each requirements file and the file compiled from it; pip deletes the
/// requirements files only, all of them and nothing else.
pub proof fn law_files_to_delete(files: Seq<Seq<char>>, is_pip_tools: bool)
    ensures
        is_pip_tools ==> requirements_files_to_delete(files, is_pip_tools).len() == 2 * files.len(),
        !is_pip_tools ==> requirements_files_to_delete(files, is_pip_tools) == files,
    decreases files.len(),
{
    if files.len() > 0 {
        law_files_to_delete(files.drop_last(), is_pip_tools);
        if !is_pip_tools {
            assert(files.drop_last().push(files.last()) =~= files);
        }
    }
}

} // verus!
