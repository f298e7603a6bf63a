use indexmap::IndexMap;
use migrate_to_uv::build_backend::{BackendAttempt, BuildBackendObject, BuildSystem};
use migrate_to_uv::options::{BuildBackend, ConverterOptions};
use migrate_to_uv::poetry::{build_backend_notice, split_plugins, LockedPackage, Poetry, PoetryLockContent};
use migrate_to_uv::project::{License, Project};
use migrate_to_uv::pyproject_doc::{parse_pyproject, without_constraint_dependencies};
use toml_edit::DocumentMut;

fn poetry(options: ConverterOptions) -> Poetry {
    Poetry { converter_options: options }
}

fn locked(name: &str, version: &str) -> LockedPackage {
    LockedPackage { name: name.to_string(), version: version.to_string() }
}

#[test]
fn poetry_basics() {
    let p = poetry(ConverterOptions::default());
    assert_eq!(p.get_package_manager_name(), "Poetry");
    assert_eq!(p.get_migrated_files_to_delete(), vec!["poetry.lock", "poetry.toml"]);
    assert!(p.respect_locked_versions());
    assert!(p.reads_poetry_lock());
    assert!(!poetry(ConverterOptions { dry_run: true, ..Default::default() }).reads_poetry_lock());
}

#[test]
fn constraints_from_lock() {
    let p = poetry(ConverterOptions::default());
    let (c, e) = p.get_constraint_dependencies(PoetryLockContent::Parsed(vec![
        locked("foo", "1.2.3"),
        locked("bar", "0.1.0"),
    ]));
    assert_eq!(c, Some(vec!["foo==1.2.3".to_string(), "bar==0.1.0".to_string()]));
    assert!(e.is_none());
    let (c, e) = p.get_constraint_dependencies(PoetryLockContent::Parsed(vec![]));
    assert!(c.is_none() && e.is_none());
    let (c, e) = p.get_constraint_dependencies(PoetryLockContent::Missing);
    assert!(c.is_none() && e.is_none());
}

#[test]
fn unparsable_lock() {
    let p = poetry(ConverterOptions::default());
    let (c, e) = p.get_constraint_dependencies(PoetryLockContent::Unparsable);
    assert!(c.is_none());
    let e = e.unwrap();
    assert!(e.recoverable);
    assert_eq!(
        e.error,
        "\"\u{1b}[1mpoetry.lock\u{1b}[0m\" could not be parsed, so dependencies were not kept to their previous locked versions."
    );
}

#[test]
fn lock_not_read_in_dry_run() {
    let p = poetry(ConverterOptions { dry_run: true, ..Default::default() });
    let (c, e) = p.get_constraint_dependencies(PoetryLockContent::Parsed(vec![locked("foo", "1")]));
    assert!(c.is_none() && e.is_none());
    let p = poetry(ConverterOptions { ignore_locked_versions: true, ..Default::default() });
    let (c, e) = p.get_constraint_dependencies(PoetryLockContent::Unparsable);
    assert!(c.is_none() && e.is_none());
}

const WITH_BUILD_KEYS: &str = r#"
[build-system]
requires = ["poetry-core>=1.0.0"]
build-backend = "poetry.core.masonry.api"

[project]
name = "foo"

[tool.poetry]
name = "foo"
# A comment that shoud be preserved
packages = [{ include = "foo" }]
version = "1.0.0"
# A comment that shoud be preserved
include = ["foo.txt"]
# A comment that shoud be preserved
exclude = ["bar.txt"]
"#;

const WITHOUT_BUILD_KEYS: &str = r#"
[project]
name = "foo"

[tool.poetry]
name = "foo"
version = "1.0.0"

[tool.ruff]
line-length = 100
"#;

fn cleaned(options: ConverterOptions, content: &str) -> String {
    let mut doc = content.parse::<DocumentMut>().unwrap();
    poetry(options).remove_pyproject_poetry_section(&mut doc);
    doc.to_string()
}

#[test]
fn poetry_section_removed() {
    let out = cleaned(ConverterOptions::default(), WITH_BUILD_KEYS);
    assert!(!out.contains("[tool.poetry]"));
    assert!(out.contains("[project]\nname = \"foo\""));
    let out = cleaned(ConverterOptions::default(), WITHOUT_BUILD_KEYS);
    assert!(!out.contains("[tool.poetry]"));
    assert!(out.contains("[tool.ruff]\nline-length = 100"));
}

#[test]
fn poetry_section_kept_with_old_metadata() {
    let options = ConverterOptions { keep_old_metadata: true, ..Default::default() };
    assert_eq!(cleaned(options, WITH_BUILD_KEYS), WITH_BUILD_KEYS);
}

#[test]
fn build_keys_kept_with_current_build_backend() {
    let options = ConverterOptions { keep_current_build_backend: true, ..Default::default() };
    let out = cleaned(options, WITH_BUILD_KEYS);
    assert!(out.ends_with(
        "[tool.poetry]\n# A comment that shoud be preserved\npackages = [{ include = \"foo\" }]\n# A comment that shoud be preserved\ninclude = [\"foo.txt\"]\n# A comment that shoud be preserved\nexclude = [\"bar.txt\"]\n"
    ));
    assert!(!out.contains("version = \"1.0.0\""));
}

#[test]
fn section_removed_without_build_keys() {
    let options = ConverterOptions { keep_current_build_backend: true, ..Default::default() };
    let out = cleaned(options, WITHOUT_BUILD_KEYS);
    assert!(!out.contains("[tool.poetry]"));
    assert!(out.contains("[tool.ruff]"));
}

#[test]
fn nothing_to_clean_without_tool_table() {
    let content = "[project]\nname = \"foo\"\n";
    assert_eq!(cleaned(ConverterOptions::default(), content), content);
    let inline = "tool = { poetry = { name = \"foo\" } }\n";
    assert_eq!(cleaned(ConverterOptions::default(), inline), inline);
}

#[test]
fn cleaning_twice_is_cleaning_once() {
    let options = ConverterOptions { keep_current_build_backend: true, ..Default::default() };
    let once = cleaned(options.clone(), WITH_BUILD_KEYS);
    assert_eq!(cleaned(options, &once), once);
}

#[test]
fn notice_names_the_backend() {
    let uv: BuildBackendObject<u8, u8> = BuildBackendObject::Uv(0);
    let notice = build_backend_notice(&uv);
    assert!(notice.recoverable);
    assert_eq!(
        notice.error,
        "Build backend was migrated to uv. It is highly recommended to check that files and data included in the source distribution and wheels are the same after the migration."
    );
    let hatch: BuildBackendObject<u8, u8> = BuildBackendObject::Hatch(0);
    assert!(build_backend_notice(&hatch).error.starts_with("Build backend was migrated to Hatch."));
}

const AMONG_OTHER_SECTIONS: &str = r#"# The project's metadata.
[project]
name = "foo" # keep this comment

[tool.ruff]
line-length = 100

[tool.poetry]
# The packages.
packages = [{ include = "foo", from = "src" }]  # trailing comment
description = "A project"
include = ["data/*.txt"]

[tool.mypy]
strict = true
"#;

#[test]
fn only_tool_poetry_changes() {
    let options = ConverterOptions { keep_current_build_backend: true, ..Default::default() };
    assert_eq!(
        cleaned(options, AMONG_OTHER_SECTIONS),
        r#"# The project's metadata.
[project]
name = "foo" # keep this comment

[tool.ruff]
line-length = 100

[tool.poetry]
# The packages.
packages = [{ include = "foo", from = "src" }]  # trailing comment
include = ["data/*.txt"]

[tool.mypy]
strict = true
"#
    );
    assert_eq!(
        cleaned(ConverterOptions::default(), AMONG_OTHER_SECTIONS),
        r#"# The project's metadata.
[project]
name = "foo" # keep this comment

[tool.ruff]
line-length = 100

[tool.mypy]
strict = true
"#
    );
}

fn empty_project() -> Project {
    Project {
        name: None,
        version: None,
        description: None,
        authors: None,
        requires_python: None,
        readme: None,
        license: None,
        maintainers: None,
        keywords: None,
        classifiers: None,
        dependencies: None,
        optional_dependencies: None,
        urls: None,
        scripts: None,
        gui_scripts: None,
        entry_points: None,
        dynamic: None,
        remaining_fields: IndexMap::new(),
    }
}

fn poetry_build_system() -> Option<BuildSystem> {
    Some(BuildSystem {
        requires: vec!["poetry-core>=1.0.0".to_string()],
        build_backend: Some("poetry.core.masonry.api".to_string()),
    })
}

fn attempt<T>(backend: Option<T>, errors: &[&str]) -> BackendAttempt<T> {
    BackendAttempt { backend, errors: errors.iter().map(|e| e.to_string()).collect() }
}

#[test]
fn uv_pyproject_from_poetry() {
    let converter = poetry(ConverterOptions::default());
    let project = Project { description: Some("A project".to_string()), ..empty_project() };
    let (built, errors) = converter
        .build_uv_pyproject(
            WITH_BUILD_KEYS,
            poetry_build_system(),
            None,
            project,
            Some("foo".to_string()),
            Some("1.0.0".to_string()),
            Some("MIT".to_string()),
            Some(plugins()),
            Some(false),
            attempt(Some("uv settings"), &[]),
            attempt(Some("hatch settings"), &[]),
            PoetryLockContent::Parsed(vec![locked("bar", "2.0.0")]),
            Some("0.8.3"),
        )
        .unwrap();
    assert!(matches!(built.build_backend, Some(BuildBackendObject::Uv("uv settings"))));
    let build_system = built.build_system.unwrap();
    assert_eq!(build_system.requires, vec!["uv_build>=0.8.3,<0.9.0"]);
    assert_eq!(build_system.build_backend.as_deref(), Some("uv_build"));
    assert_eq!(built.project.name.as_deref(), Some("foo"));
    assert_eq!(built.project.version.as_deref(), Some("1.0.0"));
    assert_eq!(built.project.description.as_deref(), Some("A project"));
    assert_eq!(built.uv.constraint_dependencies, Some(vec!["bar==2.0.0".to_string()]));
    assert_eq!(built.uv.package, Some(false));
    assert!(matches!(built.project.license, Some(License::String(ref l)) if l == "MIT"));
    assert_eq!(built.console_scripts.unwrap().get("foo").map(String::as_str), Some("foo:main"));
    assert_eq!(built.project.gui_scripts.unwrap().get("bar").map(String::as_str), Some("bar:main"));
    let entry_points = built.project.entry_points.unwrap();
    assert_eq!(entry_points.keys().collect::<Vec<_>>(), vec!["pytest11"]);
    let document = built.document.to_string();
    assert!(!document.contains("[tool.poetry]"));
    assert!(document.contains("[project]\nname = \"foo\""));
    assert_eq!(errors.len(), 1);
    assert!(errors[0].recoverable);
    assert!(errors[0].error.starts_with("Build backend was migrated to uv."));
}

#[test]
fn uv_pyproject_from_poetry_defaults() {
    let options = ConverterOptions { build_backend: Some(BuildBackend::Hatch), ..Default::default() };
    let (built, errors) = poetry(options)
        .build_uv_pyproject(
            "[tool.poetry]\nname = \"foo\"\n",
            poetry_build_system(),
            None,
            empty_project(),
            None,
            None,
            None,
            None,
            None,
            attempt(Some(1u8), &[]),
            attempt(Some(2u8), &[]),
            PoetryLockContent::Unparsable,
            None,
        )
        .unwrap();
    assert!(matches!(built.build_backend, Some(BuildBackendObject::Hatch(2))));
    let build_system = built.build_system.unwrap();
    assert_eq!(build_system.requires, vec!["hatchling"]);
    assert_eq!(built.project.name.as_deref(), Some("project"));
    assert_eq!(built.project.version.as_deref(), Some("0.0.1"));
    assert_eq!(built.uv.constraint_dependencies, None);
    assert_eq!(built.uv.package, None);
    assert!(!built.document.to_string().contains("[tool.poetry]"));
    assert_eq!(errors.len(), 2);
    assert!(errors[0].error.ends_with("could not be parsed, so dependencies were not kept to their previous locked versions."));
    assert!(errors[1].error.starts_with("Build backend was migrated to Hatch."));
}

#[test]
fn uv_pyproject_from_poetry_keeps_current_sections() {
    let options = ConverterOptions { keep_current_build_backend: true, ..Default::default() };
    let current = Project { name: Some("current".to_string()), ..empty_project() };
    let (built, errors) = poetry(options)
        .build_uv_pyproject(
            WITH_BUILD_KEYS,
            poetry_build_system(),
            Some(current),
            empty_project(),
            Some("foo".to_string()),
            None,
            None,
            None,
            Some(true),
            attempt(Some(1u8), &[]),
            attempt(Some(2u8), &[]),
            PoetryLockContent::Missing,
            Some("0.8.3"),
        )
        .unwrap();
    assert!(built.build_backend.is_none());
    assert!(built.build_system.is_none());
    assert_eq!(built.project.name.as_deref(), Some("current"));
    assert!(built.document.to_string().contains("[tool.poetry]"));
    assert!(errors.is_empty());
}

#[test]
fn uv_pyproject_from_invalid_toml() {
    let r = poetry(ConverterOptions::default()).build_uv_pyproject(
        "[tool.poetry\n",
        None,
        None,
        empty_project(),
        None,
        None,
        None,
        None,
        None,
        attempt(Some(1u8), &[]),
        attempt(Some(2u8), &[]),
        PoetryLockContent::Missing,
        None,
    );
    assert!(r.is_none());
}

#[test]
fn constraint_dependencies_removed() {
    let content = "[project]\nname = \"foo\"\n\n[tool.uv]\npackage = false\nconstraint-dependencies = [\"bar==1.0\"]\n";
    assert_eq!(
        without_constraint_dependencies(content).as_deref(),
        Some("[project]\nname = \"foo\"\n\n[tool.uv]\npackage = false\n")
    );
}

#[test]
fn nothing_written_without_constraint_dependencies() {
    assert_eq!(without_constraint_dependencies("[tool.uv]\npackage = false\n"), None);
    assert_eq!(without_constraint_dependencies("[project]\nname = \"foo\"\n"), None);
    assert_eq!(without_constraint_dependencies("not = [toml"), None);
}

#[test]
fn pyproject_parsed_when_toml() {
    assert!(parse_pyproject("[project]\nname = \"foo\"\n").is_some());
    assert!(parse_pyproject("[project\n").is_none());
}

fn group(name: &str, reference: &str) -> IndexMap<String, String> {
    IndexMap::from([(name.to_string(), reference.to_string())])
}

fn plugins() -> IndexMap<String, IndexMap<String, String>> {
    IndexMap::from([
        ("console_scripts".to_string(), group("foo", "foo:main")),
        ("pytest11".to_string(), group("plugin", "foo.plugin")),
        ("gui_scripts".to_string(), group("bar", "bar:main")),
    ])
}

#[test]
fn plugins_split_into_scripts_and_entry_points() {
    let split = split_plugins(Some(plugins()));
    assert_eq!(split.console_scripts, Some(group("foo", "foo:main")));
    assert_eq!(split.gui_scripts, Some(group("bar", "bar:main")));
    assert_eq!(
        split.entry_points,
        Some(IndexMap::from([("pytest11".to_string(), group("plugin", "foo.plugin"))]))
    );
}

#[test]
fn plugins_without_scripts() {
    let only = IndexMap::from([("pytest11".to_string(), group("plugin", "foo.plugin"))]);
    let split = split_plugins(Some(only.clone()));
    assert_eq!(split.console_scripts, None);
    assert_eq!(split.gui_scripts, None);
    assert_eq!(split.entry_points, Some(only));
    let none = split_plugins(None);
    assert!(none.console_scripts.is_none() && none.gui_scripts.is_none() && none.entry_points.is_none());
}
