use indexmap::IndexMap;
use migrate_to_uv::options::ConverterOptions;
use migrate_to_uv::pip::Pip;
use migrate_to_uv::project::Project;

fn pip(is_pip_tools: bool, options: ConverterOptions) -> Pip {
    Pip {
        converter_options: options,
        requirements_files: vec!["requirements.in".to_string(), "other.in".to_string()],
        dev_requirements_files: vec!["requirements-dev.in".to_string()],
        is_pip_tools,
    }
}

#[test]
fn package_manager_name() {
    assert_eq!(pip(false, ConverterOptions::default()).get_package_manager_name(), "pip");
    assert_eq!(pip(true, ConverterOptions::default()).get_package_manager_name(), "pip-tools");
}

#[test]
fn locked_versions_only_for_pip_tools() {
    assert!(!pip(false, ConverterOptions::default()).respect_locked_versions());
    assert!(pip(true, ConverterOptions::default()).respect_locked_versions());
    let ignore = ConverterOptions { ignore_locked_versions: true, ..Default::default() };
    assert!(!pip(true, ignore).respect_locked_versions());
}

#[test]
fn files_to_delete_pip() {
    assert_eq!(
        pip(false, ConverterOptions::default()).get_migrated_files_to_delete(),
        vec!["requirements.in", "other.in", "requirements-dev.in"]
    );
}

#[test]
fn files_to_delete_pip_tools() {
    assert_eq!(
        pip(true, ConverterOptions::default()).get_migrated_files_to_delete(),
        vec![
            "requirements.in",
            "requirements.txt",
            "other.in",
            "other.txt",
            "requirements-dev.in",
            "requirements-dev.txt"
        ]
    );
}

#[test]
fn constraint_files() {
    assert_eq!(
        pip(true, ConverterOptions::default()).constraint_dependency_files(),
        Some(vec!["requirements.txt".to_string(), "other.txt".to_string(), "requirements-dev.txt".to_string()])
    );
    assert_eq!(pip(false, ConverterOptions::default()).constraint_dependency_files(), None);
    let dry = ConverterOptions { dry_run: true, ..Default::default() };
    assert_eq!(pip(true, dry).constraint_dependency_files(), None);
    let ignore = ConverterOptions { ignore_locked_versions: true, ..Default::default() };
    assert_eq!(pip(true, ignore).constraint_dependency_files(), None);
}

#[test]
fn constraint_dependencies() {
    let p = pip(true, ConverterOptions::default());
    assert_eq!(
        p.get_constraint_dependencies(Some(vec!["foo==1.2.3".to_string()])),
        Some(vec!["foo==1.2.3".to_string()])
    );
    assert_eq!(p.get_constraint_dependencies(Some(vec![])), None);
    assert_eq!(p.get_constraint_dependencies(None), None);
    let p = pip(false, ConverterOptions::default());
    assert_eq!(p.get_constraint_dependencies(Some(vec!["foo==1.2.3".to_string()])), None);
}

#[test]
fn converter_options_are_the_pip_ones() {
    let options = ConverterOptions { skip_lock: true, ..Default::default() };
    let p = pip(false, options.clone());
    assert_eq!(p.get_converter_options(), &options);
}

#[test]
fn uv_pyproject_from_requirements() {
    let converter = pip(true, ConverterOptions::default());
    let built = converter
        .build_uv_pyproject(
            "[tool.ruff]\nline-length = 100\n",
            None,
            Some(vec!["foo==1.2.3".to_string()]),
            Some(vec!["pytest".to_string()]),
            Some(vec!["foo==1.2.3".to_string(), "bar==2.0".to_string()]),
        )
        .unwrap();
    assert_eq!(built.project.name.as_deref(), Some("project"));
    assert_eq!(built.project.version.as_deref(), Some("0.0.1"));
    assert_eq!(built.project.dependencies, Some(vec!["foo==1.2.3".to_string()]));
    assert_eq!(built.dev_dependencies, Some(vec!["pytest".to_string()]));
    assert_eq!(
        built.uv.constraint_dependencies,
        Some(vec!["foo==1.2.3".to_string(), "bar==2.0".to_string()])
    );
    assert_eq!(built.uv.package, Some(false));
    assert!(built.project.remaining_fields.is_empty());
    assert_eq!(built.document.to_string(), "[tool.ruff]\nline-length = 100\n");
    assert!(converter.build_uv_pyproject("[tool", None, None, None, None).is_none());
}

#[test]
fn uv_pyproject_keeps_dynamic_version() {
    let current = Project {
        name: None,
        version: None,
        description: None,
        authors: None,
        requires_python: None,
        readme: None,
        license: None,
        maintainers: None,
        keywords: None,
        classifiers: None,
        dependencies: None,
        optional_dependencies: None,
        urls: None,
        scripts: None,
        gui_scripts: None,
        entry_points: None,
        dynamic: Some(vec!["version".to_string()]),
        remaining_fields: IndexMap::new(),
    };
    let converter = pip(false, ConverterOptions::default());
    let built = converter.build_uv_pyproject("", Some(current), None, None, None).unwrap();
    assert_eq!(built.project.name.as_deref(), Some("project"));
    assert_eq!(built.project.version, None);
    assert_eq!(built.uv.constraint_dependencies, None);
    assert_eq!(built.uv.package, Some(false));
}

fn dynamic_version_project() -> Project {
    let mut fields = IndexMap::new();
    fields.insert("custom".to_string(), toml::Value::Integer(1));
    Project {
        name: None,
        version: None,
        description: None,
        authors: None,
        requires_python: None,
        readme: None,
        license: None,
        maintainers: None,
        keywords: None,
        classifiers: None,
        dependencies: None,
        optional_dependencies: None,
        urls: None,
        scripts: None,
        gui_scripts: None,
        entry_points: None,
        dynamic: Some(vec!["version".to_string()]),
        remaining_fields: fields,
    }
}

#[test]
fn uv_pyproject_dynamic_version() {
    let options = ConverterOptions {
        dry_run: true,
        skip_lock: true,
        ignore_locked_versions: true,
        ..Default::default()
    };
    let converter = Pip {
        converter_options: options,
        requirements_files: vec!["requirements.txt".to_string()],
        dev_requirements_files: vec![],
        is_pip_tools: false,
    };
    let built = converter
        .build_uv_pyproject(
            "[project]\ndependencies = [\"foo==1.2.3\"]\ndynamic = [\"version\"]\n",
            Some(dynamic_version_project()),
            Some(vec!["foo==1.2.3".to_string()]),
            None,
            None,
        )
        .unwrap();
    assert_eq!(built.project.name.as_deref(), Some("project"));
    assert_eq!(built.project.version, None);
    assert_eq!(built.project.dependencies, Some(vec!["foo==1.2.3".to_string()]));
    assert_eq!(built.project.dynamic, Some(vec!["version".to_string()]));
    assert_eq!(built.project.remaining_fields.len(), 1);
    assert_eq!(built.uv.package, Some(false));
}

#[test]
fn uv_pyproject_dynamic_version_replace_project_section() {
    let options = ConverterOptions {
        dry_run: true,
        skip_lock: true,
        ignore_locked_versions: true,
        replace_project_section: true,
        ..Default::default()
    };
    let converter = Pip {
        converter_options: options,
        requirements_files: vec!["requirements.txt".to_string()],
        dev_requirements_files: vec![],
        is_pip_tools: false,
    };
    let built = converter
        .build_uv_pyproject(
            "[project]\ndynamic = [\"version\"]\n",
            Some(dynamic_version_project()),
            Some(vec!["foo==1.2.3".to_string()]),
            None,
            None,
        )
        .unwrap();
    assert_eq!(built.project.name.as_deref(), Some("project"));
    assert_eq!(built.project.version.as_deref(), Some("0.0.1"));
    assert_eq!(built.project.dependencies, Some(vec!["foo==1.2.3".to_string()]));
    assert_eq!(built.project.dynamic, None);
    assert!(built.project.remaining_fields.is_empty());
    assert_eq!(built.uv.package, Some(false));
}
