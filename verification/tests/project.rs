use indexmap::IndexMap;
use migrate_to_uv::options::ConverterOptions;
use migrate_to_uv::project::{License, Project};

fn empty_project() -> Project {
    Project {
        name: None,
        version: None,
        description: None,
        authors: None,
        requires_python: None,
        readme: None,
        license: None,
        maintainers: None,
        keywords: None,
        classifiers: None,
        dependencies: None,
        optional_dependencies: None,
        urls: None,
        scripts: None,
        gui_scripts: None,
        entry_points: None,
        dynamic: None,
        remaining_fields: IndexMap::new(),
    }
}

fn dynamic_version_project() -> Project {
    Project { dynamic: Some(vec!["version".to_string()]), ..empty_project() }
}

fn poetry_project(name: &str) -> Project {
    Project { name: Some(name.to_string()), ..empty_project() }
}

#[test]
fn dynamic_version_is_not_set() {
    let options = ConverterOptions::default();
    let r = options.build_project(Some(dynamic_version_project()), poetry_project("foo"), "1.2.3".to_string());
    assert_eq!(r.name.as_deref(), Some("foo"));
    assert_eq!(r.version, None);
    assert_eq!(r.dynamic, Some(vec!["version".to_string()]));
}

#[test]
fn dynamic_version_replaced_project_section() {
    let options = ConverterOptions { replace_project_section: true, ..Default::default() };
    let r = options.build_project(Some(dynamic_version_project()), poetry_project("foo"), "1.2.3".to_string());
    assert_eq!(r.name.as_deref(), Some("foo"));
    assert_eq!(r.version.as_deref(), Some("1.2.3"));
    assert_eq!(r.dynamic, None);
}

#[test]
fn version_set_without_current_project() {
    let options = ConverterOptions::default();
    let r = options.build_project(None, poetry_project("project"), "0.0.1".to_string());
    assert_eq!(r.name.as_deref(), Some("project"));
    assert_eq!(r.version.as_deref(), Some("0.0.1"));
}

#[test]
fn current_fields_win() {
    let options = ConverterOptions::default();
    let mut remaining = IndexMap::new();
    remaining.insert("custom".to_string(), toml::Value::Boolean(true));
    let current = Project {
        name: Some("current".to_string()),
        license: Some(License::Text { text: "MIT".to_string() }),
        remaining_fields: remaining,
        ..empty_project()
    };
    let new = Project {
        name: Some("new".to_string()),
        description: Some("desc".to_string()),
        requires_python: Some(">=3.12,<4".to_string()),
        license: Some(License::String("Apache-2.0".to_string())),
        ..empty_project()
    };
    let r = options.build_project(Some(current), new, "0.0.1".to_string());
    assert_eq!(r.name.as_deref(), Some("current"));
    assert_eq!(r.version.as_deref(), Some("0.0.1"));
    assert_eq!(r.description.as_deref(), Some("desc"));
    assert_eq!(r.requires_python.as_deref(), Some(">=3.12,<4"));
    assert!(matches!(r.license, Some(License::Text { ref text }) if text == "MIT"));
    assert_eq!(r.remaining_fields.get("custom"), Some(&toml::Value::Boolean(true)));
}

#[test]
fn current_version_wins() {
    let options = ConverterOptions::default();
    let current = Project { version: Some("9.9.9".to_string()), ..empty_project() };
    let r = options.build_project(Some(current), empty_project(), "0.0.1".to_string());
    assert_eq!(r.version.as_deref(), Some("9.9.9"));
}

#[test]
fn dynamic_other_fields_keep_version() {
    let options = ConverterOptions::default();
    let current = Project { dynamic: Some(vec!["readme".to_string()]), ..empty_project() };
    let r = options.build_project(Some(current), empty_project(), "0.0.1".to_string());
    assert_eq!(r.version.as_deref(), Some("0.0.1"));
}

#[test]
fn build_project_twice_is_build_project_once() {
    let options = ConverterOptions::default();
    let current = Project { description: Some("d".to_string()), ..empty_project() };
    let once = options.build_project(Some(current), poetry_project("foo"), "1.0.0".to_string());
    let twice = options.build_project(
        Some(Project { ..once }),
        poetry_project("foo"),
        "1.0.0".to_string(),
    );
    assert_eq!(twice.name.as_deref(), Some("foo"));
    assert_eq!(twice.description.as_deref(), Some("d"));
    assert_eq!(twice.version.as_deref(), Some("1.0.0"));
}
