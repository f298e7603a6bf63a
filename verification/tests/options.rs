use migrate_to_uv::options::{BuildBackend, ConverterOptions, DependencyGroupsStrategy};

#[test]
fn option_getters() {
    let options = ConverterOptions {
        project_path: "/tmp/project".to_string(),
        dry_run: true,
        skip_lock: true,
        replace_project_section: true,
        keep_current_build_backend: true,
        keep_old_metadata: true,
        ignore_errors: true,
        ignore_locked_versions: true,
        dependency_groups_strategy: Some(DependencyGroupsStrategy::MergeIntoDev),
        build_backend: Some(BuildBackend::Hatch),
        ..Default::default()
    };
    assert_eq!(options.get_project_path(), "/tmp/project");
    assert!(options.is_dry_run());
    assert!(options.skip_lock());
    assert!(options.replace_project_section());
    assert!(options.keep_current_build_backend());
    assert!(options.keep_old_metadata());
    assert!(options.ignore_errors());
    assert!(!options.respect_locked_versions());
    assert_eq!(options.get_dependency_groups_strategy(), Some(DependencyGroupsStrategy::MergeIntoDev));
    let defaults = ConverterOptions::default();
    assert!(defaults.respect_locked_versions());
    assert!(!defaults.is_dry_run());
    assert_eq!(defaults.get_dependency_groups_strategy(), None);
}
