use camellia::config_ext::{plan_sources, ConfigBuilderExt, ConfigSource, SourcedBuilder};
use camellia::options::UseConfigOptions;

#[test]
fn test_plan_default_schema_development() {
    let opts = UseConfigOptions::new();
    let plan = plan_sources(&opts, "development");
    assert_eq!(plan.len(), 3);
    assert_eq!(
        plan[0],
        ConfigSource::File { path: "config/default".to_string(), required: true }
    );
    assert_eq!(
        plan[1],
        ConfigSource::File { path: "config/development".to_string(), required: false }
    );
    assert_eq!(
        plan[2],
        ConfigSource::EnvVars { prefix: "DEFAULT".to_string(), separator: "__".to_string() }
    );
}

#[test]
fn test_plan_explicit_default_schema_matches_unset() {
    let unset = plan_sources(&UseConfigOptions::new(), "development");
    let explicit = plan_sources(&UseConfigOptions::new().with_schema("default"), "development");
    assert_eq!(unset, explicit);
}

#[test]
fn test_plan_custom_schema_paths_and_prefix() {
    let opts = UseConfigOptions::new().with_schema("myapp");
    let plan = plan_sources(&opts, "development");
    assert_eq!(plan.len(), 3);
    assert_eq!(
        plan[0],
        ConfigSource::File { path: "config/myapp/default".to_string(), required: true }
    );
    assert_eq!(
        plan[1],
        ConfigSource::File { path: "config/myapp/development".to_string(), required: false }
    );
    assert_eq!(
        plan[2],
        ConfigSource::EnvVars { prefix: "MYAPP".to_string(), separator: "__".to_string() }
    );
}

#[test]
fn test_plan_custom_environment_file() {
    let opts = UseConfigOptions::new();
    let plan = plan_sources(&opts, "staging");
    assert_eq!(plan.len(), 3);
    assert_eq!(
        plan[1],
        ConfigSource::File { path: "config/staging".to_string(), required: false }
    );
}

#[test]
fn test_plan_production_skips_env_file() {
    let opts = UseConfigOptions::new();
    let plan = plan_sources(&opts, "production");
    assert_eq!(plan.len(), 2);
    assert_eq!(
        plan[0],
        ConfigSource::File { path: "config/default".to_string(), required: true }
    );
    assert_eq!(
        plan[1],
        ConfigSource::EnvVars { prefix: "DEFAULT".to_string(), separator: "__".to_string() }
    );
    for s in &plan {
        if let ConfigSource::File { path, .. } = s {
            assert!(!path.contains("production"));
        }
    }
}

#[test]
fn test_plan_disable_env_has_no_var_source() {
    let opts = UseConfigOptions::new().with_disable_env();
    let plan = plan_sources(&opts, "development");
    assert_eq!(plan.len(), 2);
    assert_eq!(
        plan[0],
        ConfigSource::File { path: "config/default".to_string(), required: true }
    );
    assert_eq!(
        plan[1],
        ConfigSource::File { path: "config/development".to_string(), required: false }
    );
    for s in &plan {
        assert!(!matches!(s, ConfigSource::EnvVars { .. }));
    }
}

#[test]
fn test_missing_required_base_file_fails_build() {
    let opts = UseConfigOptions::new().with_disable_env();
    let b = SourcedBuilder::new().add_config_sources(opts, "production");
    assert!(b.build().is_err());
}

#[test]
fn test_custom_schema_missing_base_fails_build() {
    let opts = UseConfigOptions::new()
        .with_schema("no_such_schema")
        .with_disable_env();
    let b = SourcedBuilder::new().add_config_sources(opts, "production");
    assert!(b.build().is_err());
}

#[test]
fn test_load_merged_missing_base_errors() {
    let opts = UseConfigOptions::new().with_disable_env();
    assert!(camellia::config_ext::load_merged(opts, "production").is_err());
}

#[test]
fn test_empty_builder_builds() {
    assert!(SourcedBuilder::new().build().is_ok());
}
