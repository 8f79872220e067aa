use confine::builder::ConfineConfigBuilder;
use confine::error::ConfigError;
use confine::paths::{base_path, overlay_path, select_environment, source_paths};
use confine::value::{str_equal, ValueType};

#[test]
fn paths_follow_the_naming_convention() {
    assert_eq!(base_path("config", "application"), "config/application.toml");
    assert_eq!(overlay_path("config", "application", "prod"), "config/application-prod.toml");
}

#[test]
fn no_environment_means_no_overlay_path() {
    let (base, overlay) = source_paths("dir", "app", None);
    assert_eq!(base, "dir/app.toml");
    assert_eq!(overlay, None);
    let (_, overlay) = source_paths("dir", "app", Some("dev"));
    assert_eq!(overlay, Some("dir/app-dev.toml".to_string()));
}

#[test]
fn builder_defaults() {
    let b = ConfineConfigBuilder::default();
    assert_eq!(b.env_var_name(), "CONFINE_ENV");
    assert_eq!(
        b.sources(Some("prod")),
        ("config/application.toml".to_string(), Some("config/application-prod.toml".to_string()))
    );
}

#[test]
fn builder_setters() {
    let b = ConfineConfigBuilder::default()
        .config_path("confine-demo/config".to_string())
        .env_var("ENVIRONMENT".to_string())
        .prefix("confine-demo".to_string());
    assert_eq!(b.env_var_name(), "ENVIRONMENT");
    assert_eq!(
        b.sources(None),
        ("confine-demo/config/confine-demo.toml".to_string(), None)
    );
}

#[test]
fn environment_selection() {
    assert_eq!(select_environment("E", Some("prod".to_string()), true), Ok(Some("prod".to_string())));
    assert_eq!(select_environment("E", None, false), Ok(None));
    assert_eq!(select_environment("E", None, true), Err(ConfigError::EnvVarNotSet("E".to_string())));
}

#[test]
fn type_names() {
    assert_eq!(ValueType::from_type_name("String"), Some(ValueType::String));
    assert_eq!(ValueType::from_type_name("i64"), Some(ValueType::Integer));
    assert_eq!(ValueType::from_type_name("f64"), Some(ValueType::Float));
    assert_eq!(ValueType::from_type_name("bool"), Some(ValueType::Boolean));
    assert_eq!(ValueType::from_type_name("i32"), None);
    assert_eq!(ValueType::from_type_name(""), None);
}

#[test]
fn string_equality() {
    assert!(str_equal("", ""));
    assert!(str_equal("héllo", "héllo"));
    assert!(!str_equal("abc", "abd"));
    assert!(!str_equal("ab", "abc"));
}
