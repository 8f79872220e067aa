use confine::config::{typed_value, Config};
use confine::error::ConfigError;
use confine::table::FileTable;
use confine::value::{ConfigValue, TomlValue, ValueType};

fn table(text: &str) -> FileTable {
    FileTable::load(Some(text)).unwrap()
}

fn base_only(text: &str) -> Config {
    Config::new(Ok(table(text)), None).unwrap()
}

fn two_tier(base: &str, overlay: &str) -> Config {
    Config::new(Ok(table(base)), Some(Ok(table(overlay)))).unwrap()
}

#[test]
fn base_integer_is_returned() {
    let c = base_only("my_int = 42\n");
    assert_eq!(c.get("my_int", ValueType::Integer), Ok(ConfigValue::Int(42)));
}

#[test]
fn overlay_boolean_wins() {
    let c = two_tier("my_bool = true\n", "my_bool = false\n");
    assert_eq!(c.get("my_bool", ValueType::Boolean), Ok(ConfigValue::Bool(false)));
}

#[test]
fn both_files_absent_is_fatal() {
    let r = Config::new(FileTable::load(None), Some(FileTable::load(None)));
    assert!(matches!(r, Err(ConfigError::NoValidConfig)));
}

#[test]
fn string_requested_as_integer_fails() {
    let c = base_only("my_string = \"hi\"\n");
    assert_eq!(
        c.get("my_string", ValueType::Integer),
        Err(ConfigError::IncorrectType("my_string".to_string(), ValueType::Integer))
    );
}

#[test]
fn missing_key_fails() {
    let c = base_only("my_int = 1\n");
    assert_eq!(
        c.get("missing", ValueType::String),
        Err(ConfigError::NoValueForKey("missing".to_string()))
    );
}

#[test]
fn base_serves_keys_the_overlay_lacks() {
    let c = two_tier("a = 1\nb = \"base\"\n", "a = 2\n");
    assert_eq!(c.get("a", ValueType::Integer), Ok(ConfigValue::Int(2)));
    assert_eq!(c.get("b", ValueType::String), Ok(ConfigValue::String("base".to_string())));
}

#[test]
fn overlay_only_resolver() {
    let c = Config::new(FileTable::load(None), Some(Ok(table("x = 3\n")))).unwrap();
    assert_eq!(c.get("x", ValueType::Integer), Ok(ConfigValue::Int(3)));
    assert_eq!(c.get("y", ValueType::Integer), Err(ConfigError::NoValueForKey("y".to_string())));
}

#[test]
fn failed_overlay_is_tolerated() {
    let c = Config::new(Ok(table("x = 1\n")), Some(FileTable::load(Some("not = = toml")))).unwrap();
    assert_eq!(c.get("x", ValueType::Integer), Ok(ConfigValue::Int(1)));
}

#[test]
fn missing_base_without_environment_is_fatal() {
    let r = Config::new(FileTable::load(None), None);
    assert!(matches!(r, Err(ConfigError::NoValidConfig)));
}

#[test]
fn invalid_base_with_invalid_overlay_is_fatal() {
    let r = Config::new(FileTable::load(Some("[[[")), Some(FileTable::load(Some("= 1"))));
    assert!(matches!(r, Err(ConfigError::NoValidConfig)));
}

#[test]
fn integer_is_not_widened_to_float() {
    let c = base_only("n = 5\n");
    assert_eq!(
        c.get("n", ValueType::Float),
        Err(ConfigError::IncorrectType("n".to_string(), ValueType::Float))
    );
}

#[test]
fn float_is_returned_as_its_bits() {
    let c = base_only("pi = 3.5\n");
    assert_eq!(c.get("pi", ValueType::Float), Ok(ConfigValue::Float(3.5f64.to_bits())));
}

#[test]
fn repeated_lookups_agree() {
    let c = two_tier("k = \"a\"\n", "k = \"b\"\n");
    let first = c.get("k", ValueType::String);
    let second = c.get("k", ValueType::String);
    assert_eq!(first, second);
    assert_eq!(first, Ok(ConfigValue::String("b".to_string())));
    let m1 = c.get("nope", ValueType::Boolean);
    assert_eq!(m1, c.get("nope", ValueType::Boolean));
}

#[test]
fn unsupported_overlay_value_shadows_base() {
    let c = two_tier("k = 1\n", "[k]\ninner = 2\n");
    assert_eq!(
        c.get("k", ValueType::Integer),
        Err(ConfigError::IncorrectType("k".to_string(), ValueType::Integer))
    );
}

#[test]
fn arrays_are_not_scalars() {
    let c = base_only("list = [1, 2]\n");
    assert_eq!(
        c.get("list", ValueType::Integer),
        Err(ConfigError::IncorrectType("list".to_string(), ValueType::Integer))
    );
}

#[test]
fn nested_keys_are_not_traversed() {
    let c = base_only("[server]\nport = 80\n");
    assert_eq!(
        c.get("port", ValueType::Integer),
        Err(ConfigError::NoValueForKey("port".to_string()))
    );
}

#[test]
fn load_reports_unreadable_and_invalid_distinctly() {
    assert!(matches!(FileTable::load(None), Err(ConfigError::NotFound)));
    assert!(matches!(FileTable::load(Some("a = ")), Err(ConfigError::InvalidToml)));
    assert!(FileTable::load(Some("")).is_ok());
}

#[test]
fn file_table_get_reads_values() {
    let t = table("s = \"x\"\ni = -7\nb = true\nd = 1979-05-27\n");
    assert_eq!(t.get("s"), Some(TomlValue::Scalar(ConfigValue::String("x".to_string()))));
    assert_eq!(t.get("i"), Some(TomlValue::Scalar(ConfigValue::Int(-7))));
    assert_eq!(t.get("b"), Some(TomlValue::Scalar(ConfigValue::Bool(true))));
    assert_eq!(t.get("d"), Some(TomlValue::Unsupported));
    assert_eq!(t.get("z"), None);
}

#[test]
fn typed_value_checks_kind_exactly() {
    let found = Some(TomlValue::Scalar(ConfigValue::Bool(true)));
    assert_eq!(typed_value("f", found.clone(), ValueType::Boolean), Ok(ConfigValue::Bool(true)));
    assert_eq!(
        typed_value("f", found, ValueType::String),
        Err(ConfigError::IncorrectType("f".to_string(), ValueType::String))
    );
    assert_eq!(
        typed_value("f", None, ValueType::String),
        Err(ConfigError::NoValueForKey("f".to_string()))
    );
}

#[test]
fn fields_resolve_in_order() {
    let c = two_tier("my_int = 42\nmy_string = \"hi\"\n", "my_bool = true\n");
    let fields = vec![
        ("my_int".to_string(), "i64".to_string()),
        ("my_string".to_string(), "String".to_string()),
        ("my_bool".to_string(), "bool".to_string()),
    ];
    assert_eq!(
        c.resolve_fields(&fields),
        Ok(vec![
            ConfigValue::Int(42),
            ConfigValue::String("hi".to_string()),
            ConfigValue::Bool(true)
        ])
    );
}

#[test]
fn unsupported_field_type_is_refused() {
    let c = base_only("my_int = 42\n");
    let fields = vec![
        ("my_int".to_string(), "i64".to_string()),
        ("my_int".to_string(), "i32".to_string()),
        ("missing".to_string(), "String".to_string()),
    ];
    assert_eq!(c.resolve_fields(&fields), Err(ConfigError::UnsupportedType("i32".to_string())));
}

#[test]
fn first_failing_field_is_reported() {
    let c = base_only("my_int = 42\n");
    let fields = vec![
        ("missing".to_string(), "String".to_string()),
        ("my_int".to_string(), "i32".to_string()),
    ];
    assert_eq!(c.resolve_fields(&fields), Err(ConfigError::NoValueForKey("missing".to_string())));
}
