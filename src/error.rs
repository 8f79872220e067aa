use crate::value::ValueType;
use vstd::prelude::*;

verus! {

/// Every way in which loading, construction or lookup can fail.
#[derive(Clone, Debug, PartialEq)]
pub enum ConfigError {
    /// The file could not be read, for whatever reason.
    NotFound,
    /// The file was read but is not a valid TOML document.
    InvalidToml,
    /// Neither tier holds the key.
    NoValueForKey(String),
    /// The key holds a value of another kind than the one asked for.
    IncorrectType(String, ValueType),
    /// No usable configuration source remained after loading.
    NoValidConfig,
    /// A declared field type outside `String`, `i64`, `f64` and `bool`.
    UnsupportedType(String),
    /// The environment selector variable is required but was not set.
    EnvVarNotSet(String),
}

/// Mathematical model of a `ConfigError`.
pub enum ErrorModel {
    NotFound,
    InvalidToml,
    NoValueForKey(Seq<char>),
    IncorrectType(Seq<char>, ValueType),
    NoValidConfig,
    UnsupportedType(Seq<char>),
    EnvVarNotSet(Seq<char>),
}

impl View for ConfigError {
    type V = ErrorModel;

    open spec fn view(&self) -> ErrorModel {
        match self {
            ConfigError::NotFound => ErrorModel::NotFound,
            ConfigError::InvalidToml => ErrorModel::InvalidToml,
            ConfigError::NoValueForKey(k) => ErrorModel::NoValueForKey(k@),
            ConfigError::IncorrectType(k, t) => ErrorModel::IncorrectType(k@, *t),
            ConfigError::NoValidConfig => ErrorModel::NoValidConfig,
            ConfigError::UnsupportedType(n) => ErrorModel::UnsupportedType(n@),
            ConfigError::EnvVarNotSet(n) => ErrorModel::EnvVarNotSet(n@),
        }
    }
}

} // verus!
