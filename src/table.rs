use crate::error::ConfigError;
use crate::value::{ConfigValue, TomlValue, ValueModel};
use vstd::prelude::*;

verus! {

/// Model of a table's contents: top-level key to value.
pub type TableModel = Map<Seq<char>, ValueModel>;

#[verifier::external_type_specification]
#[verifier::external_body]
#[verifier::reject_recursive_types(K)]
#[verifier::reject_recursive_types(V)]
pub struct ExTomlMap<K, V>(toml::map::Map<K, V>);

#[verifier::external_type_specification]
#[verifier::external_body]
pub struct ExTomlValue(toml::Value);

#[verifier::external_type_specification]
#[verifier::external_body]
pub struct ExTomlError(toml::de::Error);

/// What a TOML table holds: each top-level key with its value, a string,
/// integer, float or boolean as its payload and any other kind as unsupported.
pub uninterp spec fn toml_entries(t: toml::Table) -> TableModel;

/// The contents of the TOML document `text`, or `None` where it is not valid TOML.
pub uninterp spec fn toml_document(text: Seq<char>) -> Option<TableModel>;

/// Relies on toml's `FromStr for Table` (`toml::from_str`): the whole document
/// is parsed into a table, or the parse fails.
#[verifier::external_body]
fn parse_table(text: &str) -> (r: Result<toml::Table, toml::de::Error>)
    ensures
        match r {
            Ok(t) => toml_document(text@) == Some(toml_entries(t)),
            Err(_) => toml_document(text@) is None,
        },
{
    text.parse::<toml::Table>()
}

/// Relies on toml::map::Map::get: the value stored under `key`, if any,
/// carried over kind for kind.
#[verifier::external_body]
fn table_get(table: &toml::Table, key: &str) -> (r: Option<TomlValue>)
    ensures
        match r {
            None => !toml_entries(*table).contains_key(key@),
            Some(v) => toml_entries(*table).contains_key(key@) && toml_entries(*table)[key@]
                == v@,
        },
{
    match table.get(key) {
        None => None,
        Some(toml::Value::String(s)) => Some(TomlValue::Scalar(ConfigValue::String(s.clone()))),
        Some(toml::Value::Integer(i)) => Some(TomlValue::Scalar(ConfigValue::Int(*i))),
        Some(toml::Value::Float(f)) => Some(TomlValue::Scalar(ConfigValue::Float(f.to_bits()))),
        Some(toml::Value::Boolean(b)) => Some(TomlValue::Scalar(ConfigValue::Bool(*b))),
        Some(_) => Some(TomlValue::Unsupported),
    }
}

/// One parsed configuration file. Immutable once built.
pub struct FileTable {
    table: toml::Table,
}

impl View for FileTable {
    type V = TableModel;

    closed spec fn view(&self) -> TableModel {
        toml_entries(self.table)
    }
}

impl FileTable {
    /// Builds a table from a file's contents, `None` standing for a file that
    /// could not be read. Unreadable gives `NotFound`, unparsable `InvalidToml`.
    pub fn load(contents: Option<&str>) -> (r: Result<FileTable, ConfigError>)
        ensures
            match contents {
                None => r == Err::<FileTable, ConfigError>(ConfigError::NotFound),
                Some(text) => match toml_document(text@) {
                    Some(m) => r matches Ok(t) && t@ == m,
                    None => r == Err::<FileTable, ConfigError>(ConfigError::InvalidToml),
                },
            },
    {
        match contents {
            None => Err(ConfigError::NotFound),
            Some(text) => match parse_table(text) {
                Ok(table) => Ok(FileTable { table }),
                Err(_) => Err(ConfigError::InvalidToml),
            },
        }
    }

    /// The value stored under `key`, if any.
    pub fn get(&self, key: &str) -> (r: Option<TomlValue>)
        ensures
            match r {
                None => !self@.contains_key(key@),
                Some(v) => self@.contains_key(key@) && self@[key@] == v@,
            },
    {
        table_get(&self.table, key)
    }
}

} // verus!
