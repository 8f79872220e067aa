use crate::error::{ConfigError, ErrorModel};
use crate::table::{FileTable, TableModel};
use crate::value::{type_named, ConfigValue, TomlValue, ValueModel, ValueType};
use vstd::prelude::*;

verus! {

/// The tables that loading produced: `Some` for a usable one.
pub open spec fn loaded(r: Result<FileTable, ConfigError>) -> Option<TableModel> {
    match r {
        Ok(t) => Some(t@),
        Err(_) => None,
    }
}

/// The value that a lookup of `key` selects: the overlay's where it holds the
/// key, else the base's, else none.
pub open spec fn select(overlay: Option<TableModel>, base: Option<TableModel>, key: Seq<char>) -> Option<ValueModel> {
    if overlay is Some && overlay->0.contains_key(key) {
        Some(overlay->0[key])
    } else if base is Some && base->0.contains_key(key) {
        Some(base->0[key])
    } else {
        None
    }
}

/// The outcome of asking for `key` as kind `ty`, given the selected value.
/// Precedence is decided before the kind is checked.
pub open spec fn extract(key: Seq<char>, found: Option<ValueModel>, ty: ValueType) -> Result<ValueModel, ErrorModel> {
    match found {
        None => Err(ErrorModel::NoValueForKey(key)),
        Some(v) => if v.kind() == Some(ty) {
            Ok(v)
        } else {
            Err(ErrorModel::IncorrectType(key, ty))
        },
    }
}

/// Model of a lookup result.
pub open spec fn outcome(r: Result<ConfigValue, ConfigError>) -> Result<ValueModel, ErrorModel> {
    match r {
        Ok(v) => Ok(v@),
        Err(e) => Err(e@),
    }
}

/// The view of an optional stored value.
pub open spec fn found_view(found: Option<TomlValue>) -> Option<ValueModel> {
    match found {
        Some(v) => Some(v@),
        None => None,
    }
}

/// Turns the value selected for `key` into the result of a lookup for kind
/// `ty`: no value gives `NoValueForKey`, a value of another kind
/// `IncorrectType`, with no conversion between kinds.
pub fn typed_value(key: &str, found: Option<TomlValue>, ty: ValueType) -> (r: Result<ConfigValue, ConfigError>)
    ensures
        outcome(r) == extract(key@, found_view(found), ty),
{
    match found {
        None => Err(ConfigError::NoValueForKey(key.to_owned())),
        Some(TomlValue::Scalar(v)) => {
            if v.value_type() == ty {
                Ok(v)
            } else {
                Err(ConfigError::IncorrectType(key.to_owned(), ty))
            }
        },
        Some(TomlValue::Unsupported) => Err(ConfigError::IncorrectType(key.to_owned(), ty)),
    }
}

/// A resolver over a base table and an optional environment overlay.
/// At least one of the two is present; neither changes after construction.
pub struct Config {
    base_table: Option<FileTable>,
    env_table: Option<FileTable>,
}

impl Config {
    /// The base tier's contents, if it loaded.
    pub closed spec fn base(&self) -> Option<TableModel> {
        match self.base_table {
            Some(t) => Some(t@),
            None => None,
        }
    }

    /// The overlay tier's contents, if it loaded.
    pub closed spec fn overlay(&self) -> Option<TableModel> {
        match self.env_table {
            Some(t) => Some(t@),
            None => None,
        }
    }

    /// What a lookup of `key` as kind `ty` gives on this resolver.
    pub open spec fn lookup(&self, key: Seq<char>, ty: ValueType) -> Result<ValueModel, ErrorModel> {
        extract(key, select(self.overlay(), self.base(), key), ty)
    }

    /// What resolving one declared field (`name`, type name `ty_name`) gives:
    /// an unknown type name is refused before any lookup.
    pub open spec fn field_outcome(&self, name: Seq<char>, ty_name: Seq<char>) -> Result<ValueModel, ErrorModel> {
        match type_named(ty_name) {
            None => Err(ErrorModel::UnsupportedType(ty_name)),
            Some(ty) => self.lookup(name, ty),
        }
    }

    /// Combines the outcomes of loading the base file and, where an
    /// environment was given, the overlay file (`overlay` is `None` where no
    /// environment was given). A failed overlay is tolerated; construction
    /// fails with `NoValidConfig` exactly when no table at all is usable.
    pub fn new(base: Result<FileTable, ConfigError>, overlay: Option<Result<FileTable, ConfigError>>) -> (r: Result<Config, ConfigError>)
        ensures
            // no usable table at all is fatal; a missing overlay alone is not
            r is Err <==> (base is Err && (overlay is None || overlay->0 is Err)),
            r is Err ==> r->Err_0 == ConfigError::NoValidConfig,
            r is Ok ==> {
                let c = r->Ok_0;
                &&& c.base() == loaded(base)
                &&& c.overlay() == match overlay {
                    Some(o) => loaded(o),
                    None => None,
                }
                &&& (c.base() is Some || c.overlay() is Some)
            },
    {
        let base_table = match base {
            Ok(t) => Some(t),
            Err(_) => None,
        };
        let env_table = match overlay {
            Some(Ok(t)) => Some(t),
            _ => None,
        };
        if base_table.is_none() && env_table.is_none() {
            return Err(ConfigError::NoValidConfig);
        }
        Ok(Config { base_table, env_table })
    }

    /// The value of `key`, which must be of kind `ty`: the overlay's where it
    /// holds the key, else the base's.
    pub fn get(&self, key: &str, ty: ValueType) -> (r: Result<ConfigValue, ConfigError>)
        ensures
            outcome(r) == self.lookup(key@, ty),
    {
        let mut found: Option<TomlValue> = None;
        if let Some(t) = &self.env_table {
            found = t.get(key);
        }
        if found.is_none() {
            if let Some(t) = &self.base_table {
                found = t.get(key);
            }
        }
        typed_value(key, found, ty)
    }

    /// Resolves a list of declared fields, each a name and a type name, in
    /// order: the values of all of them, or the failure of the first that fails.
    pub fn resolve_fields(&self, fields: &Vec<(String, String)>) -> (r: Result<Vec<ConfigValue>, ConfigError>)
        ensures
            match r {
                Ok(vals) => vals.len() == fields.len() && forall|i: int|
                    0 <= i < fields.len() ==> self.field_outcome(fields@[i].0@, fields@[i].1@)
                        == Ok::<ValueModel, ErrorModel>(#[trigger] vals@[i]@),
                Err(e) => exists|i: int|
                    0 <= i < fields.len() && #[trigger] self.field_outcome(fields@[i].0@, fields@[i].1@)
                        == Err::<ValueModel, ErrorModel>(e@) && forall|j: int|
                        0 <= j < i ==> (#[trigger] self.field_outcome(fields@[j].0@, fields@[j].1@)) is Ok,
            },
    {
        let mut vals: Vec<ConfigValue> = Vec::new();
        let mut i: usize = 0;
        while i < fields.len()
            invariant
                i <= fields.len(),
                vals.len() == i,
                forall|j: int|
                    0 <= j < i ==> self.field_outcome(fields@[j].0@, fields@[j].1@)
                        == Ok::<ValueModel, ErrorModel>(#[trigger] vals@[j]@),
            decreases fields.len() - i,
        {
            let name = &fields[i].0;
            let ty_name = &fields[i].1;
            let ty = match ValueType::from_type_name(ty_name.as_str()) {
                Some(ty) => ty,
                None => {
                    assert(forall|j: int| 0 <= j < i ==> (#[trigger] self.field_outcome(fields@[j].0@, fields@[j].1@)) is Ok) by {
                        assert forall|j: int| 0 <= j < i implies (#[trigger] self.field_outcome(fields@[j].0@, fields@[j].1@)) is Ok by {
                            assert(self.field_outcome(fields@[j].0@, fields@[j].1@) == Ok::<ValueModel, ErrorModel>(vals@[j]@));
                        }
                    }
                    let err = ConfigError::UnsupportedType(ty_name.clone());
                    assert(self.field_outcome(fields@[i as int].0@, fields@[i as int].1@)
                        == Err::<ValueModel, ErrorModel>(err@));
                    return Err(err);
                },
            };
            match self.get(name.as_str(), ty) {
                Ok(v) => {
                    vals.push(v);
                },
                Err(e) => {
                    assert(forall|j: int| 0 <= j < i ==> (#[trigger] self.field_outcome(fields@[j].0@, fields@[j].1@)) is Ok) by {
                        assert forall|j: int| 0 <= j < i implies (#[trigger] self.field_outcome(fields@[j].0@, fields@[j].1@)) is Ok by {
                            assert(self.field_outcome(fields@[j].0@, fields@[j].1@) == Ok::<ValueModel, ErrorModel>(vals@[j]@));
                        }
                    }
                    assert(self.field_outcome(fields@[i as int].0@, fields@[i as int].1@)
                        == Err::<ValueModel, ErrorModel>(e@));
                    return Err(e);
                },
            }
            i = i + 1;
        }
        Ok(vals)
    }
}

/// Precedence: a key that the overlay holds resolves to the overlay's value
/// (checked against the kind asked for), whatever the base holds.
pub proof fn overlay_takes_precedence(c: Config, key: Seq<char>, ty: ValueType)
    requires
        c.overlay() is Some,
        c.overlay()->0.contains_key(key),
    ensures
        c.lookup(key, ty) == extract(key, Some(c.overlay()->0[key]), ty),
        c.overlay()->0[key].kind() == Some(ty) ==> c.lookup(key, ty) == Ok::<ValueModel, ErrorModel>(
            c.overlay()->0[key],
        ),
{
}

/// Precedence: a key that only the base holds resolves to the base's value.
pub proof fn base_serves_what_overlay_lacks(c: Config, key: Seq<char>, ty: ValueType)
    requires
        c.overlay() is None || !c.overlay()->0.contains_key(key),
        c.base() is Some,
        c.base()->0.contains_key(key),
    ensures
        c.lookup(key, ty) == extract(key, Some(c.base()->0[key]), ty),
        c.base()->0[key].kind() == Some(ty) ==> c.lookup(key, ty) == Ok::<ValueModel, ErrorModel>(
            c.base()->0[key],
        ),
{
}

/// Type exactness: a value whose kind differs from the one asked for is
/// never converted; the lookup fails with `IncorrectType`.
pub proof fn mismatched_kind_is_refused(c: Config, key: Seq<char>, ty: ValueType)
    requires
        select(c.overlay(), c.base(), key) matches Some(v) && v.kind() != Some(ty),
    ensures
        c.lookup(key, ty) == Err::<ValueModel, ErrorModel>(ErrorModel::IncorrectType(key, ty)),
{
}

/// Idempotence: two lookups of the same key and kind on one resolver give
/// the same result.
pub proof fn lookup_is_idempotent(
    c: Config,
    key: Seq<char>,
    ty: ValueType,
    r1: Result<ConfigValue, ConfigError>,
    r2: Result<ConfigValue, ConfigError>,
)
    requires
        outcome(r1) == c.lookup(key, ty),
        outcome(r2) == c.lookup(key, ty),
    ensures
        outcome(r1) == outcome(r2),
{
}

} // verus!
