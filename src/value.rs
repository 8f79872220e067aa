use vstd::prelude::*;

verus! {

/// The four scalar kinds that a lookup may ask for.
#[derive(Clone, Copy, Debug, PartialEq, Eq, Structural)]
pub enum ValueType {
    String,
    Integer,
    Float,
    Boolean,
}

/// Mathematical model of one value of a configuration table.
/// A float is modelled by its IEEE-754 binary64 bit pattern.
pub enum ValueModel {
    Text(Seq<char>),
    Integer(i64),
    Float(u64),
    Boolean(bool),
    /// An array, a nested table or a date-time: stored, but never returned.
    Unsupported,
}

impl ValueModel {
    /// The scalar kind of a value, or `None` for a kind that lookups cannot return.
    pub open spec fn kind(self) -> Option<ValueType> {
        match self {
            ValueModel::Text(_) => Some(ValueType::String),
            ValueModel::Integer(_) => Some(ValueType::Integer),
            ValueModel::Float(_) => Some(ValueType::Float),
            ValueModel::Boolean(_) => Some(ValueType::Boolean),
            ValueModel::Unsupported => None,
        }
    }
}

/// A successfully resolved configuration value.
/// `Float` carries the IEEE-754 binary64 bit pattern of the number
/// (`f64::from_bits` recovers it).
#[derive(Clone, Debug, PartialEq)]
pub enum ConfigValue {
    String(String),
    Int(i64),
    Float(u64),
    Bool(bool),
}

impl View for ConfigValue {
    type V = ValueModel;

    open spec fn view(&self) -> ValueModel {
        match self {
            ConfigValue::String(s) => ValueModel::Text(s@),
            ConfigValue::Int(i) => ValueModel::Integer(*i),
            ConfigValue::Float(b) => ValueModel::Float(*b),
            ConfigValue::Bool(b) => ValueModel::Boolean(*b),
        }
    }
}

impl ConfigValue {
    /// The scalar kind of this value.
    pub fn value_type(&self) -> (r: ValueType)
        ensures
            self@.kind() == Some(r),
    {
        match self {
            ConfigValue::String(_) => ValueType::String,
            ConfigValue::Int(_) => ValueType::Integer,
            ConfigValue::Float(_) => ValueType::Float,
            ConfigValue::Bool(_) => ValueType::Boolean,
        }
    }
}

/// A value as stored in a table: one of the scalar kinds, or a kind that
/// lookups do not interpret.
#[derive(Clone, Debug, PartialEq)]
pub enum TomlValue {
    Scalar(ConfigValue),
    Unsupported,
}

impl View for TomlValue {
    type V = ValueModel;

    open spec fn view(&self) -> ValueModel {
        match self {
            TomlValue::Scalar(v) => v@,
            TomlValue::Unsupported => ValueModel::Unsupported,
        }
    }
}

/// The Rust type name that a field declaration uses for each scalar kind.
pub open spec fn declared_name(t: ValueType) -> Seq<char> {
    match t {
        ValueType::String => seq!['S', 't', 'r', 'i', 'n', 'g'],
        ValueType::Integer => seq!['i', '6', '4'],
        ValueType::Float => seq!['f', '6', '4'],
        ValueType::Boolean => seq!['b', 'o', 'o', 'l'],
    }
}

/// The scalar kind that a declared field type name stands for, if any.
pub open spec fn type_named(name: Seq<char>) -> Option<ValueType> {
    if name == declared_name(ValueType::String) {
        Some(ValueType::String)
    } else if name == declared_name(ValueType::Integer) {
        Some(ValueType::Integer)
    } else if name == declared_name(ValueType::Float) {
        Some(ValueType::Float)
    } else if name == declared_name(ValueType::Boolean) {
        Some(ValueType::Boolean)
    } else {
        None
    }
}

/// Character-wise equality of two strings.
pub fn str_equal(a: &str, b: &str) -> (r: bool)
    ensures
        r == (a@ == b@),
{
    let n = a.unicode_len();
    if n != b.unicode_len() {
        return false;
    }
    let mut i: usize = 0;
    while i < n
        invariant
            n == a@.len(),
            n == b@.len(),
            i <= n,
            forall|j: int| 0 <= j < i ==> a@[j] == b@[j],
        decreases n - i,
    {
        if a.get_char(i) != b.get_char(i) {
            return false;
        }
        i = i + 1;
    }
    assert(a@ =~= b@);
    true
}

impl ValueType {
    /// The scalar kind for a declared field type name (`String`, `i64`, `f64`
    /// or `bool`); any other name is not a type that lookups can serve.
    pub fn from_type_name(name: &str) -> (r: Option<ValueType>)
        ensures
            r == type_named(name@),
    {
        proof {
            reveal_strlit("String");
            reveal_strlit("i64");
            reveal_strlit("f64");
            reveal_strlit("bool");
            assert("String"@ =~= declared_name(ValueType::String));
            assert("i64"@ =~= declared_name(ValueType::Integer));
            assert("f64"@ =~= declared_name(ValueType::Float));
            assert("bool"@ =~= declared_name(ValueType::Boolean));
        }
        if str_equal(name, "String") {
            Some(ValueType::String)
        } else if str_equal(name, "i64") {
            Some(ValueType::Integer)
        } else if str_equal(name, "f64") {
            Some(ValueType::Float)
        } else if str_equal(name, "bool") {
            Some(ValueType::Boolean)
        } else {
            None
        }
    }
}

} // verus!
