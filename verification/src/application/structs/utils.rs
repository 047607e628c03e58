//! Reading the `installed` field of a server's container, which the panel
//! sends as a boolean or as a number.

use vstd::prelude::*;

verus! {

/// A JSON value, as far as the `installed` field is concerned.
#[derive(Debug, Clone, Copy, PartialEq, Eq, Structural)]
pub enum JsonValue {
    /// `true` or `false`.
    Bool(bool),
    /// A number, with its value where it is a whole number from 0 to
    /// 2^64 - 1, and `None` where it is negative or has a fraction.
    Number(Option<u64>),
    /// `null`, a string, an array or an object.
    Other,
}

/// Why a JSON value cannot stand in the `installed` field.
#[derive(Debug, Clone, Copy, PartialEq, Eq, Structural)]
pub enum InstalledError {
    /// A number that is negative or has a fraction.
    NotU64,
    /// Neither a boolean nor a number.
    NotBoolOrNumber,
}

impl InstalledError {
    /// The words that the failure is reported with.
    pub open spec fn text(self) -> Seq<char> {
        match self {
            InstalledError::NotU64 => "Expected a number that can be converted to u64"@,
            InstalledError::NotBoolOrNumber => "Expected a boolean or number"@,
        }
    }

    /// The words that the failure is reported with.
    pub fn message(self) -> (s: &'static str)
        ensures
            s@ == self.text(),
    {
        match self {
            InstalledError::NotU64 => "Expected a number that can be converted to u64",
            InstalledError::NotBoolOrNumber => "Expected a boolean or number",
        }
    }
}

/// What a JSON value says in the `installed` field: a boolean says itself, a
/// whole number says whether it is other than zero, and nothing else is
/// accepted.
pub open spec fn installed_of(value: JsonValue) -> Result<bool, InstalledError> {
    match value {
        JsonValue::Number(Some(n)) => Ok(n != 0),
        JsonValue::Number(None) => Err(InstalledError::NotU64),
        JsonValue::Bool(b) => Ok(b),
        JsonValue::Other => Err(InstalledError::NotBoolOrNumber),
    }
}

/// Custom deserializer for the installed field that can handle both boolean and integer values
pub fn deserialize_installed(value: JsonValue) -> (r: Result<bool, InstalledError>)
    ensures
        r == installed_of(value),
{
    match value {
        JsonValue::Number(num) => {
            if let Some(num) = num {
                Ok(num != 0)
            } else {
                Err(InstalledError::NotU64)
            }
        },
        JsonValue::Bool(b) => Ok(b),
        JsonValue::Other => Err(InstalledError::NotBoolOrNumber),
    }
}

} // verus!
