//! A plain stand-in for the engine's dynamic value type.
//!
//! The real engine exchanges a tagged, reference-counted value structure
//! across the foreign boundary; packing and unpacking it is the marshaling
//! collaborator's job.  The dispatch logic only ever moves such values
//! around, so here a value is a small closed enum of plain data.

use vstd::prelude::*;

verus! {

/// A dynamic value exchanged with the engine's script side.
pub enum Value {
    /// No value.
    Null,
    /// A boolean.
    Bool(bool),
    /// An integer.
    Int(i32),
    /// A string.
    Str(String),
}

impl Value {
    /// A fresh undefined value.
    pub fn new() -> (r: Value)
        ensures
            r is Null,
    {
        Value::Null
    }

    /// An equal copy of this value.
    pub fn duplicate(&self) -> (r: Value)
        ensures
            r == *self,
    {
        match self {
            Value::Null => Value::Null,
            Value::Bool(b) => Value::Bool(*b),
            Value::Int(i) => Value::Int(*i),
            Value::Str(s) => Value::Str(s.clone()),
        }
    }

    /// Whether this value is the null value.
    pub fn is_null(&self) -> (r: bool)
        ensures
            r == (self is Null),
    {
        match self {
            Value::Null => true,
            _ => false,
        }
    }
}

} // verus!
