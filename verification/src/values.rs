//! Constant values and interned names.

use vstd::prelude::*;

verus! {

/// A constant known at compile time.
#[derive(Clone, Copy, Debug, PartialEq, Eq, Structural)]
pub enum Value {
    /// The unit value `None`.
    NoneValue,
    /// A boolean.
    Bool(bool),
    /// An integer.
    Int(i64),
}

impl Value {
    /// What the value is when coerced to a boolean: the unit value and zero are
    /// false, a boolean is itself, every other integer is true.
    pub open spec fn truth(self) -> bool {
        match self {
            Value::NoneValue => false,
            Value::Bool(b) => b,
            Value::Int(i) => i != 0,
        }
    }

    /// The boolean literal `b`.
    pub fn new_bool(b: bool) -> (v: Value)
        ensures
            v == Value::Bool(b),
    {
        Value::Bool(b)
    }

    /// Coerces the value to a boolean.
    pub fn to_bool(&self) -> (b: bool)
        ensures
            b == self.truth(),
    {
        match self {
            Value::NoneValue => false,
            Value::Bool(b) => *b,
            Value::Int(i) => *i != 0,
        }
    }
}

/// An interned identifier: two symbols name the same identifier exactly when
/// their handles are equal.
#[derive(Clone, Copy, Debug, PartialEq, Eq, Structural)]
pub struct Symbol {
    /// The handle the interner gave to the identifier.
    pub id: u32,
}

} // verus!
