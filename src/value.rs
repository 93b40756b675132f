use vstd::prelude::*;

verus! {

/// A runtime value: a 32-bit or a 64-bit integer.
#[derive(Debug, Clone, Copy, PartialEq, Eq, Structural)]
pub enum Value {
    I32(i32),
    I64(i64),
}

/// The sum of two values of the same width, wrapping on overflow; none for
/// values of different widths.
pub open spec fn value_sum(lhs: Value, rhs: Value) -> Option<Value> {
    match (lhs, rhs) {
        (Value::I32(a), Value::I32(b)) => Some(Value::I32(vstd::wrapping::i32_specs::wrapping_add(a, b))),
        (Value::I64(a), Value::I64(b)) => Some(Value::I64(vstd::wrapping::i64_specs::wrapping_add(a, b))),
        _ => None,
    }
}

impl Value {
    /// Adds two values of the same width, wrapping on overflow. Values of
    /// different widths are never coerced: the result is then `None`.
    pub fn add(self, rhs: Value) -> (r: Option<Value>)
        ensures
            r == value_sum(self, rhs),
    {
        match (self, rhs) {
            (Value::I32(a), Value::I32(b)) => Some(Value::I32(a.wrapping_add(b))),
            (Value::I64(a), Value::I64(b)) => Some(Value::I64(a.wrapping_add(b))),
            _ => None,
        }
    }

    /// The zero value of a type.
    pub fn zero(t: crate::types::ValueType) -> (r: Value)
        ensures
            r == zero_of(t),
    {
        match t {
            crate::types::ValueType::I32 => Value::I32(0),
            crate::types::ValueType::I64 => Value::I64(0),
        }
    }
}

/// The zero value of a type.
pub open spec fn zero_of(t: crate::types::ValueType) -> Value {
    match t {
        crate::types::ValueType::I32 => Value::I32(0),
        crate::types::ValueType::I64 => Value::I64(0),
    }
}

impl From<i32> for Value {
    fn from(v: i32) -> Value {
        Value::I32(v)
    }
}

impl vstd::std_specs::convert::FromSpecImpl<i32> for Value {
    open spec fn obeys_from_spec() -> bool {
        true
    }

    open spec fn from_spec(v: i32) -> Value {
        Value::I32(v)
    }
}

impl From<i64> for Value {
    fn from(v: i64) -> Value {
        Value::I64(v)
    }
}

impl vstd::std_specs::convert::FromSpecImpl<i64> for Value {
    open spec fn obeys_from_spec() -> bool {
        true
    }

    open spec fn from_spec(v: i64) -> Value {
        Value::I64(v)
    }
}

} // verus!
