//! Scalar values that a mapping document can hold.

use vstd::prelude::*;

verus! {

/// A 32-bit IEEE 754 number, carried through by its bit pattern.
///
/// The library never interprets the number: a boost given by the caller
/// reaches the document bit for bit.
#[derive(Debug, Clone, Copy, PartialEq, Eq)]
pub struct Float32 {
    /// The IEEE 754 binary32 encoding of the number.
    pub bits: u32,
}

impl Float32 {
    /// The number with the given IEEE 754 binary32 encoding.
    pub fn from_bits(bits: u32) -> (number: Float32)
        ensures
            number.bits == bits,
    {
        Float32 { bits }
    }

    /// The IEEE 754 binary32 encoding of the number.
    pub fn to_bits(&self) -> (bits: u32)
        ensures
            bits == self.bits,
    {
        self.bits
    }
}

/// A scalar value of a document entry.
#[derive(Debug, Clone, Copy, PartialEq, Eq)]
pub enum Value {
    /// A string, such as an analyzer name or an enumerated token.
    Str(&'static str),
    /// A flag.
    Bool(bool),
    /// An unsigned 32-bit integer.
    Unsigned(u32),
    /// A 32-bit floating-point number.
    Float(Float32),
}

/// The mathematical content of a [`Value`]: a string is its characters.
pub enum ValueView {
    /// The characters of a string.
    Str(Seq<char>),
    /// A flag.
    Bool(bool),
    /// An unsigned 32-bit integer.
    Unsigned(u32),
    /// A 32-bit floating-point number, by its bit pattern.
    Float(Float32),
}

impl View for Value {
    type V = ValueView;

    open spec fn view(&self) -> ValueView {
        match *self {
            Value::Str(s) => ValueView::Str(s@),
            Value::Bool(b) => ValueView::Bool(b),
            Value::Unsigned(n) => ValueView::Unsigned(n),
            Value::Float(x) => ValueView::Float(x),
        }
    }
}

/// The content of an optional value.
pub open spec fn view_opt(value: Option<Value>) -> Option<ValueView> {
    match value {
        Some(v) => Some(v@),
        None => None,
    }
}

/// The content of an optional string parameter.
pub open spec fn str_view(text: Option<&'static str>) -> Option<ValueView> {
    match text {
        Some(s) => Some(ValueView::Str(s@)),
        None => None,
    }
}

/// The content of an optional flag parameter.
pub open spec fn bool_view(flag: Option<bool>) -> Option<ValueView> {
    match flag {
        Some(b) => Some(ValueView::Bool(b)),
        None => None,
    }
}

/// The content of an optional unsigned parameter.
pub open spec fn unsigned_view(number: Option<u32>) -> Option<ValueView> {
    match number {
        Some(n) => Some(ValueView::Unsigned(n)),
        None => None,
    }
}

/// The content of an optional floating-point parameter.
pub open spec fn float_view(number: Option<Float32>) -> Option<ValueView> {
    match number {
        Some(x) => Some(ValueView::Float(x)),
        None => None,
    }
}

/// An optional string as an optional document value.
pub fn str_value(text: Option<&'static str>) -> (value: Option<Value>)
    ensures
        view_opt(value) == str_view(text),
{
    match text {
        Some(s) => Some(Value::Str(s)),
        None => None,
    }
}

/// An optional flag as an optional document value.
pub fn bool_value(flag: Option<bool>) -> (value: Option<Value>)
    ensures
        view_opt(value) == bool_view(flag),
{
    match flag {
        Some(b) => Some(Value::Bool(b)),
        None => None,
    }
}

/// An optional unsigned integer as an optional document value.
pub fn unsigned_value(number: Option<u32>) -> (value: Option<Value>)
    ensures
        view_opt(value) == unsigned_view(number),
{
    match number {
        Some(n) => Some(Value::Unsigned(n)),
        None => None,
    }
}

/// An optional floating-point number as an optional document value.
pub fn float_value(number: Option<Float32>) -> (value: Option<Value>)
    ensures
        view_opt(value) == float_view(number),
{
    match number {
        Some(x) => Some(Value::Float(x)),
        None => None,
    }
}

} // verus!
