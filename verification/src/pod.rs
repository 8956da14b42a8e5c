//! Values carried by the properties of SPA parameter objects.

use vstd::prelude::*;

verus! {

/// An enumerated identifier value.
#[derive(Clone, Copy, Debug, PartialEq, Eq, Structural)]
pub struct Id(pub u32);

/// A rational number, such as a sample rate.
#[derive(Clone, Copy, Debug, PartialEq, Eq, Structural)]
pub struct Fraction {
    pub num: u32,
    pub denom: u32,
}

/// A two-dimensional size.
#[derive(Clone, Copy, Debug, PartialEq, Eq, Structural)]
pub struct Rectangle {
    pub width: u32,
    pub height: u32,
}

/// Flags of a choice value.
#[derive(Clone, Copy, Debug, PartialEq, Eq, Structural)]
pub struct ChoiceFlags(pub u32);

impl ChoiceFlags {
    /// The empty flag set.
    pub fn empty() -> (r: ChoiceFlags)
        ensures
            r == ChoiceFlags(0),
    {
        ChoiceFlags(0)
    }
}

/// The admissible set of a negotiable value.
#[derive(Clone, Debug, PartialEq)]
pub enum ChoiceEnum<T> {
    /// Exactly one value.
    Fixed(T),
    /// An inclusive range with a preferred value.
    Range { default: T, min: T, max: T },
    /// An inclusive range with a step and a preferred value.
    Step { default: T, min: T, max: T, step: T },
    /// A preferred value and the list of admissible values.
    Enum { default: T, alternatives: Vec<T> },
    /// A preferred value and the admissible flag values.
    Flags { default: T, flags: Vec<T> },
}

/// A negotiable value with its flags.
#[derive(Clone, Debug, PartialEq)]
pub struct Choice<T>(pub ChoiceFlags, pub ChoiceEnum<T>);

/// A choice over one scalar kind.
#[derive(Clone, Debug, PartialEq)]
pub enum ChoiceValue {
    Bool(Choice<bool>),
    Int(Choice<i32>),
    Long(Choice<i64>),
    Id(Choice<Id>),
    Rectangle(Choice<Rectangle>),
    Fraction(Choice<Fraction>),
}

/// A homogeneous array of scalars.
#[derive(Clone, Debug, PartialEq)]
pub enum ValueArray {
    Bool(Vec<bool>),
    Id(Vec<Id>),
    Int(Vec<i32>),
    Long(Vec<i64>),
    Rectangle(Vec<Rectangle>),
    Fraction(Vec<Fraction>),
}

/// The value of one object property.
#[derive(Debug, PartialEq)]
pub enum Value {
    Bool(bool),
    Id(Id),
    Int(i32),
    Long(i64),
    String(String),
    Bytes(Vec<u8>),
    Rectangle(Rectangle),
    Fraction(Fraction),
    ValueArray(ValueArray),
    Choice(ChoiceValue),
    Struct(Vec<Value>),
}

/// Flags of an object property.
#[derive(Clone, Copy, Debug, PartialEq, Eq, Structural)]
pub struct PropertyFlags(pub u32);

/// One keyed property of a parameter object.
#[derive(Debug, PartialEq)]
pub struct Property {
    pub key: u32,
    pub flags: PropertyFlags,
    pub value: Value,
}

impl Property {
    /// A property with the given key and value and no flags.
    pub fn new(key: u32, value: Value) -> (r: Property)
        ensures
            r.key == key,
            r.flags == PropertyFlags(0),
            r.value == value,
    {
        Property { key, flags: PropertyFlags(0), value }
    }
}

/// A parameter object: its object type, its parameter identifier and its
/// properties in order.
#[derive(Debug, PartialEq)]
pub struct Object {
    pub type_: u32,
    pub id: u32,
    pub properties: Vec<Property>,
}

/// Whether `value` is the identifier `raw`.
pub open spec fn is_id_value(value: Value, raw: u32) -> bool {
    value matches Value::Id(id) && id.0 == raw
}

} // verus!
