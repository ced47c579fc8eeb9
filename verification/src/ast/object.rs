//! Typed values: literals, named variables, and last-result references.
//!
//! Owned text is carried as a sequence of codepoints (`Vec<char>`), matching
//! the codepoint-level input that all parsers work on.

use vstd::prelude::*;

verus! {

/// One of the primitive data types (*toki*, *nanpa*, or *lon*).
#[derive(Debug, Clone, Copy, PartialEq, Eq, Structural)]
pub enum PrimitiveType {
    /// Unicode text.
    Toki,
    /// 64-bit signed integer.
    Nanpa,
    /// Boolean value.
    Lon,
}

/// A value that has a [`PrimitiveType`].
pub trait TypedValue {
    /// The type of the value, as a specification-level function.
    spec fn spec_get_type(&self) -> PrimitiveType;

    /// Get the type of the value.
    fn get_type(&self) -> (r: PrimitiveType)
        ensures
            r == self.spec_get_type(),
    ;
}

/// A literal value (of either *toki*, *nanpa*, or *lon*).
#[derive(Debug, Clone, PartialEq, Eq)]
pub enum Literal {
    /// Owned text, as codepoints.
    Toki(Vec<char>),
    /// 64-bit signed integer.
    Nanpa(i64),
    /// Boolean value.
    Lon(bool),
}

impl TypedValue for Literal {
    open spec fn spec_get_type(&self) -> PrimitiveType {
        match self {
            Literal::Toki(_) => PrimitiveType::Toki,
            Literal::Nanpa(_) => PrimitiveType::Nanpa,
            Literal::Lon(_) => PrimitiveType::Lon,
        }
    }

    fn get_type(&self) -> (r: PrimitiveType) {
        match self {
            Literal::Toki(_) => PrimitiveType::Toki,
            Literal::Nanpa(_) => PrimitiveType::Nanpa,
            Literal::Lon(_) => PrimitiveType::Lon,
        }
    }
}

/// A named, statically typed variable.
#[derive(Debug, Clone, PartialEq, Eq)]
pub struct Variable {
    /// The variable's declared type.
    pub ptype: PrimitiveType,
    /// The variable's name, as codepoints.
    pub name: Vec<char>,
}

impl TypedValue for Variable {
    open spec fn spec_get_type(&self) -> PrimitiveType {
        self.ptype
    }

    fn get_type(&self) -> (r: PrimitiveType) {
        self.ptype
    }
}

/// A reference to *ni*, the special last-result slot. The type annotation
/// constrains what kind of value is expected there, not what is stored.
#[derive(Debug, Clone, PartialEq, Eq)]
pub struct NiRef {
    /// The type expected at the use site.
    pub ptype: PrimitiveType,
}

impl TypedValue for NiRef {
    open spec fn spec_get_type(&self) -> PrimitiveType {
        self.ptype
    }

    fn get_type(&self) -> (r: PrimitiveType) {
        self.ptype
    }
}

/// An object with a value: whatever may appear where a typed value is
/// syntactically expected.
#[derive(Debug, Clone, PartialEq, Eq)]
pub enum Object {
    /// A named variable.
    Variable(Variable),
    /// A literal value.
    Literal(Literal),
    /// A last-result reference.
    Ni(NiRef),
}

} // verus!
