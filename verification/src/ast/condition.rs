//! Conditions: binary relations and quantified equalities over objects.

use vstd::prelude::*;

use crate::ast::object::Object;

verus! {

/// Both objects are equal.
#[derive(Debug, Clone, PartialEq, Eq)]
pub struct CondEqual {
    /// Left-hand side.
    pub a: Object,
    /// Right-hand side.
    pub b: Object,
}

/// The first object is greater than the second.
#[derive(Debug, Clone, PartialEq, Eq)]
pub struct CondGreater {
    /// Left-hand side.
    pub a: Object,
    /// Right-hand side.
    pub b: Object,
}

/// The first object is less than the second.
#[derive(Debug, Clone, PartialEq, Eq)]
pub struct CondLess {
    /// Left-hand side.
    pub a: Object,
    /// Right-hand side.
    pub b: Object,
}

/// Every element of the ordered sequence `ps` equals `q`.
#[derive(Debug, Clone, PartialEq, Eq)]
pub struct CondAndEqual {
    /// The candidates.
    pub ps: Vec<Object>,
    /// The object each candidate is compared with.
    pub q: Object,
}

/// At least one element of the ordered sequence `ps` equals `q`.
#[derive(Debug, Clone, PartialEq, Eq)]
pub struct CondOrEqual {
    /// The candidates.
    pub ps: Vec<Object>,
    /// The object each candidate is compared with.
    pub q: Object,
}

/// A condition that a block start or a condition evaluation may carry.
#[derive(Debug, Clone, PartialEq, Eq)]
pub enum Condition {
    /// Binary equality.
    Equal(CondEqual),
    /// Binary greater-than.
    Greater(CondGreater),
    /// Binary less-than.
    Less(CondLess),
    /// All candidates equal.
    AndEqual(CondAndEqual),
    /// At least one candidate equal.
    OrEqual(CondOrEqual),
}

} // verus!
