//! Statement-level shapes: commands, comments, block starts, and condition
//! evaluations.

use vstd::prelude::*;

use crate::ast::condition::Condition;
use crate::ast::object::Object;

verus! {

/// A target for a command statement.
#[derive(Debug, Clone, PartialEq, Eq)]
pub enum Target {
    /// The tool (*ilo*): the addressee of a command.
    Ilo,
}

/// A keyword that begins an argument.
#[derive(Debug, Clone, PartialEq, Eq)]
pub enum ArgKey {
    /// Object/patient (*e*).
    E,
    /// Destination (*tawa*).
    Tawa,
    /// Source (*tan*).
    Tan,
    /// Instrument (*kepeken*).
    Kepeken,
}

/// A keyword that denotes a block.
#[derive(Debug, Clone, PartialEq, Eq)]
pub enum BlockType {
    /// A run-once block (*pali*).
    Pali,
    /// A looping block (*sike*).
    Sike,
}

/// A comment statement.
#[derive(Debug, Clone, PartialEq, Eq)]
pub struct Comment {
    /// The comment's text.
    pub content: String,
}

/// A command statement (one which uses *o*, generally performing some
/// action). Arguments are an ordered sequence, not a mapping: the same key
/// may legally recur, and order may carry meaning to the executor.
#[derive(Debug, Clone, PartialEq, Eq)]
pub struct Command {
    /// An optional guard on the command.
    pub condition: Option<Condition>,
    /// The optional addressee.
    pub target: Option<Target>,
    /// The action to perform.
    pub action: String,
    /// The ordered arguments.
    pub args: Vec<(ArgKey, Object)>,
}

/// The beginning of a block, potentially with a condition or chain.
#[derive(Debug, Clone, PartialEq, Eq)]
pub struct BlockStart {
    /// Marks a continuation of a prior conditional chain (else-if
    /// semantics) rather than a fresh block.
    pub chained: bool,
    /// The optional guard on the block.
    pub condition: Option<Condition>,
    /// Run-once or looping.
    pub block_type: BlockType,
}

/// A condition evaluation (using *ken la*).
#[derive(Debug, Clone, PartialEq, Eq)]
pub struct ConditionEval {
    /// The condition to evaluate.
    pub condition: Condition,
}

} // verus!
