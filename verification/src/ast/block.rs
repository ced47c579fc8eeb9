//! Blocks and the statement tree.

use vstd::prelude::*;

use crate::ast::statement::{BlockStart, Command, Comment, ConditionEval};

verus! {

/// One guarded block of an if-ladder.
#[derive(Debug, PartialEq, Eq)]
pub struct IfBlock {
    /// The block's opening: guard, chaining, and block type.
    pub start: BlockStart,
    /// The statements the block owns.
    pub contents: Vec<Statement>,
}

/// A chain of guarded blocks; only chained blocks after the first belong to
/// the same ladder, as an "else if".
#[derive(Debug, PartialEq, Eq)]
pub struct IfLadder {
    /// The blocks of the ladder, in order.
    pub blocks: Vec<IfBlock>,
}

/// A looping block.
#[derive(Debug, PartialEq, Eq)]
pub struct LoopBlock {
    /// The block's opening: guard, chaining, and block type.
    pub start: BlockStart,
    /// The statements the block owns.
    pub contents: Vec<Box<Statement>>,
}

/// A statement of the program tree.
#[derive(Debug, PartialEq, Eq)]
pub enum Statement {
    /// A comment.
    Comment(Comment),
    /// A command.
    Command(Command),
    /// A condition evaluation.
    ConditionEval(ConditionEval),
    /// A chain of guarded blocks.
    IfLadder(IfLadder),
    /// A looping block.
    LoopBlock(LoopBlock),
}

} // verus!
