//! The data shapes of a parsed program: typed objects, conditions,
//! statements and blocks.
//!
//! Every tree node exclusively owns its children; nodes are built bottom-up
//! during parsing and never mutated afterwards.

pub mod block;
pub mod condition;
pub mod object;
pub mod statement;
