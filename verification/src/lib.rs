//! Lexical and syntactic analysis for a scripting language written in
//! *sitelen pona*, the logographic script of *toki pona*.
//!
//! Every lexical word of the language is a single private-use codepoint, so
//! all parsing works directly on codepoint sequences (`Vec<char>`). The
//! parsers turn a codepoint stream into typed literal values, identifiers,
//! and the data shapes of a program tree, reporting failures through a
//! location-carrying error model with recoverable and fatal severities.

pub mod ast;
pub mod cli;
pub mod parse;
