//! Codepoint-level parsers and their error model.
//!
//! Every parser takes the whole input as a `Vec<char>` together with a
//! starting position, and on success returns the position just past what it
//! consumed along with the parsed value. The unconsumed remainder is the
//! suffix of the input from that position on.

pub mod error;
pub mod object;
pub mod util;
pub mod vocab;
