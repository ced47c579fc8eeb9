//! Decoder for quoted *lon* (boolean) literals.
//!
//! The quoted content must be exactly one word: the truth word *lon* or the
//! zero word *ala*, mapping to `true` and `false`. Any other content is a
//! fatal, domain-specific error; the generic failure it supersedes is kept
//! as the cause.

use vstd::prelude::*;

use crate::ast::object::Literal;
use crate::parse::error::{ParseError, ParseFail, ERR_NO_ALT};
use crate::parse::object::{ERR_MISS_CLOSE_QUOTE, ERR_MISS_OPEN_QUOTE};
use crate::parse::vocab::{QUOTE_CLOSE, QUOTE_OPEN, WORD_ALA, WORD_LON};

verus! {

/// Reported when the quoted content of a *lon* literal is neither the truth
/// word nor the zero word.
pub const ERR_FAILED_LON_MATCH: &'static str = "`lon`-typed value may only take `lon` or `ala`";

/// Parses the quoted portion of a *lon* literal: an opening quotation mark,
/// the truth word or the zero word, and a closing quotation mark.
///
/// A missing opening mark is recoverable (the input may be some other
/// production); every failure after it is fatal.
pub fn lon_quoted(input: &Vec<char>, pos: usize) -> (r: Result<(usize, Literal), ParseFail>)
    requires
        pos <= input.len(),
    ensures
        ({
            let s = input@.subrange(pos as int, input@.len() as int);
            match r {
                Ok((end, lit)) => {
                    &&& s.len() >= 3 && s[0] == QUOTE_OPEN
                    &&& (s[1] == WORD_LON || s[1] == WORD_ALA) && s[2] == QUOTE_CLOSE
                    &&& end == pos + 3
                    &&& lit == Literal::Lon(s[1] == WORD_LON)
                },
                Err(ParseFail::Recoverable(e)) => {
                    &&& s.len() == 0 || s[0] != QUOTE_OPEN
                    &&& e.offset == pos
                    &&& e.reason@ == ERR_MISS_OPEN_QUOTE@
                    &&& e.help is None && e.cause is None
                },
                Err(ParseFail::Fatal(e)) => {
                    &&& s.len() > 0 && s[0] == QUOTE_OPEN
                    &&& e.help is None
                    &&& if s.len() < 2 || (s[1] != WORD_LON && s[1] != WORD_ALA) {
                        &&& e.offset == pos + 1
                        &&& e.reason@ == ERR_FAILED_LON_MATCH@
                        &&& (e.cause matches Some(c) && {
                            &&& c.offset == pos + 1
                            &&& c.reason@ == ERR_NO_ALT@
                            &&& c.help is None && c.cause is None
                        })
                    } else {
                        &&& s.len() < 3 || s[2] != QUOTE_CLOSE
                        &&& e.offset == pos + 2
                        &&& e.reason@ == ERR_MISS_CLOSE_QUOTE@
                        &&& e.cause is None
                    }
                },
            }
        }),
{
    let len = input.len();
    if pos == len || input[pos] != QUOTE_OPEN {
        return Err(ParseError::new(pos, ERR_MISS_OPEN_QUOTE).into_error());
    }
    let value: bool;
    if pos + 1 < len && input[pos + 1] == WORD_LON {
        value = true;
    } else if pos + 1 < len && input[pos + 1] == WORD_ALA {
        value = false;
    } else {
        let inner = ParseError::new(pos + 1, ERR_NO_ALT);
        return Err(inner.chain_up(pos + 1, ERR_FAILED_LON_MATCH).into_failure());
    }
    if pos + 2 == len || input[pos + 2] != QUOTE_CLOSE {
        return Err(ParseError::new(pos + 2, ERR_MISS_CLOSE_QUOTE).into_failure());
    }
    Ok((pos + 3, Literal::Lon(value)))
}

} // verus!
