//! Classification of *sitelen pona* codepoints.
//!
//! Refer to the UCSUR *sitelen pona* proposal for the codepoint assignments.
//! Word glyphs occupy two fixed private-use ranges; four further fixed
//! codepoints serve as punctuation: the cartouche brackets and two reserved
//! marks (used as identifier separators).

use vstd::prelude::*;

verus! {

/// True iff `c` is a *sitelen pona* word glyph: one codepoint standing for
/// one lexical word, in either the primary or the extended vocabulary range.
pub open spec fn spec_is_sp_word(c: char) -> bool {
    ('\u{F1900}' <= c && c <= '\u{F1988}') || ('\u{F19A0}' <= c && c <= '\u{F19A3}')
}

/// True iff `c` is one of the four *sitelen pona* punctuation codepoints:
/// the cartouche open and close brackets, the dot, and the colon.
pub open spec fn spec_is_sp_punct(c: char) -> bool {
    c == '\u{F1990}' || c == '\u{F1991}' || c == '\u{F199C}' || c == '\u{F199D}'
}

/// Is this codepoint a word glyph?
pub fn is_sp_word(c: char) -> (r: bool)
    ensures
        r == spec_is_sp_word(c),
{
    ('\u{F1900}' <= c && c <= '\u{F1988}') || ('\u{F19A0}' <= c && c <= '\u{F19A3}')
}

/// Is this codepoint a punctuation glyph?
pub fn is_sp_punct(c: char) -> (r: bool)
    ensures
        r == spec_is_sp_punct(c),
{
    c == '\u{F1990}' || c == '\u{F1991}' || c == '\u{F199C}' || c == '\u{F199D}'
}

} // verus!
