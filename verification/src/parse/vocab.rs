//! The vocabulary codepoints the grammar itself gives meaning to.
//!
//! Each lexical word of the language is exactly one codepoint of the UCSUR
//! *sitelen pona* block; the quotation marks used to delimit literals are
//! the CJK corner brackets.

use vstd::prelude::*;

verus! {

/// *ala*: zero, falsehood, negation of a *lon* literal.
pub const WORD_ALA: char = '\u{F1902}';

/// *ale*: the hundred word of the numeral system.
pub const WORD_ALE: char = '\u{F1904}';

/// *lon*: the boolean type keyword, and the truth word.
pub const WORD_LON: char = '\u{F192C}';

/// *luka*: the five word of the numeral system.
pub const WORD_LUKA: char = '\u{F192D}';

/// *mute*: the twenty word of the numeral system.
pub const WORD_MUTE: char = '\u{F193C}';

/// *nanpa*: the integer type keyword.
pub const WORD_NANPA: char = '\u{F193D}';

/// *ni*: the last-result marker.
pub const WORD_NI: char = '\u{F1941}';

/// *toki*: the text type keyword.
pub const WORD_TOKI: char = '\u{F196C}';

/// *tu*: the two word of the numeral system.
pub const WORD_TU: char = '\u{F196E}';

/// *wan*: the one word of the numeral system.
pub const WORD_WAN: char = '\u{F1973}';

/// *weka*: the negation word of the numeral system.
pub const WORD_WEKA: char = '\u{F1976}';

/// Opening bracket of a cartouche (identifier).
pub const CARTOUCHE_OPEN: char = '\u{F1990}';

/// Closing bracket of a cartouche (identifier).
pub const CARTOUCHE_CLOSE: char = '\u{F1991}';

/// The dot, permitted as a separator inside identifiers.
pub const SEP_DOT: char = '\u{F199C}';

/// The colon, permitted as a separator inside identifiers.
pub const SEP_COLON: char = '\u{F199D}';

/// Opening quotation mark of a literal (the left corner bracket).
pub const QUOTE_OPEN: char = '\u{300C}';

/// Closing quotation mark of a literal (the right corner bracket).
pub const QUOTE_CLOSE: char = '\u{300D}';

} // verus!
