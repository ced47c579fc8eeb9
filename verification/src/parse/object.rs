//! Parsing of typed value positions: a type keyword followed by a
//! last-result marker, a bracketed identifier, or a quoted literal of the
//! matching type.

use vstd::prelude::*;

use crate::ast::object::{Literal, NiRef, Object, PrimitiveType, TypedValue, Variable};
use crate::parse::error::{ParseError, ParseFail, ERR_NO_ALT};
use crate::parse::object::lon::{lon_quoted, ERR_FAILED_LON_MATCH};
use crate::parse::object::nanpa::{
    nanpa_quoted, nnp_decode, NnpOutcome, ERR_NNP_AFTER_END, ERR_NNP_FAILED_MATCH,
    ERR_NNP_TOO_LARGE,
};
use crate::parse::object::toki::{
    toki_quoted, toki_scan, TokiOutcome, ERR_OPEN_QUOTE_UNESCAPED, ERR_UNTERMINATED,
    HELP_QUOTE_ESCAPING,
};
use crate::parse::util::{is_sp_word, spec_is_sp_word};
use crate::parse::vocab::{
    CARTOUCHE_CLOSE, CARTOUCHE_OPEN, QUOTE_CLOSE, QUOTE_OPEN, SEP_COLON, SEP_DOT, WORD_ALA,
    WORD_LON, WORD_NANPA, WORD_NI, WORD_TOKI,
};

pub mod lon;
pub mod nanpa;
pub mod toki;

verus! {

/// Reported when a literal's opening quotation mark is missing.
pub const ERR_MISS_OPEN_QUOTE: &'static str = "missing opening quote for literal";

/// Reported when a literal's closing quotation mark is missing.
pub const ERR_MISS_CLOSE_QUOTE: &'static str = "missing closing quote for literal";

/// Reported when a cartouche's opening bracket is missing.
pub const ERR_MISS_OPEN_CART: &'static str = "missing cartouche open for variable";

/// Reported when a cartouche's closing bracket is missing.
pub const ERR_MISS_CLOSE_CART: &'static str = "missing cartouche close for variable";

/// Reported when an identifier breaks the character-class rule.
pub const ERR_VAR_FORMAT: &'static str =
    "identifiers must start with a word and contain only sitelen pona words, dots, and colons";

/// True iff `c` may stand in an identifier after its first codepoint: a
/// word glyph or one of the two permitted separators.
pub open spec fn is_ident_char(c: char) -> bool {
    spec_is_sp_word(c) || c == SEP_DOT || c == SEP_COLON
}

/// The first index at or after `i` holding a codepoint that may not stand
/// inside an identifier (or the input's length, if there is none).
pub open spec fn ident_end(s: Seq<char>, i: int) -> int
    recommends
        0 <= i <= s.len(),
    decreases s.len() - i,
{
    if i < 0 || i >= s.len() {
        i
    } else if is_ident_char(s[i]) {
        ident_end(s, i + 1)
    } else {
        i
    }
}

/// What decoding a cartouche yields.
pub enum CartOutcome {
    /// An identifier was read from the first `used` codepoints, bracket to
    /// bracket; `name` is what stands between the brackets.
    Value { used: int, name: Seq<char> },
    /// The opening bracket is missing: the input is some other production.
    MissOpen,
    /// The identifier's first codepoint (at index `at`) is missing or is
    /// not a word glyph.
    BadFormat { at: int },
    /// The identifier ended without a closing bracket at index `at`.
    MissClose { at: int },
}

/// Decodes a cartouche from the front of `s`: an opening bracket, an
/// identifier whose first codepoint is a word glyph and whose remaining
/// codepoints are word glyphs or separators, and a closing bracket.
pub open spec fn cart_decode(s: Seq<char>) -> CartOutcome {
    if s.len() == 0 || s[0] != CARTOUCHE_OPEN {
        CartOutcome::MissOpen
    } else if s.len() == 1 || !spec_is_sp_word(s[1]) {
        CartOutcome::BadFormat { at: 1 }
    } else {
        let j = ident_end(s, 2);
        if j == s.len() || s[j] != CARTOUCHE_CLOSE {
            CartOutcome::MissClose { at: j }
        } else {
            CartOutcome::Value { used: j + 1, name: s.subrange(1, j) }
        }
    }
}

/// True iff parsing a quoted literal of type `t` from the front of `s`
/// succeeds, consuming `used` codepoints and yielding `lit`. Mirrors the
/// success cases of the three quoted-literal decoders.
pub open spec fn literal_parse_ok(s: Seq<char>, t: PrimitiveType, used: int, lit: Literal) -> bool {
    &&& s.len() > 0 && s[0] == QUOTE_OPEN
    &&& match t {
        PrimitiveType::Toki => toki_scan(s.drop_first(), Seq::empty())
            matches TokiOutcome::Value { used: u, content } && {
            &&& used == 1 + u
            &&& (lit matches Literal::Toki(v) && v@ == content)
        },
        PrimitiveType::Nanpa => nnp_decode(s.drop_first()) matches NnpOutcome::Value {
            used: u,
            value,
        } && {
            &&& used == u + 2
            &&& 1 + u < s.len() && s[1 + u] == QUOTE_CLOSE
            &&& lit == Literal::Nanpa((value as i64))
        },
        PrimitiveType::Lon => {
            &&& s.len() >= 3 && (s[1] == WORD_LON || s[1] == WORD_ALA) && s[2] == QUOTE_CLOSE
            &&& used == 3
            &&& lit == Literal::Lon(s[1] == WORD_LON)
        },
    }
}

/// True iff parsing a quoted literal of type `t`, beginning at offset
/// `base` of the whole input and reaching to the input's end as the suffix
/// `s`, fails fatally with exactly the error `e`. Mirrors the fatal cases
/// of the three quoted-literal decoders.
pub open spec fn literal_parse_fatal(s: Seq<char>, base: int, t: PrimitiveType, e: ParseError) -> bool
    recommends
        s.len() > 0 && s[0] == QUOTE_OPEN,
{
    match t {
        PrimitiveType::Toki => {
            &&& e.cause is None
            &&& (e.help matches Some(h) && h@ == HELP_QUOTE_ESCAPING@)
            &&& match toki_scan(s.drop_first(), Seq::empty()) {
                TokiOutcome::Value { .. } => false,
                TokiOutcome::UnescapedOpen { at } => {
                    e.offset == base + 1 + at && e.reason@ == ERR_OPEN_QUOTE_UNESCAPED@
                },
                TokiOutcome::Eof => {
                    e.offset == base + s.len() && e.reason@ == ERR_UNTERMINATED@
                },
            }
        },
        PrimitiveType::Nanpa => {
            &&& e.help is None && e.cause is None
            &&& match nnp_decode(s.drop_first()) {
                NnpOutcome::NoMatch => e.offset == base + 1 && e.reason@
                    == ERR_NNP_FAILED_MATCH@,
                NnpOutcome::OutOfRange => e.offset == base + 1 && e.reason@
                    == ERR_NNP_TOO_LARGE@,
                NnpOutcome::AfterEnd => e.offset == base + 1 && e.reason@ == ERR_NNP_AFTER_END@,
                NnpOutcome::Value { used, value } => {
                    &&& e.offset == base + 1 + used
                    &&& e.reason@ == ERR_MISS_CLOSE_QUOTE@
                    &&& (1 + used == s.len() || s[1 + used] != QUOTE_CLOSE)
                },
            }
        },
        PrimitiveType::Lon => {
            &&& e.help is None
            &&& if s.len() < 2 || (s[1] != WORD_LON && s[1] != WORD_ALA) {
                &&& e.offset == base + 1
                &&& e.reason@ == ERR_FAILED_LON_MATCH@
                &&& (e.cause matches Some(c) && {
                    &&& c.offset == base + 1
                    &&& c.reason@ == ERR_NO_ALT@
                    &&& c.help is None && c.cause is None
                })
            } else {
                &&& s.len() < 3 || s[2] != QUOTE_CLOSE
                &&& e.offset == base + 2
                &&& e.reason@ == ERR_MISS_CLOSE_QUOTE@
                &&& e.cause is None
            }
        },
    }
}

/// The primitive type a type keyword denotes, if `c` is one.
pub open spec fn keyword_type(c: char) -> Option<PrimitiveType> {
    if c == WORD_TOKI {
        Option::Some(PrimitiveType::Toki)
    } else if c == WORD_NANPA {
        Option::Some(PrimitiveType::Nanpa)
    } else if c == WORD_LON {
        Option::Some(PrimitiveType::Lon)
    } else {
        Option::None
    }
}

/// Parses a cartouche (i.e. identifier) and yields what stands between the
/// brackets.
///
/// A missing opening bracket is recoverable (the input may be some other
/// production); once the bracket has matched, a malformed identifier or a
/// missing closing bracket is fatal.
#[verifier::loop_isolation(false)]
pub fn cartouche(input: &Vec<char>, pos: usize) -> (r: Result<(usize, Vec<char>), ParseFail>)
    requires
        pos <= input.len(),
    ensures
        ({
            let s = input@.subrange(pos as int, input@.len() as int);
            match r {
                Ok((end, name)) => {
                    &&& pos < end <= input@.len()
                    &&& (cart_decode(s) matches CartOutcome::Value { used, name: n } && {
                        &&& end - pos == used
                        &&& name@ == n
                    })
                },
                Err(ParseFail::Recoverable(e)) => {
                    &&& cart_decode(s) is MissOpen
                    &&& e.offset == pos
                    &&& e.reason@ == ERR_MISS_OPEN_CART@
                    &&& e.help is None && e.cause is None
                },
                Err(ParseFail::Fatal(e)) => {
                    &&& e.help is None && e.cause is None
                    &&& match cart_decode(s) {
                        CartOutcome::Value { .. } => false,
                        CartOutcome::MissOpen => false,
                        CartOutcome::BadFormat { at } => {
                            e.offset == pos + at && e.reason@ == ERR_VAR_FORMAT@
                        },
                        CartOutcome::MissClose { at } => {
                            e.offset == pos + at && e.reason@ == ERR_MISS_CLOSE_CART@
                        },
                    }
                },
            }
        }),
{
    let len = input.len();
    let ghost s = input@.subrange(pos as int, len as int);
    if pos == len || input[pos] != CARTOUCHE_OPEN {
        return Err(ParseError::new(pos, ERR_MISS_OPEN_CART).into_error());
    }
    if pos + 1 == len || !is_sp_word(input[pos + 1]) {
        return Err(ParseError::new(pos + 1, ERR_VAR_FORMAT).into_failure());
    }
    let mut name: Vec<char> = Vec::new();
    name.push(input[pos + 1]);
    let mut j = pos + 2;
    loop
        invariant
            pos + 2 <= j <= len,
            ident_end(s, 2) == ident_end(s, j - pos),
            name@ == s.subrange(1, j - pos),
        decreases len - j,
    {
        if j == len {
            return Err(ParseError::new(j, ERR_MISS_CLOSE_CART).into_failure());
        }
        let c = input[j];
        if is_sp_word(c) || c == SEP_DOT || c == SEP_COLON {
            proof {
                assert(s.subrange(1, j - pos).push(s[j - pos]) =~= s.subrange(1, j + 1 - pos));
            }
            name.push(c);
            j = j + 1;
        } else if c == CARTOUCHE_CLOSE {
            return Ok((j + 1, name));
        } else {
            return Err(ParseError::new(j, ERR_MISS_CLOSE_CART).into_failure());
        }
    }
}

/// Parses an object of some type: a type keyword followed by exactly one
/// of, tried in order, the last-result marker *ni*, a cartouche, or a
/// quoted literal of the matching type.
///
/// A missing type keyword, or none of the three productions beginning after
/// it, is recoverable; once a cartouche's bracket or a literal's quotation
/// mark has matched, any failure inside it is fatal.
pub fn object(input: &Vec<char>, pos: usize) -> (r: Result<(usize, Object), ParseFail>)
    requires
        pos <= input.len(),
    ensures
        ({
            let s = input@.subrange(pos as int, input@.len() as int);
            match r {
                Ok((end, obj)) => {
                    &&& pos < end <= input@.len()
                    &&& s.len() > 0
                    &&& (keyword_type(s[0]) matches Some(t) && {
                        ||| {
                            &&& s.len() > 1 && s[1] == WORD_NI
                            &&& end == pos + 2
                            &&& obj == Object::Ni(NiRef { ptype: t })
                        }
                        ||| {
                            &&& s.len() > 1 && s[1] != WORD_NI
                            &&& (cart_decode(s.drop_first()) matches CartOutcome::Value {
                                used,
                                name,
                            } && {
                                &&& end - pos == 1 + used
                                &&& (obj matches Object::Variable(v) && v.ptype == t && v.name@
                                    == name)
                            })
                        }
                        ||| {
                            &&& s.len() > 1 && s[1] != WORD_NI && s[1] != CARTOUCHE_OPEN
                            &&& (obj matches Object::Literal(lit) && {
                                &&& lit.spec_get_type() == t
                                &&& literal_parse_ok(s.drop_first(), t, end - pos - 1, lit)
                            })
                        }
                    })
                },
                Err(ParseFail::Recoverable(e)) => {
                    ||| {
                        &&& s.len() == 0 || keyword_type(s[0]) is None
                        &&& e.offset == pos
                        &&& e.reason@ == ERR_NO_ALT@
                        &&& e.help is None && e.cause is None
                    }
                    ||| {
                        &&& s.len() > 0 && keyword_type(s[0]) is Some
                        &&& (s.len() == 1 || (s[1] != WORD_NI && s[1] != CARTOUCHE_OPEN && s[1]
                            != QUOTE_OPEN))
                        &&& e.offset == pos + 1
                        &&& e.reason@ == ERR_MISS_OPEN_QUOTE@
                        &&& e.help is None && e.cause is None
                    }
                },
                Err(ParseFail::Fatal(e)) => {
                    &&& s.len() > 1 && s[1] != WORD_NI
                    &&& (keyword_type(s[0]) matches Some(t) && {
                        if s[1] == CARTOUCHE_OPEN {
                            &&& e.help is None && e.cause is None
                            &&& match cart_decode(s.drop_first()) {
                                CartOutcome::Value { .. } => false,
                                CartOutcome::MissOpen => false,
                                CartOutcome::BadFormat { at } => {
                                    e.offset == pos + 1 + at && e.reason@ == ERR_VAR_FORMAT@
                                },
                                CartOutcome::MissClose { at } => {
                                    e.offset == pos + 1 + at && e.reason@ == ERR_MISS_CLOSE_CART@
                                },
                            }
                        } else {
                            &&& s[1] == QUOTE_OPEN
                            &&& literal_parse_fatal(s.drop_first(), pos + 1, t, e)
                        }
                    })
                },
            }
        }),
{
    let len = input.len();
    let ghost s = input@.subrange(pos as int, len as int);
    if pos == len {
        return Err(ParseError::new(pos, ERR_NO_ALT).into_error());
    }
    let c0 = input[pos];
    let ptype: PrimitiveType;
    if c0 == WORD_TOKI {
        ptype = PrimitiveType::Toki;
    } else if c0 == WORD_NANPA {
        ptype = PrimitiveType::Nanpa;
    } else if c0 == WORD_LON {
        ptype = PrimitiveType::Lon;
    } else {
        return Err(ParseError::new(pos, ERR_NO_ALT).into_error());
    }
    if pos + 1 < len && input[pos + 1] == WORD_NI {
        return Ok((pos + 2, Object::Ni(NiRef { ptype })));
    }
    proof {
        assert(s.drop_first() =~= input@.subrange(pos + 1, len as int));
    }
    match cartouche(input, pos + 1) {
        Ok((end, name)) => {
            return Ok((end, Object::Variable(Variable { ptype, name })));
        },
        Err(ParseFail::Fatal(e)) => {
            return Err(ParseFail::Fatal(e));
        },
        Err(ParseFail::Recoverable(_)) => {},
    }
    let parsed = match ptype {
        PrimitiveType::Toki => toki_quoted(input, pos + 1),
        PrimitiveType::Nanpa => nanpa_quoted(input, pos + 1),
        PrimitiveType::Lon => lon_quoted(input, pos + 1),
    };
    match parsed {
        Ok((end, lit)) => Ok((end, Object::Literal(lit))),
        Err(f) => Err(f),
    }
}

} // verus!
