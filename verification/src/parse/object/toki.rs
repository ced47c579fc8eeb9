//! Decoder for quoted *toki* (text) literals.
//!
//! The content between the quotation marks is an arbitrary run of
//! codepoints, with one exception: the quotation marks themselves must be
//! escaped by doubling to appear literally. A lone opening mark inside the
//! content is never valid; a lone closing mark ends the literal; reaching
//! the end of input before a closing mark is an error. Both escaping
//! failures are fatal and carry help text describing the doubling
//! convention.

use vstd::prelude::*;

use crate::ast::object::Literal;
use crate::parse::error::{ParseError, ParseFail};
use crate::parse::object::{ERR_MISS_CLOSE_QUOTE, ERR_MISS_OPEN_QUOTE};
use crate::parse::vocab::{QUOTE_CLOSE, QUOTE_OPEN};

verus! {

/// Reported when a lone opening quotation mark stands in the content.
pub const ERR_OPEN_QUOTE_UNESCAPED: &'static str = "unescaped opening quote in literal";

/// Reported when the input ends before the literal's closing mark.
pub const ERR_UNTERMINATED: &'static str = "end of input before closing quote in literal";

/// How to repair either escaping failure.
pub const HELP_QUOTE_ESCAPING: &'static str =
    "quotes should be escaped by doubling them up, i.e. like this: `\u{300C}\u{300C}` or `\u{300D}\u{300D}`";

/// What scanning quoted text content yields.
pub enum TokiOutcome {
    /// The content decoded from the first `used` codepoints, the last of
    /// which is the lone closing mark that ended the literal.
    Value { used: int, content: Seq<char> },
    /// A lone opening mark stands at index `at`.
    UnescapedOpen { at: int },
    /// The input ended before a lone closing mark.
    Eof,
}

/// Shifts a scan outcome's positions by `k`: the outcome of a whole scan in
/// terms of the outcome of its remaining suffix.
pub open spec fn toki_shift(o: TokiOutcome, k: int) -> TokiOutcome {
    match o {
        TokiOutcome::Value { used, content } => TokiOutcome::Value { used: used + k, content },
        TokiOutcome::UnescapedOpen { at } => TokiOutcome::UnescapedOpen { at: at + k },
        TokiOutcome::Eof => TokiOutcome::Eof,
    }
}

/// Scans text content from the front of `s`, extending the already decoded
/// content `acc`: doubled quotation marks append the corresponding literal
/// mark, a lone closing mark ends the content, and any other codepoint is
/// appended as it stands.
pub open spec fn toki_scan(s: Seq<char>, acc: Seq<char>) -> TokiOutcome
    decreases s.len(),
{
    if s.len() == 0 {
        TokiOutcome::Eof
    } else if s[0] == QUOTE_OPEN {
        if s.len() > 1 && s[1] == QUOTE_OPEN {
            toki_shift(toki_scan(s.skip(2), acc.push(QUOTE_OPEN)), 2)
        } else {
            TokiOutcome::UnescapedOpen { at: 0 }
        }
    } else if s[0] == QUOTE_CLOSE {
        if s.len() > 1 && s[1] == QUOTE_CLOSE {
            toki_shift(toki_scan(s.skip(2), acc.push(QUOTE_CLOSE)), 2)
        } else {
            TokiOutcome::Value { used: 1, content: acc }
        }
    } else {
        toki_shift(toki_scan(s.skip(1), acc.push(s[0])), 1)
    }
}

/// The escaped spelling of text content: each quotation mark doubled, and
/// every other codepoint as it stands.
pub open spec fn toki_escape(content: Seq<char>) -> Seq<char>
    decreases content.len(),
{
    if content.len() == 0 {
        Seq::empty()
    } else {
        let c = content[0];
        let head: Seq<char> = if c == QUOTE_OPEN {
            seq![QUOTE_OPEN, QUOTE_OPEN]
        } else if c == QUOTE_CLOSE {
            seq![QUOTE_CLOSE, QUOTE_CLOSE]
        } else {
            seq![c]
        };
        head + toki_escape(content.drop_first())
    }
}

/// Round-trip generalized over already decoded content: scanning the
/// escaped spelling of `content` followed by a lone closing mark appends
/// exactly `content` to what was decoded so far.
proof fn lemma_toki_escape_scan(content: Seq<char>, acc: Seq<char>)
    ensures
        toki_scan(toki_escape(content) + seq![QUOTE_CLOSE], acc) == (TokiOutcome::Value {
            used: toki_escape(content).len() as int + 1,
            content: acc + content,
        }),
    decreases content.len(),
{
    let s = toki_escape(content) + seq![QUOTE_CLOSE];
    if content.len() == 0 {
        assert(s =~= seq![QUOTE_CLOSE]);
        assert(acc + content =~= acc);
    } else {
        let c = content[0];
        let tail = toki_escape(content.drop_first()) + seq![QUOTE_CLOSE];
        lemma_toki_escape_scan(content.drop_first(), acc.push(c));
        assert(acc.push(c) + content.drop_first() =~= acc + content);
        if c == QUOTE_OPEN {
            assert(s =~= seq![QUOTE_OPEN, QUOTE_OPEN] + tail);
            assert(s.skip(2) =~= tail);
        } else if c == QUOTE_CLOSE {
            assert(s =~= seq![QUOTE_CLOSE, QUOTE_CLOSE] + tail);
            assert(s.skip(2) =~= tail);
        } else {
            assert(s =~= seq![c] + tail);
            assert(s.skip(1) =~= tail);
        }
    }
}

/// Round trip: encoding any text content by doubling its quotation marks,
/// closing it with a lone closing mark, and decoding it again reproduces
/// the original content exactly, consuming the whole spelling.
pub proof fn lemma_toki_round_trip(content: Seq<char>)
    ensures
        toki_scan(toki_escape(content) + seq![QUOTE_CLOSE], Seq::empty()) == (TokiOutcome::Value {
            used: toki_escape(content).len() as int + 1,
            content: content,
        }),
{
    lemma_toki_escape_scan(content, Seq::empty());
    assert(Seq::<char>::empty() + content =~= content);
}

/// An unterminated literal always fails: content holding no closing mark
/// at all never scans to a value, whatever was decoded so far.
pub proof fn lemma_toki_unterminated(s: Seq<char>, acc: Seq<char>)
    requires
        forall|i: int| 0 <= i < s.len() ==> s[i] != QUOTE_CLOSE,
    ensures
        !(toki_scan(s, acc) is Value),
    decreases s.len(),
{
    if s.len() == 0 {
    } else if s[0] == QUOTE_OPEN {
        if s.len() > 1 && s[1] == QUOTE_OPEN {
            lemma_toki_unterminated(s.skip(2), acc.push(QUOTE_OPEN));
        }
    } else {
        lemma_toki_unterminated(s.skip(1), acc.push(s[0]));
    }
}

/// Parses the quoted portion of a *toki* literal: an opening quotation
/// mark, escaped content, and the lone closing mark that ends it, consuming
/// nothing beyond that mark.
///
/// A missing opening mark is recoverable (the input may be some other
/// production); every failure after it is fatal.
#[verifier::loop_isolation(false)]
pub fn toki_quoted(input: &Vec<char>, pos: usize) -> (r: Result<(usize, Literal), ParseFail>)
    requires
        pos <= input.len(),
    ensures
        ({
            let s = input@.subrange(pos as int, input@.len() as int);
            match r {
                Ok((end, lit)) => {
                    &&& pos < end <= input@.len()
                    &&& s.len() > 0 && s[0] == QUOTE_OPEN
                    &&& (toki_scan(s.drop_first(), Seq::empty()) matches TokiOutcome::Value {
                        used,
                        content,
                    } && {
                        &&& end - pos == 1 + used
                        &&& (lit matches Literal::Toki(v) && v@ == content)
                    })
                },
                Err(ParseFail::Recoverable(e)) => {
                    &&& s.len() == 0 || s[0] != QUOTE_OPEN
                    &&& e.offset == pos
                    &&& e.reason@ == ERR_MISS_OPEN_QUOTE@
                    &&& e.help is None && e.cause is None
                },
                Err(ParseFail::Fatal(e)) => {
                    &&& s.len() > 0 && s[0] == QUOTE_OPEN
                    &&& e.cause is None
                    &&& (e.help matches Some(h) && h@ == HELP_QUOTE_ESCAPING@)
                    &&& match toki_scan(s.drop_first(), Seq::empty()) {
                        TokiOutcome::Value { .. } => false,
                        TokiOutcome::UnescapedOpen { at } => {
                            &&& e.offset == pos + 1 + at
                            &&& e.reason@ == ERR_OPEN_QUOTE_UNESCAPED@
                        },
                        TokiOutcome::Eof => {
                            &&& e.offset == input@.len()
                            &&& e.reason@ == ERR_UNTERMINATED@
                        },
                    }
                },
            }
        }),
{
    let len = input.len();
    if pos == len || input[pos] != QUOTE_OPEN {
        return Err(ParseError::new(pos, ERR_MISS_OPEN_QUOTE).into_error());
    }
    let mut content: Vec<char> = Vec::new();
    let mut i = pos + 1;
    loop
        invariant
            pos + 1 <= i <= len,
            toki_scan(input@.subrange(pos + 1, len as int), Seq::empty()) == toki_shift(
                toki_scan(input@.subrange(i as int, len as int), content@),
                i - (pos + 1),
            ),
        decreases len - i,
    {
        let ghost t = input@.subrange(i as int, len as int);
        proof {
            assert(input@.subrange(pos as int, len as int).drop_first() =~= input@.subrange(
                pos + 1,
                len as int,
            ));
        }
        if i == len {
            return Err(
                ParseError::new(len, ERR_UNTERMINATED).with_help(HELP_QUOTE_ESCAPING)
                    .into_failure(),
            );
        }
        let c = input[i];
        if c == QUOTE_OPEN {
            if i + 1 < len && input[i + 1] == QUOTE_OPEN {
                proof {
                    assert(t.skip(2) =~= input@.subrange(i + 2, len as int));
                }
                content.push(QUOTE_OPEN);
                i = i + 2;
            } else {
                return Err(
                    ParseError::new(i, ERR_OPEN_QUOTE_UNESCAPED).with_help(HELP_QUOTE_ESCAPING)
                        .into_failure(),
                );
            }
        } else if c == QUOTE_CLOSE {
            if i + 1 < len && input[i + 1] == QUOTE_CLOSE {
                proof {
                    assert(t.skip(2) =~= input@.subrange(i + 2, len as int));
                }
                content.push(QUOTE_CLOSE);
                i = i + 2;
            } else {
                return Ok((i + 1, Literal::Toki(content)));
            }
        } else {
            proof {
                assert(t.skip(1) =~= input@.subrange(i + 1, len as int));
            }
            content.push(c);
            i = i + 1;
        }
    }
}

} // verus!
