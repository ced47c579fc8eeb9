//! Decoder for *nasin nanpa pona*, the positional/additive numeral system
//! used to write large numbers quickly in *toki pona*.
//!
//! A numeral is a run of numeral-word codepoints. Scanning left to right:
//! the hundred word multiplies the accumulator by one hundred (or, when the
//! numeral *begins* with the hundred word, adds one hundred instead, for
//! compatibility with the older additive convention); the twenty, five, two
//! and one words add their value; the negation word negates the accumulator
//! and must be the final word. The zero word alone denotes zero and may not
//! combine with any other numeral word. All arithmetic is checked against
//! 64-bit signed overflow.

use vstd::prelude::*;

use crate::ast::object::Literal;
use crate::parse::error::{ParseError, ParseFail};
use crate::parse::object::{ERR_MISS_CLOSE_QUOTE, ERR_MISS_OPEN_QUOTE};
use crate::parse::vocab::{
    QUOTE_CLOSE, QUOTE_OPEN, WORD_ALA, WORD_ALE, WORD_LUKA, WORD_MUTE, WORD_TU, WORD_WAN,
    WORD_WEKA,
};

verus! {

/// Reported when checked arithmetic leaves the 64-bit signed range.
pub const ERR_NNP_TOO_LARGE: &'static str = "value out of range for nanpa";

/// Reported when the input holds no numeral at all.
pub const ERR_NNP_FAILED_MATCH: &'static str = "failed to match nasin nanpa pona number";

/// Reported when a numeral word follows the zero word or the negation word.
pub const ERR_NNP_AFTER_END: &'static str = "no numeral word may follow `ala` or `weka`";

/// True iff `c` is one of the seven numeral words.
pub open spec fn is_nnp_word(c: char) -> bool {
    c == WORD_ALA || c == WORD_ALE || c == WORD_MUTE || c == WORD_LUKA || c == WORD_TU
        || c == WORD_WAN || c == WORD_WEKA
}

/// True iff `c` is a numeral word handled inside the scan: one that adds to
/// (or multiplies) the accumulator.
pub open spec fn is_nnp_unit(c: char) -> bool {
    c == WORD_ALE || c == WORD_MUTE || c == WORD_LUKA || c == WORD_TU || c == WORD_WAN
}

/// The effect of one accumulating numeral word on the accumulator. The
/// hundred word is additive when the numeral began with it, multiplicative
/// otherwise; that choice is fixed once for the whole decode.
pub open spec fn nnp_step(acc: int, add_ale: bool, c: char) -> int
    recommends
        is_nnp_unit(c),
{
    if c == WORD_ALE {
        if add_ale {
            acc + 100
        } else {
            acc * 100
        }
    } else if c == WORD_MUTE {
        acc + 20
    } else if c == WORD_LUKA {
        acc + 5
    } else if c == WORD_TU {
        acc + 2
    } else {
        acc + 1
    }
}

/// What decoding a numeral yields.
pub enum NnpOutcome {
    /// A value was decoded from the first `used` codepoints; everything
    /// after them is the unconsumed remainder.
    Value { used: int, value: int },
    /// Checked arithmetic left the 64-bit signed range.
    OutOfRange,
    /// A numeral word followed the zero word or the negation word.
    AfterEnd,
    /// The input holds no numeral at all.
    NoMatch,
}

/// Scans accumulating numeral words from the front of `s`, starting from
/// accumulator `acc`. The scan ends at the first codepoint that is not an
/// accumulating word: the negation word ends it (negating the result, and
/// no numeral word may follow), and any other codepoint is left unconsumed.
pub open spec fn nnp_scan(s: Seq<char>, acc: int, add_ale: bool) -> NnpOutcome
    decreases s.len(),
{
    if s.len() == 0 {
        NnpOutcome::Value { used: 0, value: acc }
    } else if s[0] == WORD_WEKA {
        if s.len() > 1 && is_nnp_word(s[1]) {
            NnpOutcome::AfterEnd
        } else {
            NnpOutcome::Value { used: 1, value: -acc }
        }
    } else if is_nnp_unit(s[0]) {
        let acc2 = nnp_step(acc, add_ale, s[0]);
        if acc2 > i64::MAX as int {
            NnpOutcome::OutOfRange
        } else {
            match nnp_scan(s.drop_first(), acc2, add_ale) {
                NnpOutcome::Value { used, value } => NnpOutcome::Value { used: used + 1, value },
                o => o,
            }
        }
    } else {
        NnpOutcome::Value { used: 0, value: acc }
    }
}

/// Decodes a numeral from the front of `s`: the mathematical meaning of
/// [`nasin_nanpa_pona`]. The zero word terminates immediately with value
/// zero; the negation word may not come first; otherwise the numeral must
/// begin with an accumulating word, which decides whether the hundred word
/// is additive for the whole decode.
pub open spec fn nnp_decode(s: Seq<char>) -> NnpOutcome {
    if s.len() == 0 {
        NnpOutcome::NoMatch
    } else if s[0] == WORD_ALA {
        if s.len() > 1 && is_nnp_word(s[1]) {
            NnpOutcome::AfterEnd
        } else {
            NnpOutcome::Value { used: 1, value: 0 }
        }
    } else if s[0] == WORD_WEKA {
        NnpOutcome::NoMatch
    } else if !is_nnp_unit(s[0]) {
        NnpOutcome::NoMatch
    } else {
        nnp_scan(s, 0, s[0] == WORD_ALE)
    }
}

/// Shifts a successful outcome's consumed count by `k`: the outcome of a
/// whole decode in terms of the outcome of its remaining suffix.
pub open spec fn nnp_shift(o: NnpOutcome, k: int) -> NnpOutcome {
    match o {
        NnpOutcome::Value { used, value } => NnpOutcome::Value { used: used + k, value },
        other => other,
    }
}

/// Is `c` one of the seven numeral words?
fn is_nnp_word_char(c: char) -> (r: bool)
    ensures
        r == is_nnp_word(c),
{
    c == WORD_ALA || c == WORD_ALE || c == WORD_MUTE || c == WORD_LUKA || c == WORD_TU
        || c == WORD_WAN || c == WORD_WEKA
}

/// Decodes a *nasin nanpa pona* numeral from `input` starting at `pos`.
///
/// On success, returns the position just past the numeral together with its
/// value; on failure, a fatal error located at `pos` whose reason tells the
/// empty or unmatched numeral, the out-of-range value, or the numeral word
/// after the zero or negation word apart.
#[verifier::loop_isolation(false)]
pub fn nasin_nanpa_pona(input: &Vec<char>, pos: usize) -> (r: Result<(usize, i64), ParseFail>)
    requires
        pos <= input.len(),
    ensures
        ({
            let s = input@.subrange(pos as int, input@.len() as int);
            match r {
                Ok((end, v)) => {
                    &&& pos <= end <= input@.len()
                    &&& nnp_decode(s) == (NnpOutcome::Value { used: end - pos, value: v as int })
                },
                Err(f) => {
                    &&& f is Fatal
                    &&& f.spec_inner().offset == pos
                    &&& f.spec_inner().help is None
                    &&& f.spec_inner().cause is None
                    &&& match nnp_decode(s) {
                        NnpOutcome::Value { .. } => false,
                        NnpOutcome::NoMatch => f.spec_inner().reason@ == ERR_NNP_FAILED_MATCH@,
                        NnpOutcome::OutOfRange => f.spec_inner().reason@ == ERR_NNP_TOO_LARGE@,
                        NnpOutcome::AfterEnd => f.spec_inner().reason@ == ERR_NNP_AFTER_END@,
                    }
                },
            }
        }),
{
    let len = input.len();
    if pos == len {
        return Err(ParseError::new(pos, ERR_NNP_FAILED_MATCH).into_failure());
    }
    let c0 = input[pos];
    if c0 == WORD_ALA {
        if pos + 1 < len && is_nnp_word_char(input[pos + 1]) {
            return Err(ParseError::new(pos, ERR_NNP_AFTER_END).into_failure());
        }
        return Ok((pos + 1, 0));
    }
    if c0 == WORD_WEKA {
        return Err(ParseError::new(pos, ERR_NNP_FAILED_MATCH).into_failure());
    }
    if !(c0 == WORD_ALE || c0 == WORD_MUTE || c0 == WORD_LUKA || c0 == WORD_TU || c0 == WORD_WAN)
    {
        return Err(ParseError::new(pos, ERR_NNP_FAILED_MATCH).into_failure());
    }
    let add_ale = c0 == WORD_ALE;
    let mut acc: i64 = 0;
    let mut i = pos;
    loop
        invariant
            pos <= i <= len,
            0 <= acc,
            nnp_decode(input@.subrange(pos as int, len as int)) == nnp_shift(
                nnp_scan(input@.subrange(i as int, len as int), acc as int, add_ale),
                i - pos,
            ),
        decreases len - i,
    {
        let ghost t = input@.subrange(i as int, len as int);
        if i == len {
            return Ok((i, acc));
        }
        let c = input[i];
        if c == WORD_WEKA {
            if i + 1 < len && is_nnp_word_char(input[i + 1]) {
                return Err(ParseError::new(pos, ERR_NNP_AFTER_END).into_failure());
            }
            return Ok((i + 1, -acc));
        }
        let next: i64;
        if c == WORD_ALE {
            if add_ale {
                if acc > i64::MAX - 100 {
                    return Err(ParseError::new(pos, ERR_NNP_TOO_LARGE).into_failure());
                }
                next = acc + 100;
            } else {
                if acc > i64::MAX / 100 {
                    return Err(ParseError::new(pos, ERR_NNP_TOO_LARGE).into_failure());
                }
                next = acc * 100;
            }
        } else if c == WORD_MUTE {
            if acc > i64::MAX - 20 {
                return Err(ParseError::new(pos, ERR_NNP_TOO_LARGE).into_failure());
            }
            next = acc + 20;
        } else if c == WORD_LUKA {
            if acc > i64::MAX - 5 {
                return Err(ParseError::new(pos, ERR_NNP_TOO_LARGE).into_failure());
            }
            next = acc + 5;
        } else if c == WORD_TU {
            if acc > i64::MAX - 2 {
                return Err(ParseError::new(pos, ERR_NNP_TOO_LARGE).into_failure());
            }
            next = acc + 2;
        } else if c == WORD_WAN {
            if acc > i64::MAX - 1 {
                return Err(ParseError::new(pos, ERR_NNP_TOO_LARGE).into_failure());
            }
            next = acc + 1;
        } else {
            return Ok((i, acc));
        }
        proof {
            assert(t.drop_first() =~= input@.subrange(i + 1, len as int));
        }
        acc = next;
        i = i + 1;
    }
}

/// `n` copies of the codepoint `c`.
pub open spec fn rep(c: char, n: int) -> Seq<char>
    decreases n,
{
    if n <= 0 {
        Seq::empty()
    } else {
        seq![c] + rep(c, n - 1)
    }
}

/// The greedy unit run for `0 <= d`: twenties, then fives, then twos, then
/// ones.
pub open spec fn unit_run(d: int) -> Seq<char> {
    let r1 = d % 20;
    let r2 = r1 % 5;
    rep(WORD_MUTE, d / 20) + rep(WORD_LUKA, r1 / 5) + rep(WORD_TU, r2 / 2) + rep(
        WORD_WAN,
        r2 % 2,
    )
}

/// The greedy composition of a positive value: its base-100 digits as unit
/// runs, joined by the hundred word.
pub open spec fn encode_pos(n: int) -> Seq<char>
    decreases n,
{
    if n < 100 {
        unit_run(n)
    } else {
        encode_pos(n / 100) + (seq![WORD_ALE] + unit_run(n % 100))
    }
}

/// The documented greedy *nasin nanpa pona* spelling of any representable
/// integer: the zero word for zero, the greedy composition for positive
/// values, and the negation word appended to the magnitude's spelling for
/// negative values.
pub open spec fn nnp_encode(n: int) -> Seq<char> {
    if n == 0 {
        seq![WORD_ALA]
    } else if n > 0 {
        encode_pos(n)
    } else {
        encode_pos(-n) + seq![WORD_WEKA]
    }
}

/// A repetition of `n` copies has length `n`, and each of its codepoints
/// is the repeated one.
proof fn lemma_rep_shape(c: char, n: int)
    requires
        n >= 0,
    ensures
        rep(c, n).len() == n,
        forall|i: int| 0 <= i < n ==> rep(c, n)[i] == c,
    decreases n,
{
    if n > 0 {
        lemma_rep_shape(c, n - 1);
    }
}

/// Scanning `n` copies of one additive numeral word of value `w`, followed
/// by anything, adds `n * w` to the accumulator and goes on.
proof fn lemma_rep_scan(c: char, w: int, n: int, acc: int, add_ale: bool, rest: Seq<char>)
    requires
        (c == WORD_MUTE && w == 20) || (c == WORD_LUKA && w == 5) || (c == WORD_TU && w == 2) || (
        c == WORD_WAN && w == 1),
        n >= 0,
        acc >= 0,
        acc + n * w <= i64::MAX,
    ensures
        nnp_scan(rep(c, n) + rest, acc, add_ale) == nnp_shift(
            nnp_scan(rest, acc + n * w, add_ale),
            n,
        ),
    decreases n,
{
    if n <= 0 {
        assert(rep(c, n) + rest =~= rest);
        let o = nnp_scan(rest, acc, add_ale);
        assert(nnp_shift(o, 0) == o);
    } else {
        assert(n * w == w + (n - 1) * w) by (nonlinear_arith);
        assert((n - 1) * w >= 0) by (nonlinear_arith)
            requires
                n >= 1,
                w >= 1,
        ;
        let tail = rep(c, n - 1) + rest;
        assert(rep(c, n) + rest =~= seq![c] + tail);
        assert((seq![c] + tail).drop_first() =~= tail);
        lemma_rep_scan(c, w, n - 1, acc + w, add_ale, rest);
    }
}

/// Scanning a greedy unit run, followed by anything, adds its value `d` to
/// the accumulator and goes on. The run is nonempty exactly when `d` is
/// positive, and then begins with an additive word.
proof fn lemma_unit_run_scan(d: int, acc: int, add_ale: bool, rest: Seq<char>)
    requires
        0 <= d < 100,
        acc >= 0,
        acc + d <= i64::MAX,
    ensures
        nnp_scan(unit_run(d) + rest, acc, add_ale) == nnp_shift(
            nnp_scan(rest, acc + d, add_ale),
            unit_run(d).len() as int,
        ),
        d > 0 ==> unit_run(d).len() >= 1 && is_nnp_unit(unit_run(d)[0]) && unit_run(d)[0]
            != WORD_ALE,
        d == 0 ==> unit_run(d).len() == 0,
{
    let r1 = d % 20;
    let r2 = r1 % 5;
    let n20 = d / 20;
    let n5 = r1 / 5;
    let n2 = r2 / 2;
    let n1 = r2 % 2;
    assert(d == 20 * n20 + 5 * n5 + 2 * n2 + n1);
    lemma_rep_shape(WORD_MUTE, n20);
    lemma_rep_shape(WORD_LUKA, n5);
    lemma_rep_shape(WORD_TU, n2);
    lemma_rep_shape(WORD_WAN, n1);
    let s1 = rep(WORD_LUKA, n5) + rep(WORD_TU, n2) + rep(WORD_WAN, n1);
    let s2 = rep(WORD_TU, n2) + rep(WORD_WAN, n1);
    let s3 = rep(WORD_WAN, n1);
    assert(unit_run(d) + rest =~= rep(WORD_MUTE, n20) + (s1 + rest));
    assert(s1 + rest =~= rep(WORD_LUKA, n5) + (s2 + rest));
    assert(s2 + rest =~= rep(WORD_TU, n2) + (s3 + rest));
    lemma_rep_scan(WORD_MUTE, 20, n20, acc, add_ale, s1 + rest);
    lemma_rep_scan(WORD_LUKA, 5, n5, acc + 20 * n20, add_ale, s2 + rest);
    lemma_rep_scan(WORD_TU, 2, n2, acc + 20 * n20 + 5 * n5, add_ale, s3 + rest);
    lemma_rep_scan(WORD_WAN, 1, n1, acc + 20 * n20 + 5 * n5 + 2 * n2, add_ale, rest);
    assert(unit_run(d).len() == n20 + n5 + n2 + n1);
    let out = nnp_scan(rest, acc + d, add_ale);
    assert(nnp_scan(s3 + rest, acc + 20 * n20 + 5 * n5 + 2 * n2, add_ale) == nnp_shift(out, n1));
    assert(nnp_scan(s2 + rest, acc + 20 * n20 + 5 * n5, add_ale) == nnp_shift(out, n1 + n2));
    assert(nnp_scan(s1 + rest, acc + 20 * n20, add_ale) == nnp_shift(out, n1 + n2 + n5));
    assert(nnp_scan(unit_run(d) + rest, acc, add_ale) == nnp_shift(out, n1 + n2 + n5 + n20));
    if d > 0 {
        if n20 >= 1 {
            assert(unit_run(d)[0] == rep(WORD_MUTE, n20)[0]);
        } else if n5 >= 1 {
            assert(unit_run(d)[0] == rep(WORD_LUKA, n5)[0]);
        } else if n2 >= 1 {
            assert(unit_run(d)[0] == rep(WORD_TU, n2)[0]);
        } else {
            assert(n1 == 1);
            assert(unit_run(d)[0] == rep(WORD_WAN, n1)[0]);
        }
    }
}

/// Scanning the greedy composition of a positive value, followed by
/// anything, leaves exactly that value in the accumulator. The composition
/// is nonempty and begins with an additive word, never the hundred word.
proof fn lemma_encode_pos_scan(n: int, rest: Seq<char>)
    requires
        1 <= n <= i64::MAX,
    ensures
        nnp_scan(encode_pos(n) + rest, 0, false) == nnp_shift(
            nnp_scan(rest, n, false),
            encode_pos(n).len() as int,
        ),
        encode_pos(n).len() >= 1,
        is_nnp_unit(encode_pos(n)[0]),
        encode_pos(n)[0] != WORD_ALE,
    decreases n,
{
    if n < 100 {
        lemma_unit_run_scan(n, 0, false, rest);
    } else {
        let hi = n / 100;
        let lo = n % 100;
        let mid = seq![WORD_ALE] + unit_run(lo);
        assert(encode_pos(n) + rest =~= encode_pos(hi) + (mid + rest));
        lemma_encode_pos_scan(hi, mid + rest);
        assert(mid + rest =~= seq![WORD_ALE] + (unit_run(lo) + rest));
        assert((seq![WORD_ALE] + (unit_run(lo) + rest)).drop_first() =~= unit_run(lo) + rest);
        assert(hi * 100 + lo == n);
        lemma_unit_run_scan(lo, hi * 100, false, rest);
        assert(encode_pos(n).len() == encode_pos(hi).len() + 1 + unit_run(lo).len());
        assert(encode_pos(n)[0] == encode_pos(hi)[0]);
    }
}

/// Completeness of the numeral system: every non-negative integer
/// representable in 64 signed bits has a numeral-word spelling — the
/// documented greedy composition — that decodes to exactly it, consuming
/// the whole spelling.
pub proof fn lemma_nnp_encode_decodes(n: int)
    requires
        0 <= n <= i64::MAX,
    ensures
        nnp_decode(nnp_encode(n)) == (NnpOutcome::Value {
            used: nnp_encode(n).len() as int,
            value: n,
        }),
{
    if n == 0 {
        assert(nnp_encode(0) == seq![WORD_ALA]);
        assert(nnp_encode(0).len() == 1);
        assert(nnp_decode(seq![WORD_ALA]) == (NnpOutcome::Value { used: 1, value: 0 }));
    } else {
        lemma_encode_pos_scan(n, Seq::empty());
        assert(encode_pos(n) + Seq::empty() =~= encode_pos(n));
        assert(nnp_scan(Seq::empty(), n, false) == (NnpOutcome::Value { used: 0, value: n }));
    }
}

/// Negation: appending the negation word to the greedy spelling of a
/// positive value decodes to the value's negation, consuming everything.
pub proof fn lemma_nnp_encode_negation(n: int)
    requires
        1 <= n <= i64::MAX,
    ensures
        nnp_decode(nnp_encode(n) + seq![WORD_WEKA]) == (NnpOutcome::Value {
            used: nnp_encode(n).len() as int + 1,
            value: -n,
        }),
{
    lemma_encode_pos_scan(n, seq![WORD_WEKA]);
    assert(nnp_scan(seq![WORD_WEKA], n, false) == (NnpOutcome::Value { used: 1, value: -n }));
    assert((encode_pos(n) + seq![WORD_WEKA])[0] == encode_pos(n)[0]);
}

/// The zero word may not combine: a numeral word following a leading zero
/// word is always rejected.
pub proof fn lemma_nnp_zero_rejects_trailing(s: Seq<char>)
    requires
        s.len() >= 2,
        s[0] == WORD_ALA,
        is_nnp_word(s[1]),
    ensures
        nnp_decode(s) == NnpOutcome::AfterEnd,
{
}

/// The negation word is rejected as the first token of a numeral.
pub proof fn lemma_nnp_weka_first_rejected(s: Seq<char>)
    requires
        s.len() >= 1,
        s[0] == WORD_WEKA,
    ensures
        nnp_decode(s) == NnpOutcome::NoMatch,
{
}

/// Parses the quoted portion of a *nanpa* literal: an opening quotation
/// mark, a numeral, and a closing quotation mark that must immediately
/// follow whatever the numeral decoder consumed.
///
/// A missing opening mark is recoverable (the input may be some other
/// production); every failure after it is fatal.
pub fn nanpa_quoted(input: &Vec<char>, pos: usize) -> (r: Result<(usize, Literal), ParseFail>)
    requires
        pos <= input.len(),
    ensures
        ({
            let s = input@.subrange(pos as int, input@.len() as int);
            match r {
                Ok((end, lit)) => {
                    &&& pos < end <= input@.len()
                    &&& s.len() > 0 && s[0] == QUOTE_OPEN
                    &&& (nnp_decode(s.drop_first()) matches NnpOutcome::Value { used, value }
                        && {
                        &&& end - pos == used + 2
                        &&& 1 + used < s.len() && s[1 + used] == QUOTE_CLOSE
                        &&& lit == Literal::Nanpa((value as i64))
                    })
                },
                Err(ParseFail::Recoverable(e)) => {
                    &&& s.len() == 0 || s[0] != QUOTE_OPEN
                    &&& e.offset == pos
                    &&& e.reason@ == ERR_MISS_OPEN_QUOTE@
                    &&& e.help is None && e.cause is None
                },
                Err(ParseFail::Fatal(e)) => {
                    &&& s.len() > 0 && s[0] == QUOTE_OPEN
                    &&& e.help is None && e.cause is None
                    &&& match nnp_decode(s.drop_first()) {
                        NnpOutcome::NoMatch => e.offset == pos + 1 && e.reason@
                            == ERR_NNP_FAILED_MATCH@,
                        NnpOutcome::OutOfRange => e.offset == pos + 1 && e.reason@
                            == ERR_NNP_TOO_LARGE@,
                        NnpOutcome::AfterEnd => e.offset == pos + 1 && e.reason@
                            == ERR_NNP_AFTER_END@,
                        NnpOutcome::Value { used, value } => {
                            &&& e.offset == pos + 1 + used
                            &&& e.reason@ == ERR_MISS_CLOSE_QUOTE@
                            &&& (pos + 1 + used == input@.len() || s[1 + used] != QUOTE_CLOSE)
                        },
                    }
                },
            }
        }),
{
    let len = input.len();
    let ghost s = input@.subrange(pos as int, len as int);
    if pos == len || input[pos] != QUOTE_OPEN {
        return Err(ParseError::new(pos, ERR_MISS_OPEN_QUOTE).into_error());
    }
    proof {
        assert(s.drop_first() =~= input@.subrange(pos + 1, len as int));
    }
    let (end1, value) = match nasin_nanpa_pona(input, pos + 1) {
        Ok(p) => p,
        Err(f) => {
            return Err(f);
        },
    };
    if end1 == len || input[end1] != QUOTE_CLOSE {
        return Err(ParseError::new(end1, ERR_MISS_CLOSE_QUOTE).into_failure());
    }
    Ok((end1 + 1, Literal::Nanpa(value)))
}

} // verus!
