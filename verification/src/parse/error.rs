//! The location-carrying error model shared by all parsers.
//!
//! Every parse operation either succeeds, or reports a [`ParseError`] wrapped
//! in a [`ParseFail`] severity: *recoverable* errors let the caller try a
//! different grammar alternative at the same input position, while *fatal*
//! errors abort the whole enclosing parse. Escalation is one-directional:
//! a recoverable error may become fatal, never the reverse.

use vstd::prelude::*;

verus! {

/// Reported when none of the grammar alternatives tried at a position
/// matched the input. Callers that recognize the intended production from
/// context supersede this with a domain-specific reason.
pub const ERR_NO_ALT: &'static str = "no grammar alternative matched";

/// An error raised at some position of the codepoint input, carrying a
/// human-readable reason, optional help text, and an optional owned link to
/// the error it superseded (the cause chain).
#[derive(Debug)]
pub struct ParseError {
    /// Codepoint offset into the parsed input at which the error was raised.
    /// The unconsumed remainder at the failure is the input's suffix from
    /// this offset on.
    pub offset: usize,
    /// Human-readable reason for the failure.
    pub reason: String,
    /// Optional help text describing how to repair the input.
    pub help: Option<String>,
    /// The deeper error this one superseded, if any.
    pub cause: Option<Box<ParseError>>,
}

/// A failed parse, tagged with its severity.
#[derive(Debug)]
pub enum ParseFail {
    /// The caller may try a different grammar alternative at the same
    /// input position.
    Recoverable(ParseError),
    /// No alternative should be tried; the whole enclosing parse aborts.
    Fatal(ParseError),
}

impl ParseError {
    /// Creates a new error with a location and reason, no help and no cause.
    pub fn new(offset: usize, reason: &str) -> (r: Self)
        ensures
            r.offset == offset,
            r.reason@ == reason@,
            r.help is None,
            r.cause is None,
    {
        ParseError { offset, reason: String::from_str(reason), help: None, cause: None }
    }

    /// Creates a new error caused by this error, with a location and reason.
    pub fn chain_up(self, offset: usize, reason: &str) -> (r: Self)
        ensures
            r.offset == offset,
            r.reason@ == reason@,
            r.help is None,
            (r.cause matches Some(c) && *c == self),
    {
        ParseError {
            offset,
            reason: String::from_str(reason),
            help: None,
            cause: Some(Box::new(self)),
        }
    }

    /// Adds a help message to this error.
    pub fn with_help(self, help: &str) -> (r: Self)
        ensures
            r.offset == self.offset,
            r.reason == self.reason,
            r.cause == self.cause,
            (r.help matches Some(h) && h@ == help@),
    {
        ParseError { help: Some(String::from_str(help)), ..self }
    }

    /// Wraps this error as a recoverable failure.
    pub fn into_error(self) -> (r: ParseFail)
        ensures
            r == ParseFail::Recoverable(self),
    {
        ParseFail::Recoverable(self)
    }

    /// Wraps this error as a fatal failure.
    pub fn into_failure(self) -> (r: ParseFail)
        ensures
            r == ParseFail::Fatal(self),
    {
        ParseFail::Fatal(self)
    }

    /// Renders the error for display: the reason, followed by
    /// `" [help: ...]"` when help text is present. Causes are not rendered;
    /// they exist for diagnostic introspection.
    pub fn render(&self) -> (r: String)
        ensures
            self.help is None ==> r@ == self.reason@,
            (self.help matches Some(h) ==> r@ == self.reason@ + " [help: "@ + h@ + "]"@),
    {
        let mut out = self.reason.clone();
        match &self.help {
            Option::Some(h) => {
                out.append(" [help: ");
                out.append(h.as_str());
                out.append("]");
            }
            Option::None => {}
        }
        out
    }
}

/// The number of line breaks among the first `off` codepoints of `s`.
pub open spec fn spec_newlines_before(s: Seq<char>, off: int) -> int
    decreases off,
{
    if off <= 0 {
        0
    } else {
        spec_newlines_before(s, off - 1) + if s[off - 1] == '\n' {
            1int
        } else {
            0
        }
    }
}

/// The start index of the line holding offset `off`: just past the last
/// line break before it.
pub open spec fn spec_line_start(s: Seq<char>, off: int) -> int
    decreases off,
{
    if off <= 0 {
        0
    } else if s[off - 1] == '\n' {
        off
    } else {
        spec_line_start(s, off - 1)
    }
}

/// The one-based line and column of the codepoint offset `offset` within
/// `input`: how diagnostics render an error's location.
#[verifier::loop_isolation(false)]
pub fn line_col(input: &Vec<char>, offset: usize) -> (r: (usize, usize))
    requires
        offset <= input.len(),
        input.len() < usize::MAX,
    ensures
        r.0 == 1 + spec_newlines_before(input@, offset as int),
        r.1 == 1 + offset - spec_line_start(input@, offset as int),
{
    let mut lines: usize = 0;
    let mut start: usize = 0;
    let mut i: usize = 0;
    while i < offset
        invariant
            i <= offset,
            lines == spec_newlines_before(input@, i as int),
            start == spec_line_start(input@, i as int),
            lines <= i,
            start <= i,
        decreases offset - i,
    {
        if input[i] == '\n' {
            lines = lines + 1;
            start = i + 1;
        }
        i = i + 1;
    }
    (1 + lines, 1 + (offset - start))
}

impl ParseFail {
    /// The wrapped error, whatever the severity.
    pub open spec fn spec_inner(self) -> ParseError {
        match self {
            ParseFail::Recoverable(e) => e,
            ParseFail::Fatal(e) => e,
        }
    }

    /// True iff no grammar alternative may be tried after this failure.
    pub fn is_fatal(&self) -> (r: bool)
        ensures
            r == (self is Fatal),
    {
        match self {
            ParseFail::Recoverable(_) => false,
            ParseFail::Fatal(_) => true,
        }
    }

    /// The wrapped error, discarding the severity.
    pub fn into_inner(self) -> (r: ParseError)
        ensures
            r == self.spec_inner(),
    {
        match self {
            ParseFail::Recoverable(e) => e,
            ParseFail::Fatal(e) => e,
        }
    }

    /// Escalates a recoverable failure to a fatal one; fatal failures are
    /// kept as they are. Escalation is one-directional: no operation of this
    /// model ever downgrades a fatal failure.
    pub fn force_failure(self) -> (r: ParseFail)
        ensures
            r == ParseFail::Fatal(self.spec_inner()),
    {
        match self {
            ParseFail::Recoverable(e) => ParseFail::Fatal(e),
            ParseFail::Fatal(e) => ParseFail::Fatal(e),
        }
    }

    /// Replaces the wrapped error's reason with a domain-specific message,
    /// keeping the location, help, cause, and severity.
    pub fn override_reason(self, reason: &str) -> (r: ParseFail)
        ensures
            r is Fatal == self is Fatal,
            r.spec_inner().offset == self.spec_inner().offset,
            r.spec_inner().reason@ == reason@,
            r.spec_inner().help == self.spec_inner().help,
            r.spec_inner().cause == self.spec_inner().cause,
    {
        match self {
            ParseFail::Recoverable(e) => {
                ParseFail::Recoverable(ParseError { reason: String::from_str(reason), ..e })
            }
            ParseFail::Fatal(e) => {
                ParseFail::Fatal(ParseError { reason: String::from_str(reason), ..e })
            }
        }
    }
}

} // verus!
