//! Tests for the error model: severities, escalation, rendering, cause
//! chains, and the exact reason each failure carries.

use sitelen_ilo::parse::error::{line_col, ParseError, ParseFail};
use sitelen_ilo::parse::object::lon::lon_quoted;
use sitelen_ilo::parse::object::nanpa::nanpa_quoted;
use sitelen_ilo::parse::object::toki::toki_quoted;
use sitelen_ilo::parse::object::cartouche;

fn glyph(word: &str) -> char {
    match word {
        "ala" => '\u{F1902}',
        "ale" => '\u{F1904}',
        "lon" => '\u{F192C}',
        "mi" => '\u{F1934}',
        "ni" => '\u{F1941}',
        "suli" => '\u{F1963}',
        "wan" => '\u{F1973}',
        "weka" => '\u{F1976}',
        _ => panic!("unknown word"),
    }
}

fn sp(text: &str) -> Vec<char> {
    let mut out = Vec::new();
    let mut word = String::new();
    for c in text.chars() {
        if c.is_ascii_lowercase() {
            word.push(c);
            continue;
        }
        if !word.is_empty() {
            out.push(glyph(&word));
            word.clear();
        }
        match c {
            '<' => out.push('\u{300C}'),
            '>' => out.push('\u{300D}'),
            '[' => out.push('\u{F1990}'),
            ']' => out.push('\u{F1991}'),
            '.' => out.push('\u{F199C}'),
            ':' => out.push('\u{F199D}'),
            c if c.is_whitespace() => {}
            _ => panic!("untranslatable character"),
        }
    }
    if !word.is_empty() {
        out.push(glyph(&word));
    }
    out
}

fn fatal(r: Result<(usize, sitelen_ilo::ast::object::Literal), ParseFail>) -> ParseError {
    match r.expect_err("parser should fail") {
        ParseFail::Fatal(e) => e,
        ParseFail::Recoverable(_) => panic!("expected a fatal failure"),
    }
}

fn recoverable(r: Result<(usize, sitelen_ilo::ast::object::Literal), ParseFail>) -> ParseError {
    match r.expect_err("parser should fail") {
        ParseFail::Recoverable(e) => e,
        ParseFail::Fatal(_) => panic!("expected a recoverable failure"),
    }
}

#[test]
fn line_col_counts_breaks() {
    let input: Vec<char> = "wan\ntu\nluka".chars().collect();
    assert_eq!(line_col(&input, 0), (1, 1));
    assert_eq!(line_col(&input, 3), (1, 4));
    assert_eq!(line_col(&input, 4), (2, 1));
    assert_eq!(line_col(&input, 5), (2, 2));
    assert_eq!(line_col(&input, 7), (3, 1));
    assert_eq!(line_col(&input, 11), (3, 5));
}

#[test]
fn render_without_help() {
    let e = ParseError::new(3, "it broke");
    assert_eq!(e.render(), "it broke");
}

#[test]
fn render_with_help() {
    let e = ParseError::new(3, "it broke").with_help("fix it");
    assert_eq!(e.render(), "it broke [help: fix it]");
}

#[test]
fn chain_up_keeps_cause() {
    let inner = ParseError::new(2, "inner");
    let outer = inner.chain_up(5, "outer");
    assert_eq!(outer.offset, 5);
    assert_eq!(outer.reason, "outer");
    let cause = outer.cause.expect("cause should be kept");
    assert_eq!(cause.offset, 2);
    assert_eq!(cause.reason, "inner");
    assert!(cause.cause.is_none());
}

#[test]
fn escalation_is_one_directional() {
    let r = ParseError::new(0, "x").into_error().force_failure();
    assert!(r.is_fatal());
    let f = ParseError::new(0, "x").into_failure().force_failure();
    assert!(f.is_fatal());
    assert_eq!(f.into_inner().reason, "x");
    assert!(!ParseError::new(0, "x").into_error().is_fatal());
}

#[test]
fn override_reason_keeps_severity_and_location() {
    let r = ParseError::new(4, "generic").into_error().override_reason("specific");
    match r {
        ParseFail::Recoverable(e) => {
            assert_eq!(e.offset, 4);
            assert_eq!(e.reason, "specific");
        }
        ParseFail::Fatal(_) => panic!("severity must be kept"),
    }
}

#[test]
fn nanpa_value_out_of_range() {
    // one followed by ten hundred-words overflows 64 signed bits
    let e = fatal(nanpa_quoted(&sp("<wan ale ale ale ale ale ale ale ale ale ale>"), 0));
    assert_eq!(e.reason, "value out of range for nanpa");
}

#[test]
fn nanpa_failed_match_reasons() {
    let e = fatal(nanpa_quoted(&sp("<weka>"), 0));
    assert_eq!(e.reason, "failed to match nasin nanpa pona number");
    let e = fatal(nanpa_quoted(&sp("<suli>"), 0));
    assert_eq!(e.reason, "failed to match nasin nanpa pona number");
}

#[test]
fn nanpa_word_after_end() {
    let e = fatal(nanpa_quoted(&sp("<ala weka>"), 0));
    assert_eq!(e.reason, "no numeral word may follow `ala` or `weka`");
    let e = fatal(nanpa_quoted(&sp("<wan weka ala>"), 0));
    assert_eq!(e.reason, "no numeral word may follow `ala` or `weka`");
}

#[test]
fn missing_quotes() {
    let e = recoverable(lon_quoted(&sp("lon"), 0));
    assert_eq!(e.reason, "missing opening quote for literal");
    assert_eq!(e.offset, 0);
    let e = fatal(nanpa_quoted(&sp("<wan"), 0));
    assert_eq!(e.reason, "missing closing quote for literal");
    assert_eq!(e.offset, 2);
}

#[test]
fn lon_bad_content_chains_cause() {
    let e = fatal(lon_quoted(&sp("<suli>"), 0));
    assert_eq!(e.reason, "`lon`-typed value may only take `lon` or `ala`");
    assert_eq!(e.offset, 1);
    let cause = e.cause.expect("the generic failure should be kept as cause");
    assert_eq!(cause.reason, "no grammar alternative matched");
}

#[test]
fn toki_unescaped_open_has_help() {
    let e = fatal(toki_quoted(&sp("<mi <ni>"), 0));
    assert_eq!(e.reason, "unescaped opening quote in literal");
    assert_eq!(e.offset, 2);
    assert_eq!(
        e.help.as_deref(),
        Some("quotes should be escaped by doubling them up, i.e. like this: `\u{300C}\u{300C}` or `\u{300D}\u{300D}`"),
    );
}

#[test]
fn toki_unterminated_has_help() {
    let input = sp("<mi ni");
    let e = fatal(toki_quoted(&input, 0));
    assert_eq!(e.reason, "end of input before closing quote in literal");
    assert_eq!(e.offset, input.len());
    assert!(e.help.is_some());
}

#[test]
fn cartouche_errors() {
    let err = cartouche(&sp("suli"), 0).expect_err("parser should fail");
    match err {
        ParseFail::Recoverable(e) => {
            assert_eq!(e.reason, "missing cartouche open for variable")
        }
        ParseFail::Fatal(_) => panic!("a missing opening bracket must stay recoverable"),
    }
    let err = cartouche(&sp("[.suli]"), 0).expect_err("parser should fail");
    match err {
        ParseFail::Fatal(e) => assert_eq!(
            e.reason,
            "identifiers must start with a word and contain only sitelen pona words, dots, and colons",
        ),
        ParseFail::Recoverable(_) => panic!("a malformed identifier must be fatal"),
    }
    let err = cartouche(&sp("[suli"), 0).expect_err("parser should fail");
    match err {
        ParseFail::Fatal(e) => {
            assert_eq!(e.reason, "missing cartouche close for variable");
            assert_eq!(e.offset, 2);
        }
        ParseFail::Recoverable(_) => panic!("a missing closing bracket must be fatal"),
    }
}
