//! Tests for the codepoint classifier, the typed-value model, the
//! command-line configuration, and end-to-end parsing scenarios.

use sitelen_ilo::ast::object::{Literal, NiRef, PrimitiveType, TypedValue, Variable};
use sitelen_ilo::cli::{Cli, LogLevel};
use sitelen_ilo::parse::error::ParseFail;
use sitelen_ilo::parse::object::nanpa::{nanpa_quoted, nasin_nanpa_pona};
use sitelen_ilo::parse::object::lon::lon_quoted;
use sitelen_ilo::parse::util::{is_sp_punct, is_sp_word};

fn glyph(word: &str) -> char {
    match word {
        "ala" => '\u{F1902}',
        "lon" => '\u{F192C}',
        "luka" => '\u{F192D}',
        "suli" => '\u{F1963}',
        "wan" => '\u{F1973}',
        "weka" => '\u{F1976}',
        _ => panic!("unknown word"),
    }
}

fn sp(text: &str) -> Vec<char> {
    let mut out = Vec::new();
    let mut word = String::new();
    for c in text.chars() {
        if c.is_ascii_lowercase() {
            word.push(c);
            continue;
        }
        if !word.is_empty() {
            out.push(glyph(&word));
            word.clear();
        }
        match c {
            '<' => out.push('\u{300C}'),
            '>' => out.push('\u{300D}'),
            '[' => out.push('\u{F1990}'),
            ']' => out.push('\u{F1991}'),
            '.' => out.push('\u{F199C}'),
            ':' => out.push('\u{F199D}'),
            c if c.is_whitespace() => {}
            _ => panic!("untranslatable character"),
        }
    }
    if !word.is_empty() {
        out.push(glyph(&word));
    }
    out
}

#[test]
fn word_glyph_ranges() {
    assert!(is_sp_word('\u{F1900}'));
    assert!(is_sp_word('\u{F1942}'));
    assert!(is_sp_word('\u{F1988}'));
    assert!(is_sp_word('\u{F19A0}'));
    assert!(is_sp_word('\u{F19A3}'));
    assert!(!is_sp_word('\u{F1989}'));
    assert!(!is_sp_word('\u{F199F}'));
    assert!(!is_sp_word('\u{F19A4}'));
    assert!(!is_sp_word('a'));
    assert!(!is_sp_word('\u{300C}'));
}

#[test]
fn punct_glyphs() {
    assert!(is_sp_punct('\u{F1990}'));
    assert!(is_sp_punct('\u{F1991}'));
    assert!(is_sp_punct('\u{F199C}'));
    assert!(is_sp_punct('\u{F199D}'));
    assert!(!is_sp_punct('\u{F1992}'));
    assert!(!is_sp_punct('\u{300C}'));
    assert!(!is_sp_punct('.'));
}

#[test]
fn typed_values_report_their_type() {
    assert_eq!(Literal::Toki(sp("suli")).get_type(), PrimitiveType::Toki);
    assert_eq!(Literal::Nanpa(42).get_type(), PrimitiveType::Nanpa);
    assert_eq!(Literal::Lon(true).get_type(), PrimitiveType::Lon);
    let v = Variable { ptype: PrimitiveType::Toki, name: sp("suli") };
    assert_eq!(v.get_type(), PrimitiveType::Toki);
    let n = NiRef { ptype: PrimitiveType::Nanpa };
    assert_eq!(n.get_type(), PrimitiveType::Nanpa);
}

#[test]
fn log_level_defaults_to_error() {
    assert_eq!(LogLevel::default(), LogLevel::Error);
}

#[test]
fn preinit_runs() {
    let cli = Cli { input: String::from("ilo"), log_level: LogLevel::default() };
    cli.preinit_all();
}

#[test]
fn scenario_boolean_ala() {
    // the boolean literal content `ala` is false, with empty remainder
    let input = sp("<ala>");
    let (end, value) = lon_quoted(&input, 0).expect("parser should not error");
    assert_eq!(value, Literal::Lon(false));
    assert_eq!(end, input.len());
}

#[test]
fn scenario_bare_numeral_negative_ten() {
    // `luka luka weka` as a bare numeral is minus ten
    let input = sp("luka luka weka");
    let (end, value) = nasin_nanpa_pona(&input, 0).expect("parser should not error");
    assert_eq!(value, -10);
    assert_eq!(end, input.len());
}

#[test]
fn scenario_bare_numeral_leaves_remainder() {
    // a numeral ends at the first codepoint that is no numeral word; the
    // remainder stays unconsumed
    let input = sp("wan suli");
    let (end, value) = nasin_nanpa_pona(&input, 0).expect("parser should not error");
    assert_eq!(value, 1);
    assert_eq!(end, 1);
}

#[test]
fn scenario_unclosed_numeral_is_fatal() {
    // `wan` with no closing mark fails fatally, whatever follows
    let err = nanpa_quoted(&sp("<wan"), 0).expect_err("parser should fail");
    assert!(matches!(err, ParseFail::Fatal(_)));
    let err = nanpa_quoted(&sp("<wan suli suli"), 0).expect_err("parser should fail");
    assert!(matches!(err, ParseFail::Fatal(_)));
    let err = nanpa_quoted(&sp("<wan [lon]"), 0).expect_err("parser should fail");
    assert!(matches!(err, ParseFail::Fatal(_)));
}
