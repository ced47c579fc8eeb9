//! Tests for the quoted *lon* (boolean) literal decoder.

use sitelen_ilo::ast::object::Literal;
use sitelen_ilo::parse::object::lon::lon_quoted;

fn glyph(word: &str) -> char {
    match word {
        "ala" => '\u{F1902}',
        "e" => '\u{F1909}',
        "lon" => '\u{F192C}',
        "mi" => '\u{F1934}',
        "moli" => '\u{F1937}',
        "o" => '\u{F1944}',
        "suli" => '\u{F1963}',
        _ => panic!("unknown word"),
    }
}

fn sp(text: &str) -> Vec<char> {
    let mut out = Vec::new();
    let mut word = String::new();
    for c in text.chars() {
        if c.is_ascii_lowercase() {
            word.push(c);
            continue;
        }
        if !word.is_empty() {
            out.push(glyph(&word));
            word.clear();
        }
        match c {
            '<' => out.push('\u{300C}'),
            '>' => out.push('\u{300D}'),
            '[' => out.push('\u{F1990}'),
            ']' => out.push('\u{F1991}'),
            '.' => out.push('\u{F199C}'),
            ':' => out.push('\u{F199D}'),
            c if c.is_whitespace() => {}
            _ => panic!("untranslatable character"),
        }
    }
    if !word.is_empty() {
        out.push(glyph(&word));
    }
    out
}

fn check_valid(input: Vec<char>, val: bool) {
    let (end, value) = lon_quoted(&input, 0).expect("parser should not error");
    assert_eq!(value, Literal::Lon(val));
    assert_eq!(end, input.len());
}

fn check_invalid(input: Vec<char>) {
    lon_quoted(&input, 0).expect_err("parser should fail");
}

#[test]
fn test_true() {
    check_valid(sp("<lon>"), true);
}

#[test]
fn test_false() {
    check_valid(sp("<ala>"), false);
}

#[test]
fn test_failure() {
    check_invalid(sp("<lon"));
    check_invalid(sp("<lon suli>"));
    check_invalid(sp("<o moli e mi>"));
}
