//! Tests for the quoted *toki* (text) literal decoder and its escaping
//! convention.

use sitelen_ilo::ast::object::Literal;
use sitelen_ilo::parse::object::toki::toki_quoted;

fn glyph(word: &str) -> char {
    match word {
        "ala" => '\u{F1902}',
        "e" => '\u{F1909}',
        "ken" => '\u{F1918}',
        "la" => '\u{F1921}',
        "li" => '\u{F1927}',
        "mi" => '\u{F1934}',
        "ni" => '\u{F1941}',
        "pakala" => '\u{F1948}',
        "pini" => '\u{F1950}',
        "pona" => '\u{F1954}',
        "sama" => '\u{F1956}',
        "sitelen" => '\u{F1960}',
        "wawa" => '\u{F1975}',
        "wile" => '\u{F1977}',
        _ => panic!("unknown word"),
    }
}

fn sp(text: &str) -> Vec<char> {
    let mut out = Vec::new();
    let mut word = String::new();
    for c in text.chars() {
        if c.is_ascii_lowercase() {
            word.push(c);
            continue;
        }
        if !word.is_empty() {
            out.push(glyph(&word));
            word.clear();
        }
        match c {
            '<' => out.push('\u{300C}'),
            '>' => out.push('\u{300D}'),
            '[' => out.push('\u{F1990}'),
            ']' => out.push('\u{F1991}'),
            '.' => out.push('\u{F199C}'),
            ':' => out.push('\u{F199D}'),
            c if c.is_whitespace() => {}
            _ => panic!("untranslatable character"),
        }
    }
    if !word.is_empty() {
        out.push(glyph(&word));
    }
    out
}

fn check_valid(input: Vec<char>, expected: Vec<char>) {
    let (end, value) = toki_quoted(&input, 0).expect("parser should not error");
    assert_eq!(value, Literal::Toki(expected));
    assert_eq!(end, input.len());
}

fn check_invalid(input: Vec<char>) {
    toki_quoted(&input, 0).expect_err("parser should fail");
}

#[test]
fn test_no_escapes() {
    check_valid(
        "\u{300C}me when the toki isn't pona\u{300D}".chars().collect(),
        "me when the toki isn't pona".chars().collect(),
    );
    check_valid(
        sp("<sitelen li pona ala la mi:>"),
        sp("sitelen li pona ala la mi:"),
    );
}

#[test]
fn test_close_escape() {
    check_valid(
        sp("<mi ken pini ala sama ni >> pona la ni li pakala ala>"),
        sp("mi ken pini ala sama ni > pona la ni li pakala ala"),
    );
}

#[test]
fn test_open_escape() {
    check_valid(
        sp("<mi wile e ni <<ni li pakala ala>>>"),
        sp("mi wile e ni <ni li pakala ala>"),
    );
    check_invalid(sp("<mi wile e ni <ni li pakala wawa>>>"));
}
