//! Tests of the LaTeX escaping, on strings and on JSON values.

use papers::json::{escape_tex, unescape_tex, JsonValue};
use papers::latex::{escape_tex_string, unescape_tex_string};

fn s(text: &str) -> String {
    text.to_string()
}

#[test]
fn escape_tex_does_not_alter_basic_json_strings() {
    let original = JsonValue::String(s("abc"));
    let expected = JsonValue::String(s("abc"));
    assert_eq!(escape_tex(&original), expected);
}

#[test]
fn escape_tex_does_not_alter_basic_json_numbers() {
    let original = JsonValue::Number(s("3"));
    let expected = JsonValue::Number(s("3"));
    assert_eq!(escape_tex(&original), expected);
}

#[test]
fn escape_tex_does_not_alter_basic_json_arrays() {
    let original = JsonValue::Array(vec![
        JsonValue::String(s("a")),
        JsonValue::Number(s("33")),
        JsonValue::Null,
    ]);
    let expected = JsonValue::Array(vec![
        JsonValue::String(s("a")),
        JsonValue::Number(s("33")),
        JsonValue::Null,
    ]);
    assert_eq!(escape_tex(&original), expected);
}

#[test]
fn escape_tex_escapes_latex_special_characters() {
    let original = JsonValue::String(s(
        r##"## Ye$sterday,
            I ate 30% discounted M&M's 90% of the time, & it was {{ _sweet_ }} as hell
            ##"##,
    ));
    let expected = JsonValue::String(s(
        r##"\#\# Ye\$sterday,
            I ate 30\% discounted M\&M's 90\% of the time, \& it was \{\{ \_sweet\_ \}\} as hell
            \#\#"##,
    ));
    assert_eq!(escape_tex(&original), expected);
}

#[test]
fn escape_tex_escapes_strings_in_arrays() {
    let original = JsonValue::Array(vec![
        JsonValue::String(s("M&Ms")),
        JsonValue::String(s("Ben & Jerry's")),
    ]);
    let expected = JsonValue::Array(vec![
        JsonValue::String(s("M\\&Ms")),
        JsonValue::String(s("Ben \\& Jerry's")),
    ]);
    assert_eq!(escape_tex(&original), expected);
}

#[test]
fn escape_tex_escapes_recursively_into_the_json_structure() {
    let original = JsonValue::Object(vec![
        (s("deadEnd"), JsonValue::Null),
        (
            s("names"),
            JsonValue::Array(vec![
                JsonValue::String(s("Jack & John")),
                JsonValue::String(s("Santa & Claus")),
            ]),
        ),
        (
            s("discounts"),
            JsonValue::Object(vec![
                (s("alot"), JsonValue::String(s("70%"))),
                (s("commented"), JsonValue::String(s("33% # or thereabouts"))),
                (s("multiplicator"), JsonValue::Number(s("3.32"))),
            ]),
        ),
    ]);
    let expected = JsonValue::Object(vec![
        (s("deadEnd"), JsonValue::Null),
        (
            s("names"),
            JsonValue::Array(vec![
                JsonValue::String(s("Jack \\& John")),
                JsonValue::String(s("Santa \\& Claus")),
            ]),
        ),
        (
            s("discounts"),
            JsonValue::Object(vec![
                (s("alot"), JsonValue::String(s("70\\%"))),
                (s("commented"), JsonValue::String(s("33\\% \\# or thereabouts"))),
                (s("multiplicator"), JsonValue::Number(s("3.32"))),
            ]),
        ),
    ]);
    assert_eq!(escape_tex(&original), expected);
}

#[test]
fn escape_recursion_on_nested_objects() {
    let original = JsonValue::Object(vec![
        (
            s("names"),
            JsonValue::Array(vec![JsonValue::String(s("Jack & John"))]),
        ),
        (
            s("d"),
            JsonValue::Object(vec![(s("a"), JsonValue::String(s("70%")))]),
        ),
    ]);
    let expected = JsonValue::Object(vec![
        (
            s("names"),
            JsonValue::Array(vec![JsonValue::String(s("Jack \\& John"))]),
        ),
        (
            s("d"),
            JsonValue::Object(vec![(s("a"), JsonValue::String(s("70\\%")))]),
        ),
    ]);
    assert_eq!(escape_tex(&original), expected);
}

#[test]
fn escape_tex_string_inserts_backslashes() {
    assert_eq!(escape_tex_string("a&b%c$d#e_f{g}h"), "a\\&b\\%c\\$d\\#e\\_f\\{g\\}h");
    assert_eq!(escape_tex_string(""), "");
    assert_eq!(escape_tex_string("plain text"), "plain text");
}

#[test]
fn unescape_tex_string_removes_backslashes() {
    assert_eq!(unescape_tex_string("a\\&b\\%c"), "a&b%c");
    assert_eq!(unescape_tex_string("no escapes"), "no escapes");
    assert_eq!(unescape_tex_string("\\\\&"), "\\&");
}

#[test]
fn escape_tex_and_unescape_tex_roundtrip() {
    let samples = [
        "",
        "plain",
        "a&b",
        "\\already\\escaped\\&",
        "100% #1 {braces} _under_ $cash$ & more",
        "multi\nline\nwith % and &",
        "unicode: h\u{e9}h\u{e9} & caf\u{e9} 100%",
        "\\",
        "\\&",
        "&\\",
    ];
    for sample in samples {
        assert_eq!(unescape_tex_string(&escape_tex_string(sample)), sample);
    }
}

#[test]
fn unescape_tex_undoes_escape_tex_on_json() {
    let original = JsonValue::Object(vec![
        (s("a"), JsonValue::String(s("70% & #1"))),
        (s("b"), JsonValue::Array(vec![JsonValue::Bool(true), JsonValue::String(s("_x_"))])),
    ]);
    let there = escape_tex(&original);
    let back = unescape_tex(&there);
    assert_eq!(back, original);
}
