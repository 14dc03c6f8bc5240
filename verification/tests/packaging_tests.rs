//! The bundle packager: de-escaping the stored source, round trips through
//! the creation-time escaping, NUL padding, and failure modes.

use seraph_core::code_nodes::{alter_code, store_code, Model};
use seraph_core::enums::{CodeLanguage, ExecError, OutputType};

fn node_with_code(code: &str, language: CodeLanguage) -> Model {
    Model {
        id: 7,
        name: "add".to_string(),
        function_name: "add_numbers".to_string(),
        code: code.to_string(),
        output_name: "result".to_string(),
        output_type: OutputType::Number,
        language,
    }
}

#[test]
fn alter_code_decodes_stored_scenario_source() {
    // The stored field holds a JSON string literal whose \n escape denotes
    // a newline in the recovered source.
    let n = node_with_code(
        "\"def add_numbers():\\n    return 1+1\"",
        CodeLanguage::Python,
    );
    let source = alter_code(&n).unwrap();
    assert_eq!(source, "def add_numbers():\n    return 1+1");
}

#[test]
fn alter_code_applies_second_unescape_pass() {
    // A doubly escaped newline survives the JSON decoding as a literal
    // backslash-n pair, which the second pass turns into a newline.
    let n = node_with_code("\"a\\\\nb\"", CodeLanguage::Python);
    assert_eq!(alter_code(&n).unwrap(), "a\nb");
}

#[test]
fn alter_code_strips_trailing_nul_padding_only() {
    let stored = serde_json::to_string("lead\u{0}mid\u{0}\u{0}").unwrap();
    let n = node_with_code(&stored, CodeLanguage::Python);
    assert_eq!(alter_code(&n).unwrap(), "lead\u{0}mid");

    let stored = serde_json::to_string("\u{0}head").unwrap();
    let n = node_with_code(&stored, CodeLanguage::Python);
    assert_eq!(alter_code(&n).unwrap(), "\u{0}head");
}

#[test]
fn alter_code_rejects_text_that_is_no_json_string() {
    let n = node_with_code("def f(): pass", CodeLanguage::Python);
    assert_eq!(alter_code(&n), Err(ExecError::DecodeFailure));
}

#[test]
fn alter_code_rejects_invalid_escape_sequence() {
    // The stored JSON literal decodes to a text holding a backslash that
    // starts no valid escape sequence: the second pass refuses it.
    let n = node_with_code("\"a\\\\qb\"", CodeLanguage::Python);
    assert_eq!(alter_code(&n), Err(ExecError::DecodeFailure));
}

#[test]
fn store_code_round_trips_newlines_quotes_and_inner_nul() {
    let texts = [
        "def add_numbers():\n    return 1+1",
        "say \"hello\"\nline two",
        "with\u{0}inner nul",
        "",
        "tabs\tand\rreturns",
    ];
    for text in texts {
        let stored = store_code(text).expect("text should be storable");
        let n = node_with_code(&stored, CodeLanguage::Python);
        assert_eq!(alter_code(&n).unwrap(), text);
    }
}

#[test]
fn store_code_matches_creation_time_escaping() {
    let stored = store_code("a\nb").unwrap();
    assert_eq!(stored, "\"a\\nb\"");
    assert_eq!(stored, serde_json::to_string("a\nb").unwrap());
}

#[test]
fn store_code_refuses_text_the_pipeline_would_alter() {
    // A literal backslash-n pair would come back as a newline, so the
    // validating store refuses it rather than store it silently changed.
    assert_eq!(store_code("a\\nb"), None);
    // Trailing NUL padding would be stripped on the way back.
    assert_eq!(store_code("abc\u{0}"), None);
}

#[test]
fn package_names_file_after_node_and_language() {
    let stored = serde_json::to_string("print(1)").unwrap();
    let n = node_with_code(&stored, CodeLanguage::Python);
    let b = n.package().unwrap();
    assert_eq!(b.file_name, "add.py");
    assert_eq!(b.content, "print(1)");

    let n = node_with_code(&stored, CodeLanguage::JavaScript);
    let b = n.package().unwrap();
    assert_eq!(b.file_name, "add.js");
}

#[test]
fn package_twice_is_byte_identical() {
    let n = node_with_code(
        "\"def add_numbers():\\n    return 1+1\"",
        CodeLanguage::Python,
    );
    let first = n.package().unwrap();
    let second = n.package().unwrap();
    assert_eq!(first.content.as_bytes(), second.content.as_bytes());
    assert_eq!(first.file_name, second.file_name);
}

#[test]
fn package_fails_exactly_as_alter_code_does() {
    let n = node_with_code("not json", CodeLanguage::Python);
    assert_eq!(n.package(), Err(ExecError::DecodeFailure));
}
