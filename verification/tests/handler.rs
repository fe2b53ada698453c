use hello_wasm::process;
use hello_wasm::HandlerError;

#[test]
fn doubles_the_name() {
    let out = process(r#"{"name":"X"}"#).unwrap();
    assert_eq!(out, r#"{"name_twice":"X X"}"#);
}

#[test]
fn doubles_a_longer_name() {
    let out = process(r#"{"name":"Ada Lovelace"}"#).unwrap();
    assert_eq!(out, r#"{"name_twice":"Ada Lovelace Ada Lovelace"}"#);
}

#[test]
fn repeated_invocations_agree() {
    let input = r#"{"name":"same"}"#;
    assert_eq!(process(input), process(input));
    let bad = "not json";
    assert_eq!(process(bad), process(bad));
}

#[test]
fn output_round_trips_as_json() {
    let out = process(r#"{"name":"Ada"}"#).unwrap();
    let value: serde_json::Value = serde_json::from_str(&out).unwrap();
    let object = value.as_object().unwrap();
    assert_eq!(object.len(), 1);
    assert_eq!(object.get("name_twice").unwrap().as_str().unwrap(), "Ada Ada");
}

#[test]
fn empty_name_gives_a_single_space() {
    let out = process(r#"{"name":""}"#).unwrap();
    assert_eq!(out, r#"{"name_twice":" "}"#);
}

#[test]
fn invalid_json_aborts_with_parse_error() {
    assert_eq!(process("not json"), Err(HandlerError::Parse));
    assert_eq!(process(""), Err(HandlerError::Parse));
    assert_eq!(process(r#"{"name":"unclosed"#), Err(HandlerError::Parse));
}

#[test]
fn missing_name_aborts_with_missing_field_error() {
    assert_eq!(process("{}"), Err(HandlerError::MissingField));
    assert_eq!(
        process(r#"{"other":"field"}"#),
        Err(HandlerError::MissingField)
    );
}

#[test]
fn non_string_name_aborts_with_missing_field_error() {
    assert_eq!(process(r#"{"name": 42}"#), Err(HandlerError::MissingField));
    assert_eq!(process(r#"{"name": null}"#), Err(HandlerError::MissingField));
    assert_eq!(
        process(r#"{"name": ["X"]}"#),
        Err(HandlerError::MissingField)
    );
}

#[test]
fn non_object_document_aborts_with_missing_field_error() {
    assert_eq!(process("[1, 2]"), Err(HandlerError::MissingField));
    assert_eq!(process("42"), Err(HandlerError::MissingField));
    assert_eq!(process(r#""name""#), Err(HandlerError::MissingField));
}

#[test]
fn extra_fields_are_ignored() {
    let out = process(r#"{"name":"A","other":3}"#).unwrap();
    assert_eq!(out, r#"{"name_twice":"A A"}"#);
}

#[test]
fn name_needing_escapes_is_escaped_in_the_output() {
    let out = process(r#"{"name":"a\"b\\"}"#).unwrap();
    assert_eq!(out, r#"{"name_twice":"a\"b\\ a\"b\\"}"#);
}

#[test]
fn name_with_newline_is_escaped_in_the_output() {
    let out = process("{\"name\":\"a\\nb\"}").unwrap();
    assert_eq!(out, "{\"name_twice\":\"a\\nb a\\nb\"}");
}

#[test]
fn unicode_name_passes_through() {
    let out = process("{\"name\":\"héllo\"}").unwrap();
    assert_eq!(out, "{\"name_twice\":\"héllo héllo\"}");
}
