use apollo_federation_types::rover::BuildError;
use diagnostics_bridge::diagnostic::{DecodeError, Diagnostic, ErrorExtensions};
use serde_json::Value;

fn decode(text: &str) -> Result<Diagnostic, DecodeError> {
    let value: Value = serde_json::from_str(text).unwrap();
    Diagnostic::decode(&value)
}

fn lookup<'a>(other: &'a [(String, Value)], key: &str) -> Option<&'a Value> {
    other.iter().find(|entry| entry.0 == key).map(|entry| &entry.1)
}

#[test]
fn round_trip_known_fields() {
    let d = decode(r#"{"message":"m","code":"FOO","extra":"e","n":5}"#).unwrap();
    assert_eq!(d.message, Some("m".to_string()));
    let extensions = d.extensions.as_ref().unwrap();
    assert_eq!(extensions.code, "FOO".to_string());
    assert_eq!(extensions.other.len(), 2);
    assert_eq!(
        lookup(&extensions.other, "extra"),
        Some(&Value::String("e".to_string()))
    );
    assert_eq!(
        lookup(&extensions.other, "n"),
        Some(&Value::Number(serde_json::Number::from(5)))
    );
    assert_eq!(lookup(&extensions.other, "message"), None);
    assert_eq!(lookup(&extensions.other, "code"), None);
}

#[test]
fn missing_code_is_rejected() {
    assert_eq!(
        decode(r#"{"message":"x","foo":"bar"}"#).err(),
        Some(DecodeError::MissingCode)
    );
}

#[test]
fn message_only_decodes_without_extensions() {
    let d = decode(r#"{"message":"x"}"#).unwrap();
    assert_eq!(d.message, Some("x".to_string()));
    assert!(d.extensions.is_none());
}

#[test]
fn empty_object_decodes_to_nothing() {
    let d = decode("{}").unwrap();
    assert!(d.message.is_none());
    assert!(d.extensions.is_none());
    assert_eq!(d.render(), "UNKNOWN".to_string());
}

#[test]
fn code_alone_decodes_with_empty_passthrough() {
    let d = decode(r#"{"code":"FOO"}"#).unwrap();
    assert!(d.message.is_none());
    let extensions = d.extensions.as_ref().unwrap();
    assert_eq!(extensions.code, "FOO".to_string());
    assert!(extensions.other.is_empty());
}

#[test]
fn non_string_message_is_rejected() {
    assert_eq!(
        decode(r#"{"message":5}"#).err(),
        Some(DecodeError::MessageNotAString)
    );
}

#[test]
fn non_string_code_is_rejected() {
    assert_eq!(
        decode(r#"{"message":"x","code":5}"#).err(),
        Some(DecodeError::CodeNotAString)
    );
}

#[test]
fn non_object_is_rejected() {
    let value: Value = serde_json::from_str(r#""just text""#).unwrap();
    assert_eq!(
        Diagnostic::decode(&value).err(),
        Some(DecodeError::NotAnObject)
    );
    let value: Value = serde_json::from_str("[1,2]").unwrap();
    assert_eq!(
        Diagnostic::decode(&value).err(),
        Some(DecodeError::NotAnObject)
    );
}

#[test]
fn renders_code_and_message() {
    let d = decode(r#"{"code":"FOO","message":"bad thing"}"#).unwrap();
    assert_eq!(d.render(), "FOO: bad thing".to_string());
}

#[test]
fn renders_code_alone_without_separator() {
    let d = decode(r#"{"code":"FOO"}"#).unwrap();
    assert_eq!(d.render(), "FOO".to_string());
}

#[test]
fn renders_unknown_placeholder_with_message() {
    let d = decode(r#"{"message":"oops"}"#).unwrap();
    assert_eq!(d.render(), "UNKNOWN: oops".to_string());
}

#[test]
fn generic_constructor_has_message_and_no_extensions() {
    let d = Diagnostic::generic("x".to_string());
    assert_eq!(d.message, Some("x".to_string()));
    assert!(d.extensions.is_none());
    assert_eq!(d.render(), "UNKNOWN: x".to_string());
}

#[test]
fn conversion_preserves_code_and_message() {
    let d = decode(r#"{"code":"FOO","message":"m"}"#).unwrap();
    let e = d.to_build_error();
    assert_eq!(e.get_code(), Some("FOO".to_string()));
    assert_eq!(e.get_message(), Some("m".to_string()));
}

#[test]
fn conversion_without_extensions_has_no_code() {
    let e = Diagnostic::generic("m".to_string()).to_build_error();
    assert_eq!(e.get_code(), None);
    assert_eq!(e.get_message(), Some("m".to_string()));
}

#[test]
fn conversion_of_empty_diagnostic_gets_host_fallback_message() {
    let d = decode("{}").unwrap();
    let e = d.to_build_error();
    assert_eq!(e.get_code(), None);
    assert_eq!(
        e.get_message(),
        Some("An unknown error occurred during the build.".to_string())
    );
}

#[test]
fn passthrough_fields_survive_decoding_but_not_conversion() {
    let with_extra = decode(r#"{"code":"FOO","message":"m","extra":"zzz"}"#).unwrap();
    let extensions = with_extra.extensions.as_ref().unwrap();
    assert_eq!(
        lookup(&extensions.other, "extra"),
        Some(&Value::String("zzz".to_string()))
    );
    let without_extra = decode(r#"{"code":"FOO","message":"m"}"#).unwrap();
    let e1 = with_extra.to_build_error();
    let e2 = without_extra.to_build_error();
    assert_eq!(e1, e2);
    assert_eq!(e1, BuildError::composition_error(
        Some("FOO".to_string()),
        Some("m".to_string()),
        None,
        None,
    ));
}

#[test]
fn decode_fields_takes_plain_entries() {
    let fields = vec![
        ("message".to_string(), Value::String("m".to_string())),
        ("code".to_string(), Value::String("C".to_string())),
        ("extra".to_string(), Value::Bool(true)),
    ];
    let d = Diagnostic::decode_fields(fields).unwrap();
    assert_eq!(d.message, Some("m".to_string()));
    let extensions = d.extensions.as_ref().unwrap();
    assert_eq!(extensions.code, "C".to_string());
    assert_eq!(lookup(&extensions.other, "extra"), Some(&Value::Bool(true)));
}

#[test]
fn decode_fields_lets_a_later_repeated_key_win() {
    let fields = vec![
        ("code".to_string(), Value::String("A".to_string())),
        ("code".to_string(), Value::String("B".to_string())),
    ];
    let d = Diagnostic::decode_fields(fields).unwrap();
    assert_eq!(d.extensions.as_ref().unwrap().code, "B".to_string());
}

#[test]
fn constructed_diagnostic_renders_like_decoded_one() {
    let d = Diagnostic {
        message: Some("bad thing".to_string()),
        extensions: Some(ErrorExtensions {
            code: "FOO".to_string(),
            other: Vec::new(),
        }),
    };
    assert_eq!(d.render(), "FOO: bad thing".to_string());
}
