use files_utils::document::{
    decode_json, decode_yaml, parse_json, parse_yaml, read_json_file, read_yaml_file,
};
use files_utils::error::{Format, LoadError, ParseError};

#[test]
fn test_json_roundtrip() {
    let text = format!("{{ \"name\": \"Alice\", \"age\": 30 }}\n");
    let p = read_json_file("people.json", Ok(text)).unwrap();
    assert_eq!(p["name"], "Alice");
    assert_eq!(p["age"], 30);
}

#[test]
fn json_people_file() {
    let text = String::from("{\"name\":\"Alice\",\"age\":30}");
    let doc = read_json_file("people.json", Ok(text)).unwrap();
    assert_eq!(doc["name"].as_str(), Some("Alice"));
    assert_eq!(doc["age"].as_u64(), Some(30));
    assert_eq!(doc.as_object().unwrap().len(), 2);
}

#[test]
fn json_document_equals_what_the_parser_builds() {
    let text = "{\"a\": [1, 2.5, true, null, \"x\"], \"b\": {\"c\": -7}}";
    let expected: serde_json::Value = serde_json::from_str(text).unwrap();
    assert_eq!(parse_json(text), Ok(expected.clone()));
    assert_eq!(read_json_file("doc.json", Ok(String::from(text))), Ok(expected));
}

#[test]
fn json_primitives_keep_their_values() {
    assert_eq!(parse_json("30").unwrap().as_u64(), Some(30));
    assert_eq!(parse_json("-4").unwrap().as_i64(), Some(-4));
    assert_eq!(parse_json("true").unwrap().as_bool(), Some(true));
    assert_eq!(parse_json("\"Alice\"").unwrap().as_str(), Some("Alice"));
    assert!(parse_json("null").unwrap().is_null());
}

#[test]
fn malformed_json_is_a_parse_error() {
    let text = "{\"name\": \"Alice\", \"age\": ";
    let expected = serde_json::from_str::<serde_json::Value>(text).unwrap_err().to_string();
    let err = parse_json(text).unwrap_err();
    assert_eq!(err, ParseError { format: Format::Json, message: expected });
    assert!(!err.message.is_empty());
    assert_ne!(err.message, text);
}

#[test]
fn empty_text_is_not_json() {
    assert!(parse_json("").is_err());
    assert_eq!(parse_json("").unwrap_err().format, Format::Json);
}

#[test]
fn malformed_json_file_is_a_decode_failure() {
    let text = "[1, 2,";
    let expected = serde_json::from_str::<serde_json::Value>(text).unwrap_err().to_string();
    let result = read_json_file("bad.json", Ok(String::from(text)));
    assert_eq!(
        result,
        Err(LoadError::DecodeFailure { format: Format::Json, message: expected })
    );
}

#[test]
fn unreadable_json_file_is_an_io_failure() {
    let result = read_json_file("missing.json", Err(String::from("No such file or directory")));
    assert_eq!(
        result,
        Err(LoadError::IoFailure {
            path: String::from("missing.json"),
            reason: String::from("No such file or directory"),
        })
    );
}

#[test]
fn yaml_mapping_is_loaded() {
    let text = String::from("name: Alice\nage: 30\n");
    let doc = read_yaml_file("people.yaml", Ok(text)).unwrap();
    assert_eq!(doc["name"].as_str(), Some("Alice"));
    assert_eq!(doc["age"].as_u64(), Some(30));
}

#[test]
fn yaml_document_equals_what_the_parser_builds() {
    let text = "items:\n  - 1\n  - two\n  - true\nnested:\n  key: value\n";
    let expected: serde_yaml::Value = serde_yaml::from_str(text).unwrap();
    assert_eq!(parse_yaml(text), Ok(expected.clone()));
    assert_eq!(read_yaml_file("doc.yml", Ok(String::from(text))), Ok(expected));
}

#[test]
fn malformed_yaml_is_a_parse_error() {
    let text = "key: [1, 2\nother: }";
    let expected = serde_yaml::from_str::<serde_yaml::Value>(text).unwrap_err().to_string();
    let err = parse_yaml(text).unwrap_err();
    assert_eq!(err, ParseError { format: Format::Yaml, message: expected });
    assert!(!err.message.is_empty());
}

#[test]
fn malformed_yaml_file_is_a_decode_failure() {
    let text = "a: b: c: [";
    let expected = serde_yaml::from_str::<serde_yaml::Value>(text).unwrap_err().to_string();
    let result = read_yaml_file("bad.yaml", Ok(String::from(text)));
    assert_eq!(
        result,
        Err(LoadError::DecodeFailure { format: Format::Yaml, message: expected })
    );
}

#[test]
fn unreadable_yaml_file_is_an_io_failure() {
    let result = read_yaml_file("/etc/secret.yml", Err(String::from("Permission denied")));
    assert_eq!(
        result,
        Err(LoadError::IoFailure {
            path: String::from("/etc/secret.yml"),
            reason: String::from("Permission denied"),
        })
    );
}

#[test]
fn yaml_text_is_not_json() {
    let text = "name: Alice\nage: 30\n";
    assert!(parse_yaml(text).is_ok());
    let err = parse_json(text).unwrap_err();
    assert_eq!(err.format, Format::Json);
}

#[test]
fn decode_json_hands_on_a_typed_value() {
    assert_eq!(decode_json(serde_json::from_str::<u8>("30")), Ok(30u8));
    assert_eq!(
        decode_json(serde_json::from_str::<Vec<String>>("[\"a\", \"b\"]")),
        Ok(vec![String::from("a"), String::from("b")])
    );
    assert_eq!(
        decode_json(serde_json::from_str::<(String, u8)>("[\"Alice\", 30]")),
        Ok((String::from("Alice"), 30u8))
    );
}

#[test]
fn decode_json_reports_a_type_mismatch() {
    let expected = serde_json::from_str::<u8>("\"thirty\"").unwrap_err().to_string();
    assert_eq!(
        decode_json(serde_json::from_str::<u8>("\"thirty\"")),
        Err(ParseError { format: Format::Json, message: expected })
    );
    assert!(decode_json(serde_json::from_str::<u8>("300")).is_err());
}

#[test]
fn decode_yaml_hands_on_a_typed_value() {
    assert_eq!(decode_yaml(serde_yaml::from_str::<u8>("30")), Ok(30u8));
    assert_eq!(
        decode_yaml(serde_yaml::from_str::<Vec<String>>("- a\n- b\n")),
        Ok(vec![String::from("a"), String::from("b")])
    );
}

#[test]
fn decode_yaml_reports_a_type_mismatch() {
    let expected = serde_yaml::from_str::<u8>("thirty").unwrap_err().to_string();
    assert_eq!(
        decode_yaml(serde_yaml::from_str::<u8>("thirty")),
        Err(ParseError { format: Format::Yaml, message: expected })
    );
}
