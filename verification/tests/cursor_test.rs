use group_core::cursor::{cursor_bytes, cursor_entries, decode_cursor, encode_cursor};
use group_core::errors::AppError;

fn text(a: &str, b: &str) -> (String, Option<String>) {
    (a.to_string(), Some(b.to_string()))
}

#[test]
fn cursor_is_base64_of_sorted_json() {
    let key = vec![text("SK", "METADATA"), text("PK", "GROUP#g1"), text("entity_type", "GROUP")];
    assert_eq!(
        encode_cursor(&key),
        Ok("eyJQSyI6IkdST1VQI2cxIiwiU0siOiJNRVRBREFUQSIsImVudGl0eV90eXBlIjoiR1JPVVAifQ".into())
    );
}

#[test]
fn cursor_drops_non_text_attributes() {
    let key = vec![text("primary_subject", "math"), ("count".to_string(), None), text("PK", "GROUP#g2")];
    assert_eq!(
        encode_cursor(&key),
        Ok("eyJQSyI6IkdST1VQI2cyIiwicHJpbWFyeV9zdWJqZWN0IjoibWF0aCJ9".into())
    );
}

#[test]
fn cursor_reads_back() {
    let got = decode_cursor("eyJQSyI6IkdST1VQI2cyIiwicHJpbWFyeV9zdWJqZWN0IjoibWF0aCJ9").unwrap();
    assert_eq!(
        got,
        vec![
            ("PK".to_string(), "GROUP#g2".to_string()),
            ("primary_subject".to_string(), "math".to_string())
        ]
    );
}

#[test]
fn cursor_round_trip() {
    let key = vec![text("z", "1"), text("a", "quote \" and \\ and é"), ("n".to_string(), None)];
    let cursor = encode_cursor(&key).unwrap();
    let mut got = decode_cursor(&cursor).unwrap();
    got.sort();
    assert_eq!(
        got,
        vec![
            ("a".to_string(), "quote \" and \\ and é".to_string()),
            ("z".to_string(), "1".to_string())
        ]
    );
}

#[test]
fn empty_key_round_trip() {
    let cursor = encode_cursor(&vec![]).unwrap();
    assert_eq!(cursor, "e30");
    assert_eq!(decode_cursor(&cursor).unwrap(), vec![]);
}

#[test]
fn cursor_that_is_not_base64_is_refused() {
    match decode_cursor("***") {
        Err(AppError::Internal(m)) => assert!(m.starts_with("Cursor decoding error: ")),
        other => panic!("unexpected {:?}", other),
    }
}

#[test]
fn cursor_that_is_not_a_string_map_is_refused() {
    for c in ["eyJhIjoxfQ", "bm90IGpzb24"] {
        match decode_cursor(c) {
            Err(AppError::Internal(m)) => assert!(m.starts_with("Deserialize cursor error: ")),
            other => panic!("unexpected {:?}", other),
        }
    }
}

#[test]
fn refused_base64_is_an_internal_error() {
    assert_eq!(cursor_bytes(Ok(vec![1, 2])), Ok(vec![1, 2]));
    assert_eq!(
        cursor_bytes(Err("Invalid byte 42, offset 0.".into())),
        Err(AppError::Internal("Cursor decoding error: Invalid byte 42, offset 0.".into()))
    );
}

#[test]
fn refused_json_is_an_internal_error() {
    let entries = vec![("PK".to_string(), "GROUP#g".to_string())];
    assert_eq!(cursor_entries(Ok(entries.clone())), Ok(entries));
    assert_eq!(
        cursor_entries(Err("expected value at line 1 column 1".into())),
        Err(AppError::Internal("Deserialize cursor error: expected value at line 1 column 1".into()))
    );
}
