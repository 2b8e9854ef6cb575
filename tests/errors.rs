use lokichain::error::{format_error_map, ApplicationError, ErrorMap};

#[test]
fn test_format_error_map() {
    let mut map = ErrorMap::new();
    map.insert("field1".to_string(), "error1".to_string());
    map.insert("field2".to_string(), "error2".to_string());

    let formatted = format_error_map(&map);
    assert_eq!(formatted, "[field1: error1, field2: error2]");
}

#[test]
fn error_map_sorts_fields_and_replaces_reasons() {
    let mut map = ErrorMap::new();
    map.insert("body.sender".to_string(), "a".to_string());
    map.insert("body.amount".to_string(), "b".to_string());
    map.insert("hash".to_string(), "c".to_string());
    map.insert("body.gas".to_string(), "d".to_string());
    map.insert("body.amount".to_string(), "e".to_string());
    assert_eq!(map.len(), 4);
    assert_eq!(format_error_map(&map), "[body.amount: e, body.gas: d, body.sender: a, hash: c]");
    assert_eq!(map.get("body.amount").unwrap(), "e");
    assert!(map.get("signature").is_none());
}

#[test]
fn empty_error_map_renders_brackets() {
    assert_eq!(format_error_map(&ErrorMap::new()), "[]");
}

#[test]
fn error_messages() {
    let invalid = ApplicationError::InvalidData(ErrorMap::single("hash", "hash is not valid"));
    assert_eq!(invalid.message(), "Invalid data: [hash: hash is not valid]");
    let missing = ApplicationError::NotFound("Account not found".to_string());
    assert_eq!(missing.message(), "Not found: Account not found");
    let other = ApplicationError::Other(anyhow::Error::msg("disk unreachable"));
    assert_eq!(other.message(), "disk unreachable");
}
