use presign::errors::ErrorKind;
use presign::keys::derive_key;
use presign::request::{parse_and_validate, validate_fields, LogicalRequest, RawFields};

fn fields(
    bucket: Option<&str>,
    key: Option<&str>,
    content_type: Option<&str>,
    user_id: Option<&str>,
) -> RawFields {
    RawFields {
        bucket: bucket.map(|s| s.to_string()),
        object_key: key.map(|s| s.to_string()),
        content_type: content_type.map(|s| s.to_string()),
        user_id: user_id.map(|s| s.to_string()),
    }
}

#[test]
fn empty_bucket_is_missing() {
    let r = validate_fields(fields(Some(""), Some("k"), Some("t"), None));
    match r {
        Err(f) => {
            assert_eq!(f.kind, ErrorKind::MissingField);
            assert_eq!(f.message, "missing or empty field: bucket");
        }
        Ok(_) => panic!("an empty bucket must never reach the signer"),
    }
}

#[test]
fn absent_key_is_missing() {
    let r = validate_fields(fields(Some("b"), None, Some("t"), None));
    match r {
        Err(f) => {
            assert_eq!(f.kind, ErrorKind::MissingField);
            assert_eq!(f.message, "missing or empty field: key");
        }
        Ok(_) => panic!("an absent key must never reach the signer"),
    }
}

#[test]
fn empty_user_id_means_no_caller() {
    let r = validate_fields(fields(Some("b"), Some("k"), Some("t"), Some("")));
    let req = r.expect("the required fields are all present");
    assert!(req.caller_id.is_none());
    assert_eq!(derive_key(&req), "k");
}

#[test]
fn non_string_required_field_is_missing() {
    let r = parse_and_validate("{\"bucket\":5,\"key\":\"k\",\"content_type\":\"t\"}");
    match r {
        Err(f) => assert_eq!(f.kind, ErrorKind::MissingField),
        Ok(_) => panic!("a non-text bucket must never reach the signer"),
    }
}

#[test]
fn unknown_fields_are_ignored() {
    let r = parse_and_validate(
        "{\"bucket\":\"b\",\"key\":\"k\",\"content_type\":\"t\",\"extra\":[1,2]}",
    );
    let req = r.expect("unknown fields do not invalidate a body");
    assert_eq!(req.bucket, "b");
    assert_eq!(req.object_key, "k");
    assert_eq!(req.content_type, "t");
}

#[test]
fn derive_key_is_deterministic() {
    let req = LogicalRequest {
        bucket: "b".to_string(),
        object_key: "path/to/file.webm".to_string(),
        content_type: "video/webm".to_string(),
        caller_id: Some("alice".to_string()),
    };
    let first = derive_key(&req);
    let second = derive_key(&req);
    assert_eq!(first, second);
    assert_eq!(first, "users/alice/recordings/path/to/file.webm");
}

#[test]
fn derive_key_without_caller_is_identity() {
    let req = LogicalRequest {
        bucket: "b".to_string(),
        object_key: "k1".to_string(),
        content_type: "t".to_string(),
        caller_id: None,
    };
    assert_eq!(derive_key(&req), "k1");
}

#[test]
fn derive_key_namespaces_under_caller() {
    let req = LogicalRequest {
        bucket: "b".to_string(),
        object_key: "k1".to_string(),
        content_type: "t".to_string(),
        caller_id: Some("u42".to_string()),
    };
    let key = derive_key(&req);
    assert!(key.starts_with("users/u42/recordings/"));
    assert_eq!(key, "users/u42/recordings/k1");
}
