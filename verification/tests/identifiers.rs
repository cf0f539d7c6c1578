use todo_core::errors::Error;
use todo_core::{mongo, object_id, uuids};

#[test]
fn object_id_parses_lower_case_hex() {
    let oid = object_id::parse_object_id_from_str("0123456789abcdef01234567").unwrap();
    assert_eq!(
        oid.bytes,
        [0x01, 0x23, 0x45, 0x67, 0x89, 0xab, 0xcd, 0xef, 0x01, 0x23, 0x45, 0x67]
    );
}

#[test]
fn object_id_parses_mixed_case_hex() {
    let oid = object_id::parse_object_id_from_str("FFEEDDCCBBAA998877665544").unwrap();
    assert_eq!(
        oid.bytes,
        [0xff, 0xee, 0xdd, 0xcc, 0xbb, 0xaa, 0x99, 0x88, 0x77, 0x66, 0x55, 0x44]
    );
}

#[test]
fn object_id_rejects_wrong_length() {
    assert_eq!(
        object_id::parse_object_id_from_str("0123456789abcdef0123456"),
        Err(Error::ParseObjectIDFailed(
            "0123456789abcdef0123456".to_string()
        ))
    );
}

#[test]
fn object_id_rejects_non_hex() {
    let r = object_id::parse_object_id_from_str("0123456789abcdef0123456g");
    let e = r.unwrap_err();
    assert_eq!(
        e.message().as_str(),
        "0123456789abcdef0123456g is not a valid ObjectId"
    );
}

#[test]
fn mongo_parse_agrees_with_object_id_parse() {
    let a = mongo::parse_object_id_from_str("aaaaaaaaaaaaaaaaaaaaaaaa").unwrap();
    let b = object_id::parse_object_id_from_str("aaaaaaaaaaaaaaaaaaaaaaaa").unwrap();
    assert_eq!(a.bytes, b.bytes);
    assert!(mongo::parse_object_id_from_str("not hex").is_err());
}

#[test]
fn uuid_parses_hyphenated() {
    let id = uuids::parse_str("67e55044-10b1-426f-9247-bb680e5fe0c8").unwrap();
    assert_eq!(
        id.bytes,
        [
            0x67, 0xe5, 0x50, 0x44, 0x10, 0xb1, 0x42, 0x6f, 0x92, 0x47, 0xbb, 0x68, 0x0e, 0x5f,
            0xe0, 0xc8
        ]
    );
}

#[test]
fn uuid_parses_simple_form() {
    let a = uuids::parse_str("67e5504410b1426f9247bb680e5fe0c8").unwrap();
    let b = uuids::parse_str("67e55044-10b1-426f-9247-bb680e5fe0c8").unwrap();
    assert_eq!(a.bytes, b.bytes);
}

#[test]
fn uuid_rejects_nonsense() {
    assert_eq!(
        uuids::parse_str("nonsense"),
        Err(Error::InvalidUuid("nonsense".to_string()))
    );
    let e = uuids::parse_str("nonsense").unwrap_err();
    assert_eq!(e.message().as_str(), "InvalidUuid: UUID nonsense is not valid");
}
