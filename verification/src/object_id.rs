use vstd::prelude::*;

use crate::errors::{Error, ErrorView};

verus! {

/// Whether `c` is a hexadecimal digit, either case.
pub open spec fn is_hex_digit(c: char) -> bool {
    ||| ('0' as u32) <= (c as u32) && (c as u32) <= ('9' as u32)
    ||| ('a' as u32) <= (c as u32) && (c as u32) <= ('f' as u32)
    ||| ('A' as u32) <= (c as u32) && (c as u32) <= ('F' as u32)
}

/// The value of a hexadecimal digit.
pub open spec fn hex_digit_value(c: char) -> u8 {
    if ('0' as u32) <= (c as u32) && (c as u32) <= ('9' as u32) {
        ((c as u32) - ('0' as u32)) as u8
    } else if ('a' as u32) <= (c as u32) && (c as u32) <= ('f' as u32) {
        ((c as u32) - ('a' as u32) + 10) as u8
    } else {
        ((c as u32) - ('A' as u32) + 10) as u8
    }
}

/// Whether `s` spells an object id: exactly 24 hexadecimal digits.
pub open spec fn is_object_id_hex(s: Seq<char>) -> bool {
    &&& s.len() == 24
    &&& forall|i: int| 0 <= i < 24 ==> is_hex_digit(s[i])
}

/// The twelve bytes that 24 hexadecimal digits spell, high nibble first.
pub open spec fn object_id_bytes_of(s: Seq<char>) -> Seq<u8> {
    Seq::new(12, |i: int| (16 * hex_digit_value(s[2 * i]) + hex_digit_value(s[2 * i + 1])) as u8)
}

/// A document-store object id as the service holds it: its twelve raw
/// bytes.
#[derive(Clone, Copy, Debug, PartialEq, Eq)]
pub struct ObjectId {
    pub bytes: [u8; 12],
}

/// Relies on bson's `ObjectId::parse_str`, which hex-decodes the string and
/// succeeds exactly on 24 hexadecimal digits, and on `ObjectId::bytes`,
/// which returns the twelve decoded bytes.
#[verifier::external_body]
fn parse_oid_bytes(s: &str) -> (r: Option<[u8; 12]>)
    ensures
        r is Some <==> is_object_id_hex(s@),
        r matches Some(b) ==> b@ == object_id_bytes_of(s@),
{
    match bson::oid::ObjectId::parse_str(s) {
        Ok(oid) => Some(oid.bytes()),
        Err(_) => None,
    }
}

/// Parses an object id from its 24-digit hexadecimal spelling; any other
/// string is rejected with `ParseObjectIDFailed` naming it.
pub fn parse_object_id_from_str(object_id: &str) -> (r: Result<ObjectId, Error>)
    ensures
        r is Ok <==> is_object_id_hex(object_id@),
        r matches Ok(oid) ==> oid.bytes@ == object_id_bytes_of(object_id@),
        r matches Err(e) ==> e@ == ErrorView::ParseObjectIDFailed(object_id@),
{
    match parse_oid_bytes(object_id) {
        Option::Some(b) => Result::Ok(ObjectId { bytes: b }),
        Option::None => Result::Err(Error::ParseObjectIDFailed(object_id.to_owned())),
    }
}

} // verus!
