use vstd::prelude::*;

use crate::errors::{Error, ErrorView};

verus! {

/// The sixteen bytes that `s` spells as a UUID, if it spells one in any of
/// the textual shapes the uuid crate reads (simple, hyphenated, braced,
/// URN): a function of the string alone.
pub uninterp spec fn uuid_bytes_of(s: Seq<char>) -> Option<Seq<u8>>;

/// A task id as the service holds it: the sixteen raw bytes of a UUID.
#[derive(Clone, Copy, Debug, PartialEq, Eq)]
pub struct Uuid {
    pub bytes: [u8; 16],
}

/// Relies on uuid's `Uuid::parse_str`, whose outcome is a function of the
/// string alone, and on `Uuid::into_bytes`, which returns the sixteen
/// parsed bytes.
#[verifier::external_body]
fn parse_uuid_bytes(s: &str) -> (r: Option<[u8; 16]>)
    ensures
        r is Some <==> uuid_bytes_of(s@) is Some,
        r matches Some(b) ==> uuid_bytes_of(s@) == Some(b@),
{
    match ::uuid::Uuid::parse_str(s) {
        Ok(u) => Some(u.into_bytes()),
        Err(_) => None,
    }
}

/// Parses a task id from its textual spelling; a string that spells no UUID
/// is rejected with `InvalidUuid` naming it.
pub fn parse_str(uuid_str: &str) -> (r: Result<Uuid, Error>)
    ensures
        r is Ok <==> uuid_bytes_of(uuid_str@) is Some,
        r matches Ok(u) ==> uuid_bytes_of(uuid_str@) == Some(u.bytes@),
        r matches Err(e) ==> e@ == ErrorView::InvalidUuid(uuid_str@),
{
    match parse_uuid_bytes(uuid_str) {
        Option::Some(b) => Result::Ok(Uuid { bytes: b }),
        Option::None => Result::Err(Error::InvalidUuid(uuid_str.to_owned())),
    }
}

} // verus!
