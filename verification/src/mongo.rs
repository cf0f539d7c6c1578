use vstd::prelude::*;

use crate::errors::{Error, ErrorView};
use crate::object_id::{is_object_id_hex, object_id_bytes_of, ObjectId};

verus! {

/// The document-store spellings of the comparison operators in use. Not
/// exhaustive.
#[derive(Clone, Copy, Debug, PartialEq, Eq, Structural)]
pub enum FilterOps {
    Gte,
    Lte,
}

impl FilterOps {
    /// The operator key as a filter document writes it.
    pub fn as_str(&self) -> (r: &'static str)
        ensures
            *self == FilterOps::Gte ==> r@ == "$gte"@,
            *self == FilterOps::Lte ==> r@ == "$lte"@,
    {
        match self {
            FilterOps::Gte => "$gte",
            FilterOps::Lte => "$lte",
        }
    }
}

/// Parses an object id from its 24-digit hexadecimal spelling; any other
/// string is rejected with `ParseObjectIDFailed` naming it.
pub fn parse_object_id_from_str(object_id: &str) -> (r: Result<ObjectId, Error>)
    ensures
        r is Ok <==> is_object_id_hex(object_id@),
        r matches Ok(oid) ==> oid.bytes@ == object_id_bytes_of(object_id@),
        r matches Err(e) ==> e@ == ErrorView::ParseObjectIDFailed(object_id@),
{
    crate::object_id::parse_object_id_from_str(object_id)
}

} // verus!
