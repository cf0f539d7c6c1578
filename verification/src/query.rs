use vstd::prelude::*;

verus! {

/// Direction in which listed tasks are ordered.
#[derive(Clone, Copy, Debug, PartialEq, Eq, Structural)]
pub enum SortOrder {
    Asc,
    Desc,
}

/// Comparison operators that a temporal filter can ask of a storage backend.
/// Only the operations in use; not exhaustive.
#[derive(Clone, Copy, Debug, PartialEq, Eq, Structural)]
pub enum FilterOps {
    Gte,
    Lte,
}

impl SortOrder {
    /// Diagnostic name of the variant.
    pub fn as_str(&self) -> (r: &'static str)
        ensures
            *self == SortOrder::Asc ==> r@ == "SortOrder::Asc"@,
            *self == SortOrder::Desc ==> r@ == "SortOrder::Desc"@,
    {
        match self {
            SortOrder::Asc => "SortOrder::Asc",
            SortOrder::Desc => "SortOrder::Desc",
        }
    }
}

impl FilterOps {
    /// Diagnostic name of the variant.
    pub fn as_str(&self) -> (r: &'static str)
        ensures
            *self == FilterOps::Gte ==> r@ == "FilterOps::Gte"@,
            *self == FilterOps::Lte ==> r@ == "FilterOps::Lte"@,
    {
        match self {
            FilterOps::Gte => "FilterOps::Gte",
            FilterOps::Lte => "FilterOps::Lte",
        }
    }
}

} // verus!
