use vstd::prelude::*;

use crate::query::SortOrder;
use crate::text::{seq_matches_lower, str_eq, str_matches_lower};

verus! {

/// The untrusted query parameters of the list endpoint, exactly as the HTTP
/// layer hands them over: every field optional, the temporal bounds given as
/// millisecond Unix timestamps.
pub struct RawListParameters {
    pub attribute: Option<String>,
    pub sort: Option<String>,
    pub before: Option<i64>,
    pub after: Option<i64>,
    pub start: Option<i64>,
    pub end: Option<i64>,
}

/// The mathematical value of `RawListParameters`: strings as character
/// sequences, timestamps as they are.
pub struct RawParamsView {
    pub attribute: Option<Seq<char>>,
    pub sort: Option<Seq<char>>,
    pub before: Option<i64>,
    pub after: Option<i64>,
    pub start: Option<i64>,
    pub end: Option<i64>,
}

impl View for RawListParameters {
    type V = RawParamsView;

    open spec fn view(&self) -> RawParamsView {
        RawParamsView {
            attribute: match self.attribute {
                Option::Some(s) => Option::Some(s@),
                Option::None => Option::None,
            },
            sort: match self.sort {
                Option::Some(s) => Option::Some(s@),
                Option::None => Option::None,
            },
            before: self.before,
            after: self.after,
            start: self.start,
            end: self.end,
        }
    }
}

/// The closed set of attributes a list request may sort and filter by.
#[derive(Clone, Copy, Debug, PartialEq, Eq, Structural)]
pub enum SortAttribute {
    Title,
    CreatedAt,
    Deadline,
}

/// The temporal constraint a validated request carries, if any.
#[derive(Clone, Copy, Debug, PartialEq, Eq, Structural)]
pub enum TemporalFilter {
    NoFilter,
    Before(i64),
    After(i64),
    Between(i64, i64),
}

/// A validated, normalized list request.
#[derive(Clone, Copy, Debug, PartialEq, Eq, Structural)]
pub struct QueryIntent {
    pub sort_attribute: SortAttribute,
    pub sort_order: SortOrder,
    pub temporal_filter: TemporalFilter,
}

impl QueryIntent {
    /// Well-formedness: `title` carries no temporal semantics, and a range
    /// is never inverted.
    pub open spec fn wf(self) -> bool {
        &&& (self.sort_attribute == SortAttribute::Title ==> self.temporal_filter
            is NoFilter)
        &&& (self.temporal_filter matches TemporalFilter::Between(s, e) ==> s <= e)
    }
}

/// Why a list request was rejected. Each variant is a user-input error; its
/// text is surfaced verbatim to the caller.
#[derive(Clone, Debug)]
pub enum ValidationError {
    InvalidSortOrder,
    UnknownAttribute(String),
    IncompatibleFilterWithTitle,
    MissingAttributeForTemporalFilter,
    ConflictingBeforeAfter,
    ConflictingRangeAndBound,
    MissingStart,
    MissingEnd,
    InvertedRange,
}

/// The mathematical value of `ValidationError`.
pub enum ValidationErrorView {
    InvalidSortOrder,
    UnknownAttribute(Seq<char>),
    IncompatibleFilterWithTitle,
    MissingAttributeForTemporalFilter,
    ConflictingBeforeAfter,
    ConflictingRangeAndBound,
    MissingStart,
    MissingEnd,
    InvertedRange,
}

impl View for ValidationError {
    type V = ValidationErrorView;

    open spec fn view(&self) -> ValidationErrorView {
        match self {
            ValidationError::InvalidSortOrder => ValidationErrorView::InvalidSortOrder,
            ValidationError::UnknownAttribute(s) => ValidationErrorView::UnknownAttribute(s@),
            ValidationError::IncompatibleFilterWithTitle => ValidationErrorView::IncompatibleFilterWithTitle,
            ValidationError::MissingAttributeForTemporalFilter => ValidationErrorView::MissingAttributeForTemporalFilter,
            ValidationError::ConflictingBeforeAfter => ValidationErrorView::ConflictingBeforeAfter,
            ValidationError::ConflictingRangeAndBound => ValidationErrorView::ConflictingRangeAndBound,
            ValidationError::MissingStart => ValidationErrorView::MissingStart,
            ValidationError::MissingEnd => ValidationErrorView::MissingEnd,
            ValidationError::InvertedRange => ValidationErrorView::InvertedRange,
        }
    }
}

impl PartialEq for ValidationError {
    fn eq(&self, other: &ValidationError) -> (r: bool) {
        match (self, other) {
            (ValidationError::InvalidSortOrder, ValidationError::InvalidSortOrder) => true,
            (ValidationError::UnknownAttribute(a), ValidationError::UnknownAttribute(b)) => str_eq(
                a.as_str(),
                b.as_str(),
            ),
            (
                ValidationError::IncompatibleFilterWithTitle,
                ValidationError::IncompatibleFilterWithTitle,
            ) => true,
            (
                ValidationError::MissingAttributeForTemporalFilter,
                ValidationError::MissingAttributeForTemporalFilter,
            ) => true,
            (ValidationError::ConflictingBeforeAfter, ValidationError::ConflictingBeforeAfter) => true,
            (ValidationError::ConflictingRangeAndBound, ValidationError::ConflictingRangeAndBound) => true,
            (ValidationError::MissingStart, ValidationError::MissingStart) => true,
            (ValidationError::MissingEnd, ValidationError::MissingEnd) => true,
            (ValidationError::InvertedRange, ValidationError::InvertedRange) => true,
            (_, _) => false,
        }
    }
}

impl vstd::std_specs::cmp::PartialEqSpecImpl for ValidationError {
    open spec fn obeys_eq_spec() -> bool {
        true
    }

    open spec fn eq_spec(&self, other: &ValidationError) -> bool {
        self@ == other@
    }
}

impl ValidationError {
    /// The message surfaced to the caller, verbatim.
    pub fn message(&self) -> (r: String)
        ensures
            (*self) matches ValidationError::InvalidSortOrder ==> r@
                == "Invalid sort order. Must be either 1 or -1"@,
            (*self) matches ValidationError::UnknownAttribute(s) ==> r@ == "Invalid attribute: "@
                + s@ + ". Valid attributes are: title, createdAt, deadline"@,
            (*self) matches ValidationError::IncompatibleFilterWithTitle ==> r@
                == "Cannot use before, after, start, or end with title"@,
            (*self) matches ValidationError::MissingAttributeForTemporalFilter ==> r@
                == "'attrib' is required when using before, after, start, or end"@,
            (*self) matches ValidationError::ConflictingBeforeAfter ==> r@
                == "Cannot use 'before' and 'after'"@,
            (*self) matches ValidationError::ConflictingRangeAndBound ==> r@
                == "Cannot use 'before' or 'after' with 'start' or 'end'"@,
            (*self) matches ValidationError::MissingStart ==> r@
                == "No 'start' specified. 'end' requires 'start'. Try using 'before' instead"@,
            (*self) matches ValidationError::MissingEnd ==> r@
                == "No 'end' specified. 'start' requires 'end'. Try using 'after' instead"@,
            (*self) matches ValidationError::InvertedRange ==> r@
                == "'start' must be before 'end'"@,
    {
        match self {
            ValidationError::InvalidSortOrder => String::from_str(
                "Invalid sort order. Must be either 1 or -1",
            ),
            ValidationError::UnknownAttribute(s) => {
                let mut m = String::from_str("Invalid attribute: ");
                m.append(s.as_str());
                m.append(". Valid attributes are: title, createdAt, deadline");
                m
            },
            ValidationError::IncompatibleFilterWithTitle => String::from_str(
                "Cannot use before, after, start, or end with title",
            ),
            ValidationError::MissingAttributeForTemporalFilter => String::from_str(
                "'attrib' is required when using before, after, start, or end",
            ),
            ValidationError::ConflictingBeforeAfter => String::from_str(
                "Cannot use 'before' and 'after'",
            ),
            ValidationError::ConflictingRangeAndBound => String::from_str(
                "Cannot use 'before' or 'after' with 'start' or 'end'",
            ),
            ValidationError::MissingStart => String::from_str(
                "No 'start' specified. 'end' requires 'start'. Try using 'before' instead",
            ),
            ValidationError::MissingEnd => String::from_str(
                "No 'end' specified. 'start' requires 'end'. Try using 'after' instead",
            ),
            ValidationError::InvertedRange => String::from_str("'start' must be before 'end'"),
        }
    }
}

/// The sort order a `sort` value asks for: `asc`/`1` and `desc`/`-1`,
/// case-insensitively; anything else is invalid.
pub open spec fn spec_sort_order_of(s: Seq<char>) -> Option<SortOrder> {
    if seq_matches_lower(s, "asc"@) || seq_matches_lower(s, "1"@) {
        Option::Some(SortOrder::Asc)
    } else if seq_matches_lower(s, "desc"@) || seq_matches_lower(s, "-1"@) {
        Option::Some(SortOrder::Desc)
    } else {
        Option::None
    }
}

/// The sort order of a request: descending when no `sort` value is given.
pub open spec fn spec_sort_choice(s: Option<Seq<char>>) -> Option<SortOrder> {
    match s {
        Option::Some(v) => spec_sort_order_of(v),
        Option::None => Option::Some(SortOrder::Desc),
    }
}

/// The attribute an `attrib` value names, if it is one of the closed set.
pub open spec fn spec_attribute_of(s: Seq<char>) -> Option<SortAttribute> {
    if s == "title"@ {
        Option::Some(SortAttribute::Title)
    } else if s == "createdAt"@ {
        Option::Some(SortAttribute::CreatedAt)
    } else if s == "deadline"@ {
        Option::Some(SortAttribute::Deadline)
    } else {
        Option::None
    }
}

/// The temporal rules for an attribute with temporal semantics: `before` and
/// `after` exclude one another and either excludes `start`/`end`; `start`
/// and `end` come together and in order.
pub open spec fn spec_validate_temporal(
    attr: SortAttribute,
    ord: SortOrder,
    p: RawParamsView,
) -> Result<QueryIntent, ValidationErrorView> {
    if p.before is Some && p.after is Some {
        Result::Err(ValidationErrorView::ConflictingBeforeAfter)
    } else if (p.before is Some || p.after is Some) && (p.start is Some || p.end is Some) {
        Result::Err(ValidationErrorView::ConflictingRangeAndBound)
    } else {
        match p.before {
            Option::Some(t) => Result::Ok(
                QueryIntent {
                    sort_attribute: attr,
                    sort_order: ord,
                    temporal_filter: TemporalFilter::Before(t),
                },
            ),
            Option::None => match p.after {
                Option::Some(t) => Result::Ok(
                    QueryIntent {
                        sort_attribute: attr,
                        sort_order: ord,
                        temporal_filter: TemporalFilter::After(t),
                    },
                ),
                Option::None => match (p.start, p.end) {
                    (Option::Some(s), Option::Some(e)) => if s > e {
                        Result::Err(ValidationErrorView::InvertedRange)
                    } else {
                        Result::Ok(
                            QueryIntent {
                                sort_attribute: attr,
                                sort_order: ord,
                                temporal_filter: TemporalFilter::Between(s, e),
                            },
                        )
                    },
                    (Option::Some(_), Option::None) => Result::Err(ValidationErrorView::MissingEnd),
                    (Option::None, Option::Some(_)) => Result::Err(
                        ValidationErrorView::MissingStart,
                    ),
                    (Option::None, Option::None) => Result::Ok(
                        QueryIntent {
                            sort_attribute: attr,
                            sort_order: ord,
                            temporal_filter: TemporalFilter::NoFilter,
                        },
                    ),
                },
            },
        }
    }
}

/// Whether any temporal bound is present.
pub open spec fn spec_has_temporal(p: RawParamsView) -> bool {
    ||| p.before is Some
    ||| p.after is Some
    ||| p.start is Some
    ||| p.end is Some
}

/// The validator, rule by rule and in order of precedence: the sort value
/// first, the attribute's presence and spelling next, the title/temporal
/// exclusion after that, and the temporal rules last. The first violated
/// rule decides the error.
pub open spec fn spec_validate(p: RawParamsView) -> Result<QueryIntent, ValidationErrorView> {
    match spec_sort_choice(p.sort) {
        Option::None => Result::Err(ValidationErrorView::InvalidSortOrder),
        Option::Some(ord) => match p.attribute {
            Option::None => if spec_has_temporal(p) {
                Result::Err(ValidationErrorView::MissingAttributeForTemporalFilter)
            } else {
                Result::Ok(
                    QueryIntent {
                        sort_attribute: SortAttribute::CreatedAt,
                        sort_order: ord,
                        temporal_filter: TemporalFilter::NoFilter,
                    },
                )
            },
            Option::Some(name) => match spec_attribute_of(name) {
                Option::None => Result::Err(ValidationErrorView::UnknownAttribute(name)),
                Option::Some(SortAttribute::Title) => if spec_has_temporal(p) {
                    Result::Err(ValidationErrorView::IncompatibleFilterWithTitle)
                } else {
                    Result::Ok(
                        QueryIntent {
                            sort_attribute: SortAttribute::Title,
                            sort_order: ord,
                            temporal_filter: TemporalFilter::NoFilter,
                        },
                    )
                },
                Option::Some(attr) => spec_validate_temporal(attr, ord, p),
            },
        },
    }
}

/// A validation outcome as a mathematical value.
pub open spec fn validate_result_view(r: Result<QueryIntent, ValidationError>) -> Result<
    QueryIntent,
    ValidationErrorView,
> {
    match r {
        Result::Ok(q) => Result::Ok(q),
        Result::Err(e) => Result::Err(e@),
    }
}

/// Parses a `sort` value.
pub fn sort_order_of(s: &str) -> (r: Option<SortOrder>)
    ensures
        r == spec_sort_order_of(s@),
{
    if str_matches_lower(s, "asc") || str_matches_lower(s, "1") {
        Option::Some(SortOrder::Asc)
    } else if str_matches_lower(s, "desc") || str_matches_lower(s, "-1") {
        Option::Some(SortOrder::Desc)
    } else {
        Option::None
    }
}

/// Recognizes an `attrib` value.
pub fn attribute_of(s: &str) -> (r: Option<SortAttribute>)
    ensures
        r == spec_attribute_of(s@),
{
    if str_eq(s, "title") {
        Option::Some(SortAttribute::Title)
    } else if str_eq(s, "createdAt") {
        Option::Some(SortAttribute::CreatedAt)
    } else if str_eq(s, "deadline") {
        Option::Some(SortAttribute::Deadline)
    } else {
        Option::None
    }
}

/// Validates the raw parameters of a list request and normalizes them into a
/// `QueryIntent`, or rejects them with the first violated rule's error. Pure:
/// the outcome is a function of the parameters alone.
pub fn validate(raw: &RawListParameters) -> (r: Result<QueryIntent, ValidationError>)
    ensures
        validate_result_view(r) == spec_validate(raw@),
        r matches Ok(q) ==> q.wf(),
{
    let sort_order: SortOrder = match &raw.sort {
        Option::Some(s) => match sort_order_of(s.as_str()) {
            Option::Some(o) => o,
            Option::None => {
                return Result::Err(ValidationError::InvalidSortOrder);
            },
        },
        Option::None => SortOrder::Desc,
    };
    let has_temporal = raw.before.is_some() || raw.after.is_some() || raw.start.is_some()
        || raw.end.is_some();
    match &raw.attribute {
        Option::None => {
            if has_temporal {
                Result::Err(ValidationError::MissingAttributeForTemporalFilter)
            } else {
                Result::Ok(
                    QueryIntent {
                        sort_attribute: SortAttribute::CreatedAt,
                        sort_order,
                        temporal_filter: TemporalFilter::NoFilter,
                    },
                )
            }
        },
        Option::Some(name) => {
            let attr = match attribute_of(name.as_str()) {
                Option::Some(a) => a,
                Option::None => {
                    return Result::Err(ValidationError::UnknownAttribute(name.clone()));
                },
            };
            if let SortAttribute::Title = attr {
                if has_temporal {
                    return Result::Err(ValidationError::IncompatibleFilterWithTitle);
                }
                return Result::Ok(
                    QueryIntent {
                        sort_attribute: SortAttribute::Title,
                        sort_order,
                        temporal_filter: TemporalFilter::NoFilter,
                    },
                );
            }
            if raw.before.is_some() && raw.after.is_some() {
                return Result::Err(ValidationError::ConflictingBeforeAfter);
            }
            if (raw.before.is_some() || raw.after.is_some()) && (raw.start.is_some()
                || raw.end.is_some()) {
                return Result::Err(ValidationError::ConflictingRangeAndBound);
            }
            if let Option::Some(t) = raw.before {
                return Result::Ok(
                    QueryIntent {
                        sort_attribute: attr,
                        sort_order,
                        temporal_filter: TemporalFilter::Before(t),
                    },
                );
            }
            if let Option::Some(t) = raw.after {
                return Result::Ok(
                    QueryIntent {
                        sort_attribute: attr,
                        sort_order,
                        temporal_filter: TemporalFilter::After(t),
                    },
                );
            }
            match (raw.start, raw.end) {
                (Option::Some(s), Option::Some(e)) => {
                    if s > e {
                        Result::Err(ValidationError::InvertedRange)
                    } else {
                        Result::Ok(
                            QueryIntent {
                                sort_attribute: attr,
                                sort_order,
                                temporal_filter: TemporalFilter::Between(s, e),
                            },
                        )
                    }
                },
                (Option::Some(_), Option::None) => Result::Err(ValidationError::MissingEnd),
                (Option::None, Option::Some(_)) => Result::Err(ValidationError::MissingStart),
                (Option::None, Option::None) => Result::Ok(
                    QueryIntent {
                        sort_attribute: attr,
                        sort_order,
                        temporal_filter: TemporalFilter::NoFilter,
                    },
                ),
            }
        },
    }
}

/// Law: every request that validates while lacking `attrib`, `before`, and
/// `after` is sorted by creation time.
pub proof fn lemma_default_sort_attribute(p: RawParamsView)
    requires
        p.attribute is None,
        p.before is None,
        p.after is None,
        spec_validate(p) is Ok,
    ensures
        spec_validate(p)->Ok_0.sort_attribute == SortAttribute::CreatedAt,
{
}

/// Law: sorting by `title` together with any temporal bound is rejected as
/// `IncompatibleFilterWithTitle`, whenever the sort value itself is in
/// order.
pub proof fn lemma_title_excludes_temporal(p: RawParamsView)
    requires
        spec_sort_choice(p.sort) is Some,
        p.attribute matches Some(name) && spec_attribute_of(name) == Some(SortAttribute::Title),
        spec_has_temporal(p),
    ensures
        spec_validate(p) == Result::<QueryIntent, ValidationErrorView>::Err(
            ValidationErrorView::IncompatibleFilterWithTitle,
        ),
{
}

/// Law: for an attribute with temporal semantics, `before` and `after`
/// together are rejected as `ConflictingBeforeAfter`, whatever else is
/// present, whenever the sort value itself is in order.
pub proof fn lemma_before_after_conflict(p: RawParamsView)
    requires
        spec_sort_choice(p.sort) is Some,
        p.attribute matches Some(name) && (spec_attribute_of(name) == Some(SortAttribute::CreatedAt)
            || spec_attribute_of(name) == Some(SortAttribute::Deadline)),
        p.before is Some,
        p.after is Some,
    ensures
        spec_validate(p) == Result::<QueryIntent, ValidationErrorView>::Err(
            ValidationErrorView::ConflictingBeforeAfter,
        ),
{
}

/// Law: a strict inversion of `start` and `end` is rejected as
/// `InvertedRange`; an ordered pair, equal ends included, validates to a
/// `Between` filter of exactly those bounds.
pub proof fn lemma_range_order(p: RawParamsView, s: i64, e: i64)
    requires
        spec_sort_choice(p.sort) is Some,
        p.attribute matches Some(name) && (spec_attribute_of(name) == Some(SortAttribute::CreatedAt)
            || spec_attribute_of(name) == Some(SortAttribute::Deadline)),
        p.before is None,
        p.after is None,
        p.start == Some(s),
        p.end == Some(e),
    ensures
        s > e ==> spec_validate(p) == Result::<QueryIntent, ValidationErrorView>::Err(
            ValidationErrorView::InvertedRange,
        ),
        s <= e ==> spec_validate(p) is Ok && spec_validate(p)->Ok_0.temporal_filter
            == TemporalFilter::Between(s, e),
        s == e ==> spec_validate(p) is Ok && spec_validate(p)->Ok_0.temporal_filter
            == TemporalFilter::Between(s, s),
{
}

/// Law: whatever validates is well-formed: no temporal filter rides on
/// `title`, and no `Between` is inverted.
pub proof fn lemma_validate_wf(p: RawParamsView)
    requires
        spec_validate(p) is Ok,
    ensures
        spec_validate(p)->Ok_0.wf(),
{
}

} // verus!
