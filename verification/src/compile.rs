use vstd::prelude::*;

use crate::query::SortOrder;
use crate::validate::{
    spec_validate, QueryIntent, RawParamsView, SortAttribute, TemporalFilter,
};

verus! {

/// The storage columns a compiled query can speak of; the closed image of
/// the sort attributes under the column mapping. `as_str` gives the
/// identifier a relational store knows them by.
#[derive(Clone, Copy, Debug, PartialEq, Eq, Structural)]
pub enum ColumnId {
    Title,
    CreatedAt,
    Deadline,
}

impl ColumnId {
    /// The storage identifier of the column.
    pub fn as_str(&self) -> (r: &'static str)
        ensures
            *self == ColumnId::Title ==> r@ == "title"@,
            *self == ColumnId::CreatedAt ==> r@ == "created_at"@,
            *self == ColumnId::Deadline ==> r@ == "deadline"@,
    {
        match self {
            ColumnId::Title => "title",
            ColumnId::CreatedAt => "created_at",
            ColumnId::Deadline => "deadline",
        }
    }
}

/// The filter a storage adapter is asked to apply: nothing, a one-sided
/// bound on a column, or a closed range.
#[derive(Clone, Copy, Debug, PartialEq, Eq, Structural)]
pub enum Predicate {
    AlwaysTrue,
    ColumnLte(ColumnId, i64),
    ColumnGte(ColumnId, i64),
    ColumnBetween(ColumnId, i64, i64),
}

/// A backend-neutral filter/sort specification, ready for a storage adapter
/// to execute. Adapters render it in their own terms but must agree on its
/// logical result set.
#[derive(Clone, Copy, Debug, PartialEq, Eq, Structural)]
pub struct CompiledQuery {
    pub sort_column: ColumnId,
    pub sort_direction: SortOrder,
    pub predicate: Predicate,
}

/// The column mapping: a pure, total function on the closed attribute set.
pub open spec fn spec_column_of(attr: SortAttribute) -> ColumnId {
    match attr {
        SortAttribute::Title => ColumnId::Title,
        SortAttribute::CreatedAt => ColumnId::CreatedAt,
        SortAttribute::Deadline => ColumnId::Deadline,
    }
}

/// Maps a sort attribute to its storage column.
pub fn column_of(attr: SortAttribute) -> (r: ColumnId)
    ensures
        r == spec_column_of(attr),
{
    match attr {
        SortAttribute::Title => ColumnId::Title,
        SortAttribute::CreatedAt => ColumnId::CreatedAt,
        SortAttribute::Deadline => ColumnId::Deadline,
    }
}

/// The compiler as a mathematical function: the sort column and direction
/// copy over from the intent, and each temporal filter shape maps to its one
/// predicate shape on the mapped column.
pub open spec fn spec_compile(q: QueryIntent) -> CompiledQuery {
    CompiledQuery {
        sort_column: spec_column_of(q.sort_attribute),
        sort_direction: q.sort_order,
        predicate: match q.temporal_filter {
            TemporalFilter::NoFilter => Predicate::AlwaysTrue,
            TemporalFilter::Before(t) => Predicate::ColumnLte(spec_column_of(q.sort_attribute), t),
            TemporalFilter::After(t) => Predicate::ColumnGte(spec_column_of(q.sort_attribute), t),
            TemporalFilter::Between(s, e) => Predicate::ColumnBetween(
                spec_column_of(q.sort_attribute),
                s,
                e,
            ),
        },
    }
}

/// Compiles a validated query intent into the filter/sort specification a
/// storage adapter executes. Total: every intent compiles; pure: the result
/// is a function of the intent alone.
pub fn compile(intent: &QueryIntent) -> (r: CompiledQuery)
    ensures
        r == spec_compile(*intent),
{
    let col = column_of(intent.sort_attribute);
    let predicate = match intent.temporal_filter {
        TemporalFilter::NoFilter => Predicate::AlwaysTrue,
        TemporalFilter::Before(t) => Predicate::ColumnLte(col, t),
        TemporalFilter::After(t) => Predicate::ColumnGte(col, t),
        TemporalFilter::Between(s, e) => Predicate::ColumnBetween(col, s, e),
    };
    CompiledQuery { sort_column: col, sort_direction: intent.sort_order, predicate }
}

/// Law: the compiler is deterministic; equal intents compile to equal
/// queries.
pub proof fn lemma_compile_deterministic(a: QueryIntent, b: QueryIntent)
    requires
        a == b,
    ensures
        spec_compile(a) == spec_compile(b),
{
}

/// Law: the compiled predicate is consistent with the intent's temporal
/// branch: no filter compiles to `AlwaysTrue`, `Before` to `ColumnLte`,
/// `After` to `ColumnGte`, and `Between` to `ColumnBetween`, each on the
/// intent's own bounds and mapped column.
pub proof fn lemma_compile_consistent(q: QueryIntent)
    ensures
        q.temporal_filter is NoFilter <==> spec_compile(q).predicate is AlwaysTrue,
        q.temporal_filter matches TemporalFilter::Before(t) ==> spec_compile(q).predicate
            == Predicate::ColumnLte(spec_column_of(q.sort_attribute), t),
        q.temporal_filter matches TemporalFilter::After(t) ==> spec_compile(q).predicate
            == Predicate::ColumnGte(spec_column_of(q.sort_attribute), t),
        q.temporal_filter matches TemporalFilter::Between(s, e) ==> spec_compile(q).predicate
            == Predicate::ColumnBetween(spec_column_of(q.sort_attribute), s, e),
{
}

/// Law: for any raw parameters that validate, compiling the validated intent
/// yields a predicate consistent with the intent's temporal branch.
pub proof fn lemma_validate_compile_round_trip(p: RawParamsView)
    requires
        spec_validate(p) is Ok,
    ensures
        spec_validate(p)->Ok_0.temporal_filter is NoFilter <==> spec_compile(
            spec_validate(p)->Ok_0,
        ).predicate is AlwaysTrue,
        spec_validate(p)->Ok_0.temporal_filter matches TemporalFilter::Before(t) ==> spec_compile(
            spec_validate(p)->Ok_0,
        ).predicate is ColumnLte,
        spec_validate(p)->Ok_0.temporal_filter matches TemporalFilter::After(t) ==> spec_compile(
            spec_validate(p)->Ok_0,
        ).predicate is ColumnGte,
        spec_validate(p)->Ok_0.temporal_filter matches TemporalFilter::Between(s, e)
            ==> spec_compile(spec_validate(p)->Ok_0).predicate is ColumnBetween,
    {
    lemma_compile_consistent(spec_validate(p)->Ok_0);
}

} // verus!
