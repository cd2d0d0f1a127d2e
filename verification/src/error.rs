use vstd::prelude::*;

verus! {

/// The operator kinds that a wire plan node can select. Errors carry one of
/// these so that a malformed message can be traced to the node that caused it.
#[derive(Clone, Copy, PartialEq, Eq, Structural, Debug)]
pub enum NodeKind {
    Projection,
    Filter,
    CsvScan,
    ParquetScan,
    Selection,
    CoalesceBatches,
    GlobalLimit,
    LocalLimit,
    HashAggregate,
    HashJoin,
    ShuffleReader,
    Empty,
    Sort,
}

/// The required wire fields whose absence is reported by
/// [`TranslateError::MissingField`].
#[derive(Clone, Copy, PartialEq, Eq, Structural, Debug)]
pub enum WireField {
    Input,
    Left,
    Right,
    Schema,
    Predicate,
    SortOperand,
    AggregateOperand,
    PartitionId,
    ExecutorMeta,
}

/// Which child of a hash join a bad equality key referred to.
#[derive(Clone, Copy, PartialEq, Eq, Structural, Debug)]
pub enum JoinSide {
    Left,
    Right,
}

/// Everything that can go wrong while rebuilding an operator tree from a wire
/// message. Translation never panics: every failure path returns one of these.
#[derive(Clone, PartialEq, Eq, Debug)]
pub enum TranslateError {
    /// A plan node carried no active variant tag.
    MissingPlanVariant,
    /// An expression node carried no active variant tag.
    MissingExprVariant,
    /// An active variant was missing a child node, schema or other field
    /// mandatory for that variant.
    MissingField(NodeKind, WireField),
    /// A hash-aggregate mode code matched no known value.
    UnknownAggregateMode(i32),
    /// A join-type code matched no known value.
    UnknownJoinType(i32),
    /// A structurally valid message selected an operator kind that this
    /// translator does not implement.
    UnsupportedPlan(NodeKind),
    /// A structurally valid message selected an expression kind that the
    /// binder does not implement.
    UnsupportedExpr,
    /// An expression stood in an aggregate position but was not an
    /// aggregate call.
    NotAnAggregateExpr,
    /// An expression stood in a sort position but was not a sort descriptor.
    NotASortExpr,
    /// A column reference named a column absent from the input schema.
    ColumnNotFound(String),
    /// A CSV scan's delimiter was not a single one-byte character.
    BadDelimiter,
    /// A scan's column projection index lay outside its schema.
    BadProjectionIndex(NodeKind, u32),
    /// A join equality key named a column absent from that side's schema.
    JoinKeyNotFound(JoinSide, String),
}

/// Mathematical image of [`TranslateError`]: strings are replaced by their
/// character sequences.
pub ghost enum SpecError {
    MissingPlanVariant,
    MissingExprVariant,
    MissingField(NodeKind, WireField),
    UnknownAggregateMode(i32),
    UnknownJoinType(i32),
    UnsupportedPlan(NodeKind),
    UnsupportedExpr,
    NotAnAggregateExpr,
    NotASortExpr,
    ColumnNotFound(Seq<char>),
    BadDelimiter,
    BadProjectionIndex(NodeKind, u32),
    JoinKeyNotFound(JoinSide, Seq<char>),
}

impl View for TranslateError {
    type V = SpecError;

    open spec fn view(&self) -> SpecError {
        match self {
            TranslateError::MissingPlanVariant => SpecError::MissingPlanVariant,
            TranslateError::MissingExprVariant => SpecError::MissingExprVariant,
            TranslateError::MissingField(k, f) => SpecError::MissingField(*k, *f),
            TranslateError::UnknownAggregateMode(c) => SpecError::UnknownAggregateMode(*c),
            TranslateError::UnknownJoinType(c) => SpecError::UnknownJoinType(*c),
            TranslateError::UnsupportedPlan(k) => SpecError::UnsupportedPlan(*k),
            TranslateError::UnsupportedExpr => SpecError::UnsupportedExpr,
            TranslateError::NotAnAggregateExpr => SpecError::NotAnAggregateExpr,
            TranslateError::NotASortExpr => SpecError::NotASortExpr,
            TranslateError::ColumnNotFound(name) => SpecError::ColumnNotFound(name@),
            TranslateError::BadDelimiter => SpecError::BadDelimiter,
            TranslateError::BadProjectionIndex(k, i) => SpecError::BadProjectionIndex(*k, *i),
            TranslateError::JoinKeyNotFound(s, name) => SpecError::JoinKeyNotFound(*s, name@),
        }
    }
}

/// View of a whole `Result`: the value's or the error's mathematical image.
pub open spec fn res_view<T: View, E: View>(r: Result<T, E>) -> Result<T::V, E::V> {
    match r {
        Ok(t) => Ok(t@),
        Err(e) => Err(e@),
    }
}

} // verus!
