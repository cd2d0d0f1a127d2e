use vstd::prelude::*;
use crate::error::{res_view, NodeKind, SpecError, TranslateError, WireField};
use crate::schema::{lemma_spec_index_of, spec_index_of, DataType, Field, Schema, SpecField};
use crate::wire::{
    clone_scalar, AggregateFunction, ExprType, LogicalExprNode, ScalarValue, SpecScalar,
};

verus! {

/// An executable expression: bound against a concrete schema, it owns no
/// state beyond captured constants and column indices.
#[derive(PartialEq, Eq, Debug)]
pub enum BoundExpr {
    /// A column reference resolved to its index in the input schema.
    Column { name: String, index: usize },
    /// A constant.
    Literal(ScalarValue),
}

/// Mathematical image of a [`BoundExpr`].
pub ghost enum SpecExpr {
    Column { name: Seq<char>, index: int },
    Literal(SpecScalar),
}

impl View for BoundExpr {
    type V = SpecExpr;

    open spec fn view(&self) -> SpecExpr {
        match self {
            BoundExpr::Column { name, index } => SpecExpr::Column {
                name: name@,
                index: *index as int,
            },
            BoundExpr::Literal(v) => SpecExpr::Literal(v@),
        }
    }
}

/// A compiled aggregate: a function over one bound operand.
#[derive(PartialEq, Eq, Debug)]
pub struct BoundAggregateExpr {
    pub func: AggregateFunction,
    pub arg: BoundExpr,
}

/// Mathematical image of a [`BoundAggregateExpr`].
pub ghost struct SpecAggExpr {
    pub func: AggregateFunction,
    pub arg: SpecExpr,
}

impl View for BoundAggregateExpr {
    type V = SpecAggExpr;

    open spec fn view(&self) -> SpecAggExpr {
        SpecAggExpr { func: self.func, arg: self.arg@ }
    }
}

/// A compiled sort key: a bound operand plus the internal ordering flags.
#[derive(PartialEq, Eq, Debug)]
pub struct BoundSortExpr {
    pub expr: BoundExpr,
    pub descending: bool,
    pub nulls_first: bool,
}

/// Mathematical image of a [`BoundSortExpr`].
pub ghost struct SpecSortExpr {
    pub expr: SpecExpr,
    pub descending: bool,
    pub nulls_first: bool,
}

impl View for BoundSortExpr {
    type V = SpecSortExpr;

    open spec fn view(&self) -> SpecSortExpr {
        SpecSortExpr {
            expr: self.expr@,
            descending: self.descending,
            nulls_first: self.nulls_first,
        }
    }
}

/// A bound expression is well formed for a schema when its column index is
/// in range and carries the name of the column it points at.
pub open spec fn wf_expr(e: SpecExpr, schema: Seq<SpecField>) -> bool {
    match e {
        SpecExpr::Column { name, index } => 0 <= index < schema.len() && schema[index].name
            == name,
        SpecExpr::Literal(_) => true,
    }
}

/// The column type a bound expression evaluates to.
pub open spec fn spec_expr_type(e: SpecExpr, schema: Seq<SpecField>) -> DataType {
    match e {
        SpecExpr::Column { index, .. } => schema[index].data_type,
        SpecExpr::Literal(v) => match v {
            SpecScalar::Boolean(_) => DataType::Boolean,
            SpecScalar::Int64(_) => DataType::Int64,
            SpecScalar::Utf8(_) => DataType::Utf8,
        },
    }
}

/// Whether a bound expression can evaluate to null.
pub open spec fn spec_expr_nullable(e: SpecExpr, schema: Seq<SpecField>) -> bool {
    match e {
        SpecExpr::Column { index, .. } => schema[index].nullable,
        SpecExpr::Literal(_) => false,
    }
}

/// The output column name an expression contributes: a column reference
/// keeps the referenced name; any other expression gets a fixed placeholder.
pub open spec fn spec_output_name(e: SpecExpr) -> Seq<char> {
    match e {
        SpecExpr::Column { name, .. } => name,
        SpecExpr::Literal(_) => "literal"@,
    }
}

/// The output column name an aggregate contributes, fixed per function.
pub open spec fn spec_agg_name(f: AggregateFunction) -> Seq<char> {
    match f {
        AggregateFunction::Count => "count"@,
        AggregateFunction::Sum => "sum"@,
        AggregateFunction::Min => "min"@,
        AggregateFunction::Max => "max"@,
    }
}

/// The column type an aggregate evaluates to: a count is a 64-bit integer;
/// sum, min and max keep their operand's type.
pub open spec fn spec_agg_type(a: SpecAggExpr, schema: Seq<SpecField>) -> DataType {
    match a.func {
        AggregateFunction::Count => DataType::Int64,
        _ => spec_expr_type(a.arg, schema),
    }
}

/// The output column of one bound expression: its contributed name, its
/// type, and its nullability, all read against the input schema.
pub open spec fn spec_expr_field(e: SpecExpr, schema: Seq<SpecField>) -> SpecField {
    SpecField {
        name: spec_output_name(e),
        data_type: spec_expr_type(e, schema),
        nullable: spec_expr_nullable(e, schema),
    }
}

/// The output column of one aggregate: aggregates can always yield null on
/// empty input, so the column is nullable.
pub open spec fn spec_agg_field(a: SpecAggExpr, schema: Seq<SpecField>) -> SpecField {
    SpecField { name: spec_agg_name(a.func), data_type: spec_agg_type(a, schema), nullable: true }
}

/// Build the output column of one bound expression.
pub fn expr_field(e: &BoundExpr, schema: &Schema) -> (r: Field)
    requires
        wf_expr(e@, schema@),
    ensures
        r@ == spec_expr_field(e@, schema@),
{
    match e {
        BoundExpr::Column { name, index } => {
            let f = &schema.fields[*index];
            Field { name: name.clone(), data_type: f.data_type, nullable: f.nullable }
        },
        BoundExpr::Literal(v) => {
            let data_type = match v {
                ScalarValue::Boolean(_) => DataType::Boolean,
                ScalarValue::Int64(_) => DataType::Int64,
                ScalarValue::Utf8(_) => DataType::Utf8,
            };
            Field { name: "literal".to_owned(), data_type, nullable: false }
        },
    }
}

/// Build the output column of one bound aggregate.
pub fn agg_field(a: &BoundAggregateExpr, schema: &Schema) -> (r: Field)
    requires
        wf_expr(a@.arg, schema@),
    ensures
        r@ == spec_agg_field(a@, schema@),
{
    let name = match a.func {
        AggregateFunction::Count => "count".to_owned(),
        AggregateFunction::Sum => "sum".to_owned(),
        AggregateFunction::Min => "min".to_owned(),
        AggregateFunction::Max => "max".to_owned(),
    };
    let data_type = match a.func {
        AggregateFunction::Count => DataType::Int64,
        _ => match &a.arg {
            BoundExpr::Column { index, .. } => schema.fields[*index].data_type,
            BoundExpr::Literal(v) => match v {
                ScalarValue::Boolean(_) => DataType::Boolean,
                ScalarValue::Int64(_) => DataType::Int64,
                ScalarValue::Utf8(_) => DataType::Utf8,
            },
        },
    };
    Field { name, data_type, nullable: true }
}

/// What binding one wire expression against a schema yields: a column
/// reference resolves by name (first match), a literal passes through, an
/// absent tag or any other variant is the stated error.
pub open spec fn spec_bind(e: LogicalExprNode, schema: Seq<SpecField>) -> Result<
    SpecExpr,
    SpecError,
> {
    match e.expr_type {
        None => Err(SpecError::MissingExprVariant),
        Some(ExprType::ColumnName(name)) => match spec_index_of(schema, name@) {
            Some(i) => Ok(SpecExpr::Column { name: name@, index: i }),
            None => Err(SpecError::ColumnNotFound(name@)),
        },
        Some(ExprType::Literal(v)) => Ok(SpecExpr::Literal(v@)),
        Some(_) => Err(SpecError::UnsupportedExpr),
    }
}

/// A successfully bound expression is well formed for the schema it was
/// bound against.
pub proof fn lemma_bind_wf(e: LogicalExprNode, schema: Seq<SpecField>)
    ensures
        spec_bind(e, schema) matches Ok(b) ==> wf_expr(b, schema),
{
    match e.expr_type {
        Some(ExprType::ColumnName(name)) => {
            lemma_spec_index_of(schema, name@);
        },
        _ => {},
    }
}

/// Copy of a bound expression; verified rather than derived so that the
/// copy is known to equal the original.
pub fn clone_bound(e: &BoundExpr) -> (r: BoundExpr)
    ensures
        r == *e,
{
    match e {
        BoundExpr::Column { name, index } => BoundExpr::Column { name: name.clone(), index: *index },
        BoundExpr::Literal(v) => BoundExpr::Literal(clone_scalar(v)),
    }
}

/// The output column name one bound expression contributes.
pub fn output_name(e: &BoundExpr) -> (r: String)
    ensures
        r@ == spec_output_name(e@),
{
    match e {
        BoundExpr::Column { name, .. } => name.clone(),
        BoundExpr::Literal(_) => "literal".to_owned(),
    }
}

/// Bind one wire expression against the schema of the operator it will run
/// against. Pure: a function of the node and schema alone.
pub fn bind_expr(e: &LogicalExprNode, schema: &Schema) -> (r: Result<BoundExpr, TranslateError>)
    ensures
        res_view(r) == spec_bind(*e, schema@),
{
    match &e.expr_type {
        None => Err(TranslateError::MissingExprVariant),
        Some(ExprType::ColumnName(name)) => match schema.index_of(name) {
            Some(i) => Ok(BoundExpr::Column { name: name.clone(), index: i }),
            None => Err(TranslateError::ColumnNotFound(name.clone())),
        },
        Some(ExprType::Literal(v)) => Ok(BoundExpr::Literal(clone_scalar(v))),
        Some(ExprType::AggregateExpr(_)) => Err(TranslateError::UnsupportedExpr),
        Some(ExprType::Sort(_)) => Err(TranslateError::UnsupportedExpr),
        Some(ExprType::Alias(_)) => Err(TranslateError::UnsupportedExpr),
    }
}

/// What binding an aggregate-position expression yields: only an aggregate
/// call is accepted there, and its operand is bound like any expression.
pub open spec fn spec_bind_aggregate(e: LogicalExprNode, schema: Seq<SpecField>) -> Result<
    SpecAggExpr,
    SpecError,
> {
    match e.expr_type {
        None => Err(SpecError::MissingExprVariant),
        Some(ExprType::AggregateExpr(agg)) => match agg.expr {
            None => Err(
                SpecError::MissingField(NodeKind::HashAggregate, WireField::AggregateOperand),
            ),
            Some(inner) => match spec_bind(*inner, schema) {
                Err(err) => Err(err),
                Ok(a) => Ok(SpecAggExpr { func: agg.aggr_function, arg: a }),
            },
        },
        Some(_) => Err(SpecError::NotAnAggregateExpr),
    }
}

/// Bind one aggregate-position wire expression.
pub fn bind_aggregate(e: &LogicalExprNode, schema: &Schema) -> (r: Result<
    BoundAggregateExpr,
    TranslateError,
>)
    ensures
        res_view(r) == spec_bind_aggregate(*e, schema@),
{
    match &e.expr_type {
        None => Err(TranslateError::MissingExprVariant),
        Some(ExprType::AggregateExpr(agg)) => match &agg.expr {
            None => Err(
                TranslateError::MissingField(NodeKind::HashAggregate, WireField::AggregateOperand),
            ),
            Some(inner) => match bind_expr(inner, schema) {
                Err(err) => Err(err),
                Ok(a) => Ok(BoundAggregateExpr { func: agg.aggr_function, arg: a }),
            },
        },
        Some(_) => Err(TranslateError::NotAnAggregateExpr),
    }
}

/// What binding a sort-position expression yields: only a sort descriptor is
/// accepted there. The wire carries "ascending"; the executable operator
/// wants "descending", so the flag is inverted; nulls ordering passes
/// through unchanged.
pub open spec fn spec_bind_sort(e: LogicalExprNode, schema: Seq<SpecField>) -> Result<
    SpecSortExpr,
    SpecError,
> {
    match e.expr_type {
        None => Err(SpecError::MissingExprVariant),
        Some(ExprType::Sort(s)) => match s.expr {
            None => Err(SpecError::MissingField(NodeKind::Sort, WireField::SortOperand)),
            Some(inner) => match spec_bind(*inner, schema) {
                Err(err) => Err(err),
                Ok(b) => Ok(SpecSortExpr { expr: b, descending: !s.asc, nulls_first: s.nulls_first }),
            },
        },
        Some(_) => Err(SpecError::NotASortExpr),
    }
}

/// Bind one sort-position wire expression.
pub fn bind_sort(e: &LogicalExprNode, schema: &Schema) -> (r: Result<BoundSortExpr, TranslateError>)
    ensures
        res_view(r) == spec_bind_sort(*e, schema@),
{
    match &e.expr_type {
        None => Err(TranslateError::MissingExprVariant),
        Some(ExprType::Sort(s)) => match &s.expr {
            None => Err(TranslateError::MissingField(NodeKind::Sort, WireField::SortOperand)),
            Some(inner) => match bind_expr(inner, schema) {
                Err(err) => Err(err),
                Ok(b) => Ok(
                    BoundSortExpr { expr: b, descending: !s.asc, nulls_first: s.nulls_first },
                ),
            },
        },
        Some(_) => Err(TranslateError::NotASortExpr),
    }
}

/// Image of a bound-expression list.
pub open spec fn bound_seq_view(v: Seq<BoundExpr>) -> Seq<SpecExpr> {
    v.map_values(|b: BoundExpr| b@)
}

/// What binding a whole expression list yields: every expression bound in
/// order, or the first error.
pub open spec fn spec_bind_all(es: Seq<LogicalExprNode>, schema: Seq<SpecField>) -> Result<
    Seq<SpecExpr>,
    SpecError,
>
    decreases es.len(),
{
    if es.len() == 0 {
        Ok(Seq::empty())
    } else {
        match spec_bind(es[0], schema) {
            Err(e) => Err(e),
            Ok(b) => match spec_bind_all(es.drop_first(), schema) {
                Err(e) => Err(e),
                Ok(rest) => Ok(seq![b] + rest),
            },
        }
    }
}

/// When every expression binds, the list result is the elementwise one.
pub proof fn lemma_bind_all_ok(es: Seq<LogicalExprNode>, schema: Seq<SpecField>)
    requires
        forall|k: int| 0 <= k < es.len() ==> spec_bind(#[trigger] es[k], schema) is Ok,
    ensures
        spec_bind_all(es, schema) == Ok::<Seq<SpecExpr>, SpecError>(
            Seq::new(es.len(), |i: int| spec_bind(es[i], schema)->Ok_0),
        ),
    decreases es.len(),
{
    let result = Seq::new(es.len(), |i: int| spec_bind(es[i], schema)->Ok_0);
    if es.len() == 0 {
        assert(result =~= Seq::empty());
    } else {
        let tail = es.drop_first();
        assert forall|k: int| 0 <= k < tail.len() implies spec_bind(
            #[trigger] tail[k],
            schema,
        ) is Ok by {
            assert(tail[k] == es[k + 1]);
        }
        lemma_bind_all_ok(tail, schema);
        assert(seq![spec_bind(es[0], schema)->Ok_0] + Seq::new(
            tail.len(),
            |i: int| spec_bind(tail[i], schema)->Ok_0,
        ) =~= result);
    }
}

/// The first expression that fails to bind decides the list's error.
pub proof fn lemma_bind_all_err(es: Seq<LogicalExprNode>, schema: Seq<SpecField>, k: int)
    requires
        0 <= k < es.len(),
        forall|j: int| 0 <= j < k ==> spec_bind(#[trigger] es[j], schema) is Ok,
        spec_bind(es[k], schema) is Err,
    ensures
        spec_bind_all(es, schema) == Err::<Seq<SpecExpr>, SpecError>(
            spec_bind(es[k], schema)->Err_0,
        ),
    decreases es.len(),
{
    if k > 0 {
        let tail = es.drop_first();
        assert(tail[k - 1] == es[k]);
        assert forall|j: int| 0 <= j < k - 1 implies spec_bind(#[trigger] tail[j], schema) is Ok by {
            assert(tail[j] == es[j + 1]);
        }
        lemma_bind_all_err(tail, schema, k - 1);
    }
}

/// Every expression of a successfully bound list is well formed.
pub proof fn lemma_bind_all_wf(es: Seq<LogicalExprNode>, schema: Seq<SpecField>)
    ensures
        spec_bind_all(es, schema) matches Ok(bs) ==> bs.len() == es.len() && forall|i: int|
            0 <= i < bs.len() ==> wf_expr(#[trigger] bs[i], schema),
    decreases es.len(),
{
    if es.len() > 0 {
        lemma_bind_wf(es[0], schema);
        lemma_bind_all_wf(es.drop_first(), schema);
    }
}

/// Bind a whole expression list against one schema, in order, stopping at
/// the first failure.
pub fn bind_all(es: &Vec<LogicalExprNode>, schema: &Schema) -> (r: Result<
    Vec<BoundExpr>,
    TranslateError,
>)
    ensures
        match r {
            Ok(v) => spec_bind_all(es@, schema@) == Ok::<Seq<SpecExpr>, SpecError>(
                bound_seq_view(v@),
            ),
            Err(e) => spec_bind_all(es@, schema@) == Err::<Seq<SpecExpr>, SpecError>(e@),
        },
{
    let n = es.len();
    let mut out: Vec<BoundExpr> = Vec::new();
    let mut i: usize = 0;
    while i < n
        invariant
            0 <= i <= n,
            n == es@.len(),
            out@.len() == i,
            forall|j: int|
                0 <= j < i ==> spec_bind(#[trigger] es@[j], schema@) == Ok::<SpecExpr, SpecError>(
                    out@[j]@,
                ),
        decreases n - i,
    {
        match bind_expr(&es[i], schema) {
            Err(e) => {
                proof {
                    lemma_bind_all_err(es@, schema@, i as int);
                }
                return Err(e);
            },
            Ok(b) => {
                out.push(b);
                i = i + 1;
            },
        }
    }
    proof {
        lemma_bind_all_ok(es@, schema@);
        assert(Seq::new(es@.len(), |j: int| spec_bind(es@[j], schema@)->Ok_0) =~= bound_seq_view(
            out@,
        ));
    }
    Ok(out)
}

/// What binding a whole aggregate list yields.
pub open spec fn spec_bind_agg_all(es: Seq<LogicalExprNode>, schema: Seq<SpecField>) -> Result<
    Seq<SpecAggExpr>,
    SpecError,
>
    decreases es.len(),
{
    if es.len() == 0 {
        Ok(Seq::empty())
    } else {
        match spec_bind_aggregate(es[0], schema) {
            Err(e) => Err(e),
            Ok(b) => match spec_bind_agg_all(es.drop_first(), schema) {
                Err(e) => Err(e),
                Ok(rest) => Ok(seq![b] + rest),
            },
        }
    }
}

/// When every aggregate binds, the list result is the elementwise one.
pub proof fn lemma_bind_agg_all_ok(es: Seq<LogicalExprNode>, schema: Seq<SpecField>)
    requires
        forall|k: int| 0 <= k < es.len() ==> spec_bind_aggregate(#[trigger] es[k], schema) is Ok,
    ensures
        spec_bind_agg_all(es, schema) == Ok::<Seq<SpecAggExpr>, SpecError>(
            Seq::new(es.len(), |i: int| spec_bind_aggregate(es[i], schema)->Ok_0),
        ),
    decreases es.len(),
{
    let result = Seq::new(es.len(), |i: int| spec_bind_aggregate(es[i], schema)->Ok_0);
    if es.len() == 0 {
        assert(result =~= Seq::empty());
    } else {
        let tail = es.drop_first();
        assert forall|k: int| 0 <= k < tail.len() implies spec_bind_aggregate(
            #[trigger] tail[k],
            schema,
        ) is Ok by {
            assert(tail[k] == es[k + 1]);
        }
        lemma_bind_agg_all_ok(tail, schema);
        assert(seq![spec_bind_aggregate(es[0], schema)->Ok_0] + Seq::new(
            tail.len(),
            |i: int| spec_bind_aggregate(tail[i], schema)->Ok_0,
        ) =~= result);
    }
}

/// The first aggregate that fails to bind decides the list's error.
pub proof fn lemma_bind_agg_all_err(es: Seq<LogicalExprNode>, schema: Seq<SpecField>, k: int)
    requires
        0 <= k < es.len(),
        forall|j: int| 0 <= j < k ==> spec_bind_aggregate(#[trigger] es[j], schema) is Ok,
        spec_bind_aggregate(es[k], schema) is Err,
    ensures
        spec_bind_agg_all(es, schema) == Err::<Seq<SpecAggExpr>, SpecError>(
            spec_bind_aggregate(es[k], schema)->Err_0,
        ),
    decreases es.len(),
{
    if k > 0 {
        let tail = es.drop_first();
        assert(tail[k - 1] == es[k]);
        assert forall|j: int| 0 <= j < k - 1 implies spec_bind_aggregate(
            #[trigger] tail[j],
            schema,
        ) is Ok by {
            assert(tail[j] == es[j + 1]);
        }
        lemma_bind_agg_all_err(tail, schema, k - 1);
    }
}

/// Every operand of a successfully bound aggregate list is well formed.
pub proof fn lemma_bind_agg_all_wf(es: Seq<LogicalExprNode>, schema: Seq<SpecField>)
    ensures
        spec_bind_agg_all(es, schema) matches Ok(bs) ==> bs.len() == es.len() && forall|i: int|
            0 <= i < bs.len() ==> wf_expr((#[trigger] bs[i]).arg, schema),
    decreases es.len(),
{
    if es.len() > 0 {
        match es[0].expr_type {
            Some(ExprType::AggregateExpr(agg)) => match agg.expr {
                Some(inner) => {
                    lemma_bind_wf(*inner, schema);
                },
                None => {},
            },
            _ => {},
        }
        lemma_bind_agg_all_wf(es.drop_first(), schema);
    }
}

/// Bind a whole aggregate-position list, in order, stopping at the first
/// failure.
pub fn bind_agg_all(es: &Vec<LogicalExprNode>, schema: &Schema) -> (r: Result<
    Vec<BoundAggregateExpr>,
    TranslateError,
>)
    ensures
        match r {
            Ok(v) => spec_bind_agg_all(es@, schema@) == Ok::<Seq<SpecAggExpr>, SpecError>(
                v@.map_values(|b: BoundAggregateExpr| b@),
            ),
            Err(e) => spec_bind_agg_all(es@, schema@) == Err::<Seq<SpecAggExpr>, SpecError>(e@),
        },
{
    let n = es.len();
    let mut out: Vec<BoundAggregateExpr> = Vec::new();
    let mut i: usize = 0;
    while i < n
        invariant
            0 <= i <= n,
            n == es@.len(),
            out@.len() == i,
            forall|j: int|
                0 <= j < i ==> spec_bind_aggregate(#[trigger] es@[j], schema@) == Ok::<
                    SpecAggExpr,
                    SpecError,
                >(out@[j]@),
        decreases n - i,
    {
        match bind_aggregate(&es[i], schema) {
            Err(e) => {
                proof {
                    lemma_bind_agg_all_err(es@, schema@, i as int);
                }
                return Err(e);
            },
            Ok(b) => {
                out.push(b);
                i = i + 1;
            },
        }
    }
    proof {
        lemma_bind_agg_all_ok(es@, schema@);
        assert(Seq::new(es@.len(), |j: int| spec_bind_aggregate(es@[j], schema@)->Ok_0)
            =~= out@.map_values(|b: BoundAggregateExpr| b@));
    }
    Ok(out)
}

/// What binding a whole sort-key list yields.
pub open spec fn spec_bind_sort_all(es: Seq<LogicalExprNode>, schema: Seq<SpecField>) -> Result<
    Seq<SpecSortExpr>,
    SpecError,
>
    decreases es.len(),
{
    if es.len() == 0 {
        Ok(Seq::empty())
    } else {
        match spec_bind_sort(es[0], schema) {
            Err(e) => Err(e),
            Ok(b) => match spec_bind_sort_all(es.drop_first(), schema) {
                Err(e) => Err(e),
                Ok(rest) => Ok(seq![b] + rest),
            },
        }
    }
}

/// When every sort key binds, the list result is the elementwise one.
pub proof fn lemma_bind_sort_all_ok(es: Seq<LogicalExprNode>, schema: Seq<SpecField>)
    requires
        forall|k: int| 0 <= k < es.len() ==> spec_bind_sort(#[trigger] es[k], schema) is Ok,
    ensures
        spec_bind_sort_all(es, schema) == Ok::<Seq<SpecSortExpr>, SpecError>(
            Seq::new(es.len(), |i: int| spec_bind_sort(es[i], schema)->Ok_0),
        ),
    decreases es.len(),
{
    let result = Seq::new(es.len(), |i: int| spec_bind_sort(es[i], schema)->Ok_0);
    if es.len() == 0 {
        assert(result =~= Seq::empty());
    } else {
        let tail = es.drop_first();
        assert forall|k: int| 0 <= k < tail.len() implies spec_bind_sort(
            #[trigger] tail[k],
            schema,
        ) is Ok by {
            assert(tail[k] == es[k + 1]);
        }
        lemma_bind_sort_all_ok(tail, schema);
        assert(seq![spec_bind_sort(es[0], schema)->Ok_0] + Seq::new(
            tail.len(),
            |i: int| spec_bind_sort(tail[i], schema)->Ok_0,
        ) =~= result);
    }
}

/// The first sort key that fails to bind decides the list's error.
pub proof fn lemma_bind_sort_all_err(es: Seq<LogicalExprNode>, schema: Seq<SpecField>, k: int)
    requires
        0 <= k < es.len(),
        forall|j: int| 0 <= j < k ==> spec_bind_sort(#[trigger] es[j], schema) is Ok,
        spec_bind_sort(es[k], schema) is Err,
    ensures
        spec_bind_sort_all(es, schema) == Err::<Seq<SpecSortExpr>, SpecError>(
            spec_bind_sort(es[k], schema)->Err_0,
        ),
    decreases es.len(),
{
    if k > 0 {
        let tail = es.drop_first();
        assert(tail[k - 1] == es[k]);
        assert forall|j: int| 0 <= j < k - 1 implies spec_bind_sort(
            #[trigger] tail[j],
            schema,
        ) is Ok by {
            assert(tail[j] == es[j + 1]);
        }
        lemma_bind_sort_all_err(tail, schema, k - 1);
    }
}

/// Every operand of a successfully bound sort-key list is well formed.
pub proof fn lemma_bind_sort_all_wf(es: Seq<LogicalExprNode>, schema: Seq<SpecField>)
    ensures
        spec_bind_sort_all(es, schema) matches Ok(bs) ==> bs.len() == es.len() && forall|i: int|
            0 <= i < bs.len() ==> wf_expr((#[trigger] bs[i]).expr, schema),
    decreases es.len(),
{
    if es.len() > 0 {
        match es[0].expr_type {
            Some(ExprType::Sort(s)) => match s.expr {
                Some(inner) => {
                    lemma_bind_wf(*inner, schema);
                },
                None => {},
            },
            _ => {},
        }
        lemma_bind_sort_all_wf(es.drop_first(), schema);
    }
}

/// Bind a whole sort-key list, in order, stopping at the first failure.
pub fn bind_sort_all(es: &Vec<LogicalExprNode>, schema: &Schema) -> (r: Result<
    Vec<BoundSortExpr>,
    TranslateError,
>)
    ensures
        match r {
            Ok(v) => spec_bind_sort_all(es@, schema@) == Ok::<Seq<SpecSortExpr>, SpecError>(
                v@.map_values(|b: BoundSortExpr| b@),
            ),
            Err(e) => spec_bind_sort_all(es@, schema@) == Err::<Seq<SpecSortExpr>, SpecError>(e@),
        },
{
    let n = es.len();
    let mut out: Vec<BoundSortExpr> = Vec::new();
    let mut i: usize = 0;
    while i < n
        invariant
            0 <= i <= n,
            n == es@.len(),
            out@.len() == i,
            forall|j: int|
                0 <= j < i ==> spec_bind_sort(#[trigger] es@[j], schema@) == Ok::<
                    SpecSortExpr,
                    SpecError,
                >(out@[j]@),
        decreases n - i,
    {
        match bind_sort(&es[i], schema) {
            Err(e) => {
                proof {
                    lemma_bind_sort_all_err(es@, schema@, i as int);
                }
                return Err(e);
            },
            Ok(b) => {
                out.push(b);
                i = i + 1;
            },
        }
    }
    proof {
        lemma_bind_sort_all_ok(es@, schema@);
        assert(Seq::new(es@.len(), |j: int| spec_bind_sort(es@[j], schema@)->Ok_0)
            =~= out@.map_values(|b: BoundSortExpr| b@));
    }
    Ok(out)
}

} // verus!
