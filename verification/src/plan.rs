use vstd::prelude::*;
use crate::binder::{
    spec_agg_field, wf_expr, BoundAggregateExpr, BoundExpr, BoundSortExpr, SpecAggExpr, SpecExpr,
    SpecSortExpr,
};
use crate::schema::{spec_index_of, Schema, SpecField};
use crate::wire::{
    ExecutorMeta, JoinOnNode, PartitionId, SpecExecutorMeta, SpecPartitionId,
};

verus! {

/// Whether a hash aggregate computes partial per-partition accumulators or
/// merges and finalizes partial results. Decoded from a wire code; unknown
/// codes are a hard error.
#[derive(Clone, Copy, PartialEq, Eq, Structural, Debug)]
pub enum AggregateMode {
    Partial,
    Final,
}

/// The join types this translator knows. Decoded from a wire code; unknown
/// codes are a hard error.
#[derive(Clone, Copy, PartialEq, Eq, Structural, Debug)]
pub enum JoinType {
    Inner,
    Left,
    Right,
}

/// Tuning knobs that are decided locally by the executor, never trusted
/// from the wire message: the message was produced in a different process
/// context, so structural shape crosses the wire but execution tuning does
/// not.
#[derive(Clone, Copy, PartialEq, Eq, Structural, Debug)]
pub struct ExecutorConfig {
    /// Rows per batch that scan operators produce.
    pub batch_size: usize,
    /// How many files a Parquet scan reads concurrently.
    pub parquet_max_concurrency: usize,
}

/// Rows per batch used when the wire message's own hint is ignored.
pub const DEFAULT_BATCH_SIZE: usize = 32768;

/// Concurrent file reads used for Parquet scans.
pub const DEFAULT_PARQUET_CONCURRENCY: usize = 8;

impl ExecutorConfig {
    /// The executor's standard local tuning.
    pub fn standard() -> (r: ExecutorConfig)
        ensures
            r.batch_size == DEFAULT_BATCH_SIZE,
            r.parquet_max_concurrency == DEFAULT_PARQUET_CONCURRENCY,
    {
        ExecutorConfig {
            batch_size: DEFAULT_BATCH_SIZE,
            parquet_max_concurrency: DEFAULT_PARQUET_CONCURRENCY,
        }
    }
}

/// A bound expression paired with the output column name it contributes.
#[derive(PartialEq, Eq, Debug)]
pub struct NamedExpr {
    pub expr: BoundExpr,
    pub name: String,
}

/// Mathematical image of a [`NamedExpr`].
pub ghost struct SpecNamedExpr {
    pub expr: SpecExpr,
    pub name: Seq<char>,
}

impl View for NamedExpr {
    type V = SpecNamedExpr;

    open spec fn view(&self) -> SpecNamedExpr {
        SpecNamedExpr { expr: self.expr@, name: self.name@ }
    }
}

/// Where one output partition of a prior shuffle stage resides: the
/// partition's identity plus the executor holding it. Never mutated after
/// decoding.
#[derive(Clone, PartialEq, Eq, Debug)]
pub struct PartitionLocation {
    pub partition_id: PartitionId,
    pub executor_meta: ExecutorMeta,
}

/// Mathematical image of a [`PartitionLocation`].
pub ghost struct SpecPartitionLocation {
    pub partition_id: SpecPartitionId,
    pub executor_meta: SpecExecutorMeta,
}

impl View for PartitionLocation {
    type V = SpecPartitionLocation;

    open spec fn view(&self) -> SpecPartitionLocation {
        SpecPartitionLocation {
            partition_id: self.partition_id@,
            executor_meta: self.executor_meta@,
        }
    }
}

/// Mathematical image of one join equality-key pair.
pub ghost struct SpecJoinOn {
    pub left: Seq<char>,
    pub right: Seq<char>,
}

impl View for JoinOnNode {
    type V = SpecJoinOn;

    open spec fn view(&self) -> SpecJoinOn {
        SpecJoinOn { left: self.left@, right: self.right@ }
    }
}

/// An executable operator tree. Each node owns its children exclusively
/// (tree-shaped, no back references), is built bottom-up by translation and
/// is immutable once constructed. Its declared contract here is its output
/// schema; batch production belongs to the execution runtime.
#[derive(PartialEq, Eq, Debug)]
pub enum ExecPlan {
    /// Computes one output column per named expression.
    Projection { expr: Vec<NamedExpr>, input: Box<ExecPlan>, schema: Schema },
    /// Keeps the rows on which the predicate is true; schema unchanged.
    Filter { predicate: BoundExpr, input: Box<ExecPlan> },
    /// Reads delimited text files with an explicit schema, keeping the
    /// projected columns. Batch size is the executor's own, never the
    /// wire's.
    CsvScan {
        path: String,
        has_header: bool,
        file_extension: String,
        delimiter: char,
        file_schema: Schema,
        projection: Vec<usize>,
        projected_schema: Schema,
        batch_size: usize,
    },
    /// Reads Parquet files, keeping the projected columns, with the
    /// executor's own batch size and read fan-out.
    ParquetScan {
        filenames: Vec<String>,
        file_schema: Schema,
        projection: Vec<usize>,
        projected_schema: Schema,
        batch_size: usize,
        max_concurrency: usize,
    },
    /// Buffers and re-chunks rows toward the target batch size.
    CoalesceBatches { input: Box<ExecPlan>, target_batch_size: usize },
    /// A limit enforced across the combined output of all partitions.
    GlobalLimit { input: Box<ExecPlan>, limit: usize },
    /// A limit enforced independently per partition.
    LocalLimit { input: Box<ExecPlan>, limit: usize },
    /// Groups by the named expressions and evaluates the aggregates.
    HashAggregate {
        mode: AggregateMode,
        group: Vec<NamedExpr>,
        aggr: Vec<BoundAggregateExpr>,
        input: Box<ExecPlan>,
        schema: Schema,
    },
    /// Hash equi-join of two children on name pairs.
    HashJoin {
        left: Box<ExecPlan>,
        right: Box<ExecPlan>,
        on: Vec<JoinOnNode>,
        join_type: JoinType,
        schema: Schema,
    },
    /// Pulls the batches of every listed partition from the executor
    /// recorded for it, in the listed order.
    ShuffleReader { partitions: Vec<PartitionLocation>, schema: Schema },
    /// Yields exactly one batch of one row when `produce_one_row` is set,
    /// and no rows otherwise.
    Empty { produce_one_row: bool, schema: Schema },
    /// Sorts its input by the listed keys in one sort partition.
    Sort { expr: Vec<BoundSortExpr>, input: Box<ExecPlan>, concurrency: usize },
}

/// Mathematical image of an [`ExecPlan`].
pub ghost enum SpecPlan {
    Projection { expr: Seq<SpecNamedExpr>, input: Box<SpecPlan>, schema: Seq<SpecField> },
    Filter { predicate: SpecExpr, input: Box<SpecPlan> },
    CsvScan {
        path: Seq<char>,
        has_header: bool,
        file_extension: Seq<char>,
        delimiter: char,
        file_schema: Seq<SpecField>,
        projection: Seq<usize>,
        projected_schema: Seq<SpecField>,
        batch_size: usize,
    },
    ParquetScan {
        filenames: Seq<Seq<char>>,
        file_schema: Seq<SpecField>,
        projection: Seq<usize>,
        projected_schema: Seq<SpecField>,
        batch_size: usize,
        max_concurrency: usize,
    },
    CoalesceBatches { input: Box<SpecPlan>, target_batch_size: usize },
    GlobalLimit { input: Box<SpecPlan>, limit: usize },
    LocalLimit { input: Box<SpecPlan>, limit: usize },
    HashAggregate {
        mode: AggregateMode,
        group: Seq<SpecNamedExpr>,
        aggr: Seq<SpecAggExpr>,
        input: Box<SpecPlan>,
        schema: Seq<SpecField>,
    },
    HashJoin {
        left: Box<SpecPlan>,
        right: Box<SpecPlan>,
        on: Seq<SpecJoinOn>,
        join_type: JoinType,
        schema: Seq<SpecField>,
    },
    ShuffleReader { partitions: Seq<SpecPartitionLocation>, schema: Seq<SpecField> },
    Empty { produce_one_row: bool, schema: Seq<SpecField> },
    Sort { expr: Seq<SpecSortExpr>, input: Box<SpecPlan>, concurrency: usize },
}

/// Image of a named-expression list.
pub open spec fn named_seq_view(v: Seq<NamedExpr>) -> Seq<SpecNamedExpr> {
    v.map_values(|x: NamedExpr| x@)
}

/// Image of an aggregate list.
pub open spec fn agg_seq_view(v: Seq<BoundAggregateExpr>) -> Seq<SpecAggExpr> {
    v.map_values(|x: BoundAggregateExpr| x@)
}

/// Image of a sort-key list.
pub open spec fn sort_seq_view(v: Seq<BoundSortExpr>) -> Seq<SpecSortExpr> {
    v.map_values(|x: BoundSortExpr| x@)
}

/// Image of a partition-location list.
pub open spec fn loc_seq_view(v: Seq<PartitionLocation>) -> Seq<SpecPartitionLocation> {
    v.map_values(|x: PartitionLocation| x@)
}

/// Image of a join-key list.
pub open spec fn on_seq_view(v: Seq<JoinOnNode>) -> Seq<SpecJoinOn> {
    v.map_values(|x: JoinOnNode| x@)
}

/// Image of a file-name list.
pub open spec fn string_seq_view(v: Seq<String>) -> Seq<Seq<char>> {
    v.map_values(|s: String| s@)
}

/// Mathematical image of a whole operator tree.
pub open spec fn spec_plan_view(p: ExecPlan) -> SpecPlan
    decreases p,
{
    match p {
        ExecPlan::Projection { expr, input, schema } => SpecPlan::Projection {
            expr: named_seq_view(expr@),
            input: Box::new(spec_plan_view(*input)),
            schema: schema@,
        },
        ExecPlan::Filter { predicate, input } => SpecPlan::Filter {
            predicate: predicate@,
            input: Box::new(spec_plan_view(*input)),
        },
        ExecPlan::CsvScan {
            path,
            has_header,
            file_extension,
            delimiter,
            file_schema,
            projection,
            projected_schema,
            batch_size,
        } => SpecPlan::CsvScan {
            path: path@,
            has_header,
            file_extension: file_extension@,
            delimiter,
            file_schema: file_schema@,
            projection: projection@,
            projected_schema: projected_schema@,
            batch_size,
        },
        ExecPlan::ParquetScan {
            filenames,
            file_schema,
            projection,
            projected_schema,
            batch_size,
            max_concurrency,
        } => SpecPlan::ParquetScan {
            filenames: string_seq_view(filenames@),
            file_schema: file_schema@,
            projection: projection@,
            projected_schema: projected_schema@,
            batch_size,
            max_concurrency,
        },
        ExecPlan::CoalesceBatches { input, target_batch_size } => SpecPlan::CoalesceBatches {
            input: Box::new(spec_plan_view(*input)),
            target_batch_size,
        },
        ExecPlan::GlobalLimit { input, limit } => SpecPlan::GlobalLimit {
            input: Box::new(spec_plan_view(*input)),
            limit,
        },
        ExecPlan::LocalLimit { input, limit } => SpecPlan::LocalLimit {
            input: Box::new(spec_plan_view(*input)),
            limit,
        },
        ExecPlan::HashAggregate { mode, group, aggr, input, schema } => SpecPlan::HashAggregate {
            mode,
            group: named_seq_view(group@),
            aggr: agg_seq_view(aggr@),
            input: Box::new(spec_plan_view(*input)),
            schema: schema@,
        },
        ExecPlan::HashJoin { left, right, on, join_type, schema } => SpecPlan::HashJoin {
            left: Box::new(spec_plan_view(*left)),
            right: Box::new(spec_plan_view(*right)),
            on: on_seq_view(on@),
            join_type,
            schema: schema@,
        },
        ExecPlan::ShuffleReader { partitions, schema } => SpecPlan::ShuffleReader {
            partitions: loc_seq_view(partitions@),
            schema: schema@,
        },
        ExecPlan::Empty { produce_one_row, schema } => SpecPlan::Empty {
            produce_one_row,
            schema: schema@,
        },
        ExecPlan::Sort { expr, input, concurrency } => SpecPlan::Sort {
            expr: sort_seq_view(expr@),
            input: Box::new(spec_plan_view(*input)),
            concurrency,
        },
    }
}

impl View for ExecPlan {
    type V = SpecPlan;

    open spec fn view(&self) -> SpecPlan {
        spec_plan_view(*self)
    }
}

/// The output schema an operator declares: leaves and schema-bearing nodes
/// expose their own; pass-through operators expose their input's; a join
/// exposes its stored combined schema.
pub open spec fn spec_plan_schema(p: SpecPlan) -> Seq<SpecField>
    decreases p,
{
    match p {
        SpecPlan::Projection { schema, .. } => schema,
        SpecPlan::Filter { input, .. } => spec_plan_schema(*input),
        SpecPlan::CsvScan { projected_schema, .. } => projected_schema,
        SpecPlan::ParquetScan { projected_schema, .. } => projected_schema,
        SpecPlan::CoalesceBatches { input, .. } => spec_plan_schema(*input),
        SpecPlan::GlobalLimit { input, .. } => spec_plan_schema(*input),
        SpecPlan::LocalLimit { input, .. } => spec_plan_schema(*input),
        SpecPlan::HashAggregate { schema, .. } => schema,
        SpecPlan::HashJoin { schema, .. } => schema,
        SpecPlan::ShuffleReader { schema, .. } => schema,
        SpecPlan::Empty { schema, .. } => schema,
        SpecPlan::Sort { input, .. } => spec_plan_schema(*input),
    }
}

/// Structural well-formedness of an operator tree: every child is well
/// formed, every bound expression is bound against its input's schema, and
/// every stored schema is exactly the one implied by the operator's
/// children and expressions.
pub open spec fn wf_plan(p: SpecPlan) -> bool
    decreases p,
{
    match p {
        SpecPlan::Projection { expr, input, schema } => {
            &&& wf_plan(*input)
            &&& forall|i: int|
                0 <= i < expr.len() ==> wf_expr(#[trigger] expr[i].expr, spec_plan_schema(*input))
            &&& schema == Seq::new(
                expr.len(),
                |i: int|
                    SpecField {
                        name: expr[i].name,
                        data_type: crate::binder::spec_expr_type(
                            expr[i].expr,
                            spec_plan_schema(*input),
                        ),
                        nullable: crate::binder::spec_expr_nullable(
                            expr[i].expr,
                            spec_plan_schema(*input),
                        ),
                    },
            )
        },
        SpecPlan::Filter { predicate, input } => {
            &&& wf_plan(*input)
            &&& wf_expr(predicate, spec_plan_schema(*input))
        },
        SpecPlan::CsvScan { file_schema, projection, projected_schema, .. } => {
            &&& forall|i: int|
                0 <= i < projection.len() ==> (#[trigger] projection[i]) < file_schema.len()
            &&& projected_schema == Seq::new(
                projection.len(),
                |i: int| file_schema[projection[i] as int],
            )
        },
        SpecPlan::ParquetScan { file_schema, projection, projected_schema, .. } => {
            &&& forall|i: int|
                0 <= i < projection.len() ==> (#[trigger] projection[i]) < file_schema.len()
            &&& projected_schema == Seq::new(
                projection.len(),
                |i: int| file_schema[projection[i] as int],
            )
        },
        SpecPlan::CoalesceBatches { input, .. } => wf_plan(*input),
        SpecPlan::GlobalLimit { input, .. } => wf_plan(*input),
        SpecPlan::LocalLimit { input, .. } => wf_plan(*input),
        SpecPlan::HashAggregate { group, aggr, input, schema, .. } => {
            &&& wf_plan(*input)
            &&& forall|i: int|
                0 <= i < group.len() ==> wf_expr(
                    #[trigger] group[i].expr,
                    spec_plan_schema(*input),
                )
            &&& forall|i: int|
                0 <= i < aggr.len() ==> wf_expr(#[trigger] aggr[i].arg, spec_plan_schema(*input))
            &&& schema == Seq::new(
                group.len(),
                |i: int|
                    SpecField {
                        name: group[i].name,
                        data_type: crate::binder::spec_expr_type(
                            group[i].expr,
                            spec_plan_schema(*input),
                        ),
                        nullable: crate::binder::spec_expr_nullable(
                            group[i].expr,
                            spec_plan_schema(*input),
                        ),
                    },
            ) + Seq::new(aggr.len(), |i: int| spec_agg_field(aggr[i], spec_plan_schema(*input)))
        },
        SpecPlan::HashJoin { left, right, on, schema, .. } => {
            &&& wf_plan(*left)
            &&& wf_plan(*right)
            &&& forall|i: int|
                0 <= i < on.len() ==> spec_index_of(
                    spec_plan_schema(*left),
                    (#[trigger] on[i]).left,
                ) is Some
            &&& forall|i: int|
                0 <= i < on.len() ==> spec_index_of(
                    spec_plan_schema(*right),
                    (#[trigger] on[i]).right,
                ) is Some
            &&& schema == spec_plan_schema(*left) + spec_plan_schema(*right)
        },
        SpecPlan::ShuffleReader { .. } => true,
        SpecPlan::Empty { .. } => true,
        SpecPlan::Sort { expr, input, .. } => {
            &&& wf_plan(*input)
            &&& forall|i: int|
                0 <= i < expr.len() ==> wf_expr(#[trigger] expr[i].expr, spec_plan_schema(*input))
        },
    }
}

impl ExecPlan {
    /// The output schema this operator will produce batches over.
    pub fn schema(&self) -> (r: &Schema)
        ensures
            r@ == spec_plan_schema(self@),
        decreases *self,
    {
        match self {
            ExecPlan::Projection { schema, .. } => schema,
            ExecPlan::Filter { input, .. } => input.schema(),
            ExecPlan::CsvScan { projected_schema, .. } => projected_schema,
            ExecPlan::ParquetScan { projected_schema, .. } => projected_schema,
            ExecPlan::CoalesceBatches { input, .. } => input.schema(),
            ExecPlan::GlobalLimit { input, .. } => input.schema(),
            ExecPlan::LocalLimit { input, .. } => input.schema(),
            ExecPlan::HashAggregate { schema, .. } => schema,
            ExecPlan::HashJoin { schema, .. } => schema,
            ExecPlan::ShuffleReader { schema, .. } => schema,
            ExecPlan::Empty { schema, .. } => schema,
            ExecPlan::Sort { input, .. } => input.schema(),
        }
    }

    /// How many rows an Empty source yields: one when `produce_one_row` is
    /// set, in a single batch, and zero otherwise.
    pub fn empty_row_count(&self) -> (r: usize)
        requires
            self@ is Empty,
        ensures
            match self@ {
                SpecPlan::Empty { produce_one_row, .. } => r == if produce_one_row {
                    1int
                } else {
                    0int
                },
                _ => false,
            },
    {
        match self {
            ExecPlan::Empty { produce_one_row, .. } => if *produce_one_row {
                1
            } else {
                0
            },
            _ => 0,
        }
    }
}

} // verus!
