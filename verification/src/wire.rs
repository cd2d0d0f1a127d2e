use vstd::prelude::*;
use crate::schema::SchemaNode;

verus! {

/// A constant value carried by a literal expression.
#[derive(Clone, PartialEq, Eq, Debug)]
pub enum ScalarValue {
    Boolean(bool),
    Int64(i64),
    Utf8(String),
}

/// Mathematical image of a [`ScalarValue`].
pub ghost enum SpecScalar {
    Boolean(bool),
    Int64(i64),
    Utf8(Seq<char>),
}

impl View for ScalarValue {
    type V = SpecScalar;

    open spec fn view(&self) -> SpecScalar {
        match self {
            ScalarValue::Boolean(b) => SpecScalar::Boolean(*b),
            ScalarValue::Int64(v) => SpecScalar::Int64(*v),
            ScalarValue::Utf8(s) => SpecScalar::Utf8(s@),
        }
    }
}

/// Copy of a scalar; verified rather than derived so that the copy is known
/// to equal the original.
pub fn clone_scalar(v: &ScalarValue) -> (r: ScalarValue)
    ensures
        r == *v,
{
    match v {
        ScalarValue::Boolean(b) => ScalarValue::Boolean(*b),
        ScalarValue::Int64(x) => ScalarValue::Int64(*x),
        ScalarValue::Utf8(s) => ScalarValue::Utf8(s.clone()),
    }
}

/// The aggregate calls the binder knows how to compile.
#[derive(Clone, Copy, PartialEq, Eq, Structural, Debug)]
pub enum AggregateFunction {
    Count,
    Sum,
    Min,
    Max,
}

/// A wire aggregate call: a function applied to one operand expression.
#[derive(PartialEq, Eq, Debug)]
pub struct AggregateExprNode {
    pub aggr_function: AggregateFunction,
    pub expr: Option<Box<LogicalExprNode>>,
}

/// A wire sort descriptor: an operand expression plus the two ordering
/// flags. `asc` is inverted into the internal descending flag by the binder;
/// `nulls_first` passes through unchanged.
#[derive(PartialEq, Eq, Debug)]
pub struct SortExprNode {
    pub expr: Option<Box<LogicalExprNode>>,
    pub asc: bool,
    pub nulls_first: bool,
}

/// A wire aliased expression. Structurally valid, but the binder does not
/// implement it: it exists so that an unsupported expression kind is an
/// explicit error, never a silent default.
#[derive(PartialEq, Eq, Debug)]
pub struct AliasNode {
    pub expr: Option<Box<LogicalExprNode>>,
    pub alias: String,
}

/// The active variant of a wire expression node.
#[derive(PartialEq, Eq, Debug)]
pub enum ExprType {
    /// A column reference, resolved by name against the input schema.
    ColumnName(String),
    /// A constant.
    Literal(ScalarValue),
    /// An aggregate call; valid only in aggregate position.
    AggregateExpr(AggregateExprNode),
    /// A sort descriptor; valid only inside a Sort node's expression list.
    Sort(SortExprNode),
    /// An aliased expression; not supported by the binder.
    Alias(AliasNode),
}

/// A wire expression node: a tagged-union message of which exactly one
/// variant should be set. An absent tag is a deserialization error.
#[derive(PartialEq, Eq, Debug)]
pub struct LogicalExprNode {
    pub expr_type: Option<ExprType>,
}

/// Identifies one output partition of a prior shuffle stage.
#[derive(Clone, PartialEq, Eq, Debug)]
pub struct PartitionId {
    pub job_id: String,
    pub stage_id: u32,
    pub partition_id: u32,
}

/// Mathematical image of a [`PartitionId`].
pub ghost struct SpecPartitionId {
    pub job_id: Seq<char>,
    pub stage_id: u32,
    pub partition_id: u32,
}

impl View for PartitionId {
    type V = SpecPartitionId;

    open spec fn view(&self) -> SpecPartitionId {
        SpecPartitionId {
            job_id: self.job_id@,
            stage_id: self.stage_id,
            partition_id: self.partition_id,
        }
    }
}

/// The executor process holding a shuffle partition.
#[derive(Clone, PartialEq, Eq, Debug)]
pub struct ExecutorMeta {
    pub id: String,
    pub host: String,
    pub port: u32,
}

/// Mathematical image of an [`ExecutorMeta`].
pub ghost struct SpecExecutorMeta {
    pub id: Seq<char>,
    pub host: Seq<char>,
    pub port: u32,
}

impl View for ExecutorMeta {
    type V = SpecExecutorMeta;

    open spec fn view(&self) -> SpecExecutorMeta {
        SpecExecutorMeta { id: self.id@, host: self.host@, port: self.port }
    }
}

/// A wire partition-location entry: where one shuffle partition resides.
/// Both fields are mandatory; a hole in the partition set cannot guarantee
/// complete results, so a missing field aborts the whole shuffle-read
/// translation.
#[derive(Clone, PartialEq, Eq, Debug)]
pub struct PartitionLocationNode {
    pub partition_id: Option<PartitionId>,
    pub executor_meta: Option<ExecutorMeta>,
}

/// One equality-key column pair of a hash join.
#[derive(Clone, PartialEq, Eq, Debug)]
pub struct JoinOnNode {
    pub left: String,
    pub right: String,
}

/// Projection: bind each expression against the input's schema.
#[derive(PartialEq, Eq, Debug)]
pub struct ProjectionNode {
    pub input: Option<Box<PhysicalPlanNode>>,
    pub expr: Vec<LogicalExprNode>,
}

/// Filter: bind the predicate against the input's schema.
#[derive(PartialEq, Eq, Debug)]
pub struct FilterNode {
    pub input: Option<Box<PhysicalPlanNode>>,
    pub expr: Option<LogicalExprNode>,
}

/// CSV scan: an explicit schema, read options, and a column projection.
#[derive(Clone, PartialEq, Eq, Debug)]
pub struct CsvScanNode {
    pub path: String,
    pub schema: Option<SchemaNode>,
    pub has_header: bool,
    pub file_extension: String,
    pub delimiter: String,
    pub projection: Vec<u32>,
}

/// Parquet scan: file list, an explicit file schema, and a column
/// projection. The schema crosses the wire because translation performs no
/// file I/O and so cannot read it from the files themselves.
#[derive(Clone, PartialEq, Eq, Debug)]
pub struct ParquetScanNode {
    pub filename: Vec<String>,
    pub schema: Option<SchemaNode>,
    pub projection: Vec<u32>,
}

/// Selection: part of the wire format, but not implemented by this
/// translator; selecting it is an explicit unsupported-variant error.
#[derive(PartialEq, Eq, Debug)]
pub struct SelectionNode {
    pub input: Option<Box<PhysicalPlanNode>>,
    pub expr: Option<LogicalExprNode>,
}

/// Coalesce small batches toward a target size.
#[derive(PartialEq, Eq, Debug)]
pub struct CoalesceBatchesNode {
    pub input: Option<Box<PhysicalPlanNode>>,
    pub target_batch_size: u32,
}

/// A limit enforced across the combined output of all partitions.
#[derive(PartialEq, Eq, Debug)]
pub struct GlobalLimitNode {
    pub input: Option<Box<PhysicalPlanNode>>,
    pub limit: u32,
}

/// A limit enforced independently per partition.
#[derive(PartialEq, Eq, Debug)]
pub struct LocalLimitNode {
    pub input: Option<Box<PhysicalPlanNode>>,
    pub limit: u32,
}

/// Hash aggregation: a mode code, group-by expressions and aggregate
/// expressions. The mode code is validated before anything else: an unknown
/// code is a hard decoding error whatever the rest of the message holds.
#[derive(PartialEq, Eq, Debug)]
pub struct HashAggregateNode {
    pub input: Option<Box<PhysicalPlanNode>>,
    pub mode: i32,
    pub group_expr: Vec<LogicalExprNode>,
    pub aggr_expr: Vec<LogicalExprNode>,
}

/// Hash equi-join of two children on name pairs, with a join-type code.
/// The join-type code is validated before anything else: an unknown code is
/// a hard decoding error whatever the rest of the message holds.
#[derive(PartialEq, Eq, Debug)]
pub struct HashJoinNode {
    pub left: Option<Box<PhysicalPlanNode>>,
    pub right: Option<Box<PhysicalPlanNode>>,
    pub on: Vec<JoinOnNode>,
    pub join_type: i32,
}

/// Shuffle read: an explicit schema plus the remote location of every
/// partition to pull.
#[derive(Clone, PartialEq, Eq, Debug)]
pub struct ShuffleReaderNode {
    pub schema: Option<SchemaNode>,
    pub partition_location: Vec<PartitionLocationNode>,
}

/// A zero-or-one-row source over an explicit schema.
#[derive(Clone, PartialEq, Eq, Debug)]
pub struct EmptyNode {
    pub schema: Option<SchemaNode>,
    pub produce_one_row: bool,
}

/// Sort: every expression in the list must itself be a sort descriptor.
#[derive(PartialEq, Eq, Debug)]
pub struct SortNode {
    pub input: Option<Box<PhysicalPlanNode>>,
    pub expr: Vec<LogicalExprNode>,
}

/// The active variant of a wire plan node: exactly one physical operator
/// kind.
#[derive(PartialEq, Eq, Debug)]
pub enum PhysicalPlanType {
    Projection(ProjectionNode),
    Filter(FilterNode),
    CsvScan(CsvScanNode),
    ParquetScan(ParquetScanNode),
    Selection(SelectionNode),
    CoalesceBatches(CoalesceBatchesNode),
    GlobalLimit(GlobalLimitNode),
    LocalLimit(LocalLimitNode),
    HashAggregate(HashAggregateNode),
    HashJoin(HashJoinNode),
    ShuffleReader(ShuffleReaderNode),
    Empty(EmptyNode),
    Sort(SortNode),
}

/// A wire plan node: a tagged-union message of which exactly one variant
/// should be set. An absent tag is a deserialization error, never a default
/// or empty operator.
#[derive(PartialEq, Eq, Debug)]
pub struct PhysicalPlanNode {
    pub physical_plan_type: Option<PhysicalPlanType>,
}

} // verus!
