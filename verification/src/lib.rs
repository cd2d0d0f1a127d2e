//! Reconstruction of executable physical query plans from wire-format
//! messages.
//!
//! A scheduler process serialises a physical execution plan and ships it to
//! remote executors; each executor rebuilds a fully bound operator tree from
//! the received message. This crate is that reconstruction layer: it decodes
//! tagged-variant plan nodes, binds the embedded expressions against the
//! schemas of already-translated children, resolves remote partition
//! locations for shuffle reads, and rejects malformed input with a typed
//! error instead of a panic or a silent default.

pub mod binder;
pub mod error;
pub mod plan;
pub mod translate;
pub mod schema;
pub mod wire;

pub use binder::{BoundAggregateExpr, BoundExpr, BoundSortExpr, SpecAggExpr, SpecExpr, SpecSortExpr};
pub use plan::{
    AggregateMode, ExecPlan, ExecutorConfig, JoinType, NamedExpr, PartitionLocation, SpecJoinOn,
    SpecNamedExpr, SpecPartitionLocation, SpecPlan, DEFAULT_BATCH_SIZE, DEFAULT_PARQUET_CONCURRENCY,
};
pub use translate::{
    decode_aggregate_mode, decode_join_type, translate,
};
pub use error::{JoinSide, NodeKind, SpecError, TranslateError, WireField};
pub use schema::{DataType, Field, Schema, SchemaNode, SpecField};
pub use wire::{
    AggregateExprNode, AggregateFunction, AliasNode, CoalesceBatchesNode, CsvScanNode, EmptyNode,
    ExecutorMeta, ExprType, FilterNode, GlobalLimitNode, HashAggregateNode, HashJoinNode,
    JoinOnNode, LocalLimitNode, LogicalExprNode, ParquetScanNode, PartitionId,
    PartitionLocationNode, PhysicalPlanNode, PhysicalPlanType, ProjectionNode, ScalarValue,
    SelectionNode, ShuffleReaderNode, SortExprNode, SortNode,
};
