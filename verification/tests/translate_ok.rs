use ballista::{
    translate, AggregateExprNode, AggregateFunction, AggregateMode, BoundExpr,
    CoalesceBatchesNode, CsvScanNode, DataType, EmptyNode, ExecPlan, ExecutorConfig, ExecutorMeta,
    ExprType, Field, FilterNode, GlobalLimitNode, HashAggregateNode, HashJoinNode, JoinOnNode,
    JoinType, LocalLimitNode, LogicalExprNode, ParquetScanNode, PartitionId,
    PartitionLocationNode, PhysicalPlanNode, PhysicalPlanType, ScalarValue, SchemaNode,
    ShuffleReaderNode, SortExprNode, SortNode, ProjectionNode,
};

fn field(name: &str, dt: DataType) -> Field {
    Field { name: name.to_string(), data_type: dt, nullable: false }
}

fn schema_node(fields: Vec<Field>) -> SchemaNode {
    SchemaNode { columns: fields }
}

fn empty_input(fields: Vec<Field>) -> PhysicalPlanNode {
    PhysicalPlanNode {
        physical_plan_type: Some(PhysicalPlanType::Empty(EmptyNode {
            schema: Some(schema_node(fields)),
            produce_one_row: false,
        })),
    }
}

fn col(name: &str) -> LogicalExprNode {
    LogicalExprNode { expr_type: Some(ExprType::ColumnName(name.to_string())) }
}

fn cfg() -> ExecutorConfig {
    ExecutorConfig::standard()
}

#[test]
fn projection_single_column_keeps_name() {
    let node = PhysicalPlanNode {
        physical_plan_type: Some(PhysicalPlanType::Projection(ProjectionNode {
            input: Some(Box::new(empty_input(vec![field("a", DataType::Int64)]))),
            expr: vec![col("a")],
        })),
    };
    let plan = translate(&node, &cfg()).unwrap();
    let schema = plan.schema();
    assert_eq!(schema.fields.len(), 1);
    assert_eq!(schema.fields[0].name, "a");
    assert_eq!(schema.fields[0].data_type, DataType::Int64);
    match &plan {
        ExecPlan::Projection { expr, .. } => {
            assert_eq!(expr.len(), 1);
            assert_eq!(
                expr[0].expr,
                BoundExpr::Column { name: "a".to_string(), index: 0 }
            );
            assert_eq!(expr[0].name, "a");
        }
        other => panic!("expected a projection, got {:?}", other),
    }
}

#[test]
fn projection_literal_column() {
    let node = PhysicalPlanNode {
        physical_plan_type: Some(PhysicalPlanType::Projection(ProjectionNode {
            input: Some(Box::new(empty_input(vec![field("a", DataType::Int64)]))),
            expr: vec![LogicalExprNode {
                expr_type: Some(ExprType::Literal(ScalarValue::Int64(42))),
            }],
        })),
    };
    let plan = translate(&node, &cfg()).unwrap();
    let schema = plan.schema();
    assert_eq!(schema.fields.len(), 1);
    assert_eq!(schema.fields[0].name, "literal");
    assert_eq!(schema.fields[0].data_type, DataType::Int64);
    assert!(!schema.fields[0].nullable);
    match &plan {
        ExecPlan::Projection { expr, .. } => {
            assert_eq!(expr[0].expr, BoundExpr::Literal(ScalarValue::Int64(42)));
        }
        other => panic!("expected a projection, got {:?}", other),
    }
}

#[test]
fn projection_first_matching_name_wins() {
    let node = PhysicalPlanNode {
        physical_plan_type: Some(PhysicalPlanType::Projection(ProjectionNode {
            input: Some(Box::new(empty_input(vec![
                field("a", DataType::Int64),
                field("a", DataType::Utf8),
            ]))),
            expr: vec![col("a")],
        })),
    };
    let plan = translate(&node, &cfg()).unwrap();
    match &plan {
        ExecPlan::Projection { expr, .. } => {
            assert_eq!(
                expr[0].expr,
                BoundExpr::Column { name: "a".to_string(), index: 0 }
            );
        }
        other => panic!("expected a projection, got {:?}", other),
    }
    assert_eq!(plan.schema().fields[0].data_type, DataType::Int64);
}

#[test]
fn empty_node_one_row() {
    let node = PhysicalPlanNode {
        physical_plan_type: Some(PhysicalPlanType::Empty(EmptyNode {
            schema: Some(schema_node(vec![
                field("a", DataType::Int64),
                field("b", DataType::Utf8),
            ])),
            produce_one_row: true,
        })),
    };
    let plan = translate(&node, &cfg()).unwrap();
    assert_eq!(plan.schema().fields.len(), 2);
    assert_eq!(plan.empty_row_count(), 1);
}

#[test]
fn empty_node_zero_rows() {
    let node = PhysicalPlanNode {
        physical_plan_type: Some(PhysicalPlanType::Empty(EmptyNode {
            schema: Some(schema_node(vec![field("a", DataType::Int64)])),
            produce_one_row: false,
        })),
    };
    let plan = translate(&node, &cfg()).unwrap();
    assert_eq!(plan.empty_row_count(), 0);
}

fn location(partition: u32, host: &str) -> PartitionLocationNode {
    PartitionLocationNode {
        partition_id: Some(PartitionId {
            job_id: "job-1".to_string(),
            stage_id: 1,
            partition_id: partition,
        }),
        executor_meta: Some(ExecutorMeta {
            id: format!("exec-{}", host),
            host: host.to_string(),
            port: 50051,
        }),
    }
}

#[test]
fn shuffle_reader_tracks_three_partitions_in_order() {
    let node = PhysicalPlanNode {
        physical_plan_type: Some(PhysicalPlanType::ShuffleReader(ShuffleReaderNode {
            schema: Some(schema_node(vec![field("a", DataType::Int64)])),
            partition_location: vec![
                location(0, "alpha"),
                location(1, "beta"),
                location(2, "gamma"),
            ],
        })),
    };
    let plan = translate(&node, &cfg()).unwrap();
    match &plan {
        ExecPlan::ShuffleReader { partitions, schema } => {
            assert_eq!(partitions.len(), 3);
            assert_eq!(schema.fields.len(), 1);
            let hosts: Vec<&str> = partitions
                .iter()
                .map(|p| p.executor_meta.host.as_str())
                .collect();
            assert_eq!(hosts, vec!["alpha", "beta", "gamma"]);
            assert_eq!(partitions[0].partition_id.partition_id, 0);
            assert_eq!(partitions[1].partition_id.partition_id, 1);
            assert_eq!(partitions[2].partition_id.partition_id, 2);
            assert_eq!(partitions[2].partition_id.job_id, "job-1");
            assert_eq!(partitions[1].executor_meta.port, 50051);
        }
        other => panic!("expected a shuffle reader, got {:?}", other),
    }
}

#[test]
fn translate_twice_yields_equal_operators() {
    let node = PhysicalPlanNode {
        physical_plan_type: Some(PhysicalPlanType::Projection(ProjectionNode {
            input: Some(Box::new(empty_input(vec![field("a", DataType::Int64)]))),
            expr: vec![col("a")],
        })),
    };
    let first = translate(&node, &cfg()).unwrap();
    let second = translate(&node, &cfg()).unwrap();
    assert_eq!(first, second);
    assert_eq!(first.schema(), second.schema());
}

#[test]
fn csv_scan_projects_and_uses_local_batch_size() {
    let node = PhysicalPlanNode {
        physical_plan_type: Some(PhysicalPlanType::CsvScan(CsvScanNode {
            path: "/data/input.csv".to_string(),
            schema: Some(schema_node(vec![
                field("a", DataType::Int64),
                field("b", DataType::Utf8),
                field("c", DataType::Boolean),
            ])),
            has_header: true,
            file_extension: ".csv".to_string(),
            delimiter: ",".to_string(),
            projection: vec![2, 0],
        })),
    };
    let plan = translate(&node, &cfg()).unwrap();
    match &plan {
        ExecPlan::CsvScan {
            path,
            has_header,
            delimiter,
            projection,
            projected_schema,
            batch_size,
            ..
        } => {
            assert_eq!(path, "/data/input.csv");
            assert!(*has_header);
            assert_eq!(*delimiter, ',');
            assert_eq!(projection, &vec![2usize, 0usize]);
            assert_eq!(projected_schema.fields.len(), 2);
            assert_eq!(projected_schema.fields[0].name, "c");
            assert_eq!(projected_schema.fields[1].name, "a");
            assert_eq!(*batch_size, 32768);
        }
        other => panic!("expected a CSV scan, got {:?}", other),
    }
    assert_eq!(plan.schema().fields[0].data_type, DataType::Boolean);
}

#[test]
fn parquet_scan_keeps_files_and_local_fan_out() {
    let node = PhysicalPlanNode {
        physical_plan_type: Some(PhysicalPlanType::ParquetScan(ParquetScanNode {
            filename: vec!["part-0.parquet".to_string(), "part-1.parquet".to_string()],
            schema: Some(schema_node(vec![
                field("x", DataType::Int32),
                field("y", DataType::Int64),
            ])),
            projection: vec![1],
        })),
    };
    let plan = translate(&node, &cfg()).unwrap();
    match &plan {
        ExecPlan::ParquetScan { filenames, projected_schema, batch_size, max_concurrency, .. } => {
            assert_eq!(filenames.len(), 2);
            assert_eq!(filenames[0], "part-0.parquet");
            assert_eq!(projected_schema.fields.len(), 1);
            assert_eq!(projected_schema.fields[0].name, "y");
            assert_eq!(*batch_size, 32768);
            assert_eq!(*max_concurrency, 8);
        }
        other => panic!("expected a Parquet scan, got {:?}", other),
    }
}

#[test]
fn filter_passes_schema_through() {
    let node = PhysicalPlanNode {
        physical_plan_type: Some(PhysicalPlanType::Filter(FilterNode {
            input: Some(Box::new(empty_input(vec![
                field("a", DataType::Int64),
                field("b", DataType::Utf8),
            ]))),
            expr: Some(col("b")),
        })),
    };
    let plan = translate(&node, &cfg()).unwrap();
    assert_eq!(plan.schema().fields.len(), 2);
    match &plan {
        ExecPlan::Filter { predicate, .. } => {
            assert_eq!(
                predicate,
                &BoundExpr::Column { name: "b".to_string(), index: 1 }
            );
        }
        other => panic!("expected a filter, got {:?}", other),
    }
}

#[test]
fn limits_and_coalesce_carry_their_values() {
    let global = PhysicalPlanNode {
        physical_plan_type: Some(PhysicalPlanType::GlobalLimit(GlobalLimitNode {
            input: Some(Box::new(empty_input(vec![field("a", DataType::Int64)]))),
            limit: 10,
        })),
    };
    match translate(&global, &cfg()).unwrap() {
        ExecPlan::GlobalLimit { limit, .. } => assert_eq!(limit, 10),
        other => panic!("expected a global limit, got {:?}", other),
    }
    let local = PhysicalPlanNode {
        physical_plan_type: Some(PhysicalPlanType::LocalLimit(LocalLimitNode {
            input: Some(Box::new(empty_input(vec![field("a", DataType::Int64)]))),
            limit: 7,
        })),
    };
    match translate(&local, &cfg()).unwrap() {
        ExecPlan::LocalLimit { limit, .. } => assert_eq!(limit, 7),
        other => panic!("expected a local limit, got {:?}", other),
    }
    let coalesce = PhysicalPlanNode {
        physical_plan_type: Some(PhysicalPlanType::CoalesceBatches(CoalesceBatchesNode {
            input: Some(Box::new(empty_input(vec![field("a", DataType::Int64)]))),
            target_batch_size: 4096,
        })),
    };
    match translate(&coalesce, &cfg()).unwrap() {
        ExecPlan::CoalesceBatches { target_batch_size, .. } => {
            assert_eq!(target_batch_size, 4096)
        }
        other => panic!("expected a coalesce, got {:?}", other),
    }
}

#[test]
fn aggregate_schema_is_groups_then_aggregates() {
    let node = PhysicalPlanNode {
        physical_plan_type: Some(PhysicalPlanType::HashAggregate(HashAggregateNode {
            input: Some(Box::new(empty_input(vec![
                field("a", DataType::Utf8),
                field("b", DataType::Int64),
            ]))),
            mode: 0,
            group_expr: vec![col("a")],
            aggr_expr: vec![LogicalExprNode {
                expr_type: Some(ExprType::AggregateExpr(AggregateExprNode {
                    aggr_function: AggregateFunction::Count,
                    expr: Some(Box::new(col("b"))),
                })),
            }],
        })),
    };
    let plan = translate(&node, &cfg()).unwrap();
    let schema = plan.schema();
    assert_eq!(schema.fields.len(), 2);
    assert_eq!(schema.fields[0].name, "a");
    assert_eq!(schema.fields[0].data_type, DataType::Utf8);
    assert_eq!(schema.fields[1].name, "count");
    assert_eq!(schema.fields[1].data_type, DataType::Int64);
    assert!(schema.fields[1].nullable);
    match &plan {
        ExecPlan::HashAggregate { mode, aggr, .. } => {
            assert_eq!(*mode, AggregateMode::Partial);
            assert_eq!(aggr.len(), 1);
            assert_eq!(aggr[0].func, AggregateFunction::Count);
        }
        other => panic!("expected an aggregate, got {:?}", other),
    }
}

#[test]
fn projection_with_no_expressions_has_empty_schema() {
    let node = PhysicalPlanNode {
        physical_plan_type: Some(PhysicalPlanType::Projection(ProjectionNode {
            input: Some(Box::new(empty_input(vec![field("a", DataType::Int64)]))),
            expr: vec![],
        })),
    };
    let plan = translate(&node, &cfg()).unwrap();
    assert_eq!(plan.schema().fields.len(), 0);
}

#[test]
fn sum_keeps_its_operand_type() {
    let node = PhysicalPlanNode {
        physical_plan_type: Some(PhysicalPlanType::HashAggregate(HashAggregateNode {
            input: Some(Box::new(empty_input(vec![field("v", DataType::Int32)]))),
            mode: 1,
            group_expr: vec![],
            aggr_expr: vec![LogicalExprNode {
                expr_type: Some(ExprType::AggregateExpr(AggregateExprNode {
                    aggr_function: AggregateFunction::Sum,
                    expr: Some(Box::new(col("v"))),
                })),
            }],
        })),
    };
    let plan = translate(&node, &cfg()).unwrap();
    let schema = plan.schema();
    assert_eq!(schema.fields.len(), 1);
    assert_eq!(schema.fields[0].name, "sum");
    assert_eq!(schema.fields[0].data_type, DataType::Int32);
    match &plan {
        ExecPlan::HashAggregate { mode, .. } => assert_eq!(*mode, AggregateMode::Final),
        other => panic!("expected an aggregate, got {:?}", other),
    }
}

#[test]
fn aggregate_mode_codes_map_deterministically() {
    for (code, want) in [(0, AggregateMode::Partial), (1, AggregateMode::Final)] {
        let node = PhysicalPlanNode {
            physical_plan_type: Some(PhysicalPlanType::HashAggregate(HashAggregateNode {
                input: Some(Box::new(empty_input(vec![field("a", DataType::Int64)]))),
                mode: code,
                group_expr: vec![col("a")],
                aggr_expr: vec![],
            })),
        };
        match translate(&node, &cfg()).unwrap() {
            ExecPlan::HashAggregate { mode, .. } => assert_eq!(mode, want),
            other => panic!("expected an aggregate, got {:?}", other),
        }
    }
}

fn join_node(join_type: i32, on: Vec<JoinOnNode>) -> PhysicalPlanNode {
    PhysicalPlanNode {
        physical_plan_type: Some(PhysicalPlanType::HashJoin(HashJoinNode {
            left: Some(Box::new(empty_input(vec![field("a", DataType::Int64)]))),
            right: Some(Box::new(empty_input(vec![field("b", DataType::Int64)]))),
            on,
            join_type,
        })),
    }
}

#[test]
fn join_schema_is_left_then_right() {
    let node = join_node(
        0,
        vec![JoinOnNode { left: "a".to_string(), right: "b".to_string() }],
    );
    let plan = translate(&node, &cfg()).unwrap();
    let schema = plan.schema();
    assert_eq!(schema.fields.len(), 2);
    assert_eq!(schema.fields[0].name, "a");
    assert_eq!(schema.fields[1].name, "b");
    match &plan {
        ExecPlan::HashJoin { join_type, on, .. } => {
            assert_eq!(*join_type, JoinType::Inner);
            assert_eq!(on.len(), 1);
            assert_eq!(on[0].left, "a");
            assert_eq!(on[0].right, "b");
        }
        other => panic!("expected a join, got {:?}", other),
    }
}

#[test]
fn join_type_codes_map_deterministically() {
    for (code, want) in [(0, JoinType::Inner), (1, JoinType::Left), (2, JoinType::Right)] {
        let node = join_node(code, vec![]);
        match translate(&node, &cfg()).unwrap() {
            ExecPlan::HashJoin { join_type, .. } => assert_eq!(join_type, want),
            other => panic!("expected a join, got {:?}", other),
        }
    }
}

#[test]
fn sort_inverts_ascending_flag() {
    let sort_expr = |asc: bool, nulls_first: bool| LogicalExprNode {
        expr_type: Some(ExprType::Sort(SortExprNode {
            expr: Some(Box::new(col("a"))),
            asc,
            nulls_first,
        })),
    };
    let node = PhysicalPlanNode {
        physical_plan_type: Some(PhysicalPlanType::Sort(SortNode {
            input: Some(Box::new(empty_input(vec![field("a", DataType::Int64)]))),
            expr: vec![sort_expr(true, false), sort_expr(false, true)],
        })),
    };
    let plan = translate(&node, &cfg()).unwrap();
    match &plan {
        ExecPlan::Sort { expr, concurrency, .. } => {
            assert_eq!(expr.len(), 2);
            assert!(!expr[0].descending);
            assert!(!expr[0].nulls_first);
            assert!(expr[1].descending);
            assert!(expr[1].nulls_first);
            assert_eq!(*concurrency, 1);
        }
        other => panic!("expected a sort, got {:?}", other),
    }
    assert_eq!(plan.schema().fields.len(), 1);
}

#[test]
fn nested_plan_translates_bottom_up() {
    let node = PhysicalPlanNode {
        physical_plan_type: Some(PhysicalPlanType::GlobalLimit(GlobalLimitNode {
            input: Some(Box::new(PhysicalPlanNode {
                physical_plan_type: Some(PhysicalPlanType::Filter(FilterNode {
                    input: Some(Box::new(empty_input(vec![field("a", DataType::Utf8)]))),
                    expr: Some(col("a")),
                })),
            })),
            limit: 3,
        })),
    };
    let plan = translate(&node, &cfg()).unwrap();
    assert_eq!(plan.schema().fields.len(), 1);
    assert_eq!(plan.schema().fields[0].name, "a");
    match &plan {
        ExecPlan::GlobalLimit { input, .. } => match input.as_ref() {
            ExecPlan::Filter { .. } => {}
            other => panic!("expected a filter below the limit, got {:?}", other),
        },
        other => panic!("expected a global limit, got {:?}", other),
    }
}
