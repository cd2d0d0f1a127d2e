use ballista::{
    translate, AggregateExprNode, AggregateFunction, CsvScanNode, DataType, EmptyNode,
    ExecutorConfig, ExprType, Field, FilterNode, HashAggregateNode, HashJoinNode, JoinOnNode,
    JoinSide, LogicalExprNode, NodeKind, PartitionId, PartitionLocationNode, PhysicalPlanNode,
    PhysicalPlanType, ProjectionNode, SchemaNode, SelectionNode, ShuffleReaderNode, SortExprNode,
    SortNode, TranslateError, WireField, ExecutorMeta, AliasNode,
};

fn field(name: &str, dt: DataType) -> Field {
    Field { name: name.to_string(), data_type: dt, nullable: false }
}

fn schema_node(fields: Vec<Field>) -> SchemaNode {
    SchemaNode { columns: fields }
}

fn empty_input(fields: Vec<Field>) -> PhysicalPlanNode {
    PhysicalPlanNode {
        physical_plan_type: Some(PhysicalPlanType::Empty(EmptyNode {
            schema: Some(schema_node(fields)),
            produce_one_row: false,
        })),
    }
}

fn col(name: &str) -> LogicalExprNode {
    LogicalExprNode { expr_type: Some(ExprType::ColumnName(name.to_string())) }
}

fn cfg() -> ExecutorConfig {
    ExecutorConfig::standard()
}

#[test]
fn missing_discriminator_is_missing_variant() {
    let node = PhysicalPlanNode { physical_plan_type: None };
    assert_eq!(
        translate(&node, &cfg()),
        Err(TranslateError::MissingPlanVariant)
    );
}

#[test]
fn projection_without_input_names_the_field() {
    let node = PhysicalPlanNode {
        physical_plan_type: Some(PhysicalPlanType::Projection(ProjectionNode {
            input: None,
            expr: vec![col("a")],
        })),
    };
    assert_eq!(
        translate(&node, &cfg()),
        Err(TranslateError::MissingField(NodeKind::Projection, WireField::Input))
    );
}

#[test]
fn filter_without_input_names_the_field() {
    let node = PhysicalPlanNode {
        physical_plan_type: Some(PhysicalPlanType::Filter(FilterNode {
            input: None,
            expr: Some(col("a")),
        })),
    };
    assert_eq!(
        translate(&node, &cfg()),
        Err(TranslateError::MissingField(NodeKind::Filter, WireField::Input))
    );
}

#[test]
fn sort_without_input_names_the_field() {
    let node = PhysicalPlanNode {
        physical_plan_type: Some(PhysicalPlanType::Sort(SortNode { input: None, expr: vec![] })),
    };
    assert_eq!(
        translate(&node, &cfg()),
        Err(TranslateError::MissingField(NodeKind::Sort, WireField::Input))
    );
}

#[test]
fn filter_without_predicate_names_the_field() {
    let node = PhysicalPlanNode {
        physical_plan_type: Some(PhysicalPlanType::Filter(FilterNode {
            input: Some(Box::new(empty_input(vec![field("a", DataType::Int64)]))),
            expr: None,
        })),
    };
    assert_eq!(
        translate(&node, &cfg()),
        Err(TranslateError::MissingField(NodeKind::Filter, WireField::Predicate))
    );
}

#[test]
fn unknown_aggregate_mode_fails_before_anything_else() {
    let node = PhysicalPlanNode {
        physical_plan_type: Some(PhysicalPlanType::HashAggregate(HashAggregateNode {
            // The input is absent too: the unknown code still decides.
            input: None,
            mode: 7,
            group_expr: vec![],
            aggr_expr: vec![],
        })),
    };
    assert_eq!(
        translate(&node, &cfg()),
        Err(TranslateError::UnknownAggregateMode(7))
    );
}

#[test]
fn unknown_join_type_fails_before_anything_else() {
    let node = PhysicalPlanNode {
        physical_plan_type: Some(PhysicalPlanType::HashJoin(HashJoinNode {
            left: None,
            right: None,
            on: vec![],
            join_type: -3,
        })),
    };
    assert_eq!(
        translate(&node, &cfg()),
        Err(TranslateError::UnknownJoinType(-3))
    );
}

#[test]
fn selection_is_unsupported() {
    let node = PhysicalPlanNode {
        physical_plan_type: Some(PhysicalPlanType::Selection(SelectionNode {
            input: None,
            expr: None,
        })),
    };
    assert_eq!(
        translate(&node, &cfg()),
        Err(TranslateError::UnsupportedPlan(NodeKind::Selection))
    );
}

#[test]
fn alias_expression_is_unsupported() {
    let node = PhysicalPlanNode {
        physical_plan_type: Some(PhysicalPlanType::Projection(ProjectionNode {
            input: Some(Box::new(empty_input(vec![field("a", DataType::Int64)]))),
            expr: vec![LogicalExprNode {
                expr_type: Some(ExprType::Alias(AliasNode {
                    expr: Some(Box::new(col("a"))),
                    alias: "renamed".to_string(),
                })),
            }],
        })),
    };
    assert_eq!(translate(&node, &cfg()), Err(TranslateError::UnsupportedExpr));
}

#[test]
fn expression_without_tag_is_missing_expr_variant() {
    let node = PhysicalPlanNode {
        physical_plan_type: Some(PhysicalPlanType::Projection(ProjectionNode {
            input: Some(Box::new(empty_input(vec![field("a", DataType::Int64)]))),
            expr: vec![LogicalExprNode { expr_type: None }],
        })),
    };
    assert_eq!(
        translate(&node, &cfg()),
        Err(TranslateError::MissingExprVariant)
    );
}

#[test]
fn unresolvable_column_reports_its_name() {
    let node = PhysicalPlanNode {
        physical_plan_type: Some(PhysicalPlanType::Projection(ProjectionNode {
            input: Some(Box::new(empty_input(vec![field("a", DataType::Int64)]))),
            expr: vec![col("missing")],
        })),
    };
    assert_eq!(
        translate(&node, &cfg()),
        Err(TranslateError::ColumnNotFound("missing".to_string()))
    );
}

#[test]
fn child_error_propagates_through_parent() {
    let node = PhysicalPlanNode {
        physical_plan_type: Some(PhysicalPlanType::Filter(FilterNode {
            input: Some(Box::new(PhysicalPlanNode {
                physical_plan_type: Some(PhysicalPlanType::Projection(ProjectionNode {
                    input: Some(Box::new(empty_input(vec![field("a", DataType::Int64)]))),
                    expr: vec![col("nope")],
                })),
            })),
            expr: Some(col("a")),
        })),
    };
    assert_eq!(
        translate(&node, &cfg()),
        Err(TranslateError::ColumnNotFound("nope".to_string()))
    );
}

fn csv_node(delimiter: &str, projection: Vec<u32>) -> PhysicalPlanNode {
    PhysicalPlanNode {
        physical_plan_type: Some(PhysicalPlanType::CsvScan(CsvScanNode {
            path: "t.csv".to_string(),
            schema: Some(schema_node(vec![
                field("a", DataType::Int64),
                field("b", DataType::Utf8),
            ])),
            has_header: false,
            file_extension: ".csv".to_string(),
            delimiter: delimiter.to_string(),
            projection,
        })),
    }
}

#[test]
fn empty_delimiter_is_rejected() {
    assert_eq!(
        translate(&csv_node("", vec![0]), &cfg()),
        Err(TranslateError::BadDelimiter)
    );
}

#[test]
fn multi_byte_delimiter_is_rejected() {
    assert_eq!(
        translate(&csv_node("ab", vec![0]), &cfg()),
        Err(TranslateError::BadDelimiter)
    );
}

#[test]
fn out_of_range_projection_index_is_rejected() {
    assert_eq!(
        translate(&csv_node(",", vec![0, 5]), &cfg()),
        Err(TranslateError::BadProjectionIndex(NodeKind::CsvScan, 5))
    );
}

#[test]
fn csv_without_schema_names_the_field() {
    let node = PhysicalPlanNode {
        physical_plan_type: Some(PhysicalPlanType::CsvScan(CsvScanNode {
            path: "t.csv".to_string(),
            schema: None,
            has_header: false,
            file_extension: ".csv".to_string(),
            delimiter: ",".to_string(),
            projection: vec![],
        })),
    };
    assert_eq!(
        translate(&node, &cfg()),
        Err(TranslateError::MissingField(NodeKind::CsvScan, WireField::Schema))
    );
}

#[test]
fn empty_without_schema_names_the_field() {
    let node = PhysicalPlanNode {
        physical_plan_type: Some(PhysicalPlanType::Empty(EmptyNode {
            schema: None,
            produce_one_row: true,
        })),
    };
    assert_eq!(
        translate(&node, &cfg()),
        Err(TranslateError::MissingField(NodeKind::Empty, WireField::Schema))
    );
}

#[test]
fn join_key_missing_on_left_side() {
    let node = PhysicalPlanNode {
        physical_plan_type: Some(PhysicalPlanType::HashJoin(HashJoinNode {
            left: Some(Box::new(empty_input(vec![field("a", DataType::Int64)]))),
            right: Some(Box::new(empty_input(vec![field("b", DataType::Int64)]))),
            on: vec![JoinOnNode { left: "z".to_string(), right: "b".to_string() }],
            join_type: 0,
        })),
    };
    assert_eq!(
        translate(&node, &cfg()),
        Err(TranslateError::JoinKeyNotFound(JoinSide::Left, "z".to_string()))
    );
}

#[test]
fn join_key_missing_on_right_side() {
    let node = PhysicalPlanNode {
        physical_plan_type: Some(PhysicalPlanType::HashJoin(HashJoinNode {
            left: Some(Box::new(empty_input(vec![field("a", DataType::Int64)]))),
            right: Some(Box::new(empty_input(vec![field("b", DataType::Int64)]))),
            on: vec![JoinOnNode { left: "a".to_string(), right: "z".to_string() }],
            join_type: 0,
        })),
    };
    assert_eq!(
        translate(&node, &cfg()),
        Err(TranslateError::JoinKeyNotFound(JoinSide::Right, "z".to_string()))
    );
}

#[test]
fn sort_list_rejects_non_sort_descriptor() {
    let node = PhysicalPlanNode {
        physical_plan_type: Some(PhysicalPlanType::Sort(SortNode {
            input: Some(Box::new(empty_input(vec![field("a", DataType::Int64)]))),
            expr: vec![col("a")],
        })),
    };
    assert_eq!(translate(&node, &cfg()), Err(TranslateError::NotASortExpr));
}

#[test]
fn sort_descriptor_without_operand_names_the_field() {
    let node = PhysicalPlanNode {
        physical_plan_type: Some(PhysicalPlanType::Sort(SortNode {
            input: Some(Box::new(empty_input(vec![field("a", DataType::Int64)]))),
            expr: vec![LogicalExprNode {
                expr_type: Some(ExprType::Sort(SortExprNode {
                    expr: None,
                    asc: true,
                    nulls_first: false,
                })),
            }],
        })),
    };
    assert_eq!(
        translate(&node, &cfg()),
        Err(TranslateError::MissingField(NodeKind::Sort, WireField::SortOperand))
    );
}

#[test]
fn aggregate_position_rejects_non_aggregate() {
    let node = PhysicalPlanNode {
        physical_plan_type: Some(PhysicalPlanType::HashAggregate(HashAggregateNode {
            input: Some(Box::new(empty_input(vec![field("a", DataType::Int64)]))),
            mode: 0,
            group_expr: vec![],
            aggr_expr: vec![col("a")],
        })),
    };
    assert_eq!(
        translate(&node, &cfg()),
        Err(TranslateError::NotAnAggregateExpr)
    );
}

#[test]
fn aggregate_call_without_operand_names_the_field() {
    let node = PhysicalPlanNode {
        physical_plan_type: Some(PhysicalPlanType::HashAggregate(HashAggregateNode {
            input: Some(Box::new(empty_input(vec![field("a", DataType::Int64)]))),
            mode: 1,
            group_expr: vec![],
            aggr_expr: vec![LogicalExprNode {
                expr_type: Some(ExprType::AggregateExpr(AggregateExprNode {
                    aggr_function: AggregateFunction::Sum,
                    expr: None,
                })),
            }],
        })),
    };
    assert_eq!(
        translate(&node, &cfg()),
        Err(TranslateError::MissingField(
            NodeKind::HashAggregate,
            WireField::AggregateOperand
        ))
    );
}

#[test]
fn partition_location_without_id_aborts_the_shuffle() {
    let node = PhysicalPlanNode {
        physical_plan_type: Some(PhysicalPlanType::ShuffleReader(ShuffleReaderNode {
            schema: Some(schema_node(vec![field("a", DataType::Int64)])),
            partition_location: vec![PartitionLocationNode {
                partition_id: None,
                executor_meta: Some(ExecutorMeta {
                    id: "e1".to_string(),
                    host: "alpha".to_string(),
                    port: 50051,
                }),
            }],
        })),
    };
    assert_eq!(
        translate(&node, &cfg()),
        Err(TranslateError::MissingField(
            NodeKind::ShuffleReader,
            WireField::PartitionId
        ))
    );
}

#[test]
fn partition_location_without_executor_aborts_the_shuffle() {
    let node = PhysicalPlanNode {
        physical_plan_type: Some(PhysicalPlanType::ShuffleReader(ShuffleReaderNode {
            schema: Some(schema_node(vec![field("a", DataType::Int64)])),
            partition_location: vec![
                PartitionLocationNode {
                    partition_id: Some(PartitionId {
                        job_id: "j".to_string(),
                        stage_id: 0,
                        partition_id: 0,
                    }),
                    executor_meta: Some(ExecutorMeta {
                        id: "e1".to_string(),
                        host: "alpha".to_string(),
                        port: 50051,
                    }),
                },
                PartitionLocationNode { partition_id: None, executor_meta: None },
            ],
        })),
    };
    assert_eq!(
        translate(&node, &cfg()),
        Err(TranslateError::MissingField(
            NodeKind::ShuffleReader,
            WireField::PartitionId
        ))
    );
}
