use vstd::prelude::*;
use vstd::string::StrSliceExecFns;
use crate::binder::{
    agg_field, bind_agg_all, bind_all, bind_expr, bind_sort_all, bound_seq_view, clone_bound,
    expr_field, lemma_bind_all_wf, lemma_bind_agg_all_wf, lemma_bind_sort_all_wf, output_name,
    spec_agg_field, spec_bind, spec_bind_agg_all, spec_bind_all, spec_bind_sort_all,
    spec_expr_field, spec_output_name, wf_expr, BoundAggregateExpr, BoundExpr,
};
use crate::error::{res_view, JoinSide, NodeKind, SpecError, TranslateError, WireField};
use crate::plan::{
    agg_seq_view, loc_seq_view, named_seq_view, on_seq_view, spec_plan_schema, string_seq_view,
    wf_plan, AggregateMode, ExecPlan, ExecutorConfig, JoinType, NamedExpr, PartitionLocation,
    SpecJoinOn, SpecNamedExpr, SpecPartitionLocation, SpecPlan,
};
use crate::schema::{
    clone_field, decode_schema, spec_decode_schema, spec_index_of, Field, Schema, SpecField,
};
use crate::wire::{
    CoalesceBatchesNode, CsvScanNode, EmptyNode, ExecutorMeta, FilterNode, GlobalLimitNode,
    HashAggregateNode, HashJoinNode, JoinOnNode, LocalLimitNode, ParquetScanNode, PartitionId,
    PartitionLocationNode, PhysicalPlanNode, PhysicalPlanType, ProjectionNode, ShuffleReaderNode,
    SortNode,
};

verus! {

/// Which aggregate mode a wire code selects: only the partial and final
/// codes are known.
pub open spec fn spec_aggregate_mode(code: i32) -> Option<AggregateMode> {
    if code == 0 {
        Some(AggregateMode::Partial)
    } else if code == 1 {
        Some(AggregateMode::Final)
    } else {
        None
    }
}

/// Which join type a wire code selects: only inner, left and right are
/// known.
pub open spec fn spec_join_type(code: i32) -> Option<JoinType> {
    if code == 0 {
        Some(JoinType::Inner)
    } else if code == 1 {
        Some(JoinType::Left)
    } else if code == 2 {
        Some(JoinType::Right)
    } else {
        None
    }
}

/// Decode a wire aggregate-mode code; an unknown code is a hard error
/// carrying the offending code.
pub fn decode_aggregate_mode(code: i32) -> (r: Result<AggregateMode, TranslateError>)
    ensures
        match spec_aggregate_mode(code) {
            Some(m) => r == Ok::<AggregateMode, TranslateError>(m),
            None => r == Err::<AggregateMode, TranslateError>(
                TranslateError::UnknownAggregateMode(code),
            ),
        },
{
    if code == 0 {
        Ok(AggregateMode::Partial)
    } else if code == 1 {
        Ok(AggregateMode::Final)
    } else {
        Err(TranslateError::UnknownAggregateMode(code))
    }
}

/// Decode a wire join-type code; an unknown code is a hard error carrying
/// the offending code.
pub fn decode_join_type(code: i32) -> (r: Result<JoinType, TranslateError>)
    ensures
        match spec_join_type(code) {
            Some(t) => r == Ok::<JoinType, TranslateError>(t),
            None => r == Err::<JoinType, TranslateError>(TranslateError::UnknownJoinType(code)),
        },
{
    if code == 0 {
        Ok(JoinType::Inner)
    } else if code == 1 {
        Ok(JoinType::Left)
    } else if code == 2 {
        Ok(JoinType::Right)
    } else {
        Err(TranslateError::UnknownJoinType(code))
    }
}

/// Pair every bound expression with its contributed output name, and build
/// the output columns, in order.
pub fn named_and_fields(bound: &Vec<BoundExpr>, schema: &Schema) -> (r: (Vec<NamedExpr>, Vec<
    Field,
>))
    requires
        forall|i: int| 0 <= i < bound@.len() ==> wf_expr((#[trigger] bound@[i])@, schema@),
    ensures
        named_seq_view(r.0@) == Seq::new(
            bound@.len(),
            |i: int| SpecNamedExpr { expr: bound@[i]@, name: spec_output_name(bound@[i]@) },
        ),
        r.1@.map_values(|f: Field| f@) == Seq::new(
            bound@.len(),
            |i: int| spec_expr_field(bound@[i]@, schema@),
        ),
{
    let n = bound.len();
    let mut named: Vec<NamedExpr> = Vec::new();
    let mut fields: Vec<Field> = Vec::new();
    let mut i: usize = 0;
    while i < n
        invariant
            0 <= i <= n,
            n == bound@.len(),
            named@.len() == i,
            fields@.len() == i,
            forall|k: int| 0 <= k < bound@.len() ==> wf_expr((#[trigger] bound@[k])@, schema@),
            forall|k: int|
                0 <= k < i ==> (#[trigger] named@[k])@ == (SpecNamedExpr {
                    expr: bound@[k]@,
                    name: spec_output_name(bound@[k]@),
                }),
            forall|k: int|
                0 <= k < i ==> (#[trigger] fields@[k])@ == spec_expr_field(bound@[k]@, schema@),
        decreases n - i,
    {
        let f = expr_field(&bound[i], schema);
        let nm = output_name(&bound[i]);
        named.push(NamedExpr { expr: clone_bound(&bound[i]), name: nm });
        fields.push(f);
        i = i + 1;
    }
    proof {
        assert(named_seq_view(named@) =~= Seq::new(
            bound@.len(),
            |i: int| SpecNamedExpr { expr: bound@[i]@, name: spec_output_name(bound@[i]@) },
        ));
        assert(fields@.map_values(|f: Field| f@) =~= Seq::new(
            bound@.len(),
            |i: int| spec_expr_field(bound@[i]@, schema@),
        ));
    }
    (named, fields)
}

/// Build the output columns of a bound aggregate list, in order.
pub fn agg_fields(aggr: &Vec<BoundAggregateExpr>, schema: &Schema) -> (r: Vec<Field>)
    requires
        forall|i: int| 0 <= i < aggr@.len() ==> wf_expr((#[trigger] aggr@[i])@.arg, schema@),
    ensures
        r@.map_values(|f: Field| f@) == Seq::new(
            aggr@.len(),
            |i: int| spec_agg_field(aggr@[i]@, schema@),
        ),
{
    let n = aggr.len();
    let mut fields: Vec<Field> = Vec::new();
    let mut i: usize = 0;
    while i < n
        invariant
            0 <= i <= n,
            n == aggr@.len(),
            fields@.len() == i,
            forall|k: int| 0 <= k < aggr@.len() ==> wf_expr((#[trigger] aggr@[k])@.arg, schema@),
            forall|k: int|
                0 <= k < i ==> (#[trigger] fields@[k])@ == spec_agg_field(aggr@[k]@, schema@),
        decreases n - i,
    {
        fields.push(agg_field(&aggr[i], schema));
        i = i + 1;
    }
    proof {
        assert(fields@.map_values(|f: Field| f@) =~= Seq::new(
            aggr@.len(),
            |i: int| spec_agg_field(aggr@[i]@, schema@),
        ));
    }
    fields
}

/// What applying a column-index projection to a schema yields: the picked
/// columns in projection order, or the first out-of-range index as an
/// error.
pub open spec fn spec_project(kind: NodeKind, fields: Seq<SpecField>, indices: Seq<u32>) -> Result<
    Seq<SpecField>,
    SpecError,
>
    decreases indices.len(),
{
    if indices.len() == 0 {
        Ok(Seq::empty())
    } else if indices[0] >= fields.len() {
        Err(SpecError::BadProjectionIndex(kind, indices[0]))
    } else {
        match spec_project(kind, fields, indices.drop_first()) {
            Err(e) => Err(e),
            Ok(rest) => Ok(seq![fields[indices[0] as int]] + rest),
        }
    }
}

/// When every index is in range, the projection is the elementwise one.
pub proof fn lemma_spec_project_ok(kind: NodeKind, fields: Seq<SpecField>, indices: Seq<u32>)
    requires
        forall|k: int| 0 <= k < indices.len() ==> (#[trigger] indices[k]) < fields.len(),
    ensures
        spec_project(kind, fields, indices) == Ok::<Seq<SpecField>, SpecError>(
            Seq::new(indices.len(), |i: int| fields[indices[i] as int]),
        ),
    decreases indices.len(),
{
    let result = Seq::new(indices.len(), |i: int| fields[indices[i] as int]);
    if indices.len() == 0 {
        assert(result =~= Seq::empty());
    } else {
        let tail = indices.drop_first();
        assert forall|k: int| 0 <= k < tail.len() implies (#[trigger] tail[k]) < fields.len() by {
            assert(tail[k] == indices[k + 1]);
        }
        lemma_spec_project_ok(kind, fields, tail);
        assert(seq![fields[indices[0] as int]] + Seq::new(
            tail.len(),
            |i: int| fields[tail[i] as int],
        ) =~= result);
    }
}

/// The first out-of-range index decides the projection's error.
pub proof fn lemma_spec_project_err(
    kind: NodeKind,
    fields: Seq<SpecField>,
    indices: Seq<u32>,
    k: int,
)
    requires
        0 <= k < indices.len(),
        forall|j: int| 0 <= j < k ==> (#[trigger] indices[j]) < fields.len(),
        indices[k] >= fields.len(),
    ensures
        spec_project(kind, fields, indices) == Err::<Seq<SpecField>, SpecError>(
            SpecError::BadProjectionIndex(kind, indices[k]),
        ),
    decreases indices.len(),
{
    if k > 0 {
        let tail = indices.drop_first();
        assert(tail[k - 1] == indices[k]);
        assert forall|j: int| 0 <= j < k - 1 implies (#[trigger] tail[j]) < fields.len() by {
            assert(tail[j] == indices[j + 1]);
        }
        lemma_spec_project_err(kind, fields, tail, k - 1);
    }
}

/// Apply a scan's column-index projection: returns the indices as in-memory
/// offsets plus the projected schema, or the first out-of-range index as an
/// error named after the scan kind.
pub fn project_schema(kind: NodeKind, schema: &Schema, indices: &Vec<u32>) -> (r: Result<
    (Vec<usize>, Schema),
    TranslateError,
>)
    ensures
        match r {
            Ok(p) => spec_project(kind, schema@, indices@) == Ok::<Seq<SpecField>, SpecError>(
                p.1@,
            ) && p.0@ == indices@.map_values(|x: u32| x as usize),
            Err(e) => spec_project(kind, schema@, indices@) == Err::<Seq<SpecField>, SpecError>(
                e@,
            ),
        },
{
    let n = indices.len();
    let mut outi: Vec<usize> = Vec::new();
    let mut outf: Vec<Field> = Vec::new();
    let mut i: usize = 0;
    while i < n
        invariant
            0 <= i <= n,
            n == indices@.len(),
            outi@.len() == i,
            outf@.len() == i,
            forall|k: int|
                0 <= k < i ==> (#[trigger] indices@[k]) < schema@.len() && outi@[k] == indices@[k]
                    as usize && outf@[k] == schema.fields@[indices@[k] as int],
        decreases n - i,
    {
        let ix = indices[i];
        if ix as usize >= schema.fields.len() {
            proof {
                lemma_spec_project_err(kind, schema@, indices@, i as int);
            }
            return Err(TranslateError::BadProjectionIndex(kind, ix));
        }
        outi.push(ix as usize);
        outf.push(clone_field(&schema.fields[ix as usize]));
        i = i + 1;
    }
    proof {
        lemma_spec_project_ok(kind, schema@, indices@);
        assert(outf@.map_values(|f: Field| f@) =~= Seq::new(
            indices@.len(),
            |i: int| schema@[indices@[i] as int],
        ));
        assert(outi@ =~= indices@.map_values(|x: u32| x as usize));
    }
    Ok((outi, Schema { fields: outf }))
}

/// Copy of a partition identity.
pub fn clone_partition_id(p: &PartitionId) -> (r: PartitionId)
    ensures
        r == *p,
{
    PartitionId {
        job_id: p.job_id.clone(),
        stage_id: p.stage_id,
        partition_id: p.partition_id,
    }
}

/// Copy of an executor record.
pub fn clone_executor_meta(m: &ExecutorMeta) -> (r: ExecutorMeta)
    ensures
        r == *m,
{
    ExecutorMeta { id: m.id.clone(), host: m.host.clone(), port: m.port }
}

/// What decoding one wire partition-location entry yields: both fields are
/// mandatory.
pub open spec fn spec_decode_location(n: PartitionLocationNode) -> Result<
    SpecPartitionLocation,
    SpecError,
> {
    match n.partition_id {
        None => Err(SpecError::MissingField(NodeKind::ShuffleReader, WireField::PartitionId)),
        Some(pid) => match n.executor_meta {
            None => Err(
                SpecError::MissingField(NodeKind::ShuffleReader, WireField::ExecutorMeta),
            ),
            Some(em) => Ok(SpecPartitionLocation { partition_id: pid@, executor_meta: em@ }),
        },
    }
}

/// What decoding a whole partition-location list yields: every entry in
/// order, or the first error. Partial partition lists are not accepted.
pub open spec fn spec_decode_locations(ns: Seq<PartitionLocationNode>) -> Result<
    Seq<SpecPartitionLocation>,
    SpecError,
>
    decreases ns.len(),
{
    if ns.len() == 0 {
        Ok(Seq::empty())
    } else {
        match spec_decode_location(ns[0]) {
            Err(e) => Err(e),
            Ok(l) => match spec_decode_locations(ns.drop_first()) {
                Err(e) => Err(e),
                Ok(rest) => Ok(seq![l] + rest),
            },
        }
    }
}

/// When every entry decodes, the list result is the elementwise one.
pub proof fn lemma_decode_locations_ok(ns: Seq<PartitionLocationNode>)
    requires
        forall|k: int| 0 <= k < ns.len() ==> spec_decode_location(#[trigger] ns[k]) is Ok,
    ensures
        spec_decode_locations(ns) == Ok::<Seq<SpecPartitionLocation>, SpecError>(
            Seq::new(ns.len(), |i: int| spec_decode_location(ns[i])->Ok_0),
        ),
    decreases ns.len(),
{
    let result = Seq::new(ns.len(), |i: int| spec_decode_location(ns[i])->Ok_0);
    if ns.len() == 0 {
        assert(result =~= Seq::empty());
    } else {
        let tail = ns.drop_first();
        assert forall|k: int| 0 <= k < tail.len() implies spec_decode_location(
            #[trigger] tail[k],
        ) is Ok by {
            assert(tail[k] == ns[k + 1]);
        }
        lemma_decode_locations_ok(tail);
        assert(seq![spec_decode_location(ns[0])->Ok_0] + Seq::new(
            tail.len(),
            |i: int| spec_decode_location(tail[i])->Ok_0,
        ) =~= result);
    }
}

/// The first entry that fails to decode decides the list's error.
pub proof fn lemma_decode_locations_err(ns: Seq<PartitionLocationNode>, k: int)
    requires
        0 <= k < ns.len(),
        forall|j: int| 0 <= j < k ==> spec_decode_location(#[trigger] ns[j]) is Ok,
        spec_decode_location(ns[k]) is Err,
    ensures
        spec_decode_locations(ns) == Err::<Seq<SpecPartitionLocation>, SpecError>(
            spec_decode_location(ns[k])->Err_0,
        ),
    decreases ns.len(),
{
    if k > 0 {
        let tail = ns.drop_first();
        assert(tail[k - 1] == ns[k]);
        assert forall|j: int| 0 <= j < k - 1 implies spec_decode_location(
            #[trigger] tail[j],
        ) is Ok by {
            assert(tail[j] == ns[j + 1]);
        }
        lemma_decode_locations_err(tail, k - 1);
    }
}

/// Decode one wire partition-location entry.
pub fn decode_location(n: &PartitionLocationNode) -> (r: Result<PartitionLocation, TranslateError>)
    ensures
        res_view(r) == spec_decode_location(*n),
{
    match &n.partition_id {
        None => Err(TranslateError::MissingField(NodeKind::ShuffleReader, WireField::PartitionId)),
        Some(pid) => match &n.executor_meta {
            None => Err(
                TranslateError::MissingField(NodeKind::ShuffleReader, WireField::ExecutorMeta),
            ),
            Some(em) => Ok(
                PartitionLocation {
                    partition_id: clone_partition_id(pid),
                    executor_meta: clone_executor_meta(em),
                },
            ),
        },
    }
}

/// Decode a whole partition-location list, in order, aborting on the first
/// bad entry.
pub fn decode_locations(ns: &Vec<PartitionLocationNode>) -> (r: Result<
    Vec<PartitionLocation>,
    TranslateError,
>)
    ensures
        match r {
            Ok(v) => spec_decode_locations(ns@) == Ok::<Seq<SpecPartitionLocation>, SpecError>(
                loc_seq_view(v@),
            ),
            Err(e) => spec_decode_locations(ns@) == Err::<Seq<SpecPartitionLocation>, SpecError>(
                e@,
            ),
        },
{
    let n = ns.len();
    let mut out: Vec<PartitionLocation> = Vec::new();
    let mut i: usize = 0;
    while i < n
        invariant
            0 <= i <= n,
            n == ns@.len(),
            out@.len() == i,
            forall|j: int|
                0 <= j < i ==> spec_decode_location(#[trigger] ns@[j]) == Ok::<
                    SpecPartitionLocation,
                    SpecError,
                >(out@[j]@),
        decreases n - i,
    {
        match decode_location(&ns[i]) {
            Err(e) => {
                proof {
                    lemma_decode_locations_err(ns@, i as int);
                }
                return Err(e);
            },
            Ok(l) => {
                out.push(l);
                i = i + 1;
            },
        }
    }
    proof {
        lemma_decode_locations_ok(ns@);
        assert(Seq::new(ns@.len(), |j: int| spec_decode_location(ns@[j])->Ok_0) =~= loc_seq_view(
            out@,
        ));
    }
    Ok(out)
}

/// What checking one join equality-key pair yields: both names must resolve
/// in their side's schema.
pub open spec fn spec_check_on(p: JoinOnNode, left: Seq<SpecField>, right: Seq<SpecField>) -> Result<
    SpecJoinOn,
    SpecError,
> {
    if spec_index_of(left, p.left@) is None {
        Err(SpecError::JoinKeyNotFound(JoinSide::Left, p.left@))
    } else if spec_index_of(right, p.right@) is None {
        Err(SpecError::JoinKeyNotFound(JoinSide::Right, p.right@))
    } else {
        Ok(SpecJoinOn { left: p.left@, right: p.right@ })
    }
}

/// What checking a whole join-key list yields: every pair in order, or the
/// first unresolvable name.
pub open spec fn spec_check_on_all(
    ps: Seq<JoinOnNode>,
    left: Seq<SpecField>,
    right: Seq<SpecField>,
) -> Result<Seq<SpecJoinOn>, SpecError>
    decreases ps.len(),
{
    if ps.len() == 0 {
        Ok(Seq::empty())
    } else {
        match spec_check_on(ps[0], left, right) {
            Err(e) => Err(e),
            Ok(p) => match spec_check_on_all(ps.drop_first(), left, right) {
                Err(e) => Err(e),
                Ok(rest) => Ok(seq![p] + rest),
            },
        }
    }
}

/// When every pair resolves, the list result is the elementwise one.
pub proof fn lemma_check_on_all_ok(ps: Seq<JoinOnNode>, left: Seq<SpecField>, right: Seq<SpecField>)
    requires
        forall|k: int| 0 <= k < ps.len() ==> spec_check_on(#[trigger] ps[k], left, right) is Ok,
    ensures
        spec_check_on_all(ps, left, right) == Ok::<Seq<SpecJoinOn>, SpecError>(
            Seq::new(ps.len(), |i: int| spec_check_on(ps[i], left, right)->Ok_0),
        ),
    decreases ps.len(),
{
    let result = Seq::new(ps.len(), |i: int| spec_check_on(ps[i], left, right)->Ok_0);
    if ps.len() == 0 {
        assert(result =~= Seq::empty());
    } else {
        let tail = ps.drop_first();
        assert forall|k: int| 0 <= k < tail.len() implies spec_check_on(
            #[trigger] tail[k],
            left,
            right,
        ) is Ok by {
            assert(tail[k] == ps[k + 1]);
        }
        lemma_check_on_all_ok(tail, left, right);
        assert(seq![spec_check_on(ps[0], left, right)->Ok_0] + Seq::new(
            tail.len(),
            |i: int| spec_check_on(tail[i], left, right)->Ok_0,
        ) =~= result);
    }
}

/// The first unresolvable pair decides the list's error.
pub proof fn lemma_check_on_all_err(
    ps: Seq<JoinOnNode>,
    left: Seq<SpecField>,
    right: Seq<SpecField>,
    k: int,
)
    requires
        0 <= k < ps.len(),
        forall|j: int| 0 <= j < k ==> spec_check_on(#[trigger] ps[j], left, right) is Ok,
        spec_check_on(ps[k], left, right) is Err,
    ensures
        spec_check_on_all(ps, left, right) == Err::<Seq<SpecJoinOn>, SpecError>(
            spec_check_on(ps[k], left, right)->Err_0,
        ),
    decreases ps.len(),
{
    if k > 0 {
        let tail = ps.drop_first();
        assert(tail[k - 1] == ps[k]);
        assert forall|j: int| 0 <= j < k - 1 implies spec_check_on(
            #[trigger] tail[j],
            left,
            right,
        ) is Ok by {
            assert(tail[j] == ps[j + 1]);
        }
        lemma_check_on_all_err(tail, left, right, k - 1);
    }
}

/// Check every join equality-key pair against the two child schemas,
/// keeping the pairs in order; the first unresolvable name aborts with the
/// side it failed on.
pub fn check_on_all(ps: &Vec<JoinOnNode>, left: &Schema, right: &Schema) -> (r: Result<
    Vec<JoinOnNode>,
    TranslateError,
>)
    ensures
        match r {
            Ok(v) => spec_check_on_all(ps@, left@, right@) == Ok::<Seq<SpecJoinOn>, SpecError>(
                on_seq_view(v@),
            ),
            Err(e) => spec_check_on_all(ps@, left@, right@) == Err::<Seq<SpecJoinOn>, SpecError>(
                e@,
            ),
        },
{
    let n = ps.len();
    let mut out: Vec<JoinOnNode> = Vec::new();
    let mut i: usize = 0;
    while i < n
        invariant
            0 <= i <= n,
            n == ps@.len(),
            out@.len() == i,
            forall|j: int|
                0 <= j < i ==> spec_check_on(#[trigger] ps@[j], left@, right@) == Ok::<
                    SpecJoinOn,
                    SpecError,
                >(out@[j]@),
        decreases n - i,
    {
        let p = &ps[i];
        if left.index_of(&p.left).is_none() {
            proof {
                lemma_check_on_all_err(ps@, left@, right@, i as int);
            }
            return Err(TranslateError::JoinKeyNotFound(JoinSide::Left, p.left.clone()));
        }
        if right.index_of(&p.right).is_none() {
            proof {
                lemma_check_on_all_err(ps@, left@, right@, i as int);
            }
            return Err(TranslateError::JoinKeyNotFound(JoinSide::Right, p.right.clone()));
        }
        out.push(JoinOnNode { left: p.left.clone(), right: p.right.clone() });
        i = i + 1;
    }
    proof {
        lemma_check_on_all_ok(ps@, left@, right@);
        assert(Seq::new(ps@.len(), |j: int| spec_check_on(ps@[j], left@, right@)->Ok_0)
            =~= on_seq_view(out@));
    }
    Ok(out)
}

/// Copy a scan's file-name list.
pub fn clone_strings(v: &Vec<String>) -> (r: Vec<String>)
    ensures
        r@ == v@,
{
    let n = v.len();
    let mut out: Vec<String> = Vec::new();
    let mut i: usize = 0;
    while i < n
        invariant
            0 <= i <= n,
            n == v@.len(),
            out@.len() == i,
            forall|j: int| 0 <= j < i ==> out@[j] == v@[j],
        decreases n - i,
    {
        out.push(v[i].clone());
        i = i + 1;
    }
    proof {
        assert(out@ =~= v@);
    }
    out
}

/// Copy a field list.
pub fn clone_fields(v: &Vec<Field>) -> (r: Vec<Field>)
    ensures
        r@ == v@,
{
    let n = v.len();
    let mut out: Vec<Field> = Vec::new();
    let mut i: usize = 0;
    while i < n
        invariant
            0 <= i <= n,
            n == v@.len(),
            out@.len() == i,
            forall|j: int| 0 <= j < i ==> out@[j] == v@[j],
        decreases n - i,
    {
        out.push(clone_field(&v[i]));
        i = i + 1;
    }
    proof {
        assert(out@ =~= v@);
    }
    out
}

/// A successfully checked join-key list is exactly the wire list's image.
pub proof fn lemma_check_on_all_val(ps: Seq<JoinOnNode>, left: Seq<SpecField>, right: Seq<SpecField>)
    ensures
        spec_check_on_all(ps, left, right) matches Ok(v) ==> v == on_seq_view(ps),
    decreases ps.len(),
{
    if ps.len() > 0 {
        lemma_check_on_all_val(ps.drop_first(), left, right);
        if spec_check_on_all(ps, left, right) is Ok {
            assert(seq![spec_check_on(ps[0], left, right)->Ok_0] + on_seq_view(ps.drop_first())
                =~= on_seq_view(ps));
        }
    }
}

/// What translating a Projection node yields: translate the input, bind
/// every expression against its schema, and pair each bound expression
/// with its contributed output name; the operator's schema is one column
/// per pair.
pub open spec fn spec_translate_projection(p: ProjectionNode, cfg: ExecutorConfig) -> Result<
    SpecPlan,
    SpecError,
>
    decreases p,
{
    match p.input {
        None => Err(SpecError::MissingField(NodeKind::Projection, WireField::Input)),
        Some(inp) => match spec_translate(*inp, cfg) {
            Err(e) => Err(e),
            Ok(child) => {
                let in_schema = spec_plan_schema(child);
                match spec_bind_all(p.expr@, in_schema) {
                    Err(e) => Err(e),
                    Ok(bs) => Ok(
                        SpecPlan::Projection {
                            expr: Seq::new(
                                bs.len(),
                                |i: int|
                                    (SpecNamedExpr {
                                        expr: bs[i],
                                        name: spec_output_name(bs[i]),
                                    }),
                            ),
                            input: Box::new(child),
                            schema: Seq::new(bs.len(), |i: int| spec_expr_field(bs[i], in_schema)),
                        },
                    ),
                }
            },
        },
    }
}

/// What translating a Filter node yields: translate the input and bind the
/// mandatory predicate against its schema; the schema passes through.
pub open spec fn spec_translate_filter(f: FilterNode, cfg: ExecutorConfig) -> Result<
    SpecPlan,
    SpecError,
>
    decreases f,
{
    match f.input {
        None => Err(SpecError::MissingField(NodeKind::Filter, WireField::Input)),
        Some(inp) => match spec_translate(*inp, cfg) {
            Err(e) => Err(e),
            Ok(child) => match f.expr {
                None => Err(SpecError::MissingField(NodeKind::Filter, WireField::Predicate)),
                Some(pred) => match spec_bind(pred, spec_plan_schema(child)) {
                    Err(e) => Err(e),
                    Ok(b) => Ok(SpecPlan::Filter { predicate: b, input: Box::new(child) }),
                },
            },
        },
    }
}

/// What translating a CsvScan node yields: decode the mandatory schema,
/// validate the single-byte delimiter, apply the column projection, and
/// take batch size from the executor's own configuration.
pub open spec fn spec_translate_csv(scan: CsvScanNode, cfg: ExecutorConfig) -> Result<
    SpecPlan,
    SpecError,
> {
    match scan.schema {
        None => Err(SpecError::MissingField(NodeKind::CsvScan, WireField::Schema)),
        Some(sn) => {
            let file_schema = spec_decode_schema(sn);
            if !(scan.delimiter@.len() == 1 && (scan.delimiter@[0] as u32) < 128) {
                Err(SpecError::BadDelimiter)
            } else {
                match spec_project(NodeKind::CsvScan, file_schema, scan.projection@) {
                    Err(e) => Err(e),
                    Ok(proj) => Ok(
                        SpecPlan::CsvScan {
                            path: scan.path@,
                            has_header: scan.has_header,
                            file_extension: scan.file_extension@,
                            delimiter: scan.delimiter@[0],
                            file_schema,
                            projection: scan.projection@.map_values(|x: u32| x as usize),
                            projected_schema: proj,
                            batch_size: cfg.batch_size,
                        },
                    ),
                }
            }
        },
    }
}

/// What translating a ParquetScan node yields: decode the mandatory file
/// schema, apply the column projection, and take batch size and read
/// fan-out from the executor's own configuration.
pub open spec fn spec_translate_parquet(scan: ParquetScanNode, cfg: ExecutorConfig) -> Result<
    SpecPlan,
    SpecError,
> {
    match scan.schema {
        None => Err(SpecError::MissingField(NodeKind::ParquetScan, WireField::Schema)),
        Some(sn) => {
            let file_schema = spec_decode_schema(sn);
            match spec_project(NodeKind::ParquetScan, file_schema, scan.projection@) {
                Err(e) => Err(e),
                Ok(proj) => Ok(
                    SpecPlan::ParquetScan {
                        filenames: string_seq_view(scan.filename@),
                        file_schema,
                        projection: scan.projection@.map_values(|x: u32| x as usize),
                        projected_schema: proj,
                        batch_size: cfg.batch_size,
                        max_concurrency: cfg.parquet_max_concurrency,
                    },
                ),
            }
        },
    }
}

/// What translating a CoalesceBatches node yields.
pub open spec fn spec_translate_coalesce(c: CoalesceBatchesNode, cfg: ExecutorConfig) -> Result<
    SpecPlan,
    SpecError,
>
    decreases c,
{
    match c.input {
        None => Err(SpecError::MissingField(NodeKind::CoalesceBatches, WireField::Input)),
        Some(inp) => match spec_translate(*inp, cfg) {
            Err(e) => Err(e),
            Ok(child) => Ok(
                SpecPlan::CoalesceBatches {
                    input: Box::new(child),
                    target_batch_size: c.target_batch_size as usize,
                },
            ),
        },
    }
}

/// What translating a GlobalLimit node yields.
pub open spec fn spec_translate_global_limit(l: GlobalLimitNode, cfg: ExecutorConfig) -> Result<
    SpecPlan,
    SpecError,
>
    decreases l,
{
    match l.input {
        None => Err(SpecError::MissingField(NodeKind::GlobalLimit, WireField::Input)),
        Some(inp) => match spec_translate(*inp, cfg) {
            Err(e) => Err(e),
            Ok(child) => Ok(SpecPlan::GlobalLimit { input: Box::new(child), limit: l.limit as usize }),
        },
    }
}

/// What translating a LocalLimit node yields.
pub open spec fn spec_translate_local_limit(l: LocalLimitNode, cfg: ExecutorConfig) -> Result<
    SpecPlan,
    SpecError,
>
    decreases l,
{
    match l.input {
        None => Err(SpecError::MissingField(NodeKind::LocalLimit, WireField::Input)),
        Some(inp) => match spec_translate(*inp, cfg) {
            Err(e) => Err(e),
            Ok(child) => Ok(SpecPlan::LocalLimit { input: Box::new(child), limit: l.limit as usize }),
        },
    }
}

/// What translating a HashAggregate node yields: the mode code is decoded
/// first (an unknown code fails whatever else the message holds), then the
/// input is translated, the group-by expressions bound and named, and the
/// aggregate expressions compiled; the schema is the group columns followed
/// by one column per aggregate.
pub open spec fn spec_translate_aggregate(h: HashAggregateNode, cfg: ExecutorConfig) -> Result<
    SpecPlan,
    SpecError,
>
    decreases h,
{
    match spec_aggregate_mode(h.mode) {
        None => Err(SpecError::UnknownAggregateMode(h.mode)),
        Some(mode) => match h.input {
            None => Err(SpecError::MissingField(NodeKind::HashAggregate, WireField::Input)),
            Some(inp) => match spec_translate(*inp, cfg) {
                Err(e) => Err(e),
                Ok(child) => {
                    let in_schema = spec_plan_schema(child);
                    match spec_bind_all(h.group_expr@, in_schema) {
                        Err(e) => Err(e),
                        Ok(gs) => match spec_bind_agg_all(h.aggr_expr@, in_schema) {
                            Err(e) => Err(e),
                            Ok(ags) => Ok(
                                SpecPlan::HashAggregate {
                                    mode,
                                    group: Seq::new(
                                        gs.len(),
                                        |i: int|
                                            (SpecNamedExpr {
                                                expr: gs[i],
                                                name: spec_output_name(gs[i]),
                                            }),
                                    ),
                                    aggr: ags,
                                    input: Box::new(child),
                                    schema: Seq::new(
                                        gs.len(),
                                        |i: int| spec_expr_field(gs[i], in_schema),
                                    ) + Seq::new(
                                        ags.len(),
                                        |i: int| spec_agg_field(ags[i], in_schema),
                                    ),
                                },
                            ),
                        },
                    }
                },
            },
        },
    }
}

/// What translating a HashJoin node yields: the join-type code is decoded
/// first (an unknown code fails whatever else the message holds), then both
/// children are translated independently and every equality-key pair is
/// checked against the respective child schema; the schema is the left
/// columns followed by the right columns.
pub open spec fn spec_translate_join(j: HashJoinNode, cfg: ExecutorConfig) -> Result<
    SpecPlan,
    SpecError,
>
    decreases j,
{
    match spec_join_type(j.join_type) {
        None => Err(SpecError::UnknownJoinType(j.join_type)),
        Some(jt) => match j.left {
            None => Err(SpecError::MissingField(NodeKind::HashJoin, WireField::Left)),
            Some(ln) => match spec_translate(*ln, cfg) {
                Err(e) => Err(e),
                Ok(lc) => match j.right {
                    None => Err(SpecError::MissingField(NodeKind::HashJoin, WireField::Right)),
                    Some(rn) => match spec_translate(*rn, cfg) {
                        Err(e) => Err(e),
                        Ok(rc) => match spec_check_on_all(
                            j.on@,
                            spec_plan_schema(lc),
                            spec_plan_schema(rc),
                        ) {
                            Err(e) => Err(e),
                            Ok(_) => Ok(
                                SpecPlan::HashJoin {
                                    left: Box::new(lc),
                                    right: Box::new(rc),
                                    on: on_seq_view(j.on@),
                                    join_type: jt,
                                    schema: spec_plan_schema(lc) + spec_plan_schema(rc),
                                },
                            ),
                        },
                    },
                },
            },
        },
    }
}

/// What translating a ShuffleReader node yields: decode the mandatory
/// schema and every partition location, keeping the wire order.
pub open spec fn spec_translate_shuffle(s: ShuffleReaderNode) -> Result<SpecPlan, SpecError> {
    match s.schema {
        None => Err(SpecError::MissingField(NodeKind::ShuffleReader, WireField::Schema)),
        Some(sn) => match spec_decode_locations(s.partition_location@) {
            Err(e) => Err(e),
            Ok(locs) => Ok(
                SpecPlan::ShuffleReader { partitions: locs, schema: spec_decode_schema(sn) },
            ),
        },
    }
}

/// What translating an Empty node yields: decode the mandatory schema and
/// keep the one-row flag.
pub open spec fn spec_translate_empty(e: EmptyNode) -> Result<SpecPlan, SpecError> {
    match e.schema {
        None => Err(SpecError::MissingField(NodeKind::Empty, WireField::Schema)),
        Some(sn) => Ok(
            SpecPlan::Empty { produce_one_row: e.produce_one_row, schema: spec_decode_schema(sn) },
        ),
    }
}

/// What translating a Sort node yields: translate the input and bind every
/// listed expression as a sort descriptor (anything else in that position
/// is a structural error); the operator runs one sort partition.
pub open spec fn spec_translate_sort(s: SortNode, cfg: ExecutorConfig) -> Result<
    SpecPlan,
    SpecError,
>
    decreases s,
{
    match s.input {
        None => Err(SpecError::MissingField(NodeKind::Sort, WireField::Input)),
        Some(inp) => match spec_translate(*inp, cfg) {
            Err(e) => Err(e),
            Ok(child) => match spec_bind_sort_all(s.expr@, spec_plan_schema(child)) {
                Err(e) => Err(e),
                Ok(ks) => Ok(
                    SpecPlan::Sort { expr: ks, input: Box::new(child), concurrency: 1usize },
                ),
            },
        },
    }
}

/// What translating any wire plan node yields: dispatch on the active
/// variant; an absent tag is a missing-variant error, and a Selection is
/// explicitly unsupported.
pub open spec fn spec_translate(node: PhysicalPlanNode, cfg: ExecutorConfig) -> Result<
    SpecPlan,
    SpecError,
>
    decreases node,
{
    match node.physical_plan_type {
        None => Err(SpecError::MissingPlanVariant),
        Some(plan) => match plan {
            PhysicalPlanType::Projection(p) => spec_translate_projection(p, cfg),
            PhysicalPlanType::Filter(f) => spec_translate_filter(f, cfg),
            PhysicalPlanType::CsvScan(s) => spec_translate_csv(s, cfg),
            PhysicalPlanType::ParquetScan(s) => spec_translate_parquet(s, cfg),
            PhysicalPlanType::Selection(_) => Err(SpecError::UnsupportedPlan(NodeKind::Selection)),
            PhysicalPlanType::CoalesceBatches(c) => spec_translate_coalesce(c, cfg),
            PhysicalPlanType::GlobalLimit(l) => spec_translate_global_limit(l, cfg),
            PhysicalPlanType::LocalLimit(l) => spec_translate_local_limit(l, cfg),
            PhysicalPlanType::HashAggregate(h) => spec_translate_aggregate(h, cfg),
            PhysicalPlanType::HashJoin(j) => spec_translate_join(j, cfg),
            PhysicalPlanType::ShuffleReader(s) => spec_translate_shuffle(s),
            PhysicalPlanType::Empty(e) => spec_translate_empty(e),
            PhysicalPlanType::Sort(s) => spec_translate_sort(s, cfg),
        },
    }
}

/// Translate a Projection node.
fn translate_projection(p: &ProjectionNode, cfg: &ExecutorConfig) -> (r: Result<
    ExecPlan,
    TranslateError,
>)
    ensures
        res_view(r) == spec_translate_projection(*p, *cfg),
    decreases *p,
{
    match &p.input {
        None => Err(TranslateError::MissingField(NodeKind::Projection, WireField::Input)),
        Some(inp) => match translate(inp, cfg) {
            Err(e) => Err(e),
            Ok(child) => match bind_all(&p.expr, child.schema()) {
                Err(e) => Err(e),
                Ok(bound) => {
                    proof {
                        lemma_bind_all_wf(p.expr@, spec_plan_schema(child@));
                        assert forall|i: int| 0 <= i < bound@.len() implies wf_expr(
                            (#[trigger] bound@[i])@,
                            spec_plan_schema(child@),
                        ) by {
                            assert(bound_seq_view(bound@)[i] == bound@[i]@);
                        }
                    }
                    let (named, fields) = named_and_fields(&bound, child.schema());
                    proof {
                        let bs = bound_seq_view(bound@);
                        let in_schema = spec_plan_schema(child@);
                        assert(Seq::new(
                            bs.len(),
                            |i: int| (SpecNamedExpr { expr: bs[i], name: spec_output_name(bs[i]) }),
                        ) =~= named_seq_view(named@));
                        assert(Seq::new(bs.len(), |i: int| spec_expr_field(bs[i], in_schema))
                            =~= fields@.map_values(|f: Field| f@));
                    }
                    Ok(
                        ExecPlan::Projection {
                            expr: named,
                            input: Box::new(child),
                            schema: Schema { fields },
                        },
                    )
                },
            },
        },
    }
}

/// Translate a Filter node.
fn translate_filter(f: &FilterNode, cfg: &ExecutorConfig) -> (r: Result<ExecPlan, TranslateError>)
    ensures
        res_view(r) == spec_translate_filter(*f, *cfg),
    decreases *f,
{
    match &f.input {
        None => Err(TranslateError::MissingField(NodeKind::Filter, WireField::Input)),
        Some(inp) => match translate(inp, cfg) {
            Err(e) => Err(e),
            Ok(child) => match &f.expr {
                None => Err(TranslateError::MissingField(NodeKind::Filter, WireField::Predicate)),
                Some(pred) => match bind_expr(pred, child.schema()) {
                    Err(e) => Err(e),
                    Ok(b) => Ok(ExecPlan::Filter { predicate: b, input: Box::new(child) }),
                },
            },
        },
    }
}

/// Translate a CsvScan node.
fn translate_csv(scan: &CsvScanNode, cfg: &ExecutorConfig) -> (r: Result<ExecPlan, TranslateError>)
    ensures
        res_view(r) == spec_translate_csv(*scan, *cfg),
{
    match &scan.schema {
        None => Err(TranslateError::MissingField(NodeKind::CsvScan, WireField::Schema)),
        Some(sn) => {
            let file_schema = decode_schema(sn);
            let d = scan.delimiter.as_str();
            if d.unicode_len() != 1 {
                return Err(TranslateError::BadDelimiter);
            }
            let c = d.get_char(0);
            if c as u32 >= 128 {
                return Err(TranslateError::BadDelimiter);
            }
            match project_schema(NodeKind::CsvScan, &file_schema, &scan.projection) {
                Err(e) => Err(e),
                Ok((proj_idx, proj_schema)) => Ok(
                    ExecPlan::CsvScan {
                        path: scan.path.clone(),
                        has_header: scan.has_header,
                        file_extension: scan.file_extension.clone(),
                        delimiter: c,
                        file_schema,
                        projection: proj_idx,
                        projected_schema: proj_schema,
                        batch_size: cfg.batch_size,
                    },
                ),
            }
        },
    }
}

/// Translate a ParquetScan node.
fn translate_parquet(scan: &ParquetScanNode, cfg: &ExecutorConfig) -> (r: Result<
    ExecPlan,
    TranslateError,
>)
    ensures
        res_view(r) == spec_translate_parquet(*scan, *cfg),
{
    match &scan.schema {
        None => Err(TranslateError::MissingField(NodeKind::ParquetScan, WireField::Schema)),
        Some(sn) => {
            let file_schema = decode_schema(sn);
            match project_schema(NodeKind::ParquetScan, &file_schema, &scan.projection) {
                Err(e) => Err(e),
                Ok((proj_idx, proj_schema)) => Ok(
                    ExecPlan::ParquetScan {
                        filenames: clone_strings(&scan.filename),
                        file_schema,
                        projection: proj_idx,
                        projected_schema: proj_schema,
                        batch_size: cfg.batch_size,
                        max_concurrency: cfg.parquet_max_concurrency,
                    },
                ),
            }
        },
    }
}

/// Translate a CoalesceBatches node.
fn translate_coalesce(c: &CoalesceBatchesNode, cfg: &ExecutorConfig) -> (r: Result<
    ExecPlan,
    TranslateError,
>)
    ensures
        res_view(r) == spec_translate_coalesce(*c, *cfg),
    decreases *c,
{
    match &c.input {
        None => Err(TranslateError::MissingField(NodeKind::CoalesceBatches, WireField::Input)),
        Some(inp) => match translate(inp, cfg) {
            Err(e) => Err(e),
            Ok(child) => Ok(
                ExecPlan::CoalesceBatches {
                    input: Box::new(child),
                    target_batch_size: c.target_batch_size as usize,
                },
            ),
        },
    }
}

/// Translate a GlobalLimit node.
fn translate_global_limit(l: &GlobalLimitNode, cfg: &ExecutorConfig) -> (r: Result<
    ExecPlan,
    TranslateError,
>)
    ensures
        res_view(r) == spec_translate_global_limit(*l, *cfg),
    decreases *l,
{
    match &l.input {
        None => Err(TranslateError::MissingField(NodeKind::GlobalLimit, WireField::Input)),
        Some(inp) => match translate(inp, cfg) {
            Err(e) => Err(e),
            Ok(child) => Ok(ExecPlan::GlobalLimit { input: Box::new(child), limit: l.limit as usize }),
        },
    }
}

/// Translate a LocalLimit node.
fn translate_local_limit(l: &LocalLimitNode, cfg: &ExecutorConfig) -> (r: Result<
    ExecPlan,
    TranslateError,
>)
    ensures
        res_view(r) == spec_translate_local_limit(*l, *cfg),
    decreases *l,
{
    match &l.input {
        None => Err(TranslateError::MissingField(NodeKind::LocalLimit, WireField::Input)),
        Some(inp) => match translate(inp, cfg) {
            Err(e) => Err(e),
            Ok(child) => Ok(ExecPlan::LocalLimit { input: Box::new(child), limit: l.limit as usize }),
        },
    }
}

/// Translate a HashAggregate node.
fn translate_aggregate(h: &HashAggregateNode, cfg: &ExecutorConfig) -> (r: Result<
    ExecPlan,
    TranslateError,
>)
    ensures
        res_view(r) == spec_translate_aggregate(*h, *cfg),
    decreases *h,
{
    let mode = match decode_aggregate_mode(h.mode) {
        Err(e) => {
            return Err(e);
        },
        Ok(m) => m,
    };
    match &h.input {
        None => Err(TranslateError::MissingField(NodeKind::HashAggregate, WireField::Input)),
        Some(inp) => match translate(inp, cfg) {
            Err(e) => Err(e),
            Ok(child) => match bind_all(&h.group_expr, child.schema()) {
                Err(e) => Err(e),
                Ok(gbound) => match bind_agg_all(&h.aggr_expr, child.schema()) {
                    Err(e) => Err(e),
                    Ok(abound) => {
                        proof {
                            lemma_bind_all_wf(h.group_expr@, spec_plan_schema(child@));
                            lemma_bind_agg_all_wf(h.aggr_expr@, spec_plan_schema(child@));
                            assert forall|i: int| 0 <= i < gbound@.len() implies wf_expr(
                                (#[trigger] gbound@[i])@,
                                spec_plan_schema(child@),
                            ) by {
                                assert(bound_seq_view(gbound@)[i] == gbound@[i]@);
                            }
                            assert forall|i: int| 0 <= i < abound@.len() implies wf_expr(
                                (#[trigger] abound@[i])@.arg,
                                spec_plan_schema(child@),
                            ) by {
                                assert(abound@.map_values(|b: BoundAggregateExpr| b@)[i]
                                    == abound@[i]@);
                            }
                        }
                        let (group_named, mut fields) = named_and_fields(&gbound, child.schema());
                        let mut afields = agg_fields(&abound, child.schema());
                        let ghost gf = fields@;
                        let ghost af = afields@;
                        fields.append(&mut afields);
                        proof {
                            let gs = bound_seq_view(gbound@);
                            let ags = abound@.map_values(|b: BoundAggregateExpr| b@);
                            let in_schema = spec_plan_schema(child@);
                            let spec_g = Seq::new(
                                gs.len(),
                                |i: int| spec_expr_field(gs[i], in_schema),
                            );
                            let spec_a = Seq::new(
                                ags.len(),
                                |i: int| spec_agg_field(ags[i], in_schema),
                            );
                            assert(Seq::new(
                                gs.len(),
                                |i: int| (SpecNamedExpr {
                                    expr: gs[i],
                                    name: spec_output_name(gs[i]),
                                }),
                            ) =~= named_seq_view(group_named@));
                            assert(gf.map_values(|f: Field| f@) =~= spec_g);
                            assert(af.map_values(|f: Field| f@) =~= spec_a);
                            assert(fields@ == gf + af);
                            assert(fields@.map_values(|f: Field| f@) =~= gf.map_values(
                                |f: Field| f@,
                            ) + af.map_values(|f: Field| f@));
                            assert(fields@.map_values(|f: Field| f@) == spec_g + spec_a);
                            assert(agg_seq_view(abound@) == ags);
                        }
                        Ok(
                            ExecPlan::HashAggregate {
                                mode,
                                group: group_named,
                                aggr: abound,
                                input: Box::new(child),
                                schema: Schema { fields },
                            },
                        )
                    },
                },
            },
        },
    }
}

/// Translate a HashJoin node.
fn translate_join(j: &HashJoinNode, cfg: &ExecutorConfig) -> (r: Result<ExecPlan, TranslateError>)
    ensures
        res_view(r) == spec_translate_join(*j, *cfg),
    decreases *j,
{
    let jt = match decode_join_type(j.join_type) {
        Err(e) => {
            return Err(e);
        },
        Ok(t) => t,
    };
    match &j.left {
        None => Err(TranslateError::MissingField(NodeKind::HashJoin, WireField::Left)),
        Some(ln) => match translate(ln, cfg) {
            Err(e) => Err(e),
            Ok(lc) => match &j.right {
                None => Err(TranslateError::MissingField(NodeKind::HashJoin, WireField::Right)),
                Some(rn) => match translate(rn, cfg) {
                    Err(e) => Err(e),
                    Ok(rc) => match check_on_all(&j.on, lc.schema(), rc.schema()) {
                        Err(e) => Err(e),
                        Ok(on) => {
                            let mut fields = clone_fields(&lc.schema().fields);
                            let mut rfields = clone_fields(&rc.schema().fields);
                            fields.append(&mut rfields);
                            proof {
                                lemma_check_on_all_val(
                                    j.on@,
                                    spec_plan_schema(lc@),
                                    spec_plan_schema(rc@),
                                );
                                assert(on_seq_view(on@) == on_seq_view(j.on@));
                                assert(fields@.map_values(|f: Field| f@) =~= spec_plan_schema(lc@)
                                    + spec_plan_schema(rc@));
                            }
                            Ok(
                                ExecPlan::HashJoin {
                                    left: Box::new(lc),
                                    right: Box::new(rc),
                                    on,
                                    join_type: jt,
                                    schema: Schema { fields },
                                },
                            )
                        },
                    },
                },
            },
        },
    }
}

/// Translate a ShuffleReader node.
fn translate_shuffle(s: &ShuffleReaderNode) -> (r: Result<ExecPlan, TranslateError>)
    ensures
        res_view(r) == spec_translate_shuffle(*s),
{
    match &s.schema {
        None => Err(TranslateError::MissingField(NodeKind::ShuffleReader, WireField::Schema)),
        Some(sn) => {
            let schema = decode_schema(sn);
            match decode_locations(&s.partition_location) {
                Err(e) => Err(e),
                Ok(partitions) => Ok(ExecPlan::ShuffleReader { partitions, schema }),
            }
        },
    }
}

/// Translate an Empty node.
fn translate_empty(e: &EmptyNode) -> (r: Result<ExecPlan, TranslateError>)
    ensures
        res_view(r) == spec_translate_empty(*e),
{
    match &e.schema {
        None => Err(TranslateError::MissingField(NodeKind::Empty, WireField::Schema)),
        Some(sn) => Ok(
            ExecPlan::Empty { produce_one_row: e.produce_one_row, schema: decode_schema(sn) },
        ),
    }
}

/// Translate a Sort node.
fn translate_sort(s: &SortNode, cfg: &ExecutorConfig) -> (r: Result<ExecPlan, TranslateError>)
    ensures
        res_view(r) == spec_translate_sort(*s, *cfg),
    decreases *s,
{
    match &s.input {
        None => Err(TranslateError::MissingField(NodeKind::Sort, WireField::Input)),
        Some(inp) => match translate(inp, cfg) {
            Err(e) => Err(e),
            Ok(child) => match bind_sort_all(&s.expr, child.schema()) {
                Err(e) => Err(e),
                Ok(keys) => Ok(
                    ExecPlan::Sort { expr: keys, input: Box::new(child), concurrency: 1 },
                ),
            },
        },
    }
}

/// Rebuild an executable operator tree from one wire plan node: the sole
/// entry point of this layer. Children are translated before their parent
/// (post-order), every embedded expression is bound against the schema of
/// the already-translated child, and any malformed input is reported as a
/// typed error. The call is a pure function of the message and the
/// executor's configuration: it does no I/O, has no side effects, and
/// either returns a whole operator tree or fails atomically.
pub fn translate(node: &PhysicalPlanNode, cfg: &ExecutorConfig) -> (r: Result<
    ExecPlan,
    TranslateError,
>)
    ensures
        res_view(r) == spec_translate(*node, *cfg),
    decreases *node,
{
    match &node.physical_plan_type {
        None => Err(TranslateError::MissingPlanVariant),
        Some(plan) => match plan {
            PhysicalPlanType::Projection(p) => translate_projection(p, cfg),
            PhysicalPlanType::Filter(f) => translate_filter(f, cfg),
            PhysicalPlanType::CsvScan(s) => translate_csv(s, cfg),
            PhysicalPlanType::ParquetScan(s) => translate_parquet(s, cfg),
            PhysicalPlanType::Selection(_) => Err(
                TranslateError::UnsupportedPlan(NodeKind::Selection),
            ),
            PhysicalPlanType::CoalesceBatches(c) => translate_coalesce(c, cfg),
            PhysicalPlanType::GlobalLimit(l) => translate_global_limit(l, cfg),
            PhysicalPlanType::LocalLimit(l) => translate_local_limit(l, cfg),
            PhysicalPlanType::HashAggregate(h) => translate_aggregate(h, cfg),
            PhysicalPlanType::HashJoin(j) => translate_join(j, cfg),
            PhysicalPlanType::ShuffleReader(s) => translate_shuffle(s),
            PhysicalPlanType::Empty(e) => translate_empty(e),
            PhysicalPlanType::Sort(s) => translate_sort(s, cfg),
        },
    }
}

/// A successful projection implies every index was in range and the result
/// is the elementwise pick.
pub proof fn lemma_spec_project_inv(kind: NodeKind, fields: Seq<SpecField>, indices: Seq<u32>)
    ensures
        spec_project(kind, fields, indices) matches Ok(v) ==> (forall|k: int|
            0 <= k < indices.len() ==> (#[trigger] indices[k]) < fields.len()) && v == Seq::new(
            indices.len(),
            |i: int| fields[indices[i] as int],
        ),
    decreases indices.len(),
{
    if indices.len() > 0 && spec_project(kind, fields, indices) is Ok {
        let tail = indices.drop_first();
        lemma_spec_project_inv(kind, fields, tail);
        assert forall|k: int| 0 <= k < indices.len() implies (#[trigger] indices[k])
            < fields.len() by {
            if k > 0 {
                assert(tail[k - 1] == indices[k]);
            }
        }
        let v = spec_project(kind, fields, indices)->Ok_0;
        let tv = spec_project(kind, fields, tail)->Ok_0;
        assert(v == seq![fields[indices[0] as int]] + tv);
        assert(v =~= Seq::new(indices.len(), |i: int| fields[indices[i] as int])) by {
            assert forall|i: int| 0 <= i < indices.len() implies v[i] == fields[indices[i] as int] by {
                if i > 0 {
                    assert(v[i] == tv[i - 1]);
                    assert(tail[i - 1] == indices[i]);
                }
            }
        }
    }
}

/// A successful join-key check implies every pair resolves on its side.
pub proof fn lemma_check_on_all_inv(ps: Seq<JoinOnNode>, left: Seq<SpecField>, right: Seq<SpecField>)
    ensures
        spec_check_on_all(ps, left, right) is Ok ==> forall|i: int|
            0 <= i < ps.len() ==> spec_index_of(left, (#[trigger] ps[i]).left@) is Some
                && spec_index_of(right, ps[i].right@) is Some,
    decreases ps.len(),
{
    if ps.len() > 0 && spec_check_on_all(ps, left, right) is Ok {
        let tail = ps.drop_first();
        lemma_check_on_all_inv(tail, left, right);
        assert forall|i: int| 0 <= i < ps.len() implies spec_index_of(
            left,
            (#[trigger] ps[i]).left@,
        ) is Some && spec_index_of(right, ps[i].right@) is Some by {
            if i > 0 {
                assert(tail[i - 1] == ps[i]);
            }
        }
    }
}

/// Every operator tree that translation yields is well formed: each child
/// is well formed, every bound expression points into its input's schema at
/// the column carrying its name, and every operator's declared schema is
/// exactly the one implied by its children, bound expressions or explicit
/// wire schema.
pub proof fn lemma_translate_wf(node: PhysicalPlanNode, cfg: ExecutorConfig)
    ensures
        spec_translate(node, cfg) matches Ok(p) ==> wf_plan(p),
    decreases node,
{
    match node.physical_plan_type {
        None => {},
        Some(plan) => match plan {
            PhysicalPlanType::Projection(p) => {
                match p.input {
                    None => {},
                    Some(inp) => {
                        lemma_translate_wf(*inp, cfg);
                        match spec_translate(*inp, cfg) {
                            Err(_) => {},
                            Ok(child) => {
                                let in_schema = spec_plan_schema(child);
                                lemma_bind_all_wf(p.expr@, in_schema);
                                match spec_bind_all(p.expr@, in_schema) {
                                    Err(_) => {},
                                    Ok(bs) => {
                                        let named = Seq::new(
                                            bs.len(),
                                            |i: int|
                                                (SpecNamedExpr {
                                                    expr: bs[i],
                                                    name: spec_output_name(bs[i]),
                                                }),
                                        );
                                        let schema = Seq::new(
                                            bs.len(),
                                            |i: int| spec_expr_field(bs[i], in_schema),
                                        );
                                        assert forall|i: int| 0 <= i < named.len() implies wf_expr(
                                            (#[trigger] named[i]).expr,
                                            in_schema,
                                        ) by {
                                            assert(named[i].expr == bs[i]);
                                        }
                                        assert(schema =~= Seq::new(
                                            named.len(),
                                            |i: int|
                                                (SpecField {
                                                    name: named[i].name,
                                                    data_type: crate::binder::spec_expr_type(
                                                        named[i].expr,
                                                        in_schema,
                                                    ),
                                                    nullable: crate::binder::spec_expr_nullable(
                                                        named[i].expr,
                                                        in_schema,
                                                    ),
                                                }),
                                        ));
                                        assert(wf_plan(
                                            SpecPlan::Projection {
                                                expr: named,
                                                input: Box::new(child),
                                                schema,
                                            },
                                        ));
                                    },
                                }
                            },
                        }
                    },
                }
            },
            PhysicalPlanType::Filter(f) => {
                match f.input {
                    None => {},
                    Some(inp) => {
                        lemma_translate_wf(*inp, cfg);
                        match spec_translate(*inp, cfg) {
                            Err(_) => {},
                            Ok(child) => match f.expr {
                                None => {},
                                Some(pred) => {
                                    crate::binder::lemma_bind_wf(pred, spec_plan_schema(child));
                                },
                            },
                        }
                    },
                }
            },
            PhysicalPlanType::CsvScan(scan) => {
                match scan.schema {
                    None => {},
                    Some(sn) => {
                        let file_schema = spec_decode_schema(sn);
                        lemma_spec_project_inv(NodeKind::CsvScan, file_schema, scan.projection@);
                        match spec_project(NodeKind::CsvScan, file_schema, scan.projection@) {
                            Err(_) => {},
                            Ok(proj) => {
                                let projection = scan.projection@.map_values(|x: u32| x as usize);
                                assert forall|i: int| 0 <= i < projection.len() implies (
                                #[trigger] projection[i]) < file_schema.len() by {
                                    assert(projection[i] == scan.projection@[i] as usize);
                                    assert(scan.projection@[i] < file_schema.len());
                                }
                                assert(proj =~= Seq::new(
                                    projection.len(),
                                    |i: int| file_schema[projection[i] as int],
                                )) by {
                                    assert forall|i: int| 0 <= i < projection.len() implies proj[i]
                                        == file_schema[projection[i] as int] by {
                                        assert(projection[i] == scan.projection@[i] as usize);
                                    }
                                }
                            },
                        }
                    },
                }
            },
            PhysicalPlanType::ParquetScan(scan) => {
                match scan.schema {
                    None => {},
                    Some(sn) => {
                        let file_schema = spec_decode_schema(sn);
                        lemma_spec_project_inv(
                            NodeKind::ParquetScan,
                            file_schema,
                            scan.projection@,
                        );
                        match spec_project(NodeKind::ParquetScan, file_schema, scan.projection@) {
                            Err(_) => {},
                            Ok(proj) => {
                                let projection = scan.projection@.map_values(|x: u32| x as usize);
                                assert forall|i: int| 0 <= i < projection.len() implies (
                                #[trigger] projection[i]) < file_schema.len() by {
                                    assert(projection[i] == scan.projection@[i] as usize);
                                    assert(scan.projection@[i] < file_schema.len());
                                }
                                assert(proj =~= Seq::new(
                                    projection.len(),
                                    |i: int| file_schema[projection[i] as int],
                                )) by {
                                    assert forall|i: int| 0 <= i < projection.len() implies proj[i]
                                        == file_schema[projection[i] as int] by {
                                        assert(projection[i] == scan.projection@[i] as usize);
                                    }
                                }
                            },
                        }
                    },
                }
            },
            PhysicalPlanType::Selection(_) => {},
            PhysicalPlanType::CoalesceBatches(c) => {
                match c.input {
                    None => {},
                    Some(inp) => {
                        lemma_translate_wf(*inp, cfg);
                    },
                }
            },
            PhysicalPlanType::GlobalLimit(l) => {
                match l.input {
                    None => {},
                    Some(inp) => {
                        lemma_translate_wf(*inp, cfg);
                    },
                }
            },
            PhysicalPlanType::LocalLimit(l) => {
                match l.input {
                    None => {},
                    Some(inp) => {
                        lemma_translate_wf(*inp, cfg);
                    },
                }
            },
            PhysicalPlanType::HashAggregate(h) => {
                match h.input {
                    None => {},
                    Some(inp) => {
                        lemma_translate_wf(*inp, cfg);
                        match spec_translate(*inp, cfg) {
                            Err(_) => {},
                            Ok(child) => {
                                let in_schema = spec_plan_schema(child);
                                lemma_bind_all_wf(h.group_expr@, in_schema);
                                lemma_bind_agg_all_wf(h.aggr_expr@, in_schema);
                                match spec_bind_all(h.group_expr@, in_schema) {
                                    Err(_) => {},
                                    Ok(gs) => match spec_bind_agg_all(h.aggr_expr@, in_schema) {
                                        Err(_) => {},
                                        Ok(ags) => {
                                            let named = Seq::new(
                                                gs.len(),
                                                |i: int|
                                                    (SpecNamedExpr {
                                                        expr: gs[i],
                                                        name: spec_output_name(gs[i]),
                                                    }),
                                            );
                                            assert forall|i: int|
                                                0 <= i < named.len() implies wf_expr(
                                                (#[trigger] named[i]).expr,
                                                in_schema,
                                            ) by {
                                                assert(named[i].expr == gs[i]);
                                            }
                                            assert(Seq::new(
                                                gs.len(),
                                                |i: int| spec_expr_field(gs[i], in_schema),
                                            ) =~= Seq::new(
                                                named.len(),
                                                |i: int|
                                                    (SpecField {
                                                        name: named[i].name,
                                                        data_type: crate::binder::spec_expr_type(
                                                            named[i].expr,
                                                            in_schema,
                                                        ),
                                                        nullable:
                                                            crate::binder::spec_expr_nullable(
                                                            named[i].expr,
                                                            in_schema,
                                                        ),
                                                    }),
                                            ));
                                        },
                                    },
                                }
                            },
                        }
                    },
                }
            },
            PhysicalPlanType::HashJoin(j) => {
                match j.left {
                    None => {},
                    Some(ln) => {
                        lemma_translate_wf(*ln, cfg);
                        match spec_translate(*ln, cfg) {
                            Err(_) => {},
                            Ok(lc) => match j.right {
                                None => {},
                                Some(rn) => {
                                    lemma_translate_wf(*rn, cfg);
                                    match spec_translate(*rn, cfg) {
                                        Err(_) => {},
                                        Ok(rc) => {
                                            let ls = spec_plan_schema(lc);
                                            let rs = spec_plan_schema(rc);
                                            lemma_check_on_all_inv(j.on@, ls, rs);
                                            if spec_check_on_all(j.on@, ls, rs) is Ok {
                                                let on = on_seq_view(j.on@);
                                                assert forall|i: int|
                                                    0 <= i < on.len() implies spec_index_of(
                                                    ls,
                                                    (#[trigger] on[i]).left,
                                                ) is Some && spec_index_of(
                                                    rs,
                                                    on[i].right,
                                                ) is Some by {
                                                    assert(on[i] == j.on@[i]@);
                                                }
                                            }
                                        },
                                    }
                                },
                            },
                        }
                    },
                }
            },
            PhysicalPlanType::ShuffleReader(_) => {},
            PhysicalPlanType::Empty(_) => {},
            PhysicalPlanType::Sort(s) => {
                match s.input {
                    None => {},
                    Some(inp) => {
                        lemma_translate_wf(*inp, cfg);
                        match spec_translate(*inp, cfg) {
                            Err(_) => {},
                            Ok(child) => {
                                lemma_bind_sort_all_wf(s.expr@, spec_plan_schema(child));
                            },
                        }
                    },
                }
            },
        },
    }
}

/// A node with an explicit embedded schema declares exactly its decode: an
/// Empty or ShuffleReader operator's schema is the decoded wire schema, and
/// a scan's is the projected part of its decoded file schema.
pub proof fn lemma_explicit_schema(node: PhysicalPlanNode, cfg: ExecutorConfig)
    ensures
        spec_translate(node, cfg) matches Ok(p) ==> match node.physical_plan_type {
            Some(PhysicalPlanType::Empty(e)) => e.schema matches Some(sn) && spec_plan_schema(p)
                == spec_decode_schema(sn),
            Some(PhysicalPlanType::ShuffleReader(s)) => s.schema matches Some(sn)
                && spec_plan_schema(p) == spec_decode_schema(sn),
            Some(PhysicalPlanType::CsvScan(scan)) => scan.schema matches Some(sn)
                && spec_project(NodeKind::CsvScan, spec_decode_schema(sn), scan.projection@)
                == Ok::<Seq<SpecField>, SpecError>(spec_plan_schema(p)),
            Some(PhysicalPlanType::ParquetScan(scan)) => scan.schema matches Some(sn)
                && spec_project(NodeKind::ParquetScan, spec_decode_schema(sn), scan.projection@)
                == Ok::<Seq<SpecField>, SpecError>(spec_plan_schema(p)),
            _ => true,
        },
{
}

/// A wire node with no active variant tag translates to nothing but the
/// missing-variant error: no operator is constructed.
pub proof fn lemma_missing_variant(node: PhysicalPlanNode, cfg: ExecutorConfig)
    ensures
        node.physical_plan_type is None ==> spec_translate(node, cfg) == Err::<
            SpecPlan,
            SpecError,
        >(SpecError::MissingPlanVariant),
{
}

/// A Projection, Filter or Sort node whose input child is absent fails with
/// a missing-required-field error naming the input.
pub proof fn lemma_missing_input(node: PhysicalPlanNode, cfg: ExecutorConfig)
    ensures
        node.physical_plan_type matches Some(PhysicalPlanType::Projection(p)) && p.input is None
            ==> spec_translate(node, cfg) == Err::<SpecPlan, SpecError>(
            SpecError::MissingField(NodeKind::Projection, WireField::Input),
        ),
        node.physical_plan_type matches Some(PhysicalPlanType::Filter(f)) && f.input is None
            ==> spec_translate(node, cfg) == Err::<SpecPlan, SpecError>(
            SpecError::MissingField(NodeKind::Filter, WireField::Input),
        ),
        node.physical_plan_type matches Some(PhysicalPlanType::Sort(s)) && s.input is None
            ==> spec_translate(node, cfg) == Err::<SpecPlan, SpecError>(
            SpecError::MissingField(NodeKind::Sort, WireField::Input),
        ),
{
}

/// A HashAggregate node's mode code decides translation before anything
/// else: a code outside the two known ones fails with the unknown-enum
/// error carrying that code, whatever the rest of the message holds; the
/// known codes map deterministically onto the two modes.
pub proof fn lemma_aggregate_mode_codes(node: PhysicalPlanNode, cfg: ExecutorConfig)
    ensures
        node.physical_plan_type matches Some(PhysicalPlanType::HashAggregate(h)) ==> (h.mode != 0
            && h.mode != 1 ==> spec_translate(node, cfg) == Err::<SpecPlan, SpecError>(
            SpecError::UnknownAggregateMode(h.mode),
        )),
        node.physical_plan_type matches Some(PhysicalPlanType::HashAggregate(h)) ==> match
            spec_translate(node, cfg) {
            Ok(p) => p matches SpecPlan::HashAggregate { mode, .. } && mode == (if h.mode == 0 {
                AggregateMode::Partial
            } else {
                AggregateMode::Final
            }),
            Err(_) => true,
        },
{
}

/// A HashJoin node's join-type code decides translation before anything
/// else: a code outside the three known ones fails with the unknown-enum
/// error carrying that code, whatever the rest of the message holds; the
/// known codes map deterministically onto the three join types.
pub proof fn lemma_join_type_codes(node: PhysicalPlanNode, cfg: ExecutorConfig)
    ensures
        node.physical_plan_type matches Some(PhysicalPlanType::HashJoin(j)) ==> (j.join_type != 0
            && j.join_type != 1 && j.join_type != 2 ==> spec_translate(node, cfg) == Err::<
            SpecPlan,
            SpecError,
        >(SpecError::UnknownJoinType(j.join_type))),
        node.physical_plan_type matches Some(PhysicalPlanType::HashJoin(j)) ==> match
            spec_translate(node, cfg) {
            Ok(p) => p matches SpecPlan::HashJoin { join_type, .. } && join_type == (if j.join_type
                == 0 {
                JoinType::Inner
            } else if j.join_type == 1 {
                JoinType::Left
            } else {
                JoinType::Right
            }),
            Err(_) => true,
        },
{
}

/// Translation is a pure function of the wire message and the executor
/// configuration: two independent translations of the same node yield
/// results with equal structure, and when they succeed, operators with
/// identical schemas. There is no shared state between calls.
pub proof fn lemma_translate_deterministic(
    node: PhysicalPlanNode,
    cfg: ExecutorConfig,
    r1: Result<ExecPlan, TranslateError>,
    r2: Result<ExecPlan, TranslateError>,
)
    requires
        res_view(r1) == spec_translate(node, cfg),
        res_view(r2) == spec_translate(node, cfg),
    ensures
        res_view(r1) == res_view(r2),
        r1 matches Ok(p1) ==> r2 matches Ok(p2) && p1@ == p2@ && spec_plan_schema(p1@)
            == spec_plan_schema(p2@),
{
}

} // verus!
