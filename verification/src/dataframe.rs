use vstd::prelude::*;
use polars::prelude::{Column, DataFrame, Expr, LazyFrame, LazyGroupBy};
use crate::backend;
use crate::engine::{Engine, Table};
use crate::execution::{
    execute_expr_ops, expr_program, lemma_expr_program_codes, ExecutionContext,
};
use crate::expr::{column_exprs, columns_of};
use crate::io::{read_csv_step, read_parquet_step};
use crate::opcodes::{
    ContextType, JoinKind, NullsOrdering, OpArgs, OpCode, Operation, PolarsHandle,
    SortDirection, SortField,
};
use crate::{
    installed, raw_str_array_outcome, raw_str_array_to_vec, string_views, FfiResult, RawStr,
    ERROR_INVALID_UTF8, ERROR_NULL_ARGS, ERROR_NULL_HANDLE, ERROR_POLARS_OPERATION,
};

verus! {

/// Arguments of a projection: the names of the columns to keep. The array
/// may be absent.
pub struct SelectArgs {
    pub columns: Option<Vec<RawStr>>,
}

/// Arguments of a grouping: the names of the key columns. The array may be
/// absent.
pub struct GroupByArgs {
    pub columns: Option<Vec<RawStr>>,
}

/// Arguments of a concatenation: the handles of the frames to stack, the
/// first on top. The array may be absent.
pub struct ConcatArgs {
    pub handles: Option<Vec<usize>>,
}

/// Arguments of a filter: the expression operations that build the
/// predicate. The array may be absent.
pub struct FilterExprArgs {
    pub expr_ops: Option<Vec<Operation>>,
}

/// What a frame operation does, as far as its inputs decide.
pub enum FrameStep {
    /// The engine refuses the operation with this error code.
    Refuse(i32),
    /// The engine refuses the operation because the table is grouped: as a
    /// failed operation, with the advice to resolve the grouping.
    RefuseGrouped,
    /// The operation succeeds, and its result is this object.
    Install(Table),
    /// The operation succeeds, and its result is an object of this kind.
    Produce(ContextType),
    /// The columnar library decides: it fails, or the result is this object.
    Try(Table),
    /// The columnar library is handed this plan to run: it fails, or the
    /// result is a frame.
    Run(LazyFrame),
    /// The SQL engine is asked this statement over these tables, each under
    /// its name: it fails, or the result is a plan.
    Ask(Map<Seq<char>, LazyFrame>, Seq<char>),
    /// The operation fails with one of these codes or its result is one of
    /// these objects.
    Among(Set<i32>, Set<Table>),
}

/// The advice that every refusal on a grouped plan gives.
pub open spec fn grouped_advice() -> Seq<char> {
    "Operation is not allowed on grouped data. Call agg() first to resolve grouping."@
}

/// An answer and an engine agree with a frame operation. On failure the
/// handle is zero and the engine owns what it owned. On success the engine
/// owns one object more, under the handle of the answer, which is not zero
/// and named nothing before.
pub open spec fn frame_outcome(
    pre: Map<usize, Table>,
    post: Map<usize, Table>,
    r: FfiResult,
    step: FrameStep,
) -> bool {
    match step {
        FrameStep::Refuse(code) => r.is_failure(code) && post == pre,
        FrameStep::RefuseGrouped => r.is_error(ERROR_POLARS_OPERATION, grouped_advice()) && post
            == pre,
        FrameStep::Install(table) => installed(pre, post, r, table),
        FrameStep::Produce(kind) => exists|table: Table|
            table.kind() == kind && #[trigger] installed(pre, post, r, table),
        FrameStep::Try(table) => (r.is_failure(ERROR_POLARS_OPERATION) && post == pre)
            || installed(pre, post, r, table),
        FrameStep::Run(_) => (r.is_failure(ERROR_POLARS_OPERATION) && post == pre) || (
        exists|table: Table| table is Frame && #[trigger] installed(pre, post, r, table)),
        FrameStep::Ask(_, _) => (r.is_failure(ERROR_POLARS_OPERATION) && post == pre) || (
        exists|table: Table| table is Plan && #[trigger] installed(pre, post, r, table)),
        FrameStep::Among(codes, tables) => (codes.contains(r.error_code) && r.is_failure(
            r.error_code,
        ) && post == pre) || (exists|table: Table|
            tables.contains(table) && #[trigger] installed(pre, post, r, table)),
    }
}

/// The refusal of a handle that stands for no plan: a grouped plan is
/// refused with the advice to resolve the grouping, anything else with the
/// code alone.
pub open spec fn source_refusal(handle: PolarsHandle, code: i32) -> FrameStep {
    if handle.handle != 0 && handle.get_context_type() == Some(ContextType::LazyGroupBy) {
        FrameStep::RefuseGrouped
    } else {
        FrameStep::Refuse(code)
    }
}

/// An answer is the refusal that a step asks for.
pub open spec fn refused(r: FfiResult, step: FrameStep) -> bool {
    match step {
        FrameStep::Refuse(code) => r.is_failure(code),
        FrameStep::RefuseGrouped => r.is_error(ERROR_POLARS_OPERATION, grouped_advice()),
        _ => false,
    }
}

/// The frame that a handle names, if it names one.
pub open spec fn frame_at(tables: Map<usize, Table>, handle: usize) -> Option<DataFrame> {
    if tables.dom().contains(handle) && tables[handle] is Frame {
        Some(tables[handle]->Frame_0)
    } else {
        None
    }
}

/// The plan that a handle names, if it names one.
pub open spec fn plan_at(tables: Map<usize, Table>, handle: usize) -> Option<LazyFrame> {
    if tables.dom().contains(handle) && tables[handle] is Plan {
        Some(tables[handle]->Plan_0)
    } else {
        None
    }
}

/// The grouped plan that a handle names, if it names one.
pub open spec fn grouped_at(tables: Map<usize, Table>, handle: usize) -> Option<LazyGroupBy> {
    if tables.dom().contains(handle) && tables[handle] is Grouped {
        Some(tables[handle]->Grouped_0)
    } else {
        None
    }
}

/// The plan that a handle stands for as input of a deferred operation: the
/// plan it names, or the plan that yields the frame it names. A handle that
/// is zero or names no object of its tag's kind is a null handle; a tag that
/// names no kind, and the tag of a grouped plan, are failures of the
/// operation.
pub open spec fn source_plan(tables: Map<usize, Table>, handle: PolarsHandle) -> Result<
    LazyFrame,
    i32,
> {
    if handle.handle == 0 {
        Err(ERROR_NULL_HANDLE)
    } else {
        match handle.get_context_type() {
            None => Err(ERROR_POLARS_OPERATION),
            Some(ContextType::LazyGroupBy) => Err(ERROR_POLARS_OPERATION),
            Some(ContextType::DataFrame) => match frame_at(tables, handle.handle) {
                Some(frame) => Ok(backend::frame_plan(frame)),
                None => Err(ERROR_NULL_HANDLE),
            },
            Some(ContextType::LazyFrame) => match plan_at(tables, handle.handle) {
                Some(plan) => Ok(plan),
                None => Err(ERROR_NULL_HANDLE),
            },
        }
    }
}

/// The view of an array that may be absent.
pub open spec fn array_view<T>(array: Option<Vec<T>>) -> Option<Seq<T>> {
    match array {
        Some(v) => Some(v@),
        None => None,
    }
}

/// The failure for a handle that is zero.
fn null_handle() -> (r: FfiResult)
    ensures
        r.is_error(ERROR_NULL_HANDLE, "Handle cannot be null"@),
{
    FfiResult::error(ERROR_NULL_HANDLE, "Handle cannot be null")
}

/// The failure for a handle that names no object of its tag's kind.
fn stale_handle() -> (r: FfiResult)
    ensures
        r.is_error(ERROR_NULL_HANDLE, "Handle does not name an object of its kind"@),
{
    FfiResult::error(ERROR_NULL_HANDLE, "Handle does not name an object of its kind")
}

/// The failure for a tag that names no kind.
fn invalid_context() -> (r: FfiResult)
    ensures
        r.is_error(ERROR_POLARS_OPERATION, "Invalid context type"@),
{
    FfiResult::error(ERROR_POLARS_OPERATION, "Invalid context type")
}

/// The failure for arguments that are not those of the operation.
fn wrong_args() -> (r: FfiResult)
    ensures
        r.is_failure(ERROR_NULL_ARGS),
{
    FfiResult::error(ERROR_NULL_ARGS, "Operation arguments are missing or of another operation")
}

/// The failure that passes on an error of the columnar library.
fn backend_failure(error: &polars::prelude::PolarsError) -> (r: FfiResult)
    ensures
        r.is_failure(ERROR_POLARS_OPERATION),
{
    let text = backend::error_text(error);
    FfiResult::error(ERROR_POLARS_OPERATION, text.as_str())
}

/// Borrows the frame that a handle names.
pub(crate) fn frame_ref(engine: &Engine, handle: usize) -> (r: Option<&DataFrame>)
    ensures
        match frame_at(engine@, handle) {
            Some(frame) => r matches Some(f) && *f == frame,
            None => r is None,
        },
{
    match engine.get(handle) {
        Some(Table::Frame(df)) => Some(df),
        _ => None,
    }
}

/// The refusal of an operation on a grouped plan.
fn grouped_refusal() -> (r: FfiResult)
    ensures
        r.is_error(ERROR_POLARS_OPERATION, grouped_advice()),
{
    FfiResult::error(
        ERROR_POLARS_OPERATION,
        "Operation is not allowed on grouped data. Call agg() first to resolve grouping.",
    )
}

/// Builds the plan that a handle stands for as input of a deferred
/// operation.
fn lazy_input(engine: &Engine, handle: PolarsHandle) -> (r: Result<LazyFrame, FfiResult>)
    ensures
        match source_plan(engine@, handle) {
            Ok(plan) => r matches Ok(p) && p == plan,
            Err(code) => r matches Err(f) && refused(f, source_refusal(handle, code)),
        },
{
    if handle.handle == 0 {
        return Err(null_handle());
    }
    let context_type = match handle.get_context_type() {
        Some(ct) => ct,
        None => {
            return Err(invalid_context());
        },
    };
    match context_type {
        ContextType::DataFrame => match engine.get(handle.handle) {
            Some(Table::Frame(df)) => Ok(backend::plan_of(df)),
            _ => Err(stale_handle()),
        },
        ContextType::LazyFrame => match engine.get(handle.handle) {
            Some(Table::Plan(lf)) => Ok(backend::copy_plan(lf)),
            _ => Err(stale_handle()),
        },
        ContextType::LazyGroupBy => Err(grouped_refusal()),
    }
}

/// Creating an empty frame: it always succeeds.
pub open spec fn new_empty_step() -> FrameStep {
    FrameStep::Produce(ContextType::DataFrame)
}

/// Creates an empty frame. The current handle plays no part.
pub fn dispatch_new_empty(engine: &mut Engine) -> (r: FfiResult)
    ensures
        frame_outcome(old(engine)@, final(engine)@, r, new_empty_step()),
        frame_at(final(engine)@, r.polars_handle.handle) matches Some(frame)
            && backend::frame_height(frame) == 0 && backend::frame_width(frame) == 0,
{
    let df = backend::empty_frame();
    let r = FfiResult::success(engine, df);
    assert(installed(old(engine)@, engine@, r, Table::Frame(df)));
    r
}

/// Projecting to named columns: the handle has to be live, the names have to
/// be there and be UTF-8, and the table must not be grouped.
pub open spec fn select_step(tables: Map<usize, Table>, handle: PolarsHandle, args: OpArgs) -> FrameStep {
    if handle.handle == 0 {
        FrameStep::Refuse(ERROR_NULL_HANDLE)
    } else {
        match args {
            OpArgs::Select(a) => match raw_str_array_outcome(array_view(a.columns)) {
                Err(e) => FrameStep::Refuse(e.code_spec()),
                Ok(names) => match source_plan(tables, handle) {
                    Err(code) => source_refusal(handle, code),
                    Ok(plan) => FrameStep::Install(
                        Table::Plan(backend::select_plan(plan, column_exprs(names))),
                    ),
                },
            },
            _ => FrameStep::Refuse(ERROR_NULL_ARGS),
        }
    }
}

/// Projects the table to the columns named in the arguments.
pub fn dispatch_select(engine: &mut Engine, handle: PolarsHandle, context: &ExecutionContext) -> (r:
    FfiResult)
    ensures
        frame_outcome(
            old(engine)@,
            final(engine)@,
            r,
            select_step(old(engine)@, handle, *context.operation_args),
        ),
{
    if handle.handle == 0 {
        return null_handle();
    }
    let args = match context.operation_args {
        OpArgs::Select(a) => a,
        _ => {
            return wrong_args();
        },
    };
    let columns = match raw_str_array_to_vec(args.columns.as_ref()) {
        Ok(cols) => cols,
        Err(e) => {
            return FfiResult::error(e.code(), e.message());
        },
    };
    let exprs = columns_of(&columns);
    let plan = match lazy_input(engine, handle) {
        Ok(p) => p,
        Err(failure) => {
            return failure;
        },
    };
    FfiResult::success_lazy(engine, backend::selected(plan, exprs))
}

/// Grouping by named columns: as for a projection, and the result is a
/// grouped plan.
pub open spec fn group_by_step(tables: Map<usize, Table>, handle: PolarsHandle, args: OpArgs) -> FrameStep {
    if handle.handle == 0 {
        FrameStep::Refuse(ERROR_NULL_HANDLE)
    } else {
        match args {
            OpArgs::GroupBy(a) => match raw_str_array_outcome(array_view(a.columns)) {
                Err(e) => FrameStep::Refuse(e.code_spec()),
                Ok(names) => match source_plan(tables, handle) {
                    Err(code) => source_refusal(handle, code),
                    Ok(plan) => FrameStep::Install(
                        Table::Grouped(backend::group_by_plan(plan, column_exprs(names))),
                    ),
                },
            },
            _ => FrameStep::Refuse(ERROR_NULL_ARGS),
        }
    }
}

/// Partitions the table by the columns named in the arguments. Nothing is
/// aggregated: the grouping waits for its aggregations.
pub fn dispatch_group_by(engine: &mut Engine, handle: PolarsHandle, context: &ExecutionContext) -> (r:
    FfiResult)
    ensures
        frame_outcome(
            old(engine)@,
            final(engine)@,
            r,
            group_by_step(old(engine)@, handle, *context.operation_args),
        ),
{
    if handle.handle == 0 {
        return null_handle();
    }
    let args = match context.operation_args {
        OpArgs::GroupBy(a) => a,
        _ => {
            return wrong_args();
        },
    };
    let group_columns = match raw_str_array_to_vec(args.columns.as_ref()) {
        Ok(cols) => cols,
        Err(e) => {
            return FfiResult::error(e.code(), e.message());
        },
    };
    let keys = columns_of(&group_columns);
    let plan = match lazy_input(engine, handle) {
        Ok(p) => p,
        Err(failure) => {
            return failure;
        },
    };
    FfiResult::success_lazy_group_by(engine, backend::grouped_by(plan, keys))
}

/// An operation that consumes the pending expressions leaves none on
/// success, and leaves them alone on failure.
pub open spec fn drained(pre: ExecutionContext, post: ExecutionContext, r: FfiResult) -> bool {
    &&& post.operation_args == pre.operation_args
    &&& post.expr_stack@ == if r.error_code == 0 {
        Seq::<Expr>::empty()
    } else {
        pre.expr_stack@
    }
}

/// Resolving a grouping: the handle has to name a grouped plan, and there
/// have to be pending expressions, which become the aggregations.
pub open spec fn agg_step(tables: Map<usize, Table>, handle: PolarsHandle, stack: Seq<Expr>) -> FrameStep {
    if handle.handle == 0 {
        FrameStep::Refuse(ERROR_NULL_HANDLE)
    } else if handle.get_context_type() != Some(ContextType::LazyGroupBy) {
        FrameStep::Refuse(ERROR_POLARS_OPERATION)
    } else if stack.len() == 0 {
        FrameStep::Refuse(ERROR_POLARS_OPERATION)
    } else {
        match grouped_at(tables, handle.handle) {
            None => FrameStep::Refuse(ERROR_NULL_HANDLE),
            Some(grouped) => FrameStep::Install(Table::Plan(backend::agg_plan(grouped, stack))),
        }
    }
}

/// Moves the pending expressions out of a context.
fn take_stack(context: &mut ExecutionContext) -> (exprs: Vec<Expr>)
    ensures
        exprs@ == old(context).expr_stack@,
        final(context).expr_stack@ == Seq::<Expr>::empty(),
        final(context).operation_args == old(context).operation_args,
{
    let mut exprs: Vec<Expr> = Vec::new();
    std::mem::swap(&mut context.expr_stack, &mut exprs);
    exprs
}

/// Resolves a grouping with the pending expressions as aggregations.
pub fn dispatch_agg(engine: &mut Engine, handle: PolarsHandle, context: &mut ExecutionContext) -> (r:
    FfiResult)
    ensures
        frame_outcome(
            old(engine)@,
            final(engine)@,
            r,
            agg_step(old(engine)@, handle, old(context).expr_stack@),
        ),
        drained(*old(context), *final(context), r),
{
    if handle.handle == 0 {
        return null_handle();
    }
    let context_type = match handle.get_context_type() {
        Some(ct) => ct,
        None => {
            return invalid_context();
        },
    };
    if context_type != ContextType::LazyGroupBy {
        return FfiResult::error(
            ERROR_POLARS_OPERATION,
            "Agg() can only be called on LazyGroupBy. Use GroupBy() first.",
        );
    }
    if context.expr_stack.len() == 0 {
        return FfiResult::error(ERROR_POLARS_OPERATION, "No expressions available for aggregation");
    }
    let grouped = match engine.get(handle.handle) {
        Some(Table::Grouped(g)) => backend::copy_grouped(g),
        _ => {
            return stale_handle();
        },
    };
    let agg_exprs = take_stack(context);
    FfiResult::success_lazy(engine, backend::aggregated(grouped, agg_exprs))
}

/// The keys of a sort as the columnar library takes them: the names, and
/// for each whether it is descending and whether its nulls come last.
pub open spec fn sort_keys(fields: Seq<SortField>, n: nat) -> Result<
    (Seq<Seq<char>>, Seq<bool>, Seq<bool>),
    i32,
>
    decreases n,
{
    if n == 0 {
        Ok((Seq::empty(), Seq::empty(), Seq::empty()))
    } else {
        match sort_keys(fields, (n - 1) as nat) {
            Err(code) => Err(code),
            Ok(keys) => {
                let field = fields[n - 1];
                if !field.column.is_text() {
                    Err(ERROR_INVALID_UTF8)
                } else {
                    match (
                        SortDirection::from_u32(field.direction),
                        NullsOrdering::from_u32(field.nulls_ordering),
                    ) {
                        (Some(direction), Some(nulls)) => Ok(
                            (
                                keys.0.push(field.column.text()),
                                keys.1.push(direction == SortDirection::Descending),
                                keys.2.push(nulls == NullsOrdering::Last),
                            ),
                        ),
                        _ => Err(ERROR_NULL_ARGS),
                    }
                }
            },
        }
    }
}

/// Keys that are refused within the first `k` fields are refused in the same
/// way when more fields follow.
pub proof fn lemma_sort_keys_failure_stays(fields: Seq<SortField>, k: nat, n: nat)
    requires
        k <= n,
        sort_keys(fields, k) is Err,
    ensures
        sort_keys(fields, n) == sort_keys(fields, k),
    decreases n,
{
    if k < n {
        lemma_sort_keys_failure_stays(fields, k, (n - 1) as nat);
    }
}

/// The codes with which sort keys are refused are error codes.
pub proof fn lemma_sort_keys_codes(fields: Seq<SortField>, n: nat)
    ensures
        sort_keys(fields, n) matches Err(code) ==> 2 <= code <= 3,
    decreases n,
{
    if n > 0 {
        lemma_sort_keys_codes(fields, (n - 1) as nat);
    }
}

/// Sorting: the handle has to be live, there has to be a key, every key has
/// to name its column in UTF-8 and carry a known direction and place for
/// nulls. A frame is sorted at once, by the keys in order, each with its own
/// direction and place for nulls, which the columnar library may refuse; a
/// plan is extended by the same sort. Rows with equal keys keep their order.
pub open spec fn sort_step(tables: Map<usize, Table>, handle: PolarsHandle, args: OpArgs) -> FrameStep {
    if handle.handle == 0 {
        FrameStep::Refuse(ERROR_NULL_HANDLE)
    } else {
        match (handle.get_context_type(), args) {
            (None, _) => FrameStep::Refuse(ERROR_POLARS_OPERATION),
            (Some(kind), OpArgs::Sort(a)) => if a.fields@.len() == 0 {
                FrameStep::Refuse(ERROR_NULL_ARGS)
            } else {
                match sort_keys(a.fields@, a.fields@.len()) {
                    Err(code) => FrameStep::Refuse(code),
                    Ok(keys) => match kind {
                        ContextType::DataFrame => match frame_at(tables, handle.handle) {
                            Some(frame) => match backend::sort_frame(
                                frame,
                                keys.0,
                                keys.1,
                                keys.2,
                                true,
                            ) {
                                Some(sorted) => FrameStep::Install(Table::Frame(sorted)),
                                None => FrameStep::Refuse(ERROR_POLARS_OPERATION),
                            },
                            None => FrameStep::Refuse(ERROR_NULL_HANDLE),
                        },
                        ContextType::LazyFrame => match plan_at(tables, handle.handle) {
                            Some(plan) => FrameStep::Install(
                                Table::Plan(
                                    backend::sort_plan(plan, keys.0, keys.1, keys.2, true),
                                ),
                            ),
                            None => FrameStep::Refuse(ERROR_NULL_HANDLE),
                        },
                        ContextType::LazyGroupBy => FrameStep::RefuseGrouped,
                    },
                }
            },
            (Some(_), _) => FrameStep::Refuse(ERROR_NULL_ARGS),
        }
    }
}

/// Sorts the table by the keys of the arguments.
#[verifier::loop_isolation(false)]
pub fn dispatch_sort(engine: &mut Engine, handle: PolarsHandle, context: &ExecutionContext) -> (r:
    FfiResult)
    ensures
        frame_outcome(
            old(engine)@,
            final(engine)@,
            r,
            sort_step(old(engine)@, handle, *context.operation_args),
        ),
{
    if handle.handle == 0 {
        return null_handle();
    }
    let context_type = match handle.get_context_type() {
        Some(ct) => ct,
        None => {
            return invalid_context();
        },
    };
    let args = match context.operation_args {
        OpArgs::Sort(a) => a,
        _ => {
            return wrong_args();
        },
    };
    if args.fields.len() == 0 {
        return FfiResult::error(ERROR_NULL_ARGS, "Sort requires at least one field");
    }
    let mut columns: Vec<String> = Vec::new();
    let mut descending: Vec<bool> = Vec::new();
    let mut nulls_last: Vec<bool> = Vec::new();
    let mut i: usize = 0;
    assert(string_views(columns@) =~= Seq::<Seq<char>>::empty());
    while i < args.fields.len()
        invariant
            i <= args.fields@.len(),
            columns@.len() == i,
            descending@.len() == i,
            nulls_last@.len() == i,
            sort_keys(args.fields@, i as nat) == Ok::<(Seq<Seq<char>>, Seq<bool>, Seq<bool>), i32>(
                (string_views(columns@), descending@, nulls_last@),
            ),
        decreases args.fields@.len() - i,
    {
        let field = &args.fields[i];
        let ghost before = string_views(columns@);
        let column_name = match field.column.as_str() {
            Ok(name) => name.to_owned(),
            Err(_) => {
                proof {
                    lemma_sort_keys_failure_stays(
                        args.fields@,
                        (i + 1) as nat,
                        args.fields@.len(),
                    );
                }
                return FfiResult::error(ERROR_INVALID_UTF8, "Invalid UTF-8 in column name");
            },
        };
        let (direction, nulls) = match (
            SortDirection::from_u32(field.direction),
            NullsOrdering::from_u32(field.nulls_ordering),
        ) {
            (Some(d), Some(n)) => (d, n),
            _ => {
                proof {
                    lemma_sort_keys_failure_stays(
                        args.fields@,
                        (i + 1) as nat,
                        args.fields@.len(),
                    );
                }
                return FfiResult::error(
                    ERROR_NULL_ARGS,
                    "Sort field has an unknown direction or nulls ordering",
                );
            },
        };
        columns.push(column_name);
        descending.push(direction == SortDirection::Descending);
        nulls_last.push(nulls == NullsOrdering::Last);
        assert(string_views(columns@) =~= before.push(field.column.text()));
        i += 1;
    }
    match context_type {
        ContextType::DataFrame => {
            let sorted = match frame_ref(engine, handle.handle) {
                Some(df) => backend::sorted_frame(df, columns, descending, nulls_last, true),
                None => {
                    return stale_handle();
                },
            };
            match sorted {
                Ok(result) => FfiResult::success(engine, result),
                Err(e) => backend_failure(&e),
            }
        },
        ContextType::LazyFrame => {
            let plan = match engine.get(handle.handle) {
                Some(Table::Plan(lf)) => backend::copy_plan(lf),
                _ => {
                    return stale_handle();
                },
            };
            FfiResult::success_lazy(
                engine,
                backend::sorted_plan(plan, columns, descending, nulls_last, true),
            )
        },
        ContextType::LazyGroupBy => grouped_refusal(),
    }
}

/// The row count that a plan is cut to: the count asked for, or the largest
/// count a plan can carry where that is less.
pub open spec fn limit_rows(n: usize) -> u32 {
    if n > u32::MAX {
        u32::MAX
    } else {
        n as u32
    }
}

/// Limiting: the handle has to be live and the count must not be zero. A
/// frame is cut at once, a plan is extended.
pub open spec fn limit_step(tables: Map<usize, Table>, handle: PolarsHandle, args: OpArgs) -> FrameStep {
    if handle.handle == 0 {
        FrameStep::Refuse(ERROR_NULL_HANDLE)
    } else {
        match (handle.get_context_type(), args) {
            (None, _) => FrameStep::Refuse(ERROR_POLARS_OPERATION),
            (Some(kind), OpArgs::Limit(a)) => if a.n == 0 {
                FrameStep::Refuse(ERROR_NULL_ARGS)
            } else {
                match kind {
                    ContextType::DataFrame => match frame_at(tables, handle.handle) {
                        Some(frame) => FrameStep::Install(
                            Table::Frame(backend::head_frame(frame, a.n)),
                        ),
                        None => FrameStep::Refuse(ERROR_NULL_HANDLE),
                    },
                    ContextType::LazyFrame => match plan_at(tables, handle.handle) {
                        Some(plan) => FrameStep::Install(
                            Table::Plan(backend::limit_plan(plan, limit_rows(a.n))),
                        ),
                        None => FrameStep::Refuse(ERROR_NULL_HANDLE),
                    },
                    ContextType::LazyGroupBy => FrameStep::RefuseGrouped,
                }
            },
            (Some(_), _) => FrameStep::Refuse(ERROR_NULL_ARGS),
        }
    }
}

/// Keeps the leading rows of the table, as many as the arguments say.
pub fn dispatch_limit(engine: &mut Engine, handle: PolarsHandle, context: &ExecutionContext) -> (r:
    FfiResult)
    ensures
        frame_outcome(
            old(engine)@,
            final(engine)@,
            r,
            limit_step(old(engine)@, handle, *context.operation_args),
        ),
        r.error_code == 0 && handle.get_context_type() == Some(ContextType::DataFrame) ==> (
        context.operation_args matches OpArgs::Limit(a) && frame_at(
            old(engine)@,
            handle.handle,
        ) matches Some(frame) && frame_at(final(engine)@, r.polars_handle.handle) matches Some(
            cut,
        ) && backend::frame_height(cut) == if a.n <= backend::frame_height(frame) {
            a.n as nat
        } else {
            backend::frame_height(frame)
        }),
{
    if handle.handle == 0 {
        return null_handle();
    }
    let context_type = match handle.get_context_type() {
        Some(ct) => ct,
        None => {
            return invalid_context();
        },
    };
    let args = match context.operation_args {
        OpArgs::Limit(a) => a,
        _ => {
            return wrong_args();
        },
    };
    if args.n == 0 {
        return FfiResult::error(ERROR_NULL_ARGS, "Limit must be greater than 0");
    }
    match context_type {
        ContextType::DataFrame => {
            let limited_df = match frame_ref(engine, handle.handle) {
                Some(df) => backend::head_of(df, args.n),
                None => {
                    return stale_handle();
                },
            };
            FfiResult::success(engine, limited_df)
        },
        ContextType::LazyFrame => {
            let plan = match engine.get(handle.handle) {
                Some(Table::Plan(lf)) => backend::copy_plan(lf),
                _ => {
                    return stale_handle();
                },
            };
            let rows: u32 = if args.n > u32::MAX as usize {
                u32::MAX
            } else {
                args.n as u32
            };
            FfiResult::success_lazy(engine, backend::limited(plan, rows))
        },
        ContextType::LazyGroupBy => grouped_refusal(),
    }
}

/// The plans that select, of a plan, the number of rows under the name
/// `count` and nothing else.
pub open spec fn counted_plans(plan: LazyFrame) -> Set<Table> {
    Set::new(
        |table: Table|
            exists|rows: Expr| #[trigger]
                backend::counts_rows(rows) && table == Table::Plan(
                    backend::select_plan(plan, seq![backend::alias_expr(rows, "count"@)]),
                ),
    )
}

/// Counting rows: the table must not be grouped, and the result is the plan
/// that selects the number of rows under the name `count`. Counting never
/// fails on a table.
pub open spec fn count_step(tables: Map<usize, Table>, handle: PolarsHandle) -> FrameStep {
    match source_plan(tables, handle) {
        Err(code) => source_refusal(handle, code),
        Ok(plan) => FrameStep::Among(Set::empty(), counted_plans(plan)),
    }
}

/// Replaces the table by its row count.
pub fn dispatch_count(engine: &mut Engine, handle: PolarsHandle) -> (r: FfiResult)
    ensures
        frame_outcome(old(engine)@, final(engine)@, r, count_step(old(engine)@, handle)),
{
    let plan = match lazy_input(engine, handle) {
        Ok(p) => p,
        Err(failure) => {
            return failure;
        },
    };
    let rows = backend::row_count();
    let ghost source = plan;
    let ghost counter = rows;
    let mut exprs: Vec<Expr> = Vec::with_capacity(1);
    exprs.push(backend::renamed(rows, "count"));
    proof {
        assert(exprs@ =~= seq![backend::alias_expr(counter, "count"@)]);
    }
    let out = backend::selected(plan, exprs);
    proof {
        assert(backend::counts_rows(counter) && Table::Plan(out) == Table::Plan(
            backend::select_plan(source, seq![backend::alias_expr(counter, "count"@)]),
        ));
        assert(counted_plans(source).contains(Table::Plan(out)));
    }
    FfiResult::success_lazy(engine, out)
}

/// Whether every handle of a list names a frame.
pub open spec fn all_frames(tables: Map<usize, Table>, handles: Seq<usize>) -> bool {
    forall|i: int|
        0 <= i < handles.len() ==> handles[i] != 0 && frame_at(tables, #[trigger] handles[i])
            is Some
}

/// The plan that a concatenation hands to the columnar library to run: the
/// plans of the frames that the handles name, stacked in the order of the
/// handles.
pub open spec fn concat_request(tables: Map<usize, Table>, handles: Seq<usize>) -> LazyFrame {
    backend::concat_plan(
        Seq::new(
            handles.len(),
            |i: int| backend::frame_plan(frame_at(tables, handles[i])->Some_0),
        ),
    )
}

/// What a list of handles gives a concatenation: without handles there is
/// nothing to stack, a handle that names no frame is a null handle, and else
/// there is the plan to run.
pub open spec fn concat_lookup(tables: Map<usize, Table>, handles: Seq<usize>) -> Result<
    LazyFrame,
    i32,
> {
    if handles.len() == 0 {
        Err(ERROR_NULL_ARGS)
    } else if all_frames(tables, handles) {
        Ok(concat_request(tables, handles))
    } else {
        Err(ERROR_NULL_HANDLE)
    }
}

/// Concatenating: there have to be handles, and each has to name a frame.
/// The frames are stacked in the order of the handles; whether they can be
/// stacked is for the columnar library to say.
pub open spec fn concat_step(tables: Map<usize, Table>, args: OpArgs) -> FrameStep {
    match args {
        OpArgs::Concat(a) => match a.handles {
            None => FrameStep::Refuse(ERROR_NULL_ARGS),
            Some(handles) => match concat_lookup(tables, handles@) {
                Ok(plan) => FrameStep::Run(plan),
                Err(code) => FrameStep::Refuse(code),
            },
        },
        _ => FrameStep::Refuse(ERROR_NULL_ARGS),
    }
}

/// What a concatenation answers for each outcome of the columnar library:
/// the frame under a new handle, or a failure of the columnar operation.
pub fn finish_frame(engine: &mut Engine, outcome: Result<DataFrame, String>) -> (r: FfiResult)
    ensures
        match outcome {
            Ok(frame) => installed(old(engine)@, final(engine)@, r, Table::Frame(frame)),
            Err(text) => r.is_error(ERROR_POLARS_OPERATION, text@) && final(engine)@ == old(
                engine,
            )@,
        },
{
    match outcome {
        Ok(frame) => FfiResult::success(engine, frame),
        Err(text) => FfiResult::error(ERROR_POLARS_OPERATION, text.as_str()),
    }
}

/// Runs a plan and answers with the frame it yields.
fn collect_into(engine: &mut Engine, plan: LazyFrame) -> (r: FfiResult)
    ensures
        frame_outcome(old(engine)@, final(engine)@, r, FrameStep::Run(plan)),
{
    let outcome = match backend::run_plan(plan) {
        Ok(frame) => Ok(frame),
        Err(e) => Err(backend::error_text(&e)),
    };
    let ghost attempted = outcome;
    let r = finish_frame(engine, outcome);
    proof {
        if let Ok(frame) = attempted {
            assert(installed(old(engine)@, engine@, r, Table::Frame(frame)));
        }
    }
    r
}

/// Builds the plan that stacks the frames which the handles name, in the
/// order of the handles.
pub fn concat_plan_of(engine: &Engine, handles: &Vec<usize>) -> (r: Result<LazyFrame, FfiResult>)
    ensures
        match concat_lookup(engine@, handles@) {
            Ok(plan) => r matches Ok(p) && p == plan,
            Err(code) => r matches Err(f) && f.is_failure(code),
        },
{
    if handles.len() == 0 {
        return Err(FfiResult::error(ERROR_NULL_ARGS, "Concat handles cannot be null or empty"));
    }
    let mut dataframes: Vec<LazyFrame> = Vec::new();
    let mut i: usize = 0;
    while i < handles.len()
        invariant
            i <= handles@.len(),
            handles@.len() > 0,
            dataframes@.len() == i,
            forall|j: int|
                0 <= j < i ==> handles@[j] != 0 && frame_at(engine@, #[trigger] handles@[j])
                    is Some,
            forall|j: int|
                0 <= j < i ==> #[trigger] dataframes@[j] == backend::frame_plan(
                    frame_at(engine@, handles@[j])->Some_0,
                ),
        decreases handles@.len() - i,
    {
        let handle = handles[i];
        if handle == 0 {
            return Err(FfiResult::error(ERROR_NULL_HANDLE, "DataFrame handle cannot be null"));
        }
        match frame_ref(engine, handle) {
            Some(df) => dataframes.push(backend::plan_of(df)),
            None => {
                return Err(stale_handle());
            },
        }
        i += 1;
    }
    assert(dataframes@ =~= Seq::new(
        handles@.len(),
        |i: int| backend::frame_plan(frame_at(engine@, handles@[i])->Some_0),
    ));
    match backend::stacked_plans(dataframes) {
        Ok(plan) => Ok(plan),
        Err(e) => Err(backend_failure(&e)),
    }
}

/// Stacks the frames whose handles the arguments list, the first on top.
/// The current handle plays no part.
pub fn dispatch_concat(engine: &mut Engine, context: &ExecutionContext) -> (r: FfiResult)
    ensures
        frame_outcome(
            old(engine)@,
            final(engine)@,
            r,
            concat_step(old(engine)@, *context.operation_args),
        ),
{
    let args = match context.operation_args {
        OpArgs::Concat(a) => a,
        _ => {
            return wrong_args();
        },
    };
    let handles = match &args.handles {
        Some(h) => h,
        None => {
            return FfiResult::error(ERROR_NULL_ARGS, "Concat handles cannot be null or empty");
        },
    };
    match concat_plan_of(engine, handles) {
        Ok(plan) => collect_into(engine, plan),
        Err(failure) => failure,
    }
}

/// Projecting to, or adding, the pending expressions: the handle has to be
/// live, there have to be pending expressions, and the table must not be
/// grouped.
pub open spec fn consume_step(
    tables: Map<usize, Table>,
    handle: PolarsHandle,
    stack: Seq<Expr>,
    adding: bool,
) -> FrameStep {
    if handle.handle == 0 {
        FrameStep::Refuse(ERROR_NULL_HANDLE)
    } else if stack.len() == 0 {
        FrameStep::Refuse(ERROR_POLARS_OPERATION)
    } else {
        match source_plan(tables, handle) {
            Err(code) => source_refusal(handle, code),
            Ok(plan) => FrameStep::Install(
                Table::Plan(
                    if adding {
                        backend::with_columns_plan(plan, stack)
                    } else {
                        backend::select_plan(plan, stack)
                    },
                ),
            ),
        }
    }
}

/// Projects the table to the pending expressions, in the order in which
/// they were pushed.
pub fn dispatch_select_expr(
    engine: &mut Engine,
    handle: PolarsHandle,
    context: &mut ExecutionContext,
) -> (r: FfiResult)
    ensures
        frame_outcome(
            old(engine)@,
            final(engine)@,
            r,
            consume_step(old(engine)@, handle, old(context).expr_stack@, false),
        ),
        drained(*old(context), *final(context), r),
{
    if handle.handle == 0 {
        return null_handle();
    }
    if context.expr_stack.len() == 0 {
        return FfiResult::error(
            ERROR_POLARS_OPERATION,
            "No expressions available for select operation",
        );
    }
    let plan = match lazy_input(engine, handle) {
        Ok(p) => p,
        Err(failure) => {
            return failure;
        },
    };
    let exprs = take_stack(context);
    FfiResult::success_lazy(engine, backend::selected(plan, exprs))
}

/// Adds the pending expressions to the table as columns, in the order in
/// which they were pushed.
pub fn dispatch_with_column(
    engine: &mut Engine,
    handle: PolarsHandle,
    context: &mut ExecutionContext,
) -> (r: FfiResult)
    ensures
        frame_outcome(
            old(engine)@,
            final(engine)@,
            r,
            consume_step(old(engine)@, handle, old(context).expr_stack@, true),
        ),
        drained(*old(context), *final(context), r),
{
    if handle.handle == 0 {
        return null_handle();
    }
    if context.expr_stack.len() == 0 {
        return FfiResult::error(
            ERROR_POLARS_OPERATION,
            "WithColumn operation requires an expression on the stack",
        );
    }
    let plan = match lazy_input(engine, handle) {
        Ok(p) => p,
        Err(failure) => {
            return failure;
        },
    };
    let exprs = take_stack(context);
    FfiResult::success_lazy(engine, backend::extended(plan, exprs))
}

/// The codes with which an expression program can fail.
pub open spec fn program_codes(ops: Seq<Operation>) -> Set<i32> {
    Set::new(
        |code: i32|
            exists|message: Seq<char>| #[trigger]
                expr_program(ops, Err::<Expr, (i32, Seq<char>)>((code, message))),
    )
}

/// The plans that filtering a plan by the result of an expression program
/// can give.
pub open spec fn filtered_plans(plan: LazyFrame, ops: Seq<Operation>) -> Set<Table> {
    Set::new(
        |table: Table|
            exists|predicate: Expr| #[trigger]
                expr_program(ops, Ok::<Expr, (i32, Seq<char>)>(predicate)) && table == Table::Plan(
                    backend::filter_plan(plan, predicate),
                ),
    )
}

/// Filtering: the handle has to be live, the embedded program has to be
/// there, and the table must not be grouped. The program then has to run
/// through and leave one expression: where it fails, the operation fails
/// with the program's code, and else the result is the plan filtered by the
/// program's expression.
pub open spec fn filter_step(tables: Map<usize, Table>, handle: PolarsHandle, args: OpArgs) -> FrameStep {
    if handle.handle == 0 {
        FrameStep::Refuse(ERROR_NULL_HANDLE)
    } else {
        match args {
            OpArgs::FilterExpr(a) => match a.expr_ops {
                None => FrameStep::Refuse(ERROR_NULL_ARGS),
                Some(ops) => if ops@.len() == 0 {
                    FrameStep::Refuse(ERROR_NULL_ARGS)
                } else {
                    match source_plan(tables, handle) {
                        Err(code) => source_refusal(handle, code),
                        Ok(plan) => FrameStep::Among(
                            program_codes(ops@),
                            filtered_plans(plan, ops@),
                        ),
                    }
                },
            },
            _ => FrameStep::Refuse(ERROR_NULL_ARGS),
        }
    }
}

/// Keeps the rows that satisfy the predicate which the embedded program
/// builds. The program runs on a stack of its own.
pub fn dispatch_filter_expr(engine: &mut Engine, handle: PolarsHandle, context: &ExecutionContext) -> (r:
    FfiResult)
    ensures
        frame_outcome(
            old(engine)@,
            final(engine)@,
            r,
            filter_step(old(engine)@, handle, *context.operation_args),
        ),
{
    if handle.handle == 0 {
        return null_handle();
    }
    let args = match context.operation_args {
        OpArgs::FilterExpr(a) => a,
        _ => {
            return wrong_args();
        },
    };
    let expr_ops = match &args.expr_ops {
        Some(ops) => ops,
        None => {
            return FfiResult::error(
                ERROR_NULL_ARGS,
                "Expression operations cannot be null or empty",
            );
        },
    };
    if expr_ops.len() == 0 {
        return FfiResult::error(ERROR_NULL_ARGS, "Expression operations cannot be null or empty");
    }
    let plan = match lazy_input(engine, handle) {
        Ok(p) => p,
        Err(failure) => {
            return failure;
        },
    };
    let filter_expr = match execute_expr_ops(expr_ops) {
        Ok(expr) => expr,
        Err(failure) => {
            proof {
                assert(expr_program(
                    expr_ops@,
                    Err::<Expr, (i32, Seq<char>)>((failure.code, failure.message@)),
                ));
                lemma_expr_program_codes(
                    expr_ops@,
                    Seq::empty(),
                    0,
                    failure.code,
                    failure.message@,
                );
            }
            return FfiResult::error(failure.code, failure.message);
        },
    };
    proof {
        assert(expr_program(expr_ops@, Ok::<Expr, (i32, Seq<char>)>(filter_expr)));
    }
    let filtered = backend::filtered(plan, filter_expr);
    let r = FfiResult::success_lazy(engine, filtered);
    proof {
        assert(filtered_plans(plan, expr_ops@).contains(Table::Plan(filtered)));
        assert(installed(old(engine)@, engine@, r, Table::Plan(filtered)));
    }
    r
}

/// A filter whose program starts by naming a column in bytes that are not
/// UTF-8 is refused with the code for invalid UTF-8, on every handle that
/// stands for a plan.
pub proof fn lemma_filter_reports_invalid_utf8(
    pre: Map<usize, Table>,
    post: Map<usize, Table>,
    handle: PolarsHandle,
    args: OpArgs,
    r: FfiResult,
)
    requires
        source_plan(pre, handle) is Ok,
        args matches OpArgs::FilterExpr(a) && a.expr_ops matches Some(ops) && ops@.len() > 0
            && ops@[0].opcode == OpCode::ExprColumn.code_spec() && (
        ops@[0].args matches OpArgs::Column(c) && !c.name.is_text()),
        frame_outcome(pre, post, r, filter_step(pre, handle, args)),
    ensures
        r.is_failure(ERROR_INVALID_UTF8),
        post == pre,
{
    let ops = args->FilterExpr_0.expr_ops->Some_0@;
    let plan = source_plan(pre, handle)->Ok_0;
    if program_codes(ops).contains(r.error_code) {
        let message = choose|message: Seq<char>| #[trigger]
            expr_program(ops, Err::<Expr, (i32, Seq<char>)>((r.error_code, message)));
        crate::execution::lemma_program_reports_invalid_utf8(
            ops,
            Err::<Expr, (i32, Seq<char>)>((r.error_code, message)),
        );
    }
    if exists|table: Table|
        filtered_plans(plan, ops).contains(table) && #[trigger] installed(pre, post, r, table) {
        let table = choose|table: Table|
            filtered_plans(plan, ops).contains(table) && #[trigger] installed(pre, post, r, table);
        let predicate = choose|predicate: Expr| #[trigger]
            expr_program(ops, Ok::<Expr, (i32, Seq<char>)>(predicate)) && table == Table::Plan(
                backend::filter_plan(plan, predicate),
            );
        crate::execution::lemma_program_reports_invalid_utf8(
            ops,
            Ok::<Expr, (i32, Seq<char>)>(predicate),
        );
    }
}

/// Materializing: the handle has to be live and the table must not be
/// grouped. A frame is copied; a plan is run, which the columnar library may
/// refuse.
pub open spec fn collect_step(tables: Map<usize, Table>, handle: PolarsHandle) -> FrameStep {
    if handle.handle == 0 {
        FrameStep::Refuse(ERROR_NULL_HANDLE)
    } else {
        match handle.get_context_type() {
            None => FrameStep::Refuse(ERROR_POLARS_OPERATION),
            Some(ContextType::DataFrame) => match frame_at(tables, handle.handle) {
                Some(frame) => FrameStep::Install(Table::Frame(frame)),
                None => FrameStep::Refuse(ERROR_NULL_HANDLE),
            },
            Some(ContextType::LazyFrame) => match plan_at(tables, handle.handle) {
                Some(plan) => FrameStep::Run(plan),
                None => FrameStep::Refuse(ERROR_NULL_HANDLE),
            },
            Some(ContextType::LazyGroupBy) => FrameStep::RefuseGrouped,
        }
    }
}

/// Materializes the table: a frame is answered with a copy of itself, a plan
/// with the frame it yields when run.
pub fn dispatch_collect(engine: &mut Engine, handle: PolarsHandle) -> (r: FfiResult)
    ensures
        frame_outcome(old(engine)@, final(engine)@, r, collect_step(old(engine)@, handle)),
{
    if handle.handle == 0 {
        return null_handle();
    }
    let context_type = match handle.get_context_type() {
        Some(ct) => ct,
        None => {
            return invalid_context();
        },
    };
    match context_type {
        ContextType::DataFrame => {
            let copy = match frame_ref(engine, handle.handle) {
                Some(df) => backend::copy_frame(df),
                None => {
                    return stale_handle();
                },
            };
            FfiResult::success(engine, copy)
        },
        ContextType::LazyFrame => {
            let plan = match engine.get(handle.handle) {
                Some(Table::Plan(lf)) => backend::copy_plan(lf),
                _ => {
                    return stale_handle();
                },
            };
            collect_into(engine, plan)
        },
        ContextType::LazyGroupBy => grouped_refusal(),
    }
}

/// Materializing twice is materializing once: where `Collect` has answered
/// with a frame, `Collect` on that answer succeeds and answers with an equal
/// frame under the same tag.
pub proof fn lemma_collect_idempotent(
    tables: Map<usize, Table>,
    handle: PolarsHandle,
    first: FfiResult,
    between: Map<usize, Table>,
    second: FfiResult,
    post: Map<usize, Table>,
)
    requires
        frame_outcome(tables, between, first, collect_step(tables, handle)),
        first.error_code == 0,
        frame_outcome(between, post, second, collect_step(between, first.polars_handle)),
    ensures
        second.error_code == 0,
        second.polars_handle.context_type == first.polars_handle.context_type,
        first.polars_handle.context_type == ContextType::DataFrame.tag_spec(),
        post.dom().contains(second.polars_handle.handle),
        post[second.polars_handle.handle] == between[first.polars_handle.handle],
{
    let step = collect_step(tables, handle);
    if step is Run {
        let table = choose|table: Table|
            table is Frame && installed(tables, between, first, table);
    }
}

/// The columns of one null each that stand below the columns of a frame.
pub open spec fn null_columns(frame: DataFrame) -> Seq<Column> {
    Seq::new(
        backend::frame_columns(frame).len(),
        |i: int| backend::null_column(backend::frame_columns(frame)[i], 1),
    )
}

/// The frame with one more row, of nulls: for each column of the frame a
/// column of one null with its name and type is made, these are put
/// together as a frame, and that frame is stacked below the frame. There is
/// none where the columnar library refuses one of the two.
pub open spec fn null_row_frame(frame: DataFrame) -> Option<DataFrame> {
    match backend::columns_frame(null_columns(frame)) {
        Some(row) => backend::stacked_frame(frame, row),
        None => None,
    }
}

/// Appending a row of nulls: the handle has to name a frame, and the result
/// is that frame with the row of nulls below; where the columnar library
/// refuses to build or to append the row, the operation fails.
pub open spec fn add_null_row_step(tables: Map<usize, Table>, handle: PolarsHandle) -> FrameStep {
    if handle.handle == 0 {
        FrameStep::Refuse(ERROR_NULL_HANDLE)
    } else {
        match handle.get_context_type() {
            None => FrameStep::Refuse(ERROR_POLARS_OPERATION),
            Some(ContextType::DataFrame) => match frame_at(tables, handle.handle) {
                Some(frame) => match null_row_frame(frame) {
                    Some(longer) => FrameStep::Install(Table::Frame(longer)),
                    None => FrameStep::Refuse(ERROR_POLARS_OPERATION),
                },
                None => FrameStep::Refuse(ERROR_NULL_HANDLE),
            },
            Some(ContextType::LazyFrame) => FrameStep::Refuse(ERROR_POLARS_OPERATION),
            Some(ContextType::LazyGroupBy) => FrameStep::RefuseGrouped,
        }
    }
}

/// The number of rows of a frame after a row of nulls is appended: one more,
/// but for a frame without columns, which has nothing to hold a row.
pub open spec fn null_row_height(frame: DataFrame) -> nat {
    if backend::frame_width(frame) == 0 {
        backend::frame_height(frame)
    } else {
        backend::frame_height(frame) + 1
    }
}

/// Builds the frame with one more row, of nulls, that keeps each column's
/// name and type. For each column of the frame a column of one null is
/// made; these are put together as a frame of one row, which is stacked
/// below the frame. The columnar library may refuse to put the columns
/// together or to stack the frames; of a frame without columns it refuses
/// neither.
#[verifier::loop_isolation(false)]
fn with_null_row(df: &DataFrame) -> (r: Result<DataFrame, polars::prelude::PolarsError>)
    ensures
        r is Ok <==> null_row_frame(*df) is Some,
        r matches Ok(frame) ==> null_row_frame(*df) == Some(frame),
        backend::frame_width(*df) == 0 ==> r is Ok,
        r matches Ok(frame) ==> backend::frame_height(frame) == null_row_height(*df),
{
    let columns = backend::columns_of_frame(df);
    let mut null_columns: Vec<Column> = Vec::with_capacity(columns.len());
    let mut i: usize = 0;
    while i < columns.len()
        invariant
            i <= columns@.len(),
            null_columns@.len() == i,
            forall|j: int| 0 <= j < i ==> backend::column_len(#[trigger] null_columns@[j]) == 1,
            forall|j: int|
                0 <= j < i ==> #[trigger] null_columns@[j] == backend::null_column(columns@[j], 1),
        decreases columns@.len() - i,
    {
        null_columns.push(backend::null_like(&columns[i], 1));
        i += 1;
    }
    assert(null_columns@ =~= self::null_columns(*df));
    let null_df = match backend::frame_of(null_columns) {
        Ok(frame) => frame,
        Err(e) => {
            return Err(e);
        },
    };
    backend::stacked(df, &null_df)
}

/// Appends one row of nulls to a frame.
pub fn dispatch_add_null_row(engine: &mut Engine, handle: PolarsHandle) -> (r: FfiResult)
    ensures
        frame_outcome(old(engine)@, final(engine)@, r, add_null_row_step(old(engine)@, handle)),
        r.error_code == 0 ==> (frame_at(old(engine)@, handle.handle) matches Some(frame)
            && frame_at(final(engine)@, r.polars_handle.handle) matches Some(longer)
            && backend::frame_height(longer) == null_row_height(frame)),
        (frame_at(old(engine)@, handle.handle) matches Some(frame) && backend::frame_width(frame)
            == 0 && handle.handle != 0 && handle.get_context_type() == Some(
            ContextType::DataFrame,
        )) ==> r.error_code == 0,
{
    if handle.handle == 0 {
        return null_handle();
    }
    let context_type = match handle.get_context_type() {
        Some(ct) => ct,
        None => {
            return invalid_context();
        },
    };
    match context_type {
        ContextType::DataFrame => {
            let extended = match frame_ref(engine, handle.handle) {
                Some(df) => with_null_row(df),
                None => {
                    return stale_handle();
                },
            };
            match extended {
                Ok(result_df) => FfiResult::success(engine, result_df),
                Err(e) => backend_failure(&e),
            }
        },
        ContextType::LazyFrame => FfiResult::error(
            ERROR_POLARS_OPERATION,
            "Cannot add null row to lazy frame. Call collect() first.",
        ),
        ContextType::LazyGroupBy => grouped_refusal(),
    }
}

/// The tables that a query sees: the plan of the current table under the
/// name `df`, and nothing else.
pub open spec fn query_tables(plan: LazyFrame) -> Map<Seq<char>, LazyFrame> {
    Map::<Seq<char>, LazyFrame>::empty().insert("df"@, plan)
}

/// Querying: the arguments have to be there, the handle has to be live, the
/// statement has to be UTF-8, and the table must not be grouped. A tag that
/// names no kind counts as a null handle. The SQL engine is then asked the
/// statement over the plan of the table, registered as `df`; what the
/// statement yields is for the SQL engine to say.
pub open spec fn query_step(tables: Map<usize, Table>, handle: PolarsHandle, args: OpArgs) -> FrameStep {
    match args {
        OpArgs::Query(a) => if handle.handle == 0 {
            FrameStep::Refuse(ERROR_NULL_HANDLE)
        } else if !a.sql.is_text() {
            FrameStep::Refuse(ERROR_INVALID_UTF8)
        } else if handle.get_context_type() is None {
            FrameStep::Refuse(ERROR_NULL_HANDLE)
        } else {
            match source_plan(tables, handle) {
                Err(code) => source_refusal(handle, code),
                Ok(plan) => FrameStep::Ask(query_tables(plan), a.sql.text()),
            }
        },
        _ => FrameStep::Refuse(ERROR_NULL_ARGS),
    }
}

/// What a query answers for each outcome of the columnar library: the plan
/// under a new handle, or a failure of the columnar operation.
pub fn finish_plan(engine: &mut Engine, outcome: Result<LazyFrame, String>) -> (r: FfiResult)
    ensures
        match outcome {
            Ok(plan) => installed(old(engine)@, final(engine)@, r, Table::Plan(plan)),
            Err(text) => r.is_error(ERROR_POLARS_OPERATION, text@) && final(engine)@ == old(
                engine,
            )@,
        },
{
    match outcome {
        Ok(plan) => FfiResult::success_lazy(engine, plan),
        Err(text) => FfiResult::error(ERROR_POLARS_OPERATION, text.as_str()),
    }
}

/// Makes the context in which a query runs: it knows the plan under the
/// name `df` and no other table.
pub fn query_context(plan: LazyFrame) -> (context: polars_sql::SQLContext)
    ensures
        backend::sql_tables(context) == query_tables(plan),
{
    let mut context = backend::sql_context();
    assert(backend::sql_tables(context) =~= Map::<Seq<char>, LazyFrame>::empty());
    backend::register_table(&mut context, "df", plan);
    context
}

/// Evaluates the SQL statement of the arguments against the table, which
/// the statement sees under the name `df`.
pub fn dispatch_query(engine: &mut Engine, handle: PolarsHandle, ctx: &ExecutionContext) -> (r:
    FfiResult)
    ensures
        frame_outcome(
            old(engine)@,
            final(engine)@,
            r,
            query_step(old(engine)@, handle, *ctx.operation_args),
        ),
{
    let args = match ctx.operation_args {
        OpArgs::Query(a) => a,
        _ => {
            return FfiResult::error(ERROR_NULL_ARGS, "QueryArgs cannot be null");
        },
    };
    if handle.handle == 0 {
        return null_handle();
    }
    let sql = match args.sql.as_str() {
        Ok(s) => s,
        Err(_) => {
            return FfiResult::error(ERROR_INVALID_UTF8, "Invalid UTF-8 in SQL query");
        },
    };
    if handle.get_context_type().is_none() {
        return FfiResult::error(ERROR_NULL_HANDLE, "Invalid context type");
    }
    let plan = match lazy_input(engine, handle) {
        Ok(p) => p,
        Err(failure) => {
            return failure;
        },
    };
    let mut sql_ctx = query_context(plan);
    let outcome = match backend::execute_sql(&mut sql_ctx, sql) {
        Ok(result) => Ok(result),
        Err(e) => Err(backend::error_text(&e)),
    };
    let ghost attempted = outcome;
    let r = finish_plan(engine, outcome);
    proof {
        if let Ok(result) = attempted {
            assert(installed(old(engine)@, engine@, r, Table::Plan(result)));
        }
    }
    r
}

/// The suffix of a join as the columnar library takes it: none where the
/// text is empty.
pub open spec fn join_suffix(text: Seq<char>) -> Option<Seq<char>> {
    if text.len() == 0 {
        None
    } else {
        Some(text)
    }
}

/// Joining: the handle has to be live, the key lists have to be there and be
/// UTF-8, the join type has to be known, the suffix has to be UTF-8, and
/// neither side may be grouped. The right side may be a frame or a plan. A
/// plan is extended; a frame is joined at once, which the columnar library
/// may refuse.
pub open spec fn join_step(tables: Map<usize, Table>, handle: PolarsHandle, args: OpArgs) -> FrameStep {
    if handle.handle == 0 {
        FrameStep::Refuse(ERROR_NULL_HANDLE)
    } else {
        match args {
            OpArgs::Join(a) => match (
                raw_str_array_outcome(array_view(a.left_on)),
                raw_str_array_outcome(array_view(a.right_on)),
            ) {
                (Err(e), _) => FrameStep::Refuse(e.code_spec()),
                (Ok(_), Err(e)) => FrameStep::Refuse(e.code_spec()),
                (Ok(left_on), Ok(right_on)) => match JoinKind::from_u32(a.how) {
                    None => FrameStep::Refuse(ERROR_NULL_ARGS),
                    Some(how) => if !a.suffix.is_text() {
                        FrameStep::Refuse(ERROR_INVALID_UTF8)
                    } else {
                        match (source_plan(tables, handle), source_plan(tables, a.right)) {
                            (Err(code), _) => source_refusal(handle, code),
                            (Ok(_), Err(code)) => source_refusal(a.right, code),
                            (Ok(left), Ok(right)) => {
                                let plan = backend::join_plan(
                                    left,
                                    right,
                                    column_exprs(left_on),
                                    column_exprs(right_on),
                                    how,
                                    join_suffix(a.suffix.text()),
                                );
                                if handle.get_context_type() == Some(ContextType::DataFrame) {
                                    FrameStep::Run(plan)
                                } else {
                                    FrameStep::Install(Table::Plan(plan))
                                }
                            },
                        }
                    },
                },
            },
            _ => FrameStep::Refuse(ERROR_NULL_ARGS),
        }
    }
}

/// Joins the table with the one that the arguments name, on the keys of the
/// arguments. The result is of the kind of the table: a frame for a frame, a
/// plan for a plan.
pub fn dispatch_join(engine: &mut Engine, handle: PolarsHandle, context: &ExecutionContext) -> (r:
    FfiResult)
    ensures
        frame_outcome(
            old(engine)@,
            final(engine)@,
            r,
            join_step(old(engine)@, handle, *context.operation_args),
        ),
{
    if handle.handle == 0 {
        return null_handle();
    }
    let args = match context.operation_args {
        OpArgs::Join(a) => a,
        _ => {
            return wrong_args();
        },
    };
    let left_names = match raw_str_array_to_vec(args.left_on.as_ref()) {
        Ok(cols) => cols,
        Err(e) => {
            return FfiResult::error(e.code(), e.message());
        },
    };
    let right_names = match raw_str_array_to_vec(args.right_on.as_ref()) {
        Ok(cols) => cols,
        Err(e) => {
            return FfiResult::error(e.code(), e.message());
        },
    };
    let how = match JoinKind::from_u32(args.how) {
        Some(how) => how,
        None => {
            return FfiResult::error(ERROR_NULL_ARGS, "Unknown join type");
        },
    };
    let suffix_text = match args.suffix.as_str() {
        Ok(s) => s,
        Err(_) => {
            return FfiResult::error(ERROR_INVALID_UTF8, "Invalid UTF-8 in join suffix");
        },
    };
    let suffix = if suffix_text.is_empty() {
        None
    } else {
        Some(suffix_text)
    };
    let left = match lazy_input(engine, handle) {
        Ok(p) => p,
        Err(failure) => {
            return failure;
        },
    };
    let right = match lazy_input(engine, args.right) {
        Ok(p) => p,
        Err(failure) => {
            return failure;
        },
    };
    let plan = backend::joined(
        left,
        right,
        columns_of(&left_names),
        columns_of(&right_names),
        how,
        suffix,
    );
    match handle.get_context_type() {
        Some(ContextType::DataFrame) => collect_into(engine, plan),
        _ => FfiResult::success_lazy(engine, plan),
    }
}

/// What a frame operation does to the table that a handle names, given the
/// pending expressions and the operation's arguments. An operation that is
/// no frame operation is refused.
pub open spec fn frame_step(
    opcode: OpCode,
    tables: Map<usize, Table>,
    handle: PolarsHandle,
    stack: Seq<Expr>,
    args: OpArgs,
) -> FrameStep {
    match opcode {
        OpCode::NewEmpty => new_empty_step(),
        OpCode::ReadCsv => read_csv_step(args),
        OpCode::ReadParquet => read_parquet_step(args),
        OpCode::Select => select_step(tables, handle, args),
        OpCode::SelectExpr => consume_step(tables, handle, stack, false),
        OpCode::Count => count_step(tables, handle),
        OpCode::Concat => concat_step(tables, args),
        OpCode::WithColumn => consume_step(tables, handle, stack, true),
        OpCode::FilterExpr => filter_step(tables, handle, args),
        OpCode::GroupBy => group_by_step(tables, handle, args),
        OpCode::AddNullRow => add_null_row_step(tables, handle),
        OpCode::Collect => collect_step(tables, handle),
        OpCode::Agg => agg_step(tables, handle, stack),
        OpCode::Sort => sort_step(tables, handle, args),
        OpCode::Limit => limit_step(tables, handle, args),
        OpCode::Query => query_step(tables, handle, args),
        OpCode::Join => join_step(tables, handle, args),
        _ => FrameStep::Refuse(ERROR_POLARS_OPERATION),
    }
}

/// Whether a frame operation consumes the pending expressions.
pub open spec fn drains(opcode: OpCode) -> bool {
    opcode == OpCode::SelectExpr || opcode == OpCode::WithColumn || opcode == OpCode::Agg
}

/// A limit of no rows is refused as missing arguments, on every live handle
/// whose tag names a kind.
pub proof fn lemma_limit_of_zero_is_refused(
    tables: Map<usize, Table>,
    handle: PolarsHandle,
    args: OpArgs,
)
    requires
        handle.handle != 0,
        handle.get_context_type() is Some,
        args matches OpArgs::Limit(a) && a.n == 0,
    ensures
        limit_step(tables, handle, args) == FrameStep::Refuse(ERROR_NULL_ARGS),
{
}

/// A sort without keys is refused as missing arguments, on every live handle
/// whose tag names a kind.
pub proof fn lemma_sort_without_keys_is_refused(
    tables: Map<usize, Table>,
    handle: PolarsHandle,
    args: OpArgs,
)
    requires
        handle.handle != 0,
        handle.get_context_type() is Some,
        args matches OpArgs::Sort(a) && a.fields@.len() == 0,
    ensures
        sort_step(tables, handle, args) == FrameStep::Refuse(ERROR_NULL_ARGS),
{
}

/// A concatenation of nothing, be the array of handles absent or empty, is
/// refused as missing arguments.
pub proof fn lemma_concat_of_nothing_is_refused(tables: Map<usize, Table>, args: OpArgs)
    requires
        args matches OpArgs::Concat(a) && (a.handles matches Some(handles) ==> handles@.len()
            == 0),
    ensures
        concat_step(tables, args) == FrameStep::Refuse(ERROR_NULL_ARGS),
{
}

/// A resolution without pending expressions is refused as a failed
/// operation, on every live handle of a grouped plan.
pub proof fn lemma_agg_without_expressions_is_refused(
    tables: Map<usize, Table>,
    handle: PolarsHandle,
)
    requires
        handle.handle != 0,
        handle.get_context_type() == Some(ContextType::LazyGroupBy),
    ensures
        agg_step(tables, handle, Seq::empty()) == FrameStep::Refuse(ERROR_POLARS_OPERATION),
{
}

/// Column names that are not UTF-8 are refused as such by the operations
/// that take a list of names, on every live handle.
pub proof fn lemma_names_have_to_be_utf8(
    tables: Map<usize, Table>,
    handle: PolarsHandle,
    columns: Vec<RawStr>,
)
    requires
        handle.handle != 0,
        !crate::all_text(columns@),
    ensures
        select_step(tables, handle, OpArgs::Select((SelectArgs { columns: Some(columns) })))
            == FrameStep::Refuse(ERROR_INVALID_UTF8),
        group_by_step(tables, handle, OpArgs::GroupBy((GroupByArgs { columns: Some(columns) })))
            == FrameStep::Refuse(ERROR_INVALID_UTF8),
{
}

} // verus!
