use vstd::prelude::*;
use polars::prelude::Expr;
use crate::dataframe::{
    array_view, filter_step, filtered_plans, frame_step, lemma_sort_keys_failure_stays,
    program_codes, sort_keys, source_plan,
};
use crate::engine::Table;
use crate::execution::{
    admits, chain_failure, chain_run, context_allows, expr_program, expr_program_run, fails_with,
    lemma_expr_step_codes, lemma_frame_step_never_fails_with_zero, ChainState,
};
use crate::expr::{expr_step, ExprStep};
use crate::io::parquet_columns;
use crate::opcodes::{
    lemma_classes_disjoint, opcode_of, JoinKind, OpArgs, OpCode, Operation, PolarsHandle,
    SortField,
};
use crate::{all_text, ERROR_INVALID_UTF8};

verus! {

/// Whether an expression operation reads, in its arguments, a string view
/// that does not hold UTF-8. A literal reads its string only where its tag
/// names the string.
pub open spec fn expr_reads_bad_text(opcode: OpCode, args: OpArgs) -> bool {
    match (opcode, args) {
        (OpCode::ExprColumn, OpArgs::Column(a)) => !a.name.is_text(),
        (OpCode::ExprLiteral, OpArgs::Literal(a)) => a.literal.value_type == 2
            && !a.literal.string_value.is_text(),
        (OpCode::ExprAlias, OpArgs::Alias(a)) => !a.name.is_text(),
        (OpCode::ExprStrContains, OpArgs::Pattern(a)) => !a.pattern.is_text(),
        (OpCode::ExprStrStartsWith, OpArgs::Pattern(a)) => !a.pattern.is_text(),
        (OpCode::ExprStrEndsWith, OpArgs::Pattern(a)) => !a.pattern.is_text(),
        (OpCode::ExprSql, OpArgs::SqlExpr(a)) => !a.sql.is_text(),
        (OpCode::ExprOver, OpArgs::Window(w)) => !all_text(w.partition_columns@) || !all_text(
            w.order_columns@,
        ),
        _ => false,
    }
}

/// Whether a step of an expression program reads a string view that does
/// not hold UTF-8.
pub open spec fn op_reads_bad_text(op: Operation) -> bool {
    opcode_of(op.opcode) matches Some(opcode) && expr_reads_bad_text(opcode, op.args)
}

/// Whether some step of an expression program reads a string view that does
/// not hold UTF-8.
pub open spec fn program_reads_bad_text(ops: Seq<Operation>) -> bool {
    exists|k: int| 0 <= k < ops.len() && op_reads_bad_text(#[trigger] ops[k])
}

/// Whether a sort key names its column in bytes that are not UTF-8.
pub open spec fn key_is_bad_text(field: SortField) -> bool {
    !field.column.is_text()
}

/// Whether a frame operation reads, in its arguments, a string view that
/// does not hold UTF-8. A filter reads the views of its program.
pub open spec fn frame_reads_bad_text(opcode: OpCode, args: OpArgs) -> bool {
    match (opcode, args) {
        (OpCode::ReadCsv, OpArgs::ReadCsv(a)) => !a.path.is_text(),
        (OpCode::ReadParquet, OpArgs::ReadParquet(a)) => !a.path.is_text() || !all_text(
            parquet_columns(array_view(a.columns)),
        ),
        (OpCode::Select, OpArgs::Select(a)) => a.columns matches Some(names) && !all_text(names@),
        (OpCode::GroupBy, OpArgs::GroupBy(a)) => a.columns matches Some(names) && !all_text(
            names@,
        ),
        (OpCode::Sort, OpArgs::Sort(a)) => exists|k: int|
            0 <= k < a.fields@.len() && key_is_bad_text(#[trigger] a.fields@[k]),
        (OpCode::Query, OpArgs::Query(a)) => !a.sql.is_text(),
        (OpCode::Join, OpArgs::Join(a)) => (a.left_on matches Some(names) && !all_text(names@))
            || (a.right_on matches Some(names) && !all_text(names@)) || !a.suffix.is_text(),
        (OpCode::FilterExpr, OpArgs::FilterExpr(a)) => a.expr_ops matches Some(ops)
            && program_reads_bad_text(ops@),
        _ => false,
    }
}

/// Whether an operation reads, in its arguments, a string view that does
/// not hold UTF-8.
pub open spec fn reads_bad_text(opcode: OpCode, args: OpArgs) -> bool {
    frame_reads_bad_text(opcode, args) || expr_reads_bad_text(opcode, args)
}

/// Whether an expression operation gets as far as the text of its
/// arguments: one that works on the top expression looks at the stack
/// first.
pub open spec fn expr_gets_to_text(opcode: OpCode, stack: Seq<Expr>) -> bool {
    opcode == OpCode::ExprColumn || opcode == OpCode::ExprLiteral || opcode == OpCode::ExprSql
        || stack.len() >= 1
}

/// Whether a frame operation gets as far as the text that is at fault, so
/// that nothing it looks at before is at fault too. Scans look at the text
/// first. The others need a handle that is not zero. A sort looks at its
/// keys in order, at the name of each before its direction, so the keys
/// before the first name that is at fault have to be in order. A join
/// needs both lists of keys, and a known kind before it looks at the
/// suffix. A filter needs a plan to filter, and its program has to stop at
/// its first step.
pub open spec fn frame_gets_to_text(
    opcode: OpCode,
    tables: Map<usize, Table>,
    handle: PolarsHandle,
    args: OpArgs,
) -> bool {
    match (opcode, args) {
        (OpCode::ReadCsv, _) => true,
        (OpCode::ReadParquet, _) => true,
        (OpCode::Select, _) => handle.handle != 0,
        (OpCode::GroupBy, _) => handle.handle != 0,
        (OpCode::Query, _) => handle.handle != 0,
        (OpCode::Sort, OpArgs::Sort(a)) => handle.handle != 0 && handle.get_context_type() is Some
            && exists|k: int|
            0 <= k < a.fields@.len() && key_is_bad_text(#[trigger] a.fields@[k]) && sort_keys(
                a.fields@,
                k as nat,
            ) is Ok,
        (OpCode::Join, OpArgs::Join(a)) => handle.handle != 0 && (a.left_on matches Some(left)
            && (all_text(left@) ==> (a.right_on matches Some(right) && (all_text(right@)
            ==> JoinKind::from_u32(a.how) is Some)))),
        (OpCode::FilterExpr, OpArgs::FilterExpr(a)) => handle.handle != 0 && source_plan(
            tables,
            handle,
        ) is Ok && (a.expr_ops matches Some(ops) && ops@.len() > 0 && op_reads_bad_text(ops@[0])
            && expr_gets_to_text(opcode_of(ops@[0].opcode)->Some_0, Seq::empty())),
        _ => false,
    }
}

/// An expression operation that reads a string view which does not hold
/// UTF-8 is refused, on every stack; where it gets as far as the text, it
/// is refused with the code for invalid UTF-8.
pub proof fn lemma_expr_step_refuses_bad_text(opcode: OpCode, stack: Seq<Expr>, args: OpArgs)
    requires
        expr_reads_bad_text(opcode, args),
    ensures
        opcode.is_expression_op(),
        expr_step(opcode, stack, args) is Refuse,
        expr_gets_to_text(opcode, stack) ==> expr_step(opcode, stack, args) == ExprStep::Refuse(
            ERROR_INVALID_UTF8,
        ),
{
}

/// An expression program with a step that reads a string view which does
/// not hold UTF-8 builds no expression, from whatever position before that
/// step and on whatever stack it is run.
pub proof fn lemma_program_with_bad_text_fails(
    ops: Seq<Operation>,
    stack: Seq<Expr>,
    i: nat,
    k: nat,
    outcome: Result<Expr, (i32, Seq<char>)>,
)
    requires
        i <= k < ops.len(),
        op_reads_bad_text(ops[k as int]),
        expr_program_run(ops, stack, i, outcome),
    ensures
        outcome is Err,
    decreases k - i,
{
    let op = ops[i as int];
    match opcode_of(op.opcode) {
        None => {},
        Some(opcode) => {
            if opcode.is_expression_op() {
                if i == k {
                    lemma_expr_step_refuses_bad_text(opcode, stack, op.args);
                } else {
                    match expr_step(opcode, stack, op.args) {
                        ExprStep::Refuse(_) => {},
                        ExprStep::Done(next) => {
                            lemma_program_with_bad_text_fails(ops, next, i + 1, k, outcome);
                        },
                        ExprStep::Parse => {
                            if outcome is Ok {
                                let e = choose|e: Expr|
                                    expr_program_run(ops, #[trigger] stack.push(e), i + 1, outcome);
                                lemma_program_with_bad_text_fails(
                                    ops,
                                    stack.push(e),
                                    i + 1,
                                    k,
                                    outcome,
                                );
                            }
                        },
                    }
                }
            }
        },
    }
}

/// An expression program that comes to a step which reads a string view
/// that does not hold UTF-8, on a stack on which the step gets as far as
/// the text, ends with the code for invalid UTF-8.
pub proof fn lemma_program_stops_at_bad_text(
    ops: Seq<Operation>,
    stack: Seq<Expr>,
    i: nat,
    outcome: Result<Expr, (i32, Seq<char>)>,
)
    requires
        i < ops.len(),
        op_reads_bad_text(ops[i as int]),
        expr_gets_to_text(opcode_of(ops[i as int].opcode)->Some_0, stack),
        expr_program_run(ops, stack, i, outcome),
    ensures
        outcome == Err::<Expr, (i32, Seq<char>)>(
            (ERROR_INVALID_UTF8, "Expression operation failed"@),
        ),
{
    let op = ops[i as int];
    lemma_expr_step_refuses_bad_text(opcode_of(op.opcode)->Some_0, stack, op.args);
}

/// Sort keys of which one names its column in bytes that are not UTF-8 are
/// refused; where the keys before that one are in order, they are refused
/// with the code for invalid UTF-8.
pub proof fn lemma_sort_keys_refuse_bad_text(fields: Seq<SortField>, k: nat)
    requires
        k < fields.len(),
        key_is_bad_text(fields[k as int]),
    ensures
        sort_keys(fields, fields.len()) is Err,
        sort_keys(fields, k) is Ok ==> sort_keys(fields, fields.len()) == Err::<
            (Seq<Seq<char>>, Seq<bool>, Seq<bool>),
            i32,
        >(ERROR_INVALID_UTF8),
{
    assert(sort_keys(fields, k + 1) is Err);
    lemma_sort_keys_failure_stays(fields, k + 1, fields.len());
}

/// A frame operation that reads a string view which does not hold UTF-8
/// makes no table, on whatever handle, tables and pending expressions.
pub proof fn lemma_frame_step_refuses_bad_text(
    opcode: OpCode,
    tables: Map<usize, Table>,
    handle: PolarsHandle,
    stack: Seq<Expr>,
    args: OpArgs,
    table: Table,
)
    requires
        frame_reads_bad_text(opcode, args),
    ensures
        opcode.is_dataframe_op(),
        !admits(frame_step(opcode, tables, handle, stack, args), table),
{
    let step = frame_step(opcode, tables, handle, stack, args);
    if opcode == OpCode::Sort {
        let fields = args->Sort_0.fields@;
        let k = choose|k: int| 0 <= k < fields.len() && key_is_bad_text(#[trigger] fields[k]);
        lemma_sort_keys_refuse_bad_text(fields, k as nat);
    }
    if opcode == OpCode::FilterExpr && admits(step, table) {
        let ops = args->FilterExpr_0.expr_ops->Some_0@;
        let plan = source_plan(tables, handle)->Ok_0;
        let k = choose|k: int| 0 <= k < ops.len() && op_reads_bad_text(#[trigger] ops[k]);
        let predicate = choose|predicate: Expr| #[trigger]
            expr_program(ops, Ok::<Expr, (i32, Seq<char>)>(predicate)) && table == Table::Plan(
                crate::backend::filter_plan(plan, predicate),
            );
        lemma_program_with_bad_text_fails(
            ops,
            Seq::empty(),
            0,
            k as nat,
            Ok::<Expr, (i32, Seq<char>)>(predicate),
        );
    }
}

/// A frame operation that reads a string view which does not hold UTF-8,
/// and gets as far as that text, fails with the code for invalid UTF-8 and
/// with no other.
pub proof fn lemma_frame_step_reports_bad_text(
    opcode: OpCode,
    tables: Map<usize, Table>,
    handle: PolarsHandle,
    stack: Seq<Expr>,
    args: OpArgs,
    code: i32,
)
    requires
        frame_reads_bad_text(opcode, args),
        frame_gets_to_text(opcode, tables, handle, args),
    ensures
        fails_with(frame_step(opcode, tables, handle, stack, args), code) <==> code
            == ERROR_INVALID_UTF8,
{
    let step = frame_step(opcode, tables, handle, stack, args);
    if opcode == OpCode::Sort {
        let fields = args->Sort_0.fields@;
        let k = choose|k: int|
            0 <= k < fields.len() && key_is_bad_text(#[trigger] fields[k]) && sort_keys(
                fields,
                k as nat,
            ) is Ok;
        lemma_sort_keys_refuse_bad_text(fields, k as nat);
    }
    if opcode == OpCode::FilterExpr {
        let ops = args->FilterExpr_0.expr_ops->Some_0@;
        let stopped = Err::<Expr, (i32, Seq<char>)>(
            (ERROR_INVALID_UTF8, "Expression operation failed"@),
        );
        lemma_expr_step_refuses_bad_text(
            opcode_of(ops[0].opcode)->Some_0,
            Seq::empty(),
            ops[0].args,
        );
        assert(expr_program(ops, stopped));
        assert(program_codes(ops).contains(ERROR_INVALID_UTF8));
        if program_codes(ops).contains(code) {
            let message = choose|message: Seq<char>| #[trigger]
                expr_program(ops, Err::<Expr, (i32, Seq<char>)>((code, message)));
            lemma_program_stops_at_bad_text(
                ops,
                Seq::empty(),
                0,
                Err::<Expr, (i32, Seq<char>)>((code, message)),
            );
        }
    }
}

/// A chain that comes to an operation which reads a string view that does
/// not hold UTF-8, in a state in which the operation is allowed and gets as
/// far as that text, answers with the code for invalid UTF-8 and with the
/// position of that operation, and gives up what it made.
pub proof fn lemma_chain_reports_bad_text(
    state: ChainState,
    ops: Seq<Operation>,
    i: nat,
    r: crate::FfiResult,
    post: Map<usize, Table>,
    pending: Seq<Expr>,
)
    requires
        i < ops.len(),
        opcode_of(ops[i as int].opcode) matches Some(opcode) && ((context_allows(
            state.context,
            opcode,
        ) && frame_reads_bad_text(opcode, ops[i as int].args) && frame_gets_to_text(
            opcode,
            state.tables,
            state.handle(),
            ops[i as int].args,
        )) || (expr_reads_bad_text(opcode, ops[i as int].args) && expr_gets_to_text(
            opcode,
            state.stack,
        ))),
        chain_run(state, ops, i, r, post, pending),
    ensures
        chain_failure(r, ERROR_INVALID_UTF8, i),
        post == state.released(),
{
    let op = ops[i as int];
    let opcode = opcode_of(op.opcode)->Some_0;
    lemma_classes_disjoint(opcode);
    if expr_reads_bad_text(opcode, op.args) {
        lemma_expr_step_refuses_bad_text(opcode, state.stack, op.args);
    } else {
        let step = frame_step(opcode, state.tables, state.handle(), state.stack, op.args);
        lemma_frame_step_reports_bad_text(
            opcode,
            state.tables,
            state.handle(),
            state.stack,
            op.args,
            r.error_code,
        );
        if !(fails_with(step, r.error_code) && chain_failure(r, r.error_code, i) && post
            == state.released()) {
            let (made, table) = choose|made: usize, table: Table|
                admits(step, table) && crate::execution::fresh(state.tables, made) && chain_run(
                    #[trigger] state.advance(opcode, made, table),
                    ops,
                    i + 1,
                    r,
                    post,
                    pending,
                );
            lemma_frame_step_refuses_bad_text(
                opcode,
                state.tables,
                state.handle(),
                state.stack,
                op.args,
                table,
            );
        }
    }
}

/// A chain with an operation that reads a string view which does not hold
/// UTF-8 never succeeds: from whatever position before that operation and
/// in whatever state it is run, it answers with an error and no handle, and
/// the operation that failed is that one or one before it.
pub proof fn lemma_chain_with_bad_text_fails(
    state: ChainState,
    ops: Seq<Operation>,
    i: nat,
    k: nat,
    r: crate::FfiResult,
    post: Map<usize, Table>,
    pending: Seq<Expr>,
)
    requires
        i <= k < ops.len(),
        opcode_of(ops[k as int].opcode) matches Some(opcode) && reads_bad_text(
            opcode,
            ops[k as int].args,
        ),
        chain_run(state, ops, i, r, post, pending),
    ensures
        r.error_code != 0,
        r.polars_handle.handle == 0,
        i <= r.error_frame <= k,
    decreases k - i,
{
    let op = ops[i as int];
    match opcode_of(op.opcode) {
        None => {},
        Some(opcode) => {
            lemma_classes_disjoint(opcode);
            if opcode.is_dataframe_op() {
                if context_allows(state.context, opcode) {
                    let step = frame_step(
                        opcode,
                        state.tables,
                        state.handle(),
                        state.stack,
                        op.args,
                    );
                    lemma_frame_step_never_fails_with_zero(
                        opcode,
                        state.tables,
                        state.handle(),
                        state.stack,
                        op.args,
                    );
                    if !(fails_with(step, r.error_code) && chain_failure(r, r.error_code, i)
                        && post == state.released()) {
                        let (made, table) = choose|made: usize, table: Table|
                            admits(step, table) && crate::execution::fresh(state.tables, made)
                                && chain_run(
                                #[trigger] state.advance(opcode, made, table),
                                ops,
                                i + 1,
                                r,
                                post,
                                pending,
                            );
                        if i == k {
                            if expr_reads_bad_text(opcode, op.args) {
                                lemma_expr_step_refuses_bad_text(opcode, state.stack, op.args);
                            }
                            lemma_frame_step_refuses_bad_text(
                                opcode,
                                state.tables,
                                state.handle(),
                                state.stack,
                                op.args,
                                table,
                            );
                        } else {
                            lemma_chain_with_bad_text_fails(
                                state.advance(opcode, made, table),
                                ops,
                                i + 1,
                                k,
                                r,
                                post,
                                pending,
                            );
                        }
                    }
                }
            } else if opcode.is_expression_op() {
                lemma_expr_step_codes(opcode, state.stack, op.args);
                if i == k {
                    if frame_reads_bad_text(opcode, op.args) {
                        lemma_frame_step_refuses_bad_text(
                            opcode,
                            state.tables,
                            state.handle(),
                            state.stack,
                            op.args,
                            arbitrary(),
                        );
                    }
                    lemma_expr_step_refuses_bad_text(opcode, state.stack, op.args);
                } else {
                    match expr_step(opcode, state.stack, op.args) {
                        ExprStep::Refuse(_) => {},
                        ExprStep::Done(next) => {
                            lemma_chain_with_bad_text_fails(
                                state.with_stack(next),
                                ops,
                                i + 1,
                                k,
                                r,
                                post,
                                pending,
                            );
                        },
                        ExprStep::Parse => {
                            if !(chain_failure(r, crate::ERROR_POLARS_OPERATION, i) && post
                                == state.released()) {
                                let e = choose|e: Expr|
                                    chain_run(
                                        #[trigger] state.with_stack(state.stack.push(e)),
                                        ops,
                                        i + 1,
                                        r,
                                        post,
                                        pending,
                                    );
                                lemma_chain_with_bad_text_fails(
                                    state.with_stack(state.stack.push(e)),
                                    ops,
                                    i + 1,
                                    k,
                                    r,
                                    post,
                                    pending,
                                );
                            }
                        },
                    }
                }
            } else {
                if i == k {
                    if frame_reads_bad_text(opcode, op.args) {
                        lemma_frame_step_refuses_bad_text(
                            opcode,
                            state.tables,
                            state.handle(),
                            state.stack,
                            op.args,
                            arbitrary(),
                        );
                    }
                    if expr_reads_bad_text(opcode, op.args) {
                        lemma_expr_step_refuses_bad_text(opcode, state.stack, op.args);
                    }
                }
            }
        },
    }
}

} // verus!
