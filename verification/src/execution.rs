use vstd::prelude::*;
use polars::prelude::Expr;
use crate::dataframe;
use crate::dataframe::{drains, frame_outcome, frame_step, FrameStep};
use crate::engine::{Engine, Table};
use crate::expr;
use crate::expr::{expr_step, stepped, ExprStep};
use crate::io;
use crate::opcodes::{opcode_of, ContextType, OpArgs, OpCode, Operation, PolarsHandle};
use crate::{installed, FfiResult, ERROR_NULL_ARGS, ERROR_POLARS_OPERATION};

verus! {

/// What an operation works with besides the current handle: the stack of
/// pending expressions and the operation's own arguments.
pub struct ExecutionContext<'a> {
    pub expr_stack: Vec<Expr>,
    pub operation_args: &'a OpArgs,
}

/// Runs one expression operation on the stack of the context.
pub fn dispatch_expression_operation(opcode: OpCode, ctx: &mut ExecutionContext) -> (r: FfiResult)
    ensures
        stepped(*old(ctx), *final(ctx), r, opcode),
{
    match opcode {
        OpCode::ExprColumn => expr::expr_column(ctx),
        OpCode::ExprLiteral => expr::expr_literal(ctx),
        OpCode::ExprAdd => expr::expr_add(ctx),
        OpCode::ExprSub => expr::expr_sub(ctx),
        OpCode::ExprMul => expr::expr_mul(ctx),
        OpCode::ExprDiv => expr::expr_div(ctx),
        OpCode::ExprGt => expr::expr_gt(ctx),
        OpCode::ExprLt => expr::expr_lt(ctx),
        OpCode::ExprEq => expr::expr_eq(ctx),
        OpCode::ExprAnd => expr::expr_and(ctx),
        OpCode::ExprOr => expr::expr_or(ctx),
        OpCode::ExprNot => expr::expr_not(ctx),
        OpCode::ExprSum => expr::expr_sum(ctx),
        OpCode::ExprMean => expr::expr_mean(ctx),
        OpCode::ExprMin => expr::expr_min(ctx),
        OpCode::ExprMax => expr::expr_max(ctx),
        OpCode::ExprStd => expr::expr_std(ctx),
        OpCode::ExprVar => expr::expr_var(ctx),
        OpCode::ExprMedian => expr::expr_median(ctx),
        OpCode::ExprFirst => expr::expr_first(ctx),
        OpCode::ExprLast => expr::expr_last(ctx),
        OpCode::ExprNUnique => expr::expr_nunique(ctx),
        OpCode::ExprCount => expr::expr_count(ctx),
        OpCode::ExprCountNulls => expr::expr_count(ctx),
        OpCode::ExprIsNull => expr::expr_is_null(ctx),
        OpCode::ExprIsNotNull => expr::expr_is_not_null(ctx),
        OpCode::ExprAlias => expr::expr_alias(ctx),
        OpCode::ExprStrLen => expr::expr_str_len(ctx),
        OpCode::ExprStrContains => expr::expr_str_contains(ctx),
        OpCode::ExprStrStartsWith => expr::expr_str_starts_with(ctx),
        OpCode::ExprStrEndsWith => expr::expr_str_ends_with(ctx),
        OpCode::ExprStrToLowercase => expr::expr_str_to_lowercase(ctx),
        OpCode::ExprStrToUppercase => expr::expr_str_to_uppercase(ctx),
        OpCode::ExprSql => expr::expr_sql(ctx),
        OpCode::ExprOver => expr::expr_over(ctx),
        OpCode::ExprRank => expr::expr_rank(ctx),
        OpCode::ExprDenseRank => expr::expr_dense_rank(ctx),
        OpCode::ExprRowNumber => expr::expr_row_number(ctx),
        OpCode::ExprLag => expr::expr_lag(ctx),
        OpCode::ExprLead => expr::expr_lead(ctx),
        OpCode::ExprWhen => expr::expr_when(ctx),
        OpCode::ExprThen => expr::expr_then(ctx),
        OpCode::ExprOtherwise => expr::expr_otherwise(ctx),
        OpCode::ExprCast => expr::expr_cast(ctx),
        _ => FfiResult::error(ERROR_POLARS_OPERATION, "Unsupported expression operation"),
    }
}

/// Why an expression program built no expression: the error code and the
/// message.
#[derive(Debug)]
pub struct ExprProgramError {
    pub code: i32,
    pub message: &'static str,
}

/// What an expression program ends in, as specifications speak of it: the
/// expression, or the error code and the message.
pub open spec fn program_outcome(r: Result<Expr, ExprProgramError>) -> Result<
    Expr,
    (i32, Seq<char>),
> {
    match r {
        Ok(e) => Ok(e),
        Err(error) => Err((error.code, error.message@)),
    }
}

/// What running an expression program from position `i` on, on a stack, can
/// end in. Operations run in order. A code that names no operation, and an
/// operation that is no expression operation, end the program as a failed
/// operation. An operation that fails on the stack ends it with its own
/// code, so that a string that is not UTF-8 is reported as such. A program
/// that runs through has to leave exactly one expression, which is its
/// result.
pub open spec fn expr_program_run(
    ops: Seq<Operation>,
    stack: Seq<Expr>,
    i: nat,
    outcome: Result<Expr, (i32, Seq<char>)>,
) -> bool
    decreases ops.len() - i,
{
    if i >= ops.len() {
        if stack.len() == 1 {
            outcome == Ok::<Expr, (i32, Seq<char>)>(stack[0])
        } else {
            outcome == Err::<Expr, (i32, Seq<char>)>(
                (
                    ERROR_POLARS_OPERATION,
                    "Invalid expression - stack should have exactly one element"@,
                ),
            )
        }
    } else {
        let op = ops[i as int];
        match opcode_of(op.opcode) {
            None => outcome == Err::<Expr, (i32, Seq<char>)>(
                (ERROR_POLARS_OPERATION, "Invalid opcode"@),
            ),
            Some(opcode) => if !opcode.is_expression_op() {
                outcome == Err::<Expr, (i32, Seq<char>)>(
                    (ERROR_POLARS_OPERATION, "Non-expression operation in expression context"@),
                )
            } else {
                match expr_step(opcode, stack, op.args) {
                    ExprStep::Refuse(code) => outcome == Err::<Expr, (i32, Seq<char>)>(
                        (code, "Expression operation failed"@),
                    ),
                    ExprStep::Done(next) => expr_program_run(ops, next, i + 1, outcome),
                    ExprStep::Parse => {
                        ||| outcome == Err::<Expr, (i32, Seq<char>)>(
                            (ERROR_POLARS_OPERATION, "Expression operation failed"@),
                        )
                        ||| exists|e: Expr|
                            expr_program_run(ops, #[trigger] stack.push(e), i + 1, outcome)
                    },
                }
            },
        }
    }
}

/// What running an expression program on a stack of its own can end in.
pub open spec fn expr_program(ops: Seq<Operation>, outcome: Result<Expr, (i32, Seq<char>)>) -> bool {
    expr_program_run(ops, Seq::empty(), 0, outcome)
}

/// The codes that the stack machine reports are error codes: none is zero.
pub proof fn lemma_expr_step_codes(opcode: OpCode, stack: Seq<Expr>, args: OpArgs)
    ensures
        expr_step(opcode, stack, args) matches ExprStep::Refuse(code) ==> 2 <= code <= 4,
{
}

/// The codes with which expression programs fail are error codes.
pub proof fn lemma_expr_program_codes(
    ops: Seq<Operation>,
    stack: Seq<Expr>,
    i: nat,
    code: i32,
    message: Seq<char>,
)
    requires
        expr_program_run(ops, stack, i, Err((code, message))),
    ensures
        2 <= code <= 4,
    decreases ops.len() - i,
{
    let outcome = Err::<Expr, (i32, Seq<char>)>((code, message));
    if i < ops.len() {
        let op = ops[i as int];
        match opcode_of(op.opcode) {
            None => {},
            Some(opcode) => {
                if opcode.is_expression_op() {
                    lemma_expr_step_codes(opcode, stack, op.args);
                    match expr_step(opcode, stack, op.args) {
                        ExprStep::Refuse(_) => {},
                        ExprStep::Done(next) => {
                            lemma_expr_program_codes(ops, next, i + 1, code, message);
                        },
                        ExprStep::Parse => {
                            if outcome != Err::<Expr, (i32, Seq<char>)>(
                                (ERROR_POLARS_OPERATION, "Expression operation failed"@),
                            ) {
                                let e = choose|e: Expr|
                                    expr_program_run(ops, #[trigger] stack.push(e), i + 1, outcome);
                                lemma_expr_program_codes(ops, stack.push(e), i + 1, code, message);
                            }
                        },
                    }
                }
            },
        }
    }
}

/// An expression program that starts by naming a column in bytes that are
/// not UTF-8 ends with the code for invalid UTF-8, whatever follows.
pub proof fn lemma_program_reports_invalid_utf8(
    ops: Seq<Operation>,
    outcome: Result<Expr, (i32, Seq<char>)>,
)
    requires
        ops.len() > 0,
        ops[0].opcode == OpCode::ExprColumn.code_spec(),
        ops[0].args matches OpArgs::Column(a) && !a.name.is_text(),
        expr_program(ops, outcome),
    ensures
        outcome == Err::<Expr, (i32, Seq<char>)>(
            (crate::ERROR_INVALID_UTF8, "Expression operation failed"@),
        ),
{
    crate::opcodes::lemma_opcode_round_trip(OpCode::ExprColumn);
}

/// The error with which an expression program ends.
fn program_failure(code: i32, message: &'static str) -> (r: Result<Expr, ExprProgramError>)
    ensures
        program_outcome(r) == Err::<Expr, (i32, Seq<char>)>((code, message@)),
{
    Err(ExprProgramError { code, message })
}

/// Runs an expression program on a stack of its own and returns the one
/// expression it builds.
pub fn execute_expr_ops(ops: &Vec<Operation>) -> (r: Result<Expr, ExprProgramError>)
    ensures
        expr_program(ops@, program_outcome(r)),
{
    let mut stack: Vec<Expr> = Vec::new();
    let mut i: usize = 0;
    while i < ops.len()
        invariant
            i <= ops@.len(),
            forall|outcome: Result<Expr, (i32, Seq<char>)>| #[trigger]
                expr_program_run(ops@, stack@, i as nat, outcome) ==> expr_program(ops@, outcome),
        decreases ops@.len() - i,
    {
        let op = &ops[i];
        let ghost before = stack@;
        let opcode = match op.get_opcode() {
            Some(opcode) => opcode,
            None => {
                let r = program_failure(ERROR_POLARS_OPERATION, "Invalid opcode");
                assert(expr_program_run(ops@, before, i as nat, program_outcome(r)));
                return r;
            },
        };
        if !opcode.is_expression_op() {
            let r = program_failure(
                ERROR_POLARS_OPERATION,
                "Non-expression operation in expression context",
            );
            assert(expr_program_run(ops@, before, i as nat, program_outcome(r)));
            return r;
        }
        let mut ctx = ExecutionContext { expr_stack: stack, operation_args: &op.args };
        let result = dispatch_expression_operation(opcode, &mut ctx);
        stack = ctx.expr_stack;
        proof {
            lemma_expr_step_codes(opcode, before, op.args);
        }
        if result.error_code != 0 {
            let r = program_failure(result.error_code, "Expression operation failed");
            assert(expr_program_run(ops@, before, i as nat, program_outcome(r)));
            return r;
        }
        proof {
            let step = expr_step(opcode, before, op.args);
            assert forall|outcome: Result<Expr, (i32, Seq<char>)>| #[trigger]
                expr_program_run(
                    ops@,
                    stack@,
                    (i + 1) as nat,
                    outcome,
                ) implies expr_program(ops@, outcome) by {
                if step is Parse {
                    let e = choose|e: Expr| stack@ == #[trigger] before.push(e);
                    assert(expr_program_run(ops@, before.push(e), (i + 1) as nat, outcome));
                }
                assert(expr_program_run(ops@, before, i as nat, outcome));
            }
        }
        i += 1;
    }
    let ghost left = stack@;
    if stack.len() != 1 {
        let r = program_failure(
            ERROR_POLARS_OPERATION,
            "Invalid expression - stack should have exactly one element",
        );
        assert(expr_program_run(ops@, left, i as nat, program_outcome(r)));
        return r;
    }
    let built = stack.pop().unwrap();
    let r = Ok(built);
    assert(expr_program_run(ops@, left, i as nat, program_outcome(r)));
    r
}

/// The context automaton: whether a frame operation is legal on a table of
/// a kind. Operations that make a table from nothing, or from the handles in
/// their arguments, are legal everywhere. A grouped plan admits, besides
/// those, only its resolution; the resolution is legal nowhere else; and only
/// a frame can be given a row.
pub open spec fn context_allows(context: ContextType, opcode: OpCode) -> bool {
    match opcode {
        OpCode::Select
        | OpCode::SelectExpr
        | OpCode::WithColumn
        | OpCode::FilterExpr
        | OpCode::Count
        | OpCode::Query
        | OpCode::GroupBy
        | OpCode::Sort
        | OpCode::Limit
        | OpCode::Join
        | OpCode::Collect => context != ContextType::LazyGroupBy,
        OpCode::Agg => context == ContextType::LazyGroupBy,
        OpCode::AddNullRow => context == ContextType::DataFrame,
        _ => true,
    }
}

/// Decides whether a frame operation is legal on a table of a kind.
pub fn context_permits(context: ContextType, opcode: OpCode) -> (b: bool)
    ensures
        b == context_allows(context, opcode),
{
    match opcode {
        OpCode::Select
        | OpCode::SelectExpr
        | OpCode::WithColumn
        | OpCode::FilterExpr
        | OpCode::Count
        | OpCode::Query
        | OpCode::GroupBy
        | OpCode::Sort
        | OpCode::Limit
        | OpCode::Join
        | OpCode::Collect => context != ContextType::LazyGroupBy,
        OpCode::Agg => context == ContextType::LazyGroupBy,
        OpCode::AddNullRow => context == ContextType::DataFrame,
        _ => true,
    }
}

/// The context automaton: the kind of the table after a frame operation
/// that succeeded. Sorting, limiting and joining keep the kind.
pub open spec fn context_after(context: ContextType, opcode: OpCode) -> ContextType {
    match opcode {
        OpCode::NewEmpty | OpCode::Concat | OpCode::AddNullRow | OpCode::Collect =>
            ContextType::DataFrame,
        OpCode::ReadCsv
        | OpCode::ReadParquet
        | OpCode::Select
        | OpCode::SelectExpr
        | OpCode::Count
        | OpCode::WithColumn
        | OpCode::FilterExpr
        | OpCode::Agg
        | OpCode::Query => ContextType::LazyFrame,
        OpCode::GroupBy => ContextType::LazyGroupBy,
        _ => context,
    }
}

/// The message for a frame operation that is not legal on a table of a
/// kind. Every operation that a grouped plan refuses gets the same advice.
pub open spec fn misuse_message(context: ContextType, opcode: OpCode) -> Seq<char> {
    if opcode == OpCode::Agg {
        "Agg() can only be called on LazyGroupBy. Use GroupBy() first."@
    } else if context == ContextType::LazyGroupBy {
        "Operation is not allowed on grouped data. Call agg() first to resolve grouping."@
    } else {
        "Cannot add null row to lazy frame. Call collect() first."@
    }
}

/// The message for a frame operation that is not legal on a table of a kind.
pub fn misuse(context: ContextType, opcode: OpCode) -> (s: &'static str)
    ensures
        s@ == misuse_message(context, opcode),
{
    if opcode == OpCode::Agg {
        "Agg() can only be called on LazyGroupBy. Use GroupBy() first."
    } else if context == ContextType::LazyGroupBy {
        "Operation is not allowed on grouped data. Call agg() first to resolve grouping."
    } else {
        "Cannot add null row to lazy frame. Call collect() first."
    }
}

/// The kind that a handle's tag names; a tag that names none counts as that
/// of a frame.
pub open spec fn context_of(handle: PolarsHandle) -> ContextType {
    match handle.get_context_type() {
        Some(kind) => kind,
        None => ContextType::DataFrame,
    }
}

/// Runs one frame operation on the table that a handle names. The answer
/// comes with the kind of the table that a success yields.
pub fn dispatch_dataframe_operation(
    engine: &mut Engine,
    opcode: OpCode,
    handle: PolarsHandle,
    context: &mut ExecutionContext,
) -> (r: (FfiResult, ContextType))
    ensures
        frame_outcome(
            old(engine)@,
            final(engine)@,
            r.0,
            frame_step(
                opcode,
                old(engine)@,
                handle,
                old(context).expr_stack@,
                *old(context).operation_args,
            ),
        ),
        final(context).operation_args == old(context).operation_args,
        final(context).expr_stack@ == if drains(opcode) && r.0.error_code == 0 {
            Seq::<Expr>::empty()
        } else {
            old(context).expr_stack@
        },
        r.1 == context_after(context_of(handle), opcode),
{
    let input_context = match handle.get_context_type() {
        Some(kind) => kind,
        None => ContextType::DataFrame,
    };
    match opcode {
        OpCode::NewEmpty => (dataframe::dispatch_new_empty(engine), ContextType::DataFrame),
        OpCode::ReadCsv => (io::dispatch_read_csv(engine, context), ContextType::LazyFrame),
        OpCode::ReadParquet => (io::dispatch_read_parquet(engine, context), ContextType::LazyFrame),
        OpCode::Select => (
            dataframe::dispatch_select(engine, handle, context),
            ContextType::LazyFrame,
        ),
        OpCode::SelectExpr => (
            dataframe::dispatch_select_expr(engine, handle, context),
            ContextType::LazyFrame,
        ),
        OpCode::Count => (dataframe::dispatch_count(engine, handle), ContextType::LazyFrame),
        OpCode::Concat => (dataframe::dispatch_concat(engine, context), ContextType::DataFrame),
        OpCode::WithColumn => (
            dataframe::dispatch_with_column(engine, handle, context),
            ContextType::LazyFrame,
        ),
        OpCode::FilterExpr => (
            dataframe::dispatch_filter_expr(engine, handle, context),
            ContextType::LazyFrame,
        ),
        OpCode::GroupBy => (
            dataframe::dispatch_group_by(engine, handle, context),
            ContextType::LazyGroupBy,
        ),
        OpCode::Agg => (dataframe::dispatch_agg(engine, handle, context), ContextType::LazyFrame),
        OpCode::Sort => (dataframe::dispatch_sort(engine, handle, context), input_context),
        OpCode::Limit => (dataframe::dispatch_limit(engine, handle, context), input_context),
        OpCode::AddNullRow => (
            dataframe::dispatch_add_null_row(engine, handle),
            ContextType::DataFrame,
        ),
        OpCode::Collect => (dataframe::dispatch_collect(engine, handle), ContextType::DataFrame),
        OpCode::Query => (dataframe::dispatch_query(engine, handle, context), ContextType::LazyFrame),
        OpCode::Join => (dataframe::dispatch_join(engine, handle, context), input_context),
        _ => (
            FfiResult::error(ERROR_POLARS_OPERATION, "Unsupported DataFrame operation"),
            input_context,
        ),
    }
}

/// Where a chain stands between two operations.
pub struct ChainState {
    /// What the engine owns.
    pub tables: Map<usize, Table>,
    /// The current handle.
    pub current: usize,
    /// The kind of the current table.
    pub context: ContextType,
    /// Whether an operation of this chain made the current table.
    pub owned: bool,
    /// The pending expressions.
    pub stack: Seq<Expr>,
}

impl ChainState {
    /// The current handle with its tag.
    pub open spec fn handle(self) -> PolarsHandle {
        PolarsHandle { handle: self.current, context_type: self.context.tag_spec() }
    }

    /// What the engine owns once the chain has given up what it made: the
    /// handle that was passed into the chain stays.
    pub open spec fn released(self) -> Map<usize, Table> {
        if self.owned {
            self.tables.remove(self.current)
        } else {
            self.tables
        }
    }

    /// The state after a frame operation that made `table` under the handle
    /// `made`: the table it replaces is given up if the chain had made it.
    pub open spec fn advance(self, opcode: OpCode, made: usize, table: Table) -> ChainState {
        ChainState {
            tables: if self.owned {
                self.tables.insert(made, table).remove(self.current)
            } else {
                self.tables.insert(made, table)
            },
            current: made,
            context: context_after(self.context, opcode),
            owned: true,
            stack: if drains(opcode) {
                Seq::empty()
            } else {
                self.stack
            },
        }
    }

    /// The state after an expression operation.
    pub open spec fn with_stack(self, stack: Seq<Expr>) -> ChainState {
        ChainState { stack, ..self }
    }
}

/// The answer reports that the operation at `index` failed with `code`: it
/// carries a message and no handle.
pub open spec fn chain_failure(r: FfiResult, code: i32, index: nat) -> bool {
    &&& r.polars_handle.handle == 0
    &&& r.polars_handle.context_type == ContextType::DataFrame.tag_spec()
    &&& r.error_code == code
    &&& r.error_message is Some
    &&& r.error_frame == index
}

/// A handle that a new object can get: it is not zero and names nothing.
pub open spec fn fresh(tables: Map<usize, Table>, handle: usize) -> bool {
    handle != 0 && !tables.dom().contains(handle)
}

/// Whether a frame operation can yield `table`.
pub open spec fn admits(step: FrameStep, table: Table) -> bool {
    match step {
        FrameStep::Refuse(_) => false,
        FrameStep::RefuseGrouped => false,
        FrameStep::Install(t) => table == t,
        FrameStep::Produce(kind) => table.kind() == kind,
        FrameStep::Try(t) => table == t,
        FrameStep::Run(_) => table is Frame,
        FrameStep::Ask(_, _) => table is Plan,
        FrameStep::Among(_, tables) => tables.contains(table),
    }
}

/// Whether a frame operation can fail with `code`.
pub open spec fn fails_with(step: FrameStep, code: i32) -> bool {
    match step {
        FrameStep::Refuse(c) => code == c,
        FrameStep::RefuseGrouped => code == ERROR_POLARS_OPERATION,
        FrameStep::Install(_) => false,
        FrameStep::Produce(_) => false,
        FrameStep::Try(_) => code == ERROR_POLARS_OPERATION,
        FrameStep::Run(_) => code == ERROR_POLARS_OPERATION,
        FrameStep::Ask(_, _) => code == ERROR_POLARS_OPERATION,
        FrameStep::Among(codes, _) => codes.contains(code),
    }
}

/// The chain driver: what running the operations from position `i` on, from
/// a state, can end in. `r` is the answer, `post` what the engine owns
/// afterwards, and `pending` the expressions that are left.
///
/// Operations run in order. A code that names no operation fails, and so
/// does an operation of neither class. A frame operation fails where the
/// context automaton forbids it, before its handler is asked; else it does
/// what `frame_step` says, on the current handle, and a success makes its
/// result the current table. An expression operation does what `expr_step`
/// says; where the SQL parser decides, the step fails or pushes the parser's
/// expression. The first failure ends the chain: the answer carries its code
/// and position, and the tables that the chain made are given up. A chain
/// that runs through answers with the current handle and its kind.
pub open spec fn chain_run(
    state: ChainState,
    ops: Seq<Operation>,
    i: nat,
    r: FfiResult,
    post: Map<usize, Table>,
    pending: Seq<Expr>,
) -> bool
    decreases ops.len() - i,
{
    if i >= ops.len() {
        &&& r.is_success_with(state.current, state.context)
        &&& post == state.tables
        &&& pending == state.stack
    } else {
        let op = ops[i as int];
        match opcode_of(op.opcode) {
            None => chain_failure(r, ERROR_POLARS_OPERATION, i) && post == state.released(),
            Some(opcode) => if opcode.is_dataframe_op() {
                if !context_allows(state.context, opcode) {
                    &&& chain_failure(r, ERROR_POLARS_OPERATION, i)
                    &&& r.error_message->Some_0@ == misuse_message(state.context, opcode)
                    &&& post == state.released()
                } else {
                    let step = frame_step(opcode, state.tables, state.handle(), state.stack, op.args);
                    ||| (fails_with(step, r.error_code) && chain_failure(r, r.error_code, i)
                        && post == state.released())
                    ||| (exists|made: usize, table: Table|
                        admits(step, table) && fresh(state.tables, made) && chain_run(
                            #[trigger] state.advance(opcode, made, table),
                            ops,
                            i + 1,
                            r,
                            post,
                            pending,
                        ))
                }
            } else if opcode.is_expression_op() {
                match expr_step(opcode, state.stack, op.args) {
                    ExprStep::Refuse(code) => chain_failure(r, code, i) && post
                        == state.released(),
                    ExprStep::Done(stack) => chain_run(
                        state.with_stack(stack),
                        ops,
                        i + 1,
                        r,
                        post,
                        pending,
                    ),
                    ExprStep::Parse => {
                        ||| (chain_failure(r, ERROR_POLARS_OPERATION, i) && post
                            == state.released())
                        ||| (exists|e: Expr|
                            chain_run(
                                #[trigger] state.with_stack(state.stack.push(e)),
                                ops,
                                i + 1,
                                r,
                                post,
                                pending,
                            ))
                    },
                }
            } else {
                chain_failure(r, ERROR_POLARS_OPERATION, i) && post == state.released()
            },
        }
    }
}

/// The state in which a chain starts: on the handle that is passed in, with
/// no pending expressions.
pub open spec fn initial_state(tables: Map<usize, Table>, handle: PolarsHandle) -> ChainState {
    ChainState {
        tables,
        current: handle.handle,
        context: context_of(handle),
        owned: false,
        stack: Seq::empty(),
    }
}

/// What executing a chain can end in. A chain without operations is
/// refused as missing arguments, at position zero, and leaves the engine
/// alone.
pub open spec fn chain_result(
    tables: Map<usize, Table>,
    handle: PolarsHandle,
    ops: Seq<Operation>,
    r: FfiResult,
    post: Map<usize, Table>,
    pending: Seq<Expr>,
) -> bool {
    if ops.len() == 0 {
        chain_failure(r, ERROR_NULL_ARGS, 0) && post == tables
    } else {
        chain_run(initial_state(tables, handle), ops, 0, r, post, pending)
    }
}

/// The codes with which frame operations fail are error codes: none is
/// zero.
pub proof fn lemma_frame_step_codes(
    opcode: OpCode,
    tables: Map<usize, Table>,
    handle: PolarsHandle,
    stack: Seq<Expr>,
    args: OpArgs,
    code: i32,
)
    requires
        fails_with(frame_step(opcode, tables, handle, stack, args), code),
    ensures
        1 <= code <= 4,
{
    if opcode == OpCode::Sort {
        if let OpArgs::Sort(a) = args {
            dataframe::lemma_sort_keys_codes(a.fields@, a.fields@.len());
        }
    }
    if opcode == OpCode::FilterExpr {
        if let FrameStep::Among(codes, _) = frame_step(opcode, tables, handle, stack, args) {
            let ops = args->FilterExpr_0.expr_ops->Some_0@;
            let message = choose|message: Seq<char>| #[trigger]
                expr_program(ops, Err::<Expr, (i32, Seq<char>)>((code, message)));
            lemma_expr_program_codes(ops, Seq::empty(), 0, code, message);
        }
    }
}

/// A frame operation that answers with success has handed its result to the
/// engine under the handle of the answer.
pub proof fn lemma_success_installs(
    pre: Map<usize, Table>,
    post: Map<usize, Table>,
    r: FfiResult,
    step: FrameStep,
)
    requires
        frame_outcome(pre, post, r, step),
        r.error_code == 0,
        !fails_with(step, 0),
    ensures
        exists|table: Table| admits(step, table) && installed(pre, post, r, table),
{
    match step {
        FrameStep::Refuse(_) => {},
        FrameStep::RefuseGrouped => {},
        FrameStep::Install(table) => {
            assert(admits(step, table) && installed(pre, post, r, table));
        },
        FrameStep::Produce(kind) => {
            let table = choose|table: Table|
                table.kind() == kind && installed(pre, post, r, table);
            assert(admits(step, table) && installed(pre, post, r, table));
        },
        FrameStep::Try(table) => {
            assert(admits(step, table) && installed(pre, post, r, table));
        },
        FrameStep::Run(_) => {
            let table = choose|table: Table| table is Frame && installed(pre, post, r, table);
            assert(admits(step, table) && installed(pre, post, r, table));
        },
        FrameStep::Ask(_, _) => {
            let table = choose|table: Table| table is Plan && installed(pre, post, r, table);
            assert(admits(step, table) && installed(pre, post, r, table));
        },
        FrameStep::Among(_, tables) => {
            let table = choose|table: Table|
                tables.contains(table) && installed(pre, post, r, table);
            assert(admits(step, table) && installed(pre, post, r, table));
        },
    }
}

/// A frame operation fails only with a code that is not zero.
pub proof fn lemma_frame_step_never_fails_with_zero(
    opcode: OpCode,
    tables: Map<usize, Table>,
    handle: PolarsHandle,
    stack: Seq<Expr>,
    args: OpArgs,
)
    ensures
        !fails_with(frame_step(opcode, tables, handle, stack, args), 0),
{
    if fails_with(frame_step(opcode, tables, handle, stack, args), 0) {
        lemma_frame_step_codes(opcode, tables, handle, stack, args, 0);
    }
}

/// What an expression operation of a chain leads to: the stack with which
/// the chain goes on, or nothing where the chain ends at the operation, with
/// an error code and the tables of the chain given up.
pub proof fn lemma_expression_step(
    state: ChainState,
    ops: Seq<Operation>,
    i: nat,
    r: FfiResult,
    post: Map<usize, Table>,
    pending: Seq<Expr>,
) -> (next: Option<Seq<Expr>>)
    requires
        i < ops.len(),
        opcode_of(ops[i as int].opcode) matches Some(opcode) && !opcode.is_dataframe_op()
            && opcode.is_expression_op(),
        chain_run(state, ops, i, r, post, pending),
    ensures
        match next {
            Some(stack) => chain_run(state.with_stack(stack), ops, i + 1, r, post, pending),
            None => 2 <= r.error_code <= 4 && chain_failure(r, r.error_code, i) && post
                == state.released(),
        },
{
    let op = ops[i as int];
    let opcode = opcode_of(op.opcode)->Some_0;
    lemma_expr_step_codes(opcode, state.stack, op.args);
    match expr_step(opcode, state.stack, op.args) {
        ExprStep::Refuse(_) => None,
        ExprStep::Done(stack) => Some(stack),
        ExprStep::Parse => {
            if chain_failure(r, ERROR_POLARS_OPERATION, i) && post == state.released() {
                None
            } else {
                let e = choose|e: Expr|
                    chain_run(
                        #[trigger] state.with_stack(state.stack.push(e)),
                        ops,
                        i + 1,
                        r,
                        post,
                        pending,
                    );
                Some(state.stack.push(e))
            }
        },
    }
}

/// The answer that reports the failure of the operation at `index`.
fn failure_at(failed: FfiResult, index: usize) -> (r: FfiResult)
    requires
        failed.error_message is Some,
    ensures
        chain_failure(r, failed.error_code, index as nat),
        r.error_message == failed.error_message,
{
    FfiResult {
        polars_handle: PolarsHandle::new(0, ContextType::DataFrame),
        error_code: failed.error_code,
        error_message: failed.error_message,
        error_frame: index,
    }
}

/// Gives up the current table if the chain made it.
fn give_up(engine: &mut Engine, current: usize, owned: bool)
    ensures
        final(engine)@ == if owned {
            old(engine)@.remove(current)
        } else {
            old(engine)@
        },
{
    if owned {
        engine.release(current);
    }
}

/// Runs a chain of operations and returns, with the answer, the expressions
/// that are left pending.
pub fn execute_chain(
    engine: &mut Engine,
    polars_handle: PolarsHandle,
    operations: &Vec<Operation>,
) -> (r: (FfiResult, Vec<Expr>))
    ensures
        chain_result(old(engine)@, polars_handle, operations@, r.0, final(engine)@, r.1@),
{
    if operations.len() == 0 {
        return (
            FfiResult::error(ERROR_NULL_ARGS, "Operations cannot be null or empty"),
            Vec::new(),
        );
    }
    let mut current_handle = polars_handle.handle;
    let mut current_context_type = match polars_handle.get_context_type() {
        Some(kind) => kind,
        None => ContextType::DataFrame,
    };
    let mut owned = false;
    let mut expr_stack: Vec<Expr> = Vec::new();
    let ghost start = initial_state(old(engine)@, polars_handle);
    let mut frame_idx: usize = 0;
    while frame_idx < operations.len()
        invariant
            frame_idx <= operations@.len(),
            operations@.len() > 0,
            start == initial_state(old(engine)@, polars_handle),
            forall|r: FfiResult, post: Map<usize, Table>, pending: Seq<Expr>|
                #[trigger] chain_run(
                    ChainState {
                        tables: engine@,
                        current: current_handle,
                        context: current_context_type,
                        owned,
                        stack: expr_stack@,
                    },
                    operations@,
                    frame_idx as nat,
                    r,
                    post,
                    pending,
                ) ==> chain_run(start, operations@, 0, r, post, pending),
        decreases operations@.len() - frame_idx,
    {
        let op = &operations[frame_idx];
        let ghost state = ChainState {
            tables: engine@,
            current: current_handle,
            context: current_context_type,
            owned,
            stack: expr_stack@,
        };
        let opcode = match op.get_opcode() {
            Some(opcode) => opcode,
            None => {
                let message = crate::types::numbered_message("Invalid opcode: ", op.opcode);
                let failed = FfiResult::error(ERROR_POLARS_OPERATION, message.as_str());
                give_up(engine, current_handle, owned);
                let r = failure_at(failed, frame_idx);
                assert(chain_run(state, operations@, frame_idx as nat, r, engine@, expr_stack@));
                return (r, expr_stack);
            },
        };
        if opcode.is_dataframe_op() {
            if !context_permits(current_context_type, opcode) {
                let failed = FfiResult::error(
                    ERROR_POLARS_OPERATION,
                    misuse(current_context_type, opcode),
                );
                give_up(engine, current_handle, owned);
                let r = failure_at(failed, frame_idx);
                assert(chain_run(state, operations@, frame_idx as nat, r, engine@, expr_stack@));
                return (r, expr_stack);
            }
            let mut ctx = ExecutionContext { expr_stack, operation_args: &op.args };
            let (result, new_context_type) = dispatch_dataframe_operation(
                engine,
                opcode,
                PolarsHandle::new(current_handle, current_context_type),
                &mut ctx,
            );
            expr_stack = ctx.expr_stack;
            let ghost step = frame_step(opcode, state.tables, state.handle(), state.stack, op.args);
            if result.error_code != 0 {
                give_up(engine, current_handle, owned);
                let r = failure_at(result, frame_idx);
                assert(chain_run(state, operations@, frame_idx as nat, r, engine@, expr_stack@));
                return (r, expr_stack);
            }
            let made = result.polars_handle.handle;
            let ghost mid = engine@;
            proof {
                lemma_frame_step_never_fails_with_zero(
                    opcode,
                    state.tables,
                    state.handle(),
                    state.stack,
                    op.args,
                );
                lemma_success_installs(state.tables, mid, result, step);
            }
            let ghost table = choose|table: Table|
                admits(step, table) && installed(state.tables, mid, result, table);
            give_up(engine, current_handle, owned);
            current_handle = made;
            current_context_type = new_context_type;
            owned = true;
            proof {
                let next = ChainState {
                    tables: engine@,
                    current: current_handle,
                    context: current_context_type,
                    owned,
                    stack: expr_stack@,
                };
                assert(next.tables =~= state.advance(opcode, made, table).tables);
                assert(next == state.advance(opcode, made, table));
                assert forall|r: FfiResult, post: Map<usize, Table>, pending: Seq<Expr>|
                    #[trigger] chain_run(
                        next,
                        operations@,
                        (frame_idx + 1) as nat,
                        r,
                        post,
                        pending,
                    ) implies chain_run(start, operations@, 0, r, post, pending) by {
                    assert(chain_run(state, operations@, frame_idx as nat, r, post, pending));
                }
            }
        } else if opcode.is_expression_op() {
            let mut ctx = ExecutionContext { expr_stack, operation_args: &op.args };
            let result = dispatch_expression_operation(opcode, &mut ctx);
            expr_stack = ctx.expr_stack;
            if result.error_code != 0 {
                give_up(engine, current_handle, owned);
                let r = failure_at(result, frame_idx);
                assert(chain_run(state, operations@, frame_idx as nat, r, engine@, expr_stack@));
                return (r, expr_stack);
            }
            proof {
                lemma_expr_step_codes(opcode, state.stack, op.args);
                let next = state.with_stack(expr_stack@);
                if expr_step(opcode, state.stack, op.args) is Parse {
                    let e = choose|e: Expr| expr_stack@ == #[trigger] state.stack.push(e);
                    assert(next == state.with_stack(state.stack.push(e)));
                }
                assert forall|r: FfiResult, post: Map<usize, Table>, pending: Seq<Expr>|
                    #[trigger] chain_run(
                        next,
                        operations@,
                        (frame_idx + 1) as nat,
                        r,
                        post,
                        pending,
                    ) implies chain_run(start, operations@, 0, r, post, pending) by {
                    assert(chain_run(state, operations@, frame_idx as nat, r, post, pending));
                }
            }
        } else {
            let failed = FfiResult::error(ERROR_POLARS_OPERATION, "Unknown operation type");
            give_up(engine, current_handle, owned);
            let r = failure_at(failed, frame_idx);
            assert(chain_run(state, operations@, frame_idx as nat, r, engine@, expr_stack@));
            return (r, expr_stack);
        }
        frame_idx += 1;
    }
    let r = FfiResult::success_with_handle(current_handle, current_context_type);
    assert(chain_run(
        ChainState {
            tables: engine@,
            current: current_handle,
            context: current_context_type,
            owned,
            stack: expr_stack@,
        },
        operations@,
        frame_idx as nat,
        r,
        engine@,
        expr_stack@,
    ));
    (r, expr_stack)
}

/// Runs a chain of operations on the table that a handle names and answers
/// with a handle to the result, or with the error and position of the
/// operation that failed. Expressions that the chain leaves pending are
/// dropped.
pub fn execute_operations(
    engine: &mut Engine,
    polars_handle: PolarsHandle,
    operations: &Vec<Operation>,
) -> (r: FfiResult)
    ensures
        exists|pending: Seq<Expr>|
            chain_result(old(engine)@, polars_handle, operations@, r, final(engine)@, pending),
        r.error_code != 0 ==> failed_chain_leaves(old(engine)@, final(engine)@, r, operations@.len()),
        r.error_code == 0 ==> r.polars_handle.context_type == final_context(
            context_of(polars_handle),
            operations@,
            0,
        ).tag_spec(),
        r.error_code == 0 ==> finished_chain_leaves(
            old(engine)@,
            final(engine)@,
            r,
            polars_handle.handle,
        ),
{
    let (r, pending) = execute_chain(engine, polars_handle, operations);
    proof {
        assert(chain_result(old(engine)@, polars_handle, operations@, r, engine@, pending@));
        if operations@.len() > 0 {
            let start = initial_state(old(engine)@, polars_handle);
            lemma_chain_run_leaves(start, old(engine)@, operations@, 0, r, engine@, pending@);
            if r.error_code == 0 {
                lemma_chain_run_context(start, operations@, 0, r, engine@, pending@);
            }
        }
    }
    r
}

/// The result of a frame operation is of the kind that the context
/// automaton announces.
pub proof fn lemma_frame_step_kind(
    opcode: OpCode,
    tables: Map<usize, Table>,
    handle: PolarsHandle,
    stack: Seq<Expr>,
    args: OpArgs,
    table: Table,
)
    requires
        admits(frame_step(opcode, tables, handle, stack, args), table),
        handle.get_context_type() is Some,
    ensures
        table.kind() == context_after(context_of(handle), opcode),
{
}

/// The handle of an answer tells whether the frame operation succeeded: on
/// success it is not zero and names a table of the kind that the answer's
/// tag names, which is the kind that the context automaton announces; on
/// failure it is zero and the engine owns what it owned.
pub proof fn lemma_handle_tells_success(
    opcode: OpCode,
    pre: Map<usize, Table>,
    post: Map<usize, Table>,
    handle: PolarsHandle,
    stack: Seq<Expr>,
    args: OpArgs,
    r: FfiResult,
)
    requires
        frame_outcome(pre, post, r, frame_step(opcode, pre, handle, stack, args)),
    ensures
        r.error_code == 0 ==> r.polars_handle.handle != 0 && post.dom().contains(
            r.polars_handle.handle,
        ) && post[r.polars_handle.handle].kind().tag_spec() == r.polars_handle.context_type,
        r.error_code == 0 && handle.get_context_type() is Some ==> post[r.polars_handle.handle].kind()
            == context_after(context_of(handle), opcode),
        r.error_code != 0 ==> r.polars_handle.handle == 0 && post == pre,
{
    let step = frame_step(opcode, pre, handle, stack, args);
    lemma_frame_step_never_fails_with_zero(opcode, pre, handle, stack, args);
    if r.error_code == 0 {
        lemma_success_installs(pre, post, r, step);
        let table = choose|table: Table| admits(step, table) && installed(pre, post, r, table);
        if handle.get_context_type() is Some {
            lemma_frame_step_kind(opcode, pre, handle, stack, args, table);
        }
    }
}

/// A grouped plan comes about by grouping and in no other way: a frame
/// operation that is legal where it stands and leaves a grouped plan is
/// `GroupBy`.
pub proof fn lemma_grouped_only_by_group_by(context: ContextType, opcode: OpCode)
    requires
        opcode.is_dataframe_op(),
        context_allows(context, opcode),
        context_after(context, opcode) == ContextType::LazyGroupBy,
    ensures
        opcode == OpCode::GroupBy,
{
}

/// A state is that of a chain which started on an engine that owned `base`:
/// besides `base` the engine owns at most the current table, under a handle
/// that `base` does not use, and that table is of the current kind.
pub open spec fn chain_state_over(state: ChainState, base: Map<usize, Table>) -> bool {
    &&& state.released() == base
    &&& state.owned ==> {
        &&& fresh(base, state.current)
        &&& state.tables.dom().contains(state.current)
        &&& state.tables[state.current].kind() == state.context
    }
}

/// What a chain that failed leaves behind: the engine owns what it owned
/// when the chain started, the answer carries a message and no handle, and
/// it names the position of an operation of the chain.
pub open spec fn failed_chain_leaves(
    base: Map<usize, Table>,
    post: Map<usize, Table>,
    r: FfiResult,
    operations: nat,
) -> bool {
    &&& post == base
    &&& r.polars_handle.handle == 0
    &&& r.error_message is Some
    &&& r.error_frame == 0 || r.error_frame < operations
}

/// What a chain that ran through leaves behind: either nothing new, and the
/// answer carries the handle that the chain started on, or exactly one new
/// table, of the kind that the answer's tag names, under the answer's handle,
/// which is not zero and was not in use.
pub open spec fn finished_chain_leaves(
    base: Map<usize, Table>,
    post: Map<usize, Table>,
    r: FfiResult,
    started_on: usize,
) -> bool {
    &&& r.error_message is None
    &&& {
        ||| (post == base && r.polars_handle.handle == started_on)
        ||| {
            &&& fresh(base, r.polars_handle.handle)
            &&& post.dom().contains(r.polars_handle.handle)
            &&& post.remove(r.polars_handle.handle) == base
            &&& post[r.polars_handle.handle].kind().tag_spec() == r.polars_handle.context_type
        }
    }
}

/// What a chain leaves behind. A chain that fails leaves the engine as it
/// was when the chain started, answers without a handle, and names the
/// position of an operation. A chain that succeeds leaves either nothing
/// new, and answers with the handle it started on, or exactly one new table,
/// of the kind that the answer's tag names, under the answer's handle, which
/// is not zero and was not in use.
pub proof fn lemma_chain_run_leaves(
    state: ChainState,
    base: Map<usize, Table>,
    ops: Seq<Operation>,
    i: nat,
    r: FfiResult,
    post: Map<usize, Table>,
    pending: Seq<Expr>,
)
    requires
        chain_state_over(state, base),
        chain_run(state, ops, i, r, post, pending),
    ensures
        r.error_code != 0 ==> failed_chain_leaves(base, post, r, ops.len()) && i <= r.error_frame
            < ops.len(),
        r.error_code == 0 ==> finished_chain_leaves(base, post, r, state.current),
        r.error_code == 0 && state.owned ==> post != base,
    decreases ops.len() - i,
{
    if i >= ops.len() {
        if state.owned {
            assert(post.remove(state.current) =~= base);
        }
    } else {
        let op = ops[i as int];
        match opcode_of(op.opcode) {
            None => {},
            Some(opcode) => {
                if opcode.is_dataframe_op() {
                    if context_allows(state.context, opcode) {
                        let step = frame_step(
                            opcode,
                            state.tables,
                            state.handle(),
                            state.stack,
                            op.args,
                        );
                        lemma_frame_step_never_fails_with_zero(
                            opcode,
                            state.tables,
                            state.handle(),
                            state.stack,
                            op.args,
                        );
                        if fails_with(step, r.error_code) {
                            lemma_frame_step_codes(
                                opcode,
                                state.tables,
                                state.handle(),
                                state.stack,
                                op.args,
                                r.error_code,
                            );
                        }
                        if !(fails_with(step, r.error_code) && chain_failure(r, r.error_code, i)
                            && post == state.released()) {
                            let (made, table) = choose|made: usize, table: Table|
                                admits(step, table) && fresh(state.tables, made) && chain_run(
                                    #[trigger] state.advance(opcode, made, table),
                                    ops,
                                    i + 1,
                                    r,
                                    post,
                                    pending,
                                );
                            let next = state.advance(opcode, made, table);
                            lemma_frame_step_kind(
                                opcode,
                                state.tables,
                                state.handle(),
                                state.stack,
                                op.args,
                                table,
                            );
                            assert(next.released() =~= base);
                            lemma_chain_run_leaves(next, base, ops, i + 1, r, post, pending);
                        }
                    }
                } else if opcode.is_expression_op() {
                    match lemma_expression_step(state, ops, i, r, post, pending) {
                        None => {},
                        Some(stack) => {
                            lemma_chain_run_leaves(
                                state.with_stack(stack),
                                base,
                                ops,
                                i + 1,
                                r,
                                post,
                                pending,
                            );
                        },
                    }
                }
            },
        }
    }
}

/// The kind of the table at the end of a chain that runs through: each frame
/// operation moves the kind as the context automaton says, and expression
/// operations leave it alone.
pub open spec fn final_context(context: ContextType, ops: Seq<Operation>, i: nat) -> ContextType
    decreases ops.len() - i,
{
    if i >= ops.len() {
        context
    } else {
        match opcode_of(ops[i as int].opcode) {
            Some(opcode) => if opcode.is_dataframe_op() {
                final_context(context_after(context, opcode), ops, i + 1)
            } else {
                final_context(context, ops, i + 1)
            },
            None => final_context(context, ops, i + 1),
        }
    }
}

/// A chain that succeeds answers with the tag of the kind that the context
/// automaton reaches on its operations.
pub proof fn lemma_chain_run_context(
    state: ChainState,
    ops: Seq<Operation>,
    i: nat,
    r: FfiResult,
    post: Map<usize, Table>,
    pending: Seq<Expr>,
)
    requires
        chain_run(state, ops, i, r, post, pending),
        r.error_code == 0,
    ensures
        r.polars_handle.context_type == final_context(state.context, ops, i).tag_spec(),
    decreases ops.len() - i,
{
    if i < ops.len() {
        let op = ops[i as int];
        match opcode_of(op.opcode) {
            None => {},
            Some(opcode) => {
                if opcode.is_dataframe_op() {
                    if context_allows(state.context, opcode) {
                        let step = frame_step(
                            opcode,
                            state.tables,
                            state.handle(),
                            state.stack,
                            op.args,
                        );
                        lemma_frame_step_never_fails_with_zero(
                            opcode,
                            state.tables,
                            state.handle(),
                            state.stack,
                            op.args,
                        );
                        if fails_with(step, r.error_code) {
                            lemma_frame_step_codes(
                                opcode,
                                state.tables,
                                state.handle(),
                                state.stack,
                                op.args,
                                r.error_code,
                            );
                        }
                        let (made, table) = choose|made: usize, table: Table|
                            admits(step, table) && fresh(state.tables, made) && chain_run(
                                #[trigger] state.advance(opcode, made, table),
                                ops,
                                i + 1,
                                r,
                                post,
                                pending,
                            );
                        lemma_chain_run_context(
                            state.advance(opcode, made, table),
                            ops,
                            i + 1,
                            r,
                            post,
                            pending,
                        );
                    }
                } else if opcode.is_expression_op() {
                    match lemma_expression_step(state, ops, i, r, post, pending) {
                        None => {},
                        Some(stack) => {
                            lemma_chain_run_context(
                                state.with_stack(stack),
                                ops,
                                i + 1,
                                r,
                                post,
                                pending,
                            );
                        },
                    }
                }
            },
        }
    }
}

/// The context automaton ends where its last frame operation puts it, if
/// that operation does not depend on where it starts.
pub proof fn lemma_final_context_of_last(context: ContextType, ops: Seq<Operation>, i: nat)
    requires
        i < ops.len(),
        opcode_of(ops.last().opcode) matches Some(opcode) && opcode.is_dataframe_op() && opcode
            != OpCode::Sort && opcode != OpCode::Limit && opcode != OpCode::Join,
    ensures
        final_context(context, ops, i) == context_after(
            context,
            opcode_of(ops.last().opcode)->Some_0,
        ),
    decreases ops.len() - i,
{
    if i + 1 < ops.len() {
        match opcode_of(ops[i as int].opcode) {
            Some(opcode) => {
                if opcode.is_dataframe_op() {
                    lemma_final_context_of_last(context_after(context, opcode), ops, i + 1);
                } else {
                    lemma_final_context_of_last(context, ops, i + 1);
                }
            },
            None => {
                lemma_final_context_of_last(context, ops, i + 1);
            },
        }
    } else {
        assert(ops[i as int] == ops.last());
        let opcode = opcode_of(ops.last().opcode)->Some_0;
        assert(final_context(context_after(context, opcode), ops, i + 1) == context_after(
            context,
            opcode,
        ));
    }
}

/// Every chain that ends with `Collect` and succeeds answers with the tag
/// of a frame.
pub proof fn lemma_collect_answers_frame(
    tables: Map<usize, Table>,
    handle: PolarsHandle,
    ops: Seq<Operation>,
    r: FfiResult,
    post: Map<usize, Table>,
    pending: Seq<Expr>,
)
    requires
        chain_result(tables, handle, ops, r, post, pending),
        r.error_code == 0,
        ops.len() > 0,
        opcode_of(ops.last().opcode) == Some(OpCode::Collect),
    ensures
        r.polars_handle.context_type == ContextType::DataFrame.tag_spec(),
{
    let state = initial_state(tables, handle);
    lemma_chain_run_context(state, ops, 0, r, post, pending);
    lemma_final_context_of_last(state.context, ops, 0);
}

/// On a grouped plan every frame operation but its resolution, and but
/// those that do not look at the current table, is refused where it stands:
/// the chain fails at that position with the code of a failed operation,
/// and the message advises to resolve the grouping.
pub proof fn lemma_grouped_admits_only_agg(
    state: ChainState,
    ops: Seq<Operation>,
    i: nat,
    r: FfiResult,
    post: Map<usize, Table>,
    pending: Seq<Expr>,
)
    requires
        i < ops.len(),
        state.context == ContextType::LazyGroupBy,
        opcode_of(ops[i as int].opcode) matches Some(opcode) && opcode.is_dataframe_op() && opcode
            != OpCode::Agg && opcode != OpCode::NewEmpty && opcode != OpCode::ReadCsv && opcode
            != OpCode::ReadParquet && opcode != OpCode::Concat,
        chain_run(state, ops, i, r, post, pending),
    ensures
        chain_failure(r, ERROR_POLARS_OPERATION, i),
        r.error_message->Some_0@
            == "Operation is not allowed on grouped data. Call agg() first to resolve grouping."@,
        post == state.released(),
{
}

/// Whether the operation at a position is a frame operation that a grouped
/// plan refuses: any but its resolution and those that do not look at the
/// current table.
pub open spec fn misuses_grouping(ops: Seq<Operation>, j: int) -> bool {
    opcode_of(ops[j].opcode) matches Some(opcode) && opcode.is_dataframe_op() && opcode
        != OpCode::Agg && opcode != OpCode::NewEmpty && opcode != OpCode::ReadCsv && opcode
        != OpCode::ReadParquet && opcode != OpCode::Concat
}

/// Whether the operations from `from` up to, but excluding, `to` are all
/// expression operations.
pub open spec fn only_expressions_between(ops: Seq<Operation>, from: int, to: int) -> bool {
    forall|k: int|
        from <= k < to ==> (opcode_of(#[trigger] ops[k].opcode) matches Some(opcode)
            && opcode.is_expression_op())
}

/// On a grouped plan, expression operations followed by a frame operation
/// that the grouped plan refuses make the chain fail: at one of the
/// expression operations, if that fails itself, and else at the frame
/// operation, as a misuse of the grouped plan.
pub proof fn lemma_grouped_then_misuse(
    state: ChainState,
    ops: Seq<Operation>,
    i: nat,
    j: nat,
    r: FfiResult,
    post: Map<usize, Table>,
    pending: Seq<Expr>,
)
    requires
        i <= j < ops.len(),
        state.context == ContextType::LazyGroupBy,
        only_expressions_between(ops, i as int, j as int),
        misuses_grouping(ops, j as int),
        chain_run(state, ops, i, r, post, pending),
    ensures
        r.error_code != 0,
        i <= r.error_frame <= j,
        r.error_frame == j ==> chain_failure(r, ERROR_POLARS_OPERATION, j)
            && r.error_message->Some_0@ == misuse_message(
            ContextType::LazyGroupBy,
            opcode_of(ops[j as int].opcode)->Some_0,
        ),
    decreases j - i,
{
    if i == j {
        lemma_grouped_admits_only_agg(state, ops, i, r, post, pending);
    } else {
        let op = ops[i as int];
        let opcode = opcode_of(op.opcode)->Some_0;
        crate::opcodes::lemma_classes_disjoint(opcode);
        match lemma_expression_step(state, ops, i, r, post, pending) {
            None => {},
            Some(stack) => {
                lemma_grouped_then_misuse(state.with_stack(stack), ops, i + 1, j, r, post, pending);
            },
        }
    }
}

/// Every grouping that is not followed by its resolution makes the chain
/// fail. Where only expression operations stand between a `GroupBy` and a
/// frame operation that a grouped plan refuses, the chain fails at the
/// grouping or at one of the expression operations, if one of those fails
/// itself, and else at the frame operation, as a misuse of the grouped plan.
pub proof fn lemma_group_by_then_misuse(
    state: ChainState,
    ops: Seq<Operation>,
    i: nat,
    j: nat,
    r: FfiResult,
    post: Map<usize, Table>,
    pending: Seq<Expr>,
)
    requires
        i < j < ops.len(),
        opcode_of(ops[i as int].opcode) == Some(OpCode::GroupBy),
        only_expressions_between(ops, i as int + 1, j as int),
        misuses_grouping(ops, j as int),
        chain_run(state, ops, i, r, post, pending),
    ensures
        r.error_code != 0,
        i <= r.error_frame <= j,
        r.error_frame == j ==> chain_failure(r, ERROR_POLARS_OPERATION, j)
            && r.error_message->Some_0@ == misuse_message(
            ContextType::LazyGroupBy,
            opcode_of(ops[j as int].opcode)->Some_0,
        ),
{
    let op = ops[i as int];
    if context_allows(state.context, OpCode::GroupBy) {
        let step = frame_step(OpCode::GroupBy, state.tables, state.handle(), state.stack, op.args);
        lemma_frame_step_never_fails_with_zero(
                            OpCode::GroupBy,
                            state.tables,
                            state.handle(),
                            state.stack,
                            op.args,
                        );
                        if fails_with(step, r.error_code) {
                            lemma_frame_step_codes(
                                OpCode::GroupBy,
                                state.tables,
                                state.handle(),
                                state.stack,
                                op.args,
                                r.error_code,
                            );
                        }
        if !(fails_with(step, r.error_code) && chain_failure(r, r.error_code, i)
                            && post == state.released()) {
            let (made, table) = choose|made: usize, table: Table|
                admits(step, table) && fresh(state.tables, made) && chain_run(
                    #[trigger] state.advance(OpCode::GroupBy, made, table),
                    ops,
                    i + 1,
                    r,
                    post,
                    pending,
                );
            lemma_grouped_then_misuse(
                state.advance(OpCode::GroupBy, made, table),
                ops,
                i + 1,
                j,
                r,
                post,
                pending,
            );
        }
    }
}

/// A chain that ends with an operation that consumes the pending
/// expressions, and succeeds, leaves none pending.
pub proof fn lemma_consumer_leaves_nothing(
    state: ChainState,
    ops: Seq<Operation>,
    i: nat,
    r: FfiResult,
    post: Map<usize, Table>,
    pending: Seq<Expr>,
)
    requires
        i < ops.len(),
        opcode_of(ops.last().opcode) matches Some(opcode) && drains(opcode),
        chain_run(state, ops, i, r, post, pending),
        r.error_code == 0,
    ensures
        pending.len() == 0,
    decreases ops.len() - i,
{
    let op = ops[i as int];
    match opcode_of(op.opcode) {
        None => {},
        Some(opcode) => {
            if opcode.is_dataframe_op() {
                if context_allows(state.context, opcode) {
                    let step = frame_step(
                        opcode,
                        state.tables,
                        state.handle(),
                        state.stack,
                        op.args,
                    );
                    lemma_frame_step_never_fails_with_zero(
                            opcode,
                            state.tables,
                            state.handle(),
                            state.stack,
                            op.args,
                        );
                        if fails_with(step, r.error_code) {
                            lemma_frame_step_codes(
                                opcode,
                                state.tables,
                                state.handle(),
                                state.stack,
                                op.args,
                                r.error_code,
                            );
                        }
                    let (made, table) = choose|made: usize, table: Table|
                        admits(step, table) && fresh(state.tables, made) && chain_run(
                            #[trigger] state.advance(opcode, made, table),
                            ops,
                            i + 1,
                            r,
                            post,
                            pending,
                        );
                    if i + 1 < ops.len() {
                        lemma_consumer_leaves_nothing(
                            state.advance(opcode, made, table),
                            ops,
                            i + 1,
                            r,
                            post,
                            pending,
                        );
                    } else {
                        assert(ops[i as int] == ops.last());
                    }
                }
            } else if opcode.is_expression_op() {
                match lemma_expression_step(state, ops, i, r, post, pending) {
                    None => {},
                    Some(stack) => {
                        if i + 1 < ops.len() {
                            lemma_consumer_leaves_nothing(
                                state.with_stack(stack),
                                ops,
                                i + 1,
                                r,
                                post,
                                pending,
                            );
                        } else {
                            assert(ops[i as int] == ops.last());
                        }
                    },
                }
            }
        },
    }
}

/// Whether no operation of a chain is an expression operation.
pub open spec fn no_expression_ops(ops: Seq<Operation>) -> bool {
    forall|k: int|
        0 <= k < ops.len() ==> !(opcode_of(#[trigger] ops[k].opcode) matches Some(opcode)
            && opcode.is_expression_op())
}

/// A chain without expression operations that starts with nothing pending,
/// and succeeds, leaves nothing pending.
pub proof fn lemma_frame_ops_leave_nothing(
    state: ChainState,
    ops: Seq<Operation>,
    i: nat,
    r: FfiResult,
    post: Map<usize, Table>,
    pending: Seq<Expr>,
)
    requires
        state.stack.len() == 0,
        no_expression_ops(ops),
        chain_run(state, ops, i, r, post, pending),
        r.error_code == 0,
    ensures
        pending.len() == 0,
    decreases ops.len() - i,
{
    if i < ops.len() {
        let op = ops[i as int];
        match opcode_of(op.opcode) {
            None => {},
            Some(opcode) => {
                if opcode.is_dataframe_op() {
                    if context_allows(state.context, opcode) {
                        let step = frame_step(
                            opcode,
                            state.tables,
                            state.handle(),
                            state.stack,
                            op.args,
                        );
                        lemma_frame_step_never_fails_with_zero(
                            opcode,
                            state.tables,
                            state.handle(),
                            state.stack,
                            op.args,
                        );
                        if fails_with(step, r.error_code) {
                            lemma_frame_step_codes(
                                opcode,
                                state.tables,
                                state.handle(),
                                state.stack,
                                op.args,
                                r.error_code,
                            );
                        }
                        let (made, table) = choose|made: usize, table: Table|
                            admits(step, table) && fresh(state.tables, made) && chain_run(
                                #[trigger] state.advance(opcode, made, table),
                                ops,
                                i + 1,
                                r,
                                post,
                                pending,
                            );
                        lemma_frame_ops_leave_nothing(
                            state.advance(opcode, made, table),
                            ops,
                            i + 1,
                            r,
                            post,
                            pending,
                        );
                    }
                }
            },
        }
    }
}

/// An operation that consumes the pending expressions takes all of them, in
/// the order in which they were pushed, and leaves none: its result is built
/// from the whole stack, there is at least one expression on it, and the
/// chain goes on with an empty stack. So the expressions that a consumer is
/// given are those pushed since the consumer before it, or since the chain
/// started, and no expression reaches two consumers.
pub proof fn lemma_consumer_takes_all(
    state: ChainState,
    opcode: OpCode,
    args: OpArgs,
    made: usize,
    table: Table,
)
    requires
        drains(opcode),
        admits(frame_step(opcode, state.tables, state.handle(), state.stack, args), table),
    ensures
        state.stack.len() > 0,
        state.advance(opcode, made, table).stack == Seq::<Expr>::empty(),
        opcode == OpCode::SelectExpr ==> (dataframe::source_plan(
            state.tables,
            state.handle(),
        ) matches Ok(plan) && table == Table::Plan(crate::backend::select_plan(plan, state.stack))),
        opcode == OpCode::WithColumn ==> (dataframe::source_plan(
            state.tables,
            state.handle(),
        ) matches Ok(plan) && table == Table::Plan(
            crate::backend::with_columns_plan(plan, state.stack),
        )),
        opcode == OpCode::Agg ==> (dataframe::grouped_at(
            state.tables,
            state.current,
        ) matches Some(grouped) && table == Table::Plan(
            crate::backend::agg_plan(grouped, state.stack),
        )),
{
}

} // verus!
