use vstd::prelude::*;
use vstd::string::StringExecFns;
use polars::prelude::Expr;
use crate::backend;
use crate::execution::ExecutionContext;
use crate::opcodes::{ContextType, OpArgs, OpCode};
use crate::types::{cast_target_of, data_type_of, decode_data_type, target_data_type, type_family, type_variant};
use crate::{
    all_text, raw_str_array_to_vec, string_views, texts, FfiResult, ERROR_INVALID_UTF8,
    ERROR_NULL_ARGS, ERROR_POLARS_OPERATION,
};

verus! {

/// The operations that replace the top of the stack by an expression built
/// from it alone.
#[derive(Debug, Clone, Copy, PartialEq, Eq, Structural)]
pub enum UnaryOp {
    Not,
    Sum,
    Mean,
    Min,
    Max,
    Median,
    First,
    Last,
    NUnique,
    IsNull,
    IsNotNull,
    StrLen,
    StrToLowercase,
    StrToUppercase,
}

/// The operations that replace the two topmost expressions by one built from
/// both.
#[derive(Debug, Clone, Copy, PartialEq, Eq, Structural)]
pub enum BinaryOp {
    Add,
    Sub,
    Mul,
    Div,
    Gt,
    Lt,
    Eq,
    And,
    Or,
}

/// The expression a unary operation builds from its operand.
pub open spec fn unary_result(op: UnaryOp, expr: Expr) -> Expr {
    match op {
        UnaryOp::Not => backend::not_expr(expr),
        UnaryOp::Sum => backend::sum_expr(expr),
        UnaryOp::Mean => backend::mean_expr(expr),
        UnaryOp::Min => backend::min_expr(expr),
        UnaryOp::Max => backend::max_expr(expr),
        UnaryOp::Median => backend::median_expr(expr),
        UnaryOp::First => backend::first_expr(expr),
        UnaryOp::Last => backend::last_expr(expr),
        UnaryOp::NUnique => backend::n_unique_expr(expr),
        UnaryOp::IsNull => backend::is_null_expr(expr),
        UnaryOp::IsNotNull => backend::is_not_null_expr(expr),
        UnaryOp::StrLen => backend::str_len_chars_expr(expr),
        UnaryOp::StrToLowercase => backend::str_to_lowercase_expr(expr),
        UnaryOp::StrToUppercase => backend::str_to_uppercase_expr(expr),
    }
}

/// The expression a binary operation builds from its operands.
pub open spec fn binary_result(op: BinaryOp, left: Expr, right: Expr) -> Expr {
    match op {
        BinaryOp::Add => backend::add_expr(left, right),
        BinaryOp::Sub => backend::sub_expr(left, right),
        BinaryOp::Mul => backend::mul_expr(left, right),
        BinaryOp::Div => backend::div_expr(left, right),
        BinaryOp::Gt => backend::gt_expr(left, right),
        BinaryOp::Lt => backend::lt_expr(left, right),
        BinaryOp::Eq => backend::eq_expr(left, right),
        BinaryOp::And => backend::and_expr(left, right),
        BinaryOp::Or => backend::or_expr(left, right),
    }
}

/// Builds the expression of a unary operation.
fn apply_unary(op: UnaryOp, expr: Expr) -> (e: Expr)
    ensures
        e == unary_result(op, expr),
{
    match op {
        UnaryOp::Not => backend::negated(expr),
        UnaryOp::Sum => backend::summed(expr),
        UnaryOp::Mean => backend::averaged(expr),
        UnaryOp::Min => backend::minimum_of(expr),
        UnaryOp::Max => backend::maximum_of(expr),
        UnaryOp::Median => backend::median_of(expr),
        UnaryOp::First => backend::first_of(expr),
        UnaryOp::Last => backend::last_of(expr),
        UnaryOp::NUnique => backend::distinct_count_of(expr),
        UnaryOp::IsNull => backend::null_test_of(expr),
        UnaryOp::IsNotNull => backend::non_null_test_of(expr),
        UnaryOp::StrLen => backend::char_length_of(expr),
        UnaryOp::StrToLowercase => backend::lowercase_of(expr),
        UnaryOp::StrToUppercase => backend::uppercase_of(expr),
    }
}

/// Builds the expression of a binary operation.
fn apply_binary(op: BinaryOp, left: Expr, right: Expr) -> (e: Expr)
    ensures
        e == binary_result(op, left, right),
{
    match op {
        BinaryOp::Add => backend::sum_of(left, right),
        BinaryOp::Sub => backend::difference_of(left, right),
        BinaryOp::Mul => backend::product_of(left, right),
        BinaryOp::Div => backend::quotient_of(left, right),
        BinaryOp::Gt => backend::greater_test(left, right),
        BinaryOp::Lt => backend::less_test(left, right),
        BinaryOp::Eq => backend::equality_test(left, right),
        BinaryOp::And => backend::conjunction_of(left, right),
        BinaryOp::Or => backend::disjunction_of(left, right),
    }
}

/// The stack with its top replaced.
pub open spec fn replace_top(stack: Seq<Expr>, expr: Expr) -> Seq<Expr> {
    stack.drop_last().push(expr)
}

/// What a unary operation does to a stack: it needs one expression and
/// replaces it by the result.
pub open spec fn unary_step(stack: Seq<Expr>, op: UnaryOp) -> Result<Seq<Expr>, i32> {
    if stack.len() < 1 {
        Err(ERROR_POLARS_OPERATION)
    } else {
        Ok(replace_top(stack, unary_result(op, stack.last())))
    }
}

/// What a binary operation does to a stack: it needs two expressions, the
/// top as right operand and the one below as left, and replaces both by the
/// result.
pub open spec fn binary_step(stack: Seq<Expr>, op: BinaryOp) -> Result<Seq<Expr>, i32> {
    if stack.len() < 2 {
        Err(ERROR_POLARS_OPERATION)
    } else {
        Ok(
            stack.drop_last().drop_last().push(
                binary_result(op, stack[stack.len() - 2], stack[stack.len() - 1]),
            ),
        )
    }
}

/// An answer agrees with a step of the stack machine: on success the stack
/// is the new one and the answer carries no handle; on failure the answer
/// carries the step's code and the stack is as it was.
pub open spec fn expr_outcome(
    pre: Seq<Expr>,
    post: Seq<Expr>,
    r: FfiResult,
    step: Result<Seq<Expr>, i32>,
) -> bool {
    match step {
        Ok(stack) => r.is_success_with(0, ContextType::DataFrame) && post == stack,
        Err(code) => r.is_failure(code) && post == pre,
    }
}

/// The failure for a stack that holds too few expressions.
fn underflow(op_name: &str, needs: &str) -> (r: FfiResult)
    ensures
        r.is_error(ERROR_POLARS_OPERATION, op_name@ + needs@),
{
    let message = String::from_str(op_name).concat(needs);
    FfiResult::error(ERROR_POLARS_OPERATION, message.as_str())
}

/// Runs a binary operation on the stack.
fn binary_expr_op(ctx: &mut ExecutionContext, op_name: &str, op: BinaryOp) -> (r: FfiResult)
    ensures
        final(ctx).operation_args == old(ctx).operation_args,
        expr_outcome(
            old(ctx).expr_stack@,
            final(ctx).expr_stack@,
            r,
            binary_step(old(ctx).expr_stack@, op),
        ),
{
    if ctx.expr_stack.len() < 2 {
        return underflow(op_name, " requires 2 expressions on stack");
    }
    let right = ctx.expr_stack.pop().unwrap();
    let left = ctx.expr_stack.pop().unwrap();
    ctx.expr_stack.push(apply_binary(op, left, right));
    FfiResult::success_no_handle()
}

/// Runs a unary operation on the stack.
fn unary_expr_op(ctx: &mut ExecutionContext, op_name: &str, op: UnaryOp) -> (r: FfiResult)
    ensures
        final(ctx).operation_args == old(ctx).operation_args,
        expr_outcome(
            old(ctx).expr_stack@,
            final(ctx).expr_stack@,
            r,
            unary_step(old(ctx).expr_stack@, op),
        ),
{
    if ctx.expr_stack.len() == 0 {
        return underflow(op_name, " requires 1 expression on stack");
    }
    let expr = ctx.expr_stack.pop().unwrap();
    ctx.expr_stack.push(apply_unary(op, expr));
    FfiResult::success_no_handle()
}

/// The string tests that compare the top expression with a pattern.
#[derive(Debug, Clone, Copy, PartialEq, Eq, Structural)]
pub enum PatternOp {
    Contains,
    StartsWith,
    EndsWith,
}

/// The expression a string test builds from its operand and its pattern.
pub open spec fn pattern_result(op: PatternOp, expr: Expr, pattern: Seq<char>) -> Expr {
    match op {
        PatternOp::Contains => backend::str_contains_expr(expr, backend::text_literal(pattern)),
        PatternOp::StartsWith => backend::str_starts_with_expr(
            expr,
            backend::text_literal(pattern),
        ),
        PatternOp::EndsWith => backend::str_ends_with_expr(expr, backend::text_literal(pattern)),
    }
}

/// The column references to a list of names, in order.
pub open spec fn column_exprs(names: Seq<Seq<char>>) -> Seq<Expr> {
    Seq::new(names.len(), |i: int| backend::column_expr(names[i]))
}

/// Builds the column references to a list of names.
pub fn columns_of(names: &Vec<String>) -> (exprs: Vec<Expr>)
    ensures
        exprs@ == column_exprs(string_views(names@)),
{
    let mut exprs: Vec<Expr> = Vec::with_capacity(names.len());
    let mut i: usize = 0;
    while i < names.len()
        invariant
            i <= names@.len(),
            exprs@.len() == i,
            forall|j: int| 0 <= j < i ==> exprs@[j] == backend::column_expr(names@[j]@),
        decreases names@.len() - i,
    {
        exprs.push(backend::col_of(names[i].as_str()));
        i += 1;
    }
    assert(exprs@ =~= column_exprs(string_views(names@)));
    exprs
}

/// Pushing a column reference: the name has to be UTF-8.
pub open spec fn column_step(stack: Seq<Expr>, args: OpArgs) -> Result<Seq<Expr>, i32> {
    match args {
        OpArgs::Column(a) => if a.name.is_text() {
            Ok(stack.push(backend::column_expr(a.name.text())))
        } else {
            Err(ERROR_INVALID_UTF8)
        },
        _ => Err(ERROR_NULL_ARGS),
    }
}

/// Pushing a literal: the tag has to name a slot, and a string has to be
/// UTF-8.
pub open spec fn literal_step(stack: Seq<Expr>, args: OpArgs) -> Result<Seq<Expr>, i32> {
    match args {
        OpArgs::Literal(a) => match a.literal.to_expr_spec() {
            Ok(e) => Ok(stack.push(e)),
            Err(error) => Err(error.code_spec()),
        },
        _ => Err(ERROR_NULL_ARGS),
    }
}

/// Standard deviation, or variance, of the top expression.
pub open spec fn spread_step(stack: Seq<Expr>, args: OpArgs, variance: bool) -> Result<
    Seq<Expr>,
    i32,
> {
    match args {
        OpArgs::Aggregation(a) => if stack.len() < 1 {
            Err(ERROR_POLARS_OPERATION)
        } else if variance {
            Ok(replace_top(stack, backend::var_expr(stack.last(), a.ddof)))
        } else {
            Ok(replace_top(stack, backend::std_expr(stack.last(), a.ddof)))
        },
        _ => Err(ERROR_NULL_ARGS),
    }
}

/// Renaming the top expression: the stack is looked at before the name.
pub open spec fn alias_step(stack: Seq<Expr>, args: OpArgs) -> Result<Seq<Expr>, i32> {
    match args {
        OpArgs::Alias(a) => if stack.len() < 1 {
            Err(ERROR_POLARS_OPERATION)
        } else if !a.name.is_text() {
            Err(ERROR_INVALID_UTF8)
        } else {
            Ok(replace_top(stack, backend::alias_expr(stack.last(), a.name.text())))
        },
        _ => Err(ERROR_NULL_ARGS),
    }
}

/// Counting the values of the top expression: all of them where nulls are
/// included, else those that are not null.
pub open spec fn count_step(stack: Seq<Expr>, args: OpArgs) -> Result<Seq<Expr>, i32> {
    match args {
        OpArgs::Count(a) => if stack.len() < 1 {
            Err(ERROR_POLARS_OPERATION)
        } else if a.include_nulls {
            Ok(replace_top(stack, backend::len_expr(stack.last())))
        } else {
            Ok(replace_top(stack, backend::count_expr(stack.last())))
        },
        _ => Err(ERROR_NULL_ARGS),
    }
}

/// Testing the top expression against a pattern: the stack is looked at
/// before the pattern.
pub open spec fn pattern_step(stack: Seq<Expr>, args: OpArgs, op: PatternOp) -> Result<
    Seq<Expr>,
    i32,
> {
    match args {
        OpArgs::Pattern(a) => if stack.len() < 1 {
            Err(ERROR_POLARS_OPERATION)
        } else if !a.pattern.is_text() {
            Err(ERROR_INVALID_UTF8)
        } else {
            Ok(replace_top(stack, pattern_result(op, stack.last(), a.pattern.text())))
        },
        _ => Err(ERROR_NULL_ARGS),
    }
}

/// What an expression operation does to the stack, as far as its inputs
/// decide.
pub enum ExprStep {
    /// The operation is refused with this error code.
    Refuse(i32),
    /// The operation succeeds and leaves this stack.
    Done(Seq<Expr>),
    /// The SQL parser decides: the operation fails, or it pushes the
    /// expression that the parser made.
    Parse,
}

/// Pushing a SQL expression: the text has to be UTF-8. Whether it parses,
/// and to what, is for the SQL parser to say.
pub open spec fn sql_step(stack: Seq<Expr>, args: OpArgs) -> ExprStep {
    match args {
        OpArgs::SqlExpr(a) => if !a.sql.is_text() {
            ExprStep::Refuse(ERROR_INVALID_UTF8)
        } else {
            ExprStep::Parse
        },
        _ => ExprStep::Refuse(ERROR_NULL_ARGS),
    }
}

/// Wrapping the top expression in a window over the partition columns; where
/// order columns are given, the result is ordered by them.
pub open spec fn over_step(stack: Seq<Expr>, args: OpArgs) -> Result<Seq<Expr>, i32> {
    match args {
        OpArgs::Window(w) => if stack.len() < 1 {
            Err(ERROR_POLARS_OPERATION)
        } else if !all_text(w.partition_columns@) || !all_text(w.order_columns@) {
            Err(ERROR_INVALID_UTF8)
        } else {
            let windowed = backend::over_expr(
                stack.last(),
                column_exprs(texts(w.partition_columns@)),
            );
            if w.order_columns@.len() == 0 {
                Ok(replace_top(stack, windowed))
            } else {
                Ok(
                    replace_top(
                        stack,
                        backend::sort_by_expr(windowed, column_exprs(texts(w.order_columns@))),
                    ),
                )
            }
        },
        _ => Err(ERROR_NULL_ARGS),
    }
}

/// Pushing the stand-in for a ranking function: the constant one under the
/// function's name. The columnar library offers no ranking within a window
/// through this interface.
pub open spec fn placeholder_step(stack: Seq<Expr>, name: Seq<char>) -> Result<Seq<Expr>, i32> {
    Ok(stack.push(backend::alias_expr(backend::small_int_literal(1), name)))
}

/// Shifting the top expression by the negated offset. Lag is given a
/// negative offset and so moves values towards later rows; lead is given a
/// positive one and moves them towards earlier rows.
pub open spec fn shift_step(stack: Seq<Expr>, args: OpArgs) -> Result<Seq<Expr>, i32> {
    match args {
        OpArgs::WindowOffset(a) => if stack.len() < 1 {
            Err(ERROR_POLARS_OPERATION)
        } else {
            Ok(
                replace_top(
                    stack,
                    backend::shift_expr(stack.last(), backend::int_literal((-a.offset) as i64)),
                ),
            )
        },
        _ => Err(ERROR_NULL_ARGS),
    }
}

/// Marking a predicate, or a true branch: the operands so far have to be on
/// the stack, which stays as it is.
pub open spec fn marker_step(stack: Seq<Expr>, needed: nat) -> Result<Seq<Expr>, i32> {
    if stack.len() < needed {
        Err(ERROR_POLARS_OPERATION)
    } else {
        Ok(stack)
    }
}

/// Closing a conditional: the three topmost expressions, from the lowest the
/// predicate, the true branch and the false branch, become one.
pub open spec fn otherwise_step(stack: Seq<Expr>) -> Result<Seq<Expr>, i32> {
    if stack.len() < 3 {
        Err(ERROR_POLARS_OPERATION)
    } else {
        Ok(
            stack.drop_last().drop_last().drop_last().push(
                backend::ternary_expr(
                    stack[stack.len() - 3],
                    stack[stack.len() - 2],
                    stack[stack.len() - 1],
                ),
            ),
        )
    }
}

/// The expression a cast builds: wrapping where asked, else strict where
/// asked, else lenient.
pub open spec fn cast_result(expr: Expr, dtype: polars::prelude::DataType, strict: bool, wrap: bool) -> Expr {
    if wrap {
        backend::wrapping_cast_expr(expr, dtype)
    } else if strict {
        backend::strict_cast_expr(expr, dtype)
    } else {
        backend::cast_expr(expr, dtype)
    }
}

/// Casting the top expression: the stack is looked at before the type code.
pub open spec fn cast_step(stack: Seq<Expr>, args: OpArgs) -> Result<Seq<Expr>, i32> {
    match args {
        OpArgs::Cast(a) => if stack.len() < 1 {
            Err(ERROR_POLARS_OPERATION)
        } else {
            match cast_target_of(type_family(a.dtype), type_variant(a.dtype)) {
                Some(target) => Ok(
                    replace_top(
                        stack,
                        cast_result(
                            stack.last(),
                            target_data_type(target),
                            a.strict,
                            a.wrap_numerical,
                        ),
                    ),
                ),
                None => Err(ERROR_POLARS_OPERATION),
            }
        },
        _ => Err(ERROR_NULL_ARGS),
    }
}

/// What an operation whose outcome its inputs decide does to the stack of
/// pending expressions, given its arguments. The result is the new stack, or
/// the code of the error. An operation that is no expression operation is an
/// error.
pub open spec fn settled_step(opcode: OpCode, stack: Seq<Expr>, args: OpArgs) -> Result<
    Seq<Expr>,
    i32,
> {
    match opcode {
        OpCode::ExprColumn => column_step(stack, args),
        OpCode::ExprLiteral => literal_step(stack, args),
        OpCode::ExprGt => binary_step(stack, BinaryOp::Gt),
        OpCode::ExprLt => binary_step(stack, BinaryOp::Lt),
        OpCode::ExprEq => binary_step(stack, BinaryOp::Eq),
        OpCode::ExprAdd => binary_step(stack, BinaryOp::Add),
        OpCode::ExprSub => binary_step(stack, BinaryOp::Sub),
        OpCode::ExprMul => binary_step(stack, BinaryOp::Mul),
        OpCode::ExprDiv => binary_step(stack, BinaryOp::Div),
        OpCode::ExprAnd => binary_step(stack, BinaryOp::And),
        OpCode::ExprOr => binary_step(stack, BinaryOp::Or),
        OpCode::ExprNot => unary_step(stack, UnaryOp::Not),
        OpCode::ExprSum => unary_step(stack, UnaryOp::Sum),
        OpCode::ExprMean => unary_step(stack, UnaryOp::Mean),
        OpCode::ExprMin => unary_step(stack, UnaryOp::Min),
        OpCode::ExprMax => unary_step(stack, UnaryOp::Max),
        OpCode::ExprMedian => unary_step(stack, UnaryOp::Median),
        OpCode::ExprFirst => unary_step(stack, UnaryOp::First),
        OpCode::ExprLast => unary_step(stack, UnaryOp::Last),
        OpCode::ExprNUnique => unary_step(stack, UnaryOp::NUnique),
        OpCode::ExprIsNull => unary_step(stack, UnaryOp::IsNull),
        OpCode::ExprIsNotNull => unary_step(stack, UnaryOp::IsNotNull),
        OpCode::ExprStrLen => unary_step(stack, UnaryOp::StrLen),
        OpCode::ExprStrToLowercase => unary_step(stack, UnaryOp::StrToLowercase),
        OpCode::ExprStrToUppercase => unary_step(stack, UnaryOp::StrToUppercase),
        OpCode::ExprStd => spread_step(stack, args, false),
        OpCode::ExprVar => spread_step(stack, args, true),
        OpCode::ExprCount => count_step(stack, args),
        OpCode::ExprCountNulls => count_step(stack, args),
        OpCode::ExprAlias => alias_step(stack, args),
        OpCode::ExprStrContains => pattern_step(stack, args, PatternOp::Contains),
        OpCode::ExprStrStartsWith => pattern_step(stack, args, PatternOp::StartsWith),
        OpCode::ExprStrEndsWith => pattern_step(stack, args, PatternOp::EndsWith),
        OpCode::ExprCast => cast_step(stack, args),
        OpCode::ExprOver => over_step(stack, args),
        OpCode::ExprRank => placeholder_step(stack, "rank"@),
        OpCode::ExprDenseRank => placeholder_step(stack, "dense_rank"@),
        OpCode::ExprRowNumber => placeholder_step(stack, "row_number"@),
        OpCode::ExprLag => shift_step(stack, args),
        OpCode::ExprLead => shift_step(stack, args),
        OpCode::ExprWhen => marker_step(stack, 1),
        OpCode::ExprThen => marker_step(stack, 2),
        OpCode::ExprOtherwise => otherwise_step(stack),
        _ => Err(ERROR_POLARS_OPERATION),
    }
}

/// The stack machine: what an operation does to the stack of pending
/// expressions, given its arguments. Every operation but the SQL expression
/// is decided by its inputs.
pub open spec fn expr_step(opcode: OpCode, stack: Seq<Expr>, args: OpArgs) -> ExprStep {
    if opcode == OpCode::ExprSql {
        sql_step(stack, args)
    } else {
        match settled_step(opcode, stack, args) {
            Ok(next) => ExprStep::Done(next),
            Err(code) => ExprStep::Refuse(code),
        }
    }
}

/// An answer agrees with a step of the stack machine. On failure the answer
/// carries the code and the stack is as it was. On success the answer
/// carries no handle and the stack is the step's; where the SQL parser
/// decides, the stack has one expression more.
pub open spec fn step_outcome(
    pre: Seq<Expr>,
    post: Seq<Expr>,
    r: FfiResult,
    step: ExprStep,
) -> bool {
    match step {
        ExprStep::Refuse(code) => r.is_failure(code) && post == pre,
        ExprStep::Done(stack) => r.is_success_with(0, ContextType::DataFrame) && post == stack,
        ExprStep::Parse => (r.is_failure(ERROR_POLARS_OPERATION) && post == pre) || (
        r.is_success_with(0, ContextType::DataFrame) && exists|e: Expr|
            post == #[trigger] pre.push(e)),
    }
}

/// An answer and a context agree with one step of the stack machine: the
/// arguments are untouched, and stack and answer are as `expr_step` says.
pub open spec fn stepped(
    pre: ExecutionContext,
    post: ExecutionContext,
    r: FfiResult,
    opcode: OpCode,
) -> bool {
    &&& post.operation_args == pre.operation_args
    &&& step_outcome(
        pre.expr_stack@,
        post.expr_stack@,
        r,
        expr_step(opcode, pre.expr_stack@, *pre.operation_args),
    )
}

/// The failure for arguments that are not those of the operation.
fn wrong_args() -> (r: FfiResult)
    ensures
        r.is_failure(ERROR_NULL_ARGS),
{
    FfiResult::error(ERROR_NULL_ARGS, "Operation arguments are missing or of another operation")
}

/// Pushes a reference to a column.
pub fn expr_column(ctx: &mut ExecutionContext) -> (r: FfiResult)
    ensures
        stepped(*old(ctx), *final(ctx), r, OpCode::ExprColumn),
{
    let op_args: &OpArgs = ctx.operation_args;
    let args = match op_args {
        OpArgs::Column(a) => a,
        _ => {
            return wrong_args();
        },
    };
    let name = match args.name.as_str() {
        Ok(s) => s,
        Err(_) => {
            return FfiResult::error(ERROR_INVALID_UTF8, "Invalid UTF-8 in column name");
        },
    };
    ctx.expr_stack.push(backend::col_of(name));
    FfiResult::success_no_handle()
}

/// Pushes a literal.
pub fn expr_literal(ctx: &mut ExecutionContext) -> (r: FfiResult)
    ensures
        stepped(*old(ctx), *final(ctx), r, OpCode::ExprLiteral),
{
    let op_args: &OpArgs = ctx.operation_args;
    let args = match op_args {
        OpArgs::Literal(a) => a,
        _ => {
            return wrong_args();
        },
    };
    let expr = match args.literal.to_expr() {
        Ok(e) => e,
        Err(error) => {
            return FfiResult::error(error.code(), error.message());
        },
    };
    ctx.expr_stack.push(expr);
    FfiResult::success_no_handle()
}

/// Replaces the two topmost expressions by the test that the lower exceeds the upper.
pub fn expr_gt(ctx: &mut ExecutionContext) -> (r: FfiResult)
    ensures
        stepped(*old(ctx), *final(ctx), r, OpCode::ExprGt),
{
    binary_expr_op(ctx, "greater than", BinaryOp::Gt)
}

/// Replaces the two topmost expressions by the test that the lower is below the upper.
pub fn expr_lt(ctx: &mut ExecutionContext) -> (r: FfiResult)
    ensures
        stepped(*old(ctx), *final(ctx), r, OpCode::ExprLt),
{
    binary_expr_op(ctx, "less than", BinaryOp::Lt)
}

/// Replaces the two topmost expressions by the test that they are equal.
pub fn expr_eq(ctx: &mut ExecutionContext) -> (r: FfiResult)
    ensures
        stepped(*old(ctx), *final(ctx), r, OpCode::ExprEq),
{
    binary_expr_op(ctx, "equality", BinaryOp::Eq)
}

/// Replaces the two topmost expressions by their sum.
pub fn expr_add(ctx: &mut ExecutionContext) -> (r: FfiResult)
    ensures
        stepped(*old(ctx), *final(ctx), r, OpCode::ExprAdd),
{
    binary_expr_op(ctx, "addition", BinaryOp::Add)
}

/// Replaces the two topmost expressions by the lower less the upper.
pub fn expr_sub(ctx: &mut ExecutionContext) -> (r: FfiResult)
    ensures
        stepped(*old(ctx), *final(ctx), r, OpCode::ExprSub),
{
    binary_expr_op(ctx, "subtraction", BinaryOp::Sub)
}

/// Replaces the two topmost expressions by their product.
pub fn expr_mul(ctx: &mut ExecutionContext) -> (r: FfiResult)
    ensures
        stepped(*old(ctx), *final(ctx), r, OpCode::ExprMul),
{
    binary_expr_op(ctx, "multiplication", BinaryOp::Mul)
}

/// Replaces the two topmost expressions by the lower divided by the upper.
pub fn expr_div(ctx: &mut ExecutionContext) -> (r: FfiResult)
    ensures
        stepped(*old(ctx), *final(ctx), r, OpCode::ExprDiv),
{
    binary_expr_op(ctx, "division", BinaryOp::Div)
}

/// Replaces the two topmost expressions by their conjunction.
pub fn expr_and(ctx: &mut ExecutionContext) -> (r: FfiResult)
    ensures
        stepped(*old(ctx), *final(ctx), r, OpCode::ExprAnd),
{
    binary_expr_op(ctx, "logical AND", BinaryOp::And)
}

/// Replaces the two topmost expressions by their disjunction.
pub fn expr_or(ctx: &mut ExecutionContext) -> (r: FfiResult)
    ensures
        stepped(*old(ctx), *final(ctx), r, OpCode::ExprOr),
{
    binary_expr_op(ctx, "logical OR", BinaryOp::Or)
}

/// Negates the top expression.
pub fn expr_not(ctx: &mut ExecutionContext) -> (r: FfiResult)
    ensures
        stepped(*old(ctx), *final(ctx), r, OpCode::ExprNot),
{
    unary_expr_op(ctx, "logical NOT", UnaryOp::Not)
}

/// Wraps the top expression in a sum.
pub fn expr_sum(ctx: &mut ExecutionContext) -> (r: FfiResult)
    ensures
        stepped(*old(ctx), *final(ctx), r, OpCode::ExprSum),
{
    unary_expr_op(ctx, "sum", UnaryOp::Sum)
}

/// Wraps the top expression in a mean.
pub fn expr_mean(ctx: &mut ExecutionContext) -> (r: FfiResult)
    ensures
        stepped(*old(ctx), *final(ctx), r, OpCode::ExprMean),
{
    unary_expr_op(ctx, "mean", UnaryOp::Mean)
}

/// Wraps the top expression in a minimum.
pub fn expr_min(ctx: &mut ExecutionContext) -> (r: FfiResult)
    ensures
        stepped(*old(ctx), *final(ctx), r, OpCode::ExprMin),
{
    unary_expr_op(ctx, "min", UnaryOp::Min)
}

/// Wraps the top expression in a maximum.
pub fn expr_max(ctx: &mut ExecutionContext) -> (r: FfiResult)
    ensures
        stepped(*old(ctx), *final(ctx), r, OpCode::ExprMax),
{
    unary_expr_op(ctx, "max", UnaryOp::Max)
}

/// Wraps the top expression in a median.
pub fn expr_median(ctx: &mut ExecutionContext) -> (r: FfiResult)
    ensures
        stepped(*old(ctx), *final(ctx), r, OpCode::ExprMedian),
{
    unary_expr_op(ctx, "median", UnaryOp::Median)
}

/// Wraps the top expression in a first value.
pub fn expr_first(ctx: &mut ExecutionContext) -> (r: FfiResult)
    ensures
        stepped(*old(ctx), *final(ctx), r, OpCode::ExprFirst),
{
    unary_expr_op(ctx, "first", UnaryOp::First)
}

/// Wraps the top expression in a last value.
pub fn expr_last(ctx: &mut ExecutionContext) -> (r: FfiResult)
    ensures
        stepped(*old(ctx), *final(ctx), r, OpCode::ExprLast),
{
    unary_expr_op(ctx, "last", UnaryOp::Last)
}

/// Wraps the top expression in a count of distinct values.
pub fn expr_nunique(ctx: &mut ExecutionContext) -> (r: FfiResult)
    ensures
        stepped(*old(ctx), *final(ctx), r, OpCode::ExprNUnique),
{
    unary_expr_op(ctx, "nunique", UnaryOp::NUnique)
}

/// Replaces the top expression by its null test.
pub fn expr_is_null(ctx: &mut ExecutionContext) -> (r: FfiResult)
    ensures
        stepped(*old(ctx), *final(ctx), r, OpCode::ExprIsNull),
{
    unary_expr_op(ctx, "is_null", UnaryOp::IsNull)
}

/// Replaces the top expression by its non-null test.
pub fn expr_is_not_null(ctx: &mut ExecutionContext) -> (r: FfiResult)
    ensures
        stepped(*old(ctx), *final(ctx), r, OpCode::ExprIsNotNull),
{
    unary_expr_op(ctx, "is_not_null", UnaryOp::IsNotNull)
}

/// Replaces the top expression by its length in characters.
pub fn expr_str_len(ctx: &mut ExecutionContext) -> (r: FfiResult)
    ensures
        stepped(*old(ctx), *final(ctx), r, OpCode::ExprStrLen),
{
    unary_expr_op(ctx, "str_len", UnaryOp::StrLen)
}

/// Replaces the top expression by its lower-case form.
pub fn expr_str_to_lowercase(ctx: &mut ExecutionContext) -> (r: FfiResult)
    ensures
        stepped(*old(ctx), *final(ctx), r, OpCode::ExprStrToLowercase),
{
    unary_expr_op(ctx, "str_to_lowercase", UnaryOp::StrToLowercase)
}

/// Replaces the top expression by its upper-case form.
pub fn expr_str_to_uppercase(ctx: &mut ExecutionContext) -> (r: FfiResult)
    ensures
        stepped(*old(ctx), *final(ctx), r, OpCode::ExprStrToUppercase),
{
    unary_expr_op(ctx, "str_to_uppercase", UnaryOp::StrToUppercase)
}

/// Wraps the top expression in a standard deviation.
pub fn expr_std(ctx: &mut ExecutionContext) -> (r: FfiResult)
    ensures
        stepped(*old(ctx), *final(ctx), r, OpCode::ExprStd),
{
    let op_args: &OpArgs = ctx.operation_args;
    let args = match op_args {
        OpArgs::Aggregation(a) => a,
        _ => {
            return wrong_args();
        },
    };
    if ctx.expr_stack.len() == 0 {
        return underflow("std", " requires 1 expression on stack");
    }
    let expr = ctx.expr_stack.pop().unwrap();
    ctx.expr_stack.push(backend::deviation_of(expr, args.ddof));
    FfiResult::success_no_handle()
}

/// Wraps the top expression in a variance.
pub fn expr_var(ctx: &mut ExecutionContext) -> (r: FfiResult)
    ensures
        stepped(*old(ctx), *final(ctx), r, OpCode::ExprVar),
{
    let op_args: &OpArgs = ctx.operation_args;
    let args = match op_args {
        OpArgs::Aggregation(a) => a,
        _ => {
            return wrong_args();
        },
    };
    if ctx.expr_stack.len() == 0 {
        return underflow("var", " requires 1 expression on stack");
    }
    let expr = ctx.expr_stack.pop().unwrap();
    ctx.expr_stack.push(backend::variance_of(expr, args.ddof));
    FfiResult::success_no_handle()
}

/// Renames the top expression.
pub fn expr_alias(ctx: &mut ExecutionContext) -> (r: FfiResult)
    ensures
        stepped(*old(ctx), *final(ctx), r, OpCode::ExprAlias),
{
    let op_args: &OpArgs = ctx.operation_args;
    let args = match op_args {
        OpArgs::Alias(a) => a,
        _ => {
            return wrong_args();
        },
    };
    if ctx.expr_stack.len() == 0 {
        return underflow("alias", " requires 1 expression on stack");
    }
    let alias_name = match args.name.as_str() {
        Ok(s) => s,
        Err(_) => {
            return FfiResult::error(ERROR_INVALID_UTF8, "Invalid UTF-8 in alias name");
        },
    };
    let expr = ctx.expr_stack.pop().unwrap();
    ctx.expr_stack.push(backend::renamed(expr, alias_name));
    FfiResult::success_no_handle()
}

/// Wraps the top expression in a count, of all its values or of those that
/// are not null.
pub fn expr_count(ctx: &mut ExecutionContext) -> (r: FfiResult)
    ensures
        stepped(*old(ctx), *final(ctx), r, OpCode::ExprCount),
        stepped(*old(ctx), *final(ctx), r, OpCode::ExprCountNulls),
{
    let op_args: &OpArgs = ctx.operation_args;
    let args = match op_args {
        OpArgs::Count(a) => a,
        _ => {
            return wrong_args();
        },
    };
    if ctx.expr_stack.len() == 0 {
        return underflow("count", " requires 1 expression on stack");
    }
    let expr = ctx.expr_stack.pop().unwrap();
    let counted = if args.include_nulls {
        backend::element_count_of(expr)
    } else {
        backend::value_count_of(expr)
    };
    ctx.expr_stack.push(counted);
    FfiResult::success_no_handle()
}

/// Runs a string test with a pattern on the stack.
fn pattern_expr_op(ctx: &mut ExecutionContext, op_name: &str, op: PatternOp) -> (r: FfiResult)
    ensures
        final(ctx).operation_args == old(ctx).operation_args,
        expr_outcome(
            old(ctx).expr_stack@,
            final(ctx).expr_stack@,
            r,
            pattern_step(old(ctx).expr_stack@, *old(ctx).operation_args, op),
        ),
{
    let op_args: &OpArgs = ctx.operation_args;
    let args = match op_args {
        OpArgs::Pattern(a) => a,
        _ => {
            return wrong_args();
        },
    };
    if ctx.expr_stack.len() == 0 {
        return underflow(op_name, " requires 1 expression on stack");
    }
    let pattern = match args.pattern.as_str() {
        Ok(s) => s,
        Err(_) => {
            return FfiResult::error(ERROR_INVALID_UTF8, "Invalid UTF-8 in pattern");
        },
    };
    let expr = ctx.expr_stack.pop().unwrap();
    let literal = backend::lit_text(pattern);
    let tested = match op {
        PatternOp::Contains => backend::substring_test(expr, literal),
        PatternOp::StartsWith => backend::prefix_test(expr, literal),
        PatternOp::EndsWith => backend::suffix_test(expr, literal),
    };
    ctx.expr_stack.push(tested);
    FfiResult::success_no_handle()
}

/// Replaces the top expression by the test that it holds the pattern.
pub fn expr_str_contains(ctx: &mut ExecutionContext) -> (r: FfiResult)
    ensures
        stepped(*old(ctx), *final(ctx), r, OpCode::ExprStrContains),
{
    pattern_expr_op(ctx, "str_contains", PatternOp::Contains)
}

/// Replaces the top expression by the test that it starts with the pattern.
pub fn expr_str_starts_with(ctx: &mut ExecutionContext) -> (r: FfiResult)
    ensures
        stepped(*old(ctx), *final(ctx), r, OpCode::ExprStrStartsWith),
{
    pattern_expr_op(ctx, "str_starts_with", PatternOp::StartsWith)
}

/// Replaces the top expression by the test that it ends with the pattern.
pub fn expr_str_ends_with(ctx: &mut ExecutionContext) -> (r: FfiResult)
    ensures
        stepped(*old(ctx), *final(ctx), r, OpCode::ExprStrEndsWith),
{
    pattern_expr_op(ctx, "str_ends_with", PatternOp::EndsWith)
}

/// What pushing a parsed SQL expression gives for each outcome of the
/// parser: the expression on top of the stack, or a failure of the columnar
/// operation whose message ends in the parser's.
pub fn push_sql_expr(ctx: &mut ExecutionContext, parsed: Result<Expr, String>) -> (r: FfiResult)
    ensures
        final(ctx).operation_args == old(ctx).operation_args,
        match parsed {
            Ok(e) => r.is_success_with(0, ContextType::DataFrame) && final(ctx).expr_stack@
                == old(ctx).expr_stack@.push(e),
            Err(text) => r.is_error(
                ERROR_POLARS_OPERATION,
                "SQL expression parsing failed: "@ + text@,
            ) && final(ctx).expr_stack@ == old(ctx).expr_stack@,
        },
{
    match parsed {
        Ok(expr) => {
            ctx.expr_stack.push(expr);
            FfiResult::success_no_handle()
        },
        Err(text) => {
            let message = String::from_str("SQL expression parsing failed: ").concat(
                text.as_str(),
            );
            FfiResult::error(ERROR_POLARS_OPERATION, message.as_str())
        },
    }
}

/// Pushes the expression that a SQL text denotes.
pub fn expr_sql(ctx: &mut ExecutionContext) -> (r: FfiResult)
    ensures
        stepped(*old(ctx), *final(ctx), r, OpCode::ExprSql),
{
    let op_args: &OpArgs = ctx.operation_args;
    let args = match op_args {
        OpArgs::SqlExpr(a) => a,
        _ => {
            return wrong_args();
        },
    };
    let sql = match args.sql.as_str() {
        Ok(s) => s,
        Err(_) => {
            return FfiResult::error(ERROR_INVALID_UTF8, "Invalid UTF-8 in SQL expression");
        },
    };
    let parsed = match backend::parse_sql_expr(sql) {
        Ok(e) => Ok(e),
        Err(error) => Err(backend::error_text(&error)),
    };
    let ghost outcome = parsed;
    let r = push_sql_expr(ctx, parsed);
    proof {
        if let Ok(e) = outcome {
            assert(ctx.expr_stack@ == old(ctx).expr_stack@.push(e));
        }
    }
    r
}

/// Wraps the top expression in a window.
pub fn expr_over(ctx: &mut ExecutionContext) -> (r: FfiResult)
    ensures
        stepped(*old(ctx), *final(ctx), r, OpCode::ExprOver),
{
    let op_args: &OpArgs = ctx.operation_args;
    let args = match op_args {
        OpArgs::Window(a) => a,
        _ => {
            return wrong_args();
        },
    };
    if ctx.expr_stack.len() == 0 {
        return underflow("over", " requires 1 expression on stack");
    }
    let partition_columns = match raw_str_array_to_vec(Some(&args.partition_columns)) {
        Ok(columns) => columns,
        Err(_) => {
            return FfiResult::error(ERROR_INVALID_UTF8, "Invalid UTF-8 in partition columns");
        },
    };
    let order_columns = match raw_str_array_to_vec(Some(&args.order_columns)) {
        Ok(columns) => columns,
        Err(_) => {
            return FfiResult::error(ERROR_INVALID_UTF8, "Invalid UTF-8 in order columns");
        },
    };
    let expr = ctx.expr_stack.pop().unwrap();
    let windowed = backend::windowed(expr, columns_of(&partition_columns));
    let windowed_expr = if order_columns.len() == 0 {
        windowed
    } else {
        backend::ordered_by(windowed, columns_of(&order_columns))
    };
    ctx.expr_stack.push(windowed_expr);
    FfiResult::success_no_handle()
}

/// Pushes the stand-in for a ranking function.
fn placeholder_expr_op(ctx: &mut ExecutionContext, name: &str) -> (r: FfiResult)
    ensures
        final(ctx).operation_args == old(ctx).operation_args,
        expr_outcome(
            old(ctx).expr_stack@,
            final(ctx).expr_stack@,
            r,
            placeholder_step(old(ctx).expr_stack@, name@),
        ),
{
    ctx.expr_stack.push(backend::renamed(backend::lit_small_int(1), name));
    FfiResult::success_no_handle()
}

/// Pushes the stand-in for the rank.
pub fn expr_rank(ctx: &mut ExecutionContext) -> (r: FfiResult)
    ensures
        stepped(*old(ctx), *final(ctx), r, OpCode::ExprRank),
{
    placeholder_expr_op(ctx, "rank")
}

/// Pushes the stand-in for the dense rank.
pub fn expr_dense_rank(ctx: &mut ExecutionContext) -> (r: FfiResult)
    ensures
        stepped(*old(ctx), *final(ctx), r, OpCode::ExprDenseRank),
{
    placeholder_expr_op(ctx, "dense_rank")
}

/// Pushes the stand-in for the row number.
pub fn expr_row_number(ctx: &mut ExecutionContext) -> (r: FfiResult)
    ensures
        stepped(*old(ctx), *final(ctx), r, OpCode::ExprRowNumber),
{
    placeholder_expr_op(ctx, "row_number")
}

/// Shifts the top expression by the negated offset of the arguments.
fn shift_expr_op(ctx: &mut ExecutionContext, op_name: &str) -> (r: FfiResult)
    ensures
        final(ctx).operation_args == old(ctx).operation_args,
        expr_outcome(
            old(ctx).expr_stack@,
            final(ctx).expr_stack@,
            r,
            shift_step(old(ctx).expr_stack@, *old(ctx).operation_args),
        ),
{
    let op_args: &OpArgs = ctx.operation_args;
    let args = match op_args {
        OpArgs::WindowOffset(a) => a,
        _ => {
            return wrong_args();
        },
    };
    if ctx.expr_stack.len() == 0 {
        return underflow(op_name, " requires 1 expression on stack");
    }
    let expr = ctx.expr_stack.pop().unwrap();
    let offset: i64 = 0 - (args.offset as i64);
    ctx.expr_stack.push(backend::shifted(expr, backend::lit_int(offset)));
    FfiResult::success_no_handle()
}

/// Replaces the top expression by its values from earlier rows: the offset
/// is negative and counts the rows to look back.
pub fn expr_lag(ctx: &mut ExecutionContext) -> (r: FfiResult)
    ensures
        stepped(*old(ctx), *final(ctx), r, OpCode::ExprLag),
{
    shift_expr_op(ctx, "lag")
}

/// Replaces the top expression by its values from later rows: the offset is
/// positive and counts the rows to look ahead.
pub fn expr_lead(ctx: &mut ExecutionContext) -> (r: FfiResult)
    ensures
        stepped(*old(ctx), *final(ctx), r, OpCode::ExprLead),
{
    shift_expr_op(ctx, "lead")
}

/// Checks that the operands of a conditional so far are on the stack.
fn marker_expr_op(ctx: &mut ExecutionContext, op_name: &str, needed: usize, needs: &str) -> (r:
    FfiResult)
    ensures
        final(ctx).operation_args == old(ctx).operation_args,
        expr_outcome(
            old(ctx).expr_stack@,
            final(ctx).expr_stack@,
            r,
            marker_step(old(ctx).expr_stack@, needed as nat),
        ),
{
    if ctx.expr_stack.len() < needed {
        return underflow(op_name, needs);
    }
    FfiResult::success_no_handle()
}

/// Marks the top expression as the predicate of a conditional.
pub fn expr_when(ctx: &mut ExecutionContext) -> (r: FfiResult)
    ensures
        stepped(*old(ctx), *final(ctx), r, OpCode::ExprWhen),
{
    marker_expr_op(ctx, "when", 1, " requires 1 expression on stack")
}

/// Marks the top expression as the true branch of a conditional, above its
/// predicate.
pub fn expr_then(ctx: &mut ExecutionContext) -> (r: FfiResult)
    ensures
        stepped(*old(ctx), *final(ctx), r, OpCode::ExprThen),
{
    marker_expr_op(ctx, "then", 2, " requires 2 expressions on stack")
}

/// Closes a conditional: predicate, true branch and false branch become one
/// expression.
pub fn expr_otherwise(ctx: &mut ExecutionContext) -> (r: FfiResult)
    ensures
        stepped(*old(ctx), *final(ctx), r, OpCode::ExprOtherwise),
{
    if ctx.expr_stack.len() < 3 {
        return underflow("otherwise", " requires 3 expressions on stack");
    }
    let falsy = ctx.expr_stack.pop().unwrap();
    let truthy = ctx.expr_stack.pop().unwrap();
    let predicate = ctx.expr_stack.pop().unwrap();
    ctx.expr_stack.push(backend::conditional(predicate, truthy, falsy));
    FfiResult::success_no_handle()
}

/// Casts the top expression to the type that the arguments name.
pub fn expr_cast(ctx: &mut ExecutionContext) -> (r: FfiResult)
    ensures
        stepped(*old(ctx), *final(ctx), r, OpCode::ExprCast),
{
    let op_args: &OpArgs = ctx.operation_args;
    let args = match op_args {
        OpArgs::Cast(a) => a,
        _ => {
            return wrong_args();
        },
    };
    if ctx.expr_stack.len() == 0 {
        return underflow("cast", " requires 1 expression on stack");
    }
    let target = match decode_data_type(args.dtype) {
        Ok(t) => t,
        Err(failure) => {
            return failure;
        },
    };
    let dtype = data_type_of(target);
    let expr = ctx.expr_stack.pop().unwrap();
    let cast = if args.wrap_numerical {
        backend::wrapping_converted(expr, dtype)
    } else if args.strict {
        backend::strictly_converted(expr, dtype)
    } else {
        backend::converted(expr, dtype)
    };
    ctx.expr_stack.push(cast);
    FfiResult::success_no_handle()
}

} // verus!
