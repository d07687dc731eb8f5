use firn::{dispatch_expression_operation, ExecutionContext, OpArgs, OpCode, RawStr, SqlExprArgs};
use polars::prelude::{col, lit, Expr};

fn sql(text: &[u8]) -> OpArgs {
    OpArgs::SqlExpr(SqlExprArgs { sql: RawStr { data: text.to_vec() } })
}

fn run(stack: Vec<Expr>, args: &OpArgs) -> (i32, Option<String>, Vec<Expr>) {
    let mut context = ExecutionContext { expr_stack: stack, operation_args: args };
    let answer = dispatch_expression_operation(OpCode::ExprSql, &mut context);
    assert_eq!(answer.polars_handle.handle, 0);
    (answer.error_code, answer.error_message, context.expr_stack)
}

#[test]
fn sql_text_is_parsed_into_an_expression() {
    let (code, message, stack) = run(vec![col("below")], &sql(b"salary > 55000"));
    assert_eq!((code, message), (0, None));
    assert_eq!(stack, vec![col("below"), polars_sql::sql_expr("salary > 55000").unwrap()]);
    assert_eq!(stack[1], col("salary").gt(lit(55000)));
}

#[test]
fn sql_text_that_does_not_parse_is_a_failed_operation() {
    let (code, message, stack) = run(vec![col("below")], &sql(b"salary >"));
    assert_eq!(code, 4);
    assert!(message.unwrap().starts_with("SQL expression parsing failed: "));
    assert_eq!(stack, vec![col("below")]);
}

#[test]
fn sql_text_has_to_be_utf8() {
    let (code, message, stack) = run(Vec::new(), &sql(&[0x61, 0xff]));
    assert_eq!(code, 3);
    assert_eq!(message.as_deref(), Some("Invalid UTF-8 in SQL expression"));
    assert!(stack.is_empty());
    assert_eq!(run(Vec::new(), &OpArgs::Empty).0, 2);
}
