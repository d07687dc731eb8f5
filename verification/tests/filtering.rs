use firn::{
    dispatch_filter_expr, ColumnArgs, ContextType, Engine, ExecutionContext, FilterExprArgs,
    Literal, LiteralArgs, OpArgs, OpCode, Operation, PolarsHandle, RawStr, Table,
};
use polars::prelude::{col, lit, LazyFrame};

fn raw(text: &str) -> RawStr {
    RawStr { data: text.as_bytes().to_vec() }
}

fn op(opcode: OpCode, args: OpArgs) -> Operation {
    Operation { opcode: opcode.code(), args }
}

fn int_literal(value: i64) -> Literal {
    Literal {
        value_type: 0,
        int_value: value,
        float_value: lit(0.0),
        string_value: raw(""),
        bool_value: false,
    }
}

fn plan_handle(handle: usize) -> PolarsHandle {
    PolarsHandle::new(handle, ContextType::LazyFrame)
}

fn described(engine: &Engine, handle: usize) -> String {
    match engine.get(handle) {
        Some(Table::Plan(plan)) => plan.describe_plan().unwrap(),
        _ => panic!("the handle does not name a plan"),
    }
}

#[test]
fn filter_extends_the_plan_by_the_predicate() {
    let source = LazyFrame::default().select([lit(1i64).alias("a"), lit(10i64).alias("b")]);
    let mut engine = Engine::new();
    let handle = engine.insert(Table::Plan(source.clone()));
    let predicate = vec![
        op(OpCode::ExprColumn, OpArgs::Column(ColumnArgs { name: raw("a") })),
        op(OpCode::ExprLiteral, OpArgs::Literal(LiteralArgs { literal: int_literal(1) })),
        op(OpCode::ExprGt, OpArgs::Empty),
    ];
    let args = OpArgs::FilterExpr(FilterExprArgs { expr_ops: Some(predicate) });
    let context = ExecutionContext { expr_stack: Vec::new(), operation_args: &args };
    let answer = dispatch_filter_expr(&mut engine, plan_handle(handle), &context);
    assert_eq!(answer.error_code, 0);
    assert_eq!(answer.polars_handle.context_type, 2);
    assert_ne!(answer.polars_handle.handle, 0);
    assert_ne!(answer.polars_handle.handle, handle);
    let expected = source.clone().filter(col("a").gt(lit(1i64))).describe_plan().unwrap();
    assert_eq!(described(&engine, answer.polars_handle.handle), expected);
    assert_ne!(expected, source.describe_plan().unwrap());
}

#[test]
fn filter_refuses_a_missing_or_broken_program() {
    let mut engine = Engine::new();
    let handle = engine.insert(Table::Plan(LazyFrame::default()));
    let absent = OpArgs::FilterExpr(FilterExprArgs { expr_ops: None });
    let context = ExecutionContext { expr_stack: Vec::new(), operation_args: &absent };
    assert_eq!(dispatch_filter_expr(&mut engine, plan_handle(handle), &context).error_code, 2);
    let empty = OpArgs::FilterExpr(FilterExprArgs { expr_ops: Some(Vec::new()) });
    let context = ExecutionContext { expr_stack: Vec::new(), operation_args: &empty };
    assert_eq!(dispatch_filter_expr(&mut engine, plan_handle(handle), &context).error_code, 2);
    let two = OpArgs::FilterExpr(FilterExprArgs {
        expr_ops: Some(vec![
            op(OpCode::ExprColumn, OpArgs::Column(ColumnArgs { name: raw("a") })),
            op(OpCode::ExprColumn, OpArgs::Column(ColumnArgs { name: raw("b") })),
        ]),
    });
    let context = ExecutionContext { expr_stack: Vec::new(), operation_args: &two };
    let answer = dispatch_filter_expr(&mut engine, plan_handle(handle), &context);
    assert_eq!(answer.error_code, 4);
    assert_eq!(answer.polars_handle.handle, 0);
    assert_eq!(
        answer.error_message.as_deref(),
        Some("Invalid expression - stack should have exactly one element")
    );
    assert!(!engine.contains(handle + 1));
    let context = ExecutionContext { expr_stack: Vec::new(), operation_args: &two };
    assert_eq!(dispatch_filter_expr(&mut engine, plan_handle(0), &context).error_code, 1);
}

#[test]
fn filter_reports_a_name_that_is_not_utf8_as_such() {
    let mut engine = Engine::new();
    let handle = engine.insert(Table::Plan(LazyFrame::default()));
    let broken = OpArgs::FilterExpr(FilterExprArgs {
        expr_ops: Some(vec![op(
            OpCode::ExprColumn,
            OpArgs::Column(ColumnArgs { name: RawStr { data: vec![0xff] } }),
        )]),
    });
    let context = ExecutionContext { expr_stack: Vec::new(), operation_args: &broken };
    let answer = dispatch_filter_expr(&mut engine, plan_handle(handle), &context);
    assert_eq!(answer.error_code, 3);
    assert_eq!(answer.polars_handle.handle, 0);
    assert!(answer.error_message.is_some());
    assert!(!engine.contains(handle + 1));
}
