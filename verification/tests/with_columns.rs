use firn::{AliasArgs, ColumnArgs, ContextType, dispatch_collect, dispatch_with_column, Engine, ExecutionContext, expr_alias, expr_column, expr_literal, expr_mul, FfiResult, Literal, LiteralArgs, OpArgs, PolarsHandle, RawStr, Table};
use polars::prelude::{IntoLazy, col, Column, DataFrame, Expr, lit};

fn raw(text: &str) -> RawStr {
    RawStr { data: text.as_bytes().to_vec() }
}

fn int_literal(value: i64) -> Literal {
    Literal {
        value_type: 0,
        int_value: value,
        float_value: lit(0.0),
        string_value: raw(""),
        bool_value: false,
    }
}

fn frame_of(engine: &Engine, result: &FfiResult) -> DataFrame {
    match engine.get(result.polars_handle.handle) {
        Some(Table::Frame(frame)) => frame.clone(),
        _ => panic!("the answer does not name a frame"),
    }
}

fn collected(engine: &mut Engine, result: &FfiResult) -> DataFrame {
    assert_eq!(result.error_code, 0, "{:?}", result.error_message);
    let answer = dispatch_collect(engine, result.polars_handle);
    assert_eq!(answer.error_code, 0, "{:?}", answer.error_message);
    assert_eq!(answer.polars_handle.context_type, 1);
    frame_of(engine, &answer)
}

fn frame_handle(handle: usize) -> PolarsHandle {
    PolarsHandle::new(handle, ContextType::DataFrame)
}

fn no_args<'a>(stack: Vec<Expr>, args: &'a OpArgs) -> ExecutionContext<'a> {
    ExecutionContext { expr_stack: stack, operation_args: args }
}

fn abc_frame() -> DataFrame {
    DataFrame::new(vec![
        Column::new("a".into(), [1i64, 2, 3]),
        Column::new("b".into(), [10i64, 20, 30]),
    ])
    .unwrap()
}

#[test]
fn with_columns_alias_leaves_the_aliased_column_alone() {
    let frame = DataFrame::new(vec![
        Column::new("name".into(), ["Alice", "Bob"]),
        Column::new("salary".into(), [50000i64, 60000]),
    ])
    .unwrap();
    let mut engine = Engine::new();
    let handle = engine.insert(Table::Frame(frame));
    let column = OpArgs::Column(ColumnArgs { name: raw("salary") });
    let two = OpArgs::Literal(LiteralArgs { literal: int_literal(2) });
    let alias = OpArgs::Alias(AliasArgs { name: raw("double") });
    let mut context = no_args(Vec::new(), &column);
    assert_eq!(expr_column(&mut context).error_code, 0);
    context.operation_args = &two;
    assert_eq!(expr_literal(&mut context).error_code, 0);
    assert_eq!(expr_mul(&mut context).error_code, 0);
    context.operation_args = &alias;
    assert_eq!(expr_alias(&mut context).error_code, 0);
    let answer = dispatch_with_column(&mut engine, frame_handle(handle), &mut context);
    let result = collected(&mut engine, &answer);
    assert_eq!(result.width(), 3);
    let salary = result.column("salary").unwrap().i64().unwrap();
    let double = result.column("double").unwrap().i64().unwrap();
    assert_eq!((salary.get(0), salary.get(1)), (Some(50000), Some(60000)));
    assert_eq!((double.get(0), double.get(1)), (Some(100000), Some(120000)));
}

#[test]
fn test_basic_functionality() {
    let df = DataFrame::new(vec![
        Column::new("name".into(), ["Alice", "Bob"]),
        Column::new("salary".into(), [50000i32, 60000]),
    ])
    .unwrap();
    let mut engine = Engine::new();
    let handle = engine.insert(Table::Frame(df));
    let empty = OpArgs::Empty;

    let mut plain = no_args(vec![col("salary") * lit(2)], &empty);
    let answer = dispatch_with_column(&mut engine, frame_handle(handle), &mut plain);
    let result = collected(&mut engine, &answer);
    assert_eq!(result.column("salary").unwrap().i32().unwrap().get(0), Some(100000));

    let mut aliased = no_args(vec![(col("salary") * lit(2)).alias("double_salary")], &empty);
    let answer2 = dispatch_with_column(&mut engine, frame_handle(handle), &mut aliased);
    let result2 = collected(&mut engine, &answer2);
    assert_eq!(result2.column("salary").unwrap().i32().unwrap().get(0), Some(50000));
    assert_eq!(result2.column("double_salary").unwrap().i32().unwrap().get(0), Some(100000));
}

#[test]
fn collect_of_a_frame_is_a_copy_and_collect_is_idempotent() {
    let mut engine = Engine::new();
    let plan = engine.insert(Table::Plan(abc_frame().lazy().filter(col("a").gt(lit(1i64)))));
    let once = dispatch_collect(&mut engine, PolarsHandle::new(plan, ContextType::LazyFrame));
    assert_eq!(once.error_code, 0);
    assert_eq!(once.polars_handle.context_type, 1);
    let twice = dispatch_collect(&mut engine, once.polars_handle);
    assert_eq!(twice.error_code, 0);
    assert_eq!(twice.polars_handle.context_type, once.polars_handle.context_type);
    assert_ne!(twice.polars_handle.handle, once.polars_handle.handle);
    assert!(frame_of(&engine, &twice).equals(&frame_of(&engine, &once)));
    assert_eq!(frame_of(&engine, &twice).height(), 2);
}
