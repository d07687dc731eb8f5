use firn::{ContextType, dispatch_collect, dispatch_count, dispatch_new_empty, dispatch_select, dispatch_select_expr, dispatch_with_column, Engine, ExecutionContext, FfiResult, LimitArgs, OpArgs, PolarsHandle, RawStr, SelectArgs, Table};
use polars::prelude::{col, Column, DataFrame, Expr};

fn frame_of(engine: &Engine, result: &FfiResult) -> DataFrame {
    match engine.get(result.polars_handle.handle) {
        Some(Table::Frame(frame)) => frame.clone(),
        _ => panic!("the answer does not name a frame"),
    }
}

fn collected(engine: &mut Engine, result: &FfiResult) -> DataFrame {
    assert_eq!(result.error_code, 0, "{:?}", result.error_message);
    let answer = dispatch_collect(engine, result.polars_handle);
    assert_eq!(answer.error_code, 0, "{:?}", answer.error_message);
    assert_eq!(answer.polars_handle.context_type, 1);
    frame_of(engine, &answer)
}

fn frame_handle(handle: usize) -> PolarsHandle {
    PolarsHandle::new(handle, ContextType::DataFrame)
}

fn no_args<'a>(stack: Vec<Expr>, args: &'a OpArgs) -> ExecutionContext<'a> {
    ExecutionContext { expr_stack: stack, operation_args: args }
}

fn abc_frame() -> DataFrame {
    DataFrame::new(vec![
        Column::new("a".into(), [1i64, 2, 3]),
        Column::new("b".into(), [10i64, 20, 30]),
    ])
    .unwrap()
}

#[test]
fn new_empty_makes_a_frame_without_rows() {
    let mut engine = Engine::new();
    let answer = dispatch_new_empty(&mut engine);
    assert_eq!(answer.error_code, 0);
    assert_ne!(answer.polars_handle.handle, 0);
    assert_eq!(answer.polars_handle.context_type, 1);
    assert!(answer.error_message.is_none());
    assert_eq!(frame_of(&engine, &answer).height(), 0);
    assert_eq!(firn::dataframe_height(&engine, answer.polars_handle.handle), 0);
}

#[test]
fn count_gives_one_row_named_count() {
    let mut engine = Engine::new();
    let handle = engine.insert(Table::Frame(abc_frame()));
    let answer = dispatch_count(&mut engine, frame_handle(handle));
    assert_eq!(answer.polars_handle.context_type, 2);
    let frame = collected(&mut engine, &answer);
    assert_eq!((frame.height(), frame.width()), (1, 1));
    assert_eq!(frame.column("count").unwrap().u32().unwrap().get(0), Some(3));
    assert_eq!(dispatch_count(&mut engine, frame_handle(0)).error_code, 1);
}

#[test]
fn handlers_refuse_handles_that_name_nothing() {
    let mut engine = Engine::new();
    let handle = engine.insert(Table::Frame(abc_frame()));
    assert_eq!(dispatch_collect(&mut engine, frame_handle(0)).error_code, 1);
    assert_eq!(dispatch_collect(&mut engine, frame_handle(handle + 1)).error_code, 1);
    assert_eq!(dispatch_collect(&mut engine, PolarsHandle::new(handle, ContextType::LazyFrame)).error_code, 1);
    let odd = PolarsHandle { handle, context_type: 9 };
    assert_eq!(dispatch_collect(&mut engine, odd).error_code, 4);
    let select_args = OpArgs::Select(SelectArgs { columns: None });
    assert_eq!(dispatch_select(&mut engine, frame_handle(handle), &no_args(Vec::new(), &select_args)).error_code, 2);
    let broken = OpArgs::Select(SelectArgs { columns: Some(vec![RawStr { data: vec![0xc3, 0x28] }]) });
    assert_eq!(dispatch_select(&mut engine, frame_handle(handle), &no_args(Vec::new(), &broken)).error_code, 3);
    let wrong = OpArgs::Limit(LimitArgs { n: 1 });
    assert_eq!(dispatch_select(&mut engine, frame_handle(handle), &no_args(Vec::new(), &wrong)).error_code, 2);
}

#[test]
fn select_expr_projects_to_the_pending_expressions_in_order() {
    let mut engine = Engine::new();
    let handle = engine.insert(Table::Frame(abc_frame()));
    let empty = OpArgs::Empty;
    let mut context = no_args(vec![col("b"), (col("a") + col("b")).alias("sum")], &empty);
    let answer = dispatch_select_expr(&mut engine, frame_handle(handle), &mut context);
    assert!(context.expr_stack.is_empty());
    let frame = collected(&mut engine, &answer);
    let names: Vec<String> = frame.get_column_names().iter().map(|n| n.to_string()).collect();
    assert_eq!(names, vec!["b".to_string(), "sum".to_string()]);
    assert_eq!(frame.column("sum").unwrap().i64().unwrap().get(2), Some(33));
    let mut nothing = no_args(Vec::new(), &empty);
    assert_eq!(dispatch_select_expr(&mut engine, frame_handle(handle), &mut nothing).error_code, 4);
    assert_eq!(dispatch_with_column(&mut engine, frame_handle(handle), &mut nothing).error_code, 4);
}
