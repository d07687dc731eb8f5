use firn::{ColumnArgs, ContextType, dispatch_add_null_row, dispatch_agg, dispatch_collect, dispatch_count, dispatch_group_by, dispatch_limit, dispatch_select, Engine, ExecutionContext, expr_column, expr_mean, FfiResult, GroupByArgs, LimitArgs, OpArgs, PolarsHandle, RawStr, SelectArgs, Table};
use polars::prelude::{col, Column, DataFrame, Expr, SortMultipleOptions};

fn raw(text: &str) -> RawStr {
    RawStr { data: text.as_bytes().to_vec() }
}

fn frame_of(engine: &Engine, result: &FfiResult) -> DataFrame {
    match engine.get(result.polars_handle.handle) {
        Some(Table::Frame(frame)) => frame.clone(),
        _ => panic!("the answer does not name a frame"),
    }
}

fn collected(engine: &mut Engine, result: &FfiResult) -> DataFrame {
    assert_eq!(result.error_code, 0, "{:?}", result.error_message);
    let answer = dispatch_collect(engine, result.polars_handle);
    assert_eq!(answer.error_code, 0, "{:?}", answer.error_message);
    assert_eq!(answer.polars_handle.context_type, 1);
    frame_of(engine, &answer)
}

fn frame_handle(handle: usize) -> PolarsHandle {
    PolarsHandle::new(handle, ContextType::DataFrame)
}

fn no_args<'a>(stack: Vec<Expr>, args: &'a OpArgs) -> ExecutionContext<'a> {
    ExecutionContext { expr_stack: stack, operation_args: args }
}

fn abc_frame() -> DataFrame {
    DataFrame::new(vec![
        Column::new("a".into(), [1i64, 2, 3]),
        Column::new("b".into(), [10i64, 20, 30]),
    ])
    .unwrap()
}

fn staff_frame() -> DataFrame {
    DataFrame::new(vec![
        Column::new("dept".into(), ["E", "S", "E", "M", "S"]),
        Column::new("salary".into(), [70i64, 45, 80, 55, 50]),
    ])
    .unwrap()
}

#[test]
fn group_by_then_mean_gives_one_row_per_group() {
    let mut engine = Engine::new();
    let handle = engine.insert(Table::Frame(staff_frame()));
    let group_args = OpArgs::GroupBy(GroupByArgs { columns: Some(vec![raw("dept")]) });
    let grouped = dispatch_group_by(&mut engine, frame_handle(handle), &no_args(Vec::new(), &group_args));
    assert_eq!(grouped.error_code, 0);
    assert_eq!(grouped.polars_handle.context_type, 3);
    let column = OpArgs::Column(ColumnArgs { name: raw("salary") });
    let mut context = no_args(Vec::new(), &column);
    assert_eq!(expr_column(&mut context).error_code, 0);
    assert_eq!(expr_mean(&mut context).error_code, 0);
    let resolved = dispatch_agg(&mut engine, grouped.polars_handle, &mut context);
    assert_eq!(resolved.polars_handle.context_type, 2);
    assert!(context.expr_stack.is_empty());
    let frame = collected(&mut engine, &resolved)
        .sort(["dept"], SortMultipleOptions::default())
        .unwrap();
    assert_eq!(frame.height(), 3);
    let dept = frame.column("dept").unwrap().str().unwrap();
    let salary = frame.column("salary").unwrap().f64().unwrap();
    assert_eq!((dept.get(0), salary.get(0)), (Some("E"), Some(75.0)));
    assert_eq!((dept.get(1), salary.get(1)), (Some("M"), Some(55.0)));
    assert_eq!((dept.get(2), salary.get(2)), (Some("S"), Some(47.5)));
}

#[test]
fn agg_needs_pending_expressions_and_a_grouped_plan() {
    let mut engine = Engine::new();
    let handle = engine.insert(Table::Frame(staff_frame()));
    let group_args = OpArgs::GroupBy(GroupByArgs { columns: Some(vec![raw("dept")]) });
    let grouped = dispatch_group_by(&mut engine, frame_handle(handle), &no_args(Vec::new(), &group_args));
    let empty = OpArgs::Empty;
    let mut context = no_args(Vec::new(), &empty);
    let answer = dispatch_agg(&mut engine, grouped.polars_handle, &mut context);
    assert_eq!(answer.error_code, 4);
    assert_eq!(answer.polars_handle.handle, 0);
    let mut pending = no_args(vec![col("salary").mean()], &empty);
    let on_frame = dispatch_agg(&mut engine, frame_handle(handle), &mut pending);
    assert_eq!(on_frame.error_code, 4);
    assert_eq!(pending.expr_stack.len(), 1);
}

const ADVICE: &str =
    "Operation is not allowed on grouped data. Call agg() first to resolve grouping.";

fn refused_as_grouped(answer: FfiResult) {
    assert_eq!(answer.error_code, 4);
    assert_eq!(answer.polars_handle.handle, 0);
    assert!(answer.error_message.as_deref().unwrap().contains("resolve grouping"));
    assert_eq!(answer.error_message.as_deref(), Some(ADVICE));
}

#[test]
fn grouped_plan_refuses_what_is_not_its_resolution() {
    let mut engine = Engine::new();
    let handle = engine.insert(Table::Frame(abc_frame()));
    let group_args = OpArgs::GroupBy(GroupByArgs { columns: Some(vec![raw("a")]) });
    let grouped = dispatch_group_by(&mut engine, frame_handle(handle), &no_args(Vec::new(), &group_args));
    let select_args = OpArgs::Select(SelectArgs { columns: Some(vec![raw("a")]) });
    refused_as_grouped(dispatch_select(&mut engine, grouped.polars_handle, &no_args(Vec::new(), &select_args)));
    refused_as_grouped(dispatch_collect(&mut engine, grouped.polars_handle));
    refused_as_grouped(dispatch_count(&mut engine, grouped.polars_handle));
    refused_as_grouped(dispatch_add_null_row(&mut engine, grouped.polars_handle));
    let limit_args = OpArgs::Limit(LimitArgs { n: 1 });
    refused_as_grouped(dispatch_limit(&mut engine, grouped.polars_handle, &no_args(Vec::new(), &limit_args)));
    refused_as_grouped(dispatch_group_by(&mut engine, grouped.polars_handle, &no_args(Vec::new(), &group_args)));
    assert!(!engine.contains(grouped.polars_handle.handle + 1));
}

#[test]
fn group_by_reports_names_that_are_not_utf8() {
    let mut engine = Engine::new();
    let handle = engine.insert(Table::Frame(staff_frame()));
    let broken = OpArgs::GroupBy(GroupByArgs {
        columns: Some(vec![raw("dept"), RawStr { data: vec![0xc3] }]),
    });
    let answer = dispatch_group_by(&mut engine, frame_handle(handle), &no_args(Vec::new(), &broken));
    assert_eq!(answer.error_code, 3);
    assert_eq!(answer.polars_handle.handle, 0);
    let answer = dispatch_group_by(&mut engine, frame_handle(0), &no_args(Vec::new(), &broken));
    assert_eq!(answer.error_code, 1);
}
