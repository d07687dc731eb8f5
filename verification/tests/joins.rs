use firn::{ContextType, dispatch_collect, dispatch_group_by, dispatch_join, Engine, ExecutionContext, FfiResult, GroupByArgs, JoinArgs, OpArgs, PolarsHandle, RawStr, Table};
use polars::prelude::{IntoLazy, Column, DataFrame, Expr};

fn raw(text: &str) -> RawStr {
    RawStr { data: text.as_bytes().to_vec() }
}

fn frame_of(engine: &Engine, result: &FfiResult) -> DataFrame {
    match engine.get(result.polars_handle.handle) {
        Some(Table::Frame(frame)) => frame.clone(),
        _ => panic!("the answer does not name a frame"),
    }
}

fn collected(engine: &mut Engine, result: &FfiResult) -> DataFrame {
    assert_eq!(result.error_code, 0, "{:?}", result.error_message);
    let answer = dispatch_collect(engine, result.polars_handle);
    assert_eq!(answer.error_code, 0, "{:?}", answer.error_message);
    assert_eq!(answer.polars_handle.context_type, 1);
    frame_of(engine, &answer)
}

fn frame_handle(handle: usize) -> PolarsHandle {
    PolarsHandle::new(handle, ContextType::DataFrame)
}

fn no_args<'a>(stack: Vec<Expr>, args: &'a OpArgs) -> ExecutionContext<'a> {
    ExecutionContext { expr_stack: stack, operation_args: args }
}

fn abc_frame() -> DataFrame {
    DataFrame::new(vec![
        Column::new("a".into(), [1i64, 2, 3]),
        Column::new("b".into(), [10i64, 20, 30]),
    ])
    .unwrap()
}

fn join_args(right: PolarsHandle, how: u32, suffix: &str) -> OpArgs {
    OpArgs::Join(JoinArgs {
        right,
        left_on: Some(vec![raw("id")]),
        right_on: Some(vec![raw("id")]),
        how,
        suffix: raw(suffix),
    })
}

#[test]
fn test_basic_join_functionality() {
    let left_df = DataFrame::new(vec![
        Column::new("id".into(), [1i32, 2, 3]),
        Column::new("name".into(), ["Alice", "Bob", "Charlie"]),
    ])
    .unwrap();
    let right_df = DataFrame::new(vec![
        Column::new("id".into(), [1i32, 2, 4]),
        Column::new("age".into(), [25i32, 30, 35]),
    ])
    .unwrap();
    let mut engine = Engine::new();
    let left = engine.insert(Table::Plan(left_df.lazy()));
    let right = engine.insert(Table::Plan(right_df.lazy()));
    let args = join_args(PolarsHandle::new(right, ContextType::LazyFrame), 0, "");
    let answer = dispatch_join(&mut engine, PolarsHandle::new(left, ContextType::LazyFrame), &no_args(Vec::new(), &args));
    assert_eq!(answer.polars_handle.context_type, 2);
    let result = collected(&mut engine, &answer);

    assert_eq!(result.height(), 2);
    assert_eq!(result.width(), 3);

    let ids = result.column("id").unwrap().i32().unwrap();
    assert_eq!(ids.get(0), Some(1));
    assert_eq!(ids.get(1), Some(2));

    let names = result.column("name").unwrap().str().unwrap();
    assert_eq!(names.get(0), Some("Alice"));
    assert_eq!(names.get(1), Some("Bob"));

    let ages = result.column("age").unwrap().i32().unwrap();
    assert_eq!(ages.get(0), Some(25));
    assert_eq!(ages.get(1), Some(30));
}

#[test]
fn test_self_join_scenario() {
    let df = DataFrame::new(vec![
        Column::new("id".into(), [1i32, 2, 3]),
        Column::new("value".into(), [10i32, 20, 30]),
    ])
    .unwrap();
    let mut engine = Engine::new();
    let handle = engine.insert(Table::Frame(df));
    let args = join_args(frame_handle(handle), 0, "_right");
    let answer = dispatch_join(&mut engine, frame_handle(handle), &no_args(Vec::new(), &args));
    assert_eq!(answer.error_code, 0);
    assert_eq!(answer.polars_handle.context_type, 1);
    let result = frame_of(&engine, &answer);

    assert_eq!(result.height(), 3);
    assert_eq!(result.width(), 3);

    let ids = result.column("id").unwrap().i32().unwrap();
    let values = result.column("value").unwrap().i32().unwrap();
    let values_right = result.column("value_right").unwrap().i32().unwrap();

    for i in 0..3 {
        assert_eq!(ids.get(i), Some(i as i32 + 1));
        assert_eq!(values.get(i), Some((i as i32 + 1) * 10));
        assert_eq!(values_right.get(i), Some((i as i32 + 1) * 10));
    }
}

#[test]
fn self_join_with_a_suffix_repeats_the_values() {
    let df = DataFrame::new(vec![
        Column::new("id".into(), [1i64, 2, 3]),
        Column::new("v".into(), [10i64, 20, 30]),
    ])
    .unwrap();
    let mut engine = Engine::new();
    let handle = engine.insert(Table::Frame(df));
    let args = join_args(frame_handle(handle), 0, "_r");
    let answer = dispatch_join(&mut engine, frame_handle(handle), &no_args(Vec::new(), &args));
    let result = frame_of(&engine, &answer);
    assert_eq!((result.height(), result.width()), (3, 3));
    let names: Vec<String> = result.get_column_names().iter().map(|n| n.to_string()).collect();
    assert_eq!(names, vec!["id".to_string(), "v".to_string(), "v_r".to_string()]);
    let v = result.column("v").unwrap().i64().unwrap();
    let v_r = result.column("v_r").unwrap().i64().unwrap();
    for i in 0..3 {
        assert_eq!(v.get(i), v_r.get(i));
    }
}

#[test]
fn test_join_types() {
    let left_df = DataFrame::new(vec![
        Column::new("id".into(), [1i32, 2, 3]),
        Column::new("left_val".into(), ["A", "B", "C"]),
    ])
    .unwrap();
    let right_df = DataFrame::new(vec![
        Column::new("id".into(), [2i32, 3, 4]),
        Column::new("right_val".into(), ["X", "Y", "Z"]),
    ])
    .unwrap();
    let mut engine = Engine::new();
    let left = engine.insert(Table::Frame(left_df));
    let right = engine.insert(Table::Frame(right_df));

    let left_args = join_args(frame_handle(right), 1, "");
    let left_answer = dispatch_join(&mut engine, frame_handle(left), &no_args(Vec::new(), &left_args));
    let left_result = frame_of(&engine, &left_answer);
    assert_eq!(left_result.height(), 3);
    assert_eq!(left_result.width(), 3);

    let right_args = join_args(frame_handle(right), 2, "");
    let right_answer = dispatch_join(&mut engine, frame_handle(left), &no_args(Vec::new(), &right_args));
    let right_result = frame_of(&engine, &right_answer);
    println!("Right join height: {}, width: {}", right_result.height(), right_result.width());

    let full_args = join_args(frame_handle(right), 3, "");
    let full_answer = dispatch_join(&mut engine, frame_handle(left), &no_args(Vec::new(), &full_args));
    let full_result = frame_of(&engine, &full_answer);
    println!("Full join height: {}, width: {}", full_result.height(), full_result.width());

    assert_eq!(full_result.height(), 4);
    assert_eq!(full_result.width(), 4);
}

#[test]
fn join_refuses_bad_arguments() {
    let mut engine = Engine::new();
    let handle = engine.insert(Table::Frame(abc_frame()));
    let unknown = join_args(frame_handle(handle), 9, "");
    assert_eq!(dispatch_join(&mut engine, frame_handle(handle), &no_args(Vec::new(), &unknown)).error_code, 2);
    let no_right = join_args(frame_handle(0), 0, "");
    assert_eq!(dispatch_join(&mut engine, frame_handle(handle), &no_args(Vec::new(), &no_right)).error_code, 1);
    let no_keys = OpArgs::Join(JoinArgs {
        right: frame_handle(handle),
        left_on: None,
        right_on: Some(vec![raw("a")]),
        how: 0,
        suffix: raw(""),
    });
    assert_eq!(dispatch_join(&mut engine, frame_handle(handle), &no_args(Vec::new(), &no_keys)).error_code, 2);
    let group_args = OpArgs::GroupBy(GroupByArgs { columns: Some(vec![raw("a")]) });
    let grouped = dispatch_group_by(&mut engine, frame_handle(handle), &no_args(Vec::new(), &group_args));
    let on_grouped = join_args(frame_handle(handle), 0, "");
    let answer = dispatch_join(&mut engine, grouped.polars_handle, &no_args(Vec::new(), &on_grouped));
    assert_eq!(answer.error_code, 4);
    assert!(answer.error_message.unwrap().contains("resolve grouping"));
}

#[test]
fn join_reports_text_that_is_not_utf8() {
    let mut engine = Engine::new();
    let left = engine.insert(Table::Frame(abc_frame()));
    let right = engine.insert(Table::Frame(abc_frame()));
    let broken = || RawStr { data: vec![0x61, 0xff] };
    let attempt = |engine: &mut Engine, args: JoinArgs| {
        let args = OpArgs::Join(args);
        let answer = dispatch_join(engine, frame_handle(left), &no_args(Vec::new(), &args));
        assert_eq!(answer.polars_handle.handle, 0);
        answer.error_code
    };
    let keys = || Some(vec![raw("a")]);
    let code = attempt(&mut engine, JoinArgs {
        right: frame_handle(right),
        left_on: Some(vec![raw("a"), broken()]),
        right_on: keys(),
        how: 0,
        suffix: raw("_r"),
    });
    assert_eq!(code, 3);
    let code = attempt(&mut engine, JoinArgs {
        right: frame_handle(right),
        left_on: keys(),
        right_on: Some(vec![broken()]),
        how: 0,
        suffix: raw("_r"),
    });
    assert_eq!(code, 3);
    let code = attempt(&mut engine, JoinArgs {
        right: frame_handle(right),
        left_on: keys(),
        right_on: keys(),
        how: 0,
        suffix: broken(),
    });
    assert_eq!(code, 3);
    let code = attempt(&mut engine, JoinArgs {
        right: frame_handle(right),
        left_on: keys(),
        right_on: keys(),
        how: 7,
        suffix: broken(),
    });
    assert_eq!(code, 2);
    let code = attempt(&mut engine, JoinArgs {
        right: frame_handle(right),
        left_on: None,
        right_on: Some(vec![broken()]),
        how: 0,
        suffix: raw("_r"),
    });
    assert_eq!(code, 2);
    assert_eq!(engine.get(left).is_some(), true);
    assert_eq!(engine.get(right).is_some(), true);
}
