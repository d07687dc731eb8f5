use firn::{
    dataframe_height, dataframe_to_csv, dataframe_to_string, release_dataframe, Engine,
    FfiResult, Table,
};
use polars::prelude::{Column, DataFrame, LazyFrame};

fn abc_frame() -> DataFrame {
    DataFrame::new(vec![
        Column::new("a".into(), [1i64, 2, 3]),
        Column::new("b".into(), [10i64, 20, 30]),
    ])
    .unwrap()
}

#[test]
fn handles_are_not_zero_and_name_what_was_inserted() {
    let mut engine = Engine::new();
    assert!(!engine.contains(0));
    assert!(!engine.contains(1));
    assert!(engine.get(1).is_none());
    let first = engine.insert(Table::Frame(abc_frame()));
    let second = engine.insert(Table::Plan(LazyFrame::default()));
    assert_ne!(first, 0);
    assert_ne!(second, 0);
    assert_ne!(first, second);
    assert!(matches!(engine.get(first), Some(Table::Frame(_))));
    assert!(matches!(engine.get(second), Some(Table::Plan(_))));
    assert!(engine.get(0).is_none());
}

#[test]
fn released_handles_name_nothing_and_leave_the_others_alone() {
    let mut engine = Engine::new();
    let first = engine.insert(Table::Frame(abc_frame()));
    let second = engine.insert(Table::Frame(abc_frame().head(Some(1))));
    assert!(engine.release(first));
    assert!(!engine.release(first));
    assert!(!engine.release(0));
    assert!(!engine.contains(first));
    assert_eq!(dataframe_height(&engine, second), 1);
    let third = engine.insert(Table::Frame(abc_frame().head(Some(2))));
    assert_ne!(third, second);
    assert_eq!(dataframe_height(&engine, third), 2);
    assert_eq!(dataframe_height(&engine, second), 1);
}

#[test]
fn answers_that_hand_over_a_table_carry_its_handle_and_tag() {
    let mut engine = Engine::new();
    let frame = FfiResult::success(&mut engine, abc_frame());
    assert_eq!((frame.error_code, frame.error_frame), (0, 0));
    assert!(frame.error_message.is_none());
    assert_eq!(frame.polars_handle.context_type, 1);
    assert_eq!(dataframe_height(&engine, frame.polars_handle.handle), 3);
    let plan = FfiResult::success_lazy(&mut engine, LazyFrame::default());
    assert_eq!(plan.polars_handle.context_type, 2);
    assert!(matches!(engine.get(plan.polars_handle.handle), Some(Table::Plan(_))));
    let grouped = FfiResult::success_lazy_group_by(&mut engine, LazyFrame::default().group_by(["a"]));
    assert_eq!(grouped.polars_handle.context_type, 3);
    assert!(matches!(engine.get(grouped.polars_handle.handle), Some(Table::Grouped(_))));
    let bare = FfiResult::success_no_handle();
    assert_eq!((bare.polars_handle.handle, bare.error_code), (0, 0));
    let failure = FfiResult::error(3, "broken");
    assert_eq!(failure.polars_handle.handle, 0);
    assert_eq!(failure.error_code, 3);
    assert_eq!(failure.error_message.as_deref(), Some("broken"));
}

#[test]
fn frames_are_rendered_counted_and_released_by_handle() {
    let mut engine = Engine::new();
    let handle = engine.insert(Table::Frame(abc_frame()));
    assert_eq!(dataframe_height(&engine, handle), 3);
    assert_eq!(dataframe_height(&engine, 0), 0);
    assert_eq!(dataframe_height(&engine, handle + 1), 0);
    assert_eq!(
        dataframe_to_csv(&engine, handle),
        Some(b"a,b\n1,10\n2,20\n3,30\n".to_vec())
    );
    assert_eq!(dataframe_to_csv(&engine, 0), None);
    let drawn = dataframe_to_string(&engine, handle).unwrap();
    assert!(drawn.contains("shape: (3, 2)"));
    assert!(drawn.contains("a") && drawn.contains("b") && drawn.contains("30"));
    assert_eq!(dataframe_to_string(&engine, handle + 1), None);
    let plan = engine.insert(Table::Plan(LazyFrame::default()));
    assert_eq!(dataframe_height(&engine, plan), 0);
    assert_eq!(dataframe_to_string(&engine, plan), None);
    assert_eq!(release_dataframe(&mut engine, handle), 0);
    assert!(!engine.contains(handle));
    assert_eq!(release_dataframe(&mut engine, handle), 0);
    assert_eq!(release_dataframe(&mut engine, 0), 0);
    assert!(engine.contains(plan));
}
