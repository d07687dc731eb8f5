use firn::{
    dispatch_query, ContextType, Engine, ExecutionContext, OpArgs, PolarsHandle, QueryArgs,
    RawStr, Table,
};
use polars::prelude::{col, lit, LazyFrame};
use polars_sql::SQLContext;

fn query(text: &[u8]) -> OpArgs {
    OpArgs::Query(QueryArgs { sql: RawStr { data: text.to_vec() } })
}

fn staff() -> LazyFrame {
    LazyFrame::default().select([lit("Alice").alias("name"), lit(50000i64).alias("salary")])
}

#[test]
fn queries_see_the_table_as_df() {
    let statement = "SELECT name FROM df WHERE salary > 55000";
    let mut engine = Engine::new();
    let handle = engine.insert(Table::Plan(staff()));
    let args = query(statement.as_bytes());
    let context = ExecutionContext { expr_stack: Vec::new(), operation_args: &args };
    let answer = dispatch_query(&mut engine, PolarsHandle::new(handle, ContextType::LazyFrame), &context);
    assert_eq!(answer.error_code, 0, "{:?}", answer.error_message);
    assert_eq!(answer.polars_handle.context_type, 2);
    assert_ne!(answer.polars_handle.handle, 0);
    let mut direct = SQLContext::new();
    direct.register("df", staff());
    let expected = direct.execute(statement).unwrap().describe_plan().unwrap();
    match engine.get(answer.polars_handle.handle) {
        Some(Table::Plan(plan)) => assert_eq!(plan.describe_plan().unwrap(), expected),
        _ => panic!("the answer does not name a plan"),
    }
    assert_ne!(expected, staff().describe_plan().unwrap());
    let by_hand = staff().filter(col("salary").gt(lit(55000))).select([col("name")]);
    assert_eq!(expected, by_hand.describe_plan().unwrap());
}

#[test]
fn queries_are_refused_before_the_columnar_library_is_asked() {
    let mut engine = Engine::new();
    let handle = engine.insert(Table::Plan(staff()));
    let frame = PolarsHandle::new(handle, ContextType::LazyFrame);
    let context = ExecutionContext { expr_stack: Vec::new(), operation_args: &OpArgs::Empty };
    assert_eq!(dispatch_query(&mut engine, frame, &context).error_code, 2);
    let broken = query(&[0x53, 0xff]);
    let context = ExecutionContext { expr_stack: Vec::new(), operation_args: &broken };
    assert_eq!(dispatch_query(&mut engine, frame, &context).error_code, 3);
    let fine = query(b"SELECT * FROM df");
    let context = ExecutionContext { expr_stack: Vec::new(), operation_args: &fine };
    assert_eq!(dispatch_query(&mut engine, PolarsHandle::new(0, ContextType::DataFrame), &context).error_code, 1);
    assert_eq!(dispatch_query(&mut engine, PolarsHandle { handle, context_type: 0 }, &context).error_code, 1);
    let grouped = dispatch_query(&mut engine, PolarsHandle::new(handle, ContextType::LazyGroupBy), &context);
    assert_eq!(grouped.error_code, 4);
    assert!(grouped.error_message.unwrap().contains("resolve grouping"));
    let nonsense = query(b"SELEKT nothing");
    let context = ExecutionContext { expr_stack: Vec::new(), operation_args: &nonsense };
    let answer = dispatch_query(&mut engine, frame, &context);
    assert_eq!(answer.error_code, 4);
    assert_eq!(answer.polars_handle.handle, 0);
    assert!(!engine.contains(handle + 1));
}
