use firn::{
    dispatch_read_csv, dispatch_read_parquet, scan_strategy, Engine, ExecutionContext, OpArgs,
    RawStr, ReadCsvArgs, ReadParquetArgs, ScanStrategy, ERROR_POLARS_OPERATION,
};

fn raw(text: &str) -> RawStr {
    RawStr { data: text.as_bytes().to_vec() }
}

fn parquet(path: RawStr, columns: Option<Vec<RawStr>>) -> OpArgs {
    OpArgs::ReadParquet(ReadParquetArgs { path, columns, n_rows: 0, parallel: true, with_glob: false })
}

#[test]
fn test_parquet_nonexistent_file() {
    let path = raw("../testdata/nonexistent.parquet");

    let args = parquet(path, None);

    let context = ExecutionContext { expr_stack: Vec::new(), operation_args: &args };

    let mut engine = Engine::new();
    let result = dispatch_read_parquet(&mut engine, &context);

    assert_eq!(result.error_code, ERROR_POLARS_OPERATION);
    assert!(result.error_message.is_some());
    assert_eq!(result.polars_handle.handle, 0);
    assert!(!engine.contains(1));
}

#[test]
fn parquet_paths_and_columns_have_to_be_utf8() {
    let mut engine = Engine::new();
    let broken_path = parquet(RawStr { data: vec![0xff, 0x2e] }, None);
    let context = ExecutionContext { expr_stack: Vec::new(), operation_args: &broken_path };
    assert_eq!(dispatch_read_parquet(&mut engine, &context).error_code, 3);
    let broken_column = parquet(raw("missing.parquet"), Some(vec![raw("a"), RawStr { data: vec![0xff] }]));
    let context = ExecutionContext { expr_stack: Vec::new(), operation_args: &broken_column };
    assert_eq!(dispatch_read_parquet(&mut engine, &context).error_code, 3);
    let context = ExecutionContext { expr_stack: Vec::new(), operation_args: &OpArgs::Empty };
    assert_eq!(dispatch_read_parquet(&mut engine, &context).error_code, 2);
}

#[test]
fn csv_paths_have_to_be_utf8_and_name_a_file() {
    let mut engine = Engine::new();
    let broken = OpArgs::ReadCsv(ReadCsvArgs {
        path: RawStr { data: vec![0xc3, 0x28] },
        has_header: true,
        with_glob: false,
    });
    let context = ExecutionContext { expr_stack: Vec::new(), operation_args: &broken };
    let answer = dispatch_read_csv(&mut engine, &context);
    assert_eq!(answer.error_code, 3);
    assert_eq!(answer.error_message.as_deref(), Some("Invalid UTF-8 in path"));
    let missing = OpArgs::ReadCsv(ReadCsvArgs {
        path: raw("/nonexistent/firn/input.csv"),
        has_header: true,
        with_glob: true,
    });
    let context = ExecutionContext { expr_stack: Vec::new(), operation_args: &missing };
    let answer = dispatch_read_csv(&mut engine, &context);
    assert_eq!(answer.error_code, 4);
    assert_eq!(answer.polars_handle.handle, 0);
    assert!(answer.error_message.is_some());
    let context = ExecutionContext { expr_stack: Vec::new(), operation_args: &OpArgs::Empty };
    assert_eq!(dispatch_read_csv(&mut engine, &context).error_code, 2);
    assert!(!engine.contains(1));
}

#[test]
fn a_parallel_scan_leaves_the_strategy_to_the_columnar_library() {
    assert_eq!(scan_strategy(true), ScanStrategy::Automatic);
    assert_eq!(scan_strategy(false), ScanStrategy::Sequential);
}
