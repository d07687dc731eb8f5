use vstd::prelude::*;
use crate::backend;
use crate::dataframe::{array_view, finish_plan, frame_outcome, FrameStep};
use crate::engine::{Engine, Table};
use crate::execution::ExecutionContext;
use crate::expr::{column_exprs, columns_of};
use crate::opcodes::OpArgs;
use crate::{
    all_text, installed, raw_str_array_to_vec, texts, FfiResult, RawStr, ERROR_INVALID_UTF8,
    ERROR_NULL_ARGS,
};

verus! {

/// Arguments of a CSV scan: the path, whether the first row names the
/// columns, and whether the path is a pattern that may match several files.
pub struct ReadCsvArgs {
    pub path: RawStr,
    pub has_header: bool,
    pub with_glob: bool,
}

/// Arguments of a Parquet scan: the path, the columns to read (absent or
/// empty for all), the number of rows to read (0 for all) and whether to
/// read in parallel. The path is always taken as a pattern that may match
/// several files; `with_glob` is carried for the layout's sake and not read.
pub struct ReadParquetArgs {
    pub path: RawStr,
    pub columns: Option<Vec<RawStr>>,
    pub n_rows: usize,
    pub parallel: bool,
    pub with_glob: bool,
}

/// How a Parquet scan spreads its work over threads: as the columnar library
/// sees fit, or not at all.
#[derive(Debug, Clone, Copy, PartialEq, Eq, Structural)]
pub enum ScanStrategy {
    Automatic,
    Sequential,
}

/// Scanning a CSV file: the path has to be UTF-8. The result is the plan
/// that scans the file under that path with the options of the arguments;
/// whether the file can be scanned is for the columnar library to say.
pub open spec fn read_csv_step(args: OpArgs) -> FrameStep {
    match args {
        OpArgs::ReadCsv(a) => if a.path.is_text() {
            FrameStep::Try(
                Table::Plan(backend::csv_scan_plan(a.path.text(), a.has_header, a.with_glob)),
            )
        } else {
            FrameStep::Refuse(ERROR_INVALID_UTF8)
        },
        _ => FrameStep::Refuse(ERROR_NULL_ARGS),
    }
}

/// Scans a CSV file into a plan. The file is opened far enough to learn its
/// columns, so that a path without a file fails here and not when the plan
/// runs. The current handle plays no part.
pub fn dispatch_read_csv(engine: &mut Engine, context: &ExecutionContext) -> (r: FfiResult)
    ensures
        frame_outcome(old(engine)@, final(engine)@, r, read_csv_step(*context.operation_args)),
{
    let args = match context.operation_args {
        OpArgs::ReadCsv(a) => a,
        _ => {
            return FfiResult::error(ERROR_NULL_ARGS, "ReadCsvArgs cannot be null");
        },
    };
    let path_str = match args.path.as_str() {
        Ok(s) => s,
        Err(_) => {
            return FfiResult::error(ERROR_INVALID_UTF8, "Invalid UTF-8 in path");
        },
    };
    let outcome = match backend::scan_csv(path_str, args.has_header, args.with_glob) {
        Ok(plan) => match backend::schema_failure(&plan) {
            Some(e) => Err(backend::error_text(&e)),
            None => Ok(plan),
        },
        Err(e) => Err(backend::error_text(&e)),
    };
    let ghost attempted = outcome;
    let r = finish_plan(engine, outcome);
    proof {
        if let Ok(plan) = attempted {
            assert(installed(old(engine)@, engine@, r, Table::Plan(plan)));
        }
    }
    r
}

/// The columns that a Parquet scan is projected to: none where the array is
/// absent or empty.
pub open spec fn parquet_columns(columns: Option<Seq<RawStr>>) -> Seq<RawStr> {
    match columns {
        Some(c) => c,
        None => Seq::empty(),
    }
}

/// Scanning a Parquet file: the path and the names of the columns to read
/// have to be UTF-8. The result is the plan that scans the file under that
/// path with the row limit and the parallel strategy of the arguments,
/// projected to the columns where there are any; whether the file can be
/// scanned is for the columnar library to say.
pub open spec fn read_parquet_step(args: OpArgs) -> FrameStep {
    match args {
        OpArgs::ReadParquet(a) => if !a.path.is_text() {
            FrameStep::Refuse(ERROR_INVALID_UTF8)
        } else if !all_text(parquet_columns(array_view(a.columns))) {
            FrameStep::Refuse(ERROR_INVALID_UTF8)
        } else {
            let scan = backend::parquet_scan_plan(
                a.path.text(),
                parquet_row_limit(a.n_rows),
                scan_strategy_spec(a.parallel),
            );
            let columns = parquet_columns(array_view(a.columns));
            FrameStep::Try(
                Table::Plan(
                    if columns.len() > 0 {
                        backend::select_plan(scan, column_exprs(texts(columns)))
                    } else {
                        scan
                    },
                ),
            )
        },
        _ => FrameStep::Refuse(ERROR_NULL_ARGS),
    }
}

/// The strategy of a Parquet scan: a scan that may read in parallel leaves
/// the choice to the columnar library, and one that may not reads in
/// sequence.
pub open spec fn scan_strategy_spec(parallel: bool) -> ScanStrategy {
    if parallel {
        ScanStrategy::Automatic
    } else {
        ScanStrategy::Sequential
    }
}

/// The strategy of a Parquet scan.
#[verifier::when_used_as_spec(scan_strategy_spec)]
pub fn scan_strategy(parallel: bool) -> (strategy: ScanStrategy)
    ensures
        strategy == scan_strategy_spec(parallel),
{
    if parallel {
        ScanStrategy::Automatic
    } else {
        ScanStrategy::Sequential
    }
}

/// The row limit of a Parquet scan: none where the count is zero.
pub open spec fn parquet_row_limit(n_rows: usize) -> Option<usize> {
    if n_rows > 0 {
        Some(n_rows)
    } else {
        None
    }
}

/// Scans a Parquet file into a plan. The row limit is part of the scan, and
/// the plan is projected to the columns of the arguments where there are
/// any. The file is opened far enough to learn its columns, so that a path
/// without a file fails here and not when the plan runs. The current handle
/// plays no part.
pub fn dispatch_read_parquet(engine: &mut Engine, context: &ExecutionContext) -> (r: FfiResult)
    ensures
        frame_outcome(
            old(engine)@,
            final(engine)@,
            r,
            read_parquet_step(*context.operation_args),
        ),
{
    let args = match context.operation_args {
        OpArgs::ReadParquet(a) => a,
        _ => {
            return FfiResult::error(ERROR_NULL_ARGS, "ReadParquetArgs cannot be null");
        },
    };
    let path_str = match args.path.as_str() {
        Ok(s) => s,
        Err(_) => {
            return FfiResult::error(ERROR_INVALID_UTF8, "Invalid UTF-8 in path");
        },
    };
    let columns: Vec<String> = match &args.columns {
        Some(views) => match raw_str_array_to_vec(Some(views)) {
            Ok(cols) => cols,
            Err(e) => {
                return FfiResult::error(ERROR_INVALID_UTF8, e.message());
            },
        },
        None => Vec::new(),
    };
    let n_rows = if args.n_rows > 0 {
        Some(args.n_rows)
    } else {
        None
    };
    let outcome = match backend::scan_parquet(path_str, n_rows, scan_strategy(args.parallel)) {
        Ok(plan) => match backend::schema_failure(&plan) {
            Some(e) => Err(backend::error_text(&e)),
            None => if columns.len() > 0 {
                Ok(backend::selected(plan, columns_of(&columns)))
            } else {
                Ok(plan)
            },
        },
        Err(e) => Err(backend::error_text(&e)),
    };
    let ghost attempted = outcome;
    let r = finish_plan(engine, outcome);
    proof {
        if let Ok(plan) = attempted {
            assert(installed(old(engine)@, engine@, r, Table::Plan(plan)));
        }
    }
    r
}

} // verus!
