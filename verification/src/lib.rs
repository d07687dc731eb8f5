//! A dataframe engine driven by operation chains.
//!
//! A host describes a query as a sequence of operations: frame operations,
//! which produce or transform a table, and expression operations, which build
//! column expressions on a stack. The engine runs the sequence in order,
//! tracks which kind of table is current, and answers with a handle to the
//! result or with an error and the position of the operation that failed.

use vstd::prelude::*;
use vstd::utf8::{decode_utf8, valid_utf8};
use polars::prelude::{DataFrame, LazyFrame, LazyGroupBy};

pub mod accessors;
pub mod backend;
pub mod bad_text;
pub mod dataframe;
pub mod engine;
pub mod execution;
pub mod expr;
pub mod io;
pub mod opcodes;
pub mod types;

pub use crate::accessors::{
    dataframe_height, dataframe_to_csv, dataframe_to_string, release_dataframe,
};
pub use crate::dataframe::{
    dispatch_add_null_row, dispatch_agg, dispatch_collect, dispatch_concat, dispatch_count,
    dispatch_filter_expr, dispatch_group_by, dispatch_join, dispatch_limit, dispatch_new_empty,
    concat_plan_of, dispatch_query, dispatch_select, dispatch_select_expr, dispatch_sort,
    dispatch_with_column, query_context, ConcatArgs, FilterExprArgs, GroupByArgs, SelectArgs,
};
pub use crate::engine::{Engine, Table};
pub use crate::execution::{
    dispatch_dataframe_operation, dispatch_expression_operation, execute_chain, execute_expr_ops,
    execute_operations, ExecutionContext, ExprProgramError,
};
pub use crate::expr::{
    expr_add, expr_alias, expr_and, expr_cast, expr_column, expr_count, expr_dense_rank,
    expr_div, expr_eq, expr_first, expr_gt, expr_is_not_null, expr_is_null, expr_lag, expr_last,
    expr_lead, expr_literal, expr_lt, expr_max, expr_mean, expr_median, expr_min, expr_mul,
    expr_not, expr_nunique, expr_or, expr_otherwise, expr_over, expr_rank, expr_row_number,
    expr_sql, expr_std, expr_str_contains, expr_str_ends_with, expr_str_len,
    expr_str_starts_with, expr_str_to_lowercase, expr_str_to_uppercase, expr_sub, expr_sum,
    expr_then, expr_var, expr_when,
};
pub use crate::io::{
    dispatch_read_csv, dispatch_read_parquet, scan_strategy, ReadCsvArgs, ReadParquetArgs,
    ScanStrategy,
};
pub use crate::opcodes::{
    ContextType, JoinArgs, JoinKind, LimitArgs, NullsOrdering, OpArgs, OpCode, Operation,
    PolarsHandle, QueryArgs, SortArgs, SortDirection, SortField, SqlExprArgs, WindowArgs,
    WindowOffsetArgs,
};
pub use crate::types::{
    data_type_of, decimal_text, decode_data_type, numbered_message, stored_temporal,
    AggregationArgs, AliasArgs, BooleanType, CastArgs, CastTarget, ColumnArgs, CountArgs,
    FloatType, IntegerType, Literal, LiteralArgs, LiteralError, StoredTemporalType, StringArgs,
    StringType, TemporalType,
};

verus! {

/// A handle that has to name an object is zero, or names none.
pub const ERROR_NULL_HANDLE: i32 = 1;

/// Arguments are missing, empty, or not those of the operation.
pub const ERROR_NULL_ARGS: i32 = 2;

/// A string view does not hold UTF-8.
pub const ERROR_INVALID_UTF8: i32 = 3;

/// The operation is not possible here, or the columnar library refused it.
pub const ERROR_POLARS_OPERATION: i32 = 4;

/// A string as the host passes it: bytes that are meant to be UTF-8.
/// An absent string is passed as no bytes.
pub struct RawStr {
    pub data: Vec<u8>,
}

/// The bytes of a string view are not UTF-8.
pub struct InvalidUtf8;

/// `std::str::from_utf8`: the text that the bytes encode, if they are UTF-8,
/// and nothing otherwise.
#[verifier::external_body]
fn utf8_text(bytes: &[u8]) -> (r: Option<&str>)
    ensures
        r is Some <==> valid_utf8(bytes@),
        r matches Some(s) ==> s@ == decode_utf8(bytes@),
{
    std::str::from_utf8(bytes).ok()
}

impl RawStr {
    /// Whether the bytes are UTF-8.
    pub open spec fn is_text(&self) -> bool {
        valid_utf8(self.data@)
    }

    /// The text that the bytes encode.
    pub open spec fn text(&self) -> Seq<char> {
        decode_utf8(self.data@)
    }

    /// The text of the view, borrowed from it.
    pub fn as_str(&self) -> (r: Result<&str, InvalidUtf8>)
        ensures
            r is Ok <==> self.is_text(),
            r matches Ok(s) ==> s@ == self.text(),
    {
        match utf8_text(self.data.as_slice()) {
            Some(s) => Ok(s),
            None => Err(InvalidUtf8),
        }
    }
}

/// An absent string is the empty text: no bytes are UTF-8 and encode no
/// character.
pub proof fn lemma_no_bytes_are_empty_text()
    ensures
        valid_utf8(Seq::<u8>::empty()),
        decode_utf8(Seq::<u8>::empty()) == Seq::<char>::empty(),
{
}

/// Wraps bytes as a string view.
pub fn make_raw_str(data: Vec<u8>) -> (s: RawStr)
    ensures
        s.data == data,
{
    RawStr { data }
}

/// Why an array of string views could not be read.
#[derive(Debug, Clone, Copy, PartialEq, Eq, Structural)]
pub enum RawStrArrayError {
    /// The array itself is absent.
    NullArray,
    /// Some view in it does not hold UTF-8.
    InvalidUtf8,
}

impl RawStrArrayError {
    /// The message that reports the error.
    pub open spec fn message_spec(self) -> Seq<char> {
        match self {
            RawStrArrayError::NullArray => "RawStr array cannot be null"@,
            RawStrArrayError::InvalidUtf8 => "Invalid UTF-8 in string"@,
        }
    }

    /// The message that reports the error.
    pub fn message(&self) -> (s: &'static str)
        ensures
            s@ == self.message_spec(),
    {
        match self {
            RawStrArrayError::NullArray => "RawStr array cannot be null",
            RawStrArrayError::InvalidUtf8 => "Invalid UTF-8 in string",
        }
    }

    /// The error code under which the error is reported.
    pub open spec fn code_spec(self) -> i32 {
        match self {
            RawStrArrayError::NullArray => ERROR_NULL_ARGS,
            RawStrArrayError::InvalidUtf8 => ERROR_INVALID_UTF8,
        }
    }

    /// The error code under which the error is reported.
    pub fn code(&self) -> (c: i32)
        ensures
            c == self.code_spec(),
    {
        match self {
            RawStrArrayError::NullArray => ERROR_NULL_ARGS,
            RawStrArrayError::InvalidUtf8 => ERROR_INVALID_UTF8,
        }
    }
}

/// Whether every view of an array holds UTF-8.
pub open spec fn all_text(views: Seq<RawStr>) -> bool {
    forall|i: int| 0 <= i < views.len() ==> (#[trigger] views[i]).is_text()
}

/// The texts of an array of views, in order.
pub open spec fn texts(views: Seq<RawStr>) -> Seq<Seq<char>> {
    Seq::new(views.len(), |i: int| views[i].text())
}

/// The texts of owned strings, in order.
pub open spec fn string_views(strings: Seq<String>) -> Seq<Seq<char>> {
    Seq::new(strings.len(), |i: int| strings[i]@)
}

/// What reading an array of views gives: the array is absent, or a view in
/// it is not UTF-8, or else the texts in order.
pub open spec fn raw_str_array_outcome(raw_strs: Option<Seq<RawStr>>) -> Result<
    Seq<Seq<char>>,
    RawStrArrayError,
> {
    match raw_strs {
        None => Err(RawStrArrayError::NullArray),
        Some(views) => if all_text(views) {
            Ok(texts(views))
        } else {
            Err(RawStrArrayError::InvalidUtf8)
        },
    }
}

/// Reads an array of string views into owned strings.
pub fn raw_str_array_to_vec(raw_strs: Option<&Vec<RawStr>>) -> (r: Result<
    Vec<String>,
    RawStrArrayError,
>)
    ensures
        match raw_str_array_outcome(
            match raw_strs {
                Some(v) => Some(v@),
                None => None,
            },
        ) {
            Ok(expected) => r matches Ok(strings) && string_views(strings@) == expected,
            Err(e) => r == Err::<Vec<String>, RawStrArrayError>(e),
        },
{
    let views = match raw_strs {
        Some(v) => v,
        None => {
            return Err(RawStrArrayError::NullArray);
        },
    };
    let mut result: Vec<String> = Vec::with_capacity(views.len());
    let mut i: usize = 0;
    while i < views.len()
        invariant
            raw_strs == Some(views),
            i <= views@.len(),
            result@.len() == i,
            forall|j: int| 0 <= j < i ==> (#[trigger] views@[j]).is_text(),
            forall|j: int| 0 <= j < i ==> (#[trigger] result@[j])@ == views@[j].text(),
        decreases views@.len() - i,
    {
        match views[i].as_str() {
            Ok(s) => {
                result.push(s.to_owned());
            },
            Err(_) => {
                assert(!views@[i as int].is_text());
                return Err(RawStrArrayError::InvalidUtf8);
            },
        }
        i += 1;
    }
    assert(string_views(result@) =~= texts(views@));
    Ok(result)
}

/// What the engine answers to a request.
///
/// On success the error code is zero and there is no message; the handle names
/// the result, or is zero where the request produces no table. On failure the
/// handle is zero, the code is not, and the message says what went wrong.
/// `error_frame` is the position of the failing operation in its chain.
pub struct FfiResult {
    pub polars_handle: PolarsHandle,
    pub error_code: i32,
    pub error_message: Option<String>,
    pub error_frame: usize,
}

/// The request succeeded and the engine took ownership of `table` under a
/// handle that named nothing before; no other handle changed its meaning.
pub open spec fn installed(
    pre: Map<usize, Table>,
    post: Map<usize, Table>,
    r: FfiResult,
    table: Table,
) -> bool {
    &&& r.error_code == 0
    &&& r.error_message is None
    &&& r.error_frame == 0
    &&& r.polars_handle.handle != 0
    &&& r.polars_handle.context_type == table.kind().tag_spec()
    &&& !pre.dom().contains(r.polars_handle.handle)
    &&& post == pre.insert(r.polars_handle.handle, table)
}

impl FfiResult {
    /// The answer is a failure with the given code and message, at position
    /// zero and with no handle.
    pub open spec fn is_error(&self, code: i32, message: Seq<char>) -> bool {
        &&& self.polars_handle.handle == 0
        &&& self.polars_handle.context_type == ContextType::DataFrame.tag_spec()
        &&& self.error_code == code
        &&& self.error_message matches Some(m) && m@ == message
        &&& self.error_frame == 0
    }

    /// The answer is a failure with the given code: it has a message and no
    /// handle.
    pub open spec fn is_failure(&self, code: i32) -> bool {
        &&& self.polars_handle.handle == 0
        &&& self.polars_handle.context_type == ContextType::DataFrame.tag_spec()
        &&& self.error_code == code
        &&& self.error_message is Some
        &&& self.error_frame == 0
    }

    /// The answer is a success that carries the given handle.
    pub open spec fn is_success_with(&self, handle: usize, kind: ContextType) -> bool {
        &&& self.polars_handle.handle == handle
        &&& self.polars_handle.context_type == kind.tag_spec()
        &&& self.error_code == 0
        &&& self.error_message is None
        &&& self.error_frame == 0
    }

    /// Hands a frame to the engine and answers with its handle.
    pub fn success(engine: &mut Engine, df: DataFrame) -> (r: Self)
        ensures
            installed(old(engine)@, final(engine)@, r, Table::Frame(df)),
    {
        let handle = engine.insert(Table::Frame(df));
        Self::success_with_handle(handle, ContextType::DataFrame)
    }

    /// Hands a plan to the engine and answers with its handle.
    pub fn success_lazy(engine: &mut Engine, lazy_frame: LazyFrame) -> (r: Self)
        ensures
            installed(old(engine)@, final(engine)@, r, Table::Plan(lazy_frame)),
    {
        let handle = engine.insert(Table::Plan(lazy_frame));
        Self::success_with_handle(handle, ContextType::LazyFrame)
    }

    /// Hands a grouped plan to the engine and answers with its handle.
    pub fn success_lazy_group_by(engine: &mut Engine, lazy_group_by: LazyGroupBy) -> (r: Self)
        ensures
            installed(old(engine)@, final(engine)@, r, Table::Grouped(lazy_group_by)),
    {
        let handle = engine.insert(Table::Grouped(lazy_group_by));
        Self::success_with_handle(handle, ContextType::LazyGroupBy)
    }

    /// A success that carries a handle the engine already owns.
    pub fn success_with_handle(handle: usize, context_type: ContextType) -> (r: Self)
        ensures
            r.is_success_with(handle, context_type),
    {
        Self {
            polars_handle: PolarsHandle::new(handle, context_type),
            error_code: 0,
            error_message: None,
            error_frame: 0,
        }
    }

    /// A success that carries no handle, as expression operations give.
    pub fn success_no_handle() -> (r: Self)
        ensures
            r.is_success_with(0, ContextType::DataFrame),
    {
        Self::success_with_handle(0, ContextType::DataFrame)
    }

    /// A failure with a code and a message.
    pub fn error(code: i32, message: &str) -> (r: Self)
        ensures
            r.is_error(code, message@),
    {
        Self {
            polars_handle: PolarsHandle::new(0, ContextType::DataFrame),
            error_code: code,
            error_message: Some(message.to_owned()),
            error_frame: 0,
        }
    }
}

/// Does nothing and reports success; hosts use it to measure the cost of a
/// call across the boundary.
pub fn noop() -> (r: i32)
    ensures
        r == 0,
{
    0
}

} // verus!
