//! The columnar library behind the engine.
//!
//! Every item in this file is believed, not proved: the types are opaque, and
//! each function states of one call into the columnar library what that
//! library's source shows. The builders of expressions and plans only assemble
//! trees, so each result is given a name that depends on the arguments alone.
//! Of calls that read files or run a plan only that is said which holds
//! whatever they find.

use vstd::prelude::*;
use polars::prelude::{
    Column, DataFrame, DataType, Expr, LazyFrame, LazyGroupBy, PolarsError, TimeUnit,
};
use polars::prelude::{IntoLazy, LazyFileListReader, SerWriter};
use polars_sql::SQLContext;
use crate::io::ScanStrategy;
use crate::opcodes::JoinKind;
use crate::types::{BooleanType, FloatType, IntegerType, StoredTemporalType, StringType};

verus! {

/// `polars::prelude::Expr`: a column expression. Nothing is known of what is
/// inside one.
#[verifier::external_type_specification]
#[verifier::external_body]
pub struct ExExpr(polars::prelude::Expr);

/// `polars::prelude::DataFrame`: a materialized table.
#[verifier::external_type_specification]
#[verifier::external_body]
pub struct ExDataFrame(polars::prelude::DataFrame);

/// `polars::prelude::LazyFrame`: a plan that yields a table when it is run.
#[verifier::external_type_specification]
#[verifier::external_body]
pub struct ExLazyFrame(polars::prelude::LazyFrame);

/// `polars::prelude::LazyGroupBy`: a plan partitioned by keys.
#[verifier::external_type_specification]
#[verifier::external_body]
pub struct ExLazyGroupBy(polars::prelude::LazyGroupBy);

/// `polars::prelude::PolarsError`: what the columnar library reports when it
/// refuses an operation.
#[verifier::external_type_specification]
#[verifier::external_body]
pub struct ExPolarsError(polars::prelude::PolarsError);

/// `polars::prelude::DataType`: the type of a column.
#[verifier::external_type_specification]
#[verifier::external_body]
pub struct ExDataType(polars::prelude::DataType);

/// `polars::prelude::Column`: one column of a frame.
#[verifier::external_type_specification]
#[verifier::external_body]
pub struct ExColumn(polars::prelude::Column);

/// `polars_sql::SQLContext`: the tables that SQL statements can name.
#[verifier::external_type_specification]
#[verifier::external_body]
pub struct ExSQLContext(polars_sql::SQLContext);

/// The number of rows of a frame.
pub uninterp spec fn frame_height(frame: DataFrame) -> nat;

/// `DataFrame::height`: the number of rows.
#[verifier::external_body]
pub(crate) fn height_of(frame: &DataFrame) -> (n: usize)
    ensures
        n == frame_height(*frame),
{
    frame.height()
}

/// `DataFrame::clone`: a frame equal to the one given, sharing its columns.
#[verifier::external_body]
pub(crate) fn copy_frame(frame: &DataFrame) -> (copy: DataFrame)
    ensures
        copy == *frame,
{
    frame.clone()
}

/// `LazyFrame::clone`: a plan equal to the one given.
#[verifier::external_body]
pub(crate) fn copy_plan(plan: &LazyFrame) -> (copy: LazyFrame)
    ensures
        copy == *plan,
{
    plan.clone()
}

/// `LazyGroupBy::clone`: a grouped plan equal to the one given.
#[verifier::external_body]
pub(crate) fn copy_grouped(grouped: &LazyGroupBy) -> (copy: LazyGroupBy)
    ensures
        copy == *grouped,
{
    grouped.clone()
}

/// `Expr::clone`: an expression equal to the one given.
#[verifier::external_body]
pub(crate) fn copy_expr(expr: &Expr) -> (copy: Expr)
    ensures
        copy == *expr,
{
    expr.clone()
}

/// The expression that `col` builds from a name.
pub uninterp spec fn column_expr(name: Seq<char>) -> Expr;

/// `col`: a reference to the column of that name.
#[verifier::external_body]
pub(crate) fn col_of(name: &str) -> (e: Expr)
    ensures
        e == column_expr(name@),
{
    polars::prelude::col(name)
}

/// The expression that `lit` builds from a 64-bit integer.
pub uninterp spec fn int_literal(value: i64) -> Expr;

/// `lit` on an `i64`: the literal of that value.
#[verifier::external_body]
pub(crate) fn lit_int(value: i64) -> (e: Expr)
    ensures
        e == int_literal(value),
{
    polars::prelude::lit(value)
}

/// The expression that `lit` builds from a 32-bit integer.
pub uninterp spec fn small_int_literal(value: i32) -> Expr;

/// `lit` on an `i32`: the literal of that value.
#[verifier::external_body]
pub(crate) fn lit_small_int(value: i32) -> (e: Expr)
    ensures
        e == small_int_literal(value),
{
    polars::prelude::lit(value)
}

/// The expression that `lit` builds from a text.
pub uninterp spec fn text_literal(text: Seq<char>) -> Expr;

/// `lit` on a `&str`: the literal of that text.
#[verifier::external_body]
pub(crate) fn lit_text(text: &str) -> (e: Expr)
    ensures
        e == text_literal(text@),
{
    polars::prelude::lit(text)
}

/// The expression that `lit` builds from a boolean.
pub uninterp spec fn bool_literal(value: bool) -> Expr;

/// `lit` on a `bool`: the literal of that value.
#[verifier::external_body]
pub(crate) fn lit_bool(value: bool) -> (e: Expr)
    ensures
        e == bool_literal(value),
{
    polars::prelude::lit(value)
}

/// The expression that `Expr::not` builds.
pub uninterp spec fn not_expr(expr: Expr) -> Expr;

/// `Expr::not`: the negation of the expression.
#[verifier::external_body]
pub(crate) fn negated(expr: Expr) -> (e: Expr)
    ensures
        e == not_expr(expr),
{
    expr.not()
}

/// The expression that `Expr::sum` builds.
pub uninterp spec fn sum_expr(expr: Expr) -> Expr;

/// `Expr::sum`: the sum of the expression's values.
#[verifier::external_body]
pub(crate) fn summed(expr: Expr) -> (e: Expr)
    ensures
        e == sum_expr(expr),
{
    expr.sum()
}

/// The expression that `Expr::mean` builds.
pub uninterp spec fn mean_expr(expr: Expr) -> Expr;

/// `Expr::mean`: the mean of the expression's values.
#[verifier::external_body]
pub(crate) fn averaged(expr: Expr) -> (e: Expr)
    ensures
        e == mean_expr(expr),
{
    expr.mean()
}

/// The expression that `Expr::min` builds.
pub uninterp spec fn min_expr(expr: Expr) -> Expr;

/// `Expr::min`: the least of the expression's values.
#[verifier::external_body]
pub(crate) fn minimum_of(expr: Expr) -> (e: Expr)
    ensures
        e == min_expr(expr),
{
    expr.min()
}

/// The expression that `Expr::max` builds.
pub uninterp spec fn max_expr(expr: Expr) -> Expr;

/// `Expr::max`: the greatest of the expression's values.
#[verifier::external_body]
pub(crate) fn maximum_of(expr: Expr) -> (e: Expr)
    ensures
        e == max_expr(expr),
{
    expr.max()
}

/// The expression that `Expr::median` builds.
pub uninterp spec fn median_expr(expr: Expr) -> Expr;

/// `Expr::median`: the median of the expression's values.
#[verifier::external_body]
pub(crate) fn median_of(expr: Expr) -> (e: Expr)
    ensures
        e == median_expr(expr),
{
    expr.median()
}

/// The expression that `Expr::first` builds.
pub uninterp spec fn first_expr(expr: Expr) -> Expr;

/// `Expr::first`: the first of the expression's values.
#[verifier::external_body]
pub(crate) fn first_of(expr: Expr) -> (e: Expr)
    ensures
        e == first_expr(expr),
{
    expr.first()
}

/// The expression that `Expr::last` builds.
pub uninterp spec fn last_expr(expr: Expr) -> Expr;

/// `Expr::last`: the last of the expression's values.
#[verifier::external_body]
pub(crate) fn last_of(expr: Expr) -> (e: Expr)
    ensures
        e == last_expr(expr),
{
    expr.last()
}

/// The expression that `Expr::n_unique` builds.
pub uninterp spec fn n_unique_expr(expr: Expr) -> Expr;

/// `Expr::n_unique`: the number of distinct values.
#[verifier::external_body]
pub(crate) fn distinct_count_of(expr: Expr) -> (e: Expr)
    ensures
        e == n_unique_expr(expr),
{
    expr.n_unique()
}

/// The expression that `Expr::count` builds.
pub uninterp spec fn count_expr(expr: Expr) -> Expr;

/// `Expr::count`: the number of values that are not null.
#[verifier::external_body]
pub(crate) fn value_count_of(expr: Expr) -> (e: Expr)
    ensures
        e == count_expr(expr),
{
    expr.count()
}

/// The expression that `Expr::len` builds.
pub uninterp spec fn len_expr(expr: Expr) -> Expr;

/// `Expr::len`: the number of values, nulls included.
#[verifier::external_body]
pub(crate) fn element_count_of(expr: Expr) -> (e: Expr)
    ensures
        e == len_expr(expr),
{
    expr.len()
}

/// The expression that `Expr::is_null` builds.
pub uninterp spec fn is_null_expr(expr: Expr) -> Expr;

/// `Expr::is_null`: the test for null.
#[verifier::external_body]
pub(crate) fn null_test_of(expr: Expr) -> (e: Expr)
    ensures
        e == is_null_expr(expr),
{
    expr.is_null()
}

/// The expression that `Expr::is_not_null` builds.
pub uninterp spec fn is_not_null_expr(expr: Expr) -> Expr;

/// `Expr::is_not_null`: the test for a value that is not null.
#[verifier::external_body]
pub(crate) fn non_null_test_of(expr: Expr) -> (e: Expr)
    ensures
        e == is_not_null_expr(expr),
{
    expr.is_not_null()
}

/// The expression that `StringNameSpace::len_chars` builds.
pub uninterp spec fn str_len_chars_expr(expr: Expr) -> Expr;

/// `StringNameSpace::len_chars`: the length of a string in characters.
#[verifier::external_body]
pub(crate) fn char_length_of(expr: Expr) -> (e: Expr)
    ensures
        e == str_len_chars_expr(expr),
{
    expr.str().len_chars()
}

/// The expression that `StringNameSpace::to_lowercase` builds.
pub uninterp spec fn str_to_lowercase_expr(expr: Expr) -> Expr;

/// `StringNameSpace::to_lowercase`: the string in lower case.
#[verifier::external_body]
pub(crate) fn lowercase_of(expr: Expr) -> (e: Expr)
    ensures
        e == str_to_lowercase_expr(expr),
{
    expr.str().to_lowercase()
}

/// The expression that `StringNameSpace::to_uppercase` builds.
pub uninterp spec fn str_to_uppercase_expr(expr: Expr) -> Expr;

/// `StringNameSpace::to_uppercase`: the string in upper case.
#[verifier::external_body]
pub(crate) fn uppercase_of(expr: Expr) -> (e: Expr)
    ensures
        e == str_to_uppercase_expr(expr),
{
    expr.str().to_uppercase()
}

/// The expression that `Expr::add` builds.
pub uninterp spec fn add_expr(left: Expr, right: Expr) -> Expr;

/// `Expr::add`: the sum of two expressions.
#[verifier::external_body]
pub(crate) fn sum_of(left: Expr, right: Expr) -> (e: Expr)
    ensures
        e == add_expr(left, right),
{
    left + right
}

/// The expression that `Expr::sub` builds.
pub uninterp spec fn sub_expr(left: Expr, right: Expr) -> Expr;

/// `Expr::sub`: the first expression less the second.
#[verifier::external_body]
pub(crate) fn difference_of(left: Expr, right: Expr) -> (e: Expr)
    ensures
        e == sub_expr(left, right),
{
    left - right
}

/// The expression that `Expr::mul` builds.
pub uninterp spec fn mul_expr(left: Expr, right: Expr) -> Expr;

/// `Expr::mul`: the product of two expressions.
#[verifier::external_body]
pub(crate) fn product_of(left: Expr, right: Expr) -> (e: Expr)
    ensures
        e == mul_expr(left, right),
{
    left * right
}

/// The expression that `Expr::div` builds.
pub uninterp spec fn div_expr(left: Expr, right: Expr) -> Expr;

/// `Expr::div`: the first expression divided by the second.
#[verifier::external_body]
pub(crate) fn quotient_of(left: Expr, right: Expr) -> (e: Expr)
    ensures
        e == div_expr(left, right),
{
    left / right
}

/// The expression that `Expr::gt` builds.
pub uninterp spec fn gt_expr(left: Expr, right: Expr) -> Expr;

/// `Expr::gt`: the test that the first expression exceeds the second.
#[verifier::external_body]
pub(crate) fn greater_test(left: Expr, right: Expr) -> (e: Expr)
    ensures
        e == gt_expr(left, right),
{
    left.gt(right)
}

/// The expression that `Expr::lt` builds.
pub uninterp spec fn lt_expr(left: Expr, right: Expr) -> Expr;

/// `Expr::lt`: the test that the first expression is below the second.
#[verifier::external_body]
pub(crate) fn less_test(left: Expr, right: Expr) -> (e: Expr)
    ensures
        e == lt_expr(left, right),
{
    left.lt(right)
}

/// The expression that `Expr::eq` builds.
pub uninterp spec fn eq_expr(left: Expr, right: Expr) -> Expr;

/// `Expr::eq`: the test that two expressions are equal.
#[verifier::external_body]
pub(crate) fn equality_test(left: Expr, right: Expr) -> (e: Expr)
    ensures
        e == eq_expr(left, right),
{
    left.eq(right)
}

/// The expression that `Expr::and` builds.
pub uninterp spec fn and_expr(left: Expr, right: Expr) -> Expr;

/// `Expr::and`: the conjunction of two expressions.
#[verifier::external_body]
pub(crate) fn conjunction_of(left: Expr, right: Expr) -> (e: Expr)
    ensures
        e == and_expr(left, right),
{
    left.and(right)
}

/// The expression that `Expr::or` builds.
pub uninterp spec fn or_expr(left: Expr, right: Expr) -> Expr;

/// `Expr::or`: the disjunction of two expressions.
#[verifier::external_body]
pub(crate) fn disjunction_of(left: Expr, right: Expr) -> (e: Expr)
    ensures
        e == or_expr(left, right),
{
    left.or(right)
}

/// The expression that `StringNameSpace::contains_literal` builds.
pub uninterp spec fn str_contains_expr(left: Expr, right: Expr) -> Expr;

/// `StringNameSpace::contains_literal`: the test that a string holds the second expression's text, taken literally.
#[verifier::external_body]
pub(crate) fn substring_test(left: Expr, right: Expr) -> (e: Expr)
    ensures
        e == str_contains_expr(left, right),
{
    left.str().contains_literal(right)
}

/// The expression that `StringNameSpace::starts_with` builds.
pub uninterp spec fn str_starts_with_expr(left: Expr, right: Expr) -> Expr;

/// `StringNameSpace::starts_with`: the test that a string starts with the second expression's text.
#[verifier::external_body]
pub(crate) fn prefix_test(left: Expr, right: Expr) -> (e: Expr)
    ensures
        e == str_starts_with_expr(left, right),
{
    left.str().starts_with(right)
}

/// The expression that `StringNameSpace::ends_with` builds.
pub uninterp spec fn str_ends_with_expr(left: Expr, right: Expr) -> Expr;

/// `StringNameSpace::ends_with`: the test that a string ends with the second expression's text.
#[verifier::external_body]
pub(crate) fn suffix_test(left: Expr, right: Expr) -> (e: Expr)
    ensures
        e == str_ends_with_expr(left, right),
{
    left.str().ends_with(right)
}

/// The expression that `Expr::shift` builds.
pub uninterp spec fn shift_expr(left: Expr, right: Expr) -> Expr;

/// `Expr::shift`: the first expression's values moved by as many rows as the second says.
#[verifier::external_body]
pub(crate) fn shifted(left: Expr, right: Expr) -> (e: Expr)
    ensures
        e == shift_expr(left, right),
{
    left.shift(right)
}

/// The expression that `Expr::alias` builds.
pub uninterp spec fn alias_expr(expr: Expr, name: Seq<char>) -> Expr;

/// `Expr::alias`: the expression under another name.
#[verifier::external_body]
pub(crate) fn renamed(expr: Expr, name: &str) -> (e: Expr)
    ensures
        e == alias_expr(expr, name@),
{
    expr.alias(name)
}

/// The expression that `Expr::std` builds.
pub uninterp spec fn std_expr(expr: Expr, ddof: u8) -> Expr;

/// `Expr::std`: the standard deviation of the expression's values.
#[verifier::external_body]
pub(crate) fn deviation_of(expr: Expr, ddof: u8) -> (e: Expr)
    ensures
        e == std_expr(expr, ddof),
{
    expr.std(ddof)
}

/// The expression that `Expr::var` builds.
pub uninterp spec fn var_expr(expr: Expr, ddof: u8) -> Expr;

/// `Expr::var`: the variance of the expression's values.
#[verifier::external_body]
pub(crate) fn variance_of(expr: Expr, ddof: u8) -> (e: Expr)
    ensures
        e == var_expr(expr, ddof),
{
    expr.var(ddof)
}

/// The expression that `Expr::over` builds.
pub uninterp spec fn over_expr(expr: Expr, partition_by: Seq<Expr>) -> Expr;

/// `Expr::over`: the expression evaluated within each partition.
#[verifier::external_body]
pub(crate) fn windowed(expr: Expr, partition_by: Vec<Expr>) -> (e: Expr)
    ensures
        e == over_expr(expr, partition_by@),
{
    expr.over(partition_by)
}

/// The expression that `Expr::sort_by` builds with the default options.
pub uninterp spec fn sort_by_expr(expr: Expr, by: Seq<Expr>) -> Expr;

/// `Expr::sort_by` with `SortMultipleOptions::default()`: the expression's
/// values in the order of the keys.
#[verifier::external_body]
pub(crate) fn ordered_by(expr: Expr, by: Vec<Expr>) -> (e: Expr)
    ensures
        e == sort_by_expr(expr, by@),
{
    expr.sort_by(by, polars::prelude::SortMultipleOptions::default())
}

/// The expression that `ternary_expr` builds.
pub uninterp spec fn ternary_expr(predicate: Expr, truthy: Expr, falsy: Expr) -> Expr;

/// `ternary_expr`: the second expression where the first holds, the third
/// elsewhere. It is what `when(..).then(..).otherwise(..)` builds.
#[verifier::external_body]
pub(crate) fn conditional(predicate: Expr, truthy: Expr, falsy: Expr) -> (e: Expr)
    ensures
        e == ternary_expr(predicate, truthy, falsy),
{
    polars::prelude::ternary_expr(predicate, truthy, falsy)
}

/// `polars_sql::sql_expr`: the expression that a SQL text denotes, or the
/// parser's error. The same text need not give the same expression twice:
/// the parser names what a subquery yields by chance.
#[verifier::external_body]
pub(crate) fn parse_sql_expr(sql: &str) -> (r: Result<Expr, PolarsError>)
{
    polars_sql::sql_expr(sql)
}

/// `PolarsError::to_string`: the text of an error of the columnar library.
#[verifier::external_body]
pub(crate) fn error_text(error: &PolarsError) -> (s: String)
{
    error.to_string()
}

/// The type that each integer target names.
pub uninterp spec fn integer_data_type(target: IntegerType) -> DataType;

/// The variant of `DataType` for an integer target.
#[verifier::external_body]
pub(crate) fn integer_type(target: IntegerType) -> (d: DataType)
    ensures
        d == integer_data_type(target),
{
    match target {
        IntegerType::Int8 => DataType::Int8,
        IntegerType::Int16 => DataType::Int16,
        IntegerType::Int32 => DataType::Int32,
        IntegerType::Int64 => DataType::Int64,
        IntegerType::UInt8 => DataType::UInt8,
        IntegerType::UInt16 => DataType::UInt16,
        IntegerType::UInt32 => DataType::UInt32,
        IntegerType::UInt64 => DataType::UInt64,
    }
}

/// The type that each floating-point target names.
pub uninterp spec fn float_data_type(target: FloatType) -> DataType;

/// The variant of `DataType` for a floating-point target.
#[verifier::external_body]
pub(crate) fn float_type(target: FloatType) -> (d: DataType)
    ensures
        d == float_data_type(target),
{
    match target {
        FloatType::Float32 => DataType::Float32,
        FloatType::Float64 => DataType::Float64,
    }
}

/// The type that each string target names.
pub uninterp spec fn string_data_type(target: StringType) -> DataType;

/// The variant of `DataType` for a string target.
#[verifier::external_body]
pub(crate) fn string_type(target: StringType) -> (d: DataType)
    ensures
        d == string_data_type(target),
{
    match target {
        StringType::Utf8 => DataType::String,
    }
}

/// The type that each temporal type of the columnar library names.
pub uninterp spec fn temporal_data_type(stored: StoredTemporalType) -> DataType;

/// The variant of `DataType` for a temporal type that the columnar library
/// has; a datetime has no time zone.
#[verifier::external_body]
pub(crate) fn temporal_type(stored: StoredTemporalType) -> (d: DataType)
    ensures
        d == temporal_data_type(stored),
{
    match stored {
        StoredTemporalType::Date => DataType::Date,
        StoredTemporalType::Time => DataType::Time,
        StoredTemporalType::DatetimeNanoseconds => DataType::Datetime(TimeUnit::Nanoseconds, None),
        StoredTemporalType::DatetimeMicroseconds => DataType::Datetime(
            TimeUnit::Microseconds,
            None,
        ),
        StoredTemporalType::DatetimeMilliseconds => DataType::Datetime(
            TimeUnit::Milliseconds,
            None,
        ),
    }
}

/// The type that each boolean target names.
pub uninterp spec fn boolean_data_type(target: BooleanType) -> DataType;

/// The variant of `DataType` for a boolean target.
#[verifier::external_body]
pub(crate) fn boolean_type(target: BooleanType) -> (d: DataType)
    ensures
        d == boolean_data_type(target),
{
    match target {
        BooleanType::Bool => DataType::Boolean,
    }
}

/// The expression that `Expr::cast` builds.
pub uninterp spec fn cast_expr(expr: Expr, dtype: DataType) -> Expr;

/// `Expr::cast`: the expression converted to a type; a value that cannot be
/// converted becomes null.
#[verifier::external_body]
pub(crate) fn converted(expr: Expr, dtype: DataType) -> (e: Expr)
    ensures
        e == cast_expr(expr, dtype),
{
    expr.cast(dtype)
}

/// The expression that `Expr::strict_cast` builds.
pub uninterp spec fn strict_cast_expr(expr: Expr, dtype: DataType) -> Expr;

/// `Expr::strict_cast`: the expression converted to a type; a value that
/// cannot be converted is an error when the plan runs.
#[verifier::external_body]
pub(crate) fn strictly_converted(expr: Expr, dtype: DataType) -> (e: Expr)
    ensures
        e == strict_cast_expr(expr, dtype),
{
    expr.strict_cast(dtype)
}

/// The expression that `Expr::cast_with_options` builds with
/// `CastOptions::Overflowing`.
pub uninterp spec fn wrapping_cast_expr(expr: Expr, dtype: DataType) -> Expr;

/// `Expr::cast_with_options` with `CastOptions::Overflowing`: the expression
/// converted to a type; a number out of range wraps around.
#[verifier::external_body]
pub(crate) fn wrapping_converted(expr: Expr, dtype: DataType) -> (e: Expr)
    ensures
        e == wrapping_cast_expr(expr, dtype),
{
    expr.cast_with_options(dtype, polars::chunked_array::cast::CastOptions::Overflowing)
}

/// `DataFrame::empty`: a frame without columns or rows.
#[verifier::external_body]
pub(crate) fn empty_frame() -> (frame: DataFrame)
    ensures
        frame_height(frame) == 0,
        frame_width(frame) == 0,
{
    DataFrame::empty()
}

/// The frame that `DataFrame::head` gives.
pub uninterp spec fn head_frame(frame: DataFrame, n: usize) -> DataFrame;

/// `DataFrame::head`: the leading rows of a frame, at most as many as asked.
#[verifier::external_body]
pub(crate) fn head_of(frame: &DataFrame, n: usize) -> (head: DataFrame)
    ensures
        head == head_frame(*frame, n),
        frame_height(head) == if n <= frame_height(*frame) {
            n as nat
        } else {
            frame_height(*frame)
        },
{
    frame.head(Some(n))
}

/// The plan that `IntoLazy::lazy` builds from a frame.
pub uninterp spec fn frame_plan(frame: DataFrame) -> LazyFrame;

/// `IntoLazy::lazy` on a copy of a frame: the plan that yields that frame.
#[verifier::external_body]
pub(crate) fn plan_of(frame: &DataFrame) -> (plan: LazyFrame)
    ensures
        plan == frame_plan(*frame),
{
    frame.clone().lazy()
}

/// The plan that `LazyFrame::select` builds.
pub uninterp spec fn select_plan(plan: LazyFrame, exprs: Seq<Expr>) -> LazyFrame;

/// `LazyFrame::select`: the plan projected to the expressions.
#[verifier::external_body]
pub(crate) fn selected(plan: LazyFrame, exprs: Vec<Expr>) -> (out: LazyFrame)
    ensures
        out == select_plan(plan, exprs@),
{
    plan.select(exprs)
}

/// The plan that `LazyFrame::with_columns` builds.
pub uninterp spec fn with_columns_plan(plan: LazyFrame, exprs: Seq<Expr>) -> LazyFrame;

/// `LazyFrame::with_columns`: the plan with the expressions added as columns.
#[verifier::external_body]
pub(crate) fn extended(plan: LazyFrame, exprs: Vec<Expr>) -> (out: LazyFrame)
    ensures
        out == with_columns_plan(plan, exprs@),
{
    plan.with_columns(exprs)
}

/// The plan that `LazyFrame::filter` builds.
pub uninterp spec fn filter_plan(plan: LazyFrame, predicate: Expr) -> LazyFrame;

/// `LazyFrame::filter`: the plan restricted to the rows where the predicate
/// holds.
#[verifier::external_body]
pub(crate) fn filtered(plan: LazyFrame, predicate: Expr) -> (out: LazyFrame)
    ensures
        out == filter_plan(plan, predicate),
{
    plan.filter(predicate)
}

/// The grouped plan that `LazyFrame::group_by` builds.
pub uninterp spec fn group_by_plan(plan: LazyFrame, keys: Seq<Expr>) -> LazyGroupBy;

/// `LazyFrame::group_by`: the plan partitioned by the keys; nothing is
/// aggregated yet.
#[verifier::external_body]
pub(crate) fn grouped_by(plan: LazyFrame, keys: Vec<Expr>) -> (out: LazyGroupBy)
    ensures
        out == group_by_plan(plan, keys@),
{
    plan.group_by(keys)
}

/// The plan that `LazyGroupBy::agg` builds.
pub uninterp spec fn agg_plan(grouped: LazyGroupBy, aggs: Seq<Expr>) -> LazyFrame;

/// `LazyGroupBy::agg`: the plan that reduces each group by the expressions.
#[verifier::external_body]
pub(crate) fn aggregated(grouped: LazyGroupBy, aggs: Vec<Expr>) -> (out: LazyFrame)
    ensures
        out == agg_plan(grouped, aggs@),
{
    grouped.agg(aggs)
}

/// The plan that `LazyFrame::sort` builds.
pub uninterp spec fn sort_plan(
    plan: LazyFrame,
    columns: Seq<Seq<char>>,
    descending: Seq<bool>,
    nulls_last: Seq<bool>,
    maintain_order: bool,
) -> LazyFrame;

/// `LazyFrame::sort`: the plan ordered by the columns, each with its own
/// direction and place for nulls. The options are those of
/// `SortMultipleOptions::new` but for the three that are given.
#[verifier::external_body]
pub(crate) fn sorted_plan(
    plan: LazyFrame,
    columns: Vec<String>,
    descending: Vec<bool>,
    nulls_last: Vec<bool>,
    maintain_order: bool,
) -> (out: LazyFrame)
    requires
        descending@.len() == columns@.len(),
        nulls_last@.len() == columns@.len(),
    ensures
        out == sort_plan(
            plan,
            crate::string_views(columns@),
            descending@,
            nulls_last@,
            maintain_order,
        ),
{
    let options = polars::prelude::SortMultipleOptions::new()
        .with_order_descending_multi(descending)
        .with_nulls_last_multi(nulls_last)
        .with_maintain_order(maintain_order);
    plan.sort(columns, options)
}

/// The frame that `DataFrame::sort` gives, if it gives one.
pub uninterp spec fn sort_frame(
    frame: DataFrame,
    columns: Seq<Seq<char>>,
    descending: Seq<bool>,
    nulls_last: Seq<bool>,
    maintain_order: bool,
) -> Option<DataFrame>;

/// `DataFrame::sort`: a copy of the frame ordered by the columns, or the
/// columnar library's error. The options are as for a plan. Where rows with
/// equal keys keep their order the result is a function of the frame and
/// the keys.
#[verifier::external_body]
pub(crate) fn sorted_frame(
    frame: &DataFrame,
    columns: Vec<String>,
    descending: Vec<bool>,
    nulls_last: Vec<bool>,
    maintain_order: bool,
) -> (r: Result<DataFrame, PolarsError>)
    requires
        descending@.len() == columns@.len(),
        nulls_last@.len() == columns@.len(),
    ensures
        maintain_order ==> (r is Ok <==> sort_frame(
            *frame,
            crate::string_views(columns@),
            descending@,
            nulls_last@,
            maintain_order,
        ) is Some),
        maintain_order ==> (r matches Ok(sorted) ==> sort_frame(
            *frame,
            crate::string_views(columns@),
            descending@,
            nulls_last@,
            maintain_order,
        ) == Some(sorted)),
{
    let options = polars::prelude::SortMultipleOptions::new()
        .with_order_descending_multi(descending)
        .with_nulls_last_multi(nulls_last)
        .with_maintain_order(maintain_order);
    frame.sort(columns, options)
}

/// The plan that `LazyFrame::limit` builds.
pub uninterp spec fn limit_plan(plan: LazyFrame, n: u32) -> LazyFrame;

/// `LazyFrame::limit`: the plan cut to its leading rows.
#[verifier::external_body]
pub(crate) fn limited(plan: LazyFrame, n: u32) -> (out: LazyFrame)
    ensures
        out == limit_plan(plan, n),
{
    plan.limit(n)
}

/// Whether an expression is the one that `len` builds.
pub uninterp spec fn counts_rows(expr: Expr) -> bool;

/// `len`: the expression that stands for the number of rows.
#[verifier::external_body]
pub(crate) fn row_count() -> (e: Expr)
    ensures
        counts_rows(e),
{
    polars::prelude::len()
}

/// The plan that `LazyFrame::join` builds.
pub uninterp spec fn join_plan(
    left: LazyFrame,
    right: LazyFrame,
    left_on: Seq<Expr>,
    right_on: Seq<Expr>,
    how: JoinKind,
    suffix: Option<Seq<char>>,
) -> LazyFrame;

/// `LazyFrame::join` with `JoinArgs::new` of the join type and the suffix:
/// the plan that joins two plans on the keys.
#[verifier::external_body]
pub(crate) fn joined(
    left: LazyFrame,
    right: LazyFrame,
    left_on: Vec<Expr>,
    right_on: Vec<Expr>,
    how: JoinKind,
    suffix: Option<&str>,
) -> (out: LazyFrame)
    ensures
        out == join_plan(left, right, left_on@, right_on@, how, match suffix {
            Some(s) => Some(s@),
            None => None,
        }),
{
    let how = match how {
        JoinKind::Inner => polars::prelude::JoinType::Inner,
        JoinKind::Left => polars::prelude::JoinType::Left,
        JoinKind::Right => polars::prelude::JoinType::Right,
        JoinKind::Full => polars::prelude::JoinType::Full,
        JoinKind::Cross => polars::prelude::JoinType::Cross,
        JoinKind::Semi => polars::prelude::JoinType::Semi,
        JoinKind::Anti => polars::prelude::JoinType::Anti,
    };
    let args = polars::prelude::JoinArgs::new(how).with_suffix(suffix.map(Into::into));
    left.join(right, left_on, right_on, args)
}

/// The plan that `concat` builds from a list of plans that is not empty.
pub uninterp spec fn concat_plan(inputs: Seq<LazyFrame>) -> LazyFrame;

/// `concat` with `UnionArgs::default()`: the plan that stacks the plans, the
/// first on top. Only an empty list is refused.
#[verifier::external_body]
pub(crate) fn stacked_plans(inputs: Vec<LazyFrame>) -> (r: Result<LazyFrame, PolarsError>)
    ensures
        inputs@.len() > 0 ==> r is Ok && r->Ok_0 == concat_plan(inputs@),
{
    polars::prelude::concat(inputs, polars::prelude::UnionArgs::default())
}

/// `LazyFrame::collect`: the frame that running the plan gives, or the
/// columnar library's error. What comes back depends on the files the plan
/// reads.
#[verifier::external_body]
pub(crate) fn run_plan(plan: LazyFrame) -> (r: Result<DataFrame, PolarsError>)
{
    plan.collect()
}

/// The plan that `LazyCsvReader` builds for a path and its two options.
pub uninterp spec fn csv_scan_plan(path: Seq<char>, has_header: bool, with_glob: bool) -> LazyFrame;

/// `LazyCsvReader`, built with `new`, `with_glob`, `with_has_header` and
/// `finish`: the plan that scans a CSV file. Building it opens no file and
/// does not fail.
#[verifier::external_body]
pub(crate) fn scan_csv(path: &str, has_header: bool, with_glob: bool) -> (r: Result<
    LazyFrame,
    PolarsError,
>)
    ensures
        r is Ok,
        r matches Ok(plan) ==> plan == csv_scan_plan(path@, has_header, with_glob),
{
    polars::prelude::LazyCsvReader::new(path)
        .with_glob(with_glob)
        .with_has_header(has_header)
        .finish()
}

/// The plan that `LazyFrame::scan_parquet` builds for a path, a row limit
/// and a parallel strategy.
pub uninterp spec fn parquet_scan_plan(path: Seq<char>, n_rows: Option<usize>, strategy: ScanStrategy) -> LazyFrame;

/// `LazyFrame::scan_parquet` with `ScanArgsParquet::default()` but for the
/// row limit and the parallel strategy: the plan that scans a Parquet file.
/// Building it opens no file and does not fail.
#[verifier::external_body]
pub(crate) fn scan_parquet(path: &str, n_rows: Option<usize>, strategy: ScanStrategy) -> (r: Result<
    LazyFrame,
    PolarsError,
>)
    ensures
        r is Ok,
        r matches Ok(plan) ==> plan == parquet_scan_plan(path@, n_rows, strategy),
{
    let parallel = match strategy {
        ScanStrategy::Automatic => polars::prelude::ParallelStrategy::Auto,
        ScanStrategy::Sequential => polars::prelude::ParallelStrategy::None,
    };
    let args = polars::prelude::ScanArgsParquet { n_rows, parallel, ..Default::default() };
    LazyFrame::scan_parquet(path, args)
}

/// `LazyFrame::collect_schema` on a copy of a plan: the error that working
/// out the plan's columns meets, if it meets one. For a plan that scans
/// files this is where a missing or unreadable file shows.
#[verifier::external_body]
pub(crate) fn schema_failure(plan: &LazyFrame) -> (r: Option<PolarsError>)
{
    plan.clone().collect_schema().err()
}

/// The number of columns of a frame.
pub uninterp spec fn frame_width(frame: DataFrame) -> nat;

/// The columns of a frame, in order.
pub uninterp spec fn frame_columns(frame: DataFrame) -> Seq<Column>;

/// The number of values of a column.
pub uninterp spec fn column_len(column: Column) -> nat;

/// `DataFrame::get_columns`: the columns of a frame, in order.
#[verifier::external_body]
pub(crate) fn columns_of_frame(frame: &DataFrame) -> (columns: &[Column])
    ensures
        columns@ == frame_columns(*frame),
        columns@.len() == frame_width(*frame),
{
    frame.get_columns()
}

/// The column of nulls that `Series::full_null` builds with the name and
/// type of a column and a size.
pub uninterp spec fn null_column(column: Column, size: nat) -> Column;

/// `Series::full_null` with the name and type of a column and a size: a
/// column of that many nulls.
#[verifier::external_body]
pub(crate) fn null_like(column: &Column, size: usize) -> (out: Column)
    ensures
        out == null_column(*column, size as nat),
        column_len(out) == size,
{
    polars::prelude::Series::full_null(column.name().clone(), size, column.dtype()).into()
}

/// The frame that `DataFrame::new` makes of columns, if it makes one.
pub uninterp spec fn columns_frame(columns: Seq<Column>) -> Option<DataFrame>;

/// `DataFrame::new`: the frame of the given columns, or the columnar
/// library's error. The frame is as high as its first column is long, and
/// has no rows where it has no columns. No columns always make a frame:
/// there are no names that could clash and no lengths that could differ.
#[verifier::external_body]
pub(crate) fn frame_of(columns: Vec<Column>) -> (r: Result<DataFrame, PolarsError>)
    ensures
        r is Ok <==> columns_frame(columns@) is Some,
        r matches Ok(frame) ==> columns_frame(columns@) == Some(frame),
        columns@.len() == 0 ==> r is Ok,
        r matches Ok(frame) ==> frame_width(frame) == columns@.len() && frame_height(frame)
            == if columns@.len() == 0 {
            0
        } else {
            column_len(columns@[0])
        },
{
    DataFrame::new(columns)
}

/// The frame that `DataFrame::vstack` gives for two frames, if it gives one.
pub uninterp spec fn stacked_frame(top: DataFrame, bottom: DataFrame) -> Option<DataFrame>;

/// `DataFrame::vstack`: the first frame with the rows of the second below,
/// or the columnar library's error. Of two frames with as many columns each
/// the result has the rows of both. Two frames without columns are always
/// stacked: there is no column that could refuse the other's values.
#[verifier::external_body]
pub(crate) fn stacked(top: &DataFrame, bottom: &DataFrame) -> (r: Result<DataFrame, PolarsError>)
    ensures
        r is Ok <==> stacked_frame(*top, *bottom) is Some,
        r matches Ok(frame) ==> stacked_frame(*top, *bottom) == Some(frame),
        frame_width(*top) == 0 && frame_width(*bottom) == 0 ==> r is Ok,
        r matches Ok(frame) ==> (frame_width(*top) == frame_width(*bottom) ==> frame_height(frame)
            == frame_height(*top) + frame_height(*bottom)),
{
    top.vstack(bottom)
}

/// The bytes that `CsvWriter` writes for a frame, if it can write it.
pub uninterp spec fn frame_csv(frame: DataFrame) -> Option<Seq<u8>>;

/// `CsvWriter::new` on a buffer and `CsvWriter::finish`: the frame as CSV
/// with a header row, or nothing where writing fails.
#[verifier::external_body]
pub(crate) fn csv_of(frame: &DataFrame) -> (r: Option<Vec<u8>>)
    ensures
        r is Some <==> frame_csv(*frame) is Some,
        r matches Some(bytes) ==> frame_csv(*frame) == Some(bytes@),
{
    let mut buffer: Vec<u8> = Vec::new();
    let mut copy = frame.clone();
    match polars::prelude::CsvWriter::new(&mut buffer).finish(&mut copy) {
        Ok(_) => Some(buffer),
        Err(_) => None,
    }
}

/// `Display` for `DataFrame`: the frame drawn as a table. How wide and how
/// long the drawing is depends on settings that the columnar library reads
/// from the process's variables, so nothing is stated of the text.
#[verifier::external_body]
pub(crate) fn rendered(frame: &DataFrame) -> (s: String)
{
    format!("{}", frame)
}

/// The plans that a context knows, each under its name.
pub uninterp spec fn sql_tables(context: SQLContext) -> Map<Seq<char>, LazyFrame>;

/// `SQLContext::new`: a context without tables.
#[verifier::external_body]
pub(crate) fn sql_context() -> (made: SQLContext)
    ensures
        forall|name: Seq<char>| !(#[trigger] sql_tables(made).dom().contains(name)),
{
    SQLContext::new()
}

/// `SQLContext::register`: makes a plan known to the context under a name,
/// in place of what the name stood for.
#[verifier::external_body]
pub(crate) fn register_table(context: &mut SQLContext, name: &str, plan: LazyFrame)
    ensures
        sql_tables(*final(context)) == sql_tables(*old(context)).insert(name@, plan),
{
    context.register(name, plan)
}

/// `SQLContext::execute`: the plan that a SQL statement denotes over the
/// tables of the context, or the columnar library's error.
#[verifier::external_body]
pub(crate) fn execute_sql(context: &mut SQLContext, sql: &str) -> (r: Result<
    LazyFrame,
    PolarsError,
>)
{
    context.execute(sql)
}

} // verus!
