use vstd::prelude::*;
use crate::dataframe::{ConcatArgs, FilterExprArgs, GroupByArgs, SelectArgs};
use crate::io::{ReadCsvArgs, ReadParquetArgs};
use crate::types::{
    AggregationArgs, AliasArgs, CastArgs, ColumnArgs, CountArgs, LiteralArgs, StringArgs,
};
use crate::RawStr;

verus! {

/// The closed set of operations a host can request.
///
/// Codes below 100 name frame operations, which produce or transform a
/// table. Codes from 100 up to, but excluding, 999 name expression operations,
/// which act on the expression stack. Code 999 belongs to neither class.
#[derive(Debug, Clone, Copy, PartialEq, Eq, Structural)]
pub enum OpCode {
    /// Creates an empty frame.
    NewEmpty,
    /// Scans a CSV file into a plan.
    ReadCsv,
    /// Projects named columns.
    Select,
    /// Projects the pending expressions.
    SelectExpr,
    /// Replaces the table by its row count.
    Count,
    /// Stacks the frames named in the arguments.
    Concat,
    /// Adds the pending expressions as columns.
    WithColumn,
    /// Keeps the rows that satisfy an embedded expression.
    FilterExpr,
    /// Partitions the table by key columns.
    GroupBy,
    /// Appends one row of nulls to a frame.
    AddNullRow,
    /// Materializes the table.
    Collect,
    /// Resolves a grouping with the pending expressions.
    Agg,
    /// Orders the rows.
    Sort,
    /// Keeps the leading rows.
    Limit,
    /// Evaluates a SQL statement against the table.
    Query,
    /// Joins the table with another one.
    Join,
    /// Scans a Parquet file into a plan.
    ReadParquet,
    /// Pushes a column reference.
    ExprColumn,
    /// Pushes a literal.
    ExprLiteral,
    /// Addition.
    ExprAdd,
    /// Subtraction.
    ExprSub,
    /// Multiplication.
    ExprMul,
    /// Division.
    ExprDiv,
    /// Greater-than comparison.
    ExprGt,
    /// Less-than comparison.
    ExprLt,
    /// Equality comparison.
    ExprEq,
    /// Conjunction.
    ExprAnd,
    /// Disjunction.
    ExprOr,
    /// Negation.
    ExprNot,
    /// Sum reduction.
    ExprSum,
    /// Mean reduction.
    ExprMean,
    /// Minimum reduction.
    ExprMin,
    /// Maximum reduction.
    ExprMax,
    /// Standard deviation.
    ExprStd,
    /// Variance.
    ExprVar,
    /// Median reduction.
    ExprMedian,
    /// First value.
    ExprFirst,
    /// Last value.
    ExprLast,
    /// Number of distinct values.
    ExprNUnique,
    /// Value count.
    ExprCount,
    /// Value count, with its own null flag.
    ExprCountNulls,
    /// Null test.
    ExprIsNull,
    /// Non-null test.
    ExprIsNotNull,
    /// Renames the top expression.
    ExprAlias,
    /// String length in characters.
    ExprStrLen,
    /// Substring test.
    ExprStrContains,
    /// Prefix test.
    ExprStrStartsWith,
    /// Suffix test.
    ExprStrEndsWith,
    /// Lower-casing.
    ExprStrToLowercase,
    /// Upper-casing.
    ExprStrToUppercase,
    /// Pushes a parsed SQL expression.
    ExprSql,
    /// Casts the top expression.
    ExprCast,
    /// Wraps the top expression in a window.
    ExprOver,
    /// Pushes the rank placeholder.
    ExprRank,
    /// Pushes the dense-rank placeholder.
    ExprDenseRank,
    /// Pushes the row-number placeholder.
    ExprRowNumber,
    /// Shifts towards earlier rows.
    ExprLag,
    /// Shifts towards later rows.
    ExprLead,
    /// Marks the predicate of a conditional.
    ExprWhen,
    /// Marks the true branch of a conditional.
    ExprThen,
    /// Closes a conditional with its false branch.
    ExprOtherwise,
    /// Placeholder emitted by a builder that failed earlier.
    Error,
}

impl OpCode {
    /// The wire code of an operation.
    pub open spec fn code_spec(self) -> u32 {
        match self {
            OpCode::NewEmpty => 1,
            OpCode::ReadCsv => 2,
            OpCode::Select => 3,
            OpCode::SelectExpr => 4,
            OpCode::Count => 5,
            OpCode::Concat => 6,
            OpCode::WithColumn => 7,
            OpCode::FilterExpr => 8,
            OpCode::GroupBy => 9,
            OpCode::AddNullRow => 10,
            OpCode::Collect => 11,
            OpCode::Agg => 12,
            OpCode::Sort => 13,
            OpCode::Limit => 14,
            OpCode::Query => 15,
            OpCode::Join => 16,
            OpCode::ReadParquet => 17,
            OpCode::ExprColumn => 100,
            OpCode::ExprLiteral => 101,
            OpCode::ExprAdd => 102,
            OpCode::ExprSub => 103,
            OpCode::ExprMul => 104,
            OpCode::ExprDiv => 105,
            OpCode::ExprGt => 106,
            OpCode::ExprLt => 107,
            OpCode::ExprEq => 108,
            OpCode::ExprAnd => 109,
            OpCode::ExprOr => 110,
            OpCode::ExprNot => 111,
            OpCode::ExprSum => 112,
            OpCode::ExprMean => 113,
            OpCode::ExprMin => 114,
            OpCode::ExprMax => 115,
            OpCode::ExprStd => 116,
            OpCode::ExprVar => 117,
            OpCode::ExprMedian => 118,
            OpCode::ExprFirst => 119,
            OpCode::ExprLast => 120,
            OpCode::ExprNUnique => 121,
            OpCode::ExprCount => 122,
            OpCode::ExprCountNulls => 123,
            OpCode::ExprIsNull => 124,
            OpCode::ExprIsNotNull => 125,
            OpCode::ExprAlias => 126,
            OpCode::ExprStrLen => 127,
            OpCode::ExprStrContains => 128,
            OpCode::ExprStrStartsWith => 129,
            OpCode::ExprStrEndsWith => 130,
            OpCode::ExprStrToLowercase => 131,
            OpCode::ExprStrToUppercase => 132,
            OpCode::ExprSql => 133,
            OpCode::ExprCast => 134,
            OpCode::ExprOver => 140,
            OpCode::ExprRank => 141,
            OpCode::ExprDenseRank => 142,
            OpCode::ExprRowNumber => 143,
            OpCode::ExprLag => 144,
            OpCode::ExprLead => 145,
            OpCode::ExprWhen => 150,
            OpCode::ExprThen => 151,
            OpCode::ExprOtherwise => 152,
            OpCode::Error => 999,
        }
    }

    /// The wire code of an operation.
    pub fn code(&self) -> (c: u32)
        ensures
            c == self.code_spec(),
    {
        match self {
            OpCode::NewEmpty => 1,
            OpCode::ReadCsv => 2,
            OpCode::Select => 3,
            OpCode::SelectExpr => 4,
            OpCode::Count => 5,
            OpCode::Concat => 6,
            OpCode::WithColumn => 7,
            OpCode::FilterExpr => 8,
            OpCode::GroupBy => 9,
            OpCode::AddNullRow => 10,
            OpCode::Collect => 11,
            OpCode::Agg => 12,
            OpCode::Sort => 13,
            OpCode::Limit => 14,
            OpCode::Query => 15,
            OpCode::Join => 16,
            OpCode::ReadParquet => 17,
            OpCode::ExprColumn => 100,
            OpCode::ExprLiteral => 101,
            OpCode::ExprAdd => 102,
            OpCode::ExprSub => 103,
            OpCode::ExprMul => 104,
            OpCode::ExprDiv => 105,
            OpCode::ExprGt => 106,
            OpCode::ExprLt => 107,
            OpCode::ExprEq => 108,
            OpCode::ExprAnd => 109,
            OpCode::ExprOr => 110,
            OpCode::ExprNot => 111,
            OpCode::ExprSum => 112,
            OpCode::ExprMean => 113,
            OpCode::ExprMin => 114,
            OpCode::ExprMax => 115,
            OpCode::ExprStd => 116,
            OpCode::ExprVar => 117,
            OpCode::ExprMedian => 118,
            OpCode::ExprFirst => 119,
            OpCode::ExprLast => 120,
            OpCode::ExprNUnique => 121,
            OpCode::ExprCount => 122,
            OpCode::ExprCountNulls => 123,
            OpCode::ExprIsNull => 124,
            OpCode::ExprIsNotNull => 125,
            OpCode::ExprAlias => 126,
            OpCode::ExprStrLen => 127,
            OpCode::ExprStrContains => 128,
            OpCode::ExprStrStartsWith => 129,
            OpCode::ExprStrEndsWith => 130,
            OpCode::ExprStrToLowercase => 131,
            OpCode::ExprStrToUppercase => 132,
            OpCode::ExprSql => 133,
            OpCode::ExprCast => 134,
            OpCode::ExprOver => 140,
            OpCode::ExprRank => 141,
            OpCode::ExprDenseRank => 142,
            OpCode::ExprRowNumber => 143,
            OpCode::ExprLag => 144,
            OpCode::ExprLead => 145,
            OpCode::ExprWhen => 150,
            OpCode::ExprThen => 151,
            OpCode::ExprOtherwise => 152,
            OpCode::Error => 999,
        }
    }

    /// Decodes a wire code. Every operation decodes from its own code, and a
    /// value that is no operation's code decodes to nothing.
    pub fn from_u32(value: u32) -> (r: Option<Self>)
        ensures
            r matches Some(op) ==> op.code_spec() == value,
            r is None ==> forall|op: OpCode| op.code_spec() != value,
    {
        match value {
            1 => Some(OpCode::NewEmpty),
            2 => Some(OpCode::ReadCsv),
            3 => Some(OpCode::Select),
            4 => Some(OpCode::SelectExpr),
            5 => Some(OpCode::Count),
            6 => Some(OpCode::Concat),
            7 => Some(OpCode::WithColumn),
            8 => Some(OpCode::FilterExpr),
            9 => Some(OpCode::GroupBy),
            10 => Some(OpCode::AddNullRow),
            11 => Some(OpCode::Collect),
            12 => Some(OpCode::Agg),
            13 => Some(OpCode::Sort),
            14 => Some(OpCode::Limit),
            15 => Some(OpCode::Query),
            16 => Some(OpCode::Join),
            17 => Some(OpCode::ReadParquet),
            100 => Some(OpCode::ExprColumn),
            101 => Some(OpCode::ExprLiteral),
            102 => Some(OpCode::ExprAdd),
            103 => Some(OpCode::ExprSub),
            104 => Some(OpCode::ExprMul),
            105 => Some(OpCode::ExprDiv),
            106 => Some(OpCode::ExprGt),
            107 => Some(OpCode::ExprLt),
            108 => Some(OpCode::ExprEq),
            109 => Some(OpCode::ExprAnd),
            110 => Some(OpCode::ExprOr),
            111 => Some(OpCode::ExprNot),
            112 => Some(OpCode::ExprSum),
            113 => Some(OpCode::ExprMean),
            114 => Some(OpCode::ExprMin),
            115 => Some(OpCode::ExprMax),
            116 => Some(OpCode::ExprStd),
            117 => Some(OpCode::ExprVar),
            118 => Some(OpCode::ExprMedian),
            119 => Some(OpCode::ExprFirst),
            120 => Some(OpCode::ExprLast),
            121 => Some(OpCode::ExprNUnique),
            122 => Some(OpCode::ExprCount),
            123 => Some(OpCode::ExprCountNulls),
            124 => Some(OpCode::ExprIsNull),
            125 => Some(OpCode::ExprIsNotNull),
            126 => Some(OpCode::ExprAlias),
            127 => Some(OpCode::ExprStrLen),
            128 => Some(OpCode::ExprStrContains),
            129 => Some(OpCode::ExprStrStartsWith),
            130 => Some(OpCode::ExprStrEndsWith),
            131 => Some(OpCode::ExprStrToLowercase),
            132 => Some(OpCode::ExprStrToUppercase),
            133 => Some(OpCode::ExprSql),
            134 => Some(OpCode::ExprCast),
            140 => Some(OpCode::ExprOver),
            141 => Some(OpCode::ExprRank),
            142 => Some(OpCode::ExprDenseRank),
            143 => Some(OpCode::ExprRowNumber),
            144 => Some(OpCode::ExprLag),
            145 => Some(OpCode::ExprLead),
            150 => Some(OpCode::ExprWhen),
            151 => Some(OpCode::ExprThen),
            152 => Some(OpCode::ExprOtherwise),
            999 => Some(OpCode::Error),
            _ => None,
        }
    }

    /// Whether the operation acts on the expression stack.
    pub open spec fn is_expression_op_spec(&self) -> bool {
        100 <= self.code_spec() < 999
    }

    /// Whether the operation produces or transforms a table.
    pub open spec fn is_dataframe_op_spec(&self) -> bool {
        self.code_spec() < 100
    }

    /// Whether the operation acts on the expression stack.
    #[verifier::when_used_as_spec(is_expression_op_spec)]
    pub fn is_expression_op(&self) -> (b: bool)
        ensures
            b == self.is_expression_op_spec(),
    {
        let c: u32 = self.code();
        c >= 100 && c < 999
    }

    /// Whether the operation produces or transforms a table.
    #[verifier::when_used_as_spec(is_dataframe_op_spec)]
    pub fn is_dataframe_op(&self) -> (b: bool)
        ensures
            b == self.is_dataframe_op_spec(),
    {
        self.code() < 100
    }
}

/// Codes identify operations: two operations with one code are the same.
pub proof fn lemma_code_injective(a: OpCode, b: OpCode)
    requires
        a.code_spec() == b.code_spec(),
    ensures
        a == b,
{
}

/// No operation is both a frame operation and an expression operation, and
/// only the placeholder is neither.
pub proof fn lemma_classes_disjoint(op: OpCode)
    ensures
        !(op.is_dataframe_op() && op.is_expression_op()),
        (!op.is_dataframe_op() && !op.is_expression_op()) <==> op == OpCode::Error,
{
}

/// The kind of object a handle names.
#[derive(Debug, Clone, Copy, PartialEq, Eq, Structural)]
pub enum ContextType {
    /// A materialized table.
    DataFrame,
    /// A deferred computation that yields a table.
    LazyFrame,
    /// A deferred computation partitioned by keys, awaiting aggregations.
    LazyGroupBy,
}

impl ContextType {
    /// The wire tag of a kind.
    pub open spec fn tag_spec(self) -> u32 {
        match self {
            ContextType::DataFrame => 1,
            ContextType::LazyFrame => 2,
            ContextType::LazyGroupBy => 3,
        }
    }

    /// The wire tag of a kind.
    pub fn tag(&self) -> (t: u32)
        ensures
            t == self.tag_spec(),
    {
        match self {
            ContextType::DataFrame => 1,
            ContextType::LazyFrame => 2,
            ContextType::LazyGroupBy => 3,
        }
    }

    /// The kind a wire tag names, if any.
    pub open spec fn from_u32_spec(value: u32) -> Option<ContextType> {
        if value == 1 {
            Some(ContextType::DataFrame)
        } else if value == 2 {
            Some(ContextType::LazyFrame)
        } else if value == 3 {
            Some(ContextType::LazyGroupBy)
        } else {
            None
        }
    }

    /// Decodes a wire tag.
    #[verifier::when_used_as_spec(from_u32_spec)]
    pub fn from_u32(value: u32) -> (r: Option<Self>)
        ensures
            r == Self::from_u32_spec(value),
    {
        match value {
            1 => Some(ContextType::DataFrame),
            2 => Some(ContextType::LazyFrame),
            3 => Some(ContextType::LazyGroupBy),
            _ => None,
        }
    }

    /// The name of a kind as it appears in messages.
    pub open spec fn name_spec(self) -> Seq<char> {
        match self {
            ContextType::DataFrame => "DataFrame"@,
            ContextType::LazyFrame => "LazyFrame"@,
            ContextType::LazyGroupBy => "LazyGroupBy"@,
        }
    }

    /// The name of a kind as it appears in messages.
    pub fn name(&self) -> (s: &'static str)
        ensures
            s@ == self.name_spec(),
    {
        match self {
            ContextType::DataFrame => "DataFrame",
            ContextType::LazyFrame => "LazyFrame",
            ContextType::LazyGroupBy => "LazyGroupBy",
        }
    }
}

/// A tag decodes to the kind that carries it, and to nothing else.
pub proof fn lemma_tag_round_trip(kind: ContextType, value: u32)
    ensures
        ContextType::from_u32_spec(kind.tag_spec()) == Some(kind),
        ContextType::from_u32_spec(value) == Some(kind) <==> value == kind.tag_spec(),
{
}

/// The direction of one sort key.
#[derive(Debug, Clone, Copy, PartialEq, Eq, Structural)]
pub enum SortDirection {
    Ascending,
    Descending,
}

impl SortDirection {
    /// The direction a wire value names, if any.
    pub open spec fn from_u32_spec(value: u32) -> Option<SortDirection> {
        if value == 0 {
            Some(SortDirection::Ascending)
        } else if value == 1 {
            Some(SortDirection::Descending)
        } else {
            None
        }
    }

    /// Decodes a wire value: 0 is ascending, 1 is descending.
    #[verifier::when_used_as_spec(from_u32_spec)]
    pub fn from_u32(value: u32) -> (r: Option<Self>)
        ensures
            r == Self::from_u32_spec(value),
    {
        match value {
            0 => Some(SortDirection::Ascending),
            1 => Some(SortDirection::Descending),
            _ => None,
        }
    }
}

/// Where nulls go under one sort key.
#[derive(Debug, Clone, Copy, PartialEq, Eq, Structural)]
pub enum NullsOrdering {
    First,
    Last,
}

impl NullsOrdering {
    /// The ordering a wire value names, if any.
    pub open spec fn from_u32_spec(value: u32) -> Option<NullsOrdering> {
        if value == 0 {
            Some(NullsOrdering::First)
        } else if value == 1 {
            Some(NullsOrdering::Last)
        } else {
            None
        }
    }

    /// Decodes a wire value: 0 puts nulls first, 1 puts them last.
    #[verifier::when_used_as_spec(from_u32_spec)]
    pub fn from_u32(value: u32) -> (r: Option<Self>)
        ensures
            r == Self::from_u32_spec(value),
    {
        match value {
            0 => Some(NullsOrdering::First),
            1 => Some(NullsOrdering::Last),
            _ => None,
        }
    }
}

/// A handle as the host holds it: a token and the tag of the kind of object
/// the token names. Token zero names nothing.
#[derive(Debug, Clone, Copy, PartialEq, Eq, Structural)]
pub struct PolarsHandle {
    pub handle: usize,
    pub context_type: u32,
}

impl PolarsHandle {
    /// Pairs a token with the tag of a kind.
    pub fn new(handle: usize, context_type: ContextType) -> (h: Self)
        ensures
            h.handle == handle,
            h.context_type == context_type.tag_spec(),
    {
        Self { handle, context_type: context_type.tag() }
    }

    /// The kind the handle's tag names, if the tag is one.
    pub open spec fn get_context_type_spec(&self) -> Option<ContextType> {
        ContextType::from_u32_spec(self.context_type)
    }

    /// The kind the handle's tag names, if the tag is one.
    #[verifier::when_used_as_spec(get_context_type_spec)]
    pub fn get_context_type(&self) -> (r: Option<ContextType>)
        ensures
            r == self.get_context_type_spec(),
    {
        ContextType::from_u32(self.context_type)
    }
}

/// One sort key: a column, a direction (0 ascending, 1 descending) and the
/// place of nulls (0 first, 1 last).
pub struct SortField {
    pub column: RawStr,
    pub direction: u32,
    pub nulls_ordering: u32,
}

/// Arguments of a sort: its keys, the most significant first.
pub struct SortArgs {
    pub fields: Vec<SortField>,
}

/// Arguments of a limit: the number of rows to keep.
pub struct LimitArgs {
    pub n: usize,
}

/// Arguments of a SQL query: the statement.
pub struct QueryArgs {
    pub sql: RawStr,
}

/// Arguments of a SQL expression: its text.
pub struct SqlExprArgs {
    pub sql: RawStr,
}

/// How a join pairs the rows of its two sides.
#[derive(Debug, Clone, Copy, PartialEq, Eq, Structural)]
pub enum JoinKind {
    Inner,
    Left,
    Right,
    Full,
    Cross,
    Semi,
    Anti,
}

impl JoinKind {
    /// The join type a wire value names, if any.
    pub open spec fn from_u32_spec(value: u32) -> Option<JoinKind> {
        if value == 0 {
            Some(JoinKind::Inner)
        } else if value == 1 {
            Some(JoinKind::Left)
        } else if value == 2 {
            Some(JoinKind::Right)
        } else if value == 3 {
            Some(JoinKind::Full)
        } else if value == 4 {
            Some(JoinKind::Cross)
        } else if value == 5 {
            Some(JoinKind::Semi)
        } else if value == 6 {
            Some(JoinKind::Anti)
        } else {
            None
        }
    }

    /// Decodes a wire value: 0 inner, 1 left, 2 right, 3 full, 4 cross,
    /// 5 semi, 6 anti.
    #[verifier::when_used_as_spec(from_u32_spec)]
    pub fn from_u32(value: u32) -> (r: Option<Self>)
        ensures
            r == Self::from_u32_spec(value),
    {
        match value {
            0 => Some(JoinKind::Inner),
            1 => Some(JoinKind::Left),
            2 => Some(JoinKind::Right),
            3 => Some(JoinKind::Full),
            4 => Some(JoinKind::Cross),
            5 => Some(JoinKind::Semi),
            6 => Some(JoinKind::Anti),
            _ => None,
        }
    }
}

/// Arguments of a join: the handle of the right side, the key columns of
/// both sides, the code of the join type and the suffix that renames the
/// right side's columns where names collide. An empty suffix leaves the
/// choice to the columnar library.
pub struct JoinArgs {
    pub right: PolarsHandle,
    pub left_on: Option<Vec<RawStr>>,
    pub right_on: Option<Vec<RawStr>>,
    pub how: u32,
    pub suffix: RawStr,
}

/// Arguments of a window: the columns that partition the rows and the columns
/// that order them within a partition.
pub struct WindowArgs {
    pub partition_columns: Vec<RawStr>,
    pub order_columns: Vec<RawStr>,
}

/// Arguments of lag and lead: the signed offset in rows.
pub struct WindowOffsetArgs {
    pub offset: i32,
}

/// The arguments of one operation. Each operation reads the variant that
/// belongs to it; operations without arguments read none.
pub enum OpArgs {
    Empty,
    ReadCsv(ReadCsvArgs),
    ReadParquet(ReadParquetArgs),
    Select(SelectArgs),
    GroupBy(GroupByArgs),
    Concat(ConcatArgs),
    FilterExpr(FilterExprArgs),
    Sort(SortArgs),
    Limit(LimitArgs),
    Query(QueryArgs),
    Join(JoinArgs),
    Column(ColumnArgs),
    Literal(LiteralArgs),
    Alias(AliasArgs),
    Pattern(StringArgs),
    Aggregation(AggregationArgs),
    Count(CountArgs),
    Cast(CastArgs),
    SqlExpr(SqlExprArgs),
    Window(WindowArgs),
    WindowOffset(WindowOffsetArgs),
}

/// One step of a chain: the code of an operation and its arguments.
pub struct Operation {
    pub opcode: u32,
    pub args: OpArgs,
}

/// The operation that a code names, if it names one.
pub open spec fn opcode_of(value: u32) -> Option<OpCode> {
    if exists|op: OpCode| op.code_spec() == value {
        Some(choose|op: OpCode| op.code_spec() == value)
    } else {
        None
    }
}

impl Operation {
    /// The operation that the step's code names, if it names one.
    pub open spec fn get_opcode_spec(&self) -> Option<OpCode> {
        opcode_of(self.opcode)
    }

    /// The operation that the step's code names, if it names one.
    #[verifier::when_used_as_spec(get_opcode_spec)]
    pub fn get_opcode(&self) -> (r: Option<OpCode>)
        ensures
            r == self.get_opcode_spec(),
    {
        let r = OpCode::from_u32(self.opcode);
        proof {
            if let Some(op) = r {
                let chosen = choose|op: OpCode| op.code_spec() == self.opcode;
                lemma_code_injective(op, chosen);
            }
        }
        r
    }
}

/// The code of an operation names that operation and no other.
pub proof fn lemma_opcode_round_trip(op: OpCode)
    ensures
        opcode_of(op.code_spec()) == Some(op),
{
    let chosen = choose|other: OpCode| other.code_spec() == op.code_spec();
    lemma_code_injective(op, chosen);
}

} // verus!
