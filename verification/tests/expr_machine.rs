use firn::{
    dispatch_expression_operation, execute_expr_ops, AggregationArgs, AliasArgs, CastArgs,
    ColumnArgs, CountArgs, ExecutionContext, Literal, LiteralArgs, OpArgs, OpCode, Operation,
    RawStr, StringArgs, WindowArgs, WindowOffsetArgs,
};
use polars::chunked_array::cast::CastOptions;
use polars::prelude::{col, lit, ternary_expr, DataType, Expr, SortMultipleOptions, TimeUnit};

fn raw(text: &str) -> RawStr {
    RawStr { data: text.as_bytes().to_vec() }
}

fn op(opcode: OpCode, args: OpArgs) -> Operation {
    Operation { opcode: opcode.code(), args }
}

fn column(name: &str) -> Operation {
    op(OpCode::ExprColumn, OpArgs::Column(ColumnArgs { name: raw(name) }))
}

fn literal(value_type: u8, int_value: i64, text: &str, flag: bool) -> Operation {
    op(
        OpCode::ExprLiteral,
        OpArgs::Literal(LiteralArgs {
            literal: Literal {
                value_type,
                int_value,
                float_value: lit(1.5),
                string_value: raw(text),
                bool_value: flag,
            },
        }),
    )
}

fn integer(value: i64) -> Operation {
    literal(0, value, "", false)
}

fn bare(opcode: OpCode) -> Operation {
    op(opcode, OpArgs::Empty)
}

fn built(ops: Vec<Operation>) -> Expr {
    execute_expr_ops(&ops).unwrap()
}

/// Runs one operation on a stack and returns the error code and the stack.
fn step(stack: Vec<Expr>, operation: &Operation) -> (i32, Vec<Expr>) {
    let mut context = ExecutionContext { expr_stack: stack, operation_args: &operation.args };
    let answer = dispatch_expression_operation(operation.get_opcode().unwrap(), &mut context);
    assert_eq!(answer.polars_handle.handle, 0);
    assert_eq!(answer.error_message.is_some(), answer.error_code != 0);
    (answer.error_code, context.expr_stack)
}

#[test]
fn test_execution_context() {
    let stack: Vec<Expr> = Vec::new();
    let args = OpArgs::Empty;

    let mut context = ExecutionContext { expr_stack: stack, operation_args: &args };

    context.expr_stack.push(col("test"));

    assert_eq!(context.expr_stack.len(), 1);
}

#[test]
fn comparison_takes_the_top_as_right_operand() {
    let expr = built(vec![column("a"), integer(1), bare(OpCode::ExprGt)]);
    assert_eq!(expr, col("a").gt(lit(1i64)));
    assert_ne!(expr, lit(1i64).gt(col("a")));
}

#[test]
fn literals_of_every_kind_are_pushed() {
    assert_eq!(built(vec![integer(-3)]), lit(-3i64));
    assert_eq!(built(vec![literal(1, 0, "", false)]), lit(1.5));
    assert_eq!(built(vec![literal(2, 0, "héllo", false)]), lit("héllo"));
    assert_eq!(built(vec![literal(3, 0, "", true)]), lit(true));
    assert_eq!(step(Vec::new(), &literal(9, 0, "", false)).0, 4);
    let broken = op(
        OpCode::ExprLiteral,
        OpArgs::Literal(LiteralArgs {
            literal: Literal {
                value_type: 2,
                int_value: 0,
                float_value: lit(0.0),
                string_value: RawStr { data: vec![0xff] },
                bool_value: false,
            },
        }),
    );
    assert_eq!(step(vec![col("x")], &broken), (3, vec![col("x")]));
}

#[test]
fn binary_operations_build_their_expression() {
    let cases: Vec<(OpCode, Expr)> = vec![
        (OpCode::ExprAdd, col("l") + col("r")),
        (OpCode::ExprSub, col("l") - col("r")),
        (OpCode::ExprMul, col("l") * col("r")),
        (OpCode::ExprDiv, col("l") / col("r")),
        (OpCode::ExprGt, col("l").gt(col("r"))),
        (OpCode::ExprLt, col("l").lt(col("r"))),
        (OpCode::ExprEq, col("l").eq(col("r"))),
        (OpCode::ExprAnd, col("l").and(col("r"))),
        (OpCode::ExprOr, col("l").or(col("r"))),
    ];
    for (opcode, expected) in cases {
        let (code, stack) = step(vec![col("below"), col("l"), col("r")], &bare(opcode));
        assert_eq!(code, 0);
        assert_eq!(stack, vec![col("below"), expected]);
        assert_eq!(step(vec![col("l")], &bare(opcode)), (4, vec![col("l")]));
        assert_eq!(step(Vec::new(), &bare(opcode)).0, 4);
    }
}

#[test]
fn unary_operations_build_their_expression() {
    let cases: Vec<(OpCode, Expr)> = vec![
        (OpCode::ExprNot, col("x").not()),
        (OpCode::ExprSum, col("x").sum()),
        (OpCode::ExprMean, col("x").mean()),
        (OpCode::ExprMin, col("x").min()),
        (OpCode::ExprMax, col("x").max()),
        (OpCode::ExprMedian, col("x").median()),
        (OpCode::ExprFirst, col("x").first()),
        (OpCode::ExprLast, col("x").last()),
        (OpCode::ExprNUnique, col("x").n_unique()),
        (OpCode::ExprIsNull, col("x").is_null()),
        (OpCode::ExprIsNotNull, col("x").is_not_null()),
        (OpCode::ExprStrLen, col("x").str().len_chars()),
        (OpCode::ExprStrToLowercase, col("x").str().to_lowercase()),
        (OpCode::ExprStrToUppercase, col("x").str().to_uppercase()),
    ];
    for (opcode, expected) in cases {
        let (code, stack) = step(vec![col("below"), col("x")], &bare(opcode));
        assert_eq!(code, 0);
        assert_eq!(stack, vec![col("below"), expected]);
        assert_eq!(step(Vec::new(), &bare(opcode)).0, 4);
    }
}

#[test]
fn spread_reductions_read_their_degrees_of_freedom() {
    let sample = OpArgs::Aggregation(AggregationArgs { ddof: 1 });
    let population = OpArgs::Aggregation(AggregationArgs { ddof: 0 });
    assert_eq!(step(vec![col("x")], &op(OpCode::ExprStd, sample)).1, vec![col("x").std(1)]);
    assert_eq!(step(vec![col("x")], &op(OpCode::ExprVar, population)).1, vec![col("x").var(0)]);
    assert_ne!(col("x").std(1), col("x").var(1));
    assert_eq!(step(Vec::new(), &op(OpCode::ExprStd, OpArgs::Aggregation(AggregationArgs { ddof: 1 }))).0, 4);
    assert_eq!(step(vec![col("x")], &bare(OpCode::ExprVar)), (2, vec![col("x")]));
}

#[test]
fn counts_include_nulls_only_where_asked() {
    let all = op(OpCode::ExprCount, OpArgs::Count(CountArgs { include_nulls: true }));
    let values = op(OpCode::ExprCount, OpArgs::Count(CountArgs { include_nulls: false }));
    let other = op(OpCode::ExprCountNulls, OpArgs::Count(CountArgs { include_nulls: false }));
    assert_eq!(step(vec![col("x")], &all).1, vec![col("x").len()]);
    assert_eq!(step(vec![col("x")], &values).1, vec![col("x").count()]);
    assert_eq!(step(vec![col("x")], &other).1, vec![col("x").count()]);
    assert_ne!(col("x").len(), col("x").count());
    assert_eq!(step(Vec::new(), &all).0, 4);
}

#[test]
fn alias_renames_the_top_expression() {
    let alias = op(OpCode::ExprAlias, OpArgs::Alias(AliasArgs { name: raw("double") }));
    assert_eq!(
        built(vec![column("salary"), integer(2), bare(OpCode::ExprMul), alias]),
        (col("salary") * lit(2i64)).alias("double")
    );
    let alias = op(OpCode::ExprAlias, OpArgs::Alias(AliasArgs { name: raw("double") }));
    assert_eq!(step(Vec::new(), &alias).0, 4);
    let broken = op(OpCode::ExprAlias, OpArgs::Alias(AliasArgs { name: RawStr { data: vec![0xff] } }));
    assert_eq!(step(vec![col("x")], &broken), (3, vec![col("x")]));
    assert_eq!(step(Vec::new(), &broken).0, 4);
}

#[test]
fn string_tests_compare_with_the_literal_pattern() {
    let pattern = |opcode| op(opcode, OpArgs::Pattern(StringArgs { pattern: raw("ab") }));
    assert_eq!(
        step(vec![col("s")], &pattern(OpCode::ExprStrContains)).1,
        vec![col("s").str().contains_literal(lit("ab"))]
    );
    assert_eq!(
        step(vec![col("s")], &pattern(OpCode::ExprStrStartsWith)).1,
        vec![col("s").str().starts_with(lit("ab"))]
    );
    assert_eq!(
        step(vec![col("s")], &pattern(OpCode::ExprStrEndsWith)).1,
        vec![col("s").str().ends_with(lit("ab"))]
    );
    assert_eq!(step(Vec::new(), &pattern(OpCode::ExprStrContains)).0, 4);
    let broken = op(
        OpCode::ExprStrEndsWith,
        OpArgs::Pattern(StringArgs { pattern: RawStr { data: vec![0xff] } }),
    );
    assert_eq!(step(vec![col("s")], &broken), (3, vec![col("s")]));
}

#[test]
fn column_names_have_to_be_utf8() {
    let broken = op(OpCode::ExprColumn, OpArgs::Column(ColumnArgs { name: RawStr { data: vec![0xf0, 0x28] } }));
    assert_eq!(step(vec![col("x")], &broken), (3, vec![col("x")]));
    assert_eq!(step(Vec::new(), &bare(OpCode::ExprColumn)).0, 2);
    assert_eq!(step(Vec::new(), &column("a")), (0, vec![col("a")]));
}

#[test]
fn windows_partition_and_order() {
    let partitioned = op(
        OpCode::ExprOver,
        OpArgs::Window(WindowArgs {
            partition_columns: vec![raw("dept"), raw("site")],
            order_columns: Vec::new(),
        }),
    );
    assert_eq!(
        step(vec![col("salary").sum()], &partitioned).1,
        vec![col("salary").sum().over([col("dept"), col("site")])]
    );
    assert_eq!(
        col("salary").sum().over([col("dept"), col("site")]),
        col("salary").sum().over(["dept", "site"])
    );
    let ordered = op(
        OpCode::ExprOver,
        OpArgs::Window(WindowArgs {
            partition_columns: vec![raw("dept")],
            order_columns: vec![raw("hired")],
        }),
    );
    assert_eq!(
        step(vec![col("salary")], &ordered).1,
        vec![col("salary").over(["dept"]).sort_by([col("hired")], SortMultipleOptions::default())]
    );
    assert_eq!(step(Vec::new(), &ordered).0, 4);
    let broken = op(
        OpCode::ExprOver,
        OpArgs::Window(WindowArgs {
            partition_columns: vec![raw("dept")],
            order_columns: vec![RawStr { data: vec![0xff] }],
        }),
    );
    assert_eq!(step(vec![col("salary")], &broken), (3, vec![col("salary")]));
}

#[test]
fn ranking_operations_push_their_placeholder() {
    assert_eq!(step(vec![col("x")], &bare(OpCode::ExprRank)).1, vec![col("x"), lit(1).alias("rank")]);
    assert_eq!(step(Vec::new(), &bare(OpCode::ExprDenseRank)).1, vec![lit(1).alias("dense_rank")]);
    assert_eq!(step(Vec::new(), &bare(OpCode::ExprRowNumber)).1, vec![lit(1).alias("row_number")]);
}

#[test]
fn lag_and_lead_shift_by_the_negated_offset() {
    let lag = op(OpCode::ExprLag, OpArgs::WindowOffset(WindowOffsetArgs { offset: -2 }));
    let lead = op(OpCode::ExprLead, OpArgs::WindowOffset(WindowOffsetArgs { offset: 3 }));
    assert_eq!(step(vec![col("x")], &lag).1, vec![col("x").shift(lit(2i64))]);
    assert_eq!(step(vec![col("x")], &lead).1, vec![col("x").shift(lit(-3i64))]);
    let least = op(OpCode::ExprLag, OpArgs::WindowOffset(WindowOffsetArgs { offset: i32::MIN }));
    assert_eq!(step(vec![col("x")], &least).1, vec![col("x").shift(lit(2147483648i64))]);
    assert_eq!(step(Vec::new(), &lag).0, 4);
}

#[test]
fn conditionals_take_predicate_true_branch_and_false_branch() {
    let expr = built(vec![
        column("a"),
        integer(0),
        bare(OpCode::ExprGt),
        bare(OpCode::ExprWhen),
        column("b"),
        bare(OpCode::ExprThen),
        integer(-1),
        bare(OpCode::ExprOtherwise),
    ]);
    assert_eq!(
        expr,
        polars::prelude::when(col("a").gt(lit(0i64))).then(col("b")).otherwise(lit(-1i64))
    );
    assert_eq!(expr, ternary_expr(col("a").gt(lit(0i64)), col("b"), lit(-1i64)));
    assert_eq!(step(Vec::new(), &bare(OpCode::ExprWhen)).0, 4);
    assert_eq!(step(vec![col("p")], &bare(OpCode::ExprWhen)), (0, vec![col("p")]));
    assert_eq!(step(vec![col("p")], &bare(OpCode::ExprThen)).0, 4);
    assert_eq!(step(vec![col("p"), col("t")], &bare(OpCode::ExprThen)), (0, vec![col("p"), col("t")]));
    assert_eq!(step(vec![col("p"), col("t")], &bare(OpCode::ExprOtherwise)), (4, vec![col("p"), col("t")]));
}

fn cast(dtype: u32, strict: bool, wrap_numerical: bool) -> Operation {
    op(OpCode::ExprCast, OpArgs::Cast(CastArgs { dtype, strict, wrap_numerical }))
}

#[test]
fn casts_target_the_decoded_type() {
    let targets: Vec<(u32, DataType)> = vec![
        (0x0000_0001, DataType::Int8),
        (0x0000_0002, DataType::Int16),
        (0x0000_0003, DataType::Int32),
        (0x0000_0004, DataType::Int64),
        (0x0000_0005, DataType::UInt8),
        (0x0000_0006, DataType::UInt16),
        (0x0000_0007, DataType::UInt32),
        (0x0000_0008, DataType::UInt64),
        (0x0001_0001, DataType::Float32),
        (0x0001_0002, DataType::Float64),
        (0x0002_0001, DataType::String),
        (0x0003_0001, DataType::Date),
        (0x0003_0002, DataType::Time),
        (0x0003_0003, DataType::Datetime(TimeUnit::Nanoseconds, None)),
        (0x0003_0004, DataType::Datetime(TimeUnit::Microseconds, None)),
        (0x0003_0005, DataType::Datetime(TimeUnit::Milliseconds, None)),
        (0x0003_0006, DataType::Datetime(TimeUnit::Milliseconds, None)),
        (0x0004_0001, DataType::Boolean),
    ];
    for (code, dtype) in targets {
        assert_eq!(step(vec![col("x")], &cast(code, false, false)).1, vec![col("x").cast(dtype.clone())]);
        assert_eq!(step(vec![col("x")], &cast(code, true, false)).1, vec![col("x").strict_cast(dtype.clone())]);
        assert_eq!(
            step(vec![col("x")], &cast(code, true, true)).1,
            vec![col("x").cast_with_options(dtype.clone(), CastOptions::Overflowing)]
        );
        assert_eq!(
            step(vec![col("x")], &cast(code, false, true)).1,
            vec![col("x").cast_with_options(dtype, CastOptions::Overflowing)]
        );
    }
    assert_ne!(col("x").cast(DataType::Int8), col("x").strict_cast(DataType::Int8));
    assert_eq!(step(vec![col("x")], &cast(0x0000_0009, false, false)), (4, vec![col("x")]));
    assert_eq!(step(vec![col("x")], &cast(0x0009_0001, false, false)), (4, vec![col("x")]));
    assert_eq!(step(Vec::new(), &cast(0x0000_0001, false, false)).0, 4);
}

#[test]
fn operations_outside_the_expression_class_are_refused() {
    let mut context = ExecutionContext { expr_stack: vec![col("x")], operation_args: &OpArgs::Empty };
    for opcode in [OpCode::Select, OpCode::Collect, OpCode::Error] {
        let answer = dispatch_expression_operation(opcode, &mut context);
        assert_eq!(answer.error_code, 4);
        assert_eq!(context.expr_stack, vec![col("x")]);
    }
}

fn failure(ops: Vec<Operation>) -> (i32, &'static str) {
    match execute_expr_ops(&ops) {
        Ok(built) => panic!("{:?} was built", built),
        Err(error) => (error.code, error.message),
    }
}

#[test]
fn programs_have_to_leave_exactly_one_expression() {
    assert_eq!(
        failure(Vec::new()),
        (4, "Invalid expression - stack should have exactly one element")
    );
    assert_eq!(
        failure(vec![column("a"), column("b")]),
        (4, "Invalid expression - stack should have exactly one element")
    );
    assert_eq!(
        failure(vec![column("a"), op(OpCode::Collect, OpArgs::Empty)]),
        (4, "Non-expression operation in expression context")
    );
    assert_eq!(
        failure(vec![column("a"), Operation { opcode: 77, args: OpArgs::Empty }]),
        (4, "Invalid opcode")
    );
    assert_eq!(
        failure(vec![column("a"), bare(OpCode::ExprAdd), column("b")]),
        (4, "Expression operation failed")
    );
    assert_eq!(
        failure(vec![op(OpCode::Error, OpArgs::Empty)]),
        (4, "Non-expression operation in expression context")
    );
}

#[test]
fn programs_fail_with_the_code_of_the_operation_that_failed() {
    let broken = op(OpCode::ExprColumn, OpArgs::Column(ColumnArgs { name: RawStr { data: vec![0xff] } }));
    assert_eq!(failure(vec![broken]), (3, "Expression operation failed"));
    let broken = op(OpCode::ExprColumn, OpArgs::Column(ColumnArgs { name: RawStr { data: vec![0xff] } }));
    assert_eq!(failure(vec![column("a"), broken, bare(OpCode::ExprGt)]), (3, "Expression operation failed"));
    assert_eq!(failure(vec![bare(OpCode::ExprColumn)]), (2, "Expression operation failed"));
    assert_eq!(failure(vec![literal(9, 0, "", false)]), (4, "Expression operation failed"));
}
