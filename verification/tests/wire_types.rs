use firn::{
    data_type_of, decimal_text, decode_data_type, make_raw_str, numbered_message,
    raw_str_array_to_vec, stored_temporal, BooleanType, CastTarget, FloatType, IntegerType,
    JoinKind, Literal, LiteralError, RawStr, RawStrArrayError, ReadCsvArgs, StoredTemporalType,
    StringType, TemporalType, ERROR_INVALID_UTF8, ERROR_NULL_ARGS, ERROR_NULL_HANDLE,
    ERROR_POLARS_OPERATION,
};
use polars::prelude::{lit, DataType, TimeUnit};

fn raw(text: &str) -> RawStr {
    RawStr { data: text.as_bytes().to_vec() }
}

fn packed(family: u32, variant: u32) -> u32 {
    (family << 16) | variant
}

#[test]
fn error_codes_are_the_documented_ones() {
    assert_eq!(ERROR_NULL_HANDLE, 1);
    assert_eq!(ERROR_NULL_ARGS, 2);
    assert_eq!(ERROR_INVALID_UTF8, 3);
    assert_eq!(ERROR_POLARS_OPERATION, 4);
    assert_eq!(firn::noop(), 0);
}

#[test]
fn test_read_csv_args() {
    let path_bytes = b"test_sample.csv\0";
    let raw_str = make_raw_str(path_bytes[..path_bytes.len() - 1].to_vec());

    let args = ReadCsvArgs { path: raw_str, has_header: true, with_glob: false };

    let path_str = args.path.as_str().ok().unwrap();
    assert_eq!(path_str, "test_sample.csv");
}

#[test]
fn string_views_decode_utf8_and_refuse_the_rest() {
    assert_eq!(raw("").as_str().ok(), Some(""));
    assert_eq!(raw("größe").as_str().ok(), Some("größe"));
    assert!(RawStr { data: vec![0xff] }.as_str().is_err());
    assert!(RawStr { data: vec![0xe2, 0x82] }.as_str().is_err());
}

#[test]
fn arrays_of_views_are_read_in_order() {
    let views = vec![raw("a"), raw(""), raw("b c")];
    assert_eq!(
        raw_str_array_to_vec(Some(&views)).ok(),
        Some(vec!["a".to_string(), String::new(), "b c".to_string()])
    );
    assert_eq!(raw_str_array_to_vec(Some(&Vec::new())).ok(), Some(Vec::new()));
    assert_eq!(raw_str_array_to_vec(None).err(), Some(RawStrArrayError::NullArray));
    let broken = vec![raw("a"), RawStr { data: vec![0x80] }, raw("b")];
    assert_eq!(raw_str_array_to_vec(Some(&broken)).err(), Some(RawStrArrayError::InvalidUtf8));
    assert_eq!(RawStrArrayError::NullArray.code(), 2);
    assert_eq!(RawStrArrayError::InvalidUtf8.code(), 3);
    assert_eq!(RawStrArrayError::NullArray.message(), "RawStr array cannot be null");
    assert_eq!(RawStrArrayError::InvalidUtf8.message(), "Invalid UTF-8 in string");
}

#[test]
fn type_codes_decode_by_family_and_variant() {
    let integers = [
        IntegerType::Int8,
        IntegerType::Int16,
        IntegerType::Int32,
        IntegerType::Int64,
        IntegerType::UInt8,
        IntegerType::UInt16,
        IntegerType::UInt32,
        IntegerType::UInt64,
    ];
    for (i, expected) in integers.iter().enumerate() {
        let decoded = decode_data_type(packed(0, i as u32 + 1)).ok();
        assert_eq!(decoded, Some(CastTarget::Integer(*expected)));
    }
    assert_eq!(decode_data_type(0x0001_0001).ok(), Some(CastTarget::Float(FloatType::Float32)));
    assert_eq!(decode_data_type(0x0001_0002).ok(), Some(CastTarget::Float(FloatType::Float64)));
    assert_eq!(decode_data_type(0x0002_0001).ok(), Some(CastTarget::String(StringType::Utf8)));
    assert_eq!(decode_data_type(0x0003_0001).ok(), Some(CastTarget::Temporal(TemporalType::Date)));
    assert_eq!(decode_data_type(0x0003_0002).ok(), Some(CastTarget::Temporal(TemporalType::Time)));
    assert_eq!(
        decode_data_type(0x0003_0003).ok(),
        Some(CastTarget::Temporal(TemporalType::DatetimeNanoseconds))
    );
    assert_eq!(
        decode_data_type(0x0003_0004).ok(),
        Some(CastTarget::Temporal(TemporalType::DatetimeMicroseconds))
    );
    assert_eq!(
        decode_data_type(0x0003_0005).ok(),
        Some(CastTarget::Temporal(TemporalType::DatetimeMilliseconds))
    );
    assert_eq!(
        decode_data_type(0x0003_0006).ok(),
        Some(CastTarget::Temporal(TemporalType::DatetimeSeconds))
    );
    assert_eq!(decode_data_type(0x0004_0001).ok(), Some(CastTarget::Boolean(BooleanType::Bool)));
}

fn refusal(encoded: u32) -> (i32, String, usize) {
    match decode_data_type(encoded) {
        Ok(target) => panic!("{:?} was decoded", target),
        Err(failure) => {
            assert_eq!(failure.polars_handle.handle, 0);
            (failure.error_code, failure.error_message.unwrap(), failure.error_frame)
        },
    }
}

#[test]
fn unknown_type_codes_are_refused_with_the_number_they_carry() {
    assert_eq!(refusal(0), (4, "Unknown integer type variant: 0".to_string(), 0));
    assert_eq!(refusal(9), (4, "Unknown integer type variant: 9".to_string(), 0));
    assert_eq!(refusal(0x0001_0003), (4, "Unknown float type variant: 3".to_string(), 0));
    assert_eq!(refusal(0x0002_0002), (4, "Unknown string type variant: 2".to_string(), 0));
    assert_eq!(refusal(0x0003_0007), (4, "Unknown temporal type variant: 7".to_string(), 0));
    assert_eq!(refusal(0x0004_ffff), (4, "Unknown boolean type variant: 65535".to_string(), 0));
    assert_eq!(refusal(0x0005_0001), (4, "Unknown data type family: 5".to_string(), 0));
    assert_eq!(refusal(u32::MAX), (4, "Unknown data type family: 65535".to_string(), 0));
}

fn literal(value_type: u8) -> Literal {
    Literal {
        value_type,
        int_value: -7,
        float_value: lit(2.5),
        string_value: raw("text"),
        bool_value: true,
    }
}

#[test]
fn literals_take_the_slot_that_the_tag_names() {
    assert_eq!(literal(0).to_expr().ok(), Some(lit(-7i64)));
    assert_eq!(literal(1).to_expr().ok(), Some(lit(2.5)));
    assert_eq!(literal(2).to_expr().ok(), Some(lit("text")));
    assert_eq!(literal(3).to_expr().ok(), Some(lit(true)));
    assert_eq!(literal(4).to_expr().err(), Some(LiteralError::InvalidType));
    assert_eq!(literal(255).to_expr().err(), Some(LiteralError::InvalidType));
    let mut broken = literal(2);
    broken.string_value = RawStr { data: vec![0xc0] };
    assert_eq!(broken.to_expr().err(), Some(LiteralError::InvalidUtf8));
    assert_eq!(LiteralError::InvalidUtf8.code(), 3);
    assert_eq!(LiteralError::InvalidType.code(), 4);
    assert_eq!(LiteralError::InvalidType.message(), "Invalid literal type");
    broken.value_type = 0;
    assert_eq!(broken.to_expr().ok(), Some(lit(-7i64)));
}

#[test]
fn join_kinds_decode_from_their_codes() {
    let kinds = [
        JoinKind::Inner,
        JoinKind::Left,
        JoinKind::Right,
        JoinKind::Full,
        JoinKind::Cross,
        JoinKind::Semi,
        JoinKind::Anti,
    ];
    for (code, kind) in kinds.iter().enumerate() {
        assert_eq!(JoinKind::from_u32(code as u32), Some(*kind));
    }
    assert_eq!(JoinKind::from_u32(7), None);
}

#[test]
fn every_type_code_names_a_target_of_its_own() {
    let mut decoded: Vec<(u32, CastTarget)> = Vec::new();
    for family in 0..6u32 {
        for variant in 0..10u32 {
            let code = packed(family, variant);
            if let Ok(target) = decode_data_type(code) {
                decoded.push((code, target));
            }
        }
    }
    assert_eq!(decoded.len(), 18);
    for (i, first) in decoded.iter().enumerate() {
        for second in decoded.iter().skip(i + 1) {
            assert_ne!(first.1, second.1, "{:#x} and {:#x}", first.0, second.0);
        }
    }
}

#[test]
fn numbers_are_written_in_decimal() {
    assert_eq!(decimal_text(0), "0");
    assert_eq!(decimal_text(7), "7");
    assert_eq!(decimal_text(10), "10");
    assert_eq!(decimal_text(109), "109");
    assert_eq!(decimal_text(65535), "65535");
    assert_eq!(decimal_text(1_000_000), "1000000");
    assert_eq!(decimal_text(u32::MAX), "4294967295");
    for n in [0u32, 1, 9, 10, 11, 99, 100, 101, 12345, 4_000_000_000] {
        assert_eq!(decimal_text(n), n.to_string());
    }
    assert_eq!(numbered_message("Unknown data type family: ", 42), "Unknown data type family: 42");
    assert_eq!(numbered_message("", 0), "0");
}

#[test]
fn datetimes_in_seconds_are_kept_in_milliseconds() {
    assert_eq!(stored_temporal(TemporalType::Date), StoredTemporalType::Date);
    assert_eq!(stored_temporal(TemporalType::Time), StoredTemporalType::Time);
    assert_eq!(
        stored_temporal(TemporalType::DatetimeNanoseconds),
        StoredTemporalType::DatetimeNanoseconds
    );
    assert_eq!(
        stored_temporal(TemporalType::DatetimeMicroseconds),
        StoredTemporalType::DatetimeMicroseconds
    );
    assert_eq!(
        stored_temporal(TemporalType::DatetimeMilliseconds),
        StoredTemporalType::DatetimeMilliseconds
    );
    assert_eq!(
        stored_temporal(TemporalType::DatetimeSeconds),
        StoredTemporalType::DatetimeMilliseconds
    );
    assert_eq!(
        data_type_of(CastTarget::Temporal(TemporalType::DatetimeSeconds)),
        DataType::Datetime(TimeUnit::Milliseconds, None)
    );
    assert_eq!(
        data_type_of(CastTarget::Temporal(TemporalType::DatetimeSeconds)),
        data_type_of(CastTarget::Temporal(TemporalType::DatetimeMilliseconds))
    );
    assert_eq!(
        data_type_of(CastTarget::Temporal(TemporalType::DatetimeNanoseconds)),
        DataType::Datetime(TimeUnit::Nanoseconds, None)
    );
    assert_eq!(data_type_of(CastTarget::Temporal(TemporalType::Date)), DataType::Date);
    assert_eq!(data_type_of(CastTarget::Temporal(TemporalType::Time)), DataType::Time);
    assert_eq!(data_type_of(CastTarget::Integer(IntegerType::UInt16)), DataType::UInt16);
    assert_eq!(data_type_of(CastTarget::Float(FloatType::Float32)), DataType::Float32);
    assert_eq!(data_type_of(CastTarget::String(StringType::Utf8)), DataType::String);
    assert_eq!(data_type_of(CastTarget::Boolean(BooleanType::Bool)), DataType::Boolean);
}
