use datafusion_expr::{Signature, TypeSignature};
use to_local_time::error::decimal_text;
use to_local_time::types::clone_timezone;
use to_local_time::{
    ArrayValue, ColumnarValue, DataType, ErrorKind, ExecutionError, ScalarValue, TimeUnit,
    ToLocalTimeFunc,
};

fn host_unit(unit: TimeUnit) -> arrow::datatypes::TimeUnit {
    match unit {
        TimeUnit::Second => arrow::datatypes::TimeUnit::Second,
        TimeUnit::Millisecond => arrow::datatypes::TimeUnit::Millisecond,
        TimeUnit::Microsecond => arrow::datatypes::TimeUnit::Microsecond,
        TimeUnit::Nanosecond => arrow::datatypes::TimeUnit::Nanosecond,
    }
}

#[test]
fn signature_is_variadic_any_and_immutable() {
    let func = ToLocalTimeFunc::new();
    assert_eq!(
        func.signature(),
        &Signature::variadic_any(datafusion_expr::Volatility::Immutable)
    );
    assert_eq!(func.signature().type_signature, TypeSignature::VariadicAny);
    assert_eq!(
        func.signature().volatility,
        datafusion_expr::Volatility::Immutable
    );
    assert_ne!(
        func.signature(),
        &Signature::variadic_any(datafusion_expr::Volatility::Volatile)
    );
}

#[test]
fn default_is_the_same_function() {
    let func = ToLocalTimeFunc::default();
    assert_eq!(func.signature(), ToLocalTimeFunc::new().signature());
    assert_eq!(func.name(), "to_local_time");
}

#[test]
fn name_is_to_local_time() {
    assert_eq!(ToLocalTimeFunc::new().name(), "to_local_time");
}

#[test]
fn timestamp_types_print_as_the_host_prints_them() {
    for unit in [
        TimeUnit::Second,
        TimeUnit::Millisecond,
        TimeUnit::Microsecond,
        TimeUnit::Nanosecond,
    ] {
        for tz in [None, Some("+01:00"), Some("America/New_York"), Some("a\\b\"c")] {
            let host = arrow::datatypes::DataType::Timestamp(host_unit(unit), tz.map(|s| s.into()));
            let ours = DataType::Timestamp(unit, tz.map(String::from));
            assert_eq!(ours.printed(), format!("{:?}", host));
        }
    }
    assert_eq!(
        DataType::Timestamp(TimeUnit::Nanosecond, None).printed(),
        "Timestamp(Nanosecond, None)"
    );
    assert_eq!(
        DataType::Timestamp(TimeUnit::Microsecond, Some("UTC".into())).printed(),
        "Timestamp(Microsecond, Some(\"UTC\"))"
    );
}

#[test]
fn other_types_print_as_their_name() {
    assert_eq!(DataType::Other("Int64".into()).printed(), "Int64");
    assert_eq!(
        DataType::Other(format!("{:?}", arrow::datatypes::DataType::Utf8)).printed(),
        "Utf8"
    );
}

#[test]
fn data_type_of_each_value() {
    assert_eq!(
        ScalarValue::TimestampSecond(Some(1), None).data_type(),
        DataType::Timestamp(TimeUnit::Second, None)
    );
    assert_eq!(
        ScalarValue::TimestampMillisecond(None, Some("+01:00".into())).data_type(),
        DataType::Timestamp(TimeUnit::Millisecond, Some("+01:00".into()))
    );
    assert_eq!(
        ScalarValue::TimestampMicrosecond(Some(2), Some("UTC".into())).data_type(),
        DataType::Timestamp(TimeUnit::Microsecond, Some("UTC".into()))
    );
    assert_eq!(
        ScalarValue::TimestampNanosecond(None, None).data_type(),
        DataType::Timestamp(TimeUnit::Nanosecond, None)
    );
    assert_eq!(
        ScalarValue::Other("Int64".into()).data_type(),
        DataType::Other("Int64".into())
    );
    assert_eq!(
        ArrayValue::Timestamp(TimeUnit::Second, Some("UTC".into()), vec![None]).data_type(),
        DataType::Timestamp(TimeUnit::Second, Some("UTC".into()))
    );
    assert_eq!(
        ArrayValue::Other("Boolean".into()).data_type(),
        DataType::Other("Boolean".into())
    );
    assert_eq!(
        ColumnarValue::Array(ArrayValue::Timestamp(TimeUnit::Nanosecond, None, vec![])).data_type(),
        DataType::Timestamp(TimeUnit::Nanosecond, None)
    );
    assert_eq!(
        ColumnarValue::Scalar(ScalarValue::Other("Float64".into())).data_type(),
        DataType::Other("Float64".into())
    );
}

#[test]
fn clones_are_equal() {
    let values = vec![
        ColumnarValue::Scalar(ScalarValue::TimestampSecond(Some(1), Some("+01:00".into()))),
        ColumnarValue::Scalar(ScalarValue::TimestampMillisecond(None, None)),
        ColumnarValue::Scalar(ScalarValue::TimestampMicrosecond(Some(-3), None)),
        ColumnarValue::Scalar(ScalarValue::TimestampNanosecond(Some(4), Some("UTC".into()))),
        ColumnarValue::Scalar(ScalarValue::Other("Int64".into())),
        ColumnarValue::Array(ArrayValue::Timestamp(
            TimeUnit::Millisecond,
            Some("UTC".into()),
            vec![Some(1), None, Some(3)],
        )),
        ColumnarValue::Array(ArrayValue::Other("Utf8".into())),
    ];
    for value in values {
        assert_eq!(value.clone(), value);
    }
    let data_type = DataType::Timestamp(TimeUnit::Second, Some("UTC".into()));
    assert_eq!(data_type.clone(), data_type);
    assert_eq!(clone_timezone(&Some("UTC".into())), Some(String::from("UTC")));
    assert_eq!(clone_timezone(&None), None);
    let error = ExecutionError::no_argument();
    assert_eq!(error.clone(), error);
}

#[test]
fn numbers_are_written_in_decimal() {
    assert_eq!(decimal_text(0), "0");
    assert_eq!(decimal_text(7), "7");
    assert_eq!(decimal_text(9), "9");
    assert_eq!(decimal_text(10), "10");
    assert_eq!(decimal_text(120), "120");
    assert_eq!(decimal_text(1234567890), "1234567890");
    assert_eq!(decimal_text(usize::MAX), usize::MAX.to_string());
}

#[test]
fn each_failure_has_its_kind_and_message() {
    let error = ExecutionError::no_argument_type();
    assert_eq!(error.kind, ErrorKind::Arity);
    assert_eq!(
        error.message,
        "to_local_time function requires 1 arguments, got 0"
    );
    let error = ExecutionError::unresolvable_type();
    assert_eq!(error.kind, ErrorKind::TypeMismatch);
    assert_eq!(
        error.message,
        "The date_bin function can only accept timestamp as the second arg."
    );
    let error = ExecutionError::no_argument();
    assert_eq!(error.kind, ErrorKind::Arity);
    assert_eq!(
        error.message,
        "to_local_time function requires 1 or more arguments, got 0"
    );
    let error = ExecutionError::wrong_argument_count(3);
    assert_eq!(error.kind, ErrorKind::Arity);
    assert_eq!(
        error.message,
        "to_local_time function requires 1 argument, got 3"
    );
    let error = ExecutionError::unsupported_argument(ErrorKind::Shape, "Timestamp(Second, None)");
    assert_eq!(error.kind, ErrorKind::Shape);
    assert_eq!(
        error.message,
        "to_local_time function requires timestamp argument, got Timestamp(Second, None)"
    );
    let error = ExecutionError::unsupported_argument(ErrorKind::TypeMismatch, "");
    assert_eq!(error.kind, ErrorKind::TypeMismatch);
    assert_eq!(
        error.message,
        "to_local_time function requires timestamp argument, got "
    );
}
