use to_local_time::{
    ArrayValue, ColumnarValue, DataType, ErrorKind, ScalarValue, TimeUnit, ToLocalTimeFunc,
};

const UNITS: [TimeUnit; 4] = [
    TimeUnit::Second,
    TimeUnit::Millisecond,
    TimeUnit::Microsecond,
    TimeUnit::Nanosecond,
];

#[test]
fn empty_type_list_is_an_arity_error() {
    let error = ToLocalTimeFunc::new().return_type(&[]).unwrap_err();
    assert_eq!(error.kind, ErrorKind::Arity);
    assert_eq!(
        error.message,
        "to_local_time function requires 1 arguments, got 0"
    );
}

#[test]
fn timestamp_type_resolves_to_the_same_unit_without_timezone() {
    let func = ToLocalTimeFunc::new();
    for unit in UNITS {
        assert_eq!(
            func.return_type(&[DataType::Timestamp(unit, None)]),
            Ok(DataType::Timestamp(unit, None))
        );
        assert_eq!(
            func.return_type(&[DataType::Timestamp(unit, Some("+01:00".into()))]),
            Ok(DataType::Timestamp(unit, None))
        );
        assert_eq!(
            func.return_type(&[DataType::Timestamp(unit, Some("America/New_York".into()))]),
            Ok(DataType::Timestamp(unit, None))
        );
    }
}

#[test]
fn integer_type_is_a_type_mismatch() {
    let error = ToLocalTimeFunc::new()
        .return_type(&[DataType::Other("Int64".into())])
        .unwrap_err();
    assert_eq!(error.kind, ErrorKind::TypeMismatch);
    assert_eq!(
        error.message,
        "The date_bin function can only accept timestamp as the second arg."
    );
}

#[test]
fn types_after_the_first_are_ignored() {
    let func = ToLocalTimeFunc::new();
    assert_eq!(
        func.return_type(&[
            DataType::Timestamp(TimeUnit::Microsecond, Some("UTC".into())),
            DataType::Other("Int64".into()),
        ]),
        Ok(DataType::Timestamp(TimeUnit::Microsecond, None))
    );
    let error = func
        .return_type(&[
            DataType::Other("Utf8".into()),
            DataType::Timestamp(TimeUnit::Second, None),
        ])
        .unwrap_err();
    assert_eq!(error.kind, ErrorKind::TypeMismatch);
}

#[test]
fn two_arguments_resolve_but_do_not_invoke() {
    let func = ToLocalTimeFunc::new();
    let types = [
        DataType::Timestamp(TimeUnit::Second, None),
        DataType::Timestamp(TimeUnit::Second, None),
    ];
    assert_eq!(
        func.return_type(&types),
        Ok(DataType::Timestamp(TimeUnit::Second, None))
    );
    let args = [
        ColumnarValue::Scalar(ScalarValue::TimestampSecond(Some(1), None)),
        ColumnarValue::Scalar(ScalarValue::TimestampSecond(Some(1), None)),
    ];
    assert_eq!(func.invoke(&args).unwrap_err().kind, ErrorKind::Arity);
}

#[test]
fn resolution_predicts_the_type_of_the_result() {
    let func = ToLocalTimeFunc::new();
    let mut values = Vec::new();
    for tz in [None, Some(String::from("+01:00")), Some(String::from("Asia/Tokyo"))] {
        values.push(ColumnarValue::Scalar(ScalarValue::TimestampSecond(Some(1), tz.clone())));
        values.push(ColumnarValue::Scalar(ScalarValue::TimestampMillisecond(
            Some(2),
            tz.clone(),
        )));
        values.push(ColumnarValue::Scalar(ScalarValue::TimestampMicrosecond(
            Some(3),
            tz.clone(),
        )));
        values.push(ColumnarValue::Scalar(ScalarValue::TimestampNanosecond(
            Some(4),
            tz.clone(),
        )));
        values.push(ColumnarValue::Scalar(ScalarValue::TimestampNanosecond(None, tz.clone())));
        for unit in UNITS {
            values.push(ColumnarValue::Array(ArrayValue::Timestamp(
                unit,
                tz.clone(),
                vec![Some(9), None],
            )));
        }
    }
    let mut succeeded = 0;
    for value in values {
        let predicted = func.return_type(&[value.data_type()]).unwrap();
        if let Ok(local) = func.invoke(&[value]) {
            assert_eq!(local.data_type(), predicted);
            succeeded += 1;
        }
    }
    assert_eq!(succeeded, 17);
}

#[test]
fn integer_fails_in_resolution_and_in_invocation() {
    let func = ToLocalTimeFunc::new();
    let value = ColumnarValue::Scalar(ScalarValue::Other("Int64".into()));
    let resolved = func.return_type(&[value.data_type()]).unwrap_err();
    assert_eq!(resolved.kind, ErrorKind::TypeMismatch);
    let invoked = func.invoke(&[value]).unwrap_err();
    assert_eq!(invoked.kind, ErrorKind::TypeMismatch);
}
