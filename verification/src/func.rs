//! The function `to_local_time`: what it accepts, the type it returns, and
//! the conversion itself.
//!
//! The conversion removes the time zone from a timestamp and leaves the
//! stored instant as it is. It does not compute a wall-clock time.

use crate::error::{
    no_argument, no_argument_type, unresolvable_type, unsupported_argument, wrong_argument_count,
    ErrorKind, ErrorView, ExecutionError,
};
use crate::host::{variadic_any, variadic_any_signature};
use crate::types::{DataType, DataTypeView, Volatility};
use crate::value::{ColumnarValue, ColumnarView, ScalarValue, ScalarView};
use datafusion_expr::Signature;
use vstd::prelude::*;

verus! {

/// What each value of a sequence stands for.
pub open spec fn views<T: View>(values: Seq<T>) -> Seq<T::V> {
    values.map_values(|value: T| value@)
}

/// What the outcome of a call stands for.
pub open spec fn outcome_view<T: View, E: View>(outcome: Result<T, E>) -> Result<T::V, E::V> {
    match outcome {
        Ok(value) => Ok(value@),
        Err(error) => Err(error@),
    }
}

/// The type that the function returns for arguments of the given types.
///
/// Only the first type is looked at. A timestamp type gives the timestamp
/// type of the same unit without a time zone.
pub open spec fn resolved_type(arg_types: Seq<DataTypeView>) -> Result<DataTypeView, ErrorView> {
    if arg_types.len() == 0 {
        Err(no_argument_type())
    } else {
        match arg_types[0] {
            DataTypeView::Timestamp(unit, _) => Ok(DataTypeView::Timestamp(unit, None)),
            DataTypeView::Other(_) => Err(unresolvable_type()),
        }
    }
}

/// The local time of one value.
///
/// A timestamp without a time zone, scalar or batch, is its own local time.
/// A scalar timestamp with a time zone and an instant gives the scalar of the
/// same unit and instant without the time zone. Everything else fails.
pub open spec fn converted(value: ColumnarView) -> Result<ColumnarView, ErrorView> {
    match value.data_type() {
        DataTypeView::Timestamp(_, None) => Ok(value),
        DataTypeView::Timestamp(_, Some(_)) => match value {
            ColumnarView::Scalar(ScalarView::Timestamp(unit, Some(instant), _)) => Ok(
                ColumnarView::Scalar(ScalarView::Timestamp(unit, Some(instant), None)),
            ),
            _ => Err(unsupported_argument(ErrorKind::Shape, value.data_type().printed())),
        },
        DataTypeView::Other(_) => Err(
            unsupported_argument(ErrorKind::TypeMismatch, value.data_type().printed()),
        ),
    }
}

/// The conversion of an argument list, which must hold exactly one value.
pub open spec fn local_time(args: Seq<ColumnarView>) -> Result<ColumnarView, ErrorView> {
    if args.len() != 1 {
        Err(wrong_argument_count(args.len()))
    } else {
        converted(args[0])
    }
}

/// The result of invoking the function on an argument list.
pub open spec fn invoked(args: Seq<ColumnarView>) -> Result<ColumnarView, ErrorView> {
    if args.len() == 0 {
        Err(no_argument())
    } else {
        local_time(args)
    }
}

/// The scalar function `to_local_time`, as the host registers it.
///
/// Every value of this type holds the same descriptor: the host's for any
/// number of arguments of any type, with immutable volatility. Arity and
/// types are therefore tested by `return_type` and `invoke`, not by the host.
#[derive(Debug)]
pub struct ToLocalTimeFunc {
    signature: Signature,
}

impl ToLocalTimeFunc {
    #[verifier::type_invariant]
    spec fn well_formed(&self) -> bool {
        self.signature == variadic_any_signature(Volatility::Immutable)
    }

    /// The descriptor that this function holds.
    pub closed spec fn declared(&self) -> Signature {
        self.signature
    }

    /// Makes the function, with its descriptor.
    pub fn new() -> (func: Self)
        ensures
            func.declared() == variadic_any_signature(Volatility::Immutable),
    {
        Self { signature: variadic_any(Volatility::Immutable) }
    }

    /// The name under which the host looks the function up.
    pub fn name(&self) -> (name: &'static str)
        ensures
            name@ == "to_local_time"@,
    {
        "to_local_time"
    }

    /// The descriptor of the accepted arguments and of the volatility: the
    /// same at every call and for every value of this type.
    pub fn signature(&self) -> (signature: &Signature)
        ensures
            *signature == self.declared(),
            *signature == variadic_any_signature(Volatility::Immutable),
    {
        proof {
            use_type_invariant(self);
        }
        &self.signature
    }

    /// Predicts the type of the result from the types of the arguments,
    /// before any value exists.
    ///
    /// Fails on an empty list and on a first type that is not a timestamp.
    /// Types after the first are accepted and ignored.
    pub fn return_type(&self, arg_types: &[DataType]) -> (outcome: Result<
        DataType,
        ExecutionError,
    >)
        ensures
            outcome_view(outcome) == resolved_type(views(arg_types@)),
    {
        if arg_types.len() == 0 {
            return Err(ExecutionError::no_argument_type());
        }
        match &arg_types[0] {
            DataType::Timestamp(unit, _) => Ok(DataType::Timestamp(*unit, None)),
            DataType::Other(_) => Err(ExecutionError::unresolvable_type()),
        }
    }

    /// Converts the one argument to local time.
    ///
    /// Fails unless there is exactly one argument, and on every argument that
    /// `converted` rejects.
    pub fn to_local_time(&self, args: &[ColumnarValue]) -> (outcome: Result<
        ColumnarValue,
        ExecutionError,
    >)
        ensures
            outcome_view(outcome) == local_time(views(args@)),
    {
        if args.len() != 1 {
            return Err(ExecutionError::wrong_argument_count(args.len()));
        }
        let time_value = &args[0];
        let arg_type = time_value.data_type();
        match &arg_type {
            DataType::Timestamp(_, None) => Ok(time_value.clone()),
            DataType::Timestamp(_, Some(_)) => match time_value {
                ColumnarValue::Scalar(ScalarValue::TimestampSecond(Some(ts), Some(_))) => Ok(
                    ColumnarValue::Scalar(ScalarValue::TimestampSecond(Some(*ts), None)),
                ),
                ColumnarValue::Scalar(ScalarValue::TimestampNanosecond(Some(ts), Some(_))) => Ok(
                    ColumnarValue::Scalar(ScalarValue::TimestampNanosecond(Some(*ts), None)),
                ),
                ColumnarValue::Scalar(ScalarValue::TimestampMillisecond(Some(ts), Some(_))) => Ok(
                    ColumnarValue::Scalar(ScalarValue::TimestampMillisecond(Some(*ts), None)),
                ),
                ColumnarValue::Scalar(ScalarValue::TimestampMicrosecond(Some(ts), Some(_))) => Ok(
                    ColumnarValue::Scalar(ScalarValue::TimestampMicrosecond(Some(*ts), None)),
                ),
                _ => {
                    let printed = arg_type.printed();
                    Err(ExecutionError::unsupported_argument(ErrorKind::Shape, printed.as_str()))
                },
            },
            DataType::Other(_) => {
                let printed = arg_type.printed();
                Err(ExecutionError::unsupported_argument(ErrorKind::TypeMismatch, printed.as_str()))
            },
        }
    }

    /// Invokes the function on the arguments of one call.
    ///
    /// Fails on an empty list, and otherwise as `to_local_time` does.
    pub fn invoke(&self, args: &[ColumnarValue]) -> (outcome: Result<
        ColumnarValue,
        ExecutionError,
    >)
        ensures
            outcome_view(outcome) == invoked(views(args@)),
    {
        if args.len() == 0 {
            return Err(ExecutionError::no_argument());
        }
        self.to_local_time(args)
    }
}

impl Default for ToLocalTimeFunc {
    fn default() -> (func: Self)
        ensures
            func.declared() == variadic_any_signature(Volatility::Immutable),
    {
        Self::new()
    }
}

} // verus!
