//! The values handed to the function: single values and batches.

use crate::types::{clone_timezone, timezone_view, DataType, DataTypeView, TimeUnit};
use vstd::prelude::*;

verus! {

/// A single value.
///
/// A timestamp scalar holds an optional instant, counted in the unit that its
/// variant names, and an optional time zone identifier. A scalar of any other
/// type is kept by the name of its type alone.
#[derive(Debug, PartialEq, Eq)]
pub enum ScalarValue {
    TimestampSecond(Option<i64>, Option<String>),
    TimestampMillisecond(Option<i64>, Option<String>),
    TimestampMicrosecond(Option<i64>, Option<String>),
    TimestampNanosecond(Option<i64>, Option<String>),
    /// A scalar that is no timestamp, by the name the host prints for its type.
    Other(String),
}

/// A batch of values of one type.
#[derive(Debug, PartialEq, Eq)]
pub enum ArrayValue {
    /// Instants, some of them possibly absent, that share one unit and one
    /// optional time zone.
    Timestamp(TimeUnit, Option<String>, Vec<Option<i64>>),
    /// A batch that holds no timestamps, by the name the host prints for its type.
    Other(String),
}

/// An argument or a result: a batch, or a single value.
#[derive(Debug, PartialEq, Eq)]
pub enum ColumnarValue {
    Array(ArrayValue),
    Scalar(ScalarValue),
}

/// What a [`ScalarValue`] stands for.
pub enum ScalarView {
    Timestamp(TimeUnit, Option<i64>, Option<Seq<char>>),
    Other(Seq<char>),
}

/// What an [`ArrayValue`] stands for.
pub enum ArrayView {
    Timestamp(TimeUnit, Option<Seq<char>>, Seq<Option<i64>>),
    Other(Seq<char>),
}

/// What a [`ColumnarValue`] stands for.
pub enum ColumnarView {
    Array(ArrayView),
    Scalar(ScalarView),
}

impl ScalarView {
    /// The type of the scalar.
    pub open spec fn data_type(self) -> DataTypeView {
        match self {
            ScalarView::Timestamp(unit, _, timezone) => DataTypeView::Timestamp(unit, timezone),
            ScalarView::Other(name) => DataTypeView::Other(name),
        }
    }

    /// The same scalar with the time zone cleared: the unit and the instant stay.
    pub open spec fn without_timezone(self) -> ScalarView {
        match self {
            ScalarView::Timestamp(unit, instant, _) => ScalarView::Timestamp(unit, instant, None),
            ScalarView::Other(name) => ScalarView::Other(name),
        }
    }
}

impl ArrayView {
    /// The type of the batch's values.
    pub open spec fn data_type(self) -> DataTypeView {
        match self {
            ArrayView::Timestamp(unit, timezone, _) => DataTypeView::Timestamp(unit, timezone),
            ArrayView::Other(name) => DataTypeView::Other(name),
        }
    }

    /// The same batch with the time zone cleared: the unit and every instant stay.
    pub open spec fn without_timezone(self) -> ArrayView {
        match self {
            ArrayView::Timestamp(unit, _, instants) => ArrayView::Timestamp(unit, None, instants),
            ArrayView::Other(name) => ArrayView::Other(name),
        }
    }
}

impl ColumnarView {
    /// The type of the value.
    pub open spec fn data_type(self) -> DataTypeView {
        match self {
            ColumnarView::Array(array) => array.data_type(),
            ColumnarView::Scalar(scalar) => scalar.data_type(),
        }
    }

    /// The same value with the time zone cleared and nothing else changed.
    pub open spec fn without_timezone(self) -> ColumnarView {
        match self {
            ColumnarView::Array(array) => ColumnarView::Array(array.without_timezone()),
            ColumnarView::Scalar(scalar) => ColumnarView::Scalar(scalar.without_timezone()),
        }
    }
}

impl View for ScalarValue {
    type V = ScalarView;

    open spec fn view(&self) -> ScalarView {
        match self {
            ScalarValue::TimestampSecond(instant, timezone) => ScalarView::Timestamp(
                TimeUnit::Second,
                *instant,
                timezone_view(*timezone),
            ),
            ScalarValue::TimestampMillisecond(instant, timezone) => ScalarView::Timestamp(
                TimeUnit::Millisecond,
                *instant,
                timezone_view(*timezone),
            ),
            ScalarValue::TimestampMicrosecond(instant, timezone) => ScalarView::Timestamp(
                TimeUnit::Microsecond,
                *instant,
                timezone_view(*timezone),
            ),
            ScalarValue::TimestampNanosecond(instant, timezone) => ScalarView::Timestamp(
                TimeUnit::Nanosecond,
                *instant,
                timezone_view(*timezone),
            ),
            ScalarValue::Other(name) => ScalarView::Other(name@),
        }
    }
}

impl View for ArrayValue {
    type V = ArrayView;

    open spec fn view(&self) -> ArrayView {
        match self {
            ArrayValue::Timestamp(unit, timezone, instants) => ArrayView::Timestamp(
                *unit,
                timezone_view(*timezone),
                instants@,
            ),
            ArrayValue::Other(name) => ArrayView::Other(name@),
        }
    }
}

impl View for ColumnarValue {
    type V = ColumnarView;

    open spec fn view(&self) -> ColumnarView {
        match self {
            ColumnarValue::Array(array) => ColumnarView::Array(array@),
            ColumnarValue::Scalar(scalar) => ColumnarView::Scalar(scalar@),
        }
    }
}

/// Copies the instants of a batch.
fn clone_instants(instants: &Vec<Option<i64>>) -> (copy: Vec<Option<i64>>)
    ensures
        copy@ == instants@,
{
    let mut copy: Vec<Option<i64>> = Vec::with_capacity(instants.len());
    let mut i: usize = 0;
    while i < instants.len()
        invariant
            i <= instants.len(),
            copy@ == instants@.take(i as int),
        decreases instants.len() - i,
    {
        copy.push(instants[i]);
        i += 1;
        assert(copy@ =~= instants@.take(i as int));
    }
    assert(instants@.take(i as int) =~= instants@);
    copy
}

impl ScalarValue {
    /// The type of the scalar: for a timestamp, the unit of its variant and
    /// the time zone it holds.
    pub fn data_type(&self) -> (data_type: DataType)
        ensures
            data_type@ == self@.data_type(),
    {
        match self {
            ScalarValue::TimestampSecond(_, timezone) => DataType::Timestamp(
                TimeUnit::Second,
                clone_timezone(timezone),
            ),
            ScalarValue::TimestampMillisecond(_, timezone) => DataType::Timestamp(
                TimeUnit::Millisecond,
                clone_timezone(timezone),
            ),
            ScalarValue::TimestampMicrosecond(_, timezone) => DataType::Timestamp(
                TimeUnit::Microsecond,
                clone_timezone(timezone),
            ),
            ScalarValue::TimestampNanosecond(_, timezone) => DataType::Timestamp(
                TimeUnit::Nanosecond,
                clone_timezone(timezone),
            ),
            ScalarValue::Other(name) => DataType::Other(name.clone()),
        }
    }
}

impl ArrayValue {
    /// The type of the batch's values.
    pub fn data_type(&self) -> (data_type: DataType)
        ensures
            data_type@ == self@.data_type(),
    {
        match self {
            ArrayValue::Timestamp(unit, timezone, _) => DataType::Timestamp(
                *unit,
                clone_timezone(timezone),
            ),
            ArrayValue::Other(name) => DataType::Other(name.clone()),
        }
    }
}

impl ColumnarValue {
    /// The type of the value.
    pub fn data_type(&self) -> (data_type: DataType)
        ensures
            data_type@ == self@.data_type(),
    {
        match self {
            ColumnarValue::Array(array) => array.data_type(),
            ColumnarValue::Scalar(scalar) => scalar.data_type(),
        }
    }
}

impl Clone for ScalarValue {
    fn clone(&self) -> (copy: Self)
        ensures
            copy@ == self@,
    {
        match self {
            ScalarValue::TimestampSecond(instant, timezone) => ScalarValue::TimestampSecond(
                *instant,
                clone_timezone(timezone),
            ),
            ScalarValue::TimestampMillisecond(instant, timezone) => {
                ScalarValue::TimestampMillisecond(*instant, clone_timezone(timezone))
            },
            ScalarValue::TimestampMicrosecond(instant, timezone) => {
                ScalarValue::TimestampMicrosecond(*instant, clone_timezone(timezone))
            },
            ScalarValue::TimestampNanosecond(instant, timezone) => {
                ScalarValue::TimestampNanosecond(*instant, clone_timezone(timezone))
            },
            ScalarValue::Other(name) => ScalarValue::Other(name.clone()),
        }
    }
}

impl Clone for ArrayValue {
    fn clone(&self) -> (copy: Self)
        ensures
            copy@ == self@,
    {
        match self {
            ArrayValue::Timestamp(unit, timezone, instants) => ArrayValue::Timestamp(
                *unit,
                clone_timezone(timezone),
                clone_instants(instants),
            ),
            ArrayValue::Other(name) => ArrayValue::Other(name.clone()),
        }
    }
}

impl Clone for ColumnarValue {
    fn clone(&self) -> (copy: Self)
        ensures
            copy@ == self@,
    {
        match self {
            ColumnarValue::Array(array) => ColumnarValue::Array(array.clone()),
            ColumnarValue::Scalar(scalar) => ColumnarValue::Scalar(scalar.clone()),
        }
    }
}

} // verus!
