//! What holds of type resolution and invocation on every input.

use crate::error::{ErrorKind, ErrorView};
use crate::func::{invoked, resolved_type};
use crate::types::{DataTypeView, TimeUnit};
use crate::value::{ArrayView, ColumnarView, ScalarView};
use vstd::prelude::*;

verus! {

/// Identity: a timestamp without a time zone, of any unit, scalar or batch,
/// comes back unchanged.
pub proof fn lemma_without_timezone_unchanged(value: ColumnarView)
    requires
        value.data_type() matches DataTypeView::Timestamp(_, None),
    ensures
        invoked(seq![value]) == Ok::<ColumnarView, ErrorView>(value),
{
}

/// A scalar timestamp with an instant and a time zone comes back as the
/// scalar of the same unit and the same instant, without the time zone.
pub proof fn lemma_timezone_removed(unit: TimeUnit, instant: i64, timezone: Seq<char>)
    ensures
        invoked(seq![ColumnarView::Scalar(ScalarView::Timestamp(unit, Some(instant), Some(timezone)))])
            == Ok::<ColumnarView, ErrorView>(
            ColumnarView::Scalar(ScalarView::Timestamp(unit, Some(instant), None)),
        ),
{
}

/// No instant is ever altered: whatever an invocation returns is its argument
/// with the time zone cleared, and nothing else changed.
pub proof fn lemma_only_timezone_cleared(value: ColumnarView)
    ensures
        invoked(seq![value]) matches Ok(local) ==> local == value.without_timezone(),
{
}

/// Unit preservation: whatever an invocation returns has the type of the
/// argument with the time zone cleared, so the unit never changes.
pub proof fn lemma_unit_preserved(value: ColumnarView)
    ensures
        invoked(seq![value]) matches Ok(local) ==> {
            &&& value.data_type().is_timestamp()
            &&& local.data_type() == value.data_type().without_timezone()
        },
{
}

/// Consistency of resolution and invocation: for an argument of any timestamp
/// type, resolution of that type succeeds, and whenever the invocation
/// succeeds its result has exactly the resolved type.
pub proof fn lemma_resolution_predicts_invocation(value: ColumnarView)
    requires
        value.data_type().is_timestamp(),
    ensures
        resolved_type(seq![value.data_type()]) == Ok::<DataTypeView, ErrorView>(
            value.data_type().without_timezone(),
        ),
        invoked(seq![value]) matches Ok(local) ==> resolved_type(seq![value.data_type()]) == Ok::<
            DataTypeView,
            ErrorView,
        >(local.data_type()),
{
}

/// Resolution looks at the first type only: the types after it change nothing.
pub proof fn lemma_resolution_reads_first_type(arg_types: Seq<DataTypeView>)
    requires
        arg_types.len() > 0,
    ensures
        resolved_type(arg_types) == resolved_type(seq![arg_types[0]]),
{
}

/// Resolution and invocation disagree on arity: a list of two or more
/// timestamp arguments resolves to a type, and its invocation fails.
pub proof fn lemma_resolution_accepts_more_than_invocation(args: Seq<ColumnarView>)
    requires
        args.len() >= 2,
        args[0].data_type().is_timestamp(),
    ensures
        resolved_type(args.map_values(|value: ColumnarView| value.data_type())) is Ok,
        invoked(args) matches Err(error) && error.kind == ErrorKind::Arity,
{
}

/// Resolution fails with an arity error exactly on the empty list of types.
pub proof fn lemma_resolution_arity(arg_types: Seq<DataTypeView>)
    ensures
        (resolved_type(arg_types) matches Err(error) && error.kind == ErrorKind::Arity)
            <==> arg_types.len() == 0,
{
}

/// Invocation fails with an arity error exactly when the number of arguments
/// is not one.
pub proof fn lemma_invocation_arity(args: Seq<ColumnarView>)
    ensures
        (invoked(args) matches Err(error) && error.kind == ErrorKind::Arity) <==> args.len() != 1,
{
}

/// Resolution fails with a type mismatch exactly when there is a first type
/// and it is not a timestamp.
pub proof fn lemma_resolution_type_mismatch(arg_types: Seq<DataTypeView>)
    ensures
        (resolved_type(arg_types) matches Err(error) && error.kind == ErrorKind::TypeMismatch)
            <==> (arg_types.len() > 0 && !arg_types[0].is_timestamp()),
{
}

/// Invocation fails with a type mismatch exactly when its one argument is not
/// a timestamp.
pub proof fn lemma_invocation_type_mismatch(args: Seq<ColumnarView>)
    ensures
        (invoked(args) matches Err(error) && error.kind == ErrorKind::TypeMismatch) <==> (args.len()
            == 1 && !args[0].data_type().is_timestamp()),
{
}

/// A scalar timestamp with a time zone and no instant is rejected with a
/// shape error: it does not pass through.
pub proof fn lemma_null_instant_rejected(unit: TimeUnit, timezone: Seq<char>)
    ensures
        invoked(seq![ColumnarView::Scalar(ScalarView::Timestamp(unit, None, Some(timezone)))])
            matches Err(error) && error.kind == ErrorKind::Shape,
{
}

/// A batch of timestamps with a time zone is rejected with a shape error,
/// whatever it holds.
pub proof fn lemma_batch_with_timezone_rejected(
    unit: TimeUnit,
    timezone: Seq<char>,
    instants: Seq<Option<i64>>,
)
    ensures
        invoked(seq![ColumnarView::Array(ArrayView::Timestamp(unit, Some(timezone), instants))])
            matches Err(error) && error.kind == ErrorKind::Shape,
{
}

/// Invocation fails with a shape error exactly on one argument that is a
/// timestamp with a time zone and not a scalar with an instant.
pub proof fn lemma_invocation_shape(args: Seq<ColumnarView>)
    ensures
        (invoked(args) matches Err(error) && error.kind == ErrorKind::Shape) <==> {
            &&& args.len() == 1
            &&& args[0].data_type() matches DataTypeView::Timestamp(_, Some(_))
            &&& !(args[0] matches ColumnarView::Scalar(ScalarView::Timestamp(_, Some(_), _)))
        },
{
}

/// Invocation succeeds exactly on one argument that is a timestamp without a
/// time zone, or a scalar timestamp with an instant.
pub proof fn lemma_invocation_succeeds(args: Seq<ColumnarView>)
    ensures
        invoked(args) is Ok <==> {
            &&& args.len() == 1
            &&& {
                ||| args[0].data_type() matches DataTypeView::Timestamp(_, None)
                ||| args[0] matches ColumnarView::Scalar(ScalarView::Timestamp(_, Some(_), _))
            }
        },
{
}

/// Idempotence: what an invocation returns is its own local time.
pub proof fn lemma_idempotent(value: ColumnarView)
    ensures
        invoked(seq![value]) matches Ok(local) ==> invoked(seq![local]) == Ok::<
            ColumnarView,
            ErrorView,
        >(local),
{
}

} // verus!
