//! What this library takes from the host engine unproved.
//!
//! Verus does not read the host's code. Each item below says of one host item
//! only what the host's source shows, and everything else in the library is
//! proved from these statements.

use crate::types::{timezone_view, TimeUnit, Volatility};
use vstd::prelude::*;

verus! {

/// The host's descriptor of the arguments a function accepts and of its
/// volatility. Verus sees nothing inside it: the library only carries it.
#[verifier::external_type_specification]
#[verifier::external_body]
pub struct ExSignature(datafusion_expr::Signature);

/// The descriptor that the host's `Signature::variadic_any` makes for the given
/// volatility: that of a function which takes any number of arguments of any
/// type.
pub uninterp spec fn variadic_any_signature(volatility: Volatility) -> datafusion_expr::Signature;

/// Calls the host's `Signature::variadic_any` with the host's volatility of
/// the same name. The contract claims only that the descriptor depends on
/// nothing but the volatility; what it holds is opaque here.
#[verifier::external_body]
pub(crate) fn variadic_any(volatility: Volatility) -> (signature: datafusion_expr::Signature)
    ensures
        signature == variadic_any_signature(volatility),
{
    datafusion_expr::Signature::variadic_any(
        match volatility {
            Volatility::Immutable => datafusion_expr::Volatility::Immutable,
            Volatility::Stable => datafusion_expr::Volatility::Stable,
            Volatility::Volatile => datafusion_expr::Volatility::Volatile,
        },
    )
}

/// The text that the host prints for the timestamp type of the given unit and
/// time zone, through the `Debug` implementation of `arrow::datatypes::DataType`.
pub uninterp spec fn timestamp_type_name(unit: TimeUnit, timezone: Option<Seq<char>>) -> Seq<char>;

/// Builds the host's `DataType::Timestamp` of the given unit and time zone and
/// formats it with the host's `Debug` implementation. The contract claims only
/// that the text depends on nothing but the unit and the time zone.
#[verifier::external_body]
pub(crate) fn format_timestamp_type(unit: TimeUnit, timezone: &Option<String>) -> (name: String)
    ensures
        name@ == timestamp_type_name(unit, timezone_view(*timezone)),
{
    let unit = match unit {
        TimeUnit::Second => arrow::datatypes::TimeUnit::Second,
        TimeUnit::Millisecond => arrow::datatypes::TimeUnit::Millisecond,
        TimeUnit::Microsecond => arrow::datatypes::TimeUnit::Microsecond,
        TimeUnit::Nanosecond => arrow::datatypes::TimeUnit::Nanosecond,
    };
    let timezone = timezone.as_deref().map(std::sync::Arc::from);
    format!("{:?}", arrow::datatypes::DataType::Timestamp(unit, timezone))
}

} // verus!
