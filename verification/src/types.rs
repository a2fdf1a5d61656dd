//! Time units and data types, as far as this function tells them apart.

use crate::host::{format_timestamp_type, timestamp_type_name};
use vstd::prelude::*;

verus! {

/// The resolution in which a timestamp counts time since the epoch.
#[derive(Clone, Copy, Debug, PartialEq, Eq, Structural)]
pub enum TimeUnit {
    Second,
    Millisecond,
    Microsecond,
    Nanosecond,
}

/// How freely the host may fold calls of a function, in the host's three classes.
#[derive(Clone, Copy, Debug, PartialEq, Eq, Structural)]
pub enum Volatility {
    /// The same arguments always give the same result, so a call on constants
    /// can be evaluated once, while the query is planned.
    Immutable,
    /// The same arguments give the same result within one query.
    Stable,
    /// Every evaluation may give another result.
    Volatile,
}

/// The type of a value.
///
/// A timestamp type is a unit and an optional time zone identifier. The
/// identifier is never interpreted: only whether it is present matters. Every
/// other type is known by its name alone.
#[derive(Debug, PartialEq, Eq)]
pub enum DataType {
    /// A timestamp in the given unit, with or without a time zone.
    Timestamp(TimeUnit, Option<String>),
    /// Any type that is not a timestamp, by the name the host prints for it.
    Other(String),
}

/// What a [`DataType`] stands for.
pub enum DataTypeView {
    Timestamp(TimeUnit, Option<Seq<char>>),
    Other(Seq<char>),
}

/// The characters of an optional time zone identifier.
pub open spec fn timezone_view(timezone: Option<String>) -> Option<Seq<char>> {
    match timezone {
        Some(name) => Some(name@),
        None => None,
    }
}

impl DataTypeView {
    /// Whether this is a timestamp type, of any unit, with or without a time zone.
    pub open spec fn is_timestamp(self) -> bool {
        self is Timestamp
    }

    /// The text that the host prints for this type. For a timestamp type the
    /// host's formatting decides; any other type is known by this text.
    pub open spec fn printed(self) -> Seq<char> {
        match self {
            DataTypeView::Timestamp(unit, timezone) => timestamp_type_name(unit, timezone),
            DataTypeView::Other(name) => name,
        }
    }

    /// The same type with the time zone cleared. Types that are not timestamps
    /// have no time zone and stay as they are.
    pub open spec fn without_timezone(self) -> DataTypeView {
        match self {
            DataTypeView::Timestamp(unit, _) => DataTypeView::Timestamp(unit, None),
            DataTypeView::Other(name) => DataTypeView::Other(name),
        }
    }
}

impl View for DataType {
    type V = DataTypeView;

    open spec fn view(&self) -> DataTypeView {
        match self {
            DataType::Timestamp(unit, timezone) => DataTypeView::Timestamp(
                *unit,
                timezone_view(*timezone),
            ),
            DataType::Other(name) => DataTypeView::Other(name@),
        }
    }
}

/// Copies an optional time zone identifier.
pub fn clone_timezone(timezone: &Option<String>) -> (copy: Option<String>)
    ensures
        timezone_view(copy) == timezone_view(*timezone),
{
    match timezone {
        Some(name) => Some(name.clone()),
        None => None,
    }
}

impl DataType {
    /// The text that the host prints for this type.
    pub fn printed(&self) -> (text: String)
        ensures
            text@ == self@.printed(),
    {
        match self {
            DataType::Timestamp(unit, timezone) => format_timestamp_type(*unit, timezone),
            DataType::Other(name) => name.clone(),
        }
    }
}

impl Clone for DataType {
    fn clone(&self) -> (copy: Self)
        ensures
            copy@ == self@,
    {
        match self {
            DataType::Timestamp(unit, timezone) => DataType::Timestamp(
                *unit,
                clone_timezone(timezone),
            ),
            DataType::Other(name) => DataType::Other(name.clone()),
        }
    }
}

} // verus!
