//! `to_local_time`: a scalar function for a columnar query engine that takes
//! the time zone off a timestamp and keeps the stored instant.
//!
//! The library works on its own plain model of the host's values and types,
//! so that every rule of the function is stated and proved: which arguments
//! are accepted, which type is returned, and what the result is. The laws
//! that tie these together are in [`laws`]; the few host items that are
//! called unproved are in [`host`].

pub mod error;
pub mod func;
pub mod host;
pub mod laws;
pub mod types;
pub mod value;

pub use crate::error::{ErrorKind, ExecutionError};
pub use crate::func::ToLocalTimeFunc;
pub use crate::types::{DataType, TimeUnit, Volatility};
pub use crate::value::{ArrayValue, ColumnarValue, ScalarValue};
