//! The error taxonomy of the library.
use vstd::prelude::*;
use vstd::string::*;

verus! {

/// Every way a computation of this library can fail.
#[derive(Debug, Clone, PartialEq, Eq)]
pub enum OrefError {
    /// Invalid profile configuration.
    InvalidProfile(String),
    /// Invalid treatment data.
    InvalidTreatment(String),
    /// Invalid glucose data.
    InvalidGlucose(String),
    /// A calculation went out of the representable range.
    CalculationError(String),
    /// Missing required data.
    MissingData(String),
    /// Invalid timestamp.
    InvalidTimestamp(String),
    /// A value outside its accepted range.
    OutOfRange { field: String, value: i64, min: i64, max: i64 },
}

impl OrefError {
    /// An out-of-range error for `field`.
    pub fn out_of_range(field: &str, value: i64, min: i64, max: i64) -> (r: OrefError)
        ensures
            r matches OrefError::OutOfRange { field: f, value: v, min: lo, max: hi } && f@ == field@
                && v == value && lo == min && hi == max,
    {
        OrefError::OutOfRange { field: String::from_str(field), value, min, max }
    }
}

} // verus!
