//! Plain data of the remote daylight source.
//!
//! The HTTP client that actually queries the source lives outside this crate;
//! it hands a decoded `DaylightCollection` in, and `into_result` decides here
//! whether the reply counts as a usable boundary or as a fetch failure.
//! Timestamps are seconds since the Unix epoch.

use vstd::prelude::*;

verus! {

/// One day's sunrise/sunset boundary, obtained atomically from a single
/// successful fetch and only ever replaced wholesale.
#[derive(Clone, Copy, PartialEq, Eq, Structural, Debug)]
pub struct DaylightResponse {
    /// When the sun rises, in seconds since the Unix epoch.
    pub sunrise: i64,
    /// When the sun sets, in seconds since the Unix epoch.
    pub sunset: i64,
    /// Length of the day in seconds, as the source reports it.
    pub day_length: usize,
}

/// The status field of a reply from the daylight source.
#[derive(Clone, Copy, PartialEq, Eq, Structural, Debug)]
pub enum Status {
    Okay,
    InvalidRequest,
    InvalidDate,
    UnknownError,
}

impl Status {
    /// The status a reply is taken to have when it carries none.
    pub fn unknown_error() -> (r: Status)
        ensures
            r == Status::UnknownError,
    {
        Status::UnknownError
    }
}

/// A whole reply from the daylight source: the boundary it reports and the
/// status that says whether the boundary may be believed.
#[derive(Clone, Copy, PartialEq, Eq, Structural, Debug)]
pub struct DaylightCollection {
    pub results: DaylightResponse,
    pub status: Status,
}

/// Why a fetch of daylight boundaries yielded no usable data.
#[derive(Clone, Copy, PartialEq, Eq, Structural, Debug)]
pub enum FetchError {
    InvalidRequest,
    InvalidDate,
    UnknownError,
}

impl FetchError {
    /// A short description, as the failure is logged.
    pub fn message(&self) -> (r: &'static str)
        ensures
            *self == FetchError::InvalidRequest ==> r@ == "Invalid Request"@,
            *self == FetchError::InvalidDate ==> r@ == "Invalid Date"@,
            *self == FetchError::UnknownError ==> r@ == "Unknown Error"@,
    {
        match self {
            FetchError::InvalidRequest => "Invalid Request",
            FetchError::InvalidDate => "Invalid Date",
            FetchError::UnknownError => "Unknown Error",
        }
    }
}

impl DaylightCollection {
    /// A reply yields its boundary exactly when the source reported success;
    /// every other status maps to the matching fetch error.
    pub fn into_result(self) -> (r: Result<DaylightResponse, FetchError>)
        ensures
            self.status == Status::Okay ==> r == Ok::<DaylightResponse, FetchError>(self.results),
            self.status == Status::InvalidRequest ==> r == Err::<DaylightResponse, FetchError>(
                FetchError::InvalidRequest,
            ),
            self.status == Status::InvalidDate ==> r == Err::<DaylightResponse, FetchError>(
                FetchError::InvalidDate,
            ),
            self.status == Status::UnknownError ==> r == Err::<DaylightResponse, FetchError>(
                FetchError::UnknownError,
            ),
    {
        match self.status {
            Status::Okay => Ok(self.results),
            Status::InvalidRequest => Err(FetchError::InvalidRequest),
            Status::InvalidDate => Err(FetchError::InvalidDate),
            Status::UnknownError => Err(FetchError::UnknownError),
        }
    }
}

} // verus!
