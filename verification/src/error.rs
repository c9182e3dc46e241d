//! The errors that the service reports to its callers, and the HTTP status
//! that goes with each.

use vstd::prelude::*;
use vstd::string::*;
use crate::job::JobError;
use crate::wifi::error::WifiError;

verus! {

/// An error of the recorder service.
#[derive(Debug, Clone, PartialEq, Eq)]
pub enum ApiError {
    Wifi(WifiError),
    JobNotFound,
    NoAvailableSlots,
    InvalidSettings(String),
    JobNotIdle,
    JobNotRunning,
    /// The recording process could not be spawned, killed or waited for.
    Process(String),
    Internal,
}

/// The caller sent a request that cannot be served.
pub const BAD_REQUEST: u16 = 400;

/// The request does not fit the state of the job.
pub const CONFLICT: u16 = 409;

/// The service failed.
pub const INTERNAL_SERVER_ERROR: u16 = 500;

impl ApiError {
    /// The message of the error.
    pub open spec fn message(self) -> Seq<char> {
        match self {
            ApiError::Wifi(e) => "Wifi error: "@ + e.message(),
            ApiError::JobNotFound => "Job not found"@,
            ApiError::NoAvailableSlots => "All recorder slots are full"@,
            ApiError::InvalidSettings(detail) => "Invalid settings: "@ + detail@,
            ApiError::JobNotIdle => "Job is not idle"@,
            ApiError::JobNotRunning => "Job is not running"@,
            ApiError::Process(detail) => "Process error: "@ + detail@,
            ApiError::Internal => "Internal server error"@,
        }
    }

    /// The HTTP status of the error: a bad request where the caller asked
    /// for something that does not exist or cannot be had, a conflict where
    /// the job is in another state than the request assumes, a server error
    /// otherwise.
    pub open spec fn status(self) -> u16 {
        match self {
            ApiError::Wifi(WifiError::NotFound(_)) => BAD_REQUEST,
            ApiError::JobNotFound => BAD_REQUEST,
            ApiError::NoAvailableSlots => BAD_REQUEST,
            ApiError::InvalidSettings(_) => BAD_REQUEST,
            ApiError::JobNotIdle => CONFLICT,
            ApiError::JobNotRunning => CONFLICT,
            ApiError::Wifi(_) => INTERNAL_SERVER_ERROR,
            ApiError::Process(_) => INTERNAL_SERVER_ERROR,
            ApiError::Internal => INTERNAL_SERVER_ERROR,
        }
    }

    pub fn to_string(&self) -> (s: String)
        ensures
            s@ == self.message(),
    {
        match self {
            ApiError::Wifi(e) => {
                let mut s = "Wifi error: ".to_owned();
                let detail = e.to_string();
                s.append(detail.as_str());
                s
            },
            ApiError::JobNotFound => "Job not found".to_owned(),
            ApiError::NoAvailableSlots => "All recorder slots are full".to_owned(),
            ApiError::InvalidSettings(detail) => {
                let mut s = "Invalid settings: ".to_owned();
                s.append(detail.as_str());
                s
            },
            ApiError::JobNotIdle => "Job is not idle".to_owned(),
            ApiError::JobNotRunning => "Job is not running".to_owned(),
            ApiError::Process(detail) => {
                let mut s = "Process error: ".to_owned();
                s.append(detail.as_str());
                s
            },
            ApiError::Internal => "Internal server error".to_owned(),
        }
    }

    pub fn status_code(&self) -> (code: u16)
        ensures
            code == self.status(),
    {
        match self {
            ApiError::Wifi(WifiError::NotFound(_)) => BAD_REQUEST,
            ApiError::JobNotFound => BAD_REQUEST,
            ApiError::NoAvailableSlots => BAD_REQUEST,
            ApiError::InvalidSettings(_) => BAD_REQUEST,
            ApiError::JobNotIdle => CONFLICT,
            ApiError::JobNotRunning => CONFLICT,
            ApiError::Wifi(_) => INTERNAL_SERVER_ERROR,
            ApiError::Process(_) => INTERNAL_SERVER_ERROR,
            ApiError::Internal => INTERNAL_SERVER_ERROR,
        }
    }

    /// The service's error for a request that does not fit the job's state.
    pub fn from_job_error(e: JobError) -> (error: Self)
        ensures
            error == match e {
                JobError::NotIdle => ApiError::JobNotIdle,
                JobError::NotRunning => ApiError::JobNotRunning,
            },
    {
        match e {
            JobError::NotIdle => ApiError::JobNotIdle,
            JobError::NotRunning => ApiError::JobNotRunning,
        }
    }
}

} // verus!
