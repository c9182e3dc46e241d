//! Errors of the Wi-Fi layer.

use vstd::prelude::*;
use vstd::string::*;

verus! {

/// A Wi-Fi operation that did not succeed.
#[derive(Debug, Clone, PartialEq, Eq)]
pub enum WifiError {
    /// The operation was attempted and failed; the text says how.
    OperationFailed(String),
    /// No network of that name is known.
    NotFound(String),
    /// A connection state was named that does not exist.
    InvalidServiceState(String),
}

impl WifiError {
    /// The message of the error: what went wrong, then the detail.
    pub open spec fn message(self) -> Seq<char> {
        match self {
            WifiError::OperationFailed(detail) => "Wi-Fi operation failed: "@ + detail@,
            WifiError::NotFound(detail) => "Wi-Fi network not found: "@ + detail@,
            WifiError::InvalidServiceState(detail) => "Invalid service state: "@ + detail@,
        }
    }

    pub fn to_string(&self) -> (s: String)
        ensures
            s@ == self.message(),
    {
        match self {
            WifiError::OperationFailed(detail) => {
                let mut s = "Wi-Fi operation failed: ".to_owned();
                s.append(detail.as_str());
                s
            },
            WifiError::NotFound(detail) => {
                let mut s = "Wi-Fi network not found: ".to_owned();
                s.append(detail.as_str());
                s
            },
            WifiError::InvalidServiceState(detail) => {
                let mut s = "Invalid service state: ".to_owned();
                s.append(detail.as_str());
                s
            },
        }
    }
}

} // verus!
