//! The decisions of connecting to and disconnecting from a service.
//!
//! After a request to connect or disconnect, the state of the service is
//! asked for at intervals until it tells how the request ended, at most
//! `POLL_ATTEMPTS` times. What each answer means is decided here; asking and
//! waiting is the caller's part.

use vstd::prelude::*;
use vstd::string::*;
use crate::text::starts_with;
use crate::wifi::error::WifiError;
use crate::wifi::model::service::ServiceStateKind;

verus! {

/// How often the state of a service is asked for.
pub const POLL_ATTEMPTS: u32 = 20;

/// The pause between two questions, in milliseconds.
pub const POLL_PAUSE_MILLIS: u64 = 500;

/// What the object path of every Wi-Fi service begins with.
pub const WIFI_SERVICE_PATH_PREFIX: &'static str = "/net/connman/service/wifi_";

/// What an answer means for a pending request.
#[derive(Debug, Clone, Copy, PartialEq, Eq, Structural)]
pub enum Progress {
    /// The request has succeeded.
    Done,
    /// The request has failed.
    Failed,
    /// Nothing is decided: pause, then ask again.
    Pending,
}

/// What a state means while a connection is being set up: online is
/// success, failure is failure, anything else is not decided.
pub open spec fn connecting(state: ServiceStateKind) -> Progress {
    match state {
        ServiceStateKind::Online => Progress::Done,
        ServiceStateKind::Failure => Progress::Failed,
        _ => Progress::Pending,
    }
}

/// What a state means while a connection is being taken down: idle is
/// success, anything else is not decided.
pub open spec fn disconnecting(state: ServiceStateKind) -> Progress {
    match state {
        ServiceStateKind::Idle => Progress::Done,
        _ => Progress::Pending,
    }
}

pub fn connect_progress(state: ServiceStateKind) -> (progress: Progress)
    ensures
        progress == connecting(state),
{
    match state {
        ServiceStateKind::Online => Progress::Done,
        ServiceStateKind::Failure => Progress::Failed,
        _ => Progress::Pending,
    }
}

pub fn disconnect_progress(state: ServiceStateKind) -> (progress: Progress)
    ensures
        progress == disconnecting(state),
{
    match state {
        ServiceStateKind::Idle => Progress::Done,
        _ => Progress::Pending,
    }
}

/// Whether a service path is that of a Wi-Fi network.
pub fn is_wifi_service(path: &str) -> (wifi: bool)
    ensures
        wifi == WIFI_SERVICE_PATH_PREFIX@.is_prefix_of(path@),
{
    starts_with(path, WIFI_SERVICE_PATH_PREFIX)
}

/// The error of a connection that the service reported as failed.
pub fn connection_failed() -> (e: WifiError)
    ensures
        e matches WifiError::OperationFailed(detail) && detail@ == "Connection failed"@,
{
    WifiError::OperationFailed("Connection failed".to_owned())
}

/// The error of a connection that was not set up in time.
pub fn connect_timed_out() -> (e: WifiError)
    ensures
        e matches WifiError::OperationFailed(detail) && detail@ == "Timed out connecting"@,
{
    WifiError::OperationFailed("Timed out connecting".to_owned())
}

/// The error of a connection that was not taken down in time.
pub fn disconnect_timed_out() -> (e: WifiError)
    ensures
        e matches WifiError::OperationFailed(detail) && detail@ == "Timed out disconnecting"@,
{
    WifiError::OperationFailed("Timed out disconnecting".to_owned())
}

} // verus!
