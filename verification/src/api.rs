//! The rules of the recorder API that need no HTTP: whether a new recording
//! is admitted.

use vstd::prelude::*;
use crate::error::ApiError;
use crate::settings::{verdict, RecorderSettings};

verus! {

/// The number of recordings that may exist at one time.
pub const MAX_JOB_SLOTS: usize = 3;

/// Whether a request for a new recording is admitted: a slot must be free,
/// and the settings must be valid. A full house is reported before invalid
/// settings.
pub fn check_new_recording(used_recorder_slots: usize, settings: &RecorderSettings) -> (r: Result<(), ApiError>)
    ensures
        match r {
            Ok(()) => used_recorder_slots < MAX_JOB_SLOTS && verdict(
                settings.frequency(),
                settings.zoom(),
            ) is Ok,
            Err(ApiError::NoAvailableSlots) => used_recorder_slots >= MAX_JOB_SLOTS,
            Err(ApiError::InvalidSettings(detail)) => used_recorder_slots < MAX_JOB_SLOTS
                && verdict(settings.frequency(), settings.zoom()) is Err && detail@ == verdict(
                settings.frequency(),
                settings.zoom(),
            )->Err_0.message(),
            Err(_) => false,
        },
{
    if used_recorder_slots >= MAX_JOB_SLOTS {
        return Err(ApiError::NoAvailableSlots);
    }
    match settings.validate() {
        Ok(()) => Ok(()),
        Err(e) => Err(ApiError::InvalidSettings(e.to_string())),
    }
}

} // verus!
