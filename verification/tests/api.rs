use backend::api::{check_new_recording, MAX_JOB_SLOTS};
use backend::error::ApiError;
use backend::job::{JobError, RecorderSettings, RecordingType};
use backend::wifi::error::WifiError;

#[test]
fn new_recording_needs_a_free_slot_and_valid_settings() {
    let good = RecorderSettings::new(RecordingType::PNG, 15_000_000, 0, 10, None);
    let bad = RecorderSettings::new(RecordingType::PNG, 15_000_000, 32, 10, None);
    let low = RecorderSettings::new(RecordingType::PNG, 100, 3, 10, None);
    assert_eq!(MAX_JOB_SLOTS, 3);
    assert_eq!(check_new_recording(0, &good), Ok(()));
    assert_eq!(check_new_recording(2, &good), Ok(()));
    assert_eq!(check_new_recording(3, &good), Err(ApiError::NoAvailableSlots));
    assert_eq!(check_new_recording(usize::MAX, &good), Err(ApiError::NoAvailableSlots));
    assert_eq!(check_new_recording(3, &bad), Err(ApiError::NoAvailableSlots));
    assert_eq!(check_new_recording(2, &bad), Err(ApiError::InvalidSettings("Zoom too high".into())));
    assert_eq!(
        check_new_recording(0, &low),
        Err(ApiError::InvalidSettings("The selected frequency range exceeds the minimum frequency".into()))
    );
}

#[test]
fn error_messages_and_status_codes() {
    let cases = [
        (ApiError::Wifi(WifiError::NotFound("home".into())), "Wifi error: Wi-Fi network not found: home", 400),
        (ApiError::Wifi(WifiError::OperationFailed("x".into())), "Wifi error: Wi-Fi operation failed: x", 500),
        (
            ApiError::Wifi(WifiError::InvalidServiceState("up".into())),
            "Wifi error: Invalid service state: up",
            500,
        ),
        (ApiError::JobNotFound, "Job not found", 400),
        (ApiError::NoAvailableSlots, "All recorder slots are full", 400),
        (ApiError::InvalidSettings("Zoom too high".into()), "Invalid settings: Zoom too high", 400),
        (ApiError::JobNotIdle, "Job is not idle", 409),
        (ApiError::JobNotRunning, "Job is not running", 409),
        (ApiError::Process("No such file".into()), "Process error: No such file", 500),
        (ApiError::Internal, "Internal server error", 500),
    ];
    for (error, message, status) in cases {
        assert_eq!(error.to_string(), message);
        assert_eq!(error.status_code(), status);
    }
    assert_eq!(ApiError::from_job_error(JobError::NotIdle), ApiError::JobNotIdle);
    assert_eq!(ApiError::from_job_error(JobError::NotRunning), ApiError::JobNotRunning);
}
