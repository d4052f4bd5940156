use procond::exclusivity::{CaptureError, capture_outcome, release_outcome};

#[test]
fn primary_capture_failure_is_fatal() {
    assert_eq!(
        capture_outcome(false, None),
        Err(CaptureError::PrimaryCaptureFailed)
    );
    assert_eq!(
        capture_outcome(false, Some(true)),
        Err(CaptureError::PrimaryCaptureFailed)
    );
}

#[test]
fn secondary_capture_failure_is_tolerated_as_degraded() {
    assert_eq!(capture_outcome(true, Some(false)), Ok(true));
}

#[test]
fn clean_captures_are_not_degraded() {
    assert_eq!(capture_outcome(true, None), Ok(false));
    assert_eq!(capture_outcome(true, Some(true)), Ok(false));
}

#[test]
fn release_failure_on_either_device_is_fatal() {
    assert_eq!(release_outcome(false, None), Err(CaptureError::ReleaseFailed));
    assert_eq!(
        release_outcome(true, Some(false)),
        Err(CaptureError::ReleaseFailed)
    );
    assert_eq!(
        release_outcome(false, Some(true)),
        Err(CaptureError::ReleaseFailed)
    );
}

#[test]
fn clean_releases_succeed() {
    assert_eq!(release_outcome(true, None), Ok(()));
    assert_eq!(release_outcome(true, Some(true)), Ok(()));
}
