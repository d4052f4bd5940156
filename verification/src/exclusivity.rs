//! The exclusive-capture policy for a unit's physical devices.
//!
//! Entering live forwarding, every unit's devices are placed into
//! exclusive-capture mode so the host stops double-delivering their raw
//! events. The policy is asymmetric by design: a failed capture of the
//! primary device is fatal to the run, while a failed capture of the
//! secondary is tolerated as degraded operation (its raw events may
//! leak). On release, a failure on either device is fatal to the
//! teardown path. The ioctl work happens in the I/O layer; each device's
//! success or failure is handed back here and the policy decides.

use vstd::prelude::*;

verus! {

/// A fatal exclusivity failure.
#[derive(Clone, Copy, PartialEq, Eq, Structural, Debug)]
pub enum CaptureError {
    /// The primary device could not be captured; forwarding cannot safely
    /// proceed, as the primary's raw events would leak in parallel with
    /// the synthesized ones.
    PrimaryCaptureFailed,
    /// A device could not be released on leaving live forwarding.
    ReleaseFailed,
}

/// Decides the fate of a capture attempt over a unit. `secondary_captured`
/// is `None` for a single-device unit. Returns `Ok(degraded)`, where
/// `degraded` says the secondary leaked, or the fatal primary failure.
pub fn capture_outcome(primary_captured: bool, secondary_captured: Option<bool>) -> (r: Result<
    bool,
    CaptureError,
>)
    ensures
        !primary_captured ==> r == Err::<bool, CaptureError>(CaptureError::PrimaryCaptureFailed),
        primary_captured ==> r == Ok::<bool, CaptureError>(secondary_captured == Some(false)),
{
    if !primary_captured {
        Err(CaptureError::PrimaryCaptureFailed)
    } else {
        match secondary_captured {
            Some(ok) => Ok(!ok),
            None => Ok(false),
        }
    }
}

/// Decides the fate of a release attempt over a unit: a failure on either
/// the primary or the secondary is fatal to the teardown path.
pub fn release_outcome(primary_released: bool, secondary_released: Option<bool>) -> (r: Result<
    (),
    CaptureError,
>)
    ensures
        r is Ok <==> primary_released && secondary_released != Some(false),
        r is Err ==> r == Err::<(), CaptureError>(CaptureError::ReleaseFailed),
{
    if !primary_released {
        Err(CaptureError::ReleaseFailed)
    } else {
        match secondary_released {
            Some(false) => Err(CaptureError::ReleaseFailed),
            _ => Ok(()),
        }
    }
}

} // verus!
