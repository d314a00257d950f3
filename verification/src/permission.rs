use vstd::prelude::*;

verus! {

/// Microphone authorization status: the user has not been asked yet.
pub const MICROPHONE_STATUS_NOT_DETERMINED: i64 = 0;
/// Microphone authorization status: access is restricted by policy.
pub const MICROPHONE_STATUS_RESTRICTED: i64 = 1;
/// Microphone authorization status: the user denied access.
pub const MICROPHONE_STATUS_DENIED: i64 = 2;
/// Microphone authorization status: the user granted access.
pub const MICROPHONE_STATUS_AUTHORIZED: i64 = 3;

/// Check if the app has Accessibility permission, on a platform that has no
/// such permission: there it is always granted. This is not the macOS answer;
/// on macOS the system must be asked, which this library does not do.
pub fn check_accessibility_permission() -> (granted: bool)
    ensures
        granted,
{
    true
}

/// Check microphone permission status without prompting, on a platform that
/// has no microphone permission: there it is always granted. On macOS the
/// answer is `microphone_status_granted` of the status the system reports.
pub fn check_microphone_permission() -> (granted: bool)
    ensures
        granted,
{
    true
}

/// Whether a microphone authorization status means access is granted.
pub fn microphone_status_granted(status: i64) -> (granted: bool)
    ensures
        granted == (status == MICROPHONE_STATUS_AUTHORIZED),
{
    status == MICROPHONE_STATUS_AUTHORIZED
}

/// What a microphone permission request does for a given current status.
#[derive(Debug, Clone, Copy, PartialEq, Eq, Structural)]
pub enum MicrophoneRequestStep {
    /// Access is already granted: nothing to ask.
    AlreadyGranted,
    /// Access is not granted: show the system permission dialog.
    Prompt,
}

/// The step a permission request takes for `status`: the system dialog is
/// triggered whenever access is not already granted.
pub open spec fn microphone_request_plan(status: i64) -> MicrophoneRequestStep {
    if status == MICROPHONE_STATUS_AUTHORIZED {
        MicrophoneRequestStep::AlreadyGranted
    } else {
        MicrophoneRequestStep::Prompt
    }
}

/// Decide how to request microphone permission given the current status:
/// nothing when already granted, the system permission dialog otherwise.
pub fn microphone_request_step(status: i64) -> (step: MicrophoneRequestStep)
    ensures
        step == microphone_request_plan(status),
{
    if status == MICROPHONE_STATUS_AUTHORIZED {
        MicrophoneRequestStep::AlreadyGranted
    } else {
        MicrophoneRequestStep::Prompt
    }
}

/// A permission request asks nothing exactly when a check already reports the
/// microphone as granted.
pub proof fn law_request_skipped_exactly_when_granted(status: i64)
    ensures
        (microphone_request_plan(status) == MicrophoneRequestStep::AlreadyGranted) == (status
            == MICROPHONE_STATUS_AUTHORIZED),
{
}

} // verus!
