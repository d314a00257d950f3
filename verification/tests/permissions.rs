use native_shortcut::permission::{
    microphone_request_step, microphone_status_granted, MicrophoneRequestStep,
    MICROPHONE_STATUS_AUTHORIZED, MICROPHONE_STATUS_DENIED, MICROPHONE_STATUS_NOT_DETERMINED,
    MICROPHONE_STATUS_RESTRICTED,
};
use native_shortcut::permission::{check_accessibility_permission, check_microphone_permission};

#[test]
fn permissions_are_granted_where_there_is_no_permission_model() {
    assert!(check_accessibility_permission());
    assert!(check_microphone_permission());
}

#[test]
fn only_authorized_status_is_granted() {
    assert!(microphone_status_granted(3));
    assert!(!microphone_status_granted(0));
    assert!(!microphone_status_granted(1));
    assert!(!microphone_status_granted(2));
    assert!(!microphone_status_granted(4));
    assert!(!microphone_status_granted(-1));
}

#[test]
fn request_steps_follow_the_status() {
    assert_eq!(MICROPHONE_STATUS_NOT_DETERMINED, 0);
    assert_eq!(MICROPHONE_STATUS_RESTRICTED, 1);
    assert_eq!(MICROPHONE_STATUS_DENIED, 2);
    assert_eq!(MICROPHONE_STATUS_AUTHORIZED, 3);
    assert_eq!(microphone_request_step(3), MicrophoneRequestStep::AlreadyGranted);
    // restricted and denied are not granted: the dialog is triggered
    assert_eq!(microphone_request_step(1), MicrophoneRequestStep::Prompt);
    assert_eq!(microphone_request_step(2), MicrophoneRequestStep::Prompt);
    assert_eq!(microphone_request_step(0), MicrophoneRequestStep::Prompt);
    assert_eq!(microphone_request_step(7), MicrophoneRequestStep::Prompt);
}

#[test]
fn request_is_skipped_exactly_when_granted() {
    for status in -2i64..8 {
        assert_eq!(
            microphone_request_step(status) == MicrophoneRequestStep::AlreadyGranted,
            microphone_status_granted(status)
        );
    }
}
