use audio::error::{check_status, AudioError, ErrorKind};
use audio::status::{
    err_msg_hardware_status, K_AUDIO_DEVICE_PERMISSIONS_ERROR, K_AUDIO_DEVICE_UNSUPPORTED_FORMAT_ERROR,
    K_AUDIO_HARDWARE_BAD_DEVICE_ERROR, K_AUDIO_HARDWARE_BAD_OBJECT_ERROR,
    K_AUDIO_HARDWARE_BAD_PROPERTY_SIZE_ERROR, K_AUDIO_HARDWARE_BAD_STREAM_ERROR,
    K_AUDIO_HARDWARE_ILLEGAL_OPERATION_ERROR, K_AUDIO_HARDWARE_NOT_READY_ERROR,
    K_AUDIO_HARDWARE_NOT_RUNNING_ERROR, K_AUDIO_HARDWARE_NO_ERROR,
    K_AUDIO_HARDWARE_UNKNOWN_PROPERTY_ERROR, K_AUDIO_HARDWARE_UNSPECIFIED_ERROR,
    K_AUDIO_HARDWARE_UNSUPPORTED_OPERATION_ERROR,
};

#[test]
fn every_catalog_status_has_its_own_message() {
    let codes = [
        K_AUDIO_HARDWARE_NO_ERROR,
        K_AUDIO_HARDWARE_NOT_RUNNING_ERROR,
        K_AUDIO_HARDWARE_UNSPECIFIED_ERROR,
        K_AUDIO_HARDWARE_UNKNOWN_PROPERTY_ERROR,
        K_AUDIO_HARDWARE_BAD_PROPERTY_SIZE_ERROR,
        K_AUDIO_HARDWARE_ILLEGAL_OPERATION_ERROR,
        K_AUDIO_HARDWARE_BAD_OBJECT_ERROR,
        K_AUDIO_HARDWARE_BAD_DEVICE_ERROR,
        K_AUDIO_HARDWARE_BAD_STREAM_ERROR,
        K_AUDIO_HARDWARE_UNSUPPORTED_OPERATION_ERROR,
        K_AUDIO_HARDWARE_NOT_READY_ERROR,
        K_AUDIO_DEVICE_UNSUPPORTED_FORMAT_ERROR,
        K_AUDIO_DEVICE_PERMISSIONS_ERROR,
    ];
    let unknown = err_msg_hardware_status(12345);
    let mut seen: Vec<&str> = Vec::new();
    for code in codes {
        let m = err_msg_hardware_status(code);
        assert_ne!(m, unknown);
        assert!(!seen.contains(&m));
        seen.push(m);
    }
}

#[test]
fn status_messages_are_exact() {
    assert_eq!(
        err_msg_hardware_status(K_AUDIO_HARDWARE_NO_ERROR),
        "The function call completed successfully.[kAudioHardwareNoError: 0]"
    );
    assert_eq!(
        err_msg_hardware_status(K_AUDIO_DEVICE_PERMISSIONS_ERROR),
        "The requested operation can't be completed because the process doesn't have permission.[kAudioDevicePermissionsError: !hog]"
    );
    assert_eq!(err_msg_hardware_status(1), "unknow error[unknow: null]");
}

#[test]
fn check_status_succeeds_only_on_no_error() {
    assert!(check_status("x", K_AUDIO_HARDWARE_NO_ERROR).is_ok());
    let err = check_status("create aggregate device fail", K_AUDIO_HARDWARE_NOT_READY_ERROR).unwrap_err();
    assert_eq!(err.kind, ErrorKind::Hardware(K_AUDIO_HARDWARE_NOT_READY_ERROR));
    assert_eq!(
        err.msg,
        "create aggregate device fail: The AudioObject isn't ready to do the requested operation[kAudioHardwareNotReadyError: nrdy][OSStatus: 1852990585]"
    );
}

#[test]
fn status_message_text_with_negative_and_extreme_codes() {
    let e = AudioError::with_status_msg("a", "b", i32::MIN);
    assert_eq!(e.msg, "a: b[OSStatus: -2147483648]");
    let e = AudioError::with_status_msg("a", "b", i32::MAX);
    assert_eq!(e.msg, "a: b[OSStatus: 2147483647]");
    let e = AudioError::with_status_msg("a", "b", 0);
    assert_eq!(e.msg, "a: b[OSStatus: 0]");
    let e = AudioError::with_msg(ErrorKind::Io, "disk full");
    assert_eq!(e.msg, "disk full");
    assert_eq!(e.os_status(), None);
}
