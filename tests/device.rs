use audio::device::{trampoline_status, AudioIoProcHandler, IoProcCall};
use audio::error::ErrorKind;
use audio::status::{
    K_AUDIO_HARDWARE_ILLEGAL_OPERATION_ERROR, K_AUDIO_HARDWARE_NOT_RUNNING_ERROR,
    K_AUDIO_HARDWARE_NO_ERROR, K_AUDIO_HARDWARE_UNSPECIFIED_ERROR,
};

fn run_start(h: &mut AudioIoProcHandler) {
    let mut next = h.start();
    while let Some(call) = next {
        next = h.complete(call, K_AUDIO_HARDWARE_NO_ERROR).unwrap();
    }
}

#[test]
fn first_start_registers_then_starts() {
    let mut h = AudioIoProcHandler::new(9);
    assert_eq!(h.device_id(), 9);
    assert_eq!(h.start(), Some(IoProcCall::CreateIoProcId));
    assert_eq!(h.complete(IoProcCall::CreateIoProcId, K_AUDIO_HARDWARE_NO_ERROR).unwrap(), Some(IoProcCall::Start));
    assert!(h.has_io_proc_id());
    assert!(!h.is_running());
    assert_eq!(h.complete(IoProcCall::Start, K_AUDIO_HARDWARE_NO_ERROR).unwrap(), None);
    assert!(h.is_running());
}

#[test]
fn start_when_running_and_stop_when_stopped_are_no_ops() {
    let mut h = AudioIoProcHandler::new(9);
    assert_eq!(h.stop(), None);
    run_start(&mut h);
    assert_eq!(h.start(), None);
    assert!(h.is_running());
    assert_eq!(h.stop(), Some(IoProcCall::Stop));
    assert_eq!(h.complete(IoProcCall::Stop, K_AUDIO_HARDWARE_NO_ERROR).unwrap(), None);
    assert_eq!(h.stop(), None);
    assert!(!h.is_running());
}

#[test]
fn restart_reuses_registration() {
    let mut h = AudioIoProcHandler::new(9);
    run_start(&mut h);
    h.complete(IoProcCall::Stop, K_AUDIO_HARDWARE_NO_ERROR).unwrap();
    assert_eq!(h.start(), Some(IoProcCall::Start));
}

#[test]
fn failed_calls_leave_state_unchanged() {
    let mut h = AudioIoProcHandler::new(9);
    let err = h.complete(IoProcCall::CreateIoProcId, K_AUDIO_HARDWARE_ILLEGAL_OPERATION_ERROR).unwrap_err();
    assert_eq!(err.kind, ErrorKind::Hardware(K_AUDIO_HARDWARE_ILLEGAL_OPERATION_ERROR));
    assert!(err.msg.starts_with("core audio create io proc fail: "));
    assert!(!h.has_io_proc_id());
    h.complete(IoProcCall::CreateIoProcId, K_AUDIO_HARDWARE_NO_ERROR).unwrap();
    let err = h.complete(IoProcCall::Start, K_AUDIO_HARDWARE_NOT_RUNNING_ERROR).unwrap_err();
    assert!(err.msg.starts_with("core audio start io proc fail: "));
    assert!(!h.is_running());
    assert!(h.has_io_proc_id());
}

#[test]
fn out_of_order_report_is_misuse() {
    let mut h = AudioIoProcHandler::new(9);
    let err = h.complete(IoProcCall::Start, K_AUDIO_HARDWARE_NO_ERROR).unwrap_err();
    assert_eq!(err.kind, ErrorKind::Misuse);
    let err = h.complete(IoProcCall::Stop, K_AUDIO_HARDWARE_NO_ERROR).unwrap_err();
    assert_eq!(err.kind, ErrorKind::Misuse);
    assert!(!h.is_running());
}

#[test]
fn teardown_stops_then_deregisters() {
    let mut h = AudioIoProcHandler::new(9);
    run_start(&mut h);
    assert_eq!(h.teardown(), vec![IoProcCall::Stop, IoProcCall::DestroyIoProcId]);
    let mut h = AudioIoProcHandler::new(9);
    run_start(&mut h);
    h.complete(IoProcCall::Stop, K_AUDIO_HARDWARE_NO_ERROR).unwrap();
    assert_eq!(h.teardown(), vec![IoProcCall::DestroyIoProcId]);
    assert_eq!(AudioIoProcHandler::new(9).teardown(), Vec::<IoProcCall>::new());
}

#[test]
fn trampoline_isolates_missing_context_and_faults() {
    assert_eq!(trampoline_status(false, Some(0)), K_AUDIO_HARDWARE_UNSPECIFIED_ERROR);
    assert_eq!(trampoline_status(true, None), K_AUDIO_HARDWARE_UNSPECIFIED_ERROR);
    assert_eq!(trampoline_status(true, Some(K_AUDIO_HARDWARE_NO_ERROR)), K_AUDIO_HARDWARE_NO_ERROR);
    assert_eq!(trampoline_status(true, Some(42)), 42);
}
