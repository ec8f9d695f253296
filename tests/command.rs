use audio::command::{parse_command, parse_process_id, Command, ProcessCommand, ReCommand};
use audio::record::{ensure_streams, frames_to_record, io_cycle_status, recording_file_name};
use audio::rserror::RsError;
use audio::status::{K_AUDIO_HARDWARE_ILLEGAL_OPERATION_ERROR, K_AUDIO_HARDWARE_NO_ERROR};

fn words(line: &str) -> Vec<String> {
    line.split_whitespace().map(|w| w.to_string()).collect()
}

#[test]
fn top_level_commands() {
    assert_eq!(parse_command(&words("help")), Command::Help);
    assert_eq!(parse_command(&words("  quit  ")), Command::Quit);
    assert_eq!(parse_command(&words("")), Command::Unsupported);
    assert_eq!(parse_command(&words("record")), Command::Unsupported);
}

#[test]
fn process_commands() {
    assert_eq!(parse_command(&words("process listall")), Command::Process(ProcessCommand::ListAll));
    assert_eq!(parse_command(&words("process help")), Command::Process(ProcessCommand::Help));
    assert_eq!(parse_command(&words("process")), Command::Process(ProcessCommand::Unsupported));
    assert_eq!(parse_command(&words("process list")), Command::Process(ProcessCommand::Unsupported));
}

#[test]
fn record_commands() {
    assert_eq!(parse_command(&words("re start 501")), Command::Re(ReCommand::Start(501)));
    assert_eq!(parse_command(&words("re start")), Command::Re(ReCommand::MissingProcessId));
    assert_eq!(parse_command(&words("re start 5x")), Command::Re(ReCommand::BadProcessId));
    assert_eq!(parse_command(&words("re help")), Command::Re(ReCommand::Help));
    assert_eq!(parse_command(&words("re stop")), Command::Re(ReCommand::Unsupported));
}

#[test]
fn process_id_words() {
    assert_eq!(parse_process_id("0"), Some(0));
    assert_eq!(parse_process_id("007"), Some(7));
    assert_eq!(parse_process_id("4294967295"), Some(u32::MAX));
    assert_eq!(parse_process_id("4294967296"), None);
    assert_eq!(parse_process_id("99999999999x"), None);
    assert_eq!(parse_process_id(""), None);
    assert_eq!(parse_process_id("-1"), None);
    assert_eq!(parse_process_id("+501"), Some(501));
    assert_eq!(parse_process_id("+"), None);
    assert_eq!(parse_process_id("++1"), None);
    assert_eq!(parse_process_id("1+"), None);
}

#[test]
fn recording_rules() {
    assert_eq!(recording_file_name(0), "resound-0.caf");
    assert_eq!(recording_file_name(12), "resound-12.caf");
    assert!(ensure_streams(1).is_ok());
    assert_eq!(ensure_streams(0).unwrap_err().msg, "创建的临时aggregate device没有stream");
    assert_eq!(frames_to_record(4096, 2), 512);
    assert_eq!(frames_to_record(7, 1), 1);
    assert_eq!(io_cycle_status(&vec![true, true]), K_AUDIO_HARDWARE_NO_ERROR);
    assert_eq!(io_cycle_status(&Vec::new()), K_AUDIO_HARDWARE_NO_ERROR);
    assert_eq!(io_cycle_status(&vec![true, false]), K_AUDIO_HARDWARE_ILLEGAL_OPERATION_ERROR);
    assert_eq!(RsError::with_msg("boom").msg, "boom");
}
