use std::cell::Cell;

use audio::cache::{get_or_try_init, OnceSlot};
use audio::error::{AudioError, ErrorKind};
use audio::process::{processes_from_ids, AudioProcess};
use audio::stream::{streams_from_ids, AudioStream, StreamFormat};

#[test]
fn bundle_id_is_queried_once() {
    let calls = Cell::new(0);
    let mut p = AudioProcess::from_id(501);
    let first = p
        .get_bundle_id(|id| {
            calls.set(calls.get() + 1);
            Ok(format!("com.example.{}", id))
        })
        .unwrap()
        .clone();
    assert_eq!(first, "com.example.501");
    let second = p
        .get_bundle_id(|_| {
            calls.set(calls.get() + 1);
            Ok("other".to_string())
        })
        .unwrap()
        .clone();
    assert_eq!(second, "com.example.501");
    assert_eq!(calls.get(), 1);
    assert_eq!(p.get_id(), 501);
}

#[test]
fn failed_query_is_not_cached() {
    let mut p = AudioProcess::from_id(7);
    let err = p
        .get_bundle_id(|_| Err(AudioError::with_msg(ErrorKind::Validation, "nope")))
        .unwrap_err();
    assert_eq!(err.msg, "nope");
    let v = p.get_bundle_id(|_| Ok("com.example.retry".to_string())).unwrap();
    assert_eq!(v, "com.example.retry");
}

#[test]
fn second_write_to_resolved_slot_is_rejected() {
    let mut slot: OnceSlot<u32> = OnceSlot::new();
    assert_eq!(slot.get(), None);
    assert!(slot.set(3).is_ok());
    let err = slot.set(4).unwrap_err();
    assert_eq!(err.kind, ErrorKind::Misuse);
    assert_eq!(err.msg, "OnceCell init multiple times");
    assert_eq!(slot.get(), Some(&3));
    assert_eq!(*get_or_try_init(&mut slot, || Ok(9)).unwrap(), 3);
}

#[test]
fn get_or_try_init_fills_empty_slot() {
    let mut slot: OnceSlot<u32> = OnceSlot::new();
    assert_eq!(*get_or_try_init(&mut slot, || Ok(9)).unwrap(), 9);
    assert_eq!(slot.get(), Some(&9));
}

#[test]
fn records_from_ids_keep_order() {
    let ps = processes_from_ids(vec![3, 1, 2]);
    assert_eq!(ps.iter().map(|p| p.get_id()).collect::<Vec<_>>(), vec![3, 1, 2]);
    assert!(processes_from_ids(Vec::new()).is_empty());
    let ss = streams_from_ids(vec![10, 11]);
    assert_eq!(ss.iter().map(|s| s.get_id()).collect::<Vec<_>>(), vec![10, 11]);
}

#[test]
fn stream_format_is_queried_once() {
    let format = StreamFormat {
        sample_rate_bits: 48000.0f64.to_bits(),
        format_id: 1819304813,
        format_flags: 9,
        bytes_per_packet: 8,
        frames_per_packet: 1,
        bytes_per_frame: 8,
        channels_per_frame: 2,
        bits_per_channel: 32,
        reserved: 0,
    };
    let calls = Cell::new(0);
    let mut s = AudioStream::from_id(10);
    let got = *s
        .get_basic_description(|id| {
            assert_eq!(id, 10);
            calls.set(calls.get() + 1);
            Ok(format)
        })
        .unwrap();
    assert_eq!(got, format);
    assert_eq!(f64::from_bits(got.sample_rate_bits), 48000.0);
    let again = *s.get_basic_description(|_| panic!("queried twice")).unwrap();
    assert_eq!(again, format);
    assert_eq!(calls.get(), 1);
}
