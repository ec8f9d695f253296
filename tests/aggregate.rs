use audio::aggregate_device::{AudioAggregateDevice, AudioAggregateDeviceBuilder};
use audio::error::ErrorKind;
use audio::foundation::{to_cfindex, ForeignDictionary, ForeignValue};
use audio::status::{K_AUDIO_HARDWARE_BAD_DEVICE_ERROR, K_AUDIO_HARDWARE_NO_ERROR};

fn text(v: &ForeignValue) -> &str {
    match v {
        ForeignValue::Text(s) => s.as_str(),
        other => panic!("not text: {:?}", other),
    }
}

fn keys(d: &ForeignDictionary) -> Vec<&str> {
    d.entries.iter().map(|(k, _)| k.as_str()).collect()
}

#[test]
fn minimal_description_has_name_and_uid() {
    let d = AudioAggregateDevice::builder("test-ag-de-name", "test-ag-de-uid").build();
    assert_eq!(keys(&d), vec!["name", "uid"]);
    assert_eq!(text(&d.entries[0].1), "test-ag-de-name");
    assert_eq!(text(&d.entries[1].1), "test-ag-de-uid");
}

#[test]
fn full_description_in_order() {
    let d = AudioAggregateDeviceBuilder::new("n", "u")
        .main_sub_device("main")
        .private(true)
        .tap_list(vec!["tap-a".to_string(), "tap-b".to_string()])
        .build();
    assert_eq!(keys(&d), vec!["name", "uid", "master", "private", "taps"]);
    assert_eq!(text(&d.entries[2].1), "main");
    assert!(matches!(d.entries[3].1, ForeignValue::Number(1)));
    match &d.entries[4].1 {
        ForeignValue::Array(taps) => {
            assert_eq!(taps.len(), 2);
            for (tap, uid) in taps.iter().zip(["tap-a", "tap-b"]) {
                match tap {
                    ForeignValue::Dictionary(inner) => {
                        assert_eq!(keys(inner), vec!["uid"]);
                        assert_eq!(text(&inner.entries[0].1), uid);
                    }
                    other => panic!("not a dictionary: {:?}", other),
                }
            }
        }
        other => panic!("not an array: {:?}", other),
    }
}

#[test]
fn public_device_has_zero_privacy_flag() {
    let d = AudioAggregateDevice::builder("n", "u").private(false).build();
    assert_eq!(keys(&d), vec!["name", "uid", "private"]);
    assert!(matches!(d.entries[2].1, ForeignValue::Number(0)));
}

#[test]
fn empty_tap_list_is_an_empty_array() {
    let d = AudioAggregateDevice::builder("n", "u").tap_list(Vec::new()).build();
    assert_eq!(keys(&d), vec!["name", "uid", "taps"]);
    assert!(matches!(&d.entries[2].1, ForeignValue::Array(v) if v.is_empty()));
}

#[test]
fn created_device_is_owned_and_destroyed_at_teardown() {
    let dev = AudioAggregateDevice::from_creation(K_AUDIO_HARDWARE_NO_ERROR, 120).unwrap();
    assert_eq!(dev.id(), 120);
    assert!(dev.owns_device());
    assert_eq!(dev.teardown(), Some(120));
}

#[test]
fn referencing_handle_does_not_destroy() {
    let dev = AudioAggregateDevice::referencing(121);
    assert!(!dev.owns_device());
    assert_eq!(dev.teardown(), None);
}

#[test]
fn failed_device_creation() {
    let err = AudioAggregateDevice::from_creation(K_AUDIO_HARDWARE_BAD_DEVICE_ERROR, 0).unwrap_err();
    assert_eq!(err.kind, ErrorKind::Hardware(K_AUDIO_HARDWARE_BAD_DEVICE_ERROR));
    assert!(err.msg.starts_with("create aggregate device fail: "));
}

#[test]
fn mismatched_keys_and_values_are_rejected() {
    let err = ForeignDictionary::try_new(
        vec!["a".to_string(), "b".to_string()],
        vec![ForeignValue::Number(1)],
    )
    .unwrap_err();
    assert_eq!(err.kind, ErrorKind::Validation);
    assert_eq!(err.msg, "the lengths of keys and values are different");
    assert!(ForeignDictionary::try_new(Vec::new(), vec![ForeignValue::Number(1)]).is_err());
}

#[test]
fn matching_keys_and_values_pair_up() {
    let d = ForeignDictionary::try_new(
        vec!["a".to_string(), "b".to_string()],
        vec![ForeignValue::Number(1), ForeignValue::Text("x".to_string())],
    )
    .unwrap();
    assert_eq!(keys(&d), vec!["a", "b"]);
    assert!(matches!(d.entries[0].1, ForeignValue::Number(1)));
    assert_eq!(text(&d.entries[1].1), "x");
    assert!(ForeignDictionary::try_new(Vec::new(), Vec::new()).unwrap().entries.is_empty());
}

#[test]
fn cfindex_range() {
    assert_eq!(to_cfindex(0), 0);
    assert_eq!(to_cfindex(12), 12);
    assert_eq!(to_cfindex(i64::MAX as usize), i64::MAX);
}
