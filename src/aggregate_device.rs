//! Aggregate devices: virtual devices made of sub-devices and taps. The
//! builder assembles the description the host API creates one from.
//!
//! A tap named in a device's tap list must outlive the device: tear the
//! device down before the taps it names.

use vstd::prelude::*;

use crate::error::{check_status, is_hardware_error, AudioError};
use crate::foundation::{ForeignDictionary, ForeignValue};
use crate::property::ObjectId;
use crate::status::{OSStatus, K_AUDIO_HARDWARE_NO_ERROR};
use crate::tap::K_AUDIO_SUB_TAP_UID_KEY;

verus! {

/// Key of the device's name; its value is text.
pub const K_AUDIO_AGGREGATE_DEVICE_NAME_KEY: &'static str = "name";
/// Key of the device's UID; its value is text.
pub const K_AUDIO_AGGREGATE_DEVICE_UID_KEY: &'static str = "uid";
/// Key of the UID of the sub-device that is the time source; its value is text.
pub const K_AUDIO_AGGREGATE_DEVICE_MAIN_SUB_DEVICE_KEY: &'static str = "master";
/// Key of the privacy flag; its value is the number 1 for a device private to
/// the creating process, 0 for one published to the whole system.
pub const K_AUDIO_AGGREGATE_DEVICE_IS_PRIVATE_KEY: &'static str = "private";
/// Key of the member taps; its value is an array of keyed containers, each
/// holding one tap's UID under [`K_AUDIO_SUB_TAP_UID_KEY`].
pub const K_AUDIO_AGGREGATE_DEVICE_TAP_LIST_KEY: &'static str = "taps";

pub const CREATE_AGGREGATE_DEVICE_FAIL: &'static str = "create aggregate device fail";
pub const DESTROY_AGGREGATE_DEVICE_FAIL: &'static str = "destroy aggregate device fail";

/// Declarative input for creating an aggregate device.
#[derive(Debug)]
pub struct AudioAggregateDeviceBuilder {
    name: String,
    uid: String,
    main_sub_device: Option<String>,
    private: Option<bool>,
    tap_list: Option<Vec<String>>,
}

/// What an aggregate device builder holds.
pub struct AggregateDeviceSpec {
    pub name: Seq<char>,
    pub uid: Seq<char>,
    pub main_sub_device: Option<Seq<char>>,
    pub private: Option<bool>,
    pub tap_list: Option<Seq<Seq<char>>>,
}

impl View for AudioAggregateDeviceBuilder {
    type V = AggregateDeviceSpec;

    closed spec fn view(&self) -> AggregateDeviceSpec {
        AggregateDeviceSpec {
            name: self.name@,
            uid: self.uid@,
            main_sub_device: match self.main_sub_device {
                Some(s) => Some(s@),
                None => None,
            },
            private: self.private,
            tap_list: match self.tap_list {
                Some(v) => Some(v@.map_values(|s: String| s@)),
                None => None,
            },
        }
    }
}

/// The shape of one value of a description.
pub enum EntryModel {
    Text(Seq<char>),
    Number(int),
    TapUids(Seq<Seq<char>>),
}

/// The entries that describe the aggregate device `b`, in order.
pub open spec fn aggregate_entries(b: AggregateDeviceSpec) -> Seq<(Seq<char>, EntryModel)> {
    seq![
        (K_AUDIO_AGGREGATE_DEVICE_NAME_KEY@, EntryModel::Text(b.name)),
        (K_AUDIO_AGGREGATE_DEVICE_UID_KEY@, EntryModel::Text(b.uid)),
    ] + match b.main_sub_device {
        Some(m) => seq![(K_AUDIO_AGGREGATE_DEVICE_MAIN_SUB_DEVICE_KEY@, EntryModel::Text(m))],
        None => Seq::empty(),
    } + match b.private {
        Some(p) => seq![
            (K_AUDIO_AGGREGATE_DEVICE_IS_PRIVATE_KEY@, EntryModel::Number(if p { 1int } else { 0int })),
        ],
        None => Seq::empty(),
    } + match b.tap_list {
        Some(t) => seq![(K_AUDIO_AGGREGATE_DEVICE_TAP_LIST_KEY@, EntryModel::TapUids(t))],
        None => Seq::empty(),
    }
}

/// `v` is the keyed container of one member tap with UID `uid`.
pub open spec fn tap_entry_matches(v: ForeignValue, uid: Seq<char>) -> bool {
    &&& v is Dictionary
    &&& v->Dictionary_0.entries@.len() == 1
    &&& v->Dictionary_0.entries@[0].0@ == K_AUDIO_SUB_TAP_UID_KEY@
    &&& v->Dictionary_0.entries@[0].1 is Text
    &&& v->Dictionary_0.entries@[0].1->Text_0@ == uid
}

/// `v` has the shape `e`.
pub open spec fn value_matches(v: ForeignValue, e: EntryModel) -> bool {
    match e {
        EntryModel::Text(s) => v is Text && v->Text_0@ == s,
        EntryModel::Number(n) => v is Number && v->Number_0 == n,
        EntryModel::TapUids(uids) => {
            &&& v is Array
            &&& v->Array_0@.len() == uids.len()
            &&& forall|j: int|
                0 <= j < uids.len() ==> #[trigger] tap_entry_matches(v->Array_0@[j], uids[j])
        },
    }
}

/// `d` holds exactly the entries `es`, in order.
pub open spec fn dictionary_matches(d: ForeignDictionary, es: Seq<(Seq<char>, EntryModel)>) -> bool {
    &&& d.entries@.len() == es.len()
    &&& forall|i: int|
        0 <= i < es.len() ==> d.entries@[i].0@ == es[i].0 && value_matches(
            #[trigger] d.entries@[i].1,
            es[i].1,
        )
}

/// `keys[i]` and `values[i]` hold the entry `es[i]`, for every `i`.
pub open spec fn lists_match(keys: Seq<String>, values: Seq<ForeignValue>, es: Seq<(Seq<char>, EntryModel)>) -> bool {
    &&& keys.len() == es.len()
    &&& values.len() == es.len()
    &&& forall|i: int|
        0 <= i < es.len() ==> keys[i]@ == es[i].0 && value_matches(#[trigger] values[i], es[i].1)
}

fn text_value(s: &String) -> (r: ForeignValue)
    ensures
        r is Text && r->Text_0@ == s@,
{
    ForeignValue::Text(s.clone())
}

fn tap_entry(uid: &String) -> (r: ForeignValue)
    ensures
        tap_entry_matches(r, uid@),
{
    let entries = vec![(String::from_str(K_AUDIO_SUB_TAP_UID_KEY), text_value(uid))];
    ForeignValue::Dictionary(ForeignDictionary { entries })
}

impl AudioAggregateDeviceBuilder {
    /// A builder for a device with this name and UID and nothing else.
    pub fn new(name: &str, uid: &str) -> (r: AudioAggregateDeviceBuilder)
        ensures
            r@.name == name@,
            r@.uid == uid@,
            r@.main_sub_device is None,
            r@.private is None,
            r@.tap_list is None,
    {
        AudioAggregateDeviceBuilder {
            name: String::from_str(name),
            uid: String::from_str(uid),
            main_sub_device: None,
            private: None,
            tap_list: None,
        }
    }

    /// Makes the device private to the creating process, or published to the
    /// whole system.
    pub fn private(self, private: bool) -> (r: Self)
        ensures
            r@ == (AggregateDeviceSpec { private: Some(private), ..self@ }),
    {
        let mut b = self;
        b.private = Some(private);
        b
    }

    /// Sets the UIDs of the member taps.
    pub fn tap_list(self, tap_list: Vec<String>) -> (r: Self)
        ensures
            r@ == (AggregateDeviceSpec {
                tap_list: Some(tap_list@.map_values(|s: String| s@)),
                ..self@
            }),
    {
        let mut b = self;
        b.tap_list = Some(tap_list);
        b
    }

    /// Sets the UID of the sub-device that is the time source.
    pub fn main_sub_device(self, uid: &str) -> (r: Self)
        ensures
            r@ == (AggregateDeviceSpec { main_sub_device: Some(uid@), ..self@ }),
    {
        let mut b = self;
        b.main_sub_device = Some(String::from_str(uid));
        b
    }

    /// The description the host API creates the device from.
    pub fn build(&self) -> (r: ForeignDictionary)
        ensures
            dictionary_matches(r, aggregate_entries(self@)),
    {
        let mut keys: Vec<String> = Vec::new();
        let mut values: Vec<ForeignValue> = Vec::new();
        let ghost mut es: Seq<(Seq<char>, EntryModel)> = Seq::empty();
        keys.push(String::from_str(K_AUDIO_AGGREGATE_DEVICE_NAME_KEY));
        values.push(text_value(&self.name));
        proof {
            es = es.push((K_AUDIO_AGGREGATE_DEVICE_NAME_KEY@, EntryModel::Text(self@.name)));
            assert(lists_match(keys@, values@, es));
        }
        keys.push(String::from_str(K_AUDIO_AGGREGATE_DEVICE_UID_KEY));
        values.push(text_value(&self.uid));
        proof {
            es = es.push((K_AUDIO_AGGREGATE_DEVICE_UID_KEY@, EntryModel::Text(self@.uid)));
            assert(lists_match(keys@, values@, es));
        }
        if let Some(main_sub_device) = &self.main_sub_device {
            keys.push(String::from_str(K_AUDIO_AGGREGATE_DEVICE_MAIN_SUB_DEVICE_KEY));
            values.push(text_value(main_sub_device));
            proof {
                es = es.push(
                    (K_AUDIO_AGGREGATE_DEVICE_MAIN_SUB_DEVICE_KEY@, EntryModel::Text(main_sub_device@)),
                );
                assert(lists_match(keys@, values@, es));
            }
        }
        if let Some(private) = self.private {
            keys.push(String::from_str(K_AUDIO_AGGREGATE_DEVICE_IS_PRIVATE_KEY));
            let flag: i32 = if private { 1 } else { 0 };
            values.push(ForeignValue::Number(flag));
            proof {
                es = es.push(
                    (K_AUDIO_AGGREGATE_DEVICE_IS_PRIVATE_KEY@, EntryModel::Number(if private { 1int } else { 0int })),
                );
                assert(lists_match(keys@, values@, es));
            }
        }
        if let Some(tap_list) = &self.tap_list {
            let mut taps: Vec<ForeignValue> = Vec::new();
            let mut j: usize = 0;
            while j < tap_list.len()
                invariant
                    j <= tap_list@.len(),
                    taps@.len() == j,
                    forall|k: int| 0 <= k < j ==> #[trigger] tap_entry_matches(taps@[k], tap_list@[k]@),
                decreases tap_list@.len() - j,
            {
                taps.push(tap_entry(&tap_list[j]));
                j = j + 1;
            }
            keys.push(String::from_str(K_AUDIO_AGGREGATE_DEVICE_TAP_LIST_KEY));
            values.push(ForeignValue::Array(taps));
            proof {
                es = es.push(
                    (K_AUDIO_AGGREGATE_DEVICE_TAP_LIST_KEY@, EntryModel::TapUids(tap_list@.map_values(|s: String| s@))),
                );
                assert(lists_match(keys@, values@, es));
            }
        }
        assert(es =~= aggregate_entries(self@));
        match ForeignDictionary::try_new(keys, values) {
            Ok(d) => d,
            Err(_) => vstd::pervasive::unreached(),
        }
    }
}

/// A created aggregate device, and whether this handle destroys it at
/// teardown.
#[derive(Debug)]
pub struct AudioAggregateDevice {
    destroy: bool,
    audio_object_id: ObjectId,
}

/// What an aggregate device handle holds.
pub struct AggregateDeviceView {
    pub id: ObjectId,
    pub owned: bool,
}

impl View for AudioAggregateDevice {
    type V = AggregateDeviceView;

    closed spec fn view(&self) -> AggregateDeviceView {
        AggregateDeviceView { id: self.audio_object_id, owned: self.destroy }
    }
}

impl AudioAggregateDevice {
    /// A builder for a device with this name and UID.
    pub fn builder(name: &str, uid: &str) -> (r: AudioAggregateDeviceBuilder)
        ensures
            r@.name == name@,
            r@.uid == uid@,
            r@.main_sub_device is None,
            r@.private is None,
            r@.tap_list is None,
    {
        AudioAggregateDeviceBuilder::new(name, uid)
    }

    /// The device returned by a creation call that gave `status` and the
    /// object `audio_object_id`; a created device is owned by its handle.
    pub fn from_creation(status: OSStatus, audio_object_id: ObjectId) -> (r: Result<
        AudioAggregateDevice,
        AudioError,
    >)
        ensures
            r is Ok <==> status == K_AUDIO_HARDWARE_NO_ERROR,
            r is Ok ==> r->Ok_0@ == (AggregateDeviceView { id: audio_object_id, owned: true }),
            r is Err ==> is_hardware_error(r->Err_0, CREATE_AGGREGATE_DEVICE_FAIL@, status),
    {
        match check_status(CREATE_AGGREGATE_DEVICE_FAIL, status) {
            Ok(()) => Ok(AudioAggregateDevice { destroy: true, audio_object_id }),
            Err(e) => Err(e),
        }
    }

    /// A handle that refers to an existing device without owning it.
    pub fn referencing(audio_object_id: ObjectId) -> (r: AudioAggregateDevice)
        ensures
            r@ == (AggregateDeviceView { id: audio_object_id, owned: false }),
    {
        AudioAggregateDevice { destroy: false, audio_object_id }
    }

    /// The device's object.
    pub fn id(&self) -> (r: ObjectId)
        ensures
            r == self@.id,
    {
        self.audio_object_id
    }

    /// Whether the device is destroyed at teardown.
    pub fn owns_device(&self) -> (r: bool)
        ensures
            r == self@.owned,
    {
        self.destroy
    }

    /// Ends the handle; gives the device to destroy if the handle owns one.
    pub fn teardown(self) -> (r: Option<ObjectId>)
        ensures
            r == (if self@.owned {
                Some(self@.id)
            } else {
                None::<ObjectId>
            }),
    {
        if self.destroy {
            Some(self.audio_object_id)
        } else {
            None
        }
    }
}

} // verus!
