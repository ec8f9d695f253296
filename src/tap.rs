//! Process taps: the declarative description of a tap, its validation, and
//! the handle of a created tap.

use vstd::prelude::*;

use crate::error::{append_decimal, check_status, decimal, is_hardware_error, AudioError, ErrorKind};
use crate::property::ObjectId;
use crate::status::{OSStatus, K_AUDIO_HARDWARE_NO_ERROR};

verus! {

/// Key of the UID entry of a tap in an aggregate device's tap list.
pub const K_AUDIO_SUB_TAP_UID_KEY: &'static str = "uid";

pub const NAME_IS_MUST: &'static str = "name is must.";
pub const PROCESSES_IS_MUST: &'static str = "processes is must.";
pub const CREATE_PROCESS_TAP_FAIL: &'static str = "create process tap fail";
pub const DESTROY_PROCESS_TAP_FAIL: &'static str = "destroy process tap fail";

/// The largest process identifier a tap description can carry: process
/// identifiers cross to the host API as signed 32-bit numbers.
pub const MAX_PROCESS_ID: ObjectId = 2147483647;

/// Declarative input for creating a tap.
#[derive(Debug)]
pub struct AudioTapDescriptionBuilder {
    /// Human readable name of this tap.
    pub name: String,
    /// UID of this tap, usually a UUID.
    pub uid: Option<String>,
    /// The process objects to tap or, if `exclusive`, to leave out.
    pub processes: Vec<ObjectId>,
    /// The tap is a mono mixdown of channels.
    pub mono: bool,
    /// The tap takes every process except those in `processes`.
    pub exclusive: bool,
    /// The tap is a mono or stereo mix of the tapped device's channels.
    pub mixdown: bool,
    /// The tap is visible only to the process that created it.
    pub private: bool,
    /// The hardware devices this tap is restricted to, if any.
    pub device_uid: Option<Vec<String>>,
    /// The device streams this tap is restricted to, if any.
    pub stream: Option<Vec<u32>>,
}

/// A validated tap description, ready to be handed to the host API.
#[derive(Debug)]
pub struct AudioTapDescription {
    name: String,
    processes: Vec<i32>,
    private: bool,
    mixdown: bool,
    mono: bool,
    exclusive: bool,
}

/// What a tap description holds.
pub struct TapDescriptionView {
    pub name: Seq<char>,
    pub processes: Seq<i32>,
    pub private: bool,
    pub mixdown: bool,
    pub mono: bool,
    pub exclusive: bool,
}

impl View for AudioTapDescription {
    type V = TapDescriptionView;

    closed spec fn view(&self) -> TapDescriptionView {
        TapDescriptionView {
            name: self.name@,
            processes: self.processes@,
            private: self.private,
            mixdown: self.mixdown,
            mono: self.mono,
            exclusive: self.exclusive,
        }
    }
}

/// Message of the failure for a process identifier that is too big.
pub open spec fn process_id_too_big_text(id: ObjectId) -> Seq<char> {
    "process id: "@ + decimal(id as nat) + " too big."@
}

/// Index of the first process identifier above [`MAX_PROCESS_ID`], if any.
pub open spec fn first_too_big(processes: Seq<ObjectId>, i: int) -> bool {
    &&& 0 <= i < processes.len()
    &&& processes[i] > MAX_PROCESS_ID
    &&& forall|j: int| 0 <= j < i ==> processes[j] <= MAX_PROCESS_ID
}

/// Every process identifier fits the signed 32-bit range.
pub open spec fn all_ids_fit(processes: Seq<ObjectId>) -> bool {
    forall|j: int| 0 <= j < processes.len() ==> processes[j] <= MAX_PROCESS_ID
}

impl AudioTapDescriptionBuilder {
    /// Validates the specification and turns it into a description.
    ///
    /// Fails, in this order of precedence, on an empty name, on an empty
    /// process set, and on a process identifier above [`MAX_PROCESS_ID`].
    pub fn build(self) -> (r: Result<AudioTapDescription, AudioError>)
        ensures
            r is Ok <==> self.name@.len() > 0 && self.processes@.len() > 0 && all_ids_fit(
                self.processes@,
            ),
            r is Err ==> r->Err_0.kind == ErrorKind::Validation,
            self.name@.len() == 0 ==> r is Err && r->Err_0.msg@ == NAME_IS_MUST@,
            self.name@.len() > 0 && self.processes@.len() == 0 ==> r is Err && r->Err_0.msg@
                == PROCESSES_IS_MUST@,
            self.name@.len() > 0 && self.processes@.len() > 0 && !all_ids_fit(self.processes@)
                ==> exists|i: int|
                #![trigger self.processes@[i]]
                first_too_big(self.processes@, i) && r->Err_0.msg@ == process_id_too_big_text(
                    self.processes@[i],
                ),
            r is Ok ==> r->Ok_0@ == (TapDescriptionView {
                name: self.name@,
                processes: self.processes@.map_values(|p: ObjectId| p as i32),
                private: self.private,
                mixdown: self.mixdown,
                mono: self.mono,
                exclusive: self.exclusive,
            }),
    {
        if self.name.as_str().is_empty() {
            return Err(AudioError::with_msg(ErrorKind::Validation, NAME_IS_MUST));
        }
        if self.processes.len() == 0 {
            return Err(AudioError::with_msg(ErrorKind::Validation, PROCESSES_IS_MUST));
        }
        let mut ids: Vec<i32> = Vec::new();
        let mut i: usize = 0;
        while i < self.processes.len()
            invariant
                self.name@.len() > 0,
                i <= self.processes@.len(),
                ids@ == self.processes@.subrange(0, i as int).map_values(|p: ObjectId| p as i32),
                forall|j: int| 0 <= j < i ==> self.processes@[j] <= MAX_PROCESS_ID,
            decreases self.processes@.len() - i,
        {
            let id = self.processes[i];
            if id > MAX_PROCESS_ID {
                let mut text = String::from_str("process id: ");
                append_decimal(&mut text, id as u64);
                text.append(" too big.");
                proof {
                    assert(first_too_big(self.processes@, i as int));
                    assert(text@ =~= process_id_too_big_text(self.processes@[i as int]));
                }
                return Err(AudioError { msg: text, kind: ErrorKind::Validation });
            }
            ids.push(id as i32);
            proof {
                assert(self.processes@.subrange(0, i + 1) =~= self.processes@.subrange(
                    0,
                    i as int,
                ).push(id));
                assert(ids@ =~= self.processes@.subrange(0, i + 1).map_values(
                    |p: ObjectId| p as i32,
                ));
            }
            i = i + 1;
        }
        proof {
            assert(self.processes@.subrange(0, i as int) =~= self.processes@);
        }
        let AudioTapDescriptionBuilder { name, processes: _, mono, exclusive, mixdown, private, .. } =
            self;
        Ok(AudioTapDescription { name, processes: ids, private, mixdown, mono, exclusive })
    }
}

impl AudioTapDescription {
    /// Human readable name of the tap.
    pub fn name(&self) -> (r: &String)
        ensures
            r@ == self@.name,
    {
        &self.name
    }

    /// The process objects, as the signed numbers the host API takes.
    pub fn processes(&self) -> (r: &Vec<i32>)
        ensures
            r@ == self@.processes,
    {
        &self.processes
    }

    pub fn private(&self) -> (r: bool)
        ensures
            r == self@.private,
    {
        self.private
    }

    pub fn mixdown(&self) -> (r: bool)
        ensures
            r == self@.mixdown,
    {
        self.mixdown
    }

    pub fn mono(&self) -> (r: bool)
        ensures
            r == self@.mono,
    {
        self.mono
    }

    pub fn exclusive(&self) -> (r: bool)
        ensures
            r == self@.exclusive,
    {
        self.exclusive
    }
}

/// A created process tap.
#[derive(Debug)]
pub struct AudioTap {
    audio_object_id: ObjectId,
}

impl View for AudioTap {
    type V = ObjectId;

    closed spec fn view(&self) -> ObjectId {
        self.audio_object_id
    }
}

impl AudioTap {
    /// The tap returned by a creation call that gave `status` and the object
    /// `audio_object_id`.
    pub fn from_creation(status: OSStatus, audio_object_id: ObjectId) -> (r: Result<AudioTap, AudioError>)
        ensures
            r is Ok <==> status == K_AUDIO_HARDWARE_NO_ERROR,
            r is Ok ==> r->Ok_0@ == audio_object_id,
            r is Err ==> is_hardware_error(r->Err_0, CREATE_PROCESS_TAP_FAIL@, status),
    {
        match check_status(CREATE_PROCESS_TAP_FAIL, status) {
            Ok(()) => Ok(AudioTap { audio_object_id }),
            Err(e) => Err(e),
        }
    }

    /// The tap's object.
    pub fn id(&self) -> (r: ObjectId)
        ensures
            r == self@,
    {
        self.audio_object_id
    }

    /// Ends the handle; gives the tap to destroy. Taking the handle by value
    /// leaves nothing to destroy it a second time or use it afterwards.
    pub fn teardown(self) -> (r: ObjectId)
        ensures
            r == self@,
    {
        self.audio_object_id
    }
}

} // verus!
