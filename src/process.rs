//! Processes that produce audio, each with its bundle identifier resolved
//! on first use.

use vstd::prelude::*;

use crate::cache::{get_or_try_init, lookup, needs_query, owned_result, OnceSlot};
use crate::error::AudioError;
use crate::property::ObjectId;

verus! {

/// A process capable of producing audio.
#[derive(Debug)]
pub struct AudioProcess {
    id: ObjectId,
    bundle_id: OnceSlot<String>,
}

/// What a process record holds: its object and its bundle identifier, if
/// already resolved.
pub struct ProcessView {
    pub id: ObjectId,
    pub bundle_id: Option<String>,
}

impl View for AudioProcess {
    type V = ProcessView;

    closed spec fn view(&self) -> ProcessView {
        ProcessView { id: self.id, bundle_id: self.bundle_id@ }
    }
}

impl AudioProcess {
    /// A process record with nothing resolved yet.
    pub fn from_id(id: ObjectId) -> (r: AudioProcess)
        ensures
            r@.id == id,
            r@.bundle_id is None,
    {
        AudioProcess { id, bundle_id: OnceSlot::new() }
    }

    /// The process object.
    pub fn get_id(&self) -> (r: ObjectId)
        ensures
            r == self@.id,
    {
        self.id
    }

    /// The bundle identifier; `query` reads it from the process object and
    /// runs only if it was not resolved before.
    pub fn get_bundle_id<F>(&mut self, query: F) -> (r: Result<&String, AudioError>) where
        F: FnOnce(ObjectId) -> Result<String, AudioError>,

        requires
            needs_query(old(self)@.bundle_id) ==> query.requires((old(self)@.id,)),
        ensures
            final(self)@.id == old(self)@.id,
            !needs_query(old(self)@.bundle_id) ==> forall|fetched: Result<String, AudioError>|
                #[trigger] lookup(old(self)@.bundle_id, fetched) == (
                    final(self)@.bundle_id,
                    owned_result(r),
                ),
            needs_query(old(self)@.bundle_id) ==> exists|fetched: Result<String, AudioError>|
                #[trigger] query.ensures((old(self)@.id,), fetched) && lookup(
                    old(self)@.bundle_id,
                    fetched,
                ) == (final(self)@.bundle_id, owned_result(r)),
    {
        let id = self.id;
        let fetch = move || -> (fetched: Result<String, AudioError>)
            requires
                query.requires((id,)),
            ensures
                query.ensures((id,), fetched),
        {
            query(id)
        };
        get_or_try_init(&mut self.bundle_id, fetch)
    }
}

/// A record for each process object, in order, with nothing resolved yet.
pub fn processes_from_ids(ids: Vec<ObjectId>) -> (r: Vec<AudioProcess>)
    ensures
        r@.len() == ids@.len(),
        forall|i: int|
            0 <= i < ids@.len() ==> (#[trigger] r@[i])@.id == ids@[i] && r@[i]@.bundle_id is None,
{
    let mut r: Vec<AudioProcess> = Vec::new();
    let mut i: usize = 0;
    while i < ids.len()
        invariant
            i <= ids@.len(),
            r@.len() == i,
            forall|k: int| 0 <= k < i ==> (#[trigger] r@[k])@.id == ids@[k] && r@[k]@.bundle_id is None,
        decreases ids@.len() - i,
    {
        r.push(AudioProcess::from_id(ids[i]));
        i = i + 1;
    }
    r
}

} // verus!
