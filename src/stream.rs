//! Streams of a device, each with its format resolved on first use.

use vstd::prelude::*;

use crate::cache::{get_or_try_init, lookup, needs_query, owned_result, OnceSlot};
use crate::error::AudioError;
use crate::property::ObjectId;

verus! {

pub const QUERY_STREAM_FORMAT_FAIL: &'static str = "query stream basic description fail";

/// The format of a stream, field for field as the host API reports it. The
/// sample rate is carried as the bit pattern of its 64-bit floating-point
/// value.
#[derive(Debug, Clone, Copy, PartialEq, Eq, Structural)]
pub struct StreamFormat {
    pub sample_rate_bits: u64,
    pub format_id: u32,
    pub format_flags: u32,
    pub bytes_per_packet: u32,
    pub frames_per_packet: u32,
    pub bytes_per_frame: u32,
    pub channels_per_frame: u32,
    pub bits_per_channel: u32,
    pub reserved: u32,
}

/// A stream exposed by a device.
#[derive(Debug)]
pub struct AudioStream {
    audio_stream_id: ObjectId,
    basic_description: OnceSlot<StreamFormat>,
}

/// What a stream record holds: its object and its format, if already
/// resolved.
pub struct StreamView {
    pub id: ObjectId,
    pub format: Option<StreamFormat>,
}

impl View for AudioStream {
    type V = StreamView;

    closed spec fn view(&self) -> StreamView {
        StreamView { id: self.audio_stream_id, format: self.basic_description@ }
    }
}

impl AudioStream {
    /// A stream record with nothing resolved yet.
    pub fn from_id(id: ObjectId) -> (r: AudioStream)
        ensures
            r@.id == id,
            r@.format is None,
    {
        AudioStream { audio_stream_id: id, basic_description: OnceSlot::new() }
    }

    /// The stream object.
    pub fn get_id(&self) -> (r: ObjectId)
        ensures
            r == self@.id,
    {
        self.audio_stream_id
    }

    /// The stream's format; `query` reads it from the stream object and runs
    /// only if it was not resolved before.
    pub fn get_basic_description<F>(&mut self, query: F) -> (r: Result<&StreamFormat, AudioError>) where
        F: FnOnce(ObjectId) -> Result<StreamFormat, AudioError>,

        requires
            needs_query(old(self)@.format) ==> query.requires((old(self)@.id,)),
        ensures
            final(self)@.id == old(self)@.id,
            !needs_query(old(self)@.format) ==> forall|fetched: Result<StreamFormat, AudioError>|
                #[trigger] lookup(old(self)@.format, fetched) == (final(self)@.format, owned_result(r)),
            needs_query(old(self)@.format) ==> exists|fetched: Result<StreamFormat, AudioError>|
                #[trigger] query.ensures((old(self)@.id,), fetched) && lookup(
                    old(self)@.format,
                    fetched,
                ) == (final(self)@.format, owned_result(r)),
    {
        let id = self.audio_stream_id;
        let fetch = move || -> (fetched: Result<StreamFormat, AudioError>)
            requires
                query.requires((id,)),
            ensures
                query.ensures((id,), fetched),
        {
            query(id)
        };
        get_or_try_init(&mut self.basic_description, fetch)
    }
}

/// A record for each stream object, in order, with nothing resolved yet.
pub fn streams_from_ids(ids: Vec<ObjectId>) -> (r: Vec<AudioStream>)
    ensures
        r@.len() == ids@.len(),
        forall|i: int|
            0 <= i < ids@.len() ==> (#[trigger] r@[i])@.id == ids@[i] && r@[i]@.format is None,
{
    let mut r: Vec<AudioStream> = Vec::new();
    let mut i: usize = 0;
    while i < ids.len()
        invariant
            i <= ids@.len(),
            r@.len() == i,
            forall|k: int| 0 <= k < i ==> (#[trigger] r@[k])@.id == ids@[k] && r@[k]@.format is None,
        decreases ids@.len() - i,
    {
        r.push(AudioStream::from_id(ids[i]));
        i = i + 1;
    }
    r
}

} // verus!
