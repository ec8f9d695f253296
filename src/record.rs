//! Rules of recording a tapped process to files: one file per stream of the
//! aggregate device, and the status each audio cycle reports.

use vstd::prelude::*;

use crate::error::{append_decimal, decimal};
use crate::rserror::RsError;
use crate::status::{OSStatus, K_AUDIO_HARDWARE_ILLEGAL_OPERATION_ERROR, K_AUDIO_HARDWARE_NO_ERROR};

verus! {

pub const DEFAULT_FILE_NAME: &'static str = "resound";
pub const NO_STREAM: &'static str = "创建的临时aggregate device没有stream";

/// Bytes of one sample: samples are 32-bit floating-point numbers.
pub const SAMPLE_SIZE: u32 = 4;

/// Name of the file that records stream `i`.
pub open spec fn recording_file_name_of(i: nat) -> Seq<char> {
    DEFAULT_FILE_NAME@ + "-"@ + decimal(i) + ".caf"@
}

/// Name of the file that records stream `i`.
pub fn recording_file_name(i: usize) -> (r: String)
    ensures
        r@ == recording_file_name_of(i as nat),
{
    let mut name = String::from_str(DEFAULT_FILE_NAME);
    name.append("-");
    append_decimal(&mut name, i as u64);
    name.append(".caf");
    assert(name@ =~= recording_file_name_of(i as nat));
    name
}

/// A recording needs at least one stream to write.
pub fn ensure_streams(count: usize) -> (r: Result<(), RsError>)
    ensures
        r is Ok <==> count > 0,
        r is Err ==> r->Err_0.msg@ == NO_STREAM@,
{
    if count == 0 {
        Err(RsError::with_msg(NO_STREAM))
    } else {
        Ok(())
    }
}

/// Frames in a buffer of `data_byte_size` bytes holding `channels`
/// interleaved channels.
pub fn frames_to_record(data_byte_size: u32, channels: u32) -> (r: u32)
    requires
        0 < channels,
        channels * SAMPLE_SIZE <= u32::MAX,
    ensures
        r as int == data_byte_size as int / (channels as int * SAMPLE_SIZE as int),
{
    data_byte_size / (channels * SAMPLE_SIZE)
}

/// Status of an audio cycle whose buffer writes succeeded as `writes_ok`
/// says: success only if every write succeeded.
pub fn io_cycle_status(writes_ok: &Vec<bool>) -> (r: OSStatus)
    ensures
        r == (if forall|i: int| 0 <= i < writes_ok@.len() ==> #[trigger] writes_ok@[i] {
            K_AUDIO_HARDWARE_NO_ERROR
        } else {
            K_AUDIO_HARDWARE_ILLEGAL_OPERATION_ERROR
        }),
{
    let mut all_success = true;
    let mut i: usize = 0;
    while i < writes_ok.len()
        invariant
            i <= writes_ok@.len(),
            all_success == forall|k: int| 0 <= k < i ==> #[trigger] writes_ok@[k],
        decreases writes_ok@.len() - i,
    {
        if !writes_ok[i] {
            all_success = false;
        }
        i = i + 1;
    }
    if all_success {
        K_AUDIO_HARDWARE_NO_ERROR
    } else {
        K_AUDIO_HARDWARE_ILLEGAL_OPERATION_ERROR
    }
}

} // verus!
