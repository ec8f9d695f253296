//! Property queries: which attribute of an object is asked for, and how the
//! answers of the hardware API become typed values.
//!
//! A list property is read in two calls: one that reports its size in bytes,
//! and one that fills a buffer sized from that report and returns the size it
//! actually wrote, which may differ since the hardware state can change
//! between the calls.

use vstd::prelude::*;

use crate::error::{check_status, is_hardware_error, AudioError};
use crate::status::{
    err_msg_hardware_status, OSStatus, K_AUDIO_HARDWARE_BAD_PROPERTY_SIZE_ERROR,
    K_AUDIO_HARDWARE_NO_ERROR,
};

verus! {

/// Identifier of an object of the hardware API: a process, device, stream,
/// tap or aggregate device.
pub type ObjectId = u32;

/// The object that stands for the whole audio system.
pub const K_AUDIO_OBJECT_SYSTEM_OBJECT: ObjectId = 1;

/// Selector `prs#`: the processes that produce audio.
pub const K_AUDIO_HARDWARE_PROPERTY_PROCESS_OBJECT_LIST: u32 = 1886548771;
/// Selector `pbid`: bundle identifier of a process.
pub const K_AUDIO_PROCESS_PROPERTY_BUNDLE_ID: u32 = 1885497700;
/// Selector `stm#`: the streams of a device.
pub const K_AUDIO_DEVICE_PROPERTY_STREAMS: u32 = 1937009955;
/// Selector `sfmt`: the format of a stream as its device sees it.
pub const K_AUDIO_STREAM_PROPERTY_VIRTUAL_FORMAT: u32 = 1936092532;
/// Selector `tuid`: the UID of a tap.
pub const K_AUDIO_TAP_PROPERTY_UID: u32 = 1953851748;
/// Scope `glob`: the property as a whole.
pub const K_AUDIO_OBJECT_PROPERTY_SCOPE_GLOBAL: u32 = 1735159650;
/// The main element of a property.
pub const K_AUDIO_OBJECT_PROPERTY_ELEMENT_MAIN: u32 = 0;

pub const GET_PROPERTY_SIZE_FAIL: &'static str = "get property size fail";
pub const GET_LIST_PROPERTY_DATA_FAIL: &'static str = "get list property data fail";
pub const GET_STRING_PROPERTY_DATA_FAIL: &'static str = "get string property data fail";

/// Selects one queryable attribute of an object.
#[derive(Debug, Clone, Copy, PartialEq, Eq, Structural)]
pub struct PropertyAddress {
    pub selector: u32,
    pub scope: u32,
    pub element: u32,
}

/// The address of a property in the global scope, main element.
pub fn build_property_address(selector: u32) -> (r: PropertyAddress)
    ensures
        r == (PropertyAddress {
            selector,
            scope: K_AUDIO_OBJECT_PROPERTY_SCOPE_GLOBAL,
            element: K_AUDIO_OBJECT_PROPERTY_ELEMENT_MAIN,
        }),
{
    build_property_address_all(
        selector,
        K_AUDIO_OBJECT_PROPERTY_SCOPE_GLOBAL,
        K_AUDIO_OBJECT_PROPERTY_ELEMENT_MAIN,
    )
}

/// The address of a property in a given scope and element.
pub fn build_property_address_all(selector: u32, scope: u32, element: u32) -> (r: PropertyAddress)
    ensures
        r == (PropertyAddress { selector, scope, element }),
{
    PropertyAddress { selector, scope, element }
}

/// The result of a size query that returned `status` and reported `size`
/// bytes.
pub fn get_property_data_size(status: OSStatus, size: u32) -> (r: Result<u32, AudioError>)
    ensures
        r is Ok <==> status == K_AUDIO_HARDWARE_NO_ERROR,
        r is Ok ==> r->Ok_0 == size,
        r is Err ==> is_hardware_error(r->Err_0, GET_PROPERTY_SIZE_FAIL@, status),
{
    match check_status(GET_PROPERTY_SIZE_FAIL, status) {
        Ok(()) => Ok(size),
        Err(e) => Err(e),
    }
}

/// How many elements of `T` a property of `size` bytes holds.
pub fn list_len_for_size<T>(size: u32) -> (r: usize)
    requires
        vstd::layout::size_of::<T>() > 0,
    ensures
        r == size as nat / vstd::layout::size_of::<T>(),
{
    size as usize / core::mem::size_of::<T>()
}

/// The list fetched into `buffer` by a call that returned `status` and wrote
/// `fetched_size` bytes: the first `fetched_size / size_of::<T>()` elements.
/// None at all is a valid answer. A size beyond the buffer is reported as a
/// bad property size.
pub fn get_property_data_list<T>(status: OSStatus, fetched_size: u32, buffer: Vec<T>) -> (r: Result<
    Vec<T>,
    AudioError,
>)
    requires
        vstd::layout::size_of::<T>() > 0,
    ensures
        r is Ok <==> status == K_AUDIO_HARDWARE_NO_ERROR && fetched_size as nat
            / vstd::layout::size_of::<T>() <= buffer@.len(),
        r is Ok ==> r->Ok_0@ == buffer@.subrange(
            0,
            (fetched_size as nat / vstd::layout::size_of::<T>()) as int,
        ),
        status != K_AUDIO_HARDWARE_NO_ERROR ==> is_hardware_error(
            r->Err_0,
            GET_LIST_PROPERTY_DATA_FAIL@,
            status,
        ),
        status == K_AUDIO_HARDWARE_NO_ERROR && r is Err ==> is_hardware_error(
            r->Err_0,
            GET_LIST_PROPERTY_DATA_FAIL@,
            K_AUDIO_HARDWARE_BAD_PROPERTY_SIZE_ERROR,
        ),
{
    if let Err(e) = check_status(GET_LIST_PROPERTY_DATA_FAIL, status) {
        return Err(e);
    }
    let len = list_len_for_size::<T>(fetched_size);
    if len > buffer.len() {
        return Err(
            AudioError::with_status_msg(
                GET_LIST_PROPERTY_DATA_FAIL,
                err_msg_hardware_status(K_AUDIO_HARDWARE_BAD_PROPERTY_SIZE_ERROR),
                K_AUDIO_HARDWARE_BAD_PROPERTY_SIZE_ERROR,
            ),
        );
    }
    let mut list = buffer;
    list.truncate(len);
    Ok(list)
}

} // verus!
