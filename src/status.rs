//! Status codes of the audio hardware API and their translation.

use vstd::prelude::*;

verus! {

/// Status returned by every call of the hardware API.
pub type OSStatus = i32;

pub const K_AUDIO_HARDWARE_NO_ERROR: OSStatus = 0;
pub const K_AUDIO_HARDWARE_NOT_RUNNING_ERROR: OSStatus = 1937010544;
pub const K_AUDIO_HARDWARE_UNSPECIFIED_ERROR: OSStatus = 2003329396;
pub const K_AUDIO_HARDWARE_UNKNOWN_PROPERTY_ERROR: OSStatus = 2003332927;
pub const K_AUDIO_HARDWARE_BAD_PROPERTY_SIZE_ERROR: OSStatus = 561211770;
pub const K_AUDIO_HARDWARE_ILLEGAL_OPERATION_ERROR: OSStatus = 1852797029;
pub const K_AUDIO_HARDWARE_BAD_OBJECT_ERROR: OSStatus = 560947818;
pub const K_AUDIO_HARDWARE_BAD_DEVICE_ERROR: OSStatus = 560227702;
pub const K_AUDIO_HARDWARE_BAD_STREAM_ERROR: OSStatus = 561214578;
pub const K_AUDIO_HARDWARE_UNSUPPORTED_OPERATION_ERROR: OSStatus = 1970171760;
pub const K_AUDIO_HARDWARE_NOT_READY_ERROR: OSStatus = 1852990585;
pub const K_AUDIO_DEVICE_UNSUPPORTED_FORMAT_ERROR: OSStatus = 560226676;
pub const K_AUDIO_DEVICE_PERMISSIONS_ERROR: OSStatus = 560492391;

/// The human-readable explanation of a status code.
pub open spec fn status_message(status: OSStatus) -> Seq<char> {
    if status == K_AUDIO_HARDWARE_NO_ERROR {
        "The function call completed successfully.[kAudioHardwareNoError: 0]"@
    } else if status == K_AUDIO_HARDWARE_NOT_RUNNING_ERROR {
        "The function call requires that the hardware be running but it isn't.[kAudioHardwareNotRunningError: stop]"@
    } else if status == K_AUDIO_HARDWARE_UNSPECIFIED_ERROR {
        "The function call failed while doing something that doesn't provide any error messages.[kAudioHardwareUnspecifiedError: what]"@
    } else if status == K_AUDIO_HARDWARE_UNKNOWN_PROPERTY_ERROR {
        "The AudioObject doesn't know about the property at the given address.[kAudioHardwareUnknownPropertyError: who?]"@
    } else if status == K_AUDIO_HARDWARE_BAD_PROPERTY_SIZE_ERROR {
        "An improperly sized buffer was provided when accessing the data of a property.[kAudioHardwareBadPropertySizeError: !siz]"@
    } else if status == K_AUDIO_HARDWARE_ILLEGAL_OPERATION_ERROR {
        "The requested operation couldn't be completed.[kAudioHardwareIllegalOperationError: nope]"@
    } else if status == K_AUDIO_HARDWARE_BAD_OBJECT_ERROR {
        "The AudioObjectID passed to the function doesn't map to a valid AudioObject.[kAudioHardwareBadObjectError: !obj]"@
    } else if status == K_AUDIO_HARDWARE_BAD_DEVICE_ERROR {
        "The AudioObjectID passed to the function doesn't map to a valid AudioDevice.[kAudioHardwareBadDeviceError: !dev]"@
    } else if status == K_AUDIO_HARDWARE_BAD_STREAM_ERROR {
        "The AudioObjectID passed to the function doesn't map to a valid AudioStream.[kAudioHardwareBadStreamError: !str]"@
    } else if status == K_AUDIO_HARDWARE_UNSUPPORTED_OPERATION_ERROR {
        "The AudioObject isn't ready to do the requested operation.[kAudioHardwareUnsupportedOperationError: unop]"@
    } else if status == K_AUDIO_HARDWARE_NOT_READY_ERROR {
        "The AudioObject isn't ready to do the requested operation[kAudioHardwareNotReadyError: nrdy]"@
    } else if status == K_AUDIO_DEVICE_UNSUPPORTED_FORMAT_ERROR {
        "The AudioStream doesn't support the requested format.[kAudioDeviceUnsupportedFormatError: !dat]"@
    } else if status == K_AUDIO_DEVICE_PERMISSIONS_ERROR {
        "The requested operation can't be completed because the process doesn't have permission.[kAudioDevicePermissionsError: !hog]"@
    } else {
        "unknow error[unknow: null]"@
    }
}

/// Translates a status code into its explanation; codes outside the catalog
/// are reported as an unknown error.
pub fn err_msg_hardware_status(status: OSStatus) -> (r: &'static str)
    ensures
        r@ == status_message(status),
{
    if status == K_AUDIO_HARDWARE_NO_ERROR {
        "The function call completed successfully.[kAudioHardwareNoError: 0]"
    } else if status == K_AUDIO_HARDWARE_NOT_RUNNING_ERROR {
        "The function call requires that the hardware be running but it isn't.[kAudioHardwareNotRunningError: stop]"
    } else if status == K_AUDIO_HARDWARE_UNSPECIFIED_ERROR {
        "The function call failed while doing something that doesn't provide any error messages.[kAudioHardwareUnspecifiedError: what]"
    } else if status == K_AUDIO_HARDWARE_UNKNOWN_PROPERTY_ERROR {
        "The AudioObject doesn't know about the property at the given address.[kAudioHardwareUnknownPropertyError: who?]"
    } else if status == K_AUDIO_HARDWARE_BAD_PROPERTY_SIZE_ERROR {
        "An improperly sized buffer was provided when accessing the data of a property.[kAudioHardwareBadPropertySizeError: !siz]"
    } else if status == K_AUDIO_HARDWARE_ILLEGAL_OPERATION_ERROR {
        "The requested operation couldn't be completed.[kAudioHardwareIllegalOperationError: nope]"
    } else if status == K_AUDIO_HARDWARE_BAD_OBJECT_ERROR {
        "The AudioObjectID passed to the function doesn't map to a valid AudioObject.[kAudioHardwareBadObjectError: !obj]"
    } else if status == K_AUDIO_HARDWARE_BAD_DEVICE_ERROR {
        "The AudioObjectID passed to the function doesn't map to a valid AudioDevice.[kAudioHardwareBadDeviceError: !dev]"
    } else if status == K_AUDIO_HARDWARE_BAD_STREAM_ERROR {
        "The AudioObjectID passed to the function doesn't map to a valid AudioStream.[kAudioHardwareBadStreamError: !str]"
    } else if status == K_AUDIO_HARDWARE_UNSUPPORTED_OPERATION_ERROR {
        "The AudioObject isn't ready to do the requested operation.[kAudioHardwareUnsupportedOperationError: unop]"
    } else if status == K_AUDIO_HARDWARE_NOT_READY_ERROR {
        "The AudioObject isn't ready to do the requested operation[kAudioHardwareNotReadyError: nrdy]"
    } else if status == K_AUDIO_DEVICE_UNSUPPORTED_FORMAT_ERROR {
        "The AudioStream doesn't support the requested format.[kAudioDeviceUnsupportedFormatError: !dat]"
    } else if status == K_AUDIO_DEVICE_PERMISSIONS_ERROR {
        "The requested operation can't be completed because the process doesn't have permission.[kAudioDevicePermissionsError: !hog]"
    } else {
        "unknow error[unknow: null]"
    }
}

} // verus!
