//! UEFI status codes.
//!
//! A status code is a native-width unsigned value whose top bit is reserved as
//! the error flag: value `0` is success, values with the high bit set are
//! errors, and nonzero values with the high bit clear are warnings. The only
//! behavioural contract of this module is bit-exact value reproduction;
//! classification is expressed as specification predicates
//! ([`spec_is_error`], [`spec_is_warning`], [`spec_is_success`]) so that the
//! contracts of the protocol operations can name the class a returned code
//! belongs to, and [`lemma_status_classification`] proves that every constant
//! falls in the class its name denotes.

use vstd::prelude::*;

use crate::types::EFI_STATUS;

verus! {

/// The reserved high bit of a status code, set on errors and clear on success
/// and warnings: the power of two just above half the native range, whatever
/// the native width. A code has this bit set exactly when it is at least this
/// value, and combining it with a small code number is plain addition, so the
/// constants and predicates below are stated arithmetically.
pub const ERROR_BIT: EFI_STATUS = usize::MAX / 2 + 1;

/// The operation completed successfully.
pub const EFI_SUCCESS: EFI_STATUS = 0;

/// The image failed to load.
pub const EFI_LOAD_ERROR: EFI_STATUS = ERROR_BIT + 1;
/// A parameter was incorrect.
pub const EFI_INVALID_PARAMETER: EFI_STATUS = ERROR_BIT + 2;
/// The operation is not supported.
pub const EFI_UNSUPPORTED: EFI_STATUS = ERROR_BIT + 3;
/// The buffer was not the proper size for the request.
pub const EFI_BAD_BUFFER_SIZE: EFI_STATUS = ERROR_BIT + 4;
/// The buffer is not large enough to hold the requested data.
pub const EFI_BUFFER_TOO_SMALL: EFI_STATUS = ERROR_BIT + 5;
/// There is no data pending upon return.
pub const EFI_NOT_READY: EFI_STATUS = ERROR_BIT + 6;
/// The physical device reported an error while attempting the operation.
pub const EFI_DEVICE_ERROR: EFI_STATUS = ERROR_BIT + 7;
/// The device cannot be written to.
pub const EFI_WRITE_PROTECTED: EFI_STATUS = ERROR_BIT + 8;
/// A resource has run out.
pub const EFI_OUT_OF_RESOURCES: EFI_STATUS = ERROR_BIT + 9;
/// An inconsistency was detected on the file system.
pub const EFI_VOLUME_CORRUPTED: EFI_STATUS = ERROR_BIT + 10;
/// There is no more space on the file system.
pub const EFI_VOLUME_FULL: EFI_STATUS = ERROR_BIT + 11;
/// The device does not contain any medium to perform the operation.
pub const EFI_NO_MEDIA: EFI_STATUS = ERROR_BIT + 12;
/// The medium in the device has changed since the last access.
pub const EFI_MEDIA_CHANGED: EFI_STATUS = ERROR_BIT + 13;
/// The item was not found.
pub const EFI_NOT_FOUND: EFI_STATUS = ERROR_BIT + 14;
/// Access was denied.
pub const EFI_ACCESS_DENIED: EFI_STATUS = ERROR_BIT + 15;
/// The server was not found or did not respond to the request.
pub const EFI_NO_RESPONSE: EFI_STATUS = ERROR_BIT + 16;
/// A mapping to a device does not exist.
pub const EFI_NO_MAPPING: EFI_STATUS = ERROR_BIT + 17;
/// The timeout time expired.
pub const EFI_TIMEOUT: EFI_STATUS = ERROR_BIT + 18;
/// The protocol has not been started.
pub const EFI_NOT_STARTED: EFI_STATUS = ERROR_BIT + 19;
/// The protocol has already been started.
pub const EFI_ALREADY_STARTED: EFI_STATUS = ERROR_BIT + 20;
/// The operation was aborted.
pub const EFI_ABORTED: EFI_STATUS = ERROR_BIT + 21;
/// An ICMP error occurred during the network operation.
pub const EFI_ICMP_ERROR: EFI_STATUS = ERROR_BIT + 22;
/// A TFTP error occurred during the network operation.
pub const EFI_TFTP_ERROR: EFI_STATUS = ERROR_BIT + 23;
/// A protocol error occurred during the network operation.
pub const EFI_PROTOCOL_ERROR: EFI_STATUS = ERROR_BIT + 24;
/// The function encountered an internal version that was incompatible with a
/// version requested by the caller.
pub const EFI_INCOMPATIBLE_VERSION: EFI_STATUS = ERROR_BIT + 25;
/// The function was not performed due to a security violation.
pub const EFI_SECURITY_VIOLATION: EFI_STATUS = ERROR_BIT + 26;
/// A CRC error was detected.
pub const EFI_CRC_ERROR: EFI_STATUS = ERROR_BIT + 27;
/// Beginning or end of media was reached.
pub const EFI_END_OF_MEDIA: EFI_STATUS = ERROR_BIT + 28;
/// The end of the file was reached.
pub const EFI_END_OF_FILE: EFI_STATUS = ERROR_BIT + 31;
/// The language specified was invalid.
pub const EFI_INVALID_LANGUAGE: EFI_STATUS = ERROR_BIT + 32;
/// The security status of the data is unknown or compromised.
pub const EFI_COMPROMISED_DATA: EFI_STATUS = ERROR_BIT + 33;
/// There is an address conflict in address allocation.
pub const EFI_IP_ADDRESS_CONFLICT: EFI_STATUS = ERROR_BIT + 34;
/// A HTTP error occurred during the network operation.
pub const EFI_HTTP_ERROR: EFI_STATUS = ERROR_BIT + 35;

/// The string contained one or more characters that the device could not render
/// and were skipped.
pub const EFI_WARN_UNKNOWN_GLYPH: EFI_STATUS = 1;
/// The handle was closed, but the file was not deleted.
pub const EFI_WARN_DELETE_FAILURE: EFI_STATUS = 2;
/// The handle was closed, but the data to the file was not flushed properly.
pub const EFI_WARN_WRITE_FAILURE: EFI_STATUS = 3;
/// The resulting buffer was too small, and the data was truncated to the buffer
/// size.
pub const EFI_WARN_BUFFER_TOO_SMALL: EFI_STATUS = 4;
/// The data has not been updated within the timeframe set by local policy for
/// this type of data.
pub const EFI_WARN_STALE_DATA: EFI_STATUS = 5;
/// The resulting buffer contains UEFI-compliant file system.
pub const EFI_WARN_FILE_SYSTEM: EFI_STATUS = 6;
/// The operation will be processed across a system reset.
pub const EFI_WARN_RESET_REQUIRED: EFI_STATUS = 7;

/// The status denotes success: the all-zero pattern.
pub open spec fn spec_is_success(s: EFI_STATUS) -> bool {
    s == 0
}

/// The status denotes an error: the high bit is set, that is, the value lies
/// in the upper half of the native range.
pub open spec fn spec_is_error(s: EFI_STATUS) -> bool {
    s >= ERROR_BIT
}

/// The status denotes a warning: nonzero with the high bit clear.
pub open spec fn spec_is_warning(s: EFI_STATUS) -> bool {
    0 < s < ERROR_BIT
}

/// Every status constant lies in the class its name denotes: success is the
/// all-zero pattern, every error constant has the high bit set, and every
/// warning constant is a small positive value with the high bit clear.
pub proof fn lemma_status_classification()
    ensures
        spec_is_success(EFI_SUCCESS),
        spec_is_error(EFI_LOAD_ERROR),
        spec_is_error(EFI_INVALID_PARAMETER),
        spec_is_error(EFI_UNSUPPORTED),
        spec_is_error(EFI_BAD_BUFFER_SIZE),
        spec_is_error(EFI_BUFFER_TOO_SMALL),
        spec_is_error(EFI_NOT_READY),
        spec_is_error(EFI_DEVICE_ERROR),
        spec_is_error(EFI_WRITE_PROTECTED),
        spec_is_error(EFI_OUT_OF_RESOURCES),
        spec_is_error(EFI_VOLUME_CORRUPTED),
        spec_is_error(EFI_VOLUME_FULL),
        spec_is_error(EFI_NO_MEDIA),
        spec_is_error(EFI_MEDIA_CHANGED),
        spec_is_error(EFI_NOT_FOUND),
        spec_is_error(EFI_ACCESS_DENIED),
        spec_is_error(EFI_NO_RESPONSE),
        spec_is_error(EFI_NO_MAPPING),
        spec_is_error(EFI_TIMEOUT),
        spec_is_error(EFI_NOT_STARTED),
        spec_is_error(EFI_ALREADY_STARTED),
        spec_is_error(EFI_ABORTED),
        spec_is_error(EFI_ICMP_ERROR),
        spec_is_error(EFI_TFTP_ERROR),
        spec_is_error(EFI_PROTOCOL_ERROR),
        spec_is_error(EFI_INCOMPATIBLE_VERSION),
        spec_is_error(EFI_SECURITY_VIOLATION),
        spec_is_error(EFI_CRC_ERROR),
        spec_is_error(EFI_END_OF_MEDIA),
        spec_is_error(EFI_END_OF_FILE),
        spec_is_error(EFI_INVALID_LANGUAGE),
        spec_is_error(EFI_COMPROMISED_DATA),
        spec_is_error(EFI_IP_ADDRESS_CONFLICT),
        spec_is_error(EFI_HTTP_ERROR),
        spec_is_warning(EFI_WARN_UNKNOWN_GLYPH) && EFI_WARN_UNKNOWN_GLYPH < 0x100,
        spec_is_warning(EFI_WARN_DELETE_FAILURE) && EFI_WARN_DELETE_FAILURE < 0x100,
        spec_is_warning(EFI_WARN_WRITE_FAILURE) && EFI_WARN_WRITE_FAILURE < 0x100,
        spec_is_warning(EFI_WARN_BUFFER_TOO_SMALL) && EFI_WARN_BUFFER_TOO_SMALL < 0x100,
        spec_is_warning(EFI_WARN_STALE_DATA) && EFI_WARN_STALE_DATA < 0x100,
        spec_is_warning(EFI_WARN_FILE_SYSTEM) && EFI_WARN_FILE_SYSTEM < 0x100,
        spec_is_warning(EFI_WARN_RESET_REQUIRED) && EFI_WARN_RESET_REQUIRED < 0x100,
{
}

/// An error and a warning never share a value, and neither is ever the success
/// value: the high bit and zero separate the three classes.
pub proof fn lemma_status_classes_disjoint(s: EFI_STATUS)
    ensures
        spec_is_success(s) ==> !spec_is_error(s) && !spec_is_warning(s),
        spec_is_error(s) ==> !spec_is_success(s) && !spec_is_warning(s),
        spec_is_warning(s) ==> !spec_is_success(s) && !spec_is_error(s),
        spec_is_success(s) || spec_is_error(s) || spec_is_warning(s),
{
}

} // verus!
