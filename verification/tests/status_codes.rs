use rawuefi::status::EFI_ABORTED;
use rawuefi::status::EFI_ACCESS_DENIED;
use rawuefi::status::EFI_ALREADY_STARTED;
use rawuefi::status::EFI_BAD_BUFFER_SIZE;
use rawuefi::status::EFI_BUFFER_TOO_SMALL;
use rawuefi::status::EFI_COMPROMISED_DATA;
use rawuefi::status::EFI_CRC_ERROR;
use rawuefi::status::EFI_DEVICE_ERROR;
use rawuefi::status::EFI_END_OF_FILE;
use rawuefi::status::EFI_END_OF_MEDIA;
use rawuefi::status::EFI_HTTP_ERROR;
use rawuefi::status::EFI_ICMP_ERROR;
use rawuefi::status::EFI_INCOMPATIBLE_VERSION;
use rawuefi::status::EFI_INVALID_LANGUAGE;
use rawuefi::status::EFI_INVALID_PARAMETER;
use rawuefi::status::EFI_IP_ADDRESS_CONFLICT;
use rawuefi::status::EFI_LOAD_ERROR;
use rawuefi::status::EFI_MEDIA_CHANGED;
use rawuefi::status::EFI_NOT_FOUND;
use rawuefi::status::EFI_NOT_READY;
use rawuefi::status::EFI_NOT_STARTED;
use rawuefi::status::EFI_NO_MAPPING;
use rawuefi::status::EFI_NO_MEDIA;
use rawuefi::status::EFI_NO_RESPONSE;
use rawuefi::status::EFI_OUT_OF_RESOURCES;
use rawuefi::status::EFI_PROTOCOL_ERROR;
use rawuefi::status::EFI_SECURITY_VIOLATION;
use rawuefi::status::EFI_SUCCESS;
use rawuefi::status::EFI_TFTP_ERROR;
use rawuefi::status::EFI_TIMEOUT;
use rawuefi::status::EFI_UNSUPPORTED;
use rawuefi::status::EFI_VOLUME_CORRUPTED;
use rawuefi::status::EFI_VOLUME_FULL;
use rawuefi::status::EFI_WARN_BUFFER_TOO_SMALL;
use rawuefi::status::EFI_WARN_DELETE_FAILURE;
use rawuefi::status::EFI_WARN_FILE_SYSTEM;
use rawuefi::status::EFI_WARN_RESET_REQUIRED;
use rawuefi::status::EFI_WARN_STALE_DATA;
use rawuefi::status::EFI_WARN_UNKNOWN_GLYPH;
use rawuefi::status::EFI_WARN_WRITE_FAILURE;
use rawuefi::status::EFI_WRITE_PROTECTED;
use rawuefi::status::ERROR_BIT;
use rawuefi::types::EFI_STATUS;

const HIGH_BIT: usize = 1usize << (usize::BITS - 1);

#[test]
fn success_is_all_zero() {
    assert_eq!(EFI_SUCCESS, 0);
}

#[test]
fn error_bit_is_the_high_bit() {
    assert_eq!(ERROR_BIT, HIGH_BIT);
}

#[test]
fn every_error_constant_has_high_bit_set() {
    let errors: [EFI_STATUS; 33] = [
        EFI_LOAD_ERROR,
        EFI_INVALID_PARAMETER,
        EFI_UNSUPPORTED,
        EFI_BAD_BUFFER_SIZE,
        EFI_BUFFER_TOO_SMALL,
        EFI_NOT_READY,
        EFI_DEVICE_ERROR,
        EFI_WRITE_PROTECTED,
        EFI_OUT_OF_RESOURCES,
        EFI_VOLUME_CORRUPTED,
        EFI_VOLUME_FULL,
        EFI_NO_MEDIA,
        EFI_MEDIA_CHANGED,
        EFI_NOT_FOUND,
        EFI_ACCESS_DENIED,
        EFI_NO_RESPONSE,
        EFI_NO_MAPPING,
        EFI_TIMEOUT,
        EFI_NOT_STARTED,
        EFI_ALREADY_STARTED,
        EFI_ABORTED,
        EFI_ICMP_ERROR,
        EFI_TFTP_ERROR,
        EFI_PROTOCOL_ERROR,
        EFI_INCOMPATIBLE_VERSION,
        EFI_SECURITY_VIOLATION,
        EFI_CRC_ERROR,
        EFI_END_OF_MEDIA,
        EFI_END_OF_FILE,
        EFI_INVALID_LANGUAGE,
        EFI_COMPROMISED_DATA,
        EFI_IP_ADDRESS_CONFLICT,
        EFI_HTTP_ERROR,
    ];
    for s in errors {
        assert_ne!(s & HIGH_BIT, 0, "error constant {s:#x} must carry the high bit");
        assert_ne!(s, EFI_SUCCESS);
    }
}

#[test]
fn error_constants_carry_their_code_numbers() {
    assert_eq!(EFI_LOAD_ERROR, HIGH_BIT | 1);
    assert_eq!(EFI_INVALID_PARAMETER, HIGH_BIT | 2);
    assert_eq!(EFI_UNSUPPORTED, HIGH_BIT | 3);
    assert_eq!(EFI_NOT_READY, HIGH_BIT | 6);
    assert_eq!(EFI_DEVICE_ERROR, HIGH_BIT | 7);
    assert_eq!(EFI_OUT_OF_RESOURCES, HIGH_BIT | 9);
    assert_eq!(EFI_END_OF_MEDIA, HIGH_BIT | 28);
    assert_eq!(EFI_END_OF_FILE, HIGH_BIT | 31);
    assert_eq!(EFI_HTTP_ERROR, HIGH_BIT | 35);
}

#[test]
fn every_warning_constant_is_small_positive_with_high_bit_clear() {
    let warnings: [EFI_STATUS; 7] = [
        EFI_WARN_UNKNOWN_GLYPH,
        EFI_WARN_DELETE_FAILURE,
        EFI_WARN_WRITE_FAILURE,
        EFI_WARN_BUFFER_TOO_SMALL,
        EFI_WARN_STALE_DATA,
        EFI_WARN_FILE_SYSTEM,
        EFI_WARN_RESET_REQUIRED,
    ];
    for (i, s) in warnings.iter().enumerate() {
        assert_eq!(*s, i + 1);
        assert_eq!(s & HIGH_BIT, 0, "warning constant {s:#x} must not carry the high bit");
        assert!(*s > 0 && *s < 0x100);
    }
}
