use rawuefi::crc32::crc32;
use rawuefi::system::EFI_SYSTEM_TABLE_SIGNATURE;
use rawuefi::tables::EFI_TABLE_HEADER;

#[test]
fn crc32_matches_the_standard_check_value() {
    let data: Vec<u8> = b"123456789".to_vec();
    assert_eq!(crc32(&data), 0xCBF43926);
}

#[test]
fn crc32_of_nothing() {
    let data: Vec<u8> = Vec::new();
    assert_eq!(crc32(&data), 0);
}

#[test]
fn header_bytes_are_little_endian_at_documented_offsets() {
    let h = EFI_TABLE_HEADER {
        Signature: 0x1122334455667788,
        Revision: 0xAABBCCDD,
        HeaderSize: 24,
        Crc32: 0xDEADBEEF,
        Reserved: 0,
    };
    let bytes = h.bytes_with_zeroed_crc();
    assert_eq!(bytes.len(), 24);
    assert_eq!(&bytes[0..8], &[0x88, 0x77, 0x66, 0x55, 0x44, 0x33, 0x22, 0x11]);
    assert_eq!(&bytes[8..12], &[0xDD, 0xCC, 0xBB, 0xAA]);
    assert_eq!(&bytes[12..16], &[24, 0, 0, 0]);
    assert_eq!(&bytes[16..20], &[0, 0, 0, 0], "the checksum field is read as zero");
    assert_eq!(&bytes[20..24], &[0, 0, 0, 0]);
}

#[test]
fn header_checksum_round_trip() {
    let h = EFI_TABLE_HEADER::new(EFI_SYSTEM_TABLE_SIGNATURE, (2 << 16) | 100, 24);
    assert_eq!(h.Signature, EFI_SYSTEM_TABLE_SIGNATURE);
    assert_eq!(h.HeaderSize, 24);
    assert_eq!(h.Reserved, 0);
    let recomputed = crc32(&h.bytes_with_zeroed_crc());
    assert_eq!(h.Crc32, recomputed, "recomputing the checksum reproduces the stored one");
    assert!(h.crc_matches());
}

#[test]
fn header_checksum_rejects_a_changed_header() {
    let mut h = EFI_TABLE_HEADER::new(EFI_SYSTEM_TABLE_SIGNATURE, (2 << 16) | 100, 24);
    h.HeaderSize = 25;
    assert!(!h.crc_matches());
}

#[test]
fn header_size_is_read_from_the_header() {
    let h = EFI_TABLE_HEADER::new(0x55AA, 1, 4096);
    assert_eq!(h.table_size(), 4096);
}
